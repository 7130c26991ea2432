//! The closed catalog of known encoding variants.
//!
//! Each variant is described by an immutable [`EncodingDescriptor`]: its
//! canonical name, its pre-tokenization split pattern, its base special
//! tokens, and its reserved-ID-range policy.  Resolution is a pure lookup in
//! this table; it performs no I/O and fails with
//! [`LoadError::UnknownEncodingName`] on any name outside the catalog.

use vstd::prelude::*;
use vstd::string::StrSliceExecFns;
use vstd::string::StringExecFns;

use crate::error::{LoadError, LoadErrorView};

verus! {

/// Reserved-ID-range policy of a variant: either no synthetic tokens, or one
/// synthetic token for every integer in the closed interval `[lo, hi]`.
#[derive(Clone, Copy, PartialEq, Eq, Structural, Debug)]
pub enum ReservedRangePolicy {
    NoReserved,
    Reserved { lo: u64, hi: u64 },
}

/// Mathematical image of an [`EncodingDescriptor`].
#[verifier::ext_equal]
pub struct DescriptorView {
    pub name: Seq<char>,
    pub pattern: Seq<char>,
    pub base_specials: Seq<(Seq<char>, u64)>,
    pub reserved: ReservedRangePolicy,
}

/// The IDs of a special-token table are pairwise distinct.
pub open spec fn ids_unique(s: Seq<(Seq<char>, u64)>) -> bool {
    forall|i: int, j: int|
        #![trigger s[i].1, s[j].1]
        0 <= i < j < s.len() ==> s[i].1 != s[j].1
}

impl DescriptorView {
    /// A well-formed descriptor: base IDs are pairwise distinct, and, when a
    /// reserved range is declared, the range is a non-empty closed interval
    /// whose IDs stay clear of every base special token.
    pub open spec fn wf(self) -> bool {
        &&& ids_unique(self.base_specials)
        &&& match self.reserved {
            ReservedRangePolicy::NoReserved => true,
            ReservedRangePolicy::Reserved { lo, hi } => {
                &&& lo <= hi
                &&& hi < u64::MAX
                &&& forall|i: int|
                    0 <= i < self.base_specials.len() ==> !(lo
                        <= #[trigger] self.base_specials[i].1 <= hi)
            },
        }
    }
}

/// Immutable record of how to build a tokenizer for one named variant.
/// Resolved once per load request, never mutated.
pub struct EncodingDescriptor {
    pub name: String,
    pub pattern: String,
    pub base_specials: Vec<(String, u64)>,
    pub reserved: ReservedRangePolicy,
}

/// The special-token table of a descriptor, as a sequence of
/// (token characters, ID) pairs.
pub open spec fn specials_view(v: Vec<(String, u64)>) -> Seq<(Seq<char>, u64)> {
    v@.map_values(|p: (String, u64)| (p.0@, p.1))
}

impl View for EncodingDescriptor {
    type V = DescriptorView;

    open spec fn view(&self) -> DescriptorView {
        DescriptorView {
            name: self.name@,
            pattern: self.pattern@,
            base_specials: specials_view(self.base_specials),
            reserved: self.reserved,
        }
    }
}

/// Split pattern shared by the `o200k` family of variants.
pub const O200K_SPLIT_PATTERN: &'static str = "[^\\r\\n\\p{L}\\p{N}]?[\\p{Lu}\\p{Lt}\\p{Lm}\\p{Lo}\\p{M}]*[\\p{Ll}\\p{Lm}\\p{Lo}\\p{M}]+(?i:'s|'t|'re|'ve|'m|'ll|'d)?|[^\\r\\n\\p{L}\\p{N}]?[\\p{Lu}\\p{Lt}\\p{Lm}\\p{Lo}\\p{M}]+[\\p{Ll}\\p{Lm}\\p{Lo}\\p{M}]*(?i:'s|'t|'re|'ve|'m|'ll|'d)?|\\p{N}{1,3}| ?[^\\s\\p{L}\\p{N}]+[\\r\\n/]*|\\s*[\\r\\n]+|\\s+(?!\\S)|\\s+";

/// Split pattern of the `cl100k_base` variant.
pub const CL100K_SPLIT_PATTERN: &'static str = "'(?i:[sdmt]|ll|ve|re)|[^\\r\\n\\p{L}\\p{N}]?+\\p{L}+|\\p{N}{1,3}| ?[^\\s\\p{L}\\p{N}]++[\\r\\n]*|\\s*[\\r\\n]|\\s+(?!\\S)|\\s+";

/// Base special tokens of `o200k_harmony`: the chat-structure markers, each
/// with a fixed ID below the variant's reserved range.
pub open spec fn spec_o200k_harmony_base() -> Seq<(Seq<char>, u64)> {
    seq![
        ("<|startoftext|>"@, 199998u64),
        ("<|endoftext|>"@, 199999u64),
        ("<|return|>"@, 200002u64),
        ("<|constrain|>"@, 200003u64),
        ("<|channel|>"@, 200005u64),
        ("<|start|>"@, 200006u64),
        ("<|end|>"@, 200007u64),
        ("<|message|>"@, 200008u64),
        ("<|call|>"@, 200012u64),
    ]
}

/// Descriptor of the `o200k_harmony` variant: reserved IDs 200014 through
/// 201088 inclusive, on top of the base chat markers.
pub open spec fn spec_o200k_harmony() -> DescriptorView {
    DescriptorView {
        name: "o200k_harmony"@,
        pattern: O200K_SPLIT_PATTERN@,
        base_specials: spec_o200k_harmony_base(),
        reserved: ReservedRangePolicy::Reserved { lo: 200014, hi: 201088 },
    }
}

/// Descriptor of the `o200k_base` variant: no named base tokens of its own;
/// the whole tail 199998 through 201088 inclusive is reserved.
pub open spec fn spec_o200k_base() -> DescriptorView {
    DescriptorView {
        name: "o200k_base"@,
        pattern: O200K_SPLIT_PATTERN@,
        base_specials: Seq::empty(),
        reserved: ReservedRangePolicy::Reserved { lo: 199998, hi: 201088 },
    }
}

/// Base special tokens of `cl100k_base`.
pub open spec fn spec_cl100k_base_specials() -> Seq<(Seq<char>, u64)> {
    seq![
        ("<|endoftext|>"@, 100257u64),
        ("<|fim_prefix|>"@, 100258u64),
        ("<|fim_middle|>"@, 100259u64),
        ("<|fim_suffix|>"@, 100260u64),
        ("<|endofprompt|>"@, 100276u64),
    ]
}

/// Descriptor of the `cl100k_base` variant: the default-style variant, with
/// no reserved range beyond its named base tokens.
pub open spec fn spec_cl100k_base() -> DescriptorView {
    DescriptorView {
        name: "cl100k_base"@,
        pattern: CL100K_SPLIT_PATTERN@,
        base_specials: spec_cl100k_base_specials(),
        reserved: ReservedRangePolicy::NoReserved,
    }
}

/// The catalog as a partial map from name to descriptor: the closed set of
/// known variants.
pub open spec fn spec_resolve(name: Seq<char>) -> Option<DescriptorView> {
    if name == spec_o200k_harmony().name {
        Option::Some(spec_o200k_harmony())
    } else if name == spec_o200k_base().name {
        Option::Some(spec_o200k_base())
    } else if name == spec_cl100k_base().name {
        Option::Some(spec_cl100k_base())
    } else {
        Option::None
    }
}

/// Every descriptor in the catalog is well-formed.
pub proof fn lemma_catalog_wf(name: Seq<char>)
    ensures
        spec_resolve(name) matches Option::Some(d) ==> d.wf(),
{
    assert(spec_o200k_harmony().wf());
    assert(spec_o200k_base().wf());
    assert(spec_cl100k_base().wf());
}

/// Character-by-character string comparison.
fn str_eq(a: &str, b: &str) -> (r: bool)
    ensures
        r == (a@ == b@),
{
    let alen = a.unicode_len();
    let blen = b.unicode_len();
    if alen != blen {
        return false;
    }
    let mut i: usize = 0;
    while i < alen
        invariant
            alen == a@.len(),
            blen == b@.len(),
            alen == blen,
            0 <= i <= alen,
            forall|k: int| 0 <= k < i ==> a@[k] == b@[k],
        decreases alen - i,
    {
        if a.get_char(i) != b.get_char(i) {
            return false;
        }
        i = i + 1;
    }
    proof {
        assert(a@ =~= b@);
    }
    true
}

fn o200k_harmony_descriptor() -> (d: EncodingDescriptor)
    ensures
        d@ == spec_o200k_harmony(),
{
    let mut base: Vec<(String, u64)> = Vec::new();
    base.push((String::from_str("<|startoftext|>"), 199998));
    base.push((String::from_str("<|endoftext|>"), 199999));
    base.push((String::from_str("<|return|>"), 200002));
    base.push((String::from_str("<|constrain|>"), 200003));
    base.push((String::from_str("<|channel|>"), 200005));
    base.push((String::from_str("<|start|>"), 200006));
    base.push((String::from_str("<|end|>"), 200007));
    base.push((String::from_str("<|message|>"), 200008));
    base.push((String::from_str("<|call|>"), 200012));
    let d = EncodingDescriptor {
        name: String::from_str("o200k_harmony"),
        pattern: String::from_str(O200K_SPLIT_PATTERN),
        base_specials: base,
        reserved: ReservedRangePolicy::Reserved { lo: 200014, hi: 201088 },
    };
    proof {
        assert(specials_view(d.base_specials) =~= spec_o200k_harmony_base());
        assert(d@ =~= spec_o200k_harmony());
    }
    d
}

fn o200k_base_descriptor() -> (d: EncodingDescriptor)
    ensures
        d@ == spec_o200k_base(),
{
    let base: Vec<(String, u64)> = Vec::new();
    let d = EncodingDescriptor {
        name: String::from_str("o200k_base"),
        pattern: String::from_str(O200K_SPLIT_PATTERN),
        base_specials: base,
        reserved: ReservedRangePolicy::Reserved { lo: 199998, hi: 201088 },
    };
    proof {
        assert(specials_view(d.base_specials) =~= Seq::<(Seq<char>, u64)>::empty());
        assert(d@ =~= spec_o200k_base());
    }
    d
}

fn cl100k_base_descriptor() -> (d: EncodingDescriptor)
    ensures
        d@ == spec_cl100k_base(),
{
    let mut base: Vec<(String, u64)> = Vec::new();
    base.push((String::from_str("<|endoftext|>"), 100257));
    base.push((String::from_str("<|fim_prefix|>"), 100258));
    base.push((String::from_str("<|fim_middle|>"), 100259));
    base.push((String::from_str("<|fim_suffix|>"), 100260));
    base.push((String::from_str("<|endofprompt|>"), 100276));
    let d = EncodingDescriptor {
        name: String::from_str("cl100k_base"),
        pattern: String::from_str(CL100K_SPLIT_PATTERN),
        base_specials: base,
        reserved: ReservedRangePolicy::NoReserved,
    };
    proof {
        assert(specials_view(d.base_specials) =~= spec_cl100k_base_specials());
        assert(d@ =~= spec_cl100k_base());
    }
    d
}

/// Look a canonical encoding name up in the closed catalog.
///
/// Succeeds exactly on the known names, returning that variant's descriptor;
/// any other name fails with `UnknownEncodingName` carrying the name.  No I/O
/// is performed.
pub fn resolve_encoding(name: &str) -> (r: Result<EncodingDescriptor, LoadError>)
    ensures
        match r {
            Ok(d) => spec_resolve(name@) == Option::Some(d@) && d@.wf(),
            Err(e) => {
                &&& spec_resolve(name@) is None
                &&& e@ matches LoadErrorView::UnknownEncodingName(n) && n == name@
            },
        },
{
    proof {
        lemma_catalog_wf(name@);
    }
    if str_eq(name, "o200k_harmony") {
        Ok(o200k_harmony_descriptor())
    } else if str_eq(name, "o200k_base") {
        Ok(o200k_base_descriptor())
    } else if str_eq(name, "cl100k_base") {
        Ok(cl100k_base_descriptor())
    } else {
        Err(LoadError::UnknownEncodingName(String::from_str(name)))
    }
}

} // verus!
