//! Assembly of a variant's full special-token table.
//!
//! The table is the descriptor's base special tokens followed by one
//! synthetic token per integer of the reserved range, each named by the fixed
//! template `<|reserved_N|>` with `N` the ID in decimal.

use vstd::prelude::*;
use vstd::string::StringExecFns;

use crate::catalog::{
    ids_unique, specials_view, DescriptorView, EncodingDescriptor, ReservedRangePolicy,
};

verus! {

/// The decimal digit character of `d`, for `0 <= d <= 9`.
pub open spec fn spec_digit(d: int) -> char {
    if d == 0 {
        '0'
    } else if d == 1 {
        '1'
    } else if d == 2 {
        '2'
    } else if d == 3 {
        '3'
    } else if d == 4 {
        '4'
    } else if d == 5 {
        '5'
    } else if d == 6 {
        '6'
    } else if d == 7 {
        '7'
    } else if d == 8 {
        '8'
    } else {
        '9'
    }
}

/// The usual decimal rendering of `n`, most significant digit first, with no
/// leading zeros (a lone `'0'` for zero).
pub open spec fn spec_decimal(n: nat) -> Seq<char>
    decreases n,
{
    if n < 10 {
        seq![spec_digit(n as int)]
    } else {
        spec_decimal(n / 10) + seq![spec_digit((n % 10) as int)]
    }
}

/// The name the fixed template gives to the reserved token with ID `id`.
pub open spec fn spec_reserved_name(id: u64) -> Seq<char> {
    "<|reserved_"@ + spec_decimal(id as nat) + "|>"@
}

/// The synthetic entries of the reserved range `[lo, hi]`, in ascending ID
/// order.
pub open spec fn spec_reserved_entries(lo: u64, hi: u64) -> Seq<(Seq<char>, u64)>
    recommends
        lo <= hi < u64::MAX,
{
    Seq::new(
        (hi - lo + 1) as nat,
        |k: int| (spec_reserved_name((lo + k) as u64), (lo + k) as u64),
    )
}

/// The full special-token table of a descriptor: base tokens, then the
/// reserved range (if the variant declares one).
pub open spec fn spec_assemble(d: DescriptorView) -> Seq<(Seq<char>, u64)> {
    match d.reserved {
        ReservedRangePolicy::NoReserved => d.base_specials,
        ReservedRangePolicy::Reserved { lo, hi } => d.base_specials + spec_reserved_entries(
            lo,
            hi,
        ),
    }
}

fn digit_str(d: u64) -> (r: &'static str)
    requires
        d < 10,
    ensures
        r@ == seq![spec_digit(d as int)],
{
    let r = if d == 0 {
        "0"
    } else if d == 1 {
        "1"
    } else if d == 2 {
        "2"
    } else if d == 3 {
        "3"
    } else if d == 4 {
        "4"
    } else if d == 5 {
        "5"
    } else if d == 6 {
        "6"
    } else if d == 7 {
        "7"
    } else if d == 8 {
        "8"
    } else {
        "9"
    };
    proof {
        reveal_strlit("0");
        reveal_strlit("1");
        reveal_strlit("2");
        reveal_strlit("3");
        reveal_strlit("4");
        reveal_strlit("5");
        reveal_strlit("6");
        reveal_strlit("7");
        reveal_strlit("8");
        reveal_strlit("9");
        assert(r@ =~= seq![spec_digit(d as int)]);
    }
    r
}

fn push_decimal(s: &mut String, n: u64)
    ensures
        final(s)@ == old(s)@ + spec_decimal(n as nat),
    decreases n,
{
    if n < 10 {
        s.append(digit_str(n));
    } else {
        push_decimal(s, n / 10);
        s.append(digit_str(n % 10));
        proof {
            assert(s@ =~= old(s)@ + spec_decimal(n as nat));
        }
    }
}

/// Render the name of the reserved token with ID `id`.
pub fn reserved_token_name(id: u64) -> (r: String)
    ensures
        r@ == spec_reserved_name(id),
{
    let mut s = String::from_str("<|reserved_");
    push_decimal(&mut s, id);
    s.append("|>");
    proof {
        assert(s@ =~= spec_reserved_name(id));
    }
    s
}

/// Assemble the full special-token table of a resolved descriptor: its base
/// special tokens followed by the synthetic tokens of its reserved range.
pub fn assemble_special_tokens(d: &EncodingDescriptor) -> (r: Vec<(String, u64)>)
    requires
        d@.wf(),
    ensures
        specials_view(r) == spec_assemble(d@),
{
    let mut out: Vec<(String, u64)> = Vec::new();
    let n = d.base_specials.len();
    let mut i: usize = 0;
    while i < n
        invariant
            n == d.base_specials.len(),
            0 <= i <= n,
            specials_view(out) =~= specials_view(d.base_specials).take(i as int),
        decreases n - i,
    {
        proof {
            let bv0 = specials_view(d.base_specials);
            assert(bv0.len() == n);
            assert(bv0.take(i as int).len() == i);
            assert(specials_view(out).len() == i);
        }
        let entry = &d.base_specials[i];
        out.push((entry.0.clone(), entry.1));
        i = i + 1;
        proof {
            let bv = specials_view(d.base_specials);
            assert(specials_view(out).len() == i);
            assert forall|k: int| 0 <= k < i implies specials_view(out)[k] == bv.take(
                i as int,
            )[k] by {}
            assert(specials_view(out) =~= bv.take(i as int));
        }
    }
    proof {
        assert(specials_view(out) =~= d@.base_specials);
    }
    match d.reserved {
        ReservedRangePolicy::NoReserved => {
            proof {
                assert(specials_view(out) =~= spec_assemble(d@));
            }
        },
        ReservedRangePolicy::Reserved { lo, hi } => {
            let mut id: u64 = lo;
            while id <= hi
                invariant
                    lo <= hi < u64::MAX,
                    lo <= id <= hi + 1,
                    d@.reserved == (ReservedRangePolicy::Reserved { lo, hi }),
                    specials_view(out) =~= d@.base_specials + spec_reserved_entries(lo, hi).take(
                        id - lo,
                    ),
                decreases hi + 1 - id,
            {
                let token = reserved_token_name(id);
                let ghost raw0 = out@;
                out.push((token, id));
                id = id + 1;
                proof {
                    let b = d@.base_specials;
                    let r0 = spec_reserved_entries(lo, hi);
                    let prev = (id - 1 - lo) as int;
                    assert(out@ == raw0.push((token, (id - 1) as u64)));
                    assert(r0.len() == hi - lo + 1);
                    assert(r0.take(prev).len() == prev);
                    assert(r0.take(prev + 1).len() == prev + 1);
                    assert(raw0.map_values(|p: (String, u64)| (p.0@, p.1)) == b + r0.take(prev));
                    assert(raw0.len() == b.len() + prev);
                    assert(specials_view(out).len() == b.len() + prev + 1);
                    assert(r0[prev] == (spec_reserved_name((id - 1) as u64), (id - 1) as u64));
                    assert forall|k: int|
                        0 <= k < b.len() + prev + 1 implies specials_view(out)[k] == (b + r0.take(
                            prev + 1,
                        ))[k] by {
                        if k < b.len() + prev {
                            assert(out@[k] == raw0[k]);
                            assert(specials_view(out)[k] == (b + r0.take(prev))[k]);
                            if k >= b.len() {
                                assert(r0.take(prev + 1)[k - b.len()] == r0[k - b.len()]);
                                assert(r0.take(prev)[k - b.len()] == r0[k - b.len()]);
                            }
                        } else {
                            assert(out@[k] == (token, (id - 1) as u64));
                            assert((b + r0.take(prev + 1))[k] == r0[prev]);
                        }
                    }
                    assert(specials_view(out) =~= b + r0.take(id - lo));
                }
            }
            proof {
                assert(spec_reserved_entries(lo, hi).take(id - lo) =~= spec_reserved_entries(
                    lo,
                    hi,
                ));
                assert(specials_view(out) =~= spec_assemble(d@));
            }
        },
    }
    out
}

/// An ID occurs somewhere in a special-token table.
pub open spec fn has_id(s: Seq<(Seq<char>, u64)>, x: u64) -> bool {
    exists|i: int| 0 <= i < s.len() && (#[trigger] s[i].1) == x
}

/// The ID set of an assembled table with reserved range `[lo, hi]` is exactly
/// the base IDs together with the integers of the range, and its IDs are
/// pairwise distinct.
pub proof fn lemma_assembled_id_set(d: DescriptorView, lo: u64, hi: u64)
    requires
        d.wf(),
        d.reserved == (ReservedRangePolicy::Reserved { lo, hi }),
    ensures
        forall|x: u64|
            #[trigger] has_id(spec_assemble(d), x) <==> (has_id(d.base_specials, x) || (lo <= x
                <= hi)),
        ids_unique(spec_assemble(d)),
{
    let s = spec_assemble(d);
    let b = d.base_specials;
    let r = spec_reserved_entries(lo, hi);
    assert(s == b + r);
    assert forall|x: u64|
        #[trigger] has_id(s, x) <==> (has_id(b, x) || (lo <= x <= hi)) by {
        if has_id(s, x) {
            let i = choose|i: int| 0 <= i < s.len() && (#[trigger] s[i].1) == x;
            if i < b.len() {
                assert(b[i].1 == x);
                assert(has_id(b, x));
            } else {
                assert(s[i] == r[i - b.len()]);
                assert(x == (lo + (i - b.len())) as u64);
            }
        }
        if has_id(b, x) {
            let i = choose|i: int| 0 <= i < b.len() && (#[trigger] b[i].1) == x;
            assert(s[i].1 == x);
            assert(has_id(s, x));
        }
        if lo <= x <= hi {
            let k = x - lo;
            assert(s[b.len() + k].1 == x);
            assert(has_id(s, x));
        }
    };
    assert forall|i: int, j: int| 0 <= i < j < s.len() implies s[i].1 != s[j].1 by {
        if j < b.len() {
            assert(b[i].1 != b[j].1);
        } else if i >= b.len() {
            assert(s[i].1 == (lo + (i - b.len())) as u64);
            assert(s[j].1 == (lo + (j - b.len())) as u64);
        } else {
            assert(s[i].1 == b[i].1);
            assert(!(lo <= b[i].1 <= hi));
            assert(lo <= s[j].1 <= hi);
        }
    };
}

} // verus!

