//! Construction of the immutable tokenizer artifact.
//!
//! Construction enforces the ID invariants at the door: vocabulary ranks are
//! pairwise distinct, special-token IDs are pairwise distinct, and the two
//! sets are disjoint.  It either fully succeeds or yields nothing; a caller
//! never sees a partially built tokenizer.

use vstd::prelude::*;
use vstd::string::StringExecFns;

use crate::catalog::{ids_unique, specials_view};
use crate::error::{LoadError, LoadErrorView};

verus! {

/// The learned vocabulary as a sequence of (token bytes, rank) pairs.
pub open spec fn vocab_view(v: Vec<(Vec<u8>, u64)>) -> Seq<(Seq<u8>, u64)> {
    v@.map_values(|p: (Vec<u8>, u64)| (p.0@, p.1))
}

/// The ranks of a vocabulary are pairwise distinct.
pub open spec fn ranks_unique(v: Seq<(Seq<u8>, u64)>) -> bool {
    forall|i: int, j: int|
        #![trigger v[i].1, v[j].1]
        0 <= i < j < v.len() ==> v[i].1 != v[j].1
}

/// No special-token ID equals any vocabulary rank.
pub open spec fn ids_disjoint(s: Seq<(Seq<char>, u64)>, v: Seq<(Seq<u8>, u64)>) -> bool {
    forall|i: int, j: int|
        #![trigger s[i].1, v[j].1]
        0 <= i < s.len() && 0 <= j < v.len() ==> s[i].1 != v[j].1
}

/// Mathematical image of a [`Tokenizer`].
#[verifier::ext_equal]
pub struct TokenizerView {
    pub vocab: Seq<(Seq<u8>, u64)>,
    pub specials: Seq<(Seq<char>, u64)>,
    pub pattern: Seq<char>,
}

impl TokenizerView {
    /// The construction invariants: distinct ranks, distinct special IDs,
    /// and no ID shared between the two.
    pub open spec fn wf(self) -> bool {
        &&& ranks_unique(self.vocab)
        &&& ids_unique(self.specials)
        &&& ids_disjoint(self.specials, self.vocab)
    }
}

/// The fully constructed, immutable artifact: the learned vocabulary, the
/// combined special-token table, and the split pattern it was built with.
pub struct Tokenizer {
    vocab: Vec<(Vec<u8>, u64)>,
    specials: Vec<(String, u64)>,
    pattern: String,
}

impl View for Tokenizer {
    type V = TokenizerView;

    closed spec fn view(&self) -> TokenizerView {
        TokenizerView {
            vocab: vocab_view(self.vocab),
            specials: specials_view(self.specials),
            pattern: self.pattern@,
        }
    }
}

/// What construction yields: the assembled tokenizer when every invariant
/// holds, and otherwise the first violated invariant, in the order the
/// checks run.
pub open spec fn spec_build(
    vocab: Seq<(Seq<u8>, u64)>,
    specials: Seq<(Seq<char>, u64)>,
    pattern: Seq<char>,
) -> Result<TokenizerView, LoadErrorView> {
    if !ranks_unique(vocab) {
        Result::Err(LoadErrorView::CoreConstructionFailed("duplicate rank in vocabulary"@))
    } else if !ids_unique(specials) {
        Result::Err(LoadErrorView::CoreConstructionFailed("duplicate special token id"@))
    } else if !ids_disjoint(specials, vocab) {
        Result::Err(
            LoadErrorView::CoreConstructionFailed(
                "special token id collides with a vocabulary rank"@,
            ),
        )
    } else {
        Result::Ok(TokenizerView { vocab, specials, pattern })
    }
}

fn vocab_ranks_unique(v: &Vec<(Vec<u8>, u64)>) -> (b: bool)
    ensures
        b == ranks_unique(vocab_view(*v)),
{
    let n = v.len();
    let mut i: usize = 0;
    while i < n
        invariant
            n == v@.len(),
            0 <= i <= n,
            forall|p: int, q: int|
                #![trigger v@[p].1, v@[q].1]
                0 <= p < q < n && p < i ==> v@[p].1 != v@[q].1,
        decreases n - i,
    {
        let mut j: usize = i + 1;
        while j < n
            invariant
                n == v@.len(),
                0 <= i < j <= n,
                forall|q: int| i < q < j ==> v@[i as int].1 != #[trigger] v@[q].1,
            decreases n - j,
        {
            if v[i].1 == v[j].1 {
                proof {
                    assert(vocab_view(*v)[i as int].1 == vocab_view(*v)[j as int].1);
                }
                return false;
            }
            j = j + 1;
        }
        i = i + 1;
    }
    proof {
        assert forall|p: int, q: int|
            0 <= p < q < vocab_view(*v).len() implies #[trigger] vocab_view(*v)[p].1
            != #[trigger] vocab_view(*v)[q].1 by {
            assert(v@[p].1 != v@[q].1);
        }
    }
    true
}

fn special_ids_unique(s: &Vec<(String, u64)>) -> (b: bool)
    ensures
        b == ids_unique(specials_view(*s)),
{
    let n = s.len();
    let mut i: usize = 0;
    while i < n
        invariant
            n == s@.len(),
            0 <= i <= n,
            forall|p: int, q: int|
                #![trigger s@[p].1, s@[q].1]
                0 <= p < q < n && p < i ==> s@[p].1 != s@[q].1,
        decreases n - i,
    {
        let mut j: usize = i + 1;
        while j < n
            invariant
                n == s@.len(),
                0 <= i < j <= n,
                forall|q: int| i < q < j ==> s@[i as int].1 != #[trigger] s@[q].1,
            decreases n - j,
        {
            if s[i].1 == s[j].1 {
                proof {
                    assert(specials_view(*s)[i as int].1 == specials_view(*s)[j as int].1);
                }
                return false;
            }
            j = j + 1;
        }
        i = i + 1;
    }
    proof {
        assert forall|p: int, q: int|
            0 <= p < q < specials_view(*s).len() implies #[trigger] specials_view(*s)[p].1
            != #[trigger] specials_view(*s)[q].1 by {
            assert(s@[p].1 != s@[q].1);
        }
    }
    true
}

fn specials_clear_of_vocab(s: &Vec<(String, u64)>, v: &Vec<(Vec<u8>, u64)>) -> (b: bool)
    ensures
        b == ids_disjoint(specials_view(*s), vocab_view(*v)),
{
    let n = s.len();
    let m = v.len();
    let mut i: usize = 0;
    while i < n
        invariant
            n == s@.len(),
            m == v@.len(),
            0 <= i <= n,
            forall|p: int, q: int|
                #![trigger s@[p].1, v@[q].1]
                0 <= p < i && 0 <= q < m ==> s@[p].1 != v@[q].1,
        decreases n - i,
    {
        let mut j: usize = 0;
        while j < m
            invariant
                n == s@.len(),
                m == v@.len(),
                0 <= i < n,
                0 <= j <= m,
                forall|q: int| 0 <= q < j ==> s@[i as int].1 != #[trigger] v@[q].1,
            decreases m - j,
        {
            if s[i].1 == v[j].1 {
                proof {
                    assert(specials_view(*s)[i as int].1 == vocab_view(*v)[j as int].1);
                }
                return false;
            }
            j = j + 1;
        }
        i = i + 1;
    }
    proof {
        assert forall|p: int, q: int|
            0 <= p < specials_view(*s).len() && 0 <= q < vocab_view(*v).len() implies #[trigger] specials_view(
            *s,
        )[p].1 != #[trigger] vocab_view(*v)[q].1 by {
            assert(s@[p].1 != v@[q].1);
        }
    }
    true
}

/// Build a tokenizer from a vocabulary, a combined special-token table and a
/// split pattern, enforcing the ID invariants.
///
/// Succeeds if and only if vocabulary ranks are pairwise distinct, special
/// IDs are pairwise distinct, and the two never share a value; the failure
/// names the first violated invariant and yields no tokenizer.
pub fn build_tokenizer(
    vocab: Vec<(Vec<u8>, u64)>,
    specials: Vec<(String, u64)>,
    pattern: String,
) -> (r: Result<Tokenizer, LoadError>)
    ensures
        match r {
            Ok(t) => spec_build(vocab_view(vocab), specials_view(specials), pattern@)
                == Result::<TokenizerView, LoadErrorView>::Ok(t@) && t@.wf(),
            Err(e) => spec_build(vocab_view(vocab), specials_view(specials), pattern@)
                == Result::<TokenizerView, LoadErrorView>::Err(e@),
        },
{
    if !vocab_ranks_unique(&vocab) {
        return Err(
            LoadError::CoreConstructionFailed(String::from_str("duplicate rank in vocabulary")),
        );
    }
    if !special_ids_unique(&specials) {
        return Err(
            LoadError::CoreConstructionFailed(String::from_str("duplicate special token id")),
        );
    }
    if !specials_clear_of_vocab(&specials, &vocab) {
        return Err(
            LoadError::CoreConstructionFailed(
                String::from_str("special token id collides with a vocabulary rank"),
            ),
        );
    }
    let t = Tokenizer { vocab, specials, pattern };
    proof {
        assert(spec_build(t@.vocab, t@.specials, t@.pattern) =~= Result::<
            TokenizerView,
            LoadErrorView,
        >::Ok(t@));
    }
    Ok(t)
}

impl Tokenizer {
    /// The combined special-token table, base tokens first, then the
    /// reserved range in ascending ID order.
    pub fn special_tokens(&self) -> (r: &Vec<(String, u64)>)
        ensures
            specials_view(*r) == self@.specials,
    {
        &self.specials
    }

    /// How many special tokens the tokenizer owns.
    pub fn special_token_count(&self) -> (n: usize)
        ensures
            n == self@.specials.len(),
    {
        self.specials.len()
    }

    /// The learned vocabulary, as (token bytes, rank) pairs.
    pub fn vocabulary(&self) -> (r: &Vec<(Vec<u8>, u64)>)
        ensures
            vocab_view(*r) == self@.vocab,
    {
        &self.vocab
    }

    /// The split pattern the tokenizer was built with.
    pub fn split_pattern(&self) -> (r: &String)
        ensures
            r@ == self@.pattern,
    {
        &self.pattern
    }
}

} // verus!
