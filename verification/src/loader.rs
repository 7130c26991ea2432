//! The two loading paths.
//!
//! The offline path takes the outcome of a local vocabulary-file parse and
//! runs the gates in order: resolve the name, accept the parsed vocabulary,
//! assemble the special-token table, construct the tokenizer.  It touches no
//! shared state and is safe for unlimited parallel callers.
//!
//! The online path wraps the same construction in a process-wide guard, so
//! that two threads racing to materialize a tokenizer never run the critical
//! section at the same time.

use vstd::prelude::*;

use crate::catalog::{
    ids_unique, lemma_catalog_wf, resolve_encoding, spec_resolve, DescriptorView,
    ReservedRangePolicy,
};
use crate::error::{LoadError, LoadErrorView};
use crate::specials::{assemble_special_tokens, has_id, lemma_assembled_id_set, spec_assemble};
use crate::tokenizer::{
    build_tokenizer, ids_disjoint, ranks_unique, spec_build, vocab_view, Tokenizer, TokenizerView,
};

verus! {

#[verifier::external_type_specification]
#[verifier::external_body]
#[verifier::reject_recursive_types(T)]
pub struct ExMutex<T: ?Sized>(std::sync::Mutex<T>);

#[verifier::external_type_specification]
#[verifier::external_body]
#[verifier::reject_recursive_types(T)]
pub struct ExMutexGuard<'a, T: ?Sized + 'a>(std::sync::MutexGuard<'a, T>);

/// Process-wide mutual exclusion for the online critical section.
///
/// One value of this type should exist per process, created lazily on first
/// use and kept until process exit; every online load goes through it.
/// Without it, two threads racing to materialize the same tokenizer can
/// corrupt shared storage or duplicate work.
pub struct GlobalLoadGuard {
    lock: std::sync::Mutex<()>,
}

/// A scoped permit for the online critical section.  While a permit is
/// alive, no other thread holds one from the same guard; dropping it
/// releases the guard, on every exit path.
pub struct LoadPermit<'a> {
    permit: std::sync::MutexGuard<'a, ()>,
}

impl GlobalLoadGuard {
    /// Relies on std::sync::Mutex::new: a fresh, unlocked guard.
    #[verifier::external_body]
    pub fn new() -> (g: GlobalLoadGuard) {
        GlobalLoadGuard { lock: std::sync::Mutex::new(()) }
    }

    /// Relies on std::sync::Mutex::lock: blocks until no other thread holds
    /// a permit from this guard, then returns one; at most one thread
    /// process-wide holds a permit at any time, and dropping it unlocks.
    /// A poisoned lock (a previous holder failed mid-section) is fatal for
    /// every later online load: the call panics rather than hand out a
    /// permit over state of unknown integrity.
    #[verifier::external_body]
    fn acquire(&self) -> (p: LoadPermit<'_>) {
        LoadPermit { permit: self.lock.lock().unwrap() }
    }
}

/// The outcome of the vocabulary-acquisition step, seen mathematically:
/// either the parsed (token bytes, rank) pairs or the parser's description
/// of the failure.
pub open spec fn vocab_outcome_view(p: Result<Vec<(Vec<u8>, u64)>, String>) -> Result<
    Seq<(Seq<u8>, u64)>,
    Seq<char>,
> {
    match p {
        Ok(v) => Result::Ok(vocab_view(v)),
        Err(details) => Result::Err(details@),
    }
}

/// What an offline load yields, as a function of the requested name and of
/// the vocabulary-acquisition outcome.  The gates fire in order: an unknown
/// name fails first, before any vocabulary data is considered; a parse
/// failure fails second; a violated construction invariant fails last.
pub open spec fn spec_offline_outcome(
    name: Seq<char>,
    vocab: Result<Seq<(Seq<u8>, u64)>, Seq<char>>,
) -> Result<TokenizerView, LoadErrorView> {
    match spec_resolve(name) {
        Option::None => Result::Err(LoadErrorView::UnknownEncodingName(name)),
        Option::Some(d) => match vocab {
            Result::Err(details) => Result::Err(LoadErrorView::InvalidVocabFile(details)),
            Result::Ok(v) => spec_build(v, spec_assemble(d), d.pattern),
        },
    }
}

/// What an online load yields: the catalog is the only data source here, so
/// a known name constructs over an empty learned vocabulary, and an unknown
/// name fails as the offline path does.
pub open spec fn spec_online_outcome(name: Seq<char>) -> Result<TokenizerView, LoadErrorView> {
    spec_offline_outcome(name, Result::Ok(Seq::empty()))
}

/// Build a tokenizer from a local, already parsed vocabulary and a resolved
/// descriptor.  No network access can occur: the function computes from its
/// arguments alone.
///
/// The gates run in order and each failure is typed: an unknown name yields
/// `UnknownEncodingName` without looking at the vocabulary outcome, a parse
/// failure yields `InvalidVocabFile` with the parser's details, and a
/// violated ID invariant yields `CoreConstructionFailed` and no tokenizer.
pub fn load_harmony_encoding_offline(name: &str, vocab: Result<Vec<(Vec<u8>, u64)>, String>) -> (r:
    Result<Tokenizer, LoadError>)
    ensures
        match r {
            Ok(t) => spec_offline_outcome(name@, vocab_outcome_view(vocab)) == Result::<
                TokenizerView,
                LoadErrorView,
            >::Ok(t@) && t@.wf(),
            Err(e) => spec_offline_outcome(name@, vocab_outcome_view(vocab)) == Result::<
                TokenizerView,
                LoadErrorView,
            >::Err(e@),
        },
{
    let descriptor = match resolve_encoding(name) {
        Ok(d) => d,
        Err(e) => {
            return Err(e);
        },
    };
    let parsed = match vocab {
        Ok(v) => v,
        Err(details) => {
            return Err(LoadError::InvalidVocabFile(details));
        },
    };
    let specials = assemble_special_tokens(&descriptor);
    build_tokenizer(parsed, specials, descriptor.pattern)
}

/// For every name the catalog knows, construction over the empty vocabulary
/// succeeds: the assembled special-token IDs are pairwise distinct and there
/// is no rank to collide with.
proof fn lemma_known_name_constructs(name: Seq<char>)
    ensures
        spec_resolve(name) matches Option::Some(d) ==> spec_online_outcome(name) == Result::<
            TokenizerView,
            LoadErrorView,
        >::Ok(
            TokenizerView {
                vocab: Seq::empty(),
                specials: spec_assemble(d),
                pattern: d.pattern,
            },
        ),
{
    lemma_catalog_wf(name);
    match spec_resolve(name) {
        Option::Some(d) => {
            assert(ranks_unique(Seq::<(Seq<u8>, u64)>::empty()));
            match d.reserved {
                ReservedRangePolicy::NoReserved => {
                    assert(spec_assemble(d) == d.base_specials);
                },
                ReservedRangePolicy::Reserved { lo, hi } => {
                    lemma_assembled_id_set(d, lo, hi);
                },
            }
            assert(ids_disjoint(spec_assemble(d), Seq::<(Seq<u8>, u64)>::empty()));
            assert(spec_build(Seq::empty(), spec_assemble(d), d.pattern) =~= Result::<
                TokenizerView,
                LoadErrorView,
            >::Ok(
                TokenizerView {
                    vocab: Seq::empty(),
                    specials: spec_assemble(d),
                    pattern: d.pattern,
                },
            ));
        },
        Option::None => {},
    }
}

/// Thread-safe loading of an encoding by name.
///
/// The whole critical section — resolution, special-token assembly and
/// construction — runs while this thread holds the process-wide guard, so
/// two online loads never overlap in time; the permit is released on every
/// exit path by going out of scope.  Vocabulary download and caching belong
/// to an outside pipeline; this core owns no data source beyond its catalog,
/// so the tokenizer is built over an empty learned vocabulary.
///
/// Returns a tokenizer exactly when the name is in the catalog, and
/// `UnknownEncodingName` otherwise.
pub fn load_harmony_encoding_safe(guard: &GlobalLoadGuard, name: &str) -> (r: Result<
    Tokenizer,
    LoadError,
>)
    ensures
        match r {
            Ok(t) => spec_online_outcome(name@) == Result::<TokenizerView, LoadErrorView>::Ok(t@)
                && t@.wf(),
            Err(e) => spec_online_outcome(name@) == Result::<TokenizerView, LoadErrorView>::Err(
                e@,
            ),
        },
        r is Ok <==> spec_resolve(name@) is Some,
{
    let _permit = guard.acquire();
    let empty_vocab: Vec<(Vec<u8>, u64)> = Vec::new();
    proof {
        assert(vocab_view(empty_vocab) =~= Seq::<(Seq<u8>, u64)>::empty());
    }
    let r = load_harmony_encoding_offline(name, Ok(empty_vocab));
    proof {
        lemma_known_name_constructs(name@);
    }
    r
}

/// Any two online loads of one name observe equivalent outcomes.
///
/// Every call's result is pinned to `spec_online_outcome` of the name alone,
/// so concurrent callers — however their critical sections are ordered —
/// each see either an equivalent successfully constructed tokenizer or an
/// identical error, never a partially initialized result.
pub proof fn lemma_online_loads_agree(
    name: Seq<char>,
    r1: Result<TokenizerView, LoadErrorView>,
    r2: Result<TokenizerView, LoadErrorView>,
)
    requires
        r1 == spec_online_outcome(name),
        r2 == spec_online_outcome(name),
    ensures
        r1 == r2,
{
}

/// An unknown encoding name always fails with `UnknownEncodingName`,
/// whatever the vocabulary-acquisition outcome was: the name gate fires
/// before any vocabulary data — and so before any filesystem access that
/// produced it — is considered.
pub proof fn lemma_unknown_name_fails_first(
    name: Seq<char>,
    vocab: Result<Seq<(Seq<u8>, u64)>, Seq<char>>,
)
    requires
        spec_resolve(name) is None,
    ensures
        spec_offline_outcome(name, vocab) == Result::<TokenizerView, LoadErrorView>::Err(
            LoadErrorView::UnknownEncodingName(name),
        ),
{
}

/// A vocabulary holding an ID that collides with any special-token ID of
/// the resolved variant makes the offline load fail with
/// `CoreConstructionFailed`: no tokenizer is returned.
pub proof fn lemma_colliding_vocabulary_fails(
    name: Seq<char>,
    d: DescriptorView,
    v: Seq<(Seq<u8>, u64)>,
    i: int,
)
    requires
        spec_resolve(name) == Option::Some(d),
        0 <= i < v.len(),
        has_id(spec_assemble(d), v[i].1),
    ensures
        spec_offline_outcome(name, Result::Ok(v)) matches Result::Err(
            LoadErrorView::CoreConstructionFailed(_),
        ),
{
    let s = spec_assemble(d);
    if ranks_unique(v) && ids_unique(s) {
        let k = choose|k: int| 0 <= k < s.len() && (#[trigger] s[k].1) == v[i].1;
        assert(s[k].1 == v[i].1);
        assert(!ids_disjoint(s, v));
    }
}

/// For a loaded variant whose reserved-range policy is `[lo, hi]`, the
/// tokenizer's special-token ID set is exactly the descriptor's base IDs
/// together with every integer of the range — no duplicate, and no overlap
/// with any vocabulary rank.
pub proof fn lemma_reserved_range_ids(
    name: Seq<char>,
    vocab: Result<Seq<(Seq<u8>, u64)>, Seq<char>>,
    t: TokenizerView,
    lo: u64,
    hi: u64,
)
    requires
        spec_offline_outcome(name, vocab) == Result::<TokenizerView, LoadErrorView>::Ok(t),
        spec_resolve(name) matches Option::Some(d) && d.reserved == (ReservedRangePolicy::Reserved {
            lo,
            hi,
        }),
    ensures
        spec_resolve(name) matches Option::Some(d) ==> forall|x: u64|
            #[trigger] has_id(t.specials, x) <==> (has_id(d.base_specials, x) || (lo <= x <= hi)),
        ids_unique(t.specials),
        ids_disjoint(t.specials, t.vocab),
{
    lemma_catalog_wf(name);
    match spec_resolve(name) {
        Option::Some(d) => {
            lemma_assembled_id_set(d, lo, hi);
            assert(t.specials == spec_assemble(d));
        },
        Option::None => {},
    }
}

} // verus!
