//! Error taxonomy of the loading core.

use vstd::prelude::*;

verus! {

/// Why a load request failed.
///
/// `UnknownEncodingName` is a configuration error: the name is not in the
/// closed catalog of known variants, detected before any vocabulary data is
/// touched.  `InvalidVocabFile` carries the collaborator's description of a
/// vocabulary parse failure.  `CoreConstructionFailed` reports a violated
/// construction invariant (a duplicated ID or an ID collision); no tokenizer
/// is returned in that case.
#[derive(Debug)]
pub enum LoadError {
    UnknownEncodingName(String),
    InvalidVocabFile(String),
    CoreConstructionFailed(String),
}

/// Mathematical image of a [`LoadError`]: each payload as a character sequence.
pub enum LoadErrorView {
    UnknownEncodingName(Seq<char>),
    InvalidVocabFile(Seq<char>),
    CoreConstructionFailed(Seq<char>),
}

impl View for LoadError {
    type V = LoadErrorView;

    open spec fn view(&self) -> LoadErrorView {
        match self {
            LoadError::UnknownEncodingName(s) => LoadErrorView::UnknownEncodingName(s@),
            LoadError::InvalidVocabFile(s) => LoadErrorView::InvalidVocabFile(s@),
            LoadError::CoreConstructionFailed(s) => LoadErrorView::CoreConstructionFailed(s@),
        }
    }
}

} // verus!
