//! Thread-safe, race-free construction of byte-pair-encoding tokenizers.
//!
//! The crate resolves a canonical encoding name to its descriptor, assembles
//! the variant's special-token table (base tokens plus a reserved-ID range),
//! and builds an immutable tokenizer whose special-token IDs are pairwise
//! distinct and disjoint from every learned vocabulary rank.  The online path
//! is serialized through a process-wide guard; the offline path takes the
//! outcome of a local vocabulary-file parse and performs no I/O of its own.

pub mod catalog;
pub mod error;
pub mod loader;
pub mod specials;
pub mod tokenizer;

pub use error::LoadError;
pub use loader::{load_harmony_encoding_safe, load_harmony_encoding_offline, GlobalLoadGuard};
pub use tokenizer::Tokenizer;
