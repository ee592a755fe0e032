//! A query dispatch and aggregation engine for documentation-set search
//! backends.
//!
//! A raw query is parsed into a backend-selection keyword plus a search
//! term; every registered backend is asked for its matching docsets and,
//! when a term is present, for ranked matches inside each of them.  The
//! per-backend results are converted into a single displayable result
//! list, each result carrying an opaque, serializable reference that a
//! later "activate" action resolves back to (backend, docset, item).
//!
//! Text is modeled throughout as UTF-8 bytes (`Vec<u8>`), so that every
//! rule on it can be stated over `Seq<u8>` and proved.

pub mod dash;
pub mod entry_data;
pub mod krunner;
pub mod provider;
pub mod text;
