//! A store of "App" configuration documents kept one file per document.
//!
//! The library holds the store's rules: how identifiers and file names are
//! formed, which directory entries are documents, how the concurrency token
//! is derived from a file's bytes, and how each operation turns what the
//! filesystem and the codec reported into a document or an error.

pub mod model;
pub mod naming;
pub mod digest;
pub mod store;
pub mod laws;
