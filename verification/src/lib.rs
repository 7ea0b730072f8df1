//! Semantic search over line-delimited JSON records: the rules that decide
//! which records are kept, how they become points of a vector collection,
//! and what is reported about the best match of a query.
//!
//! Reading files, running the embedding model and talking to the vector
//! store are the caller's part; this crate takes and returns values.

pub mod json;
pub mod loader;
pub mod payload;
pub mod ingest;
pub mod provision;
pub mod query;
