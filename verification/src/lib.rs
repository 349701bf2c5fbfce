//! Core logic of an incremental file-indexing pipeline.
//!
//! The library keeps a semantic vector index in step with a watched file
//! tree: it classifies raw file-system change notifications into index
//! operations, filters paths by relevance, trims and fingerprints extracted
//! text, chunks passages for embedding, routes them to an embedding model,
//! and applies idempotent upsert/delete operations to an in-memory model of
//! the vector store, reporting one observation per processed path.
//!
//! All I/O (file watching, content extraction, the embedding model itself,
//! the persistent store backend) lives outside this crate; the functions
//! here take the outside results as plain values and are verified for every
//! value of them.

pub mod chunker;
pub mod classify;
pub mod event_loop;
pub mod observe;
pub mod pipeline;
pub mod relevance;
pub mod router;
pub mod store;
pub mod supervisor;
pub mod text;
