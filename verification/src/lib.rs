//! Extraction of structured entities (cities, roads) from a chunked
//! geospatial dump and their idempotent load into a relational store.
//!
//! The verified core covers the tag-predicate extraction rules, decimal
//! parsing of population tags, normalization of bulk delta-encoded point
//! batches, per-chunk outcome aggregation with an explicit completion
//! barrier, the error sink, and the upsert model of the store.

pub mod backend;
pub mod decode;
pub mod dense;
pub mod entities;
pub mod errors;
pub mod extract;
pub mod run;
pub mod store;
pub mod text;
