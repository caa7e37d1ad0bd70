//! Metadata layer of a columnar storage engine's data-file subsystem.
//!
//! Each immutable data file (SST) carries structural metadata: the table
//! schema at write time, the time range of its rows, the highest write
//! sequence number it contains, and format-specific statistics. This crate
//! holds the in-memory representation of that metadata as a format-tagged
//! envelope, the lossless conversion between the envelope and its durable
//! wire encoding, a bounded least-recently-used cache with singleflight
//! fetch coalescing, and a batch fetcher that resolves the metadata of many
//! files in input order with fail-fast error reporting.

pub mod cache;
pub mod codec;
pub mod fetcher;
pub mod legacy;
pub mod meta_data;
pub mod schema;
pub mod source;
pub mod time_range;
pub mod types;
