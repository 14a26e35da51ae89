//! A streaming source operator for a pull-based, multi-threaded query
//! pipeline: it turns a delimited text file into an ordered sequence of
//! bounded-size, column-oriented batches.
//!
//! The verified core covers deferred first-use file opening, selection
//! between the memory-mapped and the buffered decode strategy, chunk-size
//! determination, and the allocation of globally ordered chunk indices.
//! The decoding itself is done by the polars reader, driven from an
//! unverified shell that performs the file handling.

pub mod chunking;
pub mod config;
pub mod indexing;
pub mod polars_api;
pub mod source;
