//! Sorting of delimited credential records into a good output and named bad
//! buckets: tokenizing, an ordered rule pipeline, hash-shape detection by a
//! length-indexed pattern catalog, and the naming and caching of buckets.

pub mod catalog;
pub mod classifier;
pub mod config;
pub mod hash_regex;
pub mod router;
pub mod tokenizer;
