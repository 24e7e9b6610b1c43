//! Helpers around a search engine, a key-value cache and a message queue,
//! plus text and hashing utilities.
pub mod clean_text;
pub mod errors;
pub mod hashit;
pub mod opensearch;
pub mod redis;
pub mod sqs;
