//! A catalog of strategy documents, each owned by the identity that stored it.
//!
//! `record` holds the documents and their abstract values, `catalog` the
//! store with its create, update, delete and read operations, `laws` the
//! properties that relate those operations, and `text` the decimal rendering
//! used in confirmation lines.
pub mod catalog;
pub mod laws;
pub mod record;
pub mod text;
