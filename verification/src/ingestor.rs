//! Turning the contents of a document into records of the store.
//!
//! A creator collects the records of one document; writing them is
//! first-write-wins, so that a document can be ingested any number of times.

pub mod licensing_info;
pub mod package;
