//! Request preparation for a zero-shot text classifier: locating the model
//! files, batching token sequences, checking what the model returned and
//! laying the scores out as a table.

pub mod batch;
pub mod cli;
pub mod config;
pub mod error;
pub mod prediction;
pub mod report;
pub mod resource;
