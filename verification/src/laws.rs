//! What holds of the archive as a whole.

pub mod answers;
pub mod archive;
pub mod documents;
pub mod failures;
pub mod instants;
pub mod operations;
pub mod records;
pub mod requests;
pub mod service;
pub mod storage;
pub mod texts;
pub mod views;
pub mod words;
