//! The audit log's records and where the log lives.

pub mod entry;
pub mod file_path;
