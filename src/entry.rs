//! What the listing shows of one directory entry.

pub mod file_data;
pub mod permissions;
pub mod type_parser;
