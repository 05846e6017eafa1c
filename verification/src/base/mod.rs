//! Basic building blocks: errors, source files and excerpts, values.
pub mod error;
pub mod source_error;
pub mod file_location;
pub mod source_excerpt;
pub mod source_file;
pub mod value;
pub mod ansi;
