//! Infrastructure: source files and spans, locations, qualified names.
pub mod source_file;
pub mod source_span;
pub mod location;
pub mod full_name;
pub mod shared;
pub mod diagnostic;
