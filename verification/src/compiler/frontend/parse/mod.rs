//! Parsing: the name of the module that a source file defines.
pub mod parser;
