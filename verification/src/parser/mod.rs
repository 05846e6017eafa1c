//! The parser: builds the syntax tree of a source file from its tokens.
pub mod string_literal;
pub mod grammar;
pub mod parser;
