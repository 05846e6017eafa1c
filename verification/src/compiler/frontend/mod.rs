//! The compiler's front end: tokens, syntax and name resolution.
pub mod lex;
pub mod resolve;
pub mod ast;
pub mod parse;
