//! Tokens and the lexer that produces them from source text.
pub mod token;
pub mod lexer;
