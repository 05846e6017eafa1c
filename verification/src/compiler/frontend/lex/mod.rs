//! Tokens of the compiler.
pub mod token;
