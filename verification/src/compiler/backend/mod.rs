//! Back ends of the compiler.
pub mod c;
