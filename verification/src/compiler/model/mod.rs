//! The compiler's model of types.
pub mod types;
pub mod type_factory;
