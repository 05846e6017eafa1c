//! The syntax tree of a compilation unit, and its printed form.
pub mod ast_node;
pub mod identifier;
pub mod expression;
pub mod statement;
pub mod fun_definition;
pub mod compilation_unit;
