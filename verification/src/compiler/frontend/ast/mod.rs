//! Syntax-tree nodes of the compiler.
use vstd::prelude::*;

pub mod expr;
pub mod module;
pub mod node;
pub mod tree;
pub mod qualified_name;
pub mod stmt;
pub mod print_ast;

verus! {

/// The payload of a syntax-tree node.
pub trait AstData {}

} // verus!
