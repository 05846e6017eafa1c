//! A module of the compiler's syntax tree.
use vstd::prelude::*;
use crate::compiler::frontend::ast::node::AstNode;
use crate::compiler::frontend::ast::stmt::Stmt;
use crate::compiler::frontend::ast::AstData;
use crate::compiler::infra::full_name::FullName;

verus! {

/// A module: its name and its statements.
pub struct Module {
    pub name: FullName,
    pub stmts: Vec<AstNode<Stmt>>,
}

impl AstData for Module {}

} // verus!
