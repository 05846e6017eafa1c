//! Identifiers.
use vstd::prelude::*;
use crate::ast::ast_node::AstNode;

verus! {

/// An identifier: a name.
pub struct Identifier {
    pub name: String,
}

/// An identifier with its location.
pub type IdentifierNode<'source> = AstNode<'source, Identifier>;

impl Identifier {
    /// An identifier with the given name.
    pub fn new(name: String) -> (i: Self)
        ensures
            i.name@ == name@,
    {
        Identifier { name }
    }
}

} // verus!
