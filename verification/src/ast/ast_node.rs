//! Syntax-tree nodes: a payload and the source range it was read from.
use vstd::prelude::*;
use crate::base::file_location::FileLocation;

verus! {

/// A node of the syntax tree: where it stands in the source, and what it is.
pub struct AstNode<'source, T> {
    pub location: FileLocation<'source>,
    pub node: T,
}

impl<'source, T> AstNode<'source, T> {
    /// A node at `location`.
    pub fn new(location: FileLocation<'source>, node: T) -> (n: Self)
        ensures
            n.location == location,
            n.node == node,
    {
        Self { location, node }
    }
}

} // verus!
