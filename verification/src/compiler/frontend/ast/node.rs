//! Syntax-tree nodes: a payload, its type and its span.
use vstd::prelude::*;
use crate::compiler::frontend::ast::AstData;
use crate::compiler::infra::source_span::SourceSpan;
use crate::compiler::model::types::Type;

verus! {

/// A node of the syntax tree: what it is, its type, and where it stands.
pub struct AstNode<T: AstData> {
    pub data: Box<T>,
    pub ty: Type,
    pub location: SourceSpan,
}

impl<T: AstData> AstNode<T> {
    /// A node holding `data`, of type `ty`, at `location`.
    pub fn new(data: T, location: SourceSpan, ty: Type) -> (n: Self)
        ensures
            *n.data == data,
            n.location == location,
            n.ty == ty,
    {
        Self { data: Box::new(data), location, ty }
    }
}

} // verus!
