//! Assignability of types.
use vstd::prelude::*;
use crate::compiler::model::types::{type_equal, types_equal, Type, TypeKind};

verus! {

/// Decides which types can be assigned to which.
pub struct TypeChecker {}

/// A value of type `source` can be assigned to a place of type `destination`: the types
/// are equal, the source is the bottom type `Never` (it never exists), the destination is
/// the top type `Any`, or either type failed to resolve (which was reported already).
pub open spec fn assignable(source: Type, destination: Type) -> bool {
    type_equal(source, destination) || source.spec_kind() is Never || destination.spec_kind() is Any
        || destination.spec_kind() is Unresolved || source.spec_kind() is Unresolved
}

impl TypeChecker {
    /// A type checker.
    pub fn new() -> (c: Self) {
        Self {}
    }

    /// Whether a value of type `source` can be assigned to a place of type `destination`
    /// (see `assignable`).
    pub fn is_assignable_to(&self, source: &Type, destination: &Type) -> (b: bool)
        ensures
            b == assignable(*source, *destination),
    {
        if types_equal(source, destination) {
            return true;
        }
        if matches!(source.kind(), TypeKind::Never) {
            return true;
        }
        if matches!(destination.kind(), TypeKind::Any) {
            return true;
        }
        if matches!(destination.kind(), TypeKind::Unresolved) {
            return true;
        }
        if matches!(source.kind(), TypeKind::Unresolved) {
            return true;
        }
        false
    }
}

impl Default for TypeChecker {
    fn default() -> (c: Self) {
        Self::new()
    }
}


/// Every type can be assigned to a place of its own type.
pub proof fn law_assignable_reflexive(t: Type)
    ensures
        assignable(t, t),
{
    crate::compiler::model::types::law_type_equal_reflexive(t);
}

} // verus!
