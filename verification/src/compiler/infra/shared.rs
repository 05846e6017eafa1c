//! Shared values: reference-counted pointers to immutable data.
use vstd::prelude::*;
use std::rc::Rc;
use std::sync::Arc;

verus! {

/// Another pointer to the same value (`Rc::clone`): the value is shared, not copied,
/// so the new pointer refers to an equal value.
#[verifier::external_body]
pub(crate) fn share<T>(r: &Rc<T>) -> (c: Rc<T>)
    ensures
        c == *r,
{
    Rc::clone(r)
}

/// Another pointer to the same value (`Arc::clone`): the value is shared, not copied,
/// so the new pointer refers to an equal value.
#[verifier::external_body]
pub(crate) fn share_arc<T>(r: &Arc<T>) -> (c: Arc<T>)
    ensures
        c == *r,
{
    Arc::clone(r)
}

} // verus!
