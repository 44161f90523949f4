//! Values that several owners hold together.
use std::sync::Arc;
use vstd::prelude::*;

verus! {

/// `Arc::clone` makes another pointer to the same value: what the new pointer
/// points to is what the old one points to.
#[verifier::external_body]
pub(crate) fn share<T>(pointer: &Arc<T>) -> (shared: Arc<T>)
    ensures
        shared == *pointer,
{
    Arc::clone(pointer)
}

} // verus!
