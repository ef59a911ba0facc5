//! Shared ownership of what the router only passes along.

use std::sync::Arc;
use vstd::prelude::*;

verus! {

/// Calls `Arc::clone`: another pointer to the same value.
#[verifier::external_body]
pub(crate) fn share<A>(pointer: &Arc<A>) -> (other: Arc<A>)
    ensures
        other == *pointer,
{
    pointer.clone()
}

} // verus!
