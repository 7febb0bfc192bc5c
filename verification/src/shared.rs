//! Shared ownership of what an endpoint and its clones have in common.

use vstd::prelude::*;
use std::sync::Arc;

verus! {

/// Calls `Arc::clone`.
///
/// Trusted: the result points to the same value as `shared`, so the two are equal.
#[verifier::external_body]
pub(crate) fn share<T>(shared: &Arc<T>) -> (r: Arc<T>)
    ensures
        r == *shared,
{
    Arc::clone(shared)
}

} // verus!
