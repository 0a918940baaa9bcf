//! Shared-ownership handles. The device and every resolved set layout are
//! held through reference counting: the produced pipeline layout keeps them
//! alive, and each is freed only when its last holder lets go.

use vstd::prelude::*;
use std::sync::Arc;

verus! {

/// Relies on std::sync::Arc::clone: returns a new reference-counted handle
/// to the same value; the value itself is not copied or changed.
#[verifier::external_body]
pub(crate) fn arc_clone<T>(v: &Arc<T>) -> (r: Arc<T>)
    ensures
        r == *v,
{
    Arc::clone(v)
}

} // verus!
