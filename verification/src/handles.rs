//! Cloning of shared handles. The slot and the wait gate are shared
//! between the poller thread and the consumer facade through `Arc`.

use std::sync::Arc;
use vstd::prelude::*;

verus! {

/// Relies on `std::sync::Arc::clone`: the clone is a handle to the same
/// allocation, so in the ghost view it carries the same value.
#[verifier::external_body]
pub(crate) fn arc_clone<T>(v: &Arc<T>) -> (r: Arc<T>)
    ensures
        r == *v,
{
    v.clone()
}

} // verus!
