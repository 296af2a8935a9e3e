//! What is assumed of the standard library's shared counter and shared
//! pointer. The other atomic operations that the channel uses are called
//! directly, with nothing known of what they return.

use std::sync::atomic::AtomicIsize;
use std::sync::atomic::Ordering;
use std::sync::Arc;
use vstd::prelude::*;

verus! {

/// `AtomicIsize::fetch_update` with a function that always yields a new
/// value: the cell's value is replaced by `step` of it in one atomic
/// compare-and-swap, which is retried on the value found until it succeeds,
/// and the value that was replaced comes back. The swap orders itself after
/// what the thread did before and before what it does next. Other threads
/// decide which value is found, so nothing is claimed of the result. `step`
/// may run several times, but only its last result is stored.
#[verifier::external_body]
pub(crate) fn replace_with<F: Fn(isize) -> isize>(cell: &AtomicIsize, step: F) -> (prev: isize)
    requires
        forall|cur: isize| step.requires((cur,)),
{
    match cell.fetch_update(Ordering::AcqRel, Ordering::Acquire, |cur| Some(step(cur))) {
        Ok(prev) => prev,
        Err(prev) => prev,
    }
}

/// `Arc::clone` makes another pointer to the same value.
#[verifier::external_body]
pub(crate) fn share<T>(shared: &Arc<T>) -> (other: Arc<T>)
    ensures
        other == *shared,
{
    Arc::clone(shared)
}

} // verus!
