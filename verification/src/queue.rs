//! The message queue: a bounded lock-free queue that any number of producers
//! push into and the consumer pops from. The queue is `crossbeam_queue`'s
//! `ArrayQueue`; what is assumed of it is stated here and nowhere else.

use crossbeam_queue::ArrayQueue;
use vstd::layout::{align_of, size_of};
use vstd::prelude::*;

verus! {

/// `crossbeam_queue::ArrayQueue`, whose inside Verus does not look into.
#[verifier::external_type_specification]
#[verifier::external_body]
#[verifier::reject_recursive_types(T)]
pub struct ExArrayQueue<T>(ArrayQueue<T>);

/// An upper bound on the bytes that one slot of the queue's buffer takes: the
/// message, an eight-byte stamp, and padding up to the larger alignment.
pub open spec fn slot_bytes<M>() -> nat {
    size_of::<M>() + align_of::<M>() + 16
}

/// Whether a queue of `capacity` messages of type `M` can be laid out: the
/// capacity is positive and the buffer is at most `isize::MAX` bytes long.
pub open spec fn capacity_fits<M>(capacity: int) -> bool {
    0 < capacity && capacity * slot_bytes::<M>() <= isize::MAX
}

/// `ArrayQueue::new` builds an empty queue with room for `cap` messages. It
/// panics on a capacity of zero and on one that is too large, which is one
/// whose buffer of `cap` slots would be longer than `isize::MAX` bytes; both
/// are kept out. As with every allocation, a machine that has run out of
/// memory is not spoken of. Nothing is claimed of the queue that comes back.
pub assume_specification<T>[ ArrayQueue::<T>::new ](cap: usize) -> (queue: ArrayQueue<T>)
    requires
        capacity_fits::<T>(cap as int),
;

/// `ArrayQueue::push` either takes the message or, when the queue is full,
/// hands the very same message back as the error. Which of the two happens
/// depends on what other threads have pushed and popped.
pub assume_specification<T>[ ArrayQueue::<T>::push ](queue: &ArrayQueue<T>, value: T) -> (r: Result<
    (),
    T,
>)
    ensures
        r matches Err(back) ==> back == value,
;

/// `ArrayQueue::pop` takes the oldest message out, or returns `None` when it
/// finds the queue empty. Nothing is claimed of which.
pub assume_specification<T>[ ArrayQueue::<T>::pop ](queue: &ArrayQueue<T>) -> (r: Option<T>);

/// Tests at run time whether a queue of `capacity` messages of type `M` can
/// be laid out.
pub fn fits<M>(capacity: usize) -> (ok: bool)
    ensures
        ok == capacity_fits::<M>(capacity as int),
{
    if capacity == 0 {
        return false;
    }
    let size: usize = core::mem::size_of::<M>();
    let align: usize = core::mem::align_of::<M>();
    let limit: usize = isize::MAX as usize;
    if size > limit - 16 || align > limit - 16 - size {
        assert(!capacity_fits::<M>(capacity as int)) by (nonlinear_arith)
            requires
                capacity >= 1,
                slot_bytes::<M>() > isize::MAX,
        ;
        return false;
    }
    let slot: usize = size + align + 16;
    match capacity.checked_mul(slot) {
        Some(total) => total <= limit,
        None => false,
    }
}

} // verus!
