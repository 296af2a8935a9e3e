//! The shared handle: the coordination counter, the message queue and the
//! mark that the wake signal has been released, owned jointly by every clone
//! of the handle.
//!
//! The handle does not hold the wake signal itself, which is a resource of
//! the operating system. It decides: `notify` tells its caller whether the
//! signal has to be triggered, and `cleanup` whether the signal's resource
//! has to be released now. The caller acts on that.
//!
//! The counter is only ever changed by an atomic compare-and-swap, with
//! acquire-release ordering, so a consumer that claims a notification also
//! sees the message that was pushed before it was announced.

use crate::sync::{replace_with, share};
use crate::queue::capacity_fits;
use crate::state::{
    check_next, check_step, notify_next, notify_step, release_for, wake_for, Wake, SLEEP,
};
use crossbeam_queue::ArrayQueue;
use std::sync::atomic::AtomicBool;
use std::sync::atomic::AtomicIsize;
use std::sync::atomic::Ordering;
use std::sync::Arc;
use vstd::prelude::*;

verus! {

#[verifier::reject_recursive_types(M)]
struct NotifyInner<M> {
    /// The capacity that the queue was made with.
    capacity: usize,
    /// The coordination counter.
    state: AtomicIsize,
    /// The messages on their way to the consumer.
    queue: ArrayQueue<M>,
    /// Whether a release of the wake signal's resource has been asked for.
    released: AtomicBool,
}

impl<M: Send> NotifyInner<M> {
    fn with_capacity(capacity: usize) -> (inner: NotifyInner<M>)
        requires
            capacity_fits::<M>(capacity as int),
        ensures
            inner.capacity == capacity,
    {
        NotifyInner {
            capacity,
            state: AtomicIsize::new(0),
            queue: ArrayQueue::new(capacity),
            released: AtomicBool::new(false),
        }
    }

    fn check(&self, max: usize, will_sleep: bool) -> (claimed: usize)
        ensures
            claimed <= max,
            claimed <= isize::MAX,
    {
        let update = |cur: isize| -> (next: isize)
            ensures
                next == check_next(cur as int, max as int, will_sleep),
            { check_step(cur, max, will_sleep).next };
        let prev: isize = replace_with(&self.state, update);
        check_step(prev, max, will_sleep).claimed
    }

    fn poll(&self) -> (message: Option<M>) {
        self.queue.pop()
    }

    fn notify(&self, value: M) -> (r: Result<Wake, M>)
        ensures
            r matches Err(back) ==> back == value,
    {
        // The message goes into the queue before it is announced, so the
        // counter never stands for a message that is not there.
        match self.queue.push(value) {
            Err(back) => Err(back),
            Ok(()) => {
                let update = |cur: isize| -> (next: isize)
                    ensures
                        cur < isize::MAX ==> next == notify_next(cur as int),
                        cur >= SLEEP ==> next > 0,
                    { notify_step(cur) };
                let prev: isize = replace_with(&self.state, update);
                Ok(wake_for(prev))
            },
        }
    }

    fn cleanup(&self) -> (release: bool) {
        let was: bool = self.released.swap(true, Ordering::AcqRel);
        release_for(was)
    }
}

/// A handle on the channel. Producers call `notify` on any clone, from any
/// thread; one consumer calls `check` and `poll`.
#[verifier::reject_recursive_types(M)]
pub struct Notify<M: Send> {
    inner: Arc<NotifyInner<M>>,
}

impl<M: Send> Notify<M> {
    /// The number of messages that the channel's queue was made for. It is
    /// the same for every clone of the handle and never changes.
    pub closed spec fn spec_capacity(&self) -> usize {
        self.inner.capacity
    }

    /// The number of messages that the channel's queue was made for.
    #[verifier::when_used_as_spec(spec_capacity)]
    pub fn capacity(&self) -> (capacity: usize)
        ensures
            capacity == self.spec_capacity(),
    {
        self.inner.capacity
    }

    /// An idle channel with an empty queue that has room for `capacity`
    /// messages.
    pub fn with_capacity(capacity: usize) -> (channel: Notify<M>)
        requires
            capacity_fits::<M>(capacity as int),
        ensures
            channel.capacity() == capacity,
    {
        Notify { inner: Arc::new(NotifyInner::with_capacity(capacity)) }
    }

    /// The consumer's update of the counter: with a compare-and-swap that is
    /// retried until it succeeds, `check_step` is applied to the counter, and
    /// the claim that it gave for the value it replaced is returned. So up to
    /// `max` pending notifications are claimed; when none is pending, the
    /// counter is left asleep if `will_sleep` is set and idle otherwise, and
    /// the claim is zero.
    ///
    /// Only the one consumer may call this.
    pub fn check(&self, max: usize, will_sleep: bool) -> (claimed: usize)
        ensures
            claimed <= max,
            claimed <= isize::MAX,
    {
        self.inner.check(max, will_sleep)
    }

    /// Hands `value` over to the consumer. The message is pushed into the
    /// queue; when the queue is full, it comes back unchanged as the error
    /// and the counter is not touched. Else `notify_step` is applied to the
    /// counter, with a compare-and-swap that is retried until it succeeds,
    /// and the result says whether the value that it replaced was `SLEEP`: on
    /// `Wake::Needed` the caller has to trigger the wake signal, once, before
    /// it goes on.
    pub fn notify(&self, value: M) -> (r: Result<Wake, M>)
        ensures
            r matches Err(back) ==> back == value,
    {
        self.inner.notify(value)
    }

    /// Takes the oldest message out of the queue without blocking, `None`
    /// when it finds the queue empty. A message may be announced a moment
    /// before a poll can see it, so a consumer polls until it gets `None`
    /// rather than as often as it has claimed.
    pub fn poll(&self) -> (message: Option<M>) {
        self.inner.poll()
    }

    /// Asks for the wake signal's resource to be released, and says whether
    /// the caller has to release it now: `true` for the first call on any
    /// clone of the handle, `false` for every later one.
    pub fn cleanup(&self) -> (release: bool) {
        self.inner.cleanup()
    }
}

impl<M: Send> Clone for Notify<M> {
    /// Another handle on the same channel.
    fn clone(&self) -> (other: Notify<M>)
        ensures
            other == *self,
    {
        Notify { inner: share(&self.inner) }
    }
}

} // verus!
