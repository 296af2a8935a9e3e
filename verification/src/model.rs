//! The channel as all of its threads together see it. Every operation of the
//! handle touches the shared data in atomic steps: a push into the queue, a
//! swap on the counter, a trigger of the wake signal, a pop, a swap on the
//! release mark. Whatever the threads do at once amounts to some sequence of
//! such steps, so what holds after every sequence holds of every interleaving.
//!
//! The steps on the counter are those of `state`: `Announce` is what
//! `notify_step` computes, `Check` what `check_step` computes, `Cleanup`
//! what `release_for` computes. The counter is
//! taken as an unbounded integer here; the handle keeps it in an `isize`,
//! which differs only once the largest value of that type has been reached.

use crate::state::{
    check_claim, check_next, cleanup_releases, notify_next, notify_wakes, pending, SLEEP,
};
use vstd::prelude::*;

verus! {

/// One atomic step on the shared data.
pub enum Event<M> {
    /// A producer offers a message to the queue.
    Push(M),
    /// A producer whose message the queue took announces it on the counter.
    Announce,
    /// A producer that found the consumer asleep triggers the wake signal.
    Signal,
    /// The consumer checks the counter.
    Check { max: nat, will_sleep: bool },
    /// The consumer takes a message out of the queue.
    Poll,
    /// Some holder asks for the wake signal's resource to be released.
    Cleanup,
}

/// The shared data, with a record of what has happened to it.
pub struct Channel<M> {
    /// The number of messages the queue has room for.
    pub capacity: nat,
    /// The coordination counter.
    pub state: int,
    /// The messages in the queue, oldest first.
    pub queue: Seq<M>,
    /// Every message that the queue took, in the order of the pushes.
    pub accepted: Seq<M>,
    /// Every message that a poll has handed out, in the order of the polls.
    pub delivered: Seq<M>,
    /// Messages in `accepted` that their producer has yet to announce.
    pub unannounced: nat,
    /// The sum of all claims that checks have returned.
    pub claimed: nat,
    /// How often a check has put the counter to sleep.
    pub sleeps: nat,
    /// How often a check has found the counter asleep and set it idle.
    pub roused: nat,
    /// Producers that found the consumer asleep and have yet to trigger the
    /// wake signal.
    pub wakes_owed: nat,
    /// Triggers of the wake signal so far.
    pub wakes: nat,
    /// Whether a release has been asked for.
    pub released: bool,
    /// How often the wake signal's resource has been released.
    pub releases: nat,
}

impl<M> Channel<M> {
    /// The channel as `with_capacity` makes it.
    pub open spec fn idle(capacity: nat) -> Channel<M> {
        Channel {
            capacity,
            state: 0,
            queue: Seq::empty(),
            accepted: Seq::empty(),
            delivered: Seq::empty(),
            unannounced: 0,
            claimed: 0,
            sleeps: 0,
            roused: 0,
            wakes_owed: 0,
            wakes: 0,
            released: false,
            releases: 0,
        }
    }

    /// Announcements made on the counter so far.
    pub open spec fn announced(self) -> int {
        self.accepted.len() - self.unannounced
    }

    /// Wake attempts that were made or that a producer is bound to make
    /// before its `notify` returns.
    pub open spec fn wake_attempts(self) -> nat {
        self.wakes + self.wakes_owed
    }

    /// The channel after one step. A step that cannot be taken (a push into a
    /// full queue, a poll on an empty one, an announcement or a signal that
    /// nobody owes, a second release) leaves the channel as it is.
    pub open spec fn step(self, event: Event<M>) -> Channel<M> {
        match event {
            Event::Push(message) => if self.queue.len() < self.capacity {
                Channel {
                    queue: self.queue.push(message),
                    accepted: self.accepted.push(message),
                    unannounced: self.unannounced + 1,
                    ..self
                }
            } else {
                self
            },
            Event::Announce => if self.unannounced > 0 {
                Channel {
                    state: notify_next(self.state),
                    unannounced: (self.unannounced - 1) as nat,
                    wakes_owed: if notify_wakes(self.state) {
                        self.wakes_owed + 1
                    } else {
                        self.wakes_owed
                    },
                    ..self
                }
            } else {
                self
            },
            Event::Signal => if self.wakes_owed > 0 {
                Channel {
                    wakes_owed: (self.wakes_owed - 1) as nat,
                    wakes: self.wakes + 1,
                    ..self
                }
            } else {
                self
            },
            Event::Check { max, will_sleep } => {
                let next = check_next(self.state, max as int, will_sleep);
                Channel {
                    state: next,
                    claimed: (self.claimed + check_claim(self.state, max as int)) as nat,
                    sleeps: if self.state != SLEEP && next == SLEEP {
                        self.sleeps + 1
                    } else {
                        self.sleeps
                    },
                    roused: if self.state == SLEEP && next != SLEEP {
                        self.roused + 1
                    } else {
                        self.roused
                    },
                    ..self
                }
            },
            Event::Poll => if self.queue.len() > 0 {
                Channel {
                    queue: self.queue.drop_first(),
                    delivered: self.delivered.push(self.queue.first()),
                    ..self
                }
            } else {
                self
            },
            Event::Cleanup => if cleanup_releases(self.released) {
                Channel { released: true, releases: self.releases + 1, ..self }
            } else {
                self
            },
        }
    }

    /// The channel after a sequence of steps.
    pub open spec fn run(self, events: Seq<Event<M>>) -> Channel<M>
        decreases events.len(),
    {
        if events.len() == 0 {
            self
        } else {
            self.run(events.drop_last()).step(events.last())
        }
    }

    /// What holds of the channel between any two steps.
    pub open spec fn inv(self) -> bool {
        &&& self.state >= SLEEP
        &&& self.queue.len() <= self.capacity
        &&& self.accepted == self.delivered + self.queue
        &&& pending(self.state) + self.claimed + self.unannounced == self.accepted.len()
        &&& self.sleeps == self.wake_attempts() + self.roused + (if self.state == SLEEP {
            1nat
        } else {
            0nat
        })
        &&& self.releases == (if self.released {
            1nat
        } else {
            0nat
        })
    }
}

/// Whether the consumer checks the counter anywhere in `events`.
pub open spec fn has_check<M>(events: Seq<Event<M>>) -> bool {
    exists|i: int| 0 <= i < events.len() && (#[trigger] events[i]) is Check
}

/// Whether anybody asks for a release anywhere in `events`.
pub open spec fn has_cleanup<M>(events: Seq<Event<M>>) -> bool {
    exists|i: int| 0 <= i < events.len() && (#[trigger] events[i]) is Cleanup
}

/// A new channel satisfies the invariant.
pub proof fn lemma_idle_inv<M>(capacity: nat)
    ensures
        Channel::<M>::idle(capacity).inv(),
{
    let s = Channel::<M>::idle(capacity);
    assert(s.accepted =~= s.delivered + s.queue);
}

/// Every step keeps the invariant.
pub proof fn lemma_step_inv<M>(s: Channel<M>, event: Event<M>)
    requires
        s.inv(),
    ensures
        s.step(event).inv(),
{
    let t = s.step(event);
    assert(t.accepted =~= t.delivered + t.queue);
}

/// Every sequence of steps keeps the invariant.
pub proof fn lemma_run_inv<M>(s: Channel<M>, events: Seq<Event<M>>)
    requires
        s.inv(),
    ensures
        s.run(events).inv(),
    decreases events.len(),
{
    if events.len() > 0 {
        lemma_run_inv(s, events.drop_last());
        lemma_step_inv(s.run(events.drop_last()), events.last());
    }
}

/// While the consumer does not check the counter, its record of claims and
/// of sleeps stays as it is, and a counter that is asleep or positive does
/// not become idle.
proof fn lemma_run_without_check<M>(s: Channel<M>, events: Seq<Event<M>>)
    requires
        !has_check(events),
    ensures
        s.run(events).claimed == s.claimed,
        s.run(events).sleeps == s.sleeps,
        s.run(events).roused == s.roused,
        s.state == SLEEP || s.state > 0 ==> s.run(events).state == SLEEP || s.run(events).state
            > 0,
    decreases events.len(),
{
    if events.len() > 0 {
        let front = events.drop_last();
        assert(!has_check(front)) by {
            if has_check(front) {
                let i = choose|i: int| 0 <= i < front.len() && (#[trigger] front[i]) is Check;
                assert(events[i] is Check);
            }
        }
        lemma_run_without_check(s, front);
        assert(!(events[events.len() - 1] is Check));
    }
}

/// A release has been asked for after a run exactly if it had been before
/// or the run asks for one.
proof fn lemma_run_released<M>(s: Channel<M>, events: Seq<Event<M>>)
    ensures
        s.run(events).released == (s.released || has_cleanup(events)),
    decreases events.len(),
{
    if events.len() > 0 {
        let front = events.drop_last();
        lemma_run_released(s, front);
        if has_cleanup(front) {
            let i = choose|i: int| 0 <= i < front.len() && (#[trigger] front[i]) is Cleanup;
            assert(events[i] is Cleanup);
        }
        if events.last() is Cleanup {
            assert(events[events.len() - 1] is Cleanup);
        }
        if has_cleanup(events) && !has_cleanup(front) {
            let i = choose|i: int| 0 <= i < events.len() && (#[trigger] events[i]) is Cleanup;
            if i < front.len() {
                assert(front[i] is Cleanup);
            }
        }
    } else {
        assert(!has_cleanup(events));
    }
}

/// No loss and no duplication: however the producers' and the consumer's
/// steps interleave, the messages that the queue took are, in their order,
/// those that polls have handed out followed by those still in the queue. So
/// once a poll finds the queue empty, the consumer has received every
/// accepted message exactly once, and nothing else.
pub proof fn lemma_no_loss_no_duplication<M>(capacity: nat, events: Seq<Event<M>>)
    ensures
        ({
            let s = Channel::<M>::idle(capacity).run(events);
            &&& s.accepted == s.delivered + s.queue
            &&& s.queue.len() == 0 ==> s.delivered == s.accepted
            &&& s.queue.len() == 0 ==> s.delivered.to_multiset() == s.accepted.to_multiset()
        }),
{
    lemma_idle_inv::<M>(capacity);
    lemma_run_inv(Channel::<M>::idle(capacity), events);
    let s = Channel::<M>::idle(capacity).run(events);
    if s.queue.len() == 0 {
        assert(s.delivered + s.queue =~= s.delivered);
    }
}

/// A message that finds the queue full changes nothing: not the queue, not
/// the counter, not what is owed to the consumer.
pub proof fn lemma_rejected_push_changes_nothing<M>(s: Channel<M>, message: M)
    requires
        s.queue.len() >= s.capacity,
    ensures
        s.step(Event::Push(message)) == s,
{
}

/// The counter never announces more than was pushed: at any moment the
/// messages it stands for, those already claimed and those whose producer
/// has yet to announce them add up to the messages that the queue took. So
/// every message that was claimed and not yet polled is in the queue, and
/// while the counter is asleep every message that the queue took has been
/// claimed, but for those whose producer is still about to announce them.
pub proof fn lemma_counter_never_overstates<M>(capacity: nat, events: Seq<Event<M>>)
    ensures
        ({
            let s = Channel::<M>::idle(capacity).run(events);
            &&& s.state >= SLEEP
            &&& pending(s.state) + s.claimed + s.unannounced == s.accepted.len()
            &&& s.claimed - s.delivered.len() <= s.queue.len()
            &&& s.state == SLEEP ==> s.claimed + s.unannounced == s.accepted.len()
        }),
{
    lemma_idle_inv::<M>(capacity);
    lemma_run_inv(Channel::<M>::idle(capacity), events);
}

/// Every sleep ends once: each time that a check has put the counter to
/// sleep, either the counter is still asleep, or a later check has set it
/// idle, or a producer has announced a message on it and made, or owes, one
/// wake attempt. No wake attempt is made without a sleep before it.
pub proof fn lemma_one_wake_per_sleep<M>(capacity: nat, events: Seq<Event<M>>)
    ensures
        ({
            let s = Channel::<M>::idle(capacity).run(events);
            &&& s.sleeps == s.wake_attempts() + s.roused + (if s.state == SLEEP {
                1nat
            } else {
                0nat
            })
            &&& s.wake_attempts() <= s.sleeps
        }),
{
    lemma_idle_inv::<M>(capacity);
    lemma_run_inv(Channel::<M>::idle(capacity), events);
}

/// No missed wakeup: let a check with `will_sleep` set leave the counter
/// asleep, and let any steps but a further check follow. Then the counter is
/// still asleep exactly if no producer has announced a message since, and as
/// soon as one has, exactly one wake attempt has been made or is owed by a
/// producer whose `notify` has not returned yet, however many announced.
pub proof fn lemma_no_missed_wakeup<M>(s: Channel<M>, max: nat, events: Seq<Event<M>>)
    requires
        s.inv(),
        s.step(Event::Check { max, will_sleep: true }).state == SLEEP,
        !has_check(events),
    ensures
        ({
            let slept = s.step(Event::Check { max, will_sleep: true });
            let woken = slept.run(events);
            &&& woken.announced() >= slept.announced()
            &&& woken.state == SLEEP <==> woken.announced() == slept.announced()
            &&& woken.wake_attempts() == slept.wake_attempts() + (if woken.announced()
                > slept.announced() {
                1nat
            } else {
                0nat
            })
        }),
{
    let slept = s.step(Event::Check { max, will_sleep: true });
    lemma_step_inv(s, Event::Check { max, will_sleep: true });
    lemma_run_inv(slept, events);
    lemma_run_without_check(slept, events);
}

/// Idempotent cleanup: however often a release is asked for, and by whom,
/// the wake signal's resource is released once if it is asked for at all,
/// and never twice.
pub proof fn lemma_cleanup_releases_once<M>(capacity: nat, events: Seq<Event<M>>)
    ensures
        Channel::<M>::idle(capacity).run(events).releases == (if has_cleanup(events) {
            1nat
        } else {
            0nat
        }),
{
    lemma_idle_inv::<M>(capacity);
    lemma_run_inv(Channel::<M>::idle(capacity), events);
    lemma_run_released(Channel::<M>::idle(capacity), events);
}

} // verus!
