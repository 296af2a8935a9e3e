//! The coordination counter: what its values mean and how the two sides
//! update it. Every function here is a pure step on one observed value; the
//! shared cell applies a step with a compare-and-swap.

use vstd::prelude::*;

verus! {

/// The counter value that says: the consumer has committed to blocking and
/// must be woken explicitly.
pub const SLEEP: isize = -1;

/// How many announced notifications a counter value stands for.
pub open spec fn pending(cur: int) -> nat {
    if cur > 0 {
        cur as nat
    } else {
        0
    }
}

/// The counter after a producer has announced one message on `cur`.
pub open spec fn notify_next(cur: int) -> int {
    if cur == SLEEP {
        1
    } else {
        cur + 1
    }
}

/// Whether the producer that announced on `cur` has to trigger the wake signal.
pub open spec fn notify_wakes(cur: int) -> bool {
    cur == SLEEP
}

/// How many notifications the consumer claims when it sees `cur` and is
/// willing to take up to `max`.
pub open spec fn check_claim(cur: int, max: int) -> int {
    if cur <= 0 {
        0
    } else if cur <= max {
        cur
    } else {
        max
    }
}

/// The counter after the consumer has checked it at `cur`.
pub open spec fn check_next(cur: int, max: int, will_sleep: bool) -> int {
    if cur > 0 {
        cur - check_claim(cur, max)
    } else if will_sleep {
        SLEEP as int
    } else {
        0
    }
}

/// Whether a holder that asks for the wake signal's resource to be released
/// has to release it, given whether a release had been asked for before.
pub open spec fn cleanup_releases(released: bool) -> bool {
    !released
}

/// What a producer owes the consumer after announcing a message.
#[derive(Clone, Copy, Debug, PartialEq, Eq, Structural)]
pub enum Wake {
    /// The consumer was not asleep: nothing to do.
    NotNeeded,
    /// The consumer was asleep: the wake signal must be triggered once.
    Needed,
}

/// The outcome of the consumer's update on one observed counter value.
#[derive(Clone, Copy, Debug, PartialEq, Eq, Structural)]
pub struct Claim {
    /// The value to store in the counter.
    pub next: isize,
    /// The number of notifications handed to the consumer.
    pub claimed: usize,
}

/// The producer's update: the value to store after announcing one message on
/// `cur`. A counter that already holds the largest value stays there; it then
/// stands for fewer messages than were announced, never for more.
pub fn notify_step(cur: isize) -> (next: isize)
    ensures
        cur < isize::MAX ==> next == notify_next(cur as int),
        cur == isize::MAX ==> next == cur,
        cur >= SLEEP ==> next > 0,
{
    if cur == SLEEP {
        1
    } else if cur == isize::MAX {
        cur
    } else {
        cur + 1
    }
}

/// What the producer that replaced `prev` in the counter owes the consumer.
pub fn wake_for(prev: isize) -> (wake: Wake)
    ensures
        wake == (if notify_wakes(prev as int) {
            Wake::Needed
        } else {
            Wake::NotNeeded
        }),
{
    if prev == SLEEP {
        Wake::Needed
    } else {
        Wake::NotNeeded
    }
}

/// What the holder that set the release mark has to do, given the mark that
/// it replaced: release the wake signal's resource exactly if nobody had
/// asked for that before.
pub fn release_for(was_released: bool) -> (release: bool)
    ensures
        release == cleanup_releases(was_released),
{
    !was_released
}

/// The consumer's update on the observed value `cur`: claim up to `max` of
/// the pending notifications, or, when none is pending, go to sleep if
/// `will_sleep` and stay idle otherwise.
pub fn check_step(cur: isize, max: usize, will_sleep: bool) -> (step: Claim)
    ensures
        step.next == check_next(cur as int, max as int, will_sleep),
        step.claimed == check_claim(cur as int, max as int),
        step.claimed <= max,
{
    if cur > 0 {
        let announced: usize = cur as usize;
        if max >= announced {
            Claim { next: 0, claimed: announced }
        } else {
            Claim { next: cur - (max as isize), claimed: max }
        }
    } else if will_sleep {
        Claim { next: SLEEP, claimed: 0 }
    } else {
        Claim { next: 0, claimed: 0 }
    }
}

/// A claim is never negative and never more than the consumer asked for,
/// whatever the counter holds.
pub proof fn lemma_claim_bounded(cur: int, max: int)
    requires
        max >= 0,
    ensures
        0 <= check_claim(cur, max) <= max,
        check_claim(cur, max) <= pending(cur),
{
}

/// Going to sleep and waking: the consumer's update leaves the counter
/// asleep exactly if it found nothing pending and meant to sleep; the next
/// announcement on such a counter calls for a wake and leaves the counter at
/// one, and an announcement on a counter that is not asleep calls for none
/// and does not put it to sleep.
pub proof fn lemma_sleep_then_wake(cur: int, max: int, will_sleep: bool)
    requires
        cur >= SLEEP,
        max >= 0,
    ensures
        check_next(cur, max, will_sleep) == SLEEP <==> cur <= 0 && will_sleep,
        check_next(cur, max, will_sleep) >= SLEEP,
        notify_wakes(SLEEP as int) && notify_next(SLEEP as int) == 1,
        cur != SLEEP ==> !notify_wakes(cur) && notify_next(cur) > 0,
{
}

} // verus!
