use notify_channel::state::{
    check_step, notify_step, release_for, wake_for, Claim, Wake, SLEEP,
};

#[test]
fn sleep_is_minus_one() {
    assert_eq!(SLEEP, -1);
}

#[test]
fn notify_step_leaves_sleep_for_one() {
    assert_eq!(notify_step(SLEEP), 1);
}

#[test]
fn notify_step_counts_up() {
    assert_eq!(notify_step(0), 1);
    assert_eq!(notify_step(1), 2);
    assert_eq!(notify_step(41), 42);
    assert_eq!(notify_step(isize::MAX - 1), isize::MAX);
}

#[test]
fn notify_step_stays_at_the_largest_value() {
    assert_eq!(notify_step(isize::MAX), isize::MAX);
}

#[test]
fn wake_is_needed_only_after_sleep() {
    assert_eq!(wake_for(SLEEP), Wake::Needed);
    assert_eq!(wake_for(0), Wake::NotNeeded);
    assert_eq!(wake_for(1), Wake::NotNeeded);
    assert_eq!(wake_for(isize::MAX), Wake::NotNeeded);
}

#[test]
fn check_step_claims_part_of_what_is_pending() {
    assert_eq!(check_step(3, 2, false), Claim { next: 1, claimed: 2 });
    assert_eq!(check_step(3, 2, true), Claim { next: 1, claimed: 2 });
    assert_eq!(check_step(10, 1, true), Claim { next: 9, claimed: 1 });
}

#[test]
fn check_step_claims_all_that_is_pending() {
    assert_eq!(check_step(3, 3, false), Claim { next: 0, claimed: 3 });
    assert_eq!(check_step(3, 5, true), Claim { next: 0, claimed: 3 });
    assert_eq!(check_step(1, usize::MAX, true), Claim { next: 0, claimed: 1 });
}

#[test]
fn check_step_with_pending_never_sleeps() {
    assert_eq!(check_step(2, 0, true), Claim { next: 2, claimed: 0 });
    assert_eq!(check_step(1, 1, true).next, 0);
}

#[test]
fn check_step_goes_to_sleep_when_idle() {
    assert_eq!(check_step(0, 5, true), Claim { next: SLEEP, claimed: 0 });
    assert_eq!(check_step(SLEEP, 5, true), Claim { next: SLEEP, claimed: 0 });
}

#[test]
fn check_step_stays_idle_when_not_sleeping() {
    assert_eq!(check_step(0, 5, false), Claim { next: 0, claimed: 0 });
    assert_eq!(check_step(SLEEP, 5, false), Claim { next: 0, claimed: 0 });
}

#[test]
fn check_step_at_the_limits() {
    let most: usize = isize::MAX as usize;
    assert_eq!(check_step(isize::MAX, usize::MAX, false), Claim { next: 0, claimed: most });
    assert_eq!(check_step(isize::MAX, most, false), Claim { next: 0, claimed: most });
    assert_eq!(check_step(isize::MAX, most - 1, false), Claim { next: 1, claimed: most - 1 });
    assert_eq!(check_step(isize::MIN, usize::MAX, true), Claim { next: SLEEP, claimed: 0 });
}

#[test]
fn check_step_claim_is_at_most_max() {
    let counters: [isize; 7] = [isize::MIN, SLEEP, 0, 1, 2, 1000, isize::MAX];
    let limits: [usize; 6] = [0, 1, 2, 999, 1000, usize::MAX];
    for cur in counters {
        for max in limits {
            for will_sleep in [false, true] {
                let step = check_step(cur, max, will_sleep);
                assert!(step.claimed <= max);
                if cur > 0 {
                    assert_eq!(step.next as usize + step.claimed, cur as usize);
                }
            }
        }
    }
}

#[test]
fn sleep_then_notify_then_check() {
    let asleep = check_step(0, 5, true).next;
    assert_eq!(asleep, SLEEP);
    assert_eq!(wake_for(asleep), Wake::Needed);
    let one = notify_step(asleep);
    assert_eq!(wake_for(one), Wake::NotNeeded);
    let two = notify_step(one);
    assert_eq!(check_step(two, 5, false), Claim { next: 0, claimed: 2 });
}

#[test]
fn only_the_first_request_releases() {
    assert!(release_for(false));
    assert!(!release_for(true));
}
