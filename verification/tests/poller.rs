use thirtyfour_sync::query::poller::{ElementPoller, ElementPollerTicker};

const MS: u64 = 1_000_000;

#[test]
fn default_poller_is_twenty_seconds_every_half_second() {
    assert_eq!(
        ElementPoller::default(),
        ElementPoller::TimeoutWithInterval(20_000_000_000, 500_000_000)
    );
}

#[test]
fn no_wait_never_grants_a_second_attempt() {
    let mut ticker = ElementPollerTicker::new(ElementPoller::NoWait);
    assert!(!ticker.tick(0));
    assert!(!ticker.tick(5 * MS));
    assert!(!ticker.tick(u64::MAX));
    assert_eq!(ticker.tries(), 3);
}

#[test]
fn num_tries_grants_exactly_that_many_attempts() {
    let mut ticker = ElementPollerTicker::new(ElementPoller::NumTriesWithInterval(3, 50 * MS));
    // Attempts one and two have failed: a next one is granted each time.
    assert!(ticker.tick(0));
    assert!(ticker.tick(u64::MAX));
    // Attempt three has failed: that was the last.
    assert!(!ticker.tick(1));
}

#[test]
fn num_tries_of_zero_still_makes_the_first_attempt_only() {
    let mut ticker = ElementPollerTicker::new(ElementPoller::NumTriesWithInterval(0, 50 * MS));
    assert!(!ticker.tick(0));
}

#[test]
fn timeout_stops_once_the_time_is_up() {
    let mut ticker =
        ElementPollerTicker::new(ElementPoller::TimeoutWithInterval(200 * MS, 50 * MS));
    assert!(ticker.tick(0));
    assert!(ticker.tick(50 * MS));
    assert!(ticker.tick(199 * MS));
    assert!(!ticker.tick(200 * MS));
}

#[test]
fn timeout_with_interval_makes_ceil_plus_one_attempts_on_an_ideal_clock() {
    // 200 ms in steps of 50 ms: attempts start at 0, 50, 100, 150 and 200 ms.
    let mut ticker =
        ElementPollerTicker::new(ElementPoller::TimeoutWithInterval(200 * MS, 50 * MS));
    let mut attempts: u64 = 1;
    let mut now: u64 = 0;
    while ticker.tick(now) {
        let wait = ticker.remaining_wait(now);
        now += wait as u64;
        attempts += 1;
    }
    assert_eq!(attempts, 5);
    assert!(now >= 200 * MS);
}

#[test]
fn min_tries_are_made_even_after_the_timeout() {
    let mut ticker = ElementPollerTicker::new(ElementPoller::TimeoutWithIntervalAndMinTries(
        10 * MS,
        50 * MS,
        3,
    ));
    // The timeout has passed at the first tick already.
    assert!(ticker.tick(20 * MS));
    assert!(ticker.tick(60 * MS));
    assert!(!ticker.tick(110 * MS));
}

#[test]
fn min_tries_do_not_end_the_loop_before_the_timeout() {
    let mut ticker = ElementPollerTicker::new(ElementPoller::TimeoutWithIntervalAndMinTries(
        100 * MS,
        10 * MS,
        2,
    ));
    assert!(ticker.tick(10 * MS));
    assert!(ticker.tick(20 * MS));
    assert!(ticker.tick(99 * MS));
    assert!(!ticker.tick(100 * MS));
}

#[test]
fn remaining_wait_is_anchored_to_the_start_of_the_loop() {
    let mut ticker =
        ElementPollerTicker::new(ElementPoller::TimeoutWithInterval(1_000 * MS, 100 * MS));
    // Before any tick nothing is due.
    assert_eq!(ticker.remaining_wait(0), 0);
    assert!(ticker.tick(30 * MS));
    // The second attempt is due 100 ms after the start.
    assert_eq!(ticker.remaining_wait(30 * MS), (70 * MS) as u128);
    assert!(ticker.tick(250 * MS));
    // The third attempt was due at 200 ms: no sleep, and no drift either.
    assert_eq!(ticker.remaining_wait(250 * MS), 0);
    assert!(ticker.tick(260 * MS));
    assert_eq!(ticker.remaining_wait(260 * MS), (40 * MS) as u128);
}

#[test]
fn remaining_wait_does_not_overflow_on_the_largest_interval() {
    let mut ticker = ElementPollerTicker::new(ElementPoller::NumTriesWithInterval(5, u64::MAX));
    assert!(ticker.tick(0));
    assert!(ticker.tick(0));
    assert_eq!(ticker.remaining_wait(1), 2 * (u64::MAX as u128) - 1);
}

#[test]
fn no_wait_has_nothing_to_wait_for() {
    let mut ticker = ElementPollerTicker::new(ElementPoller::NoWait);
    ticker.tick(0);
    assert_eq!(ticker.remaining_wait(0), 0);
}
