//! Polling strategies and the ticker that drives one poll loop.
//!
//! All times are whole nanoseconds. A schedule is anchored to the start of the
//! loop: attempt `n` is due `interval * n` after the start, however long the
//! attempts before it took, so slow remote calls do not add up to drift.

use vstd::prelude::*;

verus! {

/// Parameters used to determine the polling / timeout behaviour.
#[derive(Debug, Clone, Copy, PartialEq, Eq, Structural)]
pub enum ElementPoller {
    /// No polling, single attempt.
    NoWait,
    /// Poll up to the timeout (first field), with the interval (second field)
    /// being the minimum time between the starts of two attempts.
    TimeoutWithInterval(u64, u64),
    /// Poll once every interval (second field), up to the given number of
    /// attempts, however long that takes.
    NumTriesWithInterval(u32, u64),
    /// Poll once every interval (second field) up to the timeout (first field)
    /// or the minimum number of attempts (third field), whichever comes last.
    TimeoutWithIntervalAndMinTries(u64, u64, u32),
}

/// Nanoseconds in a second.
pub const NANOS_PER_SEC: u64 = 1_000_000_000;

/// Nanoseconds in a millisecond.
pub const NANOS_PER_MILLI: u64 = 1_000_000;

impl ElementPoller {
    /// The timeout that bounds the loop, if the strategy has one.
    pub open spec fn spec_timeout(self) -> Option<u64> {
        match self {
            ElementPoller::NoWait => None,
            ElementPoller::TimeoutWithInterval(timeout, _) => Some(timeout),
            ElementPoller::NumTriesWithInterval(_, _) => None,
            ElementPoller::TimeoutWithIntervalAndMinTries(timeout, _, _) => Some(timeout),
        }
    }

    /// The spacing of attempts, if the strategy has one.
    pub open spec fn spec_interval(self) -> Option<u64> {
        match self {
            ElementPoller::NoWait => None,
            ElementPoller::TimeoutWithInterval(_, interval) => Some(interval),
            ElementPoller::NumTriesWithInterval(_, interval) => Some(interval),
            ElementPoller::TimeoutWithIntervalAndMinTries(_, interval, _) => Some(interval),
        }
    }

    /// The number of attempts that are made whatever the clock says.
    pub open spec fn spec_min_tries(self) -> u32 {
        match self {
            ElementPoller::NoWait => 0,
            ElementPoller::TimeoutWithInterval(_, _) => 0,
            ElementPoller::NumTriesWithInterval(num_tries, _) => num_tries,
            ElementPoller::TimeoutWithIntervalAndMinTries(_, _, num_tries) => num_tries,
        }
    }
}

impl Default for ElementPoller {
    /// Twenty seconds, polled every half second.
    fn default() -> (poller: Self)
        ensures
            poller == ElementPoller::TimeoutWithInterval(20_000_000_000, 500_000_000),
    {
        ElementPoller::TimeoutWithInterval(20 * NANOS_PER_SEC, 500 * NANOS_PER_MILLI)
    }
}

/// What a ticker is, as far as its decisions go.
pub struct TickerState {
    pub timeout: Option<u64>,
    pub interval: Option<u64>,
    pub min_tries: u32,
    /// How many times `tick` has been called.
    pub tries: nat,
}

impl TickerState {
    /// The state of a ticker that has not ticked yet.
    pub open spec fn initial(poller: ElementPoller) -> TickerState {
        TickerState {
            timeout: poller.spec_timeout(),
            interval: poller.spec_interval(),
            min_tries: poller.spec_min_tries(),
            tries: 0,
        }
    }

    /// The state after `n` ticks of a ticker made from `poller`.
    pub open spec fn after(poller: ElementPoller, n: nat) -> TickerState {
        TickerState { tries: n, ..Self::initial(poller) }
    }

    /// The state after one more tick.
    pub open spec fn ticked(self) -> TickerState {
        TickerState { tries: self.tries + 1, ..self }
    }

    /// No timeout is left to wait for: there is none, or it has passed.
    pub open spec fn out_of_time(self, elapsed: u64) -> bool {
        match self.timeout {
            Some(timeout) => elapsed >= timeout,
            None => true,
        }
    }

    /// The tick made in this state, with `elapsed` on the clock, gives up.
    pub open spec fn gives_up(self, elapsed: u64) -> bool {
        self.out_of_time(elapsed) && self.tries + 1 >= self.min_tries
    }

    /// When the next attempt is due, counted from the start of the loop.
    pub open spec fn due(self) -> nat {
        match self.interval {
            Some(interval) => interval as nat * self.tries,
            None => 0,
        }
    }

    /// How long to sleep before the next attempt, with `elapsed` on the clock.
    pub open spec fn pause(self, elapsed: u64) -> nat {
        if elapsed < self.due() {
            (self.due() - elapsed) as nat
        } else {
            0
        }
    }
}

/// Counts the attempts of one poll loop and decides after each failed attempt
/// whether another one is made.
///
/// The first attempt is made before the first tick. The ticker holds no clock:
/// its caller notes when the loop started and passes the time elapsed since.
#[derive(Debug, Clone, Copy)]
pub struct ElementPollerTicker {
    timeout: Option<u64>,
    interval: Option<u64>,
    min_tries: u32,
    cur_tries: u32,
}

impl View for ElementPollerTicker {
    type V = TickerState;

    closed spec fn view(&self) -> TickerState {
        TickerState {
            timeout: self.timeout,
            interval: self.interval,
            min_tries: self.min_tries,
            tries: self.cur_tries as nat,
        }
    }
}

impl ElementPollerTicker {
    /// A ticker for one loop that is polled as `poller` says.
    pub fn new(poller: ElementPoller) -> (ticker: Self)
        ensures
            ticker@ == TickerState::initial(poller),
    {
        let mut ticker = Self { timeout: None, interval: None, min_tries: 0, cur_tries: 0 };

        match poller {
            ElementPoller::NoWait => {},
            ElementPoller::TimeoutWithInterval(timeout, interval) => {
                ticker.timeout = Some(timeout);
                ticker.interval = Some(interval);
            },
            ElementPoller::NumTriesWithInterval(num_tries, interval) => {
                ticker.interval = Some(interval);
                ticker.min_tries = num_tries;
            },
            ElementPoller::TimeoutWithIntervalAndMinTries(timeout, interval, num_tries) => {
                ticker.timeout = Some(timeout);
                ticker.interval = Some(interval);
                ticker.min_tries = num_tries
            },
        }

        ticker
    }

    /// Counts the attempt that has just failed and says whether another one is
    /// to be made: `false` means give up. `elapsed` is the time since the loop
    /// started. Before the next attempt the caller sleeps for
    /// [`remaining_wait`](Self::remaining_wait).
    pub fn tick(&mut self, elapsed: u64) -> (again: bool)
        requires
            old(self)@.tries < u32::MAX,
        ensures
            final(self)@ == old(self)@.ticked(),
            again == !old(self)@.gives_up(elapsed),
    {
        self.cur_tries += 1;

        let in_time = match self.timeout {
            Some(timeout) => elapsed < timeout,
            None => false,
        };
        if !in_time && self.cur_tries >= self.min_tries {
            return false;
        }

        true
    }

    /// How long the caller has to sleep so that the next attempt starts no
    /// earlier than its place in the schedule; zero when that time has come.
    pub fn remaining_wait(&self, elapsed: u64) -> (wait: u128)
        ensures
            wait == self@.pause(elapsed),
    {
        match self.interval {
            Some(interval) => {
                // Next poll is due no earlier than this long after the first poll started.
                let minimum_elapsed: u128 = self.scheduled(interval);
                if (elapsed as u128) < minimum_elapsed {
                    minimum_elapsed - elapsed as u128
                } else {
                    0
                }
            },
            None => 0,
        }
    }

    fn scheduled(&self, interval: u64) -> (due: u128)
        ensures
            due == interval as nat * self@.tries,
    {
        assert(interval as nat * self.cur_tries as nat <= u64::MAX as nat * u32::MAX as nat)
            by (nonlinear_arith)
            requires
                interval <= u64::MAX,
                self.cur_tries <= u32::MAX,
        ;
        interval as u128 * self.cur_tries as u128
    }

    /// The number of ticks so far.
    pub fn tries(&self) -> (n: u32)
        ensures
            n == self@.tries,
    {
        self.cur_tries
    }
}


/// In a loop whose attempts all fail, exactly `n` attempts are made: the ticks
/// after the first `n - 1` attempts grant another one and the tick after attempt
/// `n` gives up. `clock[k]` is the elapsed time that tick `k + 1` is given.
pub open spec fn stops_at(poller: ElementPoller, clock: Seq<u64>, n: nat) -> bool {
    &&& 1 <= n <= clock.len()
    &&& forall|k: nat|
        #![trigger clock[k as int]]
        k + 1 < n ==> !TickerState::after(poller, k).gives_up(clock[k as int])
    &&& TickerState::after(poller, (n - 1) as nat).gives_up(clock[n - 1])
}

/// Every attempt starts at its place in the schedule and is over before the
/// next place: tick `k + 1` reads a time from `interval * k` up to, but not
/// including, `interval * (k + 1)`.
pub open spec fn on_schedule(interval: u64, clock: Seq<u64>) -> bool {
    forall|k: nat|
        #![trigger clock[k as int]]
        k < clock.len() ==> interval as nat * k <= clock[k as int] < interval as nat * (k + 1)
}

/// The least number of intervals that cover the timeout.
pub open spec fn intervals_in(timeout: u64, interval: u64) -> nat
    recommends
        interval > 0,
{
    ((timeout + interval - 1) / (interval as int)) as nat
}

/// A ticker made from `poller` is in the state `after(poller, n)` once it has
/// ticked `n` times, whatever the clock said.
pub proof fn ticks_only_count(poller: ElementPoller, n: nat)
    ensures
        TickerState::after(poller, 0) == TickerState::initial(poller),
        TickerState::after(poller, n).ticked() == TickerState::after(poller, n + 1),
{
}

/// With `NoWait` every tick gives up, however many came before and whatever the
/// clock says: a second attempt is never made.
pub proof fn no_wait_never_retries(tries: nat, elapsed: u64)
    ensures
        TickerState::after(ElementPoller::NoWait, tries).gives_up(elapsed),
{
}

/// With `NoWait` a loop whose first attempt fails stops after that attempt.
pub proof fn no_wait_makes_one_attempt(clock: Seq<u64>, n: nat)
    requires
        clock.len() >= 1,
    ensures
        stops_at(ElementPoller::NoWait, clock, 1),
        stops_at(ElementPoller::NoWait, clock, n) ==> n == 1,
{
    if stops_at(ElementPoller::NoWait, clock, n) && n > 1 {
        no_wait_never_retries(0, clock[0]);
    }
}

/// With `NumTriesWithInterval(num_tries, interval)` and at least one try asked
/// for, a loop whose attempts all fail makes exactly `num_tries` attempts,
/// whatever the clock says.
pub proof fn num_tries_makes_exactly_that_many(
    num_tries: u32,
    interval: u64,
    clock: Seq<u64>,
    n: nat,
)
    requires
        num_tries >= 1,
        clock.len() >= num_tries,
    ensures
        stops_at(ElementPoller::NumTriesWithInterval(num_tries, interval), clock, num_tries as nat),
        stops_at(ElementPoller::NumTriesWithInterval(num_tries, interval), clock, n) ==> n
            == num_tries,
{
    let poller = ElementPoller::NumTriesWithInterval(num_tries, interval);
    assert forall|k: nat, elapsed: u64|
        TickerState::after(poller, k).gives_up(elapsed) <==> k + 1 >= num_tries by {}
    if stops_at(poller, clock, n) && n > num_tries {
        // The tick after attempt `num_tries` would have had to grant another.
        let k = (num_tries - 1) as nat;
        assert(!TickerState::after(poller, k).gives_up(clock[k as int]));
    }
}

/// With `TimeoutWithInterval(timeout, interval)` and a positive interval, a loop
/// whose attempts all fail and keep to the schedule stops no earlier than the
/// timeout, and the number of attempts it has made by then is the number of
/// intervals in the timeout, or one more.
pub proof fn timeout_with_interval_attempts(
    timeout: u64,
    interval: u64,
    clock: Seq<u64>,
    n: nat,
)
    requires
        interval > 0,
        on_schedule(interval, clock),
        stops_at(ElementPoller::TimeoutWithInterval(timeout, interval), clock, n),
    ensures
        clock[n - 1] >= timeout,
        intervals_in(timeout, interval) <= n <= intervals_in(timeout, interval) + 1,
{
    let poller = ElementPoller::TimeoutWithInterval(timeout, interval);
    let c = intervals_in(timeout, interval);
    // timeout < interval * n, so n covers the timeout.
    assert(c <= n) by (nonlinear_arith)
        requires
            interval > 0,
            timeout < interval as nat * n,
            c == ((timeout + interval - 1) / (interval as int)) as nat,
    ;
    if n >= 2 {
        let before = (n - 2) as nat;
        assert(interval as nat * before <= clock[before as int]);
        // interval * (n - 2) < timeout, so n - 2 intervals do not cover it.
        assert(n <= c + 1) by (nonlinear_arith)
            requires
                interval > 0,
                n >= 2,
                interval as nat * ((n - 2) as nat) < timeout,
                c == ((timeout + interval - 1) / (interval as int)) as nat,
        ;
    }
}

/// A loop whose attempts all fail stops at the first tick that gives up:
/// where the tick after attempt `k + 1` would give up, the loop makes `k + 1`
/// attempts at most.
pub proof fn stops_at_the_first_tick_that_gives_up(poller: ElementPoller, clock: Seq<u64>, k: nat)
    requires
        k < clock.len(),
        TickerState::after(poller, k).gives_up(clock[k as int]),
    ensures
        exists|n: nat| n <= k + 1 && stops_at(poller, clock, n),
    decreases k,
{
    if exists|j: nat| j < k && TickerState::after(poller, j).gives_up(#[trigger] clock[j as int]) {
        let j = choose|j: nat|
            j < k && TickerState::after(poller, j).gives_up(#[trigger] clock[j as int]);
        stops_at_the_first_tick_that_gives_up(poller, clock, j);
    } else {
        assert(stops_at(poller, clock, k + 1));
    }
}

/// With `TimeoutWithInterval(timeout, interval)` and a positive interval, a
/// loop whose attempts all fail and keep to the schedule does stop: it makes no
/// more attempts than there are intervals in the timeout, and one.
pub proof fn timeout_with_interval_stops(timeout: u64, interval: u64, clock: Seq<u64>)
    requires
        interval > 0,
        on_schedule(interval, clock),
        clock.len() > intervals_in(timeout, interval),
    ensures
        exists|n: nat|
            n <= intervals_in(timeout, interval) + 1 && stops_at(
                ElementPoller::TimeoutWithInterval(timeout, interval),
                clock,
                n,
            ),
{
    let poller = ElementPoller::TimeoutWithInterval(timeout, interval);
    let c = intervals_in(timeout, interval);
    assert(timeout <= interval as nat * c) by (nonlinear_arith)
        requires
            interval > 0,
            c == ((timeout + interval - 1) / (interval as int)) as nat,
    ;
    stops_at_the_first_tick_that_gives_up(poller, clock, c);
}

/// Whatever the strategy, a loop whose attempts all fail stops only once the
/// timeout, where there is one, has passed, and never before the minimum number
/// of attempts has been made.
pub proof fn stops_late_enough(poller: ElementPoller, clock: Seq<u64>, n: nat)
    requires
        stops_at(poller, clock, n),
    ensures
        n >= poller.spec_min_tries(),
        poller.spec_timeout() is Some ==> clock[n - 1] >= poller.spec_timeout()->0,
{
}

} // verus!
