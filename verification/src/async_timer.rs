use vstd::prelude::*;

use std::time::{Duration, Instant};

use crate::time_spec::{as_nanos, duration_from_micros, duration_from_millis, duration_nanos, elapsed_since, instant_now};

verus! {

/// A timer that becomes ready once a given time has passed since it was made.
pub struct AsyncTimeout {
    start: Instant,
    wait: Duration,
}

impl AsyncTimeout {
    /// How long the timer waits after it was made.
    pub closed spec fn wait_time(&self) -> Duration {
        self.wait
    }

    /// The clock reading the timer counts from.
    pub closed spec fn start_time(&self) -> Instant {
        self.start
    }

    /// A timer that is ready once `wait` has passed since the clock read `start`.
    pub fn starting_at(start: Instant, wait: Duration) -> (t: AsyncTimeout)
        ensures
            t.start_time() == start,
            t.wait_time() == wait,
    {
        AsyncTimeout { start: start, wait: wait }
    }

    /// A timer that is ready `targ_d` after now: `starting_at` the current clock reading.
    pub fn sleep_duration(targ_d: Duration) -> (t: AsyncTimeout)
        ensures
            t.wait_time() == targ_d,
    {
        AsyncTimeout::starting_at(instant_now(), targ_d)
    }

    /// A timer that is ready `millis` milliseconds after now: `starting_at` the current clock
    /// reading.
    pub fn sleep_ms(millis: u64) -> (t: AsyncTimeout)
        ensures
            duration_nanos(t.wait_time()) == millis * 1_000_000,
    {
        AsyncTimeout::starting_at(instant_now(), duration_from_millis(millis))
    }

    /// A timer that is ready `micros` microseconds after now: `starting_at` the current clock
    /// reading.
    pub fn sleep_us(micros: u64) -> (t: AsyncTimeout)
        ensures
            duration_nanos(t.wait_time()) == micros * 1_000,
    {
        AsyncTimeout::starting_at(instant_now(), duration_from_micros(micros))
    }

    /// Whether the timer is ready once `elapsed` has passed since it was made.
    pub fn is_due(&self, elapsed: &Duration) -> (ready: bool)
        ensures
            ready == (duration_nanos(*elapsed) >= duration_nanos(self.wait_time())),
    {
        as_nanos(elapsed) >= as_nanos(&self.wait)
    }

    /// Whether the timer is ready now: some time has elapsed since it was made, and the timer
    /// is ready exactly when that time is at least the time it waits.
    pub fn poll(&self) -> (ready: bool)
        ensures
            exists|elapsed: Duration|
                ready == (#[trigger] duration_nanos(elapsed) >= duration_nanos(self.wait_time())),
    {
        let elapsed = elapsed_since(&self.start);
        self.is_due(&elapsed)
    }
}

} // verus!
