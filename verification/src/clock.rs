//! A monotonic millisecond clock. The raw reading comes from
//! `std::time::Instant`, of which nothing is assumed; the verified layer
//! enforces that successive readings never decrease, so every caller gets
//! the monotonicity the timer's reasoning rests on whatever the platform
//! clock does.

use vstd::prelude::*;

verus! {

#[verifier::external_type_specification]
#[verifier::external_body]
pub struct ExInstant(std::time::Instant);

/// Relies on `std::time::Instant::now` for an opaque anchor point of the
/// platform's monotonic clock. Nothing is assumed of the value.
#[verifier::external_body]
fn instant_now() -> (r: std::time::Instant) {
    std::time::Instant::now()
}

/// Relies on `std::time::Instant::elapsed` (and `Duration::as_millis` to
/// render it): milliseconds since `epoch`, truncated to 64 bits. Nothing is
/// assumed of the value; the caller imposes monotonicity itself.
#[verifier::external_body]
fn millis_since(epoch: &std::time::Instant) -> (r: u64) {
    epoch.elapsed().as_millis() as u64
}

/// A clock whose readings are guaranteed, by the verified `now_ms`, never to
/// decrease: `last()` is the highest reading handed out so far.
pub struct MonotonicClock {
    epoch: std::time::Instant,
    last_ms: u64,
}

impl MonotonicClock {
    /// The highest reading handed out so far.
    pub closed spec fn last(self) -> u64 {
        self.last_ms
    }

    pub fn new() -> (c: MonotonicClock)
        ensures
            c.last() == 0,
    {
        MonotonicClock { epoch: instant_now(), last_ms: 0 }
    }

    /// The highest reading handed out so far, without advancing the clock.
    pub fn last_reading(&self) -> (r: u64)
        ensures
            r == self.last(),
    {
        self.last_ms
    }

    /// The current reading: at least as large as every earlier one.
    pub fn now_ms(&mut self) -> (r: u64)
        ensures
            r == final(self).last(),
            r >= old(self).last(),
    {
        let raw = millis_since(&self.epoch);
        if raw > self.last_ms {
            self.last_ms = raw;
        }
        self.last_ms
    }
}

} // verus!
