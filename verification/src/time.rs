//! Durations, clock readings and the monotonic clock they come from.

use vstd::prelude::*;

verus! {

/// Length of a time span in nanoseconds.
#[derive(Debug, Clone, Copy, PartialEq, Eq, Structural, Hash)]
pub struct Duration {
    /// Number of nanoseconds.
    pub nanos: u128,
}

impl Duration {
    /// The empty time span.
    pub fn zero() -> (d: Duration)
        ensures
            d.nanos == 0,
    {
        Duration { nanos: 0 }
    }

    /// `secs` seconds.
    pub fn from_secs(secs: u64) -> (d: Duration)
        ensures
            d.nanos == secs * 1_000_000_000,
    {
        Duration { nanos: secs as u128 * 1_000_000_000 }
    }

    /// `millis` milliseconds.
    pub fn from_millis(millis: u64) -> (d: Duration)
        ensures
            d.nanos == millis * 1_000_000,
    {
        Duration { nanos: millis as u128 * 1_000_000 }
    }

    /// Number of whole milliseconds.
    pub fn as_millis(&self) -> (millis: u128)
        ensures
            millis == self.nanos / 1_000_000,
    {
        self.nanos / 1_000_000
    }
}

/// Time between two clock readings, zero if `start` lies after `now`.
pub open spec fn elapsed(start: nat, now: nat) -> nat {
    if now >= start {
        (now - start) as nat
    } else {
        0
    }
}

/// Reading of a [Clock]: the time which passed since the clock was started, in nanoseconds.
///
/// Readings are only comparable if they come from the same clock.
#[derive(Debug, Clone, Copy, PartialEq, Eq, Structural, Hash)]
pub struct Instant {
    /// Nanoseconds since the clock was started.
    pub nanos: u128,
}

impl Instant {
    /// Nanoseconds between `earlier` and this reading, zero if `earlier` lies after it.
    pub open spec fn nanos_since(self, earlier: Instant) -> nat {
        elapsed(earlier.nanos as nat, self.nanos as nat)
    }

    /// Time between `earlier` and this reading, zero if `earlier` lies after it.
    pub fn duration_since(&self, earlier: Instant) -> (d: Duration)
        ensures
            d.nanos == self.nanos_since(earlier),
    {
        if self.nanos >= earlier.nanos {
            Duration { nanos: self.nanos - earlier.nanos }
        } else {
            Duration { nanos: 0 }
        }
    }
}

/// [std::time::Instant], which is only carried around as the origin of a [Clock].
#[verifier::external_type_specification]
#[verifier::external_body]
pub struct ExStdInstant(std::time::Instant);

/// Monotonic clock. All readings of a clock and of its copies share one origin.
#[derive(Debug, Clone, Copy)]
pub struct Clock {
    origin: std::time::Instant,
}

impl Clock {
    /// Starts a new clock.
    pub fn new() -> Clock {
        Clock { origin: std_instant_now() }
    }

    /// Current reading. Nothing is promised about it, because it depends on the time of the call.
    pub fn now(&self) -> Instant {
        Instant { nanos: std_elapsed_nanos(&self.origin) }
    }
}

/// Calls [std::time::Instant::now]. The result depends on the time of the call, so nothing is
/// claimed about it.
#[verifier::external_body]
fn std_instant_now() -> std::time::Instant {
    std::time::Instant::now()
}

/// Calls [std::time::Instant::elapsed] and hands the duration out in nanoseconds. The result
/// depends on the time of the call, so nothing is claimed about it.
#[verifier::external_body]
fn std_elapsed_nanos(origin: &std::time::Instant) -> u128 {
    origin.elapsed().as_nanos()
}

/// Elapsed time is the distance of two readings in their order, and never negative.
pub proof fn law_elapsed(start: nat, now: nat)
    ensures
        start <= now ==> start + elapsed(start, now) == now,
        now <= start ==> elapsed(start, now) == 0,
{
}

} // verus!
