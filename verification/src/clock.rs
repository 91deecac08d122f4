//! Injectable time source.
//!
//! Every timing decision in this crate takes an explicit [`Instant`] rather than reading the
//! system clock itself, so the state machines can be driven deterministically. The [`Clock`]
//! trait exists only to let callers obtain that `Instant`: the application uses
//! [`SystemClock`], tests use [`ManualClock`].
use vstd::prelude::*;

use crate::time::{Duration, Instant};

verus! {

broadcast use {crate::time::lemma_duration_bounds, crate::time::lemma_instant_bounds};

/// A source of [`Instant`] values, which implementations return monotonically non-decreasing.
pub trait Clock {
    /// Returns the current instant.
    fn now(&self) -> Instant;
}

#[verifier::external_type_specification]
#[verifier::external_body]
pub struct ExStdInstant(std::time::Instant);

/// The current reading of the system's monotonic clock.
///
/// Trusted: calls `std::time::Instant::now`. Nothing is stated of the result, which depends on
/// the time of the call.
#[verifier::external_body]
fn std_instant_now() -> std::time::Instant {
    std::time::Instant::now()
}

/// Nanoseconds elapsed since `origin`, by the system's monotonic clock.
///
/// Trusted: calls `std::time::Instant::elapsed` and converts the `Duration` with `as_nanos`.
/// Nothing is stated of the result, which depends on the time of the call.
#[verifier::external_body]
fn std_nanos_since(origin: &std::time::Instant) -> u128 {
    origin.elapsed().as_nanos()
}

/// A [`Clock`] backed by the system's monotonic clock, counting from the moment it was created.
pub struct SystemClock {
    origin: std::time::Instant,
}

impl SystemClock {
    /// A system clock whose origin is now.
    pub fn new() -> (c: SystemClock) {
        SystemClock { origin: std_instant_now() }
    }
}

impl Clock for SystemClock {
    /// Nanoseconds since this clock was created (saturating at `u64::MAX`, about 584 years).
    fn now(&self) -> (t: Instant) {
        let n = std_nanos_since(&self.origin);
        if n <= u64::MAX as u128 {
            Instant::from_nanos(n as u64)
        } else {
            Instant::from_nanos(u64::MAX)
        }
    }
}

/// A [`Clock`] whose value only changes when a test sets or advances it.
#[derive(Debug, Clone, Copy)]
pub struct ManualClock {
    now: Instant,
}

impl View for ManualClock {
    type V = int;

    /// The instant the clock currently reads.
    closed spec fn view(&self) -> int {
        self.now@
    }
}

impl ManualClock {
    /// A manual clock reading the origin instant.
    pub fn new() -> (c: ManualClock)
        ensures
            c@ == 0,
    {
        ManualClock { now: Instant::from_nanos(0) }
    }

    /// Moves the clock forward by `duration`.
    pub fn advance(&mut self, duration: Duration)
        requires
            old(self)@ + duration@ <= u64::MAX,
        ensures
            final(self)@ == old(self)@ + duration@,
    {
        self.now = self.now.plus(duration);
    }

    /// Sets the clock to `instant`.
    pub fn set(&mut self, instant: Instant)
        ensures
            final(self)@ == instant@,
    {
        self.now = instant;
    }

    /// The instant the clock currently reads.
    pub fn read(&self) -> (t: Instant)
        ensures
            t@ == self@,
    {
        self.now
    }
}

impl Clock for ManualClock {
    fn now(&self) -> (t: Instant)
        ensures
            t@ == self@,
    {
        self.now
    }
}

impl Default for ManualClock {
    fn default() -> (c: ManualClock)
        ensures
            c@ == 0,
    {
        ManualClock::new()
    }
}

} // verus!
