//! Fail-safe auto-unlock timing.
//!
//! A [`Deadline`] is captured once when input blocking starts and never moves: whatever else
//! happens, once it passes the session ends. This module computes whether it has passed, the time
//! remaining, and the rounded-up seconds shown to the user.
use vstd::prelude::*;

use crate::time::{Duration, Instant, NANOS_PER_SEC};

verus! {

broadcast use {crate::time::lemma_duration_bounds, crate::time::lemma_instant_bounds};

/// The final emphasis window: the last ten seconds before the deadline.
pub const FINAL_EMPHASIS_SECS: u64 = 10;

/// The allowed fail-safe delays: 30, 60 or 90 seconds (60 by default).
#[derive(Debug, Clone, Copy, PartialEq, Eq, Structural)]
pub enum FailsafeDelay {
    /// Auto-unlock after 30 seconds.
    Seconds30,
    /// Auto-unlock after 60 seconds (the default).
    Seconds60,
    /// Auto-unlock after 90 seconds.
    Seconds90,
}

impl FailsafeDelay {
    /// The delay in whole seconds.
    pub open spec fn spec_seconds(self) -> nat {
        match self {
            FailsafeDelay::Seconds30 => 30,
            FailsafeDelay::Seconds60 => 60,
            FailsafeDelay::Seconds90 => 90,
        }
    }

    /// The delay in whole seconds.
    pub fn seconds(self) -> (s: u64)
        ensures
            s == self.spec_seconds(),
    {
        match self {
            FailsafeDelay::Seconds30 => 30,
            FailsafeDelay::Seconds60 => 60,
            FailsafeDelay::Seconds90 => 90,
        }
    }

    /// The delay as a [`Duration`].
    pub fn duration(self) -> (d: Duration)
        ensures
            d@ == self.spec_seconds() * NANOS_PER_SEC,
    {
        Duration::from_secs(self.seconds())
    }

    /// The delay whose length is `seconds`, if it is one of 30, 60 or 90.
    pub open spec fn spec_from_seconds(seconds: int) -> Option<FailsafeDelay> {
        if seconds == 30 {
            Some(FailsafeDelay::Seconds30)
        } else if seconds == 60 {
            Some(FailsafeDelay::Seconds60)
        } else if seconds == 90 {
            Some(FailsafeDelay::Seconds90)
        } else {
            None
        }
    }

    /// Parses a delay from its seconds value; `None` for anything other than 30, 60 or 90.
    pub fn from_seconds(seconds: u64) -> (d: Option<FailsafeDelay>)
        ensures
            d == Self::spec_from_seconds(seconds as int),
    {
        match seconds {
            30 => Some(FailsafeDelay::Seconds30),
            60 => Some(FailsafeDelay::Seconds60),
            90 => Some(FailsafeDelay::Seconds90),
            _ => None,
        }
    }

    /// Starts a [`Deadline`] `self` after `now`.
    pub fn deadline_from(self, now: Instant) -> (d: Deadline)
        requires
            now@ + self.spec_seconds() * NANOS_PER_SEC <= u64::MAX,
        ensures
            d@ == now@ + self.spec_seconds() * NANOS_PER_SEC,
    {
        Deadline::new(now, self.duration())
    }
}

impl Default for FailsafeDelay {
    fn default() -> (d: FailsafeDelay)
        ensures
            d == FailsafeDelay::Seconds60,
    {
        FailsafeDelay::Seconds60
    }
}

/// Whole seconds in `nanos`, rounded up.
pub open spec fn ceil_secs(nanos: int) -> int {
    if nanos % NANOS_PER_SEC as int == 0 {
        nanos / NANOS_PER_SEC as int
    } else {
        nanos / NANOS_PER_SEC as int + 1
    }
}

/// [`ceil_secs`] saturated at `u32::MAX`.
pub open spec fn capped_ceil_secs(nanos: int) -> int {
    if ceil_secs(nanos) <= u32::MAX { ceil_secs(nanos) } else { u32::MAX as int }
}

/// A fixed point in time, computed once when input blocking starts, that never moves.
#[derive(Debug, Clone, Copy, PartialEq, Eq, Structural)]
pub struct Deadline {
    at: Instant,
}

impl View for Deadline {
    type V = int;

    /// The deadline's instant, in nanoseconds since the origin.
    closed spec fn view(&self) -> int {
        self.at@
    }
}

impl Deadline {
    /// Time remaining until the deadline at `now`, never negative.
    pub open spec fn spec_remaining(self, now: int) -> int {
        if self@ >= now { self@ - now } else { 0 }
    }

    /// Creates a deadline `duration` after `started_at`.
    pub fn new(started_at: Instant, duration: Duration) -> (d: Deadline)
        requires
            started_at@ + duration@ <= u64::MAX,
        ensures
            d@ == started_at@ + duration@,
    {
        Deadline { at: started_at.plus(duration) }
    }

    /// The instant the deadline falls on.
    pub fn at(self) -> (t: Instant)
        ensures
            t@ == self@,
    {
        self.at
    }

    /// Whether `now` is at or past the deadline.
    pub fn is_expired(self, now: Instant) -> (b: bool)
        ensures
            b == (now@ >= self@),
    {
        now.is_at_or_after(self.at)
    }

    /// Time remaining until the deadline, or zero if already expired.
    pub fn remaining(self, now: Instant) -> (d: Duration)
        ensures
            d@ == self.spec_remaining(now@),
    {
        self.at.saturating_duration_since(now)
    }

    /// Whole seconds remaining, rounded up (59.2 s remaining reads as 60), saturating at
    /// `u32::MAX`.
    pub fn remaining_secs_ceil(self, now: Instant) -> (s: u32)
        ensures
            s == capped_ceil_secs(self.spec_remaining(now@)),
    {
        let remaining = self.remaining(now);
        let secs = remaining.as_secs();
        let whole = if remaining.subsec_nanos() > 0 {
            secs + 1
        } else {
            secs
        };
        if whole <= u32::MAX as u64 {
            whole as u32
        } else {
            u32::MAX
        }
    }

    /// Whether `now` is within the last ten seconds before the deadline (or past it).
    pub fn is_in_final_emphasis(self, now: Instant) -> (b: bool)
        ensures
            b == (self.spec_remaining(now@) <= FINAL_EMPHASIS_SECS * NANOS_PER_SEC),
    {
        self.remaining(now).as_nanos() <= FINAL_EMPHASIS_SECS * NANOS_PER_SEC
    }
}

} // verus!
