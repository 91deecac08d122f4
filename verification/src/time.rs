//! Time values as whole nanoseconds.
//!
//! [`Instant`] counts nanoseconds from an arbitrary, fixed origin chosen by whoever creates the
//! first value (the platform layer maps the system's monotonic clock onto it); [`Duration`] is a
//! non-negative span of nanoseconds. Both are plain integers, so every comparison a state machine
//! makes on them is exact.
use vstd::prelude::*;

verus! {

/// Nanoseconds in one millisecond.
pub const NANOS_PER_MILLI: u64 = 1_000_000;
/// Nanoseconds in one second.
pub const NANOS_PER_SEC: u64 = 1_000_000_000;

/// `a + b`, capped at the largest representable nanosecond count.
pub open spec fn sat_add(a: int, b: int) -> int {
    if a + b <= u64::MAX { a + b } else { u64::MAX as int }
}

/// A non-negative span of time, in whole nanoseconds.
#[derive(Debug, Clone, Copy, PartialEq, Eq, Structural)]
pub struct Duration {
    nanos: u64,
}

impl View for Duration {
    type V = int;

    closed spec fn view(&self) -> int {
        self.nanos as int
    }
}

/// A span's nanosecond count always fits in a `u64`.
pub broadcast proof fn lemma_duration_bounds(d: Duration)
    ensures
        0 <= #[trigger] d@ <= u64::MAX,
{
}

/// A span is determined by its nanosecond count: two spans of equal length are the same span.
pub proof fn lemma_duration_determined_by_nanos(a: Duration, b: Duration)
    requires
        a@ == b@,
    ensures
        a == b,
{
}

impl Duration {
    /// The empty span.
    pub fn zero() -> (d: Duration)
        ensures
            d@ == 0,
    {
        Duration { nanos: 0 }
    }

    /// A span of `nanos` nanoseconds.
    pub fn from_nanos(nanos: u64) -> (d: Duration)
        ensures
            d@ == nanos,
    {
        Duration { nanos }
    }

    /// A span of `millis` milliseconds.
    pub fn from_millis(millis: u64) -> (d: Duration)
        requires
            millis * NANOS_PER_MILLI <= u64::MAX,
        ensures
            d@ == millis * NANOS_PER_MILLI,
    {
        Duration { nanos: millis * NANOS_PER_MILLI }
    }

    /// A span of `secs` seconds.
    pub fn from_secs(secs: u64) -> (d: Duration)
        requires
            secs * NANOS_PER_SEC <= u64::MAX,
        ensures
            d@ == secs * NANOS_PER_SEC,
    {
        Duration { nanos: secs * NANOS_PER_SEC }
    }

    /// The span in nanoseconds.
    pub fn as_nanos(self) -> (n: u64)
        ensures
            n == self@,
    {
        self.nanos
    }

    /// Whole seconds in the span (the fractional part dropped).
    pub fn as_secs(self) -> (s: u64)
        ensures
            s == self@ / NANOS_PER_SEC as int,
    {
        self.nanos / NANOS_PER_SEC
    }

    /// Nanoseconds beyond the whole seconds.
    pub fn subsec_nanos(self) -> (n: u32)
        ensures
            n == self@ % NANOS_PER_SEC as int,
    {
        (self.nanos % NANOS_PER_SEC) as u32
    }

    /// Whether the span is empty.
    pub fn is_zero(self) -> (b: bool)
        ensures
            b == (self@ == 0),
    {
        self.nanos == 0
    }

    /// `self - other`, or the empty span if `other` is longer.
    pub fn saturating_sub(self, other: Duration) -> (d: Duration)
        ensures
            d@ == if self@ >= other@ { self@ - other@ } else { 0 },
    {
        if self.nanos >= other.nanos {
            Duration { nanos: self.nanos - other.nanos }
        } else {
            Duration { nanos: 0 }
        }
    }

    /// `self + other`.
    pub fn plus(self, other: Duration) -> (d: Duration)
        requires
            self@ + other@ <= u64::MAX,
        ensures
            d@ == self@ + other@,
    {
        Duration { nanos: self.nanos + other.nanos }
    }
}

/// A point in time: nanoseconds since a fixed, arbitrary origin.
#[derive(Debug, Clone, Copy, PartialEq, Eq, Structural)]
pub struct Instant {
    nanos: u64,
}

impl View for Instant {
    type V = int;

    closed spec fn view(&self) -> int {
        self.nanos as int
    }
}

/// An instant's nanosecond count always fits in a `u64`.
pub broadcast proof fn lemma_instant_bounds(t: Instant)
    ensures
        0 <= #[trigger] t@ <= u64::MAX,
{
}

/// An instant is determined by its nanosecond count: two instants the same distance from the
/// origin are the same instant.
pub proof fn lemma_instant_determined_by_nanos(a: Instant, b: Instant)
    requires
        a@ == b@,
    ensures
        a == b,
{
}

impl Instant {
    /// The instant `nanos` nanoseconds after the origin.
    pub fn from_nanos(nanos: u64) -> (t: Instant)
        ensures
            t@ == nanos,
    {
        Instant { nanos }
    }

    /// Nanoseconds since the origin.
    pub fn as_nanos(self) -> (n: u64)
        ensures
            n == self@,
    {
        self.nanos
    }

    /// The instant `d` after `self`.
    pub fn plus(self, d: Duration) -> (t: Instant)
        requires
            self@ + d@ <= u64::MAX,
        ensures
            t@ == self@ + d@,
    {
        Instant { nanos: self.nanos + d.nanos }
    }

    /// The instant `d` after `self`, or the last representable instant if that is later.
    pub fn saturating_plus(self, d: Duration) -> (t: Instant)
        ensures
            t@ == sat_add(self@, d@),
    {
        Instant { nanos: self.nanos.saturating_add(d.nanos) }
    }

    /// The instant `d` after `self`, or `None` if it cannot be represented.
    pub fn checked_add(self, d: Duration) -> (t: Option<Instant>)
        ensures
            match t {
                Some(x) => self@ + d@ <= u64::MAX && x@ == self@ + d@,
                None => self@ + d@ > u64::MAX,
            },
    {
        match self.nanos.checked_add(d.nanos) {
            Some(n) => Some(Instant { nanos: n }),
            None => None,
        }
    }

    /// The instant `d` before `self`, or `None` if that falls before the origin.
    pub fn checked_sub(self, d: Duration) -> (t: Option<Instant>)
        ensures
            match t {
                Some(x) => self@ >= d@ && x@ == self@ - d@,
                None => self@ < d@,
            },
    {
        if self.nanos >= d.nanos {
            Some(Instant { nanos: self.nanos - d.nanos })
        } else {
            None
        }
    }

    /// Time elapsed from `earlier` to `self`, or the empty span if `earlier` is later.
    pub fn saturating_duration_since(self, earlier: Instant) -> (d: Duration)
        ensures
            d@ == if self@ >= earlier@ { self@ - earlier@ } else { 0 },
    {
        if self.nanos >= earlier.nanos {
            Duration { nanos: self.nanos - earlier.nanos }
        } else {
            Duration { nanos: 0 }
        }
    }

    /// Whether `self` is at or after `other`.
    pub fn is_at_or_after(self, other: Instant) -> (b: bool)
        ensures
            b == (self@ >= other@),
    {
        self.nanos >= other.nanos
    }

    /// The earlier of `self` and `other`.
    pub fn earliest(self, other: Instant) -> (t: Instant)
        ensures
            t@ == if self@ <= other@ { self@ } else { other@ },
    {
        if self.nanos <= other.nanos { self } else { other }
    }
}

} // verus!
