//! The 3-2-1 countdown shown before input blocking starts.
//!
//! The countdown lasts three seconds, one per digit. [`Countdown`] holds no state: it is a
//! function from the time elapsed since the countdown started to which digit shows and how far
//! into that digit's second the animation is (its fade-in and fade-out curves are drawn by the
//! renderer from that offset).
use vstd::prelude::*;

use crate::time::{Duration, NANOS_PER_SEC};

verus! {

broadcast use crate::time::lemma_duration_bounds;

/// First digit shown, counting down to 1.
pub const START_DIGIT: u8 = 3;
/// Duration each digit is shown for: one second.
pub const DIGIT_NANOS: u64 = 1_000_000_000;
/// Total duration of the countdown: three seconds.
pub const TOTAL_NANOS: u64 = 3_000_000_000;

/// Which digit shows at `elapsed`, and how far into its second.
#[derive(Debug, Clone, Copy, PartialEq, Eq, Structural)]
pub struct DigitTiming {
    /// The digit shown (3, 2 or 1).
    pub digit: u8,
    /// Time since this digit appeared.
    pub into_digit: Duration,
}

/// Pure timing calculator for the countdown.
#[derive(Debug, Clone, Copy)]
pub struct Countdown {}

impl Countdown {
    /// A countdown timing calculator.
    pub fn new() -> (c: Countdown) {
        Countdown {}
    }

    /// The countdown's total duration (three seconds).
    pub fn total() -> (d: Duration)
        ensures
            d@ == TOTAL_NANOS,
    {
        Duration::from_nanos(TOTAL_NANOS)
    }

    /// Whether the countdown has finished by `elapsed`.
    pub fn is_finished(&self, elapsed: Duration) -> (b: bool)
        ensures
            b == (elapsed@ >= TOTAL_NANOS),
    {
        elapsed.as_nanos() >= TOTAL_NANOS
    }

    /// The digit showing at `elapsed` (3 during the first second, 2 during the next, 1 during
    /// the last) and the time since it appeared; `None` once the countdown is finished.
    pub fn digit_at(&self, elapsed: Duration) -> (t: Option<DigitTiming>)
        ensures
            match t {
                None => elapsed@ >= TOTAL_NANOS,
                Some(d) => elapsed@ < TOTAL_NANOS && d.digit == START_DIGIT - elapsed@ / NANOS_PER_SEC as int
                    && d.into_digit@ == elapsed@ % NANOS_PER_SEC as int,
            },
    {
        let e = elapsed.as_nanos();
        if e >= TOTAL_NANOS {
            return None;
        }
        let index = e / DIGIT_NANOS;
        Some(DigitTiming {
            digit: START_DIGIT - index as u8,
            into_digit: Duration::from_nanos(e % DIGIT_NANOS),
        })
    }
}

impl Default for Countdown {
    fn default() -> (c: Countdown) {
        Countdown {}
    }
}

} // verus!
