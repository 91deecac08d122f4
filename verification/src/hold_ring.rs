//! The hold-to-unlock progress ring.
//!
//! Pressing and holding for [`HOLD_DURATION_NANOS`] (2 s) completes the hold; releasing early
//! drains the progress back to zero over [`HOLD_DRAIN_NANOS`] (200 ms), and pressing again while
//! it drains resumes from the progress left rather than restarting from zero. Once complete, a
//! short completion pulse ([`COMPLETION_SCALE_PULSE_NANOS`]) plays before the caller unlocks.
//!
//! Progress is measured as the number of nanoseconds of the hold that are currently filled, from
//! 0 to [`HOLD_DURATION_NANOS`]; a renderer divides by [`HOLD_DURATION_NANOS`] for a fraction.
use vstd::prelude::*;

use crate::time::{Duration, Instant};

verus! {

broadcast use {crate::time::lemma_duration_bounds, crate::time::lemma_instant_bounds};

/// How long the pointer (or key combo) must be held to unlock: 2 s.
pub const HOLD_DURATION_NANOS: u64 = 2_000_000_000;
/// How long an interrupted hold takes to drain back to zero: 200 ms.
pub const HOLD_DRAIN_NANOS: u64 = 200_000_000;
/// Duration of the completion scale pulse played once the hold completes: 150 ms.
pub const COMPLETION_SCALE_PULSE_NANOS: u64 = 150_000_000;

/// `min(a, b)` on integers.
pub open spec fn min_int(a: int, b: int) -> int {
    if a <= b { a } else { b }
}

/// Nanoseconds elapsed from `start` to `now`, zero if `now` is earlier.
pub open spec fn elapsed(start: int, now: int) -> int {
    if now >= start { now - start } else { 0 }
}

/// State of the hold-to-unlock interaction.
#[derive(Debug, Clone, Copy, PartialEq, Eq, Structural)]
pub enum HoldRing {
    /// Not held.
    Idle,
    /// Being held since `start`.
    Holding {
        /// When the (possibly resumed) hold started.
        start: Instant,
    },
    /// Released early at `start`; the progress `filled` it had then drains away.
    Draining {
        /// When the hold was released.
        start: Instant,
        /// Nanoseconds of the hold that were filled when it was released.
        filled: u64,
    },
    /// The hold completed at `start`; the completion pulse is playing.
    Completing {
        /// When the hold completed.
        start: Instant,
    },
}

impl HoldRing {
    /// Nanoseconds of the hold filled at `now`: the elapsed hold time (capped at the full
    /// duration) while holding, the released progress shrinking linearly to zero while draining,
    /// the full duration once completing, zero when idle.
    pub open spec fn spec_filled(self, now: int) -> int {
        match self {
            HoldRing::Idle => 0,
            HoldRing::Holding { start } => min_int(elapsed(start@, now), HOLD_DURATION_NANOS as int),
            HoldRing::Draining { start, filled } => filled * (HOLD_DRAIN_NANOS - min_int(
                elapsed(start@, now),
                HOLD_DRAIN_NANOS as int,
            )) / HOLD_DRAIN_NANOS as int,
            HoldRing::Completing { .. } => HOLD_DURATION_NANOS as int,
        }
    }

    /// A drain never holds more progress than a full hold (every drain [`HoldRing::release`]
    /// creates satisfies this).
    pub open spec fn wf(self) -> bool {
        self matches HoldRing::Draining { filled, .. } ==> filled <= HOLD_DURATION_NANOS
    }

    /// Whether this is a hold that started at `t`.
    pub open spec fn is_holding_since(self, t: int) -> bool {
        self matches HoldRing::Holding { start } && start@ == t
    }

    /// Whether this is a drain that started at `t` from `filled` nanoseconds of progress.
    pub open spec fn is_draining_since(self, t: int, f: int) -> bool {
        self matches HoldRing::Draining { start, filled } && start@ == t && filled == f
    }

    /// Whether this is a completion pulse that started at `t`.
    pub open spec fn is_completing_since(self, t: int) -> bool {
        self matches HoldRing::Completing { start } && start@ == t
    }

    /// A press at `now`: from idle, a fresh hold starting at `now`; while draining, a hold
    /// resumed from the progress left (its start moved back by that progress, or `now` if that
    /// would fall before the origin); holding or completing, nothing changes.
    pub open spec fn spec_started(self, now: int, next: HoldRing) -> bool {
        match self {
            HoldRing::Idle => next.is_holding_since(now),
            HoldRing::Draining { .. } => {
                let f = self.spec_filled(now);
                next.is_holding_since(if now >= f { now - f } else { now })
            },
            _ => next == self,
        }
    }

    /// A release at `now`: a hold becomes a drain starting at `now` from its progress then;
    /// every other state is unchanged.
    pub open spec fn spec_released(self, now: int, next: HoldRing) -> bool {
        match self {
            HoldRing::Holding { .. } => next.is_draining_since(now, self.spec_filled(now)),
            _ => next == self,
        }
    }

    /// Timers at `now`: a hold held for the full duration starts its completion pulse at `now`;
    /// a drain that has run its full course becomes idle; everything else is unchanged.
    pub open spec fn spec_advanced(self, now: int, next: HoldRing) -> bool {
        match self {
            HoldRing::Holding { start } => if elapsed(start@, now) >= HOLD_DURATION_NANOS {
                next.is_completing_since(now)
            } else {
                next == self
            },
            HoldRing::Draining { start, .. } => if elapsed(start@, now) >= HOLD_DRAIN_NANOS {
                next == HoldRing::Idle
            } else {
                next == self
            },
            _ => next == self,
        }
    }

    /// Whether the completion pulse has finished playing by `now`.
    pub open spec fn spec_completion_elapsed(self, now: int) -> bool {
        self matches HoldRing::Completing { start } && elapsed(start@, now)
            >= COMPLETION_SCALE_PULSE_NANOS
    }

    /// Starts (or resumes) a hold at `now`; see [`HoldRing::spec_started`].
    pub fn start(&mut self, now: Instant)
        ensures
            old(self).spec_started(now@, *final(self)),
    {
        match *self {
            HoldRing::Idle => {
                *self = HoldRing::Holding { start: now };
            },
            HoldRing::Draining { .. } => {
                let already = self.filled(now);
                let start = match now.checked_sub(Duration::from_nanos(already)) {
                    Some(t) => t,
                    None => now,
                };
                *self = HoldRing::Holding { start };
            },
            HoldRing::Holding { .. } | HoldRing::Completing { .. } => {},
        }
    }

    /// Releases the hold at `now`; see [`HoldRing::spec_released`].
    pub fn release(&mut self, now: Instant)
        ensures
            old(self).spec_released(now@, *final(self)),
    {
        if let HoldRing::Holding { .. } = *self {
            let filled = self.filled(now);
            *self = HoldRing::Draining { start: now, filled };
        }
    }

    /// Advances the timers at `now`; see [`HoldRing::spec_advanced`].
    pub fn advance(&mut self, now: Instant)
        ensures
            old(self).spec_advanced(now@, *final(self)),
    {
        match *self {
            HoldRing::Holding { start } => {
                if now.saturating_duration_since(start).as_nanos() >= HOLD_DURATION_NANOS {
                    *self = HoldRing::Completing { start: now };
                }
            },
            HoldRing::Draining { start, .. } => {
                if now.saturating_duration_since(start).as_nanos() >= HOLD_DRAIN_NANOS {
                    *self = HoldRing::Idle;
                }
            },
            _ => {},
        }
    }

    /// Whether anything is in progress (anything but idle).
    pub fn is_active(&self) -> (b: bool)
        ensures
            b == !(*self is Idle),
    {
        !matches!(self, HoldRing::Idle)
    }

    /// Whether the hold completed and its pulse is playing.
    pub fn is_completing(&self) -> (b: bool)
        ensures
            b == (*self is Completing),
    {
        matches!(self, HoldRing::Completing { .. })
    }

    /// Whether the completion pulse has finished playing by `now`.
    pub fn completion_elapsed(&self, now: Instant) -> (b: bool)
        ensures
            b == self.spec_completion_elapsed(now@),
    {
        match *self {
            HoldRing::Completing { start } => now.saturating_duration_since(start).as_nanos()
                >= COMPLETION_SCALE_PULSE_NANOS,
            _ => false,
        }
    }

    /// Nanoseconds of the hold filled at `now` (see [`HoldRing::spec_filled`]).
    pub fn filled(&self, now: Instant) -> (f: u64)
        ensures
            f == self.spec_filled(now@),
    {
        match *self {
            HoldRing::Idle => 0,
            HoldRing::Holding { start } => {
                let e = now.saturating_duration_since(start).as_nanos();
                if e <= HOLD_DURATION_NANOS { e } else { HOLD_DURATION_NANOS }
            },
            HoldRing::Draining { start, filled } => {
                let e = now.saturating_duration_since(start).as_nanos();
                let e = if e <= HOLD_DRAIN_NANOS { e } else { HOLD_DRAIN_NANOS };
                let d = (HOLD_DRAIN_NANOS - e) as u128;
                let f = filled as u128;
                assert(f * d <= 0xffff_ffff_ffff_ffffu128 * 200_000_000u128) by (nonlinear_arith)
                    requires f <= 0xffff_ffff_ffff_ffffu128, d <= 200_000_000u128;
                let left = f * d;
                assert(left <= filled * HOLD_DRAIN_NANOS) by (nonlinear_arith)
                    requires left == filled * (HOLD_DRAIN_NANOS - e), e <= HOLD_DRAIN_NANOS;
                assert(left / (HOLD_DRAIN_NANOS as u128) <= filled) by (nonlinear_arith)
                    requires left <= filled * HOLD_DRAIN_NANOS;
                (left / (HOLD_DRAIN_NANOS as u128)) as u64
            },
            HoldRing::Completing { .. } => HOLD_DURATION_NANOS,
        }
    }
}

/// Pressing or releasing never makes the progress jump: at the instant of a press or a release,
/// the progress after it equals the progress before it. (A press resuming a drain moves the
/// hold's start back by the progress left, so `now` must be at least that far from the origin.)
pub proof fn lemma_press_and_release_keep_progress(r: HoldRing, next: HoldRing, now: int)
    requires
        r.wf(),
        r.spec_filled(now) <= now,
        r.spec_started(now, next) || r.spec_released(now, next),
    ensures
        next.spec_filled(now) == r.spec_filled(now),
{
    if r.spec_started(now, next) {
        if let HoldRing::Draining { start, filled } = r {
            let e = min_int(elapsed(start@, now), HOLD_DRAIN_NANOS as int);
            assert(filled * (HOLD_DRAIN_NANOS - e) >= 0) by (nonlinear_arith)
                requires filled >= 0, e <= HOLD_DRAIN_NANOS;
            assert(filled * (HOLD_DRAIN_NANOS - e) / HOLD_DRAIN_NANOS as int <= filled) by (
            nonlinear_arith)
                requires filled >= 0, 0 <= e <= HOLD_DRAIN_NANOS;
        }
    }
}

/// A hold only ever completes by being held for the full duration: the only step that turns a
/// ring that is not completing into one that is, is advancing a hold whose progress is full.
pub proof fn lemma_completion_needs_a_full_hold(r: HoldRing, next: HoldRing, now: int)
    requires
        !(r is Completing),
        next is Completing,
        r.spec_started(now, next) || r.spec_released(now, next) || r.spec_advanced(now, next),
    ensures
        r is Holding,
        r.spec_advanced(now, next),
        r.spec_filled(now) == HOLD_DURATION_NANOS,
{
}

/// Longest tap, and shortest pause between taps, of the accidental-tap guarantee: 150 ms and
/// 50 ms.
pub open spec fn quick_tap_nanos() -> int {
    150_000_000
}

/// See [`quick_tap_nanos`].
pub open spec fn tap_gap_nanos() -> int {
    50_000_000
}

/// Progress that quick taps can never push the ring beyond: 450 ms of the 2 s hold.
pub open spec fn quick_tap_bound() -> int {
    450_000_000
}

/// Short accidental taps never unlock: the drain during each pause loses more than a tap gains.
/// One tap cycle (press at `t`, timers and release after a tap of at most 150 ms, timers after a
/// pause of at least 50 ms) that starts from an idle or draining ring holding at most 450 ms of
/// progress never completes, and ends idle or draining with at most 450 ms of progress again, so
/// any number of such taps stays far below the 2 s hold.
pub proof fn lemma_quick_taps_never_complete(
    r0: HoldRing,
    r1: HoldRing,
    r2: HoldRing,
    r3: HoldRing,
    r4: HoldRing,
    t: int,
    tap: int,
    gap: int,
)
    requires
        r0.wf(),
        r0 is Idle || r0 is Draining,
        r0.spec_filled(t) <= quick_tap_bound(),
        0 <= tap <= quick_tap_nanos(),
        gap >= tap_gap_nanos(),
        r0.spec_started(t, r1),
        r1.spec_advanced(t + tap, r2),
        r2.spec_released(t + tap, r3),
        r3.spec_advanced(t + tap + gap, r4),
    ensures
        !(r1 is Completing) && !(r2 is Completing) && !(r3 is Completing) && !(r4 is Completing),
        r4.wf(),
        r4 is Idle || r4 is Draining,
        r4.spec_filled(t + tap + gap) <= quick_tap_bound(),
{
    let f = r0.spec_filled(t);
    assert(0 <= f) by {
        if let HoldRing::Draining { start, filled } = r0 {
            let e = min_int(elapsed(start@, t), HOLD_DRAIN_NANOS as int);
            assert(filled * (HOLD_DRAIN_NANOS - e) >= 0) by (nonlinear_arith)
                requires filled >= 0, e <= HOLD_DRAIN_NANOS;
        }
    }
    // After the press, the hold's progress at the release is at most 600 ms.
    assert(r1 is Holding);
    assert(r1.spec_filled(t + tap) <= f + tap);
    assert(r2 == r1);
    let released = r2.spec_filled(t + tap);
    assert(0 <= released <= 600_000_000);
    assert(r3.is_draining_since(t + tap, released));
    if let HoldRing::Draining { start, filled } = r3 {
        let e = min_int(elapsed(start@, t + tap + gap), HOLD_DRAIN_NANOS as int);
        assert(e >= 50_000_000);
        assert(filled * (HOLD_DRAIN_NANOS - e) / HOLD_DRAIN_NANOS as int <= quick_tap_bound()) by (
        nonlinear_arith)
            requires
                0 <= filled <= 600_000_000,
                50_000_000 <= e <= HOLD_DRAIN_NANOS,
        ;
    }
}

} // verus!
