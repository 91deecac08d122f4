//! Hint (and wordmark / second line) fade timing.
//!
//! The hint is shown for 6 seconds when the session locks, then fades out over 1.2 s. Any
//! blocked input re-shows it: fade-in 200 ms, hold 2.5 s, fade-out 1.2 s; each new input restarts
//! the whole cycle from that moment rather than stacking timers. [`HintFader`] is a small state
//! machine driven by explicit instants; the renderer draws the fade curves from its
//! [`HintStage`].
use vstd::prelude::*;

use crate::time::{
    lemma_duration_determined_by_nanos, lemma_instant_determined_by_nanos, sat_add, Duration,
    Instant,
};

verus! {

broadcast use {crate::time::lemma_duration_bounds, crate::time::lemma_instant_bounds};

/// How long the hint stays fully visible right after the session locks: 6 s.
pub const INITIAL_HOLD_NANOS: u64 = 6_000_000_000;
/// Fade-out after the initial hold: 1.2 s.
pub const INITIAL_FADE_OUT_NANOS: u64 = 1_200_000_000;
/// Fade-in when input re-shows the hint: 200 ms.
pub const RESHOW_FADE_IN_NANOS: u64 = 200_000_000;
/// Hold when input re-shows the hint: 2.5 s.
pub const RESHOW_HOLD_NANOS: u64 = 2_500_000_000;
/// Fade-out when the re-shown hint disappears again: 1.2 s.
pub const RESHOW_FADE_OUT_NANOS: u64 = 1_200_000_000;
/// Animation-frame cadence while a fade is in flight: 16 ms.
pub const ANIMATION_FRAME_NANOS: u64 = 16_000_000;

/// Which segment of the fade timeline the hint is in.
#[derive(Debug, Clone, Copy, PartialEq, Eq, Structural)]
pub enum HintStage {
    /// Fading in since `start`, over `duration`.
    FadeIn {
        /// When the fade-in started.
        start: Instant,
        /// How long it lasts.
        duration: Duration,
    },
    /// Fully visible from `start` for `hold`, then fading out over `fade_out`.
    Hold {
        /// When the hold started.
        start: Instant,
        /// How long it stays fully visible.
        hold: Duration,
        /// How long it then takes to fade out.
        fade_out: Duration,
    },
    /// Fully hidden, waiting for input.
    Hidden,
}

impl HintStage {
    /// Whether this is a fade-in starting at `t` lasting `d`.
    pub open spec fn is_fade_in(self, t: int, d: int) -> bool {
        self matches HintStage::FadeIn { start, duration } && start@ == t && duration@ == d
    }

    /// Whether this is a hold starting at `t`, fully visible for `h`, fading out over `f`.
    pub open spec fn is_hold(self, t: int, h: int, f: int) -> bool {
        self matches HintStage::Hold { start, hold, fade_out } && start@ == t && hold@ == h
            && fade_out@ == f
    }

    /// The instant the current segment ends (saturating), for segments that end.
    pub open spec fn end(self) -> int {
        match self {
            HintStage::FadeIn { start, duration } => sat_add(start@, duration@),
            HintStage::Hold { start, hold, fade_out } => sat_add(
                sat_add(start@, hold@),
                fade_out@,
            ),
            HintStage::Hidden => 0,
        }
    }

    /// Whether the hint's opacity is zero at `now`: hidden; at the very first instant of a
    /// fade-in; or once a hold's fade-out has run its course.
    pub open spec fn spec_is_hidden(self, now: int) -> bool {
        match self {
            HintStage::FadeIn { start, duration } => duration@ != 0 && now <= start@,
            HintStage::Hold { .. } => now >= self.end(),
            HintStage::Hidden => true,
        }
    }

    /// Whether the hint's opacity is zero at `now` (see [`HintStage::spec_is_hidden`]).
    pub fn is_hidden(self, now: Instant) -> (b: bool)
        ensures
            b == self.spec_is_hidden(now@),
    {
        match self {
            HintStage::FadeIn { start, duration } => !duration.is_zero() && start.is_at_or_after(now),
            HintStage::Hold { start, hold, fade_out } => now.is_at_or_after(
                start.saturating_plus(hold).saturating_plus(fade_out),
            ),
            HintStage::Hidden => true,
        }
    }

    /// Whether `next` is this stage advanced to `now`, every transition due by then applied: a
    /// fade-in that has ended becomes the re-show hold anchored at the instant the fade-in
    /// completed, and becomes hidden at once if that hold and its fade-out have also run out by
    /// `now`; a hold whose fade-out has run out becomes hidden; anything else stays as it is.
    pub open spec fn spec_ticked(self, now: int, next: HintStage) -> bool {
        match self {
            HintStage::FadeIn { .. } => if now >= self.end() {
                let hold_end = sat_add(
                    sat_add(self.end(), RESHOW_HOLD_NANOS as int),
                    RESHOW_FADE_OUT_NANOS as int,
                );
                if now >= hold_end {
                    next == HintStage::Hidden
                } else {
                    next.is_hold(self.end(), RESHOW_HOLD_NANOS as int, RESHOW_FADE_OUT_NANOS as int)
                }
            } else {
                next == self
            },
            HintStage::Hold { .. } => if now >= self.end() {
                next == HintStage::Hidden
            } else {
                next == self
            },
            HintStage::Hidden => next == HintStage::Hidden,
        }
    }
}

/// Ticking is idempotent: a stage ticked at `now` and then ticked again at the same `now` is
/// left exactly as the first tick left it.
pub proof fn lemma_tick_idempotent(stage: HintStage, now: int, once: HintStage, twice: HintStage)
    requires
        stage.spec_ticked(now, once),
        once.spec_ticked(now, twice),
    ensures
        twice == once,
{
}

/// A tick has exactly one outcome: two stages that both are `stage` ticked at `now` are equal.
pub proof fn lemma_tick_determined(stage: HintStage, now: int, a: HintStage, b: HintStage)
    requires
        stage.spec_ticked(now, a),
        stage.spec_ticked(now, b),
    ensures
        a == b,
{
    if let (
        HintStage::Hold { start: s1, hold: h1, fade_out: f1 },
        HintStage::Hold { start: s2, hold: h2, fade_out: f2 },
    ) = (a, b) {
        lemma_instant_determined_by_nanos(s1, s2);
        lemma_duration_determined_by_nanos(h1, h2);
        lemma_duration_determined_by_nanos(f1, f2);
    }
}

/// The next wake instant for a segment ending at `end`: `now` itself once it is past (so the
/// caller ticks and transitions), otherwise one animation frame ahead, but no later than `end`.
pub open spec fn spec_transition_wake(end: int, now: int) -> int {
    if now >= end {
        now
    } else {
        let frame = sat_add(now, ANIMATION_FRAME_NANOS as int);
        if end <= frame { end } else { frame }
    }
}

/// Tracks the hint's fade timeline, including re-shows triggered by input.
#[derive(Debug, Clone, Copy)]
pub struct HintFader {
    stage: HintStage,
}

impl View for HintFader {
    type V = HintStage;

    closed spec fn view(&self) -> HintStage {
        self.stage
    }
}

impl HintFader {
    /// A fader showing the hint from `now`: fully visible for 6 s, then fading out over 1.2 s.
    pub fn new(now: Instant) -> (f: HintFader)
        ensures
            f@.is_hold(now@, INITIAL_HOLD_NANOS as int, INITIAL_FADE_OUT_NANOS as int),
    {
        HintFader {
            stage: HintStage::Hold {
                start: now,
                hold: Duration::from_nanos(INITIAL_HOLD_NANOS),
                fade_out: Duration::from_nanos(INITIAL_FADE_OUT_NANOS),
            },
        }
    }

    /// The current stage, for drawing the fade curves.
    pub fn stage(&self) -> (s: HintStage)
        ensures
            s == self@,
    {
        self.stage
    }

    /// A blocked input at `now` re-shows the hint: a 200 ms fade-in starting at `now`, whatever
    /// stage it was in (repeated inputs restart the cycle, they do not stack).
    pub fn on_input(&mut self, now: Instant)
        ensures
            final(self)@.is_fade_in(now@, RESHOW_FADE_IN_NANOS as int),
    {
        self.stage = HintStage::FadeIn {
            start: now,
            duration: Duration::from_nanos(RESHOW_FADE_IN_NANOS),
        };
    }

    /// Jumps straight to the re-show's fully visible hold at `now` (2.5 s, then a 1.2 s
    /// fade-out), skipping its fade-in.
    pub fn hold_from(&mut self, now: Instant)
        ensures
            final(self)@.is_hold(now@, RESHOW_HOLD_NANOS as int, RESHOW_FADE_OUT_NANOS as int),
    {
        self.stage = HintStage::Hold {
            start: now,
            hold: Duration::from_nanos(RESHOW_HOLD_NANOS),
            fade_out: Duration::from_nanos(RESHOW_FADE_OUT_NANOS),
        };
    }

    /// Advances the stage machine at `now`, applying every transition due by then (see
    /// [`HintStage::spec_ticked`]): a finished fade-in becomes the re-show hold, anchored at the
    /// instant the fade-in completed (not at `now`), and goes on to hidden if that hold has also
    /// run out; a finished hold-and-fade becomes hidden; anything else is unchanged. Idempotent
    /// (see [`lemma_tick_idempotent`]).
    pub fn tick(&mut self, now: Instant)
        ensures
            old(self)@.spec_ticked(now@, final(self)@),
    {
        match self.stage {
            HintStage::FadeIn { start, duration } => {
                let end = start.saturating_plus(duration);
                if now.is_at_or_after(end) {
                    let hold = Duration::from_nanos(RESHOW_HOLD_NANOS);
                    let fade_out = Duration::from_nanos(RESHOW_FADE_OUT_NANOS);
                    if now.is_at_or_after(end.saturating_plus(hold).saturating_plus(fade_out)) {
                        self.stage = HintStage::Hidden;
                    } else {
                        self.stage = HintStage::Hold { start: end, hold, fade_out };
                    }
                }
            },
            HintStage::Hold { start, hold, fade_out } => {
                let end = start.saturating_plus(hold).saturating_plus(fade_out);
                if now.is_at_or_after(end) {
                    self.stage = HintStage::Hidden;
                }
            },
            HintStage::Hidden => {},
        }
    }

    /// The next instant a stage transition is due (see [`spec_transition_wake`]); `None` once
    /// the hint is hidden and idle.
    pub fn next_wake(&self, now: Instant) -> (w: Option<Instant>)
        ensures
            match w {
                None => self@ is Hidden,
                Some(t) => !(self@ is Hidden) && t@ == spec_transition_wake(self@.end(), now@),
            },
    {
        match self.stage {
            HintStage::FadeIn { start, duration } => Some(
                transition_wake(start.saturating_plus(duration), now),
            ),
            HintStage::Hold { start, hold, fade_out } => Some(
                transition_wake(start.saturating_plus(hold).saturating_plus(fade_out), now),
            ),
            HintStage::Hidden => None,
        }
    }

    /// Whether the hint is fully transparent at `now` (see [`HintStage::spec_is_hidden`]).
    pub fn is_hidden(&self, now: Instant) -> (b: bool)
        ensures
            b == self@.spec_is_hidden(now@),
    {
        self.stage.is_hidden(now)
    }
}

/// See [`spec_transition_wake`].
pub fn transition_wake(end: Instant, now: Instant) -> (t: Instant)
    ensures
        t@ == spec_transition_wake(end@, now@),
{
    if now.is_at_or_after(end) {
        now
    } else {
        end.earliest(now.saturating_plus(Duration::from_nanos(ANIMATION_FRAME_NANOS)))
    }
}

} // verus!
