//! The cleaning session state machine.
//!
//! [`Session`] is the single source of truth for "what should be on screen and what should the
//! platform layer do about input blocking", driven entirely by explicit instants passed in by the
//! caller. The platform layer calls [`Session::handle_input`] on every event, [`Session::tick`]
//! on every wake-up (scheduled via [`Session::next_wake`]), and [`Session::view`] whenever it
//! redraws; it performs the [`SessionCommand`]s these return.
//!
//! Unlocking is a hold, not a typed sequence: the user presses and holds an on-screen button for
//! 2 s, or holds Escape and Return together (and no other key) for the same duration. Input
//! events carry no characters at all: keys arrive reduced to a [`KeyKind`], pointers as positions
//! relative to the button whose geometry the platform layer sets with
//! [`Session::set_unlock_target`].
use vstd::prelude::*;

use crate::color::{ink_for, ink_spec, Rgb};
use crate::combo::{ComboEvent, ComboKey, ComboTracker};
use crate::countdown::{Countdown, DigitTiming, TOTAL_NANOS};
use crate::failsafe::{Deadline, FailsafeDelay};
use crate::geometry::{spec_within, within, Point};
use crate::hint::{HintFader, HintStage, ANIMATION_FRAME_NANOS};
use crate::hold_ring::{elapsed, HoldRing};
use crate::color::CleaningColor;
use crate::i18n::Language;
use crate::pixel_test::{pixel_test_color, PixelTest, PixelTestStep};
use crate::time::{sat_add, Duration, Instant, NANOS_PER_SEC};

verus! {

broadcast use {crate::time::lemma_duration_bounds, crate::time::lemma_instant_bounds};

/// Overlay fade-out once unlocking begins: 300 ms.
pub const UNLOCK_FADE_NANOS: u64 = 300_000_000;
/// Radius around the unlock button's center within which the pointer reveals it: 160 points.
pub const HOVER_RADIUS: u32 = 16_000;
/// Fade-in of the hint and button when the hover reveal triggers: 200 ms.
pub const HOVER_FADE_IN_NANOS: u64 = 200_000_000;
/// The longest fail-safe delay, in seconds: instants passed to [`Session::tick`] must leave room
/// for a deadline this far ahead.
pub const MAX_FAILSAFE_SECS: u64 = 90;

/// A layout-independent key identity; only Escape, Return and Space are distinguished.
#[derive(Debug, Clone, Copy, PartialEq, Eq, Structural)]
pub enum KeyKind {
    /// The Escape key.
    Escape,
    /// The Return key (the keypad's Enter key counts as Return).
    Return,
    /// The space bar.
    Space,
    /// Every other key.
    Other,
}

/// One input event, already reduced to what the session needs. Pointer positions are in
/// [`crate::geometry`]'s units. No event ever carries a character.
#[derive(Debug, Clone, Copy, PartialEq, Eq, Structural)]
pub enum InputEvent {
    /// A key went down.
    KeyDown {
        /// Which key.
        kind: KeyKind,
        /// Whether this is an autorepeat of an already-held key.
        repeat: bool,
    },
    /// A key was released.
    KeyUp(KeyKind),
    /// A modifier key's flags changed (which one, and in which direction, is not known).
    ModifierChange,
    /// A pointer button went down at `(x, y)`.
    PointerDown {
        /// Horizontal position.
        x: i32,
        /// Vertical position.
        y: i32,
    },
    /// The pointer moved while a button was held, to `(x, y)`.
    PointerDragged {
        /// Horizontal position.
        x: i32,
        /// Vertical position.
        y: i32,
    },
    /// A pointer button was released at `(x, y)`.
    PointerUp {
        /// Horizontal position.
        x: i32,
        /// Vertical position.
        y: i32,
    },
    /// The pointer moved with no button held, to `(x, y)` (the hover reveal).
    PointerMoved {
        /// Horizontal position.
        x: i32,
        /// Vertical position.
        y: i32,
    },
    /// A scroll-wheel or trackpad scroll.
    Scroll,
}

/// Why a session ended.
#[derive(Debug, Clone, Copy, PartialEq, Eq, Structural)]
pub enum EndReason {
    /// The user held the unlock button (or the key combo) for the full 2 s.
    Unlocked,
    /// The fail-safe deadline was reached first.
    Failsafe,
    /// The user cancelled during the countdown (Escape or a pointer press).
    Cancelled,
}

/// The coarse phase of a session.
#[derive(Debug, Clone, Copy, PartialEq, Eq, Structural)]
pub enum SessionPhase {
    /// The 3-2-1 countdown is running; inputs are not blocked yet.
    Countdown,
    /// Inputs are blocked; waiting for an unlock hold or the fail-safe deadline.
    Locked,
    /// The hold completed (or the fail-safe fired); the overlay is fading out.
    Unlocking,
    /// The session is over.
    Finished(EndReason),
}

/// A side effect the platform layer must perform.
#[derive(Debug, Clone, Copy, PartialEq, Eq, Structural)]
pub enum SessionCommand {
    /// Install the input-blocking event tap: the countdown just ended.
    BlockInputs,
    /// Remove the input-blocking event tap: unlocking has begun.
    ReleaseInputs,
    /// The session is over: close the overlay.
    Close,
}

/// Static configuration of one cleaning session.
#[derive(Debug, Clone, Copy, PartialEq, Eq, Structural)]
pub struct SessionConfig {
    /// Cleaning screen color.
    pub color: CleaningColor,
    /// Fail-safe auto-unlock delay.
    pub failsafe: FailsafeDelay,
    /// Whether this is a keyboard-only session (a small HUD instead of a full-screen overlay).
    pub keyboard_only: bool,
    /// Language of any text shown for this session.
    pub language: Language,
}

/// Where the hold-to-unlock button is, as told by the platform layer.
#[derive(Debug, Clone, Copy, PartialEq, Eq, Structural)]
pub struct UnlockTarget {
    /// The button's center.
    pub center: Point,
    /// The button's visual radius.
    pub radius: u32,
    /// The radius of its (circular) hit target.
    pub hit_radius: u32,
}

/// The session's internal state, one variant per phase.
#[derive(Debug, Clone, Copy)]
pub enum SessionState {
    /// Counting down since `start`.
    Countdown {
        /// When the countdown started.
        start: Instant,
    },
    /// Inputs blocked.
    Locked {
        /// The hint's fade timeline.
        hint: HintFader,
        /// The dead-pixel test cycle.
        pixel_test: PixelTest,
        /// The fail-safe deadline, fixed when locking started.
        deadline: Deadline,
        /// Whether the wordmark may still show (only until the first input).
        wordmark_eligible: bool,
        /// The button's own hold interaction.
        hold: HoldRing,
        /// The Esc+Return combo.
        combo: ComboTracker,
        /// Whether the pointer is within the hover radius of the button.
        hover: bool,
        /// When the current hover began.
        hover_since: Option<Instant>,
    },
    /// Fading out since `start`.
    Unlocking {
        /// When unlocking began.
        start: Instant,
        /// Why the session is ending.
        reason: EndReason,
    },
    /// Over.
    Finished {
        /// Why the session ended.
        reason: EndReason,
    },
}

/// The keyboard event the Esc+Return combo sees for `event`, if any: fresh key presses and all
/// releases map to their combo key (Space and every other key to [`ComboKey::Other`]), a modifier
/// change passes through; autorepeats, pointer and scroll input carry nothing for it.
pub open spec fn spec_combo_event_for(event: InputEvent) -> Option<ComboEvent> {
    match event {
        InputEvent::KeyDown { kind, repeat } => if repeat {
            None
        } else {
            Some(ComboEvent::Down(combo_key(kind)))
        },
        InputEvent::KeyUp(kind) => Some(ComboEvent::Up(combo_key(kind))),
        InputEvent::ModifierChange => Some(ComboEvent::ModifierChange),
        _ => None,
    }
}

/// The combo identity of a key.
pub open spec fn combo_key(kind: KeyKind) -> ComboKey {
    match kind {
        KeyKind::Escape => ComboKey::Escape,
        KeyKind::Return => ComboKey::Return,
        _ => ComboKey::Other,
    }
}

/// Whether `event` cancels the countdown: an Escape press or any pointer press.
pub open spec fn cancels_countdown(event: InputEvent) -> bool {
    (event matches InputEvent::KeyDown { kind, .. } && kind == KeyKind::Escape)
        || event is PointerDown
}

/// The phase of a state.
pub open spec fn phase_of(s: SessionState) -> SessionPhase {
    match s {
        SessionState::Countdown { .. } => SessionPhase::Countdown,
        SessionState::Locked { .. } => SessionPhase::Locked,
        SessionState::Unlocking { .. } => SessionPhase::Unlocking,
        SessionState::Finished { reason } => SessionPhase::Finished(reason),
    }
}

/// Whether `s` is the unlocking fade that started at `t` for `reason`.
pub open spec fn is_unlocking(s: SessionState, t: int, reason: EndReason) -> bool {
    s matches SessionState::Unlocking { start, reason: r } && start@ == t && r == reason
}

/// The locked-phase response to one input at `now`, from `old` to `new` (both locked):
/// the combo sees the event first; Space (outside keyboard-only mode) then only advances the
/// dead-pixel test; otherwise the pointer drives the hover reveal and the button hold, and every
/// other key press, modifier change or scroll re-shows the hint and retires the wordmark.
pub open spec fn spec_locked_input(
    old: SessionState,
    new: SessionState,
    event: InputEvent,
    now: int,
    config: SessionConfig,
    target: Option<UnlockTarget>,
) -> bool {
    match (old, new) {
        (
            SessionState::Locked {
                hint,
                pixel_test,
                deadline,
                wordmark_eligible,
                hold,
                combo,
                hover,
                hover_since,
            },
            SessionState::Locked {
                hint: hint2,
                pixel_test: pixel_test2,
                deadline: deadline2,
                wordmark_eligible: wordmark_eligible2,
                hold: hold2,
                combo: combo2,
                hover: hover2,
                hover_since: hover_since2,
            },
        ) => {
            &&& deadline2 == deadline
            &&& match spec_combo_event_for(event) {
                Some(ce) => combo@.spec_after_event(ce, now, combo2@),
                None => combo2@ == combo@,
            }
            &&& if (event matches InputEvent::KeyDown { kind, .. } && kind == KeyKind::Space)
                && !config.keyboard_only {
                &&& pixel_test2@.index() == (pixel_test@.index() + 1) % 6
                &&& hint2@ == hint@ && wordmark_eligible2 == wordmark_eligible && hold2 == hold
                &&& hover2 == hover && hover_since2 == hover_since
            } else {
                &&& pixel_test2@ == pixel_test@
                &&& match event {
                    InputEvent::PointerMoved { x, y } => {
                        &&& hold2 == hold
                        &&& match target {
                            Some(t) => {
                                let now_hover = spec_within(t.center, Point { x, y }, HOVER_RADIUS);
                                if now_hover && !hover {
                                    &&& hover2
                                    &&& hover_since2 matches Some(s) && s@ == now
                                    &&& !wordmark_eligible2 && hint2@ == hint@
                                } else if !now_hover && hover {
                                    &&& !hover2 && hover_since2 is None
                                    &&& wordmark_eligible2 == wordmark_eligible
                                    &&& hint2@.is_hold(
                                        now,
                                        crate::hint::RESHOW_HOLD_NANOS as int,
                                        crate::hint::RESHOW_FADE_OUT_NANOS as int,
                                    )
                                } else {
                                    &&& hover2 == hover && hover_since2 == hover_since
                                    &&& wordmark_eligible2 == wordmark_eligible && hint2@ == hint@
                                }
                            },
                            None => {
                                &&& hover2 == hover && hover_since2 == hover_since
                                &&& wordmark_eligible2 == wordmark_eligible && hint2@ == hint@
                            },
                        }
                    },
                    InputEvent::PointerDown { x, y } => {
                        &&& hover2 == hover && hover_since2 == hover_since
                        &&& if target matches Some(t) && spec_within(
                            t.center,
                            Point { x, y },
                            t.hit_radius,
                        ) {
                            &&& hold.spec_started(now, hold2)
                            &&& hint2@ == hint@ && wordmark_eligible2 == wordmark_eligible
                        } else {
                            &&& hold2 == hold
                            &&& hint2@.is_fade_in(now, crate::hint::RESHOW_FADE_IN_NANOS as int)
                            &&& !wordmark_eligible2
                        }
                    },
                    InputEvent::PointerUp { .. } => {
                        &&& hold.spec_released(now, hold2)
                        &&& hover2 == hover && hover_since2 == hover_since
                        &&& hint2@ == hint@ && wordmark_eligible2 == wordmark_eligible
                    },
                    InputEvent::PointerDragged { x, y } => {
                        &&& hover2 == hover && hover_since2 == hover_since
                        &&& hint2@ == hint@ && wordmark_eligible2 == wordmark_eligible
                        &&& if hold is Holding && !(target matches Some(t) && spec_within(
                            t.center,
                            Point { x, y },
                            t.hit_radius,
                        )) {
                            hold.spec_released(now, hold2)
                        } else {
                            hold2 == hold
                        }
                    },
                    InputEvent::KeyUp(_) => {
                        &&& hover2 == hover && hover_since2 == hover_since
                        &&& hint2@ == hint@ && wordmark_eligible2 == wordmark_eligible
                        &&& hold2 == hold
                    },
                    _ => {
                        &&& hover2 == hover && hover_since2 == hover_since
                        &&& hint2@.is_fade_in(now, crate::hint::RESHOW_FADE_IN_NANOS as int)
                        &&& !wordmark_eligible2 && hold2 == hold
                    },
                }
            }
        },
        _ => false,
    }
}

/// Whether `c` is a combo with no key held, no poison and an idle ring.
pub open spec fn is_fresh_combo(c: crate::combo::ComboState) -> bool {
    !c.escape_down && !c.return_down && c.other_down == 0 && !c.poisoned && c.ring
        == HoldRing::Idle
}

/// Whether `s` is the locked state entered at `now` with a deadline `failsafe` later: the hint
/// showing its initial hold, the pixel test off, the wordmark still eligible, both holds idle,
/// no hover.
pub open spec fn is_fresh_lock(s: SessionState, now: int, failsafe: FailsafeDelay) -> bool {
    s matches SessionState::Locked {
        hint,
        pixel_test,
        deadline,
        wordmark_eligible,
        hold,
        combo,
        hover,
        hover_since,
    } && hint@.is_hold(
        now,
        crate::hint::INITIAL_HOLD_NANOS as int,
        crate::hint::INITIAL_FADE_OUT_NANOS as int,
    ) && pixel_test@ == PixelTestStep::Off && deadline@ == now + failsafe.spec_seconds()
        * NANOS_PER_SEC && wordmark_eligible && hold == HoldRing::Idle && is_fresh_combo(combo@)
        && !hover && hover_since is None
}

/// The timer-driven transition at `now`, from `old` to `new`, with the commands it yields:
/// the countdown's end locks inputs; while locked, a finished completion pulse unlocks, a
/// completion pulse in progress holds everything but the hint still, and otherwise the passed
/// deadline unlocks by the fail-safe or the hint and both holds advance their timers (the hint
/// by [`HintStage::spec_ticked`]); the unlock fade's end finishes the session.
pub open spec fn spec_tick(
    old: SessionState,
    new: SessionState,
    cmds: Seq<SessionCommand>,
    now: int,
    failsafe: FailsafeDelay,
) -> bool {
    match old {
        SessionState::Countdown { start } => if elapsed(start@, now) >= TOTAL_NANOS {
            is_fresh_lock(new, now, failsafe) && cmds == seq![SessionCommand::BlockInputs]
        } else {
            new == old && cmds.len() == 0
        },
        SessionState::Locked {
            hint,
            pixel_test,
            deadline,
            wordmark_eligible,
            hold,
            combo,
            hover,
            hover_since,
        } => if hold is Completing || combo@.ring is Completing {
            if hold.spec_completion_elapsed(now) || combo@.ring.spec_completion_elapsed(now) {
                is_unlocking(new, now, EndReason::Unlocked) && cmds == seq![
                    SessionCommand::ReleaseInputs,
                ]
            } else {
                &&& cmds.len() == 0
                &&& new matches SessionState::Locked {
                    hint: hint2,
                    pixel_test: pixel_test2,
                    deadline: deadline2,
                    wordmark_eligible: wordmark_eligible2,
                    hold: hold2,
                    combo: combo2,
                    hover: hover2,
                    hover_since: hover_since2,
                }
                &&& hint@.spec_ticked(now, hint2@) && pixel_test2@ == pixel_test@
                &&& deadline2 == deadline && wordmark_eligible2 == wordmark_eligible
                &&& hold2 == hold && combo2@ == combo@ && hover2 == hover
                &&& hover_since2 == hover_since
            }
        } else if now >= deadline@ {
            is_unlocking(new, now, EndReason::Failsafe) && cmds == seq![
                SessionCommand::ReleaseInputs,
            ]
        } else {
            &&& cmds.len() == 0
            &&& new matches SessionState::Locked {
                hint: hint2,
                pixel_test: pixel_test2,
                deadline: deadline2,
                wordmark_eligible: wordmark_eligible2,
                hold: hold2,
                combo: combo2,
                hover: hover2,
                hover_since: hover_since2,
            }
            &&& hint@.spec_ticked(now, hint2@) && pixel_test2@ == pixel_test@
            &&& deadline2 == deadline && wordmark_eligible2 == wordmark_eligible && hover2 == hover
            &&& hover_since2 == hover_since
            &&& hold.spec_advanced(now, hold2)
            &&& combo2@.escape_down == combo@.escape_down
            &&& combo2@.return_down == combo@.return_down
            &&& combo2@.other_down == combo@.other_down
            &&& combo2@.poisoned == combo@.poisoned
            &&& combo@.ring.spec_advanced(now, combo2@.ring)
        },
        SessionState::Unlocking { start, reason } => if elapsed(start@, now) >= UNLOCK_FADE_NANOS {
            new == (SessionState::Finished { reason }) && cmds == seq![SessionCommand::Close]
        } else {
            new == old && cmds.len() == 0
        },
        SessionState::Finished { .. } => new == old && cmds.len() == 0,
    }
}

/// `min(a, b)` on integers.
pub open spec fn min2(a: int, b: int) -> int {
    if a <= b { a } else { b }
}

/// The instant at which the rounded-up remaining-seconds count next changes: `s - 1` whole
/// seconds before the deadline when `s` seconds remain, or the deadline itself once none do.
pub open spec fn spec_next_second_boundary(deadline: Deadline, now: int) -> int {
    let s = crate::failsafe::capped_ceil_secs(deadline.spec_remaining(now));
    if s == 0 {
        deadline@
    } else if deadline@ >= (s - 1) * NANOS_PER_SEC {
        deadline@ - (s - 1) * NANOS_PER_SEC
    } else {
        deadline@
    }
}

/// Whether anything in a locked state animates continuously at `now`: either hold ring is
/// active, or the hover reveal is still fading in.
pub open spec fn locked_animating(
    hold: HoldRing,
    combo_ring: HoldRing,
    hover: bool,
    hover_since: Option<Instant>,
    now: int,
) -> bool {
    ||| !(hold is Idle)
    ||| !(combo_ring is Idle)
    ||| hover && (hover_since matches Some(s) && elapsed(s@, now) < HOVER_FADE_IN_NANOS)
}

/// When a session in state `s` next needs a tick at `now`: during the countdown every animation
/// frame (or its end, or `now` once it has ended); while locked the earliest of the deadline, the
/// next change of the seconds count, the hint's next transition and (while something animates)
/// the next animation frame; while unlocking every frame until the fade ends; never once finished.
pub open spec fn spec_next_wake(s: SessionState, now: int) -> Option<int> {
    match s {
        SessionState::Countdown { start } => if elapsed(start@, now) >= TOTAL_NANOS {
            Some(now)
        } else {
            Some(min2(sat_add(now, ANIMATION_FRAME_NANOS as int), sat_add(start@, TOTAL_NANOS as int)))
        },
        SessionState::Locked { hint, deadline, hold, combo, hover, hover_since, .. } => {
            let base = min2(deadline@, spec_next_second_boundary(deadline, now));
            let with_hint = if hint@ is Hidden {
                base
            } else {
                min2(base, crate::hint::spec_transition_wake(hint@.end(), now))
            };
            if locked_animating(hold, combo@.ring, hover, hover_since, now) {
                Some(min2(with_hint, min2(sat_add(now, ANIMATION_FRAME_NANOS as int), deadline@)))
            } else {
                Some(with_hint)
            }
        },
        SessionState::Unlocking { start, .. } => {
            let end = sat_add(start@, UNLOCK_FADE_NANOS as int);
            Some(if now >= end { now } else { min2(sat_add(now, ANIMATION_FRAME_NANOS as int), end) })
        },
        SessionState::Finished { .. } => None,
    }
}

/// The next instant at which `deadline`'s rounded-up remaining-seconds count changes.
pub fn next_second_boundary(deadline: Deadline, now: Instant) -> (t: Instant)
    ensures
        t@ == spec_next_second_boundary(deadline, now@),
{
    let secs = deadline.remaining_secs_ceil(now) as u64;
    if secs == 0 {
        return deadline.at();
    }
    match deadline.at().checked_sub(Duration::from_secs(secs - 1)) {
        Some(t) => t,
        None => deadline.at(),
    }
}

/// The response to one input at `now`, from `old` to `new`, with the commands it yields: during
/// the countdown an Escape press or a pointer press cancels the session and closes the overlay,
/// anything else is ignored; while locked see [`spec_locked_input`] (no command); once unlocking
/// or finished, input is ignored.
pub open spec fn spec_input(
    old: SessionState,
    new: SessionState,
    cmds: Seq<SessionCommand>,
    event: InputEvent,
    now: int,
    config: SessionConfig,
    target: Option<UnlockTarget>,
) -> bool {
    match old {
        SessionState::Countdown { .. } => if cancels_countdown(event) {
            new == (SessionState::Finished { reason: EndReason::Cancelled }) && cmds == seq![
                SessionCommand::Close,
            ]
        } else {
            new == old && cmds.len() == 0
        },
        SessionState::Locked { .. } => spec_locked_input(old, new, event, now, config, target)
            && cmds.len() == 0,
        _ => new == old && cmds.len() == 0,
    }
}

/// How visible the overlay as a whole is.
#[derive(Debug, Clone, Copy, PartialEq, Eq, Structural)]
pub enum OverlayFade {
    /// Fully visible.
    Opaque,
    /// Fading out over [`UNLOCK_FADE_NANOS`]; `elapsed` into the fade.
    FadingOut {
        /// Time since the fade began.
        elapsed: Duration,
    },
    /// Fully gone.
    Gone,
}

/// The time-remaining bar.
#[derive(Debug, Clone, Copy, PartialEq, Eq, Structural)]
pub struct BarView {
    /// Time left before the fail-safe fires (the bar's length is `remaining / total`).
    pub remaining: Duration,
    /// The whole fail-safe window.
    pub total: Duration,
    /// Whether the last ten seconds have begun (the bar is drawn stronger).
    pub emphasis: bool,
}

/// Everything the renderer needs to draw the hold-to-unlock button.
#[derive(Debug, Clone, Copy, PartialEq, Eq, Structural)]
pub struct UnlockButtonView {
    /// The button's center.
    pub center: Point,
    /// Its visual radius.
    pub radius: u32,
    /// Its hit-target radius.
    pub hit_radius: u32,
    /// During the countdown the button pulses gently; this is the time since the countdown
    /// started, from which the pulse is drawn. `None` once locked.
    pub pulse_elapsed: Option<Duration>,
    /// Whether a hold is in progress or completing (the button is then fully opaque; otherwise
    /// it shares the hint's opacity).
    pub held: bool,
    /// Nanoseconds of the hold filled (the larger of the pointer hold and the key combo).
    pub hold_filled: u64,
    /// When the earliest of the completed holds completed, while its scale pulse plays.
    pub completing_since: Option<Instant>,
}

/// Everything the renderer needs to draw one frame; curves (fades, pulses, easing) are drawn from
/// the stages and times given here.
#[derive(Debug, Clone, Copy, PartialEq, Eq)]
pub struct SessionView {
    /// Screen background (the cleaning color, or the dead-pixel test step's color).
    pub background: Rgb,
    /// Ink for text, button and bar, chosen for legibility against `background`.
    pub ink: Rgb,
    /// Whether this is a keyboard-only session.
    pub keyboard_only: bool,
    /// The countdown digit and its timing, during the countdown only.
    pub countdown: Option<DigitTiming>,
    /// The hint's fade stage while locked (the hint is invisible otherwise).
    pub hint: Option<HintStage>,
    /// While the pointer hovers the button, when the hover began (the hint and button fade in
    /// from then, at least).
    pub hover_since: Option<Instant>,
    /// Whether the wordmark shows (with the hint's opacity).
    pub wordmark_shown: bool,
    /// The unlock button, once its geometry is known, during the countdown and while locked.
    pub unlock_button: Option<UnlockButtonView>,
    /// Whether the countdown's "how to unlock" line shows (countdown only).
    pub countdown_unlock_hint: bool,
    /// The time-remaining bar, while locked and the dead-pixel test is not running.
    pub bar: Option<BarView>,
    /// The dead-pixel test indicator `(step, total)`, while the test runs and the hint shows.
    pub pixel_step: Option<(u8, u8)>,
    /// Seconds before the fail-safe fires, rounded up.
    pub remaining_secs: u32,
    /// The overlay's own fade.
    pub overlay: OverlayFade,
}

impl SessionView {
    /// Whether the hint (or the hover reveal) shows at all at `now`: its stage is not hidden, or
    /// a hover began before `now`.
    pub open spec fn spec_hint_visible(self, now: int) -> bool {
        match self.hint {
            Some(h) => !h.spec_is_hidden(now) || (self.hover_since matches Some(s) && now > s@),
            None => false,
        }
    }

    /// Whether the hint shows at all at `now` (see [`SessionView::spec_hint_visible`]).
    pub fn hint_visible(&self, now: Instant) -> (b: bool)
        ensures
            b == self.spec_hint_visible(now@),
    {
        match self.hint {
            Some(h) => !h.is_hidden(now) || match self.hover_since {
                Some(s) => !s.is_at_or_after(now),
                None => false,
            },
            None => false,
        }
    }
}

/// Whether the hint (or the hover reveal) is visible at all at `now`.
pub open spec fn hint_visible(hint: HintFader, hover: bool, hover_since: Option<Instant>, now: int) -> bool {
    ||| !hint@.spec_is_hidden(now)
    ||| hover && (hover_since matches Some(s) && now > s@)
}

/// The countdown's button: the target's geometry, pulsing `since` nanoseconds into the
/// countdown, not held.
pub open spec fn countdown_button(b: UnlockButtonView, t: UnlockTarget, since: int) -> bool {
    &&& b.center == t.center && b.radius == t.radius && b.hit_radius == t.hit_radius
    &&& b.pulse_elapsed is Some && b.pulse_elapsed->0@ == since
    &&& !b.held && b.hold_filled == 0 && b.completing_since is None
}

/// The locked button: the target's geometry, held while either hold is holding or completing,
/// filled to the larger of the two holds, and (while either completes) the earliest completion.
pub open spec fn locked_button(
    b: UnlockButtonView,
    t: UnlockTarget,
    hold: HoldRing,
    combo_ring: HoldRing,
    now: int,
) -> bool {
    &&& b.center == t.center && b.radius == t.radius && b.hit_radius == t.hit_radius
    &&& b.pulse_elapsed is None
    &&& b.held == (hold is Holding || hold is Completing || combo_ring is Holding
        || combo_ring is Completing)
    &&& b.hold_filled == max2(hold.spec_filled(now), combo_ring.spec_filled(now))
    &&& match b.completing_since {
        None => !(hold is Completing) && !(combo_ring is Completing),
        Some(c) => {
            &&& hold.is_completing_since(c@) || combo_ring.is_completing_since(c@)
            &&& (hold is Completing ==> c@ <= hold->Completing_start@)
            &&& (combo_ring is Completing ==> c@ <= combo_ring->Completing_start@)
        },
    }
}

/// `max(a, b)` on integers.
pub open spec fn max2(a: int, b: int) -> int {
    if a >= b { a } else { b }
}

/// The cleaning session state machine; see the module docs for the calling convention.
#[derive(Debug, Clone, Copy)]
pub struct Session {
    config: SessionConfig,
    countdown: Countdown,
    state: SessionState,
    unlock_target: Option<UnlockTarget>,
}

impl Session {
    /// The session's internal state.
    pub closed spec fn state(&self) -> SessionState {
        self.state
    }

    /// The session's configuration.
    pub closed spec fn spec_config(&self) -> SessionConfig {
        self.config
    }

    /// The unlock button's geometry, once set.
    pub closed spec fn target(&self) -> Option<UnlockTarget> {
        self.unlock_target
    }

    /// Starts a session at `now`, counting down.
    pub fn new(config: SessionConfig, now: Instant) -> (s: Session)
        ensures
            s.state() matches SessionState::Countdown { start } && start@ == now@,
            s.spec_config() == config,
            s.target() is None,
    {
        Session {
            config,
            countdown: Countdown::new(),
            state: SessionState::Countdown { start: now },
            unlock_target: None,
        }
    }

    /// The session's configuration.
    pub fn config(&self) -> (c: SessionConfig)
        ensures
            c == self.spec_config(),
    {
        self.config
    }

    /// Tells the session where the hold-to-unlock button is: `center` and `hit_radius` decide
    /// which pointer presses start a hold, `radius` is the button's visual size for the renderer.
    /// The geometry persists across phases.
    pub fn set_unlock_target(&mut self, center: Point, radius: u32, hit_radius: u32)
        ensures
            final(self).state() == old(self).state(),
            final(self).spec_config() == old(self).spec_config(),
            final(self).target() == Some(UnlockTarget { center, radius, hit_radius }),
    {
        self.unlock_target = Some(UnlockTarget { center, radius, hit_radius });
    }

    /// The fail-safe deadline while locked; `None` during the countdown and once unlocking.
    pub fn failsafe_deadline(&self) -> (t: Option<Instant>)
        ensures
            match self.state() {
                SessionState::Locked { deadline, .. } => t matches Some(i) && i@ == deadline@,
                _ => t is None,
            },
    {
        match &self.state {
            SessionState::Locked { deadline, .. } => Some(deadline.at()),
            _ => None,
        }
    }

    /// The current coarse phase.
    pub fn phase(&self) -> (p: SessionPhase)
        ensures
            p == phase_of(self.state()),
    {
        match &self.state {
            SessionState::Countdown { .. } => SessionPhase::Countdown,
            SessionState::Locked { .. } => SessionPhase::Locked,
            SessionState::Unlocking { .. } => SessionPhase::Unlocking,
            SessionState::Finished { reason } => SessionPhase::Finished(*reason),
        }
    }

    /// The combo event for `event` (see [`spec_combo_event_for`]).
    pub fn combo_event_for(event: InputEvent) -> (e: Option<ComboEvent>)
        ensures
            e == spec_combo_event_for(event),
    {
        match event {
            InputEvent::KeyDown { kind, repeat } => {
                if repeat {
                    None
                } else {
                    Some(ComboEvent::Down(combo_key_of(kind)))
                }
            },
            InputEvent::KeyUp(kind) => Some(ComboEvent::Up(combo_key_of(kind))),
            InputEvent::ModifierChange => Some(ComboEvent::ModifierChange),
            _ => None,
        }
    }

    /// Handles one input event at `now` and returns the commands to perform. During the
    /// countdown an Escape press or a pointer press cancels the session (and closes the
    /// overlay); every other input is ignored. While locked the input updates the interaction
    /// state as [`spec_locked_input`] describes and never yields a command. Once unlocking or
    /// finished, input is ignored. See [`spec_input`].
    pub fn handle_input(&mut self, event: InputEvent, now: Instant) -> (cmds: Vec<SessionCommand>)
        ensures
            final(self).spec_config() == old(self).spec_config(),
            final(self).target() == old(self).target(),
            spec_input(
                old(self).state(),
                final(self).state(),
                cmds@,
                event,
                now@,
                old(self).spec_config(),
                old(self).target(),
            ),
    {
        let keyboard_only = self.config.keyboard_only;
        let target = self.unlock_target;
        match self.state {
            SessionState::Countdown { .. } => {
                let cancel = match event {
                    InputEvent::KeyDown { kind: KeyKind::Escape, .. } => true,
                    InputEvent::PointerDown { .. } => true,
                    _ => false,
                };
                if cancel {
                    self.state = SessionState::Finished { reason: EndReason::Cancelled };
                    return single(SessionCommand::Close);
                }
                Vec::new()
            },
            SessionState::Locked {
                hint,
                pixel_test,
                deadline,
                wordmark_eligible,
                hold,
                combo,
                hover,
                hover_since,
            } => {
                let mut hint = hint;
                let mut pixel_test = pixel_test;
                let mut wordmark_eligible = wordmark_eligible;
                let mut hold = hold;
                let mut combo = combo;
                let mut hover = hover;
                let mut hover_since = hover_since;
                if let Some(combo_event) = Self::combo_event_for(event) {
                    combo.handle_event(combo_event, now);
                }
                let is_space = match event {
                    InputEvent::KeyDown { kind: KeyKind::Space, .. } => true,
                    _ => false,
                };
                if is_space && !keyboard_only {
                    pixel_test.advance();
                } else {
                    match event {
                        InputEvent::PointerMoved { x, y } => {
                            if let Some(t) = target {
                                let now_hover = within(t.center, Point::new(x, y), HOVER_RADIUS);
                                if now_hover && !hover {
                                    hover = true;
                                    hover_since = Some(now);
                                    wordmark_eligible = false;
                                } else if !now_hover && hover {
                                    hover = false;
                                    hover_since = None;
                                    hint.hold_from(now);
                                }
                            }
                        },
                        InputEvent::PointerDown { x, y } => {
                            let inside = match target {
                                Some(t) => within(t.center, Point::new(x, y), t.hit_radius),
                                None => false,
                            };
                            if inside {
                                hold.start(now);
                            } else {
                                hint.on_input(now);
                                wordmark_eligible = false;
                            }
                        },
                        InputEvent::PointerUp { .. } => {
                            hold.release(now);
                        },
                        InputEvent::PointerDragged { x, y } => {
                            if let HoldRing::Holding { .. } = hold {
                                let outside = match target {
                                    Some(t) => !within(t.center, Point::new(x, y), t.hit_radius),
                                    None => true,
                                };
                                if outside {
                                    hold.release(now);
                                }
                            }
                        },
                        InputEvent::KeyUp(_) => {},
                        _ => {
                            hint.on_input(now);
                            wordmark_eligible = false;
                        },
                    }
                }
                self.state = SessionState::Locked {
                    hint,
                    pixel_test,
                    deadline,
                    wordmark_eligible,
                    hold,
                    combo,
                    hover,
                    hover_since,
                };
                Vec::new()
            },
            _ => Vec::new(),
        }
    }

    /// What to draw at `now`.
    ///
    /// During the countdown: the cleaning color, the digit, the "how to unlock" line, the
    /// button (pulsing) and the full fail-safe delay in seconds. While locked: the pixel test's
    /// color when it runs (else the cleaning color), the hint's stage and hover reveal, the
    /// wordmark until the first input (and not during the pixel test), the button (fully opaque
    /// while held, progress the larger of the two holds), the bar unless the pixel test runs
    /// (stronger in the last ten seconds), the test step while the hint is visible, and the
    /// seconds left. While unlocking the overlay fades out; once finished it is gone.
    pub fn view(&self, now: Instant) -> (v: SessionView)
        ensures
            v.keyboard_only == self.spec_config().keyboard_only,
            v.ink == ink_spec(v.background),
            match self.state() {
                SessionState::Countdown { start } => {
                    &&& v.background == self.spec_config().color.spec_rgb()
                    &&& match v.countdown {
                        None => elapsed(start@, now@) >= TOTAL_NANOS,
                        Some(d) => elapsed(start@, now@) < TOTAL_NANOS && d.digit == 3 - elapsed(start@, now@) / NANOS_PER_SEC as int
                            && d.into_digit@ == elapsed(start@, now@) % NANOS_PER_SEC as int,
                    }
                    &&& v.hint is None && v.hover_since is None && !v.wordmark_shown
                    &&& v.countdown_unlock_hint && v.bar is None && v.pixel_step is None
                    &&& v.remaining_secs == self.spec_config().failsafe.spec_seconds()
                    &&& v.overlay == OverlayFade::Opaque
                    &&& match self.target() {
                        None => v.unlock_button is None,
                        Some(t) => v.unlock_button is Some && countdown_button(
                            v.unlock_button->0,
                            t,
                            elapsed(start@, now@),
                        ),
                    }
                },
                SessionState::Locked {
                    hint,
                    pixel_test,
                    deadline,
                    wordmark_eligible,
                    hold,
                    combo,
                    hover,
                    hover_since,
                } => {
                    let running = pixel_test@ != PixelTestStep::Off;
                    &&& v.background == (if running {
                        pixel_test_color(pixel_test@)
                    } else {
                        self.spec_config().color.spec_rgb()
                    })
                    &&& v.countdown is None && !v.countdown_unlock_hint
                    &&& v.hint == Some(hint@)
                    &&& v.hover_since == (if hover { hover_since } else { None })
                    &&& v.wordmark_shown == (wordmark_eligible && !running)
                    &&& match v.bar {
                        None => running,
                        Some(b) => !running && b.remaining@ == deadline.spec_remaining(now@)
                            && b.total@ == self.spec_config().failsafe.spec_seconds() * NANOS_PER_SEC
                            && b.emphasis == (deadline.spec_remaining(now@) <= 10 * NANOS_PER_SEC),
                    }
                    &&& v.pixel_step == (if running && hint_visible(hint, hover, hover_since, now@) {
                        Some((pixel_test@.index() as u8, 5u8))
                    } else {
                        None
                    })
                    &&& v.remaining_secs == crate::failsafe::capped_ceil_secs(deadline.spec_remaining(now@))
                    &&& v.overlay == OverlayFade::Opaque
                    &&& match self.target() {
                        None => v.unlock_button is None,
                        Some(t) => v.unlock_button is Some && locked_button(
                            v.unlock_button->0,
                            t,
                            hold,
                            combo@.ring,
                            now@,
                        ),
                    }
                },
                SessionState::Unlocking { start, .. } => {
                    &&& v.background == self.spec_config().color.spec_rgb()
                    &&& v.countdown is None && v.hint is None && v.hover_since is None
                    &&& !v.wordmark_shown && v.unlock_button is None && !v.countdown_unlock_hint
                    &&& v.bar is None && v.pixel_step is None && v.remaining_secs == 0
                    &&& v.overlay is FadingOut
                    &&& v.overlay->elapsed@ == elapsed(start@, now@)
                },
                SessionState::Finished { .. } => {
                    &&& v.background == self.spec_config().color.spec_rgb()
                    &&& v.countdown is None && v.hint is None && v.hover_since is None
                    &&& !v.wordmark_shown && v.unlock_button is None && !v.countdown_unlock_hint
                    &&& v.bar is None && v.pixel_step is None && v.remaining_secs == 0
                    &&& v.overlay == OverlayFade::Gone
                },
            },
    {
        let cleaning = self.config.color.rgb();
        match &self.state {
            SessionState::Countdown { start } => {
                let e = now.saturating_duration_since(*start);
                let unlock_button = match self.unlock_target {
                    Some(t) => Some(UnlockButtonView {
                        center: t.center,
                        radius: t.radius,
                        hit_radius: t.hit_radius,
                        pulse_elapsed: Some(e),
                        held: false,
                        hold_filled: 0,
                        completing_since: None,
                    }),
                    None => None,
                };
                SessionView {
                    background: cleaning,
                    ink: ink_for(cleaning),
                    keyboard_only: self.config.keyboard_only,
                    countdown: self.countdown.digit_at(e),
                    hint: None,
                    hover_since: None,
                    wordmark_shown: false,
                    unlock_button,
                    countdown_unlock_hint: true,
                    bar: None,
                    pixel_step: None,
                    remaining_secs: self.config.failsafe.seconds() as u32,
                    overlay: OverlayFade::Opaque,
                }
            },
            SessionState::Locked {
                hint,
                pixel_test,
                deadline,
                wordmark_eligible,
                hold,
                combo,
                hover,
                hover_since,
            } => {
                let step = pixel_test.step();
                let running = step.is_running();
                let background = match step.color() {
                    Some(c) => c,
                    None => cleaning,
                };
                let hovering_since = if *hover { *hover_since } else { None };
                let hover_shows = match hovering_since {
                    Some(s) => !s.is_at_or_after(now),
                    None => false,
                };
                let visible = !hint.is_hidden(now) || hover_shows;
                let bar = if running {
                    None
                } else {
                    Some(BarView {
                        remaining: deadline.remaining(now),
                        total: self.config.failsafe.duration(),
                        emphasis: deadline.is_in_final_emphasis(now),
                    })
                };
                let pixel_step = if running && visible { step.step_indicator() } else { None };
                let combo_ring = combo.ring();
                let unlock_button = match self.unlock_target {
                    Some(t) => {
                        let held = match hold {
                            HoldRing::Holding { .. } | HoldRing::Completing { .. } => true,
                            _ => false,
                        } || match combo_ring {
                            HoldRing::Holding { .. } | HoldRing::Completing { .. } => true,
                            _ => false,
                        };
                        let a = hold.filled(now);
                        let b = combo_ring.filled(now);
                        let completing_since = match (hold, combo_ring) {
                            (HoldRing::Completing { start: s1 }, HoldRing::Completing { start: s2 }) => Some(s1.earliest(s2)),
                            (HoldRing::Completing { start: s1 }, _) => Some(*s1),
                            (_, HoldRing::Completing { start: s2 }) => Some(s2),
                            _ => None,
                        };
                        Some(UnlockButtonView {
                            center: t.center,
                            radius: t.radius,
                            hit_radius: t.hit_radius,
                            pulse_elapsed: None,
                            held,
                            hold_filled: if a >= b { a } else { b },
                            completing_since,
                        })
                    },
                    None => None,
                };
                SessionView {
                    background,
                    ink: ink_for(background),
                    keyboard_only: self.config.keyboard_only,
                    countdown: None,
                    hint: Some(hint.stage()),
                    hover_since: hovering_since,
                    wordmark_shown: *wordmark_eligible && !running,
                    unlock_button,
                    countdown_unlock_hint: false,
                    bar,
                    pixel_step,
                    remaining_secs: deadline.remaining_secs_ceil(now),
                    overlay: OverlayFade::Opaque,
                }
            },
            SessionState::Unlocking { start, .. } => SessionView {
                background: cleaning,
                ink: ink_for(cleaning),
                keyboard_only: self.config.keyboard_only,
                countdown: None,
                hint: None,
                hover_since: None,
                wordmark_shown: false,
                unlock_button: None,
                countdown_unlock_hint: false,
                bar: None,
                pixel_step: None,
                remaining_secs: 0,
                overlay: OverlayFade::FadingOut { elapsed: now.saturating_duration_since(*start) },
            },
            SessionState::Finished { .. } => SessionView {
                background: cleaning,
                ink: ink_for(cleaning),
                keyboard_only: self.config.keyboard_only,
                countdown: None,
                hint: None,
                hover_since: None,
                wordmark_shown: false,
                unlock_button: None,
                countdown_unlock_hint: false,
                bar: None,
                pixel_step: None,
                remaining_secs: 0,
                overlay: OverlayFade::Gone,
            },
        }
    }

    /// The next instant the caller should wake up and tick (see [`spec_next_wake`]); `None`
    /// once the session is finished.
    pub fn next_wake(&self, now: Instant) -> (w: Option<Instant>)
        ensures
            match spec_next_wake(self.state(), now@) {
                Some(t) => w matches Some(i) && i@ == t,
                None => w is None,
            },
    {
        let frame = Duration::from_nanos(ANIMATION_FRAME_NANOS);
        match &self.state {
            SessionState::Countdown { start } => {
                let e = now.saturating_duration_since(*start);
                if self.countdown.is_finished(e) {
                    Some(now)
                } else {
                    Some(now.saturating_plus(frame).earliest(start.saturating_plus(Countdown::total())))
                }
            },
            SessionState::Locked { hint, deadline, hold, combo, hover, hover_since, .. } => {
                let mut best = deadline.at().earliest(next_second_boundary(*deadline, now));
                if let Some(hint_wake) = hint.next_wake(now) {
                    best = best.earliest(hint_wake);
                }
                let hover_animating = match hover_since {
                    Some(since) => *hover && now.saturating_duration_since(*since).as_nanos()
                        < HOVER_FADE_IN_NANOS,
                    None => false,
                };
                let animating = hold.is_active() || combo.ring().is_active() || hover_animating;
                if animating {
                    best = best.earliest(now.saturating_plus(frame).earliest(deadline.at()));
                }
                Some(best)
            },
            SessionState::Unlocking { start, .. } => {
                let end = start.saturating_plus(Duration::from_nanos(UNLOCK_FADE_NANOS));
                Some(if now.is_at_or_after(end) { now } else { now.saturating_plus(frame).earliest(end) })
            },
            SessionState::Finished { .. } => None,
        }
    }

    /// Advances the timers at `now` (while locked, the hint's fade and both holds) and returns
    /// the commands to perform (see [`spec_tick`]):
    /// the countdown's end yields [`SessionCommand::BlockInputs`], a completed hold or the
    /// fail-safe deadline [`SessionCommand::ReleaseInputs`], the fade's end
    /// [`SessionCommand::Close`].
    pub fn tick(&mut self, now: Instant) -> (cmds: Vec<SessionCommand>)
        requires
            now@ + MAX_FAILSAFE_SECS * NANOS_PER_SEC <= u64::MAX,
        ensures
            final(self).spec_config() == old(self).spec_config(),
            final(self).target() == old(self).target(),
            spec_tick(old(self).state(), final(self).state(), cmds@, now@, old(self).spec_config().failsafe),
    {
        match self.state {
            SessionState::Countdown { start } => {
                let e = now.saturating_duration_since(start);
                if self.countdown.is_finished(e) {
                    let deadline = self.config.failsafe.deadline_from(now);
                    self.state = SessionState::Locked {
                        hint: HintFader::new(now),
                        pixel_test: PixelTest::new(),
                        deadline,
                        wordmark_eligible: true,
                        hold: HoldRing::Idle,
                        combo: ComboTracker::new(),
                        hover: false,
                        hover_since: None,
                    };
                    return single(SessionCommand::BlockInputs);
                }
                Vec::new()
            },
            SessionState::Locked {
                hint,
                pixel_test,
                deadline,
                wordmark_eligible,
                hold,
                combo,
                hover,
                hover_since,
            } => {
                let mut hint = hint;
                if hold.is_completing() || combo.is_completing() {
                    if hold.completion_elapsed(now) || combo.completion_elapsed(now) {
                        self.state = SessionState::Unlocking {
                            start: now,
                            reason: EndReason::Unlocked,
                        };
                        return single(SessionCommand::ReleaseInputs);
                    }
                    hint.tick(now);
                    self.state = SessionState::Locked {
                        hint,
                        pixel_test,
                        deadline,
                        wordmark_eligible,
                        hold,
                        combo,
                        hover,
                        hover_since,
                    };
                    return Vec::new();
                }
                if deadline.is_expired(now) {
                    self.state = SessionState::Unlocking { start: now, reason: EndReason::Failsafe };
                    return single(SessionCommand::ReleaseInputs);
                }
                let mut hold = hold;
                let mut combo = combo;
                hint.tick(now);
                hold.advance(now);
                combo.advance(now);
                self.state = SessionState::Locked {
                    hint,
                    pixel_test,
                    deadline,
                    wordmark_eligible,
                    hold,
                    combo,
                    hover,
                    hover_since,
                };
                Vec::new()
            },
            SessionState::Unlocking { start, reason } => {
                if now.saturating_duration_since(start).as_nanos() >= UNLOCK_FADE_NANOS {
                    self.state = SessionState::Finished { reason };
                    return single(SessionCommand::Close);
                }
                Vec::new()
            },
            SessionState::Finished { .. } => Vec::new(),
        }
    }
}

/// A command list holding exactly `c`.
fn single(c: SessionCommand) -> (v: Vec<SessionCommand>)
    ensures
        v@ == seq![c],
{
    let mut v = Vec::new();
    v.push(c);
    assert(v@ =~= seq![c]);
    v
}

fn combo_key_of(kind: KeyKind) -> (k: ComboKey)
    ensures
        k == combo_key(kind),
{
    match kind {
        KeyKind::Escape => ComboKey::Escape,
        KeyKind::Return => ComboKey::Return,
        _ => ComboKey::Other,
    }
}

/// One step of a session: an input or a tick at `now`.
pub open spec fn spec_step(
    old: SessionState,
    new: SessionState,
    cmds: Seq<SessionCommand>,
    now: int,
    config: SessionConfig,
    target: Option<UnlockTarget>,
) -> bool {
    ||| exists|event: InputEvent| spec_input(old, new, cmds, event, now, config, target)
    ||| spec_tick(old, new, cmds, now, config.failsafe)
}

/// Whether a step may go from phase `a` to phase `b`: phases only move forward, from the
/// countdown to locked (or straight to a cancelled finish), from locked to unlocking, from
/// unlocking to finished.
pub open spec fn phase_moves_forward(a: SessionPhase, b: SessionPhase) -> bool {
    match a {
        SessionPhase::Countdown => b == SessionPhase::Countdown || b == SessionPhase::Locked || b
            == SessionPhase::Finished(EndReason::Cancelled),
        SessionPhase::Locked => b == SessionPhase::Locked || b == SessionPhase::Unlocking,
        SessionPhase::Unlocking => b == SessionPhase::Unlocking || b is Finished,
        SessionPhase::Finished(r) => b == SessionPhase::Finished(r),
    }
}

/// Commands track phase changes exactly, for inputs and ticks alike: phases only move forward;
/// [`SessionCommand::BlockInputs`] is yielded exactly when the countdown gives way to the lock,
/// [`SessionCommand::ReleaseInputs`] exactly when the lock gives way to unlocking, and
/// [`SessionCommand::Close`] exactly when the session finishes; a step yields at most one command.
pub proof fn lemma_commands_track_phases(
    old: SessionState,
    new: SessionState,
    cmds: Seq<SessionCommand>,
    now: int,
    config: SessionConfig,
    target: Option<UnlockTarget>,
)
    requires
        spec_step(old, new, cmds, now, config, target),
    ensures
        phase_moves_forward(phase_of(old), phase_of(new)),
        cmds.len() <= 1,
        cmds.contains(SessionCommand::BlockInputs) <==> (old is Countdown && new is Locked),
        cmds.contains(SessionCommand::ReleaseInputs) <==> (old is Locked && new is Unlocking),
        cmds.contains(SessionCommand::Close) <==> (!(old is Finished) && new is Finished),
{
    if spec_tick(old, new, cmds, now, config.failsafe) {
        assert(cmds.len() == 1 ==> cmds.contains(cmds[0]));
    } else {
        let event = choose|event: InputEvent| spec_input(old, new, cmds, event, now, config, target);
        assert(cmds.len() == 1 ==> cmds.contains(cmds[0]));
    }
}

/// The fail-safe deadline is fixed when locking starts and never moves: no input and no tick
/// that keeps the session locked changes it.
pub proof fn lemma_deadline_never_moves(
    old: SessionState,
    new: SessionState,
    cmds: Seq<SessionCommand>,
    now: int,
    config: SessionConfig,
    target: Option<UnlockTarget>,
)
    requires
        spec_step(old, new, cmds, now, config, target),
        old is Locked,
        new is Locked,
    ensures
        old->deadline == new->deadline,
{
    if !spec_tick(old, new, cmds, now, config.failsafe) {
        let event = choose|event: InputEvent| spec_input(old, new, cmds, event, now, config, target);
    }
}

/// Whether a completion pulse is still playing at `now`: a hold (pointer or combo) completed but
/// neither pulse has finished.
pub open spec fn pulse_playing(hold: HoldRing, combo_ring: HoldRing, now: int) -> bool {
    (hold is Completing || combo_ring is Completing) && !(hold.spec_completion_elapsed(now)
        || combo_ring.spec_completion_elapsed(now))
}

/// The user is never stuck: once the fail-safe deadline has passed, a tick always ends the lock
/// (releasing inputs) unless a completed hold's short completion pulse is still playing.
pub proof fn lemma_failsafe_ends_the_lock(
    old: SessionState,
    new: SessionState,
    cmds: Seq<SessionCommand>,
    now: int,
    failsafe: FailsafeDelay,
)
    requires
        spec_tick(old, new, cmds, now, failsafe),
        old is Locked,
        now >= old->deadline@,
        !pulse_playing(old->hold, old->combo@.ring, now),
    ensures
        new is Unlocking,
        cmds == seq![SessionCommand::ReleaseInputs],
{
}

/// Input alone never unlocks: only a tick ends the lock, and a tick ends it as "unlocked" only
/// when a hold (pointer or combo) had completed and its pulse has finished.
pub proof fn lemma_unlock_needs_a_completed_hold(
    old: SessionState,
    new: SessionState,
    cmds: Seq<SessionCommand>,
    now: int,
    config: SessionConfig,
    target: Option<UnlockTarget>,
)
    requires
        spec_step(old, new, cmds, now, config, target),
        old is Locked,
        new is Unlocking,
    ensures
        spec_tick(old, new, cmds, now, config.failsafe),
        is_unlocking(new, now, EndReason::Unlocked) || is_unlocking(new, now, EndReason::Failsafe),
        is_unlocking(new, now, EndReason::Unlocked) ==> old->hold.spec_completion_elapsed(now)
            || old->combo@.ring.spec_completion_elapsed(now),
        is_unlocking(new, now, EndReason::Failsafe) ==> now >= old->deadline@,
{
    if !spec_tick(old, new, cmds, now, config.failsafe) {
        let event = choose|event: InputEvent| spec_input(old, new, cmds, event, now, config, target);
    }
}

/// While at least one second remains before `deadline`, the next change of the seconds count
/// lies after `now`.
proof fn lemma_second_boundary_ahead(deadline: Deadline, now: int)
    requires
        now < deadline@ <= now + u32::MAX * NANOS_PER_SEC,
    ensures
        spec_next_second_boundary(deadline, now) > now,
{
    let r = deadline@ - now;
    let q = r / NANOS_PER_SEC as int;
    let m = r % NANOS_PER_SEC as int;
    assert(r == q * NANOS_PER_SEC + m && 0 <= m < NANOS_PER_SEC) by (nonlinear_arith)
        requires
            r > 0,
            q == r / NANOS_PER_SEC as int,
            m == r % NANOS_PER_SEC as int,
    ;
    assert(q <= u32::MAX) by (nonlinear_arith)
        requires
            r == q * NANOS_PER_SEC + m,
            0 <= m,
            r <= u32::MAX * NANOS_PER_SEC,
    ;
    assert(m > 0 ==> q < u32::MAX) by (nonlinear_arith)
        requires
            r == q * NANOS_PER_SEC + m,
            r <= u32::MAX * NANOS_PER_SEC,
    ;
}

/// A tick leaves nothing overdue: right after a tick at `now`, the session's next wake lies
/// after `now` (or there is none, once it has finished), so a caller that sleeps until the next
/// wake never spins. In particular a hint whose fade has run out is hidden by the tick and no
/// longer asks for a wake.
pub proof fn lemma_tick_leaves_no_overdue_wake(
    old: SessionState,
    new: SessionState,
    cmds: Seq<SessionCommand>,
    now: int,
    failsafe: FailsafeDelay,
)
    requires
        spec_tick(old, new, cmds, now, failsafe),
        0 <= now,
        now + MAX_FAILSAFE_SECS * NANOS_PER_SEC <= u64::MAX,
        new is Locked ==> now < new->deadline@ <= now + u32::MAX * NANOS_PER_SEC,
    ensures
        match spec_next_wake(new, now) {
            Some(t) => t > now,
            None => new is Finished,
        },
{
    if let SessionState::Locked { hint, deadline, .. } = new {
        lemma_second_boundary_ahead(deadline, now);
        match old {
            SessionState::Locked { hint: hint0, .. } => {
                assert(hint0@.spec_ticked(now, hint@));
            },
            _ => {},
        }
    }
}

/// Locking starts the configured fail-safe: when a tick ends the countdown at `now`, the new
/// lock's deadline lies 30, 60 or 90 seconds after `now`, as the session's fail-safe delay says.
pub proof fn lemma_lock_deadline_follows_the_configured_delay(
    old: SessionState,
    new: SessionState,
    cmds: Seq<SessionCommand>,
    now: int,
    failsafe: FailsafeDelay,
)
    requires
        spec_tick(old, new, cmds, now, failsafe),
        old is Countdown,
        new is Locked,
    ensures
        new->deadline@ == now + match failsafe {
            FailsafeDelay::Seconds30 => 30_000_000_000int,
            FailsafeDelay::Seconds60 => 60_000_000_000int,
            FailsafeDelay::Seconds90 => 90_000_000_000int,
        },
{
}

/// While anything animates in the locked phase (a pointer hold or the combo's ring filling,
/// draining or pulsing, or the hover reveal fading in during its first 200 ms), the session asks
/// to be woken at least once per 16 ms animation frame, and never after its deadline, so a hold
/// completes and unlocks on time.
pub proof fn lemma_wakes_every_frame_while_animating(s: SessionState, now: int)
    requires
        s is Locked,
        !(s->hold is Idle) || !(s->combo@.ring is Idle) || (s->hover && (s->hover_since matches Some(
            h,
        ) && elapsed(h@, now) < 200_000_000)),
    ensures
        spec_next_wake(s, now) matches Some(t) && t <= now + 16_000_000 && t <= s->deadline@,
{
}

} // verus!
