//! The Esc+Return keyboard hold-to-unlock combo.
//!
//! Holding Escape and Return together, and no other key, for the full hold duration unlocks a
//! session exactly like holding the on-screen button. Every key other than Escape and Return
//! (Space included) collapses into [`ComboKey::Other`]; the tracker only counts how many such
//! keys are held. A modifier-flags change carries no down/up pair, so it acts as an
//! instantaneous interference pulse: if it arrives while the combo is held it resets the hold and
//! "poisons" the combo, which then cannot restart until Escape or Return is actually released.
//! Autorepeats never reach the tracker (the session filters them out).
use vstd::prelude::*;

use crate::hold_ring::HoldRing;
use crate::time::Instant;

verus! {

/// A key identity the combo distinguishes.
#[derive(Debug, Clone, Copy, PartialEq, Eq, Structural)]
pub enum ComboKey {
    /// The Escape key.
    Escape,
    /// The Return key (the keypad's Enter key counts as Return).
    Return,
    /// Every other key, Space included.
    Other,
}

/// One keyboard event as the combo tracker sees it.
#[derive(Debug, Clone, Copy, PartialEq, Eq, Structural)]
pub enum ComboEvent {
    /// A fresh (non-repeat) press.
    Down(ComboKey),
    /// A release.
    Up(ComboKey),
    /// A modifier key's flags changed.
    ModifierChange,
}

/// The tracker's abstract state.
pub ghost struct ComboState {
    /// Whether Escape is held.
    pub escape_down: bool,
    /// Whether Return is held.
    pub return_down: bool,
    /// How many other keys are held.
    pub other_down: nat,
    /// Whether a modifier pulse interrupted the current hold (see the module docs).
    pub poisoned: bool,
    /// The combo's own progress ring.
    pub ring: HoldRing,
}

/// Exactly Escape and Return are held, and nothing else.
pub open spec fn is_clean(escape_down: bool, return_down: bool, other_down: nat) -> bool {
    escape_down && return_down && other_down == 0
}

impl ComboState {
    /// Escape held after `event`.
    pub open spec fn escape_after(self, event: ComboEvent) -> bool {
        match event {
            ComboEvent::Down(ComboKey::Escape) => true,
            ComboEvent::Up(ComboKey::Escape) => false,
            _ => self.escape_down,
        }
    }

    /// Return held after `event`.
    pub open spec fn return_after(self, event: ComboEvent) -> bool {
        match event {
            ComboEvent::Down(ComboKey::Return) => true,
            ComboEvent::Up(ComboKey::Return) => false,
            _ => self.return_down,
        }
    }

    /// Other keys held after `event` (the count saturates at `u32::MAX` and never goes below
    /// zero).
    pub open spec fn other_after(self, event: ComboEvent) -> nat {
        match event {
            ComboEvent::Down(ComboKey::Other) => if self.other_down < u32::MAX {
                self.other_down + 1
            } else {
                self.other_down
            },
            ComboEvent::Up(ComboKey::Other) => if self.other_down > 0 {
                (self.other_down - 1) as nat
            } else {
                0
            },
            _ => self.other_down,
        }
    }

    /// The state after `event` at `now` is `next`: the held keys are updated; a modifier pulse
    /// while clean poisons the combo; then, if the keys are no longer clean the poison clears and
    /// the ring is released, if poisoned the ring is released, and otherwise the ring is pressed.
    pub open spec fn spec_after_event(self, event: ComboEvent, now: int, next: ComboState) -> bool {
        let esc = self.escape_after(event);
        let ret = self.return_after(event);
        let other = self.other_after(event);
        let poisoned = self.poisoned || (event == ComboEvent::ModifierChange && is_clean(
            self.escape_down,
            self.return_down,
            self.other_down,
        ));
        &&& next.escape_down == esc
        &&& next.return_down == ret
        &&& next.other_down == other
        &&& if !is_clean(esc, ret, other) {
            !next.poisoned && self.ring.spec_released(now, next.ring)
        } else if poisoned {
            next.poisoned && self.ring.spec_released(now, next.ring)
        } else {
            !next.poisoned && self.ring.spec_started(now, next.ring)
        }
    }
}

/// Tracks the Esc+Return combo's keys and its own progress ring.
#[derive(Debug, Clone, Copy)]
pub struct ComboTracker {
    escape_down: bool,
    return_down: bool,
    other_down: u32,
    poisoned: bool,
    ring: HoldRing,
}

impl View for ComboTracker {
    type V = ComboState;

    closed spec fn view(&self) -> ComboState {
        ComboState {
            escape_down: self.escape_down,
            return_down: self.return_down,
            other_down: self.other_down as nat,
            poisoned: self.poisoned,
            ring: self.ring,
        }
    }
}

impl ComboTracker {
    /// A tracker with no key held and an idle ring.
    pub fn new() -> (t: ComboTracker)
        ensures
            !t@.escape_down,
            !t@.return_down,
            t@.other_down == 0,
            !t@.poisoned,
            t@.ring == HoldRing::Idle,
    {
        ComboTracker {
            escape_down: false,
            return_down: false,
            other_down: 0,
            poisoned: false,
            ring: HoldRing::Idle,
        }
    }

    fn is_clean(&self) -> (b: bool)
        ensures
            b == is_clean(self@.escape_down, self@.return_down, self@.other_down),
    {
        self.escape_down && self.return_down && self.other_down == 0
    }

    /// Feeds one keyboard event at `now`; see [`ComboState::spec_after_event`].
    pub fn handle_event(&mut self, event: ComboEvent, now: Instant)
        ensures
            old(self)@.spec_after_event(event, now@, final(self)@),
    {
        match event {
            ComboEvent::Down(ComboKey::Escape) => self.escape_down = true,
            ComboEvent::Up(ComboKey::Escape) => self.escape_down = false,
            ComboEvent::Down(ComboKey::Return) => self.return_down = true,
            ComboEvent::Up(ComboKey::Return) => self.return_down = false,
            ComboEvent::Down(ComboKey::Other) => {
                self.other_down = self.other_down.saturating_add(1);
            },
            ComboEvent::Up(ComboKey::Other) => {
                self.other_down = self.other_down.saturating_sub(1);
            },
            ComboEvent::ModifierChange => {
                if self.is_clean() {
                    self.poisoned = true;
                }
            },
        }
        self.sync(now);
    }

    fn sync(&mut self, now: Instant)
        ensures
            final(self)@.escape_down == old(self)@.escape_down,
            final(self)@.return_down == old(self)@.return_down,
            final(self)@.other_down == old(self)@.other_down,
            if !is_clean(old(self)@.escape_down, old(self)@.return_down, old(self)@.other_down) {
                !final(self)@.poisoned && old(self)@.ring.spec_released(now@, final(self)@.ring)
            } else if old(self)@.poisoned {
                final(self)@.poisoned && old(self)@.ring.spec_released(now@, final(self)@.ring)
            } else {
                !final(self)@.poisoned && old(self)@.ring.spec_started(now@, final(self)@.ring)
            },
    {
        if !self.is_clean() {
            self.poisoned = false;
            self.ring.release(now);
        } else if self.poisoned {
            self.ring.release(now);
        } else {
            self.ring.start(now);
        }
    }

    /// Advances the ring's timers at `now`.
    pub fn advance(&mut self, now: Instant)
        ensures
            final(self)@.escape_down == old(self)@.escape_down,
            final(self)@.return_down == old(self)@.return_down,
            final(self)@.other_down == old(self)@.other_down,
            final(self)@.poisoned == old(self)@.poisoned,
            old(self)@.ring.spec_advanced(now@, final(self)@.ring),
    {
        self.ring.advance(now);
    }

    /// The combo's progress ring.
    pub fn ring(&self) -> (r: HoldRing)
        ensures
            r == self@.ring,
    {
        self.ring
    }

    /// Whether the combo hold completed and its pulse is playing.
    pub fn is_completing(&self) -> (b: bool)
        ensures
            b == (self@.ring is Completing),
    {
        self.ring.is_completing()
    }

    /// Whether the combo's completion pulse has finished by `now`.
    pub fn completion_elapsed(&self, now: Instant) -> (b: bool)
        ensures
            b == self@.ring.spec_completion_elapsed(now@),
    {
        self.ring.completion_elapsed(now)
    }

    /// Nanoseconds of the combo hold filled at `now`.
    pub fn filled(&self, now: Instant) -> (f: u64)
        ensures
            f == self@.ring.spec_filled(now@),
    {
        self.ring.filled(now)
    }
}

/// After any key event, the combo's ring is holding only if exactly Escape and Return are held
/// and the combo is not poisoned: another key, a released combo key, or a modifier pulse always
/// stops the hold.
pub proof fn lemma_combo_holds_only_when_clean(
    s: ComboState,
    event: ComboEvent,
    now: int,
    next: ComboState,
)
    requires
        s.spec_after_event(event, now, next),
    ensures
        next.ring is Holding ==> is_clean(next.escape_down, next.return_down, next.other_down)
            && !next.poisoned,
{
}

/// A modifier pulse during a clean hold poisons the combo, and further events that keep the keys
/// clean cannot restart the hold: only releasing a combo key (or pressing another) clears the
/// poison.
pub proof fn lemma_poison_persists_while_clean(
    s: ComboState,
    event: ComboEvent,
    now: int,
    next: ComboState,
)
    requires
        s.spec_after_event(event, now, next),
        s.poisoned || (event == ComboEvent::ModifierChange && is_clean(
            s.escape_down,
            s.return_down,
            s.other_down,
        )),
        is_clean(next.escape_down, next.return_down, next.other_down),
    ensures
        next.poisoned,
        !(next.ring is Holding),
{
}

/// The tracker counts the other keys held: pressing one adds one (up to `u32::MAX`), releasing
/// one takes one away (never below zero), and no other event changes the count.
pub proof fn lemma_other_keys_are_counted(
    s: ComboState,
    event: ComboEvent,
    now: int,
    next: ComboState,
)
    requires
        s.spec_after_event(event, now, next),
    ensures
        event == ComboEvent::Down(ComboKey::Other) && s.other_down < 0xffff_ffff ==> next.other_down
            == s.other_down + 1,
        event == ComboEvent::Up(ComboKey::Other) && s.other_down >= 1 ==> next.other_down + 1
            == s.other_down,
        event == ComboEvent::Up(ComboKey::Other) && s.other_down == 0 ==> next.other_down == 0,
        event != ComboEvent::Down(ComboKey::Other) && event != ComboEvent::Up(ComboKey::Other)
            ==> next.other_down == s.other_down,
{
}

/// While another key is still held, the combo does not hold: if two or more other keys were
/// held and one is released, the ring is not holding afterwards.
pub proof fn lemma_releasing_one_of_several_other_keys_does_not_start_the_hold(
    s: ComboState,
    now: int,
    next: ComboState,
)
    requires
        s.spec_after_event(ComboEvent::Up(ComboKey::Other), now, next),
        s.other_down >= 2,
    ensures
        next.other_down >= 1,
        !(next.ring is Holding),
{
    lemma_other_keys_are_counted(s, ComboEvent::Up(ComboKey::Other), now, next);
    lemma_combo_holds_only_when_clean(s, ComboEvent::Up(ComboKey::Other), now, next);
}

/// Pressing another key and releasing it again leaves the count of other keys held as it was.
pub proof fn lemma_press_then_release_other_restores_the_count(
    s: ComboState,
    t1: int,
    mid: ComboState,
    t2: int,
    next: ComboState,
)
    requires
        s.spec_after_event(ComboEvent::Down(ComboKey::Other), t1, mid),
        mid.spec_after_event(ComboEvent::Up(ComboKey::Other), t2, next),
        s.other_down < 0xffff_ffff,
    ensures
        next.other_down == s.other_down,
{
}

} // verus!
