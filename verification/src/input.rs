//! Decisions of the input-blocking event tap: which event types it captures, what it does with
//! each event, and how an event reaches the session.
//!
//! Key down/up, modifier-flag changes, every mouse button down/up/drag, the scroll wheel,
//! system-defined keys (media, volume, brightness) and trackpad gestures are captured and
//! swallowed. Plain pointer movement is left alone (the hover reveal reads it from the window
//! instead). No character is ever decoded: keys are reduced to a [`KeyKind`] by virtual key code.
use vstd::prelude::*;

use crate::session::{InputEvent, KeyKind};

verus! {

/// `kCGEventLeftMouseDown`.
pub const LEFT_MOUSE_DOWN: u32 = 1;
/// `kCGEventLeftMouseUp`.
pub const LEFT_MOUSE_UP: u32 = 2;
/// `kCGEventRightMouseDown`.
pub const RIGHT_MOUSE_DOWN: u32 = 3;
/// `kCGEventRightMouseUp`.
pub const RIGHT_MOUSE_UP: u32 = 4;
/// `kCGEventLeftMouseDragged`.
pub const LEFT_MOUSE_DRAGGED: u32 = 6;
/// `kCGEventRightMouseDragged`.
pub const RIGHT_MOUSE_DRAGGED: u32 = 7;
/// `kCGEventKeyDown`.
pub const KEY_DOWN: u32 = 10;
/// `kCGEventKeyUp`.
pub const KEY_UP: u32 = 11;
/// `kCGEventFlagsChanged`.
pub const FLAGS_CHANGED: u32 = 12;
/// `NX_SYSDEFINED`: media, volume, brightness keys.
pub const SYSTEM_DEFINED: u32 = 14;
/// `NSEventTypeRotate`, the trackpad rotation gesture.
pub const ROTATE: u32 = 18;
/// `kCGEventScrollWheel`.
pub const SCROLL_WHEEL: u32 = 22;
/// `kCGEventOtherMouseDown`.
pub const OTHER_MOUSE_DOWN: u32 = 25;
/// `kCGEventOtherMouseUp`.
pub const OTHER_MOUSE_UP: u32 = 26;
/// `kCGEventOtherMouseDragged`.
pub const OTHER_MOUSE_DRAGGED: u32 = 27;
/// `NSEventTypeGesture`, the generic trackpad gesture envelope.
pub const GESTURE: u32 = 29;
/// `NSEventTypeMagnify`, the pinch gesture.
pub const MAGNIFY: u32 = 30;
/// `NSEventTypeSwipe`, the three/four-finger swipe.
pub const SWIPE: u32 = 31;
/// `kCGEventTapDisabledByTimeout`, delivered to the callback instead of an event.
pub const TAP_DISABLED_BY_TIMEOUT: u32 = 0xFFFF_FFFE;
/// `kCGEventTapDisabledByUserInput`, delivered to the callback instead of an event.
pub const TAP_DISABLED_BY_USER_INPUT: u32 = 0xFFFF_FFFF;

/// Virtual key code of Escape (`kVK_Escape`), the same on every keyboard layout.
pub const KEYCODE_ESCAPE: i64 = 53;
/// Virtual key code of Return (`kVK_Return`).
pub const KEYCODE_RETURN: i64 = 36;
/// Virtual key code of the keypad's Enter key (`kVK_ANSI_KeypadEnter`).
pub const KEYCODE_KEYPAD_ENTER: i64 = 76;
/// Virtual key code of Space (`kVK_Space`).
pub const KEYCODE_SPACE: i64 = 49;

/// Why the input blocker refused to start; nothing was installed in any case.
#[derive(Debug, Clone, Copy, PartialEq, Eq, Structural)]
pub enum BlockError {
    /// Accessibility permission is not granted.
    PermissionDenied,
    /// Secure Input is active system-wide, which would hide keystrokes from the tap.
    SecureInputActive,
    /// Creating the tap (or its run loop source, or a supporting thread) failed.
    TapCreationFailed,
}

impl BlockError {
    /// A one-line description of the error.
    pub fn message(self) -> (m: &'static str)
        ensures
            m@ == (match self {
                BlockError::PermissionDenied => "accessibility permission not granted"@,
                BlockError::SecureInputActive => "secure input is active"@,
                BlockError::TapCreationFailed => "failed to create the input event tap"@,
            }),
    {
        match self {
            BlockError::PermissionDenied => "accessibility permission not granted",
            BlockError::SecureInputActive => "secure input is active",
            BlockError::TapCreationFailed => "failed to create the input event tap",
        }
    }
}

/// The set of event types whose numbers are in `types`, as a bit mask (bit `t` for type `t`).
pub open spec fn mask_spec(types: Seq<u32>) -> u64
    decreases types.len(),
{
    if types.len() == 0 {
        0
    } else {
        mask_spec(types.drop_last()) | bit(types.last())
    }
}

/// The mask bit of event type `t`: `1 << t`, which is zero for types beyond 63.
pub open spec fn bit(t: u32) -> u64 {
    if t < 64 { (1u64 << t) } else { 0 }
}

/// Two event types share a mask bit only if they are the same type below 64.
proof fn lemma_bit_single(t: u32, b: u32)
    requires
        b < 64,
    ensures
        (bit(t) & (1u64 << b)) != 0 <==> t == b,
{
    if t < 64 {
        assert(((1u64 << t) & (1u64 << b)) != 0 <==> t == b) by (bit_vector)
            requires
                t < 64,
                b < 64,
        ;
    } else {
        assert((0u64 & (1u64 << b)) == 0) by (bit_vector);
    }
}

/// Bit `b` of an event mask is set exactly when `b` is one of its types (for `b` below 64).
pub proof fn lemma_mask_bit(types: Seq<u32>, b: u32)
    requires
        b < 64,
    ensures
        (mask_spec(types) & (1u64 << b)) != 0 <==> types.contains(b),
    decreases types.len(),
{
    if types.len() == 0 {
        assert((0u64 & (1u64 << b)) == 0) by (bit_vector);
    } else {
        let init = types.drop_last();
        let last = types.last();
        lemma_mask_bit(init, b);
        lemma_bit_single(last, b);
        let m = mask_spec(init);
        let k = bit(last);
        assert(((m | k) & (1u64 << b)) != 0 <==> ((m & (1u64 << b)) != 0 || (k & (1u64 << b))
            != 0)) by (bit_vector);
        if types.contains(b) {
            let i = choose|i: int| 0 <= i < types.len() && types[i] == b;
            if i < types.len() - 1 {
                assert(init[i] == b);
            }
        }
        if init.contains(b) {
            let i = choose|i: int| 0 <= i < init.len() && init[i] == b;
            assert(types[i] == b);
        }
        if last == b {
            assert(types[types.len() - 1] == b);
        }
    }
}

/// Builds an event mask with bit `t` set for each event type `t` in `types`.
///
/// Every event type the tap captures is below 64; a type number of 64 or more sets no bit.
pub fn build_mask(types: &[u32]) -> (mask: u64)
    ensures
        mask == mask_spec(types@),
{
    let mut mask: u64 = 0;
    let mut i: usize = 0;
    while i < types.len()
        invariant
            i <= types@.len(),
            mask == mask_spec(types@.take(i as int)),
        decreases types.len() - i,
    {
        let t = types[i];
        let b: u64 = if t < 64 { 1u64 << t } else { 0 };
        assert(types@.take(i + 1).drop_last() =~= types@.take(i as int));
        mask = mask | b;
        i += 1;
    }
    assert(types@.take(types@.len() as int) =~= types@);
    mask
}

/// The event types the blocking tap captures.
pub open spec fn captured_types() -> Seq<u32> {
    seq![
        KEY_DOWN,
        KEY_UP,
        FLAGS_CHANGED,
        LEFT_MOUSE_DOWN,
        LEFT_MOUSE_UP,
        RIGHT_MOUSE_DOWN,
        RIGHT_MOUSE_UP,
        OTHER_MOUSE_DOWN,
        OTHER_MOUSE_UP,
        LEFT_MOUSE_DRAGGED,
        RIGHT_MOUSE_DRAGGED,
        OTHER_MOUSE_DRAGGED,
        SCROLL_WHEEL,
        SYSTEM_DEFINED,
        ROTATE,
        GESTURE,
        MAGNIFY,
        SWIPE,
    ]
}

/// The event mask of the blocking tap.
pub fn blocking_mask() -> (mask: u64)
    ensures
        mask == mask_spec(captured_types()),
{
    let types = [
        KEY_DOWN,
        KEY_UP,
        FLAGS_CHANGED,
        LEFT_MOUSE_DOWN,
        LEFT_MOUSE_UP,
        RIGHT_MOUSE_DOWN,
        RIGHT_MOUSE_UP,
        OTHER_MOUSE_DOWN,
        OTHER_MOUSE_UP,
        LEFT_MOUSE_DRAGGED,
        RIGHT_MOUSE_DRAGGED,
        OTHER_MOUSE_DRAGGED,
        SCROLL_WHEEL,
        SYSTEM_DEFINED,
        ROTATE,
        GESTURE,
        MAGNIFY,
        SWIPE,
    ];
    assert(types@ =~= captured_types());
    build_mask(&types)
}

/// The blocking tap captures every key, button, drag, scroll, system-defined key and gesture
/// event, and leaves plain pointer movement (`kCGEventMouseMoved`, type 5) alone: its mask is
/// exactly the bits of the captured types.
pub proof fn lemma_blocking_mask_value()
    ensures
        mask_spec(captured_types()) == 0xee44_5cdeu64,
        mask_spec(captured_types()) & (1u64 << 5u64) == 0,
{
    reveal_with_fuel(mask_spec, 19);
    let s = captured_types();
    assert(s.len() == 18);
    assert(mask_spec(s) == ((((((((((((((((((0u64 | (1u64 << 10u32)) | (1u64 << 11u32)) | (1u64 << 12u32)) | (1u64 << 1u32)) | (1u64 << 2u32)) | (1u64 << 3u32)) | (1u64 << 4u32)) | (1u64 << 25u32)) | (1u64 << 26u32)) | (1u64 << 6u32)) | (1u64 << 7u32)) | (1u64 << 27u32)) | (1u64 << 22u32)) | (1u64 << 14u32)) | (1u64 << 18u32)) | (1u64 << 29u32)) | (1u64 << 30u32)) | (1u64 << 31u32)));
    assert(((((((((((((((((((0u64 | (1u64 << 10u32)) | (1u64 << 11u32)) | (1u64 << 12u32)) | (1u64 << 1u32)) | (1u64 << 2u32)) | (1u64 << 3u32)) | (1u64 << 4u32)) | (1u64 << 25u32)) | (1u64 << 26u32)) | (1u64 << 6u32)) | (1u64 << 7u32)) | (1u64 << 27u32)) | (1u64 << 22u32)) | (1u64 << 14u32)) | (1u64 << 18u32)) | (1u64 << 29u32)) | (1u64 << 30u32)) | (1u64 << 31u32)) == 0xee44_5cdeu64) by (bit_vector);
    assert(0xee44_5cdeu64 & (1u64 << 5u64) == 0) by (bit_vector);
}

/// The key kind of virtual key code `keycode`.
pub open spec fn key_kind_spec(keycode: i64) -> KeyKind {
    if keycode == KEYCODE_ESCAPE {
        KeyKind::Escape
    } else if keycode == KEYCODE_RETURN || keycode == KEYCODE_KEYPAD_ENTER {
        KeyKind::Return
    } else if keycode == KEYCODE_SPACE {
        KeyKind::Space
    } else {
        KeyKind::Other
    }
}

/// Reduces a virtual key code to a [`KeyKind`]: Escape, Return (the keypad's Enter counts as
/// Return), Space, or Other. No character is ever decoded.
pub fn map_key_kind(keycode: i64) -> (k: KeyKind)
    ensures
        k == key_kind_spec(keycode),
{
    if keycode == KEYCODE_ESCAPE {
        KeyKind::Escape
    } else if keycode == KEYCODE_RETURN || keycode == KEYCODE_KEYPAD_ENTER {
        KeyKind::Return
    } else if keycode == KEYCODE_SPACE {
        KeyKind::Space
    } else {
        KeyKind::Other
    }
}

/// What the tap does with an event.
#[derive(Debug, Clone, Copy, PartialEq, Eq, Structural)]
pub enum TapAction {
    /// Let the event through.
    Pass,
    /// Swallow it: nothing downstream sees it.
    Swallow,
}

/// What the tap callback does when an event of type `etype` arrives at `now_nanos`: once the
/// blocker is no longer active, or its deadline has passed, everything passes; a notification
/// that the system disabled the tap passes (and the tap re-enables itself); any other event is
/// forwarded to the session and swallowed.
#[derive(Debug, Clone, Copy, PartialEq, Eq, Structural)]
pub enum TapDecision {
    /// Let the event through untouched.
    Pass,
    /// The system disabled the tap: re-enable it and let this notification through.
    ReEnable,
    /// Forward the event to the session, then swallow it.
    Forward,
}

/// See [`TapDecision`].
pub fn tap_decision(active: bool, now_nanos: u64, deadline_nanos: u64, etype: u32) -> (d: TapDecision)
    ensures
        d == (if !active || now_nanos >= deadline_nanos {
            TapDecision::Pass
        } else if etype == TAP_DISABLED_BY_TIMEOUT || etype == TAP_DISABLED_BY_USER_INPUT {
            TapDecision::ReEnable
        } else {
            TapDecision::Forward
        }),
{
    if !active || now_nanos >= deadline_nanos {
        TapDecision::Pass
    } else if etype == TAP_DISABLED_BY_TIMEOUT || etype == TAP_DISABLED_BY_USER_INPUT {
        TapDecision::ReEnable
    } else {
        TapDecision::Forward
    }
}

/// What a captured event of type `etype` reads from the event before it can be forwarded.
#[derive(Debug, Clone, Copy, PartialEq, Eq, Structural)]
pub enum EventShape {
    /// A key press: needs its key code and autorepeat flag.
    KeyDown,
    /// A key release: needs its key code.
    KeyUp,
    /// A modifier change: needs nothing.
    ModifierChange,
    /// A pointer press: needs its location.
    PointerDown,
    /// A pointer release: needs its location.
    PointerUp,
    /// A drag: needs its location.
    PointerDragged,
    /// A scroll: needs nothing.
    Scroll,
    /// A system-defined key or gesture: forwarded as an ordinary key press of another key.
    OtherKey,
    /// Not a type the tap captures: swallowed without forwarding.
    Ignored,
}

/// The shape of event type `etype`.
pub open spec fn shape_spec(etype: u32) -> EventShape {
    if etype == KEY_DOWN {
        EventShape::KeyDown
    } else if etype == KEY_UP {
        EventShape::KeyUp
    } else if etype == FLAGS_CHANGED {
        EventShape::ModifierChange
    } else if etype == LEFT_MOUSE_DOWN || etype == RIGHT_MOUSE_DOWN || etype == OTHER_MOUSE_DOWN {
        EventShape::PointerDown
    } else if etype == LEFT_MOUSE_UP || etype == RIGHT_MOUSE_UP || etype == OTHER_MOUSE_UP {
        EventShape::PointerUp
    } else if etype == LEFT_MOUSE_DRAGGED || etype == RIGHT_MOUSE_DRAGGED || etype
        == OTHER_MOUSE_DRAGGED {
        EventShape::PointerDragged
    } else if etype == SCROLL_WHEEL {
        EventShape::Scroll
    } else if etype == SYSTEM_DEFINED || etype == ROTATE || etype == GESTURE || etype == MAGNIFY
        || etype == SWIPE {
        EventShape::OtherKey
    } else {
        EventShape::Ignored
    }
}

/// Classifies event type `etype` (see [`shape_spec`]).
pub fn event_shape(etype: u32) -> (s: EventShape)
    ensures
        s == shape_spec(etype),
{
    if etype == KEY_DOWN {
        EventShape::KeyDown
    } else if etype == KEY_UP {
        EventShape::KeyUp
    } else if etype == FLAGS_CHANGED {
        EventShape::ModifierChange
    } else if etype == LEFT_MOUSE_DOWN || etype == RIGHT_MOUSE_DOWN || etype == OTHER_MOUSE_DOWN {
        EventShape::PointerDown
    } else if etype == LEFT_MOUSE_UP || etype == RIGHT_MOUSE_UP || etype == OTHER_MOUSE_UP {
        EventShape::PointerUp
    } else if etype == LEFT_MOUSE_DRAGGED || etype == RIGHT_MOUSE_DRAGGED || etype
        == OTHER_MOUSE_DRAGGED {
        EventShape::PointerDragged
    } else if etype == SCROLL_WHEEL {
        EventShape::Scroll
    } else if etype == SYSTEM_DEFINED || etype == ROTATE || etype == GESTURE || etype == MAGNIFY
        || etype == SWIPE {
        EventShape::OtherKey
    } else {
        EventShape::Ignored
    }
}

/// The session event for a captured event of type `etype`, given what was read from it: its key
/// code and autorepeat flag (keys) or its location (pointers, in [`crate::geometry`] units).
pub fn forwarded_event(etype: u32, keycode: i64, autorepeat: bool, x: i32, y: i32) -> (e: Option<InputEvent>)
    ensures
        e == (match shape_spec(etype) {
            EventShape::KeyDown => Some(InputEvent::KeyDown { kind: key_kind_spec(keycode), repeat: autorepeat }),
            EventShape::KeyUp => Some(InputEvent::KeyUp(key_kind_spec(keycode))),
            EventShape::ModifierChange => Some(InputEvent::ModifierChange),
            EventShape::PointerDown => Some(InputEvent::PointerDown { x, y }),
            EventShape::PointerUp => Some(InputEvent::PointerUp { x, y }),
            EventShape::PointerDragged => Some(InputEvent::PointerDragged { x, y }),
            EventShape::Scroll => Some(InputEvent::Scroll),
            EventShape::OtherKey => Some(InputEvent::KeyDown { kind: KeyKind::Other, repeat: false }),
            EventShape::Ignored => None,
        }),
{
    match event_shape(etype) {
        EventShape::KeyDown => Some(InputEvent::KeyDown { kind: map_key_kind(keycode), repeat: autorepeat }),
        EventShape::KeyUp => Some(InputEvent::KeyUp(map_key_kind(keycode))),
        EventShape::ModifierChange => Some(InputEvent::ModifierChange),
        EventShape::PointerDown => Some(InputEvent::PointerDown { x, y }),
        EventShape::PointerUp => Some(InputEvent::PointerUp { x, y }),
        EventShape::PointerDragged => Some(InputEvent::PointerDragged { x, y }),
        EventShape::Scroll => Some(InputEvent::Scroll),
        EventShape::OtherKey => Some(InputEvent::KeyDown { kind: KeyKind::Other, repeat: false }),
        EventShape::Ignored => None,
    }
}

/// Every event type the tap captures reaches the session: none of them is ignored, so
/// [`forwarded_event`] yields a session event for each. Each mouse button's press (left 1,
/// right 3, other 25) is a pointer press, its release (2, 4, 26) a pointer release and its drag
/// (6, 7, 27) a pointer drag, so a press on the unlock button with any button is always matched by
/// its release.
pub proof fn lemma_captured_events_are_forwarded(etype: u32)
    ensures
        captured_types().contains(etype) ==> shape_spec(etype) != EventShape::Ignored,
        (etype == 1 || etype == 3 || etype == 25) ==> shape_spec(etype) == EventShape::PointerDown,
        (etype == 2 || etype == 4 || etype == 26) ==> shape_spec(etype) == EventShape::PointerUp,
        (etype == 6 || etype == 7 || etype == 27) ==> shape_spec(etype)
            == EventShape::PointerDragged,
        (etype == 1 || etype == 2 || etype == 3 || etype == 4 || etype == 6 || etype == 7 || etype
            == 25 || etype == 26 || etype == 27) ==> captured_types().contains(etype),
{
    if captured_types().contains(etype) {
        let k = choose|k: int| 0 <= k < captured_types().len() && captured_types()[k] == etype;
    }
    let c = captured_types();
    if etype == 1 { assert(c[3] == etype); }
    if etype == 2 { assert(c[4] == etype); }
    if etype == 3 { assert(c[5] == etype); }
    if etype == 4 { assert(c[6] == etype); }
    if etype == 25 { assert(c[7] == etype); }
    if etype == 26 { assert(c[8] == etype); }
    if etype == 6 { assert(c[9] == etype); }
    if etype == 7 { assert(c[10] == etype); }
    if etype == 27 { assert(c[11] == etype); }
}

} // verus!
