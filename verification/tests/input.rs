use urahafu::input::{
    blocking_mask, build_mask, event_shape, forwarded_event, map_key_kind, tap_decision,
    BlockError, EventShape, TapDecision, FLAGS_CHANGED, GESTURE, KEYCODE_ESCAPE,
    KEYCODE_KEYPAD_ENTER, KEYCODE_RETURN, KEYCODE_SPACE, KEY_DOWN, KEY_UP, LEFT_MOUSE_DOWN,
    LEFT_MOUSE_DRAGGED, LEFT_MOUSE_UP, SCROLL_WHEEL, SWIPE, TAP_DISABLED_BY_TIMEOUT,
    TAP_DISABLED_BY_USER_INPUT,
};
use urahafu::session::{InputEvent, KeyKind};

#[test]
fn build_mask_sets_expected_bits() {
    let mask = build_mask(&[KEY_DOWN, KEY_UP]);
    assert_eq!(mask, (1u64 << 10) | (1u64 << 11));
}

#[test]
fn build_mask_of_empty_slice_is_zero() {
    assert_eq!(build_mask(&[]), 0);
}

#[test]
fn build_mask_ignores_types_beyond_63() {
    assert_eq!(build_mask(&[64, TAP_DISABLED_BY_TIMEOUT, 1]), 1u64 << 1);
}

#[test]
fn blocking_mask_captures_keys_buttons_scroll_and_gestures_but_not_moves() {
    let mask = blocking_mask();
    for t in [KEY_DOWN, KEY_UP, FLAGS_CHANGED, LEFT_MOUSE_DOWN, LEFT_MOUSE_UP, SCROLL_WHEEL, SWIPE] {
        assert_ne!(mask & (1u64 << t), 0, "type {t} should be captured");
    }
    // Plain pointer movement (type 5) is left alone.
    assert_eq!(mask & (1u64 << 5), 0);
    assert_eq!(mask, 0xee44_5cde);
}

#[test]
fn escape_keycode_maps_to_escape() {
    assert_eq!(map_key_kind(KEYCODE_ESCAPE), KeyKind::Escape);
}

#[test]
fn space_keycode_maps_to_space() {
    assert_eq!(map_key_kind(KEYCODE_SPACE), KeyKind::Space);
}

#[test]
fn return_keycode_maps_to_return() {
    assert_eq!(map_key_kind(KEYCODE_RETURN), KeyKind::Return);
}

#[test]
fn keypad_enter_keycode_also_maps_to_return() {
    assert_eq!(map_key_kind(KEYCODE_KEYPAD_ENTER), KeyKind::Return);
}

#[test]
fn every_other_keycode_maps_to_other() {
    assert_eq!(map_key_kind(0), KeyKind::Other); // 'a' on QWERTY
    assert_eq!(map_key_kind(122), KeyKind::Other); // e.g. F1
    assert_eq!(map_key_kind(-1), KeyKind::Other);
}

#[test]
fn tap_passes_everything_once_inactive_or_past_the_deadline() {
    assert_eq!(tap_decision(false, 0, 100, KEY_DOWN), TapDecision::Pass);
    assert_eq!(tap_decision(true, 100, 100, KEY_DOWN), TapDecision::Pass);
    assert_eq!(tap_decision(true, 101, 100, TAP_DISABLED_BY_USER_INPUT), TapDecision::Pass);
}

#[test]
fn tap_re_enables_when_the_system_disables_it() {
    assert_eq!(tap_decision(true, 5, 100, TAP_DISABLED_BY_TIMEOUT), TapDecision::ReEnable);
    assert_eq!(tap_decision(true, 5, 100, TAP_DISABLED_BY_USER_INPUT), TapDecision::ReEnable);
}

#[test]
fn tap_forwards_and_swallows_while_active() {
    assert_eq!(tap_decision(true, 99, 100, KEY_DOWN), TapDecision::Forward);
    assert_eq!(tap_decision(true, 0, 100, SCROLL_WHEEL), TapDecision::Forward);
}

#[test]
fn event_shapes_classify_each_captured_type() {
    assert_eq!(event_shape(KEY_DOWN), EventShape::KeyDown);
    assert_eq!(event_shape(KEY_UP), EventShape::KeyUp);
    assert_eq!(event_shape(FLAGS_CHANGED), EventShape::ModifierChange);
    assert_eq!(event_shape(LEFT_MOUSE_DOWN), EventShape::PointerDown);
    assert_eq!(event_shape(LEFT_MOUSE_UP), EventShape::PointerUp);
    assert_eq!(event_shape(LEFT_MOUSE_DRAGGED), EventShape::PointerDragged);
    assert_eq!(event_shape(SCROLL_WHEEL), EventShape::Scroll);
    assert_eq!(event_shape(GESTURE), EventShape::OtherKey);
    assert_eq!(event_shape(5), EventShape::Ignored);
}

#[test]
fn forwarded_events_carry_what_the_session_needs() {
    assert_eq!(
        forwarded_event(KEY_DOWN, KEYCODE_SPACE, true, 0, 0),
        Some(InputEvent::KeyDown { kind: KeyKind::Space, repeat: true })
    );
    assert_eq!(
        forwarded_event(KEY_UP, KEYCODE_KEYPAD_ENTER, false, 0, 0),
        Some(InputEvent::KeyUp(KeyKind::Return))
    );
    assert_eq!(
        forwarded_event(LEFT_MOUSE_DOWN, 0, false, 1200, -300),
        Some(InputEvent::PointerDown { x: 1200, y: -300 })
    );
    assert_eq!(
        forwarded_event(SWIPE, KEYCODE_ESCAPE, true, 0, 0),
        Some(InputEvent::KeyDown { kind: KeyKind::Other, repeat: false })
    );
    assert_eq!(forwarded_event(FLAGS_CHANGED, 0, false, 0, 0), Some(InputEvent::ModifierChange));
    assert_eq!(forwarded_event(5, 0, false, 0, 0), None);
}

#[test]
fn block_errors_have_distinct_messages() {
    let messages = [
        BlockError::PermissionDenied.message(),
        BlockError::SecureInputActive.message(),
        BlockError::TapCreationFailed.message(),
    ];
    assert_eq!(messages[0], "accessibility permission not granted");
    assert_ne!(messages[0], messages[1]);
    assert_ne!(messages[1], messages[2]);
}

#[test]
fn a_mask_bit_is_set_exactly_for_the_listed_types() {
    let types = [KEY_DOWN, SCROLL_WHEEL, SWIPE, 63];
    let mask = build_mask(&types);
    for b in 0u32..64 {
        assert_eq!(mask & (1u64 << b) != 0, types.contains(&b), "bit {b}");
    }
}
