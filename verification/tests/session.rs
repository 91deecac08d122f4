use urahafu::clock::{Clock, SystemClock};
use urahafu::color::{CleaningColor, Rgb};
use urahafu::countdown::TOTAL_NANOS;
use urahafu::failsafe::FailsafeDelay;
use urahafu::geometry::Point;
use urahafu::hint::HintStage;
use urahafu::hold_ring::{COMPLETION_SCALE_PULSE_NANOS, HOLD_DRAIN_NANOS, HOLD_DURATION_NANOS};
use urahafu::i18n::Language;
use urahafu::session::{
    next_second_boundary, EndReason, InputEvent, KeyKind, OverlayFade, Session, SessionCommand,
    SessionConfig, SessionPhase, HOVER_FADE_IN_NANOS, HOVER_RADIUS, UNLOCK_FADE_NANOS,
};
use urahafu::failsafe::Deadline;
use urahafu::time::{Duration, Instant};

/// A generous hit radius so tests can target the button without fussing over exact geometry
/// (22 pt and 32 pt, in hundredths of a point).
const TARGET_RADIUS: u32 = 2_200;
const TARGET_HIT_RADIUS: u32 = 3_200;
const TARGET_CENTER: Point = Point { x: 72_000, y: 80_000 };

fn now() -> Instant {
    SystemClock::new().now()
}

fn ms(n: u64) -> Duration {
    Duration::from_millis(n)
}

fn hold_fraction(num: u64, den: u64) -> Duration {
    Duration::from_nanos(HOLD_DURATION_NANOS * num / den)
}

fn config() -> SessionConfig {
    SessionConfig {
        color: CleaningColor::Black,
        failsafe: FailsafeDelay::Seconds60,
        keyboard_only: false,
        language: Language::english(),
    }
}

fn locked_session(now: Instant) -> (Session, Instant) {
    let mut session = Session::new(config(), now);
    session.set_unlock_target(TARGET_CENTER, TARGET_RADIUS, TARGET_HIT_RADIUS);
    let locked_at = now.plus(Duration::from_nanos(TOTAL_NANOS));
    session.tick(locked_at);
    (session, locked_at)
}

fn press(session: &mut Session, now: Instant) -> Vec<SessionCommand> {
    session.handle_input(
        InputEvent::PointerDown {
            x: TARGET_CENTER.x,
            y: TARGET_CENTER.y,
        },
        now,
    )
}

fn release(session: &mut Session, now: Instant) -> Vec<SessionCommand> {
    session.handle_input(
        InputEvent::PointerUp {
            x: TARGET_CENTER.x,
            y: TARGET_CENTER.y,
        },
        now,
    )
}

fn key_down(kind: KeyKind) -> InputEvent {
    InputEvent::KeyDown {
        kind,
        repeat: false,
    }
}

fn key_up(session: &mut Session, kind: KeyKind, now: Instant) -> Vec<SessionCommand> {
    session.handle_input(InputEvent::KeyUp(kind), now)
}

fn filled(session: &Session, now: Instant) -> u64 {
    session.view(now).unlock_button.unwrap().hold_filled
}

#[test]
fn starts_in_countdown() {
    let now = now();
    let session = Session::new(config(), now);
    assert_eq!(session.phase(), SessionPhase::Countdown);
    assert!(session.view(now).countdown.is_some());
    assert!(session.view(now).countdown_unlock_hint);
}

#[test]
fn escape_during_countdown_cancels() {
    let now = now();
    let mut session = Session::new(config(), now);
    let commands = session.handle_input(key_down(KeyKind::Escape), now);
    assert_eq!(commands, vec![SessionCommand::Close]);
    assert_eq!(
        session.phase(),
        SessionPhase::Finished(EndReason::Cancelled)
    );
}

#[test]
fn pointer_down_during_countdown_cancels() {
    let now = now();
    let mut session = Session::new(config(), now);
    let commands = session.handle_input(InputEvent::PointerDown { x: 0, y: 0 }, now);
    assert_eq!(commands, vec![SessionCommand::Close]);
    assert_eq!(
        session.phase(),
        SessionPhase::Finished(EndReason::Cancelled)
    );
}

#[test]
fn other_input_during_countdown_is_ignored() {
    let now = now();
    let mut session = Session::new(config(), now);
    let commands = session.handle_input(key_down(KeyKind::Other), now);
    assert!(commands.is_empty());
    assert_eq!(session.phase(), SessionPhase::Countdown);
    let commands = session.handle_input(InputEvent::Scroll, now);
    assert!(commands.is_empty());
    let commands = session.handle_input(InputEvent::PointerMoved { x: 0, y: 0 }, now);
    assert!(commands.is_empty());
    assert_eq!(session.phase(), SessionPhase::Countdown);
}

#[test]
fn hold_before_locked_is_impossible() {
    let now = now();
    let mut session = Session::new(config(), now);
    session.set_unlock_target(TARGET_CENTER, TARGET_RADIUS, TARGET_HIT_RADIUS);
    let commands = press(&mut session, now);
    assert_eq!(commands, vec![SessionCommand::Close]);
    assert_eq!(
        session.phase(),
        SessionPhase::Finished(EndReason::Cancelled)
    );
}

#[test]
fn tick_transitions_countdown_to_locked_and_blocks_inputs() {
    let now = now();
    let mut session = Session::new(config(), now);
    let before_end = now
        .plus(Duration::from_nanos(TOTAL_NANOS))
        .checked_sub(ms(1))
        .unwrap();
    assert!(session.tick(before_end).is_empty());
    assert_eq!(session.phase(), SessionPhase::Countdown);

    let at_end = now.plus(Duration::from_nanos(TOTAL_NANOS));
    let commands = session.tick(at_end);
    assert_eq!(commands, vec![SessionCommand::BlockInputs]);
    assert_eq!(session.phase(), SessionPhase::Locked);
}

#[test]
fn full_hold_completes_at_exactly_two_seconds() {
    let now = now();
    let (mut session, locked_at) = locked_session(now);
    press(&mut session, locked_at);

    let just_before = locked_at.plus(hold_fraction(1, 1)).checked_sub(ms(1)).unwrap();
    assert!(session.tick(just_before).is_empty());
    assert_eq!(session.phase(), SessionPhase::Locked);
    assert!(filled(&session, just_before) < HOLD_DURATION_NANOS);

    let at_2s = locked_at.plus(hold_fraction(1, 1));
    assert!(
        session.tick(at_2s).is_empty(),
        "completion pulse starts here, not the transition"
    );
    assert_eq!(session.phase(), SessionPhase::Locked);
    assert_eq!(filled(&session, at_2s), HOLD_DURATION_NANOS);

    let after_pulse = at_2s.plus(Duration::from_nanos(COMPLETION_SCALE_PULSE_NANOS));
    let commands = session.tick(after_pulse);
    assert_eq!(commands, vec![SessionCommand::ReleaseInputs]);
    assert_eq!(session.phase(), SessionPhase::Unlocking);

    let close_at = after_pulse.plus(Duration::from_nanos(UNLOCK_FADE_NANOS));
    let commands = session.tick(close_at);
    assert_eq!(commands, vec![SessionCommand::Close]);
    assert_eq!(session.phase(), SessionPhase::Finished(EndReason::Unlocked));
}

#[test]
fn early_release_cancels_and_drains() {
    let now = now();
    let (mut session, locked_at) = locked_session(now);
    press(&mut session, locked_at);

    let mid_hold = locked_at.plus(hold_fraction(1, 2));
    let progress_at_release = filled(&session, mid_hold);
    assert!(progress_at_release > 0 && progress_at_release < HOLD_DURATION_NANOS);

    release(&mut session, mid_hold);
    assert_eq!(session.phase(), SessionPhase::Locked);
    assert_eq!(filled(&session, mid_hold), progress_at_release);

    let mid_drain = mid_hold.plus(Duration::from_nanos(HOLD_DRAIN_NANOS / 2));
    let draining_progress = filled(&session, mid_drain);
    assert!(draining_progress > 0 && draining_progress < progress_at_release);

    let after_drain = mid_hold.plus(Duration::from_nanos(HOLD_DRAIN_NANOS));
    session.tick(after_drain);
    assert_eq!(filled(&session, after_drain), 0);
    assert_eq!(session.phase(), SessionPhase::Locked);

    // Far past 2s of wall-clock time since the original press: still locked, never unlocked.
    assert_ne!(session.phase(), SessionPhase::Unlocking);
}

#[test]
fn leaving_target_cancels_the_hold() {
    let now = now();
    let (mut session, locked_at) = locked_session(now);
    press(&mut session, locked_at);

    let mid_hold = locked_at.plus(hold_fraction(1, 2));
    // Drag far outside the hit radius.
    session.handle_input(
        InputEvent::PointerDragged {
            x: TARGET_CENTER.x + TARGET_HIT_RADIUS as i32 * 5,
            y: TARGET_CENTER.y,
        },
        mid_hold,
    );
    let progress = filled(&session, mid_hold);
    assert!(
        progress > 0,
        "drain starts from the progress at the moment of leaving"
    );

    let after_drain = mid_hold.plus(Duration::from_nanos(HOLD_DRAIN_NANOS));
    session.tick(after_drain);
    assert_eq!(filled(&session, after_drain), 0);

    let far_later = locked_at.plus(hold_fraction(3, 1));
    session.tick(far_later);
    assert_eq!(session.phase(), SessionPhase::Locked);
}

#[test]
fn dragging_while_staying_inside_the_target_does_not_cancel() {
    let now = now();
    let (mut session, locked_at) = locked_session(now);
    press(&mut session, locked_at);

    let mid_hold = locked_at.plus(hold_fraction(1, 2));
    session.handle_input(
        InputEvent::PointerDragged {
            x: TARGET_CENTER.x + 500,
            y: TARGET_CENTER.y,
        },
        mid_hold,
    );
    let progress = filled(&session, mid_hold);
    assert!(
        progress > HOLD_DURATION_NANOS / 10 * 4,
        "still holding: progress keeps advancing, not draining"
    );
}

#[test]
fn drag_in_from_outside_does_not_start_a_hold() {
    let now = now();
    let (mut session, locked_at) = locked_session(now);
    session.handle_input(
        InputEvent::PointerDragged {
            x: TARGET_CENTER.x,
            y: TARGET_CENTER.y,
        },
        locked_at,
    );
    let later = locked_at.plus(hold_fraction(1, 2));
    assert_eq!(filled(&session, later), 0);
    assert_eq!(session.phase(), SessionPhase::Locked);
}

#[test]
fn accidental_short_taps_never_unlock() {
    let now = now();
    let (mut session, locked_at) = locked_session(now);
    for i in 0..20 {
        let t = locked_at.plus(ms(i * 50));
        press(&mut session, t);
        release(&mut session, t.plus(ms(10)));
    }
    let later = locked_at.plus(Duration::from_secs(2));
    session.tick(later);
    assert_eq!(session.phase(), SessionPhase::Locked);
}

#[test]
fn failsafe_still_wins_even_mid_hold() {
    let now = now();
    let (mut session, locked_at) = locked_session(now);
    press(&mut session, locked_at);
    let mid_hold = locked_at.plus(ms(500));
    let commands = session.tick(mid_hold);
    assert!(commands.is_empty());

    let deadline = locked_at.plus(Duration::from_secs(60));
    let commands = session.tick(deadline);
    assert_eq!(commands, vec![SessionCommand::ReleaseInputs]);
    assert_eq!(session.phase(), SessionPhase::Unlocking);
}

#[test]
fn failsafe_deadline_triggers_unlocking_with_release_inputs() {
    let now = now();
    let (mut session, locked_at) = locked_session(now);
    let before_deadline = locked_at.plus(Duration::from_secs(59));
    assert!(session.tick(before_deadline).is_empty());

    let at_deadline = locked_at.plus(Duration::from_secs(60));
    let commands = session.tick(at_deadline);
    assert_eq!(commands, vec![SessionCommand::ReleaseInputs]);
    assert_eq!(session.phase(), SessionPhase::Unlocking);
}

#[test]
fn any_input_reshows_hint_while_locked() {
    let now = now();
    let (mut session, locked_at) = locked_session(now);
    let hidden_at = locked_at.plus(Duration::from_secs(10));
    assert!(!session.view(hidden_at).hint_visible(hidden_at));

    session.handle_input(key_down(KeyKind::Other), hidden_at);
    // Right at the input instant the re-show fade-in has just started (opacity 0).
    assert!(!session.view(hidden_at).hint_visible(hidden_at));
    let mid_fade_in = hidden_at.plus(ms(100));
    assert!(session.view(mid_fade_in).hint_visible(mid_fade_in));
}

#[test]
fn pointer_down_outside_target_reshows_hint_but_does_not_start_a_hold() {
    let now = now();
    let (mut session, locked_at) = locked_session(now);
    let hidden_at = locked_at.plus(Duration::from_secs(10));
    session.handle_input(
        InputEvent::PointerDown {
            x: TARGET_CENTER.x + 50_000,
            y: TARGET_CENTER.y,
        },
        hidden_at,
    );
    let mid_fade_in = hidden_at.plus(ms(100));
    assert!(session.view(mid_fade_in).hint_visible(mid_fade_in));
    assert_eq!(filled(&session, mid_fade_in), 0);
    assert_eq!(session.phase(), SessionPhase::Locked);
}

#[test]
fn scroll_reshows_hint_while_locked() {
    let now = now();
    let (mut session, locked_at) = locked_session(now);
    let hidden_at = locked_at.plus(Duration::from_secs(10));
    session.handle_input(InputEvent::Scroll, hidden_at);
    let mid_fade_in = hidden_at.plus(ms(100));
    assert!(session.view(mid_fade_in).hint_visible(mid_fade_in));
}

#[test]
fn space_advances_pixel_test_without_reshowing_hint() {
    let now = now();
    let (mut session, locked_at) = locked_session(now);
    let hidden_at = locked_at.plus(Duration::from_secs(10));
    assert!(!session.view(hidden_at).hint_visible(hidden_at));

    session.handle_input(key_down(KeyKind::Space), hidden_at);
    assert!(
        !session.view(hidden_at).hint_visible(hidden_at),
        "space alone must not reshow the hint"
    );
    assert_eq!(session.view(hidden_at).background, Rgb::new(255, 0, 0));
}

#[test]
fn space_in_keyboard_only_mode_does_not_run_pixel_test() {
    let now = now();
    let mut session = Session::new(
        SessionConfig {
            keyboard_only: true,
            ..config()
        },
        now,
    );
    let locked_at = now.plus(Duration::from_nanos(TOTAL_NANOS));
    session.tick(locked_at);
    let hidden_at = locked_at.plus(Duration::from_secs(10));
    assert!(!session.view(hidden_at).hint_visible(hidden_at));

    session.handle_input(key_down(KeyKind::Space), hidden_at);
    assert_eq!(
        session.view(hidden_at).background,
        Rgb::black(),
        "no pixel test in keyboard-only mode"
    );
    let mid_fade_in = hidden_at.plus(ms(100));
    assert!(
        session.view(mid_fade_in).hint_visible(mid_fade_in),
        "space is just another key there, and reshows the hint"
    );
}

#[test]
fn pixel_test_hides_bar_and_wordmark() {
    let now = now();
    let (mut session, locked_at) = locked_session(now);
    session.handle_input(key_down(KeyKind::Space), locked_at);
    let view = session.view(locked_at);
    assert!(view.bar.is_none());
    assert!(!view.wordmark_shown);
}

#[test]
fn pixel_step_only_shown_when_hint_visible() {
    let now = now();
    let (mut session, locked_at) = locked_session(now);
    let hidden_at = locked_at.plus(Duration::from_secs(10));
    assert!(!session.view(hidden_at).hint_visible(hidden_at));

    session.handle_input(key_down(KeyKind::Space), hidden_at);
    // Hint not visible (space doesn't reshow it): no step indicator yet.
    assert_eq!(session.view(hidden_at).pixel_step, None);

    // A real key reshows the hint while the test keeps running.
    session.handle_input(key_down(KeyKind::Other), hidden_at);
    let mid_fade_in = hidden_at.plus(ms(100));
    assert_eq!(session.view(mid_fade_in).pixel_step, Some((1, 5)));
}

#[test]
fn wordmark_disappears_after_first_input_even_if_hint_reshows() {
    let now = now();
    let (mut session, locked_at) = locked_session(now);
    let view = session.view(locked_at);
    assert!(view.wordmark_shown && view.hint_visible(locked_at));

    session.handle_input(key_down(KeyKind::Other), locked_at);
    let later = locked_at.plus(ms(500));
    assert!(!session.view(later).wordmark_shown);
    assert!(
        session.view(later).hint_visible(later),
        "hint itself does reshow"
    );
}

#[test]
fn bar_opacity_increases_in_final_ten_seconds() {
    let now = now();
    let (session, locked_at) = locked_session(now);
    let mid = locked_at.plus(Duration::from_secs(30));
    let bar = session.view(mid).bar.expect("bar present");
    assert!(!bar.emphasis);

    let near_end = locked_at.plus(Duration::from_secs(55));
    let bar = session.view(near_end).bar.expect("bar present");
    assert!(bar.emphasis);
}

#[test]
fn failsafe_deadline_is_only_some_while_locked() {
    let now = now();
    let session = Session::new(config(), now);
    assert_eq!(session.failsafe_deadline(), None);

    let (mut session, locked_at) = locked_session(now);
    let deadline = session
        .failsafe_deadline()
        .expect("deadline present while locked");
    assert_eq!(deadline, locked_at.plus(FailsafeDelay::Seconds60.duration()));

    press(&mut session, locked_at);
    session.tick(locked_at.plus(hold_fraction(1, 1)));
    session.tick(
        locked_at
            .plus(hold_fraction(1, 1))
            .plus(Duration::from_nanos(COMPLETION_SCALE_PULSE_NANOS)),
    );
    assert_eq!(
        session.failsafe_deadline(),
        None,
        "no deadline once unlocking"
    );
}

#[test]
fn next_wake_is_none_once_finished() {
    let now = now();
    let mut session = Session::new(config(), now);
    session.handle_input(key_down(KeyKind::Escape), now);
    assert!(session.next_wake(now).is_none());
}

#[test]
fn next_wake_during_countdown_is_animation_paced() {
    let now = now();
    let session = Session::new(config(), now);
    let wake = session.next_wake(now).expect("should wake soon");
    assert!(now.plus(ms(16)).is_at_or_after(wake));
}

#[test]
fn next_wake_while_locked_is_bounded_by_deadline() {
    let now = now();
    let (session, locked_at) = locked_session(now);
    let wake = session
        .next_wake(locked_at)
        .expect("should wake before the deadline");
    assert!(locked_at
        .plus(FailsafeDelay::Seconds60.duration())
        .is_at_or_after(wake));
}

#[test]
fn keyboard_only_flag_is_passed_through_to_view() {
    let now = now();
    let session = Session::new(
        SessionConfig {
            keyboard_only: true,
            ..config()
        },
        now,
    );
    assert!(session.view(now).keyboard_only);
}

#[test]
fn repeated_hold_after_unlocking_is_a_no_op() {
    let now = now();
    let (mut session, locked_at) = locked_session(now);
    press(&mut session, locked_at);
    session.tick(locked_at.plus(hold_fraction(1, 1)));
    let after_pulse = locked_at
        .plus(hold_fraction(1, 1))
        .plus(Duration::from_nanos(COMPLETION_SCALE_PULSE_NANOS));
    session.tick(after_pulse);
    assert_eq!(session.phase(), SessionPhase::Unlocking);
    let commands = press(&mut session, after_pulse);
    assert!(commands.is_empty());
    assert_eq!(session.phase(), SessionPhase::Unlocking);
}

#[test]
fn pixel_test_unaffected_by_hold_state() {
    let now = now();
    let (mut session, locked_at) = locked_session(now);
    for _ in 0..5 {
        session.handle_input(key_down(KeyKind::Space), locked_at);
    }
    assert_eq!(session.view(locked_at).background, Rgb::new(0, 0, 0));
    press(&mut session, locked_at);
    assert_eq!(session.view(locked_at).background, Rgb::new(0, 0, 0));
}

#[test]
fn combo_hold_unlocks_like_the_button() {
    let now = now();
    let (mut session, locked_at) = locked_session(now);
    session.handle_input(key_down(KeyKind::Escape), locked_at);
    session.handle_input(key_down(KeyKind::Return), locked_at);

    let at_2s = locked_at.plus(hold_fraction(1, 1));
    assert!(session.tick(at_2s).is_empty(), "completion pulse first");
    assert_eq!(session.phase(), SessionPhase::Locked);

    let after_pulse = at_2s.plus(Duration::from_nanos(COMPLETION_SCALE_PULSE_NANOS));
    let commands = session.tick(after_pulse);
    assert_eq!(commands, vec![SessionCommand::ReleaseInputs]);
    assert_eq!(session.phase(), SessionPhase::Unlocking);
}

#[test]
fn combo_start_order_of_the_two_keys_does_not_matter() {
    let now = now();
    let (mut session, locked_at) = locked_session(now);
    session.handle_input(key_down(KeyKind::Return), locked_at);
    session.handle_input(key_down(KeyKind::Escape), locked_at);
    let mid = locked_at.plus(hold_fraction(1, 2));
    assert!(filled(&session, mid) > 0);
}

#[test]
fn combo_release_before_completion_never_unlocks() {
    let now = now();
    let (mut session, locked_at) = locked_session(now);
    session.handle_input(key_down(KeyKind::Escape), locked_at);
    session.handle_input(key_down(KeyKind::Return), locked_at);

    let mid_hold = locked_at.plus(hold_fraction(1, 2));
    key_up(&mut session, KeyKind::Escape, mid_hold);

    let past_original_duration = locked_at.plus(hold_fraction(1, 1)).plus(ms(1));
    session.tick(past_original_duration);
    assert_eq!(session.phase(), SessionPhase::Locked);
}

#[test]
fn combo_extra_key_down_resets_progress() {
    let now = now();
    let (mut session, locked_at) = locked_session(now);
    session.handle_input(key_down(KeyKind::Escape), locked_at);
    session.handle_input(key_down(KeyKind::Return), locked_at);
    let mid = locked_at.plus(hold_fraction(1, 2));
    assert!(filled(&session, mid) > 0);

    // A third key going down (including Space) resets it.
    session.handle_input(key_down(KeyKind::Space), mid);
    session.tick(mid.plus(ms(250)));
    assert_eq!(filled(&session, mid.plus(ms(250))), 0);
    assert_eq!(session.phase(), SessionPhase::Locked);
}

#[test]
fn combo_extra_key_release_lets_the_hold_restart() {
    let now = now();
    let (mut session, locked_at) = locked_session(now);
    session.handle_input(key_down(KeyKind::Escape), locked_at);
    session.handle_input(key_down(KeyKind::Return), locked_at);
    let mid = locked_at.plus(hold_fraction(1, 2));
    session.handle_input(key_down(KeyKind::Other), mid);
    let drained = mid.plus(ms(250));
    session.tick(drained);

    key_up(&mut session, KeyKind::Other, drained);
    let later = drained.plus(hold_fraction(1, 2));
    assert!(filled(&session, later) > 0);
}

#[test]
fn combo_modifier_change_resets_and_blocks_restart_until_fresh_press() {
    let now = now();
    let (mut session, locked_at) = locked_session(now);
    session.handle_input(key_down(KeyKind::Escape), locked_at);
    session.handle_input(key_down(KeyKind::Return), locked_at);
    let mid = locked_at.plus(hold_fraction(1, 2));
    assert!(filled(&session, mid) > 0);

    session.handle_input(InputEvent::ModifierChange, mid);
    let much_later = mid.plus(hold_fraction(3, 1));
    session.tick(much_later);
    assert_eq!(
        filled(&session, much_later),
        0,
        "Esc and Return never went up, but a modifier pulse must still block the combo from \
         silently resuming"
    );
    assert_eq!(session.phase(), SessionPhase::Locked);

    // Releasing and re-pressing Return clears the block.
    key_up(&mut session, KeyKind::Return, much_later);
    let repress_at = much_later.plus(ms(1));
    session.handle_input(key_down(KeyKind::Return), repress_at);
    let after_repress = repress_at.plus(hold_fraction(1, 2));
    assert!(filled(&session, after_repress) > 0);
}

#[test]
fn combo_autorepeat_of_the_second_key_is_ignored() {
    let now = now();
    let (mut session, locked_at) = locked_session(now);
    session.handle_input(key_down(KeyKind::Escape), locked_at);
    session.handle_input(
        InputEvent::KeyDown {
            kind: KeyKind::Return,
            repeat: true,
        },
        locked_at,
    );
    let later = locked_at.plus(ms(500));
    assert_eq!(
        filled(&session, later),
        0,
        "a repeat must never count as the key becoming held"
    );

    session.handle_input(key_down(KeyKind::Return), later);
    let mid = later.plus(hold_fraction(1, 2));
    session.handle_input(
        InputEvent::KeyDown {
            kind: KeyKind::Return,
            repeat: true,
        },
        mid,
    );
    assert!(filled(&session, mid) > 0);
}

#[test]
fn combo_failsafe_still_fires_independent_of_a_partial_hold() {
    let now = now();
    let mut session = Session::new(config(), now);
    session.set_unlock_target(TARGET_CENTER, TARGET_RADIUS, TARGET_HIT_RADIUS);
    let locked_at = now.plus(Duration::from_nanos(TOTAL_NANOS));
    session.tick(locked_at);

    session.handle_input(key_down(KeyKind::Escape), locked_at);
    session.handle_input(key_down(KeyKind::Return), locked_at);
    let mid_hold = locked_at.plus(ms(500));
    assert!(session.tick(mid_hold).is_empty());

    let deadline = locked_at.plus(FailsafeDelay::Seconds60.duration());
    let commands = session.tick(deadline);
    assert_eq!(commands, vec![SessionCommand::ReleaseInputs]);
    assert_eq!(session.phase(), SessionPhase::Unlocking);
}

#[test]
fn combo_and_pointer_hold_progress_combine_as_the_max() {
    let now = now();
    let (mut session, locked_at) = locked_session(now);

    // Pointer hold alone, to exactly 25%.
    press(&mut session, locked_at);
    let quarter_point = locked_at.plus(hold_fraction(1, 4));
    assert_eq!(filled(&session, quarter_point), HOLD_DURATION_NANOS / 4);

    // The combo starts at the same instant the pointer hold began.
    session.handle_input(key_down(KeyKind::Escape), locked_at);
    session.handle_input(key_down(KeyKind::Return), locked_at);
    assert_eq!(filled(&session, quarter_point), HOLD_DURATION_NANOS / 4);

    // Release the pointer hold (it starts draining) while the combo keeps going.
    release(&mut session, quarter_point);
    let three_quarter_point = locked_at.plus(hold_fraction(3, 4));
    assert_eq!(
        filled(&session, three_quarter_point),
        HOLD_DURATION_NANOS / 4 * 3,
        "expected the still-active combo's progress to win the max over the draining pointer ring"
    );
}

#[test]
fn hover_reveal_radius_boundaries() {
    let now = now();
    let (mut session, locked_at) = locked_session(now);
    let hidden_at = locked_at.plus(Duration::from_secs(10));
    assert!(!session.view(hidden_at).hint_visible(hidden_at));

    // Just inside the hover radius (one point short of it).
    session.handle_input(
        InputEvent::PointerMoved {
            x: TARGET_CENTER.x + HOVER_RADIUS as i32 - 100,
            y: TARGET_CENTER.y,
        },
        hidden_at,
    );
    assert_eq!(session.view(hidden_at).hover_since, Some(hidden_at));
    let fully_faded_in = hidden_at.plus(Duration::from_nanos(HOVER_FADE_IN_NANOS));
    assert!(session.view(fully_faded_in).hint_visible(fully_faded_in));

    // Stays visible arbitrarily long while still hovering.
    let much_later = fully_faded_in.plus(Duration::from_secs(10));
    assert!(session.view(much_later).hint_visible(much_later));
    assert_eq!(session.view(much_later).hover_since, Some(hidden_at));

    // Move outside the hover radius: starts the normal reshow hold+fade timeline from there.
    session.handle_input(
        InputEvent::PointerMoved {
            x: TARGET_CENTER.x + HOVER_RADIUS as i32 + 5_000,
            y: TARGET_CENTER.y,
        },
        much_later,
    );
    let view = session.view(much_later);
    assert_eq!(view.hover_since, None);
    assert!(matches!(view.hint, Some(HintStage::Hold { start, .. }) if start == much_later));
    assert!(view.hint_visible(much_later));
    let long_after_leaving = much_later.plus(Duration::from_secs(10));
    assert!(!session.view(long_after_leaving).hint_visible(long_after_leaving));
}

#[test]
fn the_locked_view_reports_the_remaining_time() {
    let t0 = Instant::from_nanos(0);
    let (session, locked_at) = locked_session(t0);
    let v = session.view(locked_at.plus(ms(500)));
    assert_eq!(v.remaining_secs, 60);
    let bar = v.bar.unwrap();
    assert_eq!(bar.total, Duration::from_secs(60));
    assert_eq!(bar.remaining, Duration::from_millis(59_500));
    assert!(matches!(v.hint, Some(HintStage::Hold { .. })));
    assert_eq!(v.overlay, OverlayFade::Opaque);
    assert_eq!(v.ink, Rgb::white());
}

#[test]
fn unlocking_fades_the_overlay_then_finishes() {
    let t0 = Instant::from_nanos(0);
    let (mut session, locked_at) = locked_session(t0);
    let deadline = locked_at.plus(Duration::from_secs(60));
    session.tick(deadline);
    assert_eq!(
        session.view(deadline.plus(ms(100))).overlay,
        OverlayFade::FadingOut { elapsed: ms(100) }
    );
    assert!(session.tick(deadline.plus(ms(299))).is_empty());
    assert_eq!(session.tick(deadline.plus(ms(300))), vec![SessionCommand::Close]);
    assert_eq!(session.phase(), SessionPhase::Finished(EndReason::Failsafe));
    assert_eq!(session.view(deadline.plus(ms(300))).overlay, OverlayFade::Gone);
}

#[test]
fn next_second_boundary_is_when_the_shown_seconds_change() {
    let deadline = Deadline::new(Instant::from_nanos(0), Duration::from_secs(60));
    assert_eq!(
        next_second_boundary(deadline, Instant::from_nanos(500_000_000)),
        Instant::from_nanos(1_000_000_000)
    );
    assert_eq!(
        next_second_boundary(deadline, Instant::from_nanos(1_000_000_000)),
        Instant::from_nanos(2_000_000_000)
    );
    assert_eq!(
        next_second_boundary(deadline, Instant::from_nanos(70_000_000_000)),
        Instant::from_nanos(60_000_000_000)
    );
}

#[test]
fn a_tick_after_the_hint_fades_leaves_no_overdue_wake() {
    let t0 = Instant::from_nanos(1_000_000_000);
    let (mut session, locked_at) = locked_session(t0);
    let later = locked_at.plus(Duration::from_secs(8));
    assert_eq!(session.next_wake(later), Some(later));
    session.tick(later);
    let wake = session.next_wake(later).expect("still locked");
    assert!(wake.as_nanos() > later.as_nanos());
    assert!(matches!(session.view(later).hint, Some(HintStage::Hidden)));
}
