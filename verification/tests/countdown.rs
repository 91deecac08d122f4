use urahafu::countdown::{Countdown, DigitTiming, TOTAL_NANOS};
use urahafu::time::Duration;

#[test]
fn third_digit_is_one() {
    let view = Countdown::new().digit_at(Duration::from_millis(2500)).unwrap();
    assert_eq!(view.digit, 1);
}

#[test]
fn finished_exactly_at_three_seconds() {
    let countdown = Countdown::new();
    assert!(!countdown.is_finished(Duration::from_millis(2999)));
    assert!(countdown.is_finished(Duration::from_secs(3)));
    assert!(countdown.digit_at(Duration::from_secs(3)).is_none());
}

#[test]
fn finished_well_past_the_end() {
    let countdown = Countdown::new();
    assert!(countdown.is_finished(Duration::from_secs(10)));
    assert!(countdown.digit_at(Duration::from_secs(10)).is_none());
}

#[test]
fn digits_count_down_one_per_second() {
    let countdown = Countdown::default();
    assert_eq!(
        countdown.digit_at(Duration::zero()),
        Some(DigitTiming { digit: 3, into_digit: Duration::zero() })
    );
    assert_eq!(
        countdown.digit_at(Duration::from_millis(999)),
        Some(DigitTiming { digit: 3, into_digit: Duration::from_millis(999) })
    );
    assert_eq!(
        countdown.digit_at(Duration::from_millis(1000)),
        Some(DigitTiming { digit: 2, into_digit: Duration::zero() })
    );
    assert_eq!(
        countdown.digit_at(Duration::from_nanos(TOTAL_NANOS - 1)),
        Some(DigitTiming { digit: 1, into_digit: Duration::from_nanos(999_999_999) })
    );
    assert_eq!(Countdown::total(), Duration::from_secs(3));
}
