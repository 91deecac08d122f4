use urahafu::color::Rgb;
use urahafu::pixel_test::{PixelTest, PixelTestStep};

#[test]
fn cycles_through_all_steps_and_back_to_off() {
    let mut test = PixelTest::new();
    assert_eq!(test.step(), PixelTestStep::Off);

    let expected = [
        PixelTestStep::Red,
        PixelTestStep::Green,
        PixelTestStep::Blue,
        PixelTestStep::White,
        PixelTestStep::Black,
        PixelTestStep::Off,
    ];
    for step in expected {
        test.advance();
        assert_eq!(test.step(), step);
    }
}

#[test]
fn colors_match_design() {
    assert_eq!(PixelTestStep::Red.color(), Some(Rgb::new(255, 0, 0)));
    assert_eq!(PixelTestStep::Green.color(), Some(Rgb::new(0, 255, 0)));
    assert_eq!(PixelTestStep::Blue.color(), Some(Rgb::new(0, 0, 255)));
    assert_eq!(PixelTestStep::White.color(), Some(Rgb::new(255, 255, 255)));
    assert_eq!(PixelTestStep::Black.color(), Some(Rgb::new(0, 0, 0)));
    assert_eq!(PixelTestStep::Off.color(), None);
}

#[test]
fn step_indicator_matches_design() {
    assert_eq!(PixelTestStep::Red.step_indicator(), Some((1, 5)));
    assert_eq!(PixelTestStep::Green.step_indicator(), Some((2, 5)));
    assert_eq!(PixelTestStep::Blue.step_indicator(), Some((3, 5)));
    assert_eq!(PixelTestStep::White.step_indicator(), Some((4, 5)));
    assert_eq!(PixelTestStep::Black.step_indicator(), Some((5, 5)));
    assert_eq!(PixelTestStep::Off.step_indicator(), None);
}

#[test]
fn is_running_is_false_only_when_off() {
    assert!(!PixelTestStep::Off.is_running());
    assert!(PixelTestStep::Red.is_running());
    assert!(PixelTestStep::Black.is_running());
}

#[test]
fn reset_returns_to_off() {
    let mut test = PixelTest::new();
    test.advance();
    test.advance();
    assert_ne!(test.step(), PixelTestStep::Off);
    test.reset();
    assert_eq!(test.step(), PixelTestStep::Off);
}

#[test]
fn six_advances_return_to_any_starting_step() {
    let mut test = PixelTest::default();
    test.advance();
    test.advance();
    let start = test.step();
    for _ in 0..6 {
        test.advance();
    }
    assert_eq!(test.step(), start);
    assert_eq!(PixelTestStep::default(), PixelTestStep::Off);
    assert_eq!(PixelTestStep::Black.next(), PixelTestStep::Off);
}
