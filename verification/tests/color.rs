use urahafu::color::{ink_for, CleaningColor, Rgb};

#[test]
fn ink_is_white_on_black() {
    assert_eq!(ink_for(Rgb::black()), Rgb::white());
}

#[test]
fn ink_is_black_on_white() {
    assert_eq!(ink_for(Rgb::white()), Rgb::black());
}

#[test]
fn ink_is_white_on_red_blue_black() {
    assert_eq!(ink_for(Rgb::new(255, 0, 0)), Rgb::white());
    assert_eq!(ink_for(Rgb::new(0, 0, 255)), Rgb::white());
}

#[test]
fn ink_is_black_on_green_and_white() {
    assert_eq!(ink_for(Rgb::new(0, 255, 0)), Rgb::black());
    assert_eq!(ink_for(Rgb::white()), Rgb::black());
}

#[test]
fn cleaning_color_round_trips_through_settings_string() {
    for color in [CleaningColor::Black, CleaningColor::White] {
        let s = color.as_setting_str();
        assert_eq!(CleaningColor::from_setting_str(s), Some(color));
    }
}

#[test]
fn cleaning_color_rejects_unknown_strings() {
    assert_eq!(CleaningColor::from_setting_str("blue"), None);
    assert_eq!(CleaningColor::from_setting_str(""), None);
}

#[test]
fn default_cleaning_color_is_black() {
    assert_eq!(CleaningColor::default(), CleaningColor::Black);
}

#[test]
fn to_u32_packs_00rrggbb() {
    assert_eq!(Rgb::new(0x11, 0x22, 0x33).to_u32(), 0x0011_2233);
}

#[test]
fn display_formats_as_hex() {
    assert_eq!(Rgb::new(0, 128, 255).to_hex_string(), "#0080FF");
}

#[test]
fn luminance_threshold_is_the_midpoint() {
    assert!(!Rgb::black().is_light());
    assert!(Rgb::white().is_light());
    // 0.299 * 255 = 76.2: pure red is dark, pure green (149.7) is light.
    assert!(!Rgb::new(255, 0, 0).is_light());
    assert!(Rgb::new(0, 255, 0).is_light());
    // Mid grey 128 is just above the midpoint, 127 just below.
    assert!(Rgb::new(128, 128, 128).is_light());
    assert!(!Rgb::new(127, 127, 127).is_light());
}

#[test]
fn cleaning_colors_fill_black_and_white() {
    assert_eq!(CleaningColor::Black.rgb(), Rgb::new(0, 0, 0));
    assert_eq!(CleaningColor::White.rgb(), Rgb::new(255, 255, 255));
    assert_eq!(CleaningColor::Black.as_setting_str(), "black");
    assert_eq!(CleaningColor::White.as_setting_str(), "white");
    assert_eq!(CleaningColor::from_setting_str("White"), None);
}

#[test]
fn from_u32_unpacks_what_to_u32_packs() {
    let c = Rgb::new(0xAB, 0x01, 0xFE);
    assert_eq!(Rgb::from_u32(c.to_u32()), c);
    assert_eq!(Rgb::from_u32(0xFF11_2233), Rgb::new(0x11, 0x22, 0x33));
}

#[test]
fn hex_string_uses_uppercase_digits_and_pads() {
    assert_eq!(Rgb::new(10, 171, 0).to_hex_string(), "#0AAB00");
    assert_eq!(Rgb::default().to_hex_string(), "#000000");
}
