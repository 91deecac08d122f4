use urahafu::color::CleaningColor;
use urahafu::failsafe::FailsafeDelay;
use urahafu::settings::{parse_bool, Settings};

#[test]
fn default_settings_match_design() {
    let settings = Settings::default();
    assert_eq!(settings.color, CleaningColor::Black);
    assert_eq!(settings.failsafe, FailsafeDelay::Seconds60);
    assert!(!settings.keyboard_only);
    assert!(settings.show_menu_bar_icon);
}

#[test]
fn parse_round_trips_through_serialize() {
    let settings = Settings {
        color: CleaningColor::White,
        failsafe: FailsafeDelay::Seconds30,
        keyboard_only: true,
        show_menu_bar_icon: false,
    };
    let parsed = Settings::parse(&settings.serialize());
    assert_eq!(parsed, settings);
}

#[test]
fn parse_falls_back_to_defaults_for_garbage_values() {
    let contents = "color = purple\nfailsafe_seconds = 12\nkeyboard_only = maybe\nshow_menu_bar_icon = nope\n";
    let settings = Settings::parse(contents);
    assert_eq!(settings, Settings::default());
}

#[test]
fn parse_ignores_missing_keys() {
    let settings = Settings::parse("color = white\n");
    assert_eq!(settings.color, CleaningColor::White);
    assert_eq!(settings.failsafe, FailsafeDelay::Seconds60);
}

#[test]
fn parse_ignores_unknown_keys() {
    let settings = Settings::parse("color = white\nfrobnicate = yes\n");
    assert_eq!(settings.color, CleaningColor::White);
}

#[test]
fn parse_empty_file_gives_defaults() {
    assert_eq!(Settings::parse(""), Settings::default());
}

#[test]
fn parse_accepts_crlf_line_endings() {
    let contents = "color = white\r\nkeyboard_only = true\r\n";
    let settings = Settings::parse(contents);
    assert_eq!(settings.color, CleaningColor::White);
    assert!(settings.keyboard_only);
}

#[test]
fn parse_tolerates_surrounding_whitespace_and_comments() {
    let contents = "  color   =   white  \n# a comment\n\nkeyboard_only=true\n";
    let settings = Settings::parse(contents);
    assert_eq!(settings.color, CleaningColor::White);
    assert!(settings.keyboard_only);
}

#[test]
fn parse_ignores_lines_without_equals() {
    let settings = Settings::parse("this is not a valid line\ncolor = white\n");
    assert_eq!(settings.color, CleaningColor::White);
}

#[test]
fn default_path_joins_home() {
    let home = "/Users/example";
    let path = Settings::default_path(home);
    assert_eq!(
        path,
        "/Users/example/Library/Application Support/Urahafu/settings.conf"
    );
}

#[test]
fn parse_ignores_the_removed_welcome_seen_key() {
    let settings = Settings::parse("color = white\nwelcome_seen = true\n");
    assert_eq!(settings.color, CleaningColor::White);
}

#[test]
fn every_settings_value_round_trips() {
    for color in [CleaningColor::Black, CleaningColor::White] {
        for failsafe in [
            FailsafeDelay::Seconds30,
            FailsafeDelay::Seconds60,
            FailsafeDelay::Seconds90,
        ] {
            for keyboard_only in [false, true] {
                for show_menu_bar_icon in [false, true] {
                    let s = Settings { color, failsafe, keyboard_only, show_menu_bar_icon };
                    assert_eq!(Settings::parse(&s.serialize()), s);
                }
            }
        }
    }
}

#[test]
fn serialize_writes_one_key_value_line_per_setting() {
    let text = Settings::default().serialize();
    assert_eq!(
        text,
        "color = black\nfailsafe_seconds = 60\nkeyboard_only = false\nshow_menu_bar_icon = true\n"
    );
}

#[test]
fn later_lines_override_earlier_ones_and_bad_values_keep_the_last_good_one() {
    let s = Settings::parse("failsafe_seconds = 30\nfailsafe_seconds = 90\nfailsafe_seconds = 45\n");
    assert_eq!(s.failsafe, FailsafeDelay::Seconds90);
}

#[test]
fn failsafe_seconds_accepts_only_30_60_or_90() {
    assert_eq!(Settings::parse("failsafe_seconds = 90").failsafe, FailsafeDelay::Seconds90);
    assert_eq!(Settings::parse("failsafe_seconds = 090").failsafe, FailsafeDelay::Seconds90);
    assert_eq!(Settings::parse("failsafe_seconds = -30").failsafe, FailsafeDelay::Seconds60);
    assert_eq!(
        Settings::parse("failsafe_seconds = 99999999999999999999999").failsafe,
        FailsafeDelay::Seconds60
    );
}

#[test]
fn parse_bool_is_case_sensitive() {
    assert_eq!(parse_bool("true"), Some(true));
    assert_eq!(parse_bool("false"), Some(false));
    assert_eq!(parse_bool("True"), None);
    assert_eq!(parse_bool(""), None);
}

#[test]
fn a_comment_line_with_equals_is_still_ignored() {
    let s = Settings::parse("# color = white\n");
    assert_eq!(s.color, CleaningColor::Black);
}
