use urahafu::color::CleaningColor;
use urahafu::failsafe::FailsafeDelay;
use urahafu::window_command::{
    close_action, command_for_action, failsafe_for_segment, menu_tag, segment_for_failsafe, tag,
    ActionId, CloseAction, WindowCommand,
};

#[test]
fn tag_maps_to_the_matching_command() {
    assert_eq!(
        command_for_action(ActionId::Tag(tag::GRANT_ACCESS)),
        Some(WindowCommand::GrantAccess)
    );
    assert_eq!(
        command_for_action(ActionId::Tag(tag::COLOR_BLACK)),
        Some(WindowCommand::SetColor(CleaningColor::Black))
    );
    assert_eq!(
        command_for_action(ActionId::Tag(tag::COLOR_WHITE)),
        Some(WindowCommand::SetColor(CleaningColor::White))
    );
    assert_eq!(
        command_for_action(ActionId::Tag(tag::FAILSAFE)),
        Some(WindowCommand::SetFailsafe)
    );
    assert_eq!(
        command_for_action(ActionId::Tag(tag::KEYBOARD_ONLY)),
        Some(WindowCommand::ToggleKeyboardOnly)
    );
    assert_eq!(
        command_for_action(ActionId::Tag(tag::SHOW_ICON)),
        Some(WindowCommand::ToggleShowIcon)
    );
    assert_eq!(
        command_for_action(ActionId::Tag(tag::OPEN_AT_LOGIN)),
        Some(WindowCommand::ToggleLogin)
    );
    assert_eq!(
        command_for_action(ActionId::Tag(tag::ABOUT)),
        Some(WindowCommand::About)
    );
    assert_eq!(
        command_for_action(ActionId::Tag(tag::CLEAN)),
        Some(WindowCommand::Clean)
    );
    assert_eq!(
        command_for_action(ActionId::Tag(tag::ESCAPE_CLOSE)),
        Some(WindowCommand::Close)
    );
    assert_eq!(
        command_for_action(ActionId::Tag(menu_tag::OPEN_SETTINGS)),
        Some(WindowCommand::ShowSettings)
    );
    assert_eq!(
        command_for_action(ActionId::Tag(menu_tag::QUIT)),
        Some(WindowCommand::Quit)
    );
}

#[test]
fn menu_tags_do_not_collide_with_settings_window_tags() {
    let settings_window_tags = [
        tag::GRANT_ACCESS,
        tag::COLOR_BLACK,
        tag::FAILSAFE,
        tag::KEYBOARD_ONLY,
        tag::SHOW_ICON,
        tag::OPEN_AT_LOGIN,
        tag::ABOUT,
        tag::CLEAN,
        tag::ESCAPE_CLOSE,
        tag::COLOR_WHITE,
    ];
    assert!(!settings_window_tags.contains(&menu_tag::OPEN_SETTINGS));
    assert!(!settings_window_tags.contains(&menu_tag::QUIT));
    assert_ne!(menu_tag::OPEN_SETTINGS, menu_tag::QUIT);
}

#[test]
fn unknown_tag_is_none() {
    assert_eq!(command_for_action(ActionId::Tag(-1)), None);
}

#[test]
fn close_maps_to_close() {
    assert_eq!(
        command_for_action(ActionId::Close),
        Some(WindowCommand::Close)
    );
}

#[test]
fn reopen_is_not_a_window_command() {
    assert_eq!(command_for_action(ActionId::Reopen), None);
}

#[test]
fn close_action_hides_when_tray_is_visible() {
    assert_eq!(close_action(true), CloseAction::Hide);
}

#[test]
fn close_action_quits_when_tray_is_hidden() {
    assert_eq!(close_action(false), CloseAction::Quit);
}

#[test]
fn failsafe_order_is_ascending() {
    assert_eq!(failsafe_for_segment(0), FailsafeDelay::Seconds30);
    assert_eq!(failsafe_for_segment(1), FailsafeDelay::Seconds60);
    assert_eq!(failsafe_for_segment(2), FailsafeDelay::Seconds90);
}

#[test]
fn tags_are_all_distinct() {
    let tags = [
        tag::GRANT_ACCESS,
        tag::COLOR_BLACK,
        tag::FAILSAFE,
        tag::KEYBOARD_ONLY,
        tag::SHOW_ICON,
        tag::OPEN_AT_LOGIN,
        tag::ABOUT,
        tag::CLEAN,
        tag::ESCAPE_CLOSE,
        tag::COLOR_WHITE,
    ];
    for (i, a) in tags.iter().enumerate() {
        for b in &tags[i + 1..] {
            assert_ne!(a, b, "duplicate tag value {a}");
        }
    }
}

#[test]
fn every_known_tag_decodes_to_a_distinct_command() {
    let tags = [
        tag::GRANT_ACCESS,
        tag::COLOR_BLACK,
        tag::FAILSAFE,
        tag::KEYBOARD_ONLY,
        tag::SHOW_ICON,
        tag::OPEN_AT_LOGIN,
        tag::ABOUT,
        tag::CLEAN,
        tag::ESCAPE_CLOSE,
        tag::COLOR_WHITE,
        menu_tag::OPEN_SETTINGS,
        menu_tag::QUIT,
    ];
    let commands: Vec<WindowCommand> = tags
        .iter()
        .map(|&t| command_for_action(ActionId::Tag(t)).expect("known tag"))
        .collect();
    for (i, a) in commands.iter().enumerate() {
        for b in &commands[i + 1..] {
            assert_ne!(a, b);
        }
    }
}

#[test]
fn segments_and_delays_round_trip() {
    for d in [
        FailsafeDelay::Seconds30,
        FailsafeDelay::Seconds60,
        FailsafeDelay::Seconds90,
    ] {
        let i = segment_for_failsafe(d);
        assert_eq!(failsafe_for_segment(i as isize), d);
    }
    assert_eq!(segment_for_failsafe(FailsafeDelay::Seconds90), 2);
}

#[test]
fn no_selection_falls_back_to_sixty_seconds() {
    assert_eq!(failsafe_for_segment(-1), FailsafeDelay::Seconds60);
    assert_eq!(failsafe_for_segment(3), FailsafeDelay::Seconds60);
}
