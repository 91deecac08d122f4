use urahafu::color::{hud_colors, Appearance, CleaningColor, Rgb};
use urahafu::controller::{
    about_effect, block_error_effect, error_alert, idle_poll, overlay_mode, return_from_clean,
    session_config, shows_window_at_start, window_command_effect, AppAction, CleanOrigin,
    ControlValues, ErrorAlert, OverlayMode,
};
use urahafu::failsafe::FailsafeDelay;
use urahafu::i18n::Language;
use urahafu::input::BlockError;
use urahafu::settings::Settings;
use urahafu::time::Duration;
use urahafu::window_command::WindowCommand;

fn controls(show_icon: bool) -> Option<ControlValues> {
    Some(ControlValues { failsafe: FailsafeDelay::Seconds90, keyboard_only: true, show_icon })
}

#[test]
fn a_color_swatch_changes_and_saves_the_color() {
    let (s, actions) = window_command_effect(
        WindowCommand::SetColor(CleaningColor::White),
        Settings::default(),
        true,
        true,
        None,
    );
    assert_eq!(s.color, CleaningColor::White);
    assert_eq!(actions, vec![AppAction::SaveSettings]);
}

#[test]
fn control_changes_read_the_window_and_do_nothing_without_one() {
    let d = Settings::default();
    let (s, a) = window_command_effect(WindowCommand::SetFailsafe, d, true, true, controls(true));
    assert_eq!(s.failsafe, FailsafeDelay::Seconds90);
    assert_eq!(a, vec![AppAction::SaveSettings]);
    let (s, a) = window_command_effect(WindowCommand::ToggleKeyboardOnly, d, true, true, controls(true));
    assert!(s.keyboard_only);
    assert_eq!(a, vec![AppAction::SaveSettings]);
    let (s, a) = window_command_effect(WindowCommand::SetFailsafe, d, true, true, None);
    assert_eq!(s, d);
    assert!(a.is_empty());
}

#[test]
fn hiding_the_icon_drops_the_tray_and_the_login_item() {
    let (s, a) = window_command_effect(WindowCommand::ToggleShowIcon, Settings::default(), true, true, controls(false));
    assert!(!s.show_menu_bar_icon);
    assert_eq!(a, vec![AppAction::DropTray, AppAction::DisableLoginItem, AppAction::SaveSettings]);
}

#[test]
fn showing_the_icon_creates_the_tray_only_if_missing() {
    let hidden = Settings { show_menu_bar_icon: false, ..Settings::default() };
    let (s, a) = window_command_effect(WindowCommand::ToggleShowIcon, hidden, true, false, controls(true));
    assert!(s.show_menu_bar_icon);
    assert_eq!(a, vec![AppAction::CreateTray, AppAction::SaveSettings]);
    let (_, a) = window_command_effect(WindowCommand::ToggleShowIcon, hidden, true, true, controls(true));
    assert_eq!(a, vec![AppAction::SaveSettings]);
}

#[test]
fn clean_from_the_window_hides_it_and_starts_only_when_idle() {
    let d = Settings::default();
    let (_, a) = window_command_effect(WindowCommand::Clean, d, true, true, None);
    assert_eq!(a, vec![AppAction::HideWindow, AppAction::StartClean(CleanOrigin::Window)]);
    let (_, a) = window_command_effect(WindowCommand::Clean, d, false, true, None);
    assert!(a.is_empty());
}

#[test]
fn closing_the_window_hides_it_with_an_icon_and_quits_without() {
    let d = Settings::default();
    assert_eq!(window_command_effect(WindowCommand::Close, d, true, true, None).1, vec![AppAction::HideWindow]);
    assert_eq!(window_command_effect(WindowCommand::Close, d, true, false, None).1, vec![AppAction::Quit]);
}

#[test]
fn the_remaining_commands_map_to_one_action_each() {
    let d = Settings::default();
    for (cmd, action) in [
        (WindowCommand::GrantAccess, AppAction::OpenAccessibilitySettings),
        (WindowCommand::ToggleLogin, AppAction::ToggleLoginItem),
        (WindowCommand::About, AppAction::ShowAbout),
        (WindowCommand::ShowSettings, AppAction::PresentWindow),
        (WindowCommand::Quit, AppAction::Quit),
    ] {
        let (s, a) = window_command_effect(cmd, d, true, true, None);
        assert_eq!(s, d);
        assert_eq!(a, vec![action]);
    }
}

#[test]
fn a_failed_attempt_returns_to_where_it_started() {
    assert_eq!(return_from_clean(CleanOrigin::Window), vec![AppAction::PresentWindow]);
    assert!(return_from_clean(CleanOrigin::Tray).is_empty());
}

#[test]
fn missing_permission_offers_settings_then_ends_the_attempt() {
    assert_eq!(error_alert(BlockError::PermissionDenied), ErrorAlert::PermissionRequired);
    assert_eq!(
        block_error_effect(BlockError::PermissionDenied, 0, CleanOrigin::Window),
        vec![AppAction::OpenAccessibilitySettings, AppAction::PresentWindow]
    );
    assert!(block_error_effect(BlockError::PermissionDenied, 1, CleanOrigin::Tray).is_empty());
}

#[test]
fn secure_input_and_tap_failures_offer_a_retry() {
    assert_eq!(error_alert(BlockError::SecureInputActive), ErrorAlert::SecureInput);
    assert_eq!(error_alert(BlockError::TapCreationFailed), ErrorAlert::TapFailed);
    assert_eq!(
        block_error_effect(BlockError::SecureInputActive, 0, CleanOrigin::Tray),
        vec![AppAction::StartClean(CleanOrigin::Tray)]
    );
    assert_eq!(
        block_error_effect(BlockError::TapCreationFailed, 1, CleanOrigin::Window),
        vec![AppAction::PresentWindow]
    );
}

#[test]
fn idle_polling_refreshes_once_and_stops_when_granted() {
    let p = idle_poll(false, true);
    assert!(p.refresh);
    assert_eq!(p.poll_again_in, None);
    let p = idle_poll(false, false);
    assert!(!p.refresh);
    assert_eq!(p.poll_again_in, Some(Duration::from_secs(2)));
    assert!(!idle_poll(true, true).refresh);
}

#[test]
fn sessions_take_their_configuration_from_the_settings() {
    let s = Settings {
        color: CleaningColor::White,
        failsafe: FailsafeDelay::Seconds30,
        keyboard_only: true,
        show_menu_bar_icon: false,
    };
    let c = session_config(s, Language::english());
    assert_eq!(c.color, CleaningColor::White);
    assert_eq!(c.failsafe, FailsafeDelay::Seconds30);
    assert!(c.keyboard_only);
    assert_eq!(c.language, Language::english());
    assert_eq!(overlay_mode(s), OverlayMode::KeyboardOnly);
    assert_eq!(overlay_mode(Settings::default()), OverlayMode::FullScreen);
}

#[test]
fn a_login_launch_shows_the_window_only_without_an_icon() {
    assert!(shows_window_at_start(false, true));
    assert!(shows_window_at_start(false, false));
    assert!(!shows_window_at_start(true, true));
    assert!(shows_window_at_start(true, false));
}

#[test]
fn about_opens_the_project_page_on_its_second_button() {
    assert_eq!(about_effect(1), vec![AppAction::OpenRepository]);
    assert!(about_effect(0).is_empty());
}

#[test]
fn hud_colors_follow_the_appearance() {
    assert_eq!(
        hud_colors(Appearance::Dark),
        (Rgb::new(28, 28, 30), Rgb::new(60, 60, 62), Rgb::white())
    );
    assert_eq!(
        hud_colors(Appearance::Light),
        (Rgb::new(246, 246, 248), Rgb::new(214, 214, 217), Rgb::black())
    );
}
