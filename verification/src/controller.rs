//! The application's decisions between cleaning sessions: what a settings window command, a
//! failed clean attempt or a permission poll leads to.
//!
//! Each function here takes the relevant state and one event and returns the new state and the
//! outside work to perform, in order, as [`AppAction`]s; the application's event loop performs
//! them (saving the settings file, building the tray, showing alerts) and feeds the next event
//! back.
use vstd::prelude::*;

use crate::failsafe::FailsafeDelay;
use crate::i18n::Language;
use crate::input::BlockError;
use crate::session::SessionConfig;
use crate::settings::Settings;
use crate::time::{Duration, NANOS_PER_SEC};
use crate::window_command::{close_action, CloseAction, WindowCommand};

verus! {

/// How often the idle app polls the Accessibility permission while it is missing: 2 s.
pub const PERMISSION_POLL_SECS: u64 = 2;

/// Where a cleaning attempt was started from; control returns there when it ends.
#[derive(Debug, Clone, Copy, PartialEq, Eq, Structural)]
pub enum CleanOrigin {
    /// The menu bar icon's "Clean".
    Tray,
    /// The settings window's "Clean" button.
    Window,
}

/// The overlay a session is drawn in.
#[derive(Debug, Clone, Copy, PartialEq, Eq, Structural)]
pub enum OverlayMode {
    /// A full-screen cleaning overlay on every display.
    FullScreen,
    /// A small heads-up pill; the screen stays visible.
    KeyboardOnly,
}

/// Outside work the application performs, in the order given.
#[derive(Debug, Clone, Copy, PartialEq, Eq, Structural)]
pub enum AppAction {
    /// Open System Settings on the Accessibility pane.
    OpenAccessibilitySettings,
    /// Save the settings file, then refresh the window and the tray from the new settings.
    SaveSettings,
    /// Refresh the window and the tray from the current settings and permission state.
    RefreshWindowAndTray,
    /// Create the menu bar icon.
    CreateTray,
    /// Remove the menu bar icon.
    DropTray,
    /// Remove the login item.
    DisableLoginItem,
    /// Turn the login item off if it is on, on if it is off, then refresh.
    ToggleLoginItem,
    /// Show the About alert.
    ShowAbout,
    /// Open the project's web page.
    OpenRepository,
    /// Show the settings window.
    PresentWindow,
    /// Hide the settings window.
    HideWindow,
    /// Start a cleaning attempt (preflight, then the session) from this origin.
    StartClean(CleanOrigin),
    /// Quit the application (releasing any input block first).
    Quit,
}

/// What the settings window's controls currently show, read when a command needs them.
#[derive(Debug, Clone, Copy, PartialEq, Eq, Structural)]
pub struct ControlValues {
    /// The selected auto-unlock delay.
    pub failsafe: FailsafeDelay,
    /// Whether the "Keyboard-Only Mode" switch is on.
    pub keyboard_only: bool,
    /// Whether the "Show Icon in Menu Bar" switch is on.
    pub show_icon: bool,
}

/// The settings and actions a settings window command leads to (see [`window_command_effect`]).
pub open spec fn window_command_spec(
    command: WindowCommand,
    settings: Settings,
    idle: bool,
    tray_visible: bool,
    controls: Option<ControlValues>,
) -> (Settings, Seq<AppAction>) {
    match command {
        WindowCommand::GrantAccess => (settings, seq![AppAction::OpenAccessibilitySettings]),
        WindowCommand::SetColor(c) => (Settings { color: c, ..settings }, seq![AppAction::SaveSettings]),
        WindowCommand::SetFailsafe => match controls {
            Some(v) => (Settings { failsafe: v.failsafe, ..settings }, seq![AppAction::SaveSettings]),
            None => (settings, seq![]),
        },
        WindowCommand::ToggleKeyboardOnly => match controls {
            Some(v) => (
                Settings { keyboard_only: v.keyboard_only, ..settings },
                seq![AppAction::SaveSettings],
            ),
            None => (settings, seq![]),
        },
        WindowCommand::ToggleShowIcon => match controls {
            Some(v) => (
                Settings { show_menu_bar_icon: v.show_icon, ..settings },
                if v.show_icon {
                    if tray_visible {
                        seq![AppAction::SaveSettings]
                    } else {
                        seq![AppAction::CreateTray, AppAction::SaveSettings]
                    }
                } else {
                    seq![AppAction::DropTray, AppAction::DisableLoginItem, AppAction::SaveSettings]
                },
            ),
            None => (settings, seq![]),
        },
        WindowCommand::ToggleLogin => (settings, seq![AppAction::ToggleLoginItem]),
        WindowCommand::Clean => (
            settings,
            if idle {
                seq![AppAction::HideWindow, AppAction::StartClean(CleanOrigin::Window)]
            } else {
                seq![]
            },
        ),
        WindowCommand::About => (settings, seq![AppAction::ShowAbout]),
        WindowCommand::ShowSettings => (settings, seq![AppAction::PresentWindow]),
        WindowCommand::Quit => (settings, seq![AppAction::Quit]),
        WindowCommand::Close => (
            settings,
            if tray_visible {
                seq![AppAction::HideWindow]
            } else {
                seq![AppAction::Quit]
            },
        ),
    }
}

/// Applies one settings window (or app menu) command: a setting the user changed is stored and
/// saved (the control's current value read from `controls`; without a window nothing happens);
/// showing the icon creates the tray if it is missing, hiding it drops the tray and the login
/// item too; "Clean" hides the window and starts an attempt, unless a session already runs;
/// closing the window hides it while the icon shows and quits otherwise, so the app never stays
/// running out of reach.
pub fn window_command_effect(
    command: WindowCommand,
    settings: Settings,
    idle: bool,
    tray_visible: bool,
    controls: Option<ControlValues>,
) -> (r: (Settings, Vec<AppAction>))
    ensures
        r.0 == window_command_spec(command, settings, idle, tray_visible, controls).0,
        r.1@ == window_command_spec(command, settings, idle, tray_visible, controls).1,
{
    let mut s = settings;
    let mut actions: Vec<AppAction> = Vec::new();
    match command {
        WindowCommand::GrantAccess => {
            actions.push(AppAction::OpenAccessibilitySettings);
        },
        WindowCommand::SetColor(c) => {
            s.color = c;
            actions.push(AppAction::SaveSettings);
        },
        WindowCommand::SetFailsafe => {
            if let Some(v) = controls {
                s.failsafe = v.failsafe;
                actions.push(AppAction::SaveSettings);
            }
        },
        WindowCommand::ToggleKeyboardOnly => {
            if let Some(v) = controls {
                s.keyboard_only = v.keyboard_only;
                actions.push(AppAction::SaveSettings);
            }
        },
        WindowCommand::ToggleShowIcon => {
            if let Some(v) = controls {
                s.show_menu_bar_icon = v.show_icon;
                if v.show_icon {
                    if !tray_visible {
                        actions.push(AppAction::CreateTray);
                    }
                } else {
                    actions.push(AppAction::DropTray);
                    actions.push(AppAction::DisableLoginItem);
                }
                actions.push(AppAction::SaveSettings);
            }
        },
        WindowCommand::ToggleLogin => {
            actions.push(AppAction::ToggleLoginItem);
        },
        WindowCommand::Clean => {
            if idle {
                actions.push(AppAction::HideWindow);
                actions.push(AppAction::StartClean(CleanOrigin::Window));
            }
        },
        WindowCommand::About => {
            actions.push(AppAction::ShowAbout);
        },
        WindowCommand::ShowSettings => {
            actions.push(AppAction::PresentWindow);
        },
        WindowCommand::Quit => {
            actions.push(AppAction::Quit);
        },
        WindowCommand::Close => {
            match close_action(tray_visible) {
                CloseAction::Hide => actions.push(AppAction::HideWindow),
                CloseAction::Quit => actions.push(AppAction::Quit),
            }
        },
    }
    proof {
        assert(actions@ =~= window_command_spec(command, settings, idle, tray_visible, controls).1);
    }
    (s, actions)
}

/// Where control goes once a cleaning attempt ends (finished or failed): the settings window
/// shows again if the attempt started there; from the menu bar icon the app simply stays idle.
pub open spec fn return_spec(origin: CleanOrigin) -> Seq<AppAction> {
    if origin == CleanOrigin::Window {
        seq![AppAction::PresentWindow]
    } else {
        seq![]
    }
}

/// The actions that return control to where an attempt started (see [`return_spec`]).
pub fn return_from_clean(origin: CleanOrigin) -> (actions: Vec<AppAction>)
    ensures
        actions@ == return_spec(origin),
{
    let mut actions: Vec<AppAction> = Vec::new();
    if origin == CleanOrigin::Window {
        actions.push(AppAction::PresentWindow);
    }
    proof {
        assert(actions@ =~= return_spec(origin));
    }
    actions
}

/// The alert shown when a cleaning attempt cannot block input.
#[derive(Debug, Clone, Copy, PartialEq, Eq, Structural)]
pub enum ErrorAlert {
    /// Accessibility permission is missing: "Open System Settings" or "Cancel".
    PermissionRequired,
    /// Secure Input is on: "Try Again" or "Cancel".
    SecureInput,
    /// The event tap could not be created: "Try Again" or "Cancel".
    TapFailed,
}

/// The alert for `err`.
pub fn error_alert(err: BlockError) -> (a: ErrorAlert)
    ensures
        a == (match err {
            BlockError::PermissionDenied => ErrorAlert::PermissionRequired,
            BlockError::SecureInputActive => ErrorAlert::SecureInput,
            BlockError::TapCreationFailed => ErrorAlert::TapFailed,
        }),
{
    match err {
        BlockError::PermissionDenied => ErrorAlert::PermissionRequired,
        BlockError::SecureInputActive => ErrorAlert::SecureInput,
        BlockError::TapCreationFailed => ErrorAlert::TapFailed,
    }
}

/// The actions after the user answered the alert for `err` with button `choice` (0 is the
/// default button).
pub open spec fn block_error_spec(err: BlockError, choice: usize, origin: CleanOrigin) -> Seq<AppAction> {
    match err {
        BlockError::PermissionDenied => if choice == 0 {
            seq![AppAction::OpenAccessibilitySettings] + return_spec(origin)
        } else {
            return_spec(origin)
        },
        _ => if choice == 0 {
            seq![AppAction::StartClean(origin)]
        } else {
            return_spec(origin)
        },
    }
}

/// After a failed attempt's alert: for missing permission, the default button opens System
/// Settings and the attempt ends either way; for Secure Input or a failed tap, the default
/// button ("Try Again") retries from the same origin and the other ends the attempt.
pub fn block_error_effect(err: BlockError, choice: usize, origin: CleanOrigin) -> (actions: Vec<AppAction>)
    ensures
        actions@ == block_error_spec(err, choice, origin),
{
    let mut actions: Vec<AppAction> = Vec::new();
    match err {
        BlockError::PermissionDenied => {
            if choice == 0 {
                actions.push(AppAction::OpenAccessibilitySettings);
            }
            let mut tail = return_from_clean(origin);
            actions.append(&mut tail);
        },
        _ => {
            if choice == 0 {
                actions.push(AppAction::StartClean(origin));
            } else {
                let mut tail = return_from_clean(origin);
                actions.append(&mut tail);
            }
        },
    }
    proof {
        assert(actions@ =~= block_error_spec(err, choice, origin));
    }
    actions
}

/// What one idle permission poll leads to.
#[derive(Debug, Clone, Copy, PartialEq, Eq, Structural)]
pub struct IdlePoll {
    /// Whether to refresh the window and tray (permission was just granted).
    pub refresh: bool,
    /// When to poll again; `None` once permission is granted (wait for events only).
    pub poll_again_in: Option<Duration>,
}

/// One idle tick's decision, given the last known and the freshly polled permission state: the
/// window and tray refresh exactly when permission flips from missing to granted; polling goes
/// on every 2 s while permission is missing and stops once it is granted.
pub fn idle_poll(was_trusted: bool, trusted: bool) -> (p: IdlePoll)
    ensures
        p.refresh == (!was_trusted && trusted),
        match p.poll_again_in {
            None => trusted,
            Some(d) => !trusted && d@ == PERMISSION_POLL_SECS * NANOS_PER_SEC,
        },
{
    IdlePoll {
        refresh: crate::startup::permission_just_granted(was_trusted, trusted),
        poll_again_in: if trusted {
            None
        } else {
            Some(Duration::from_secs(PERMISSION_POLL_SECS))
        },
    }
}

/// The configuration of a session started with `settings` in `language`.
pub fn session_config(settings: Settings, language: Language) -> (c: SessionConfig)
    ensures
        c == (SessionConfig {
            color: settings.color,
            failsafe: settings.failsafe,
            keyboard_only: settings.keyboard_only,
            language,
        }),
{
    SessionConfig {
        color: settings.color,
        failsafe: settings.failsafe,
        keyboard_only: settings.keyboard_only,
        language,
    }
}

/// The overlay for a session under `settings`: the heads-up pill in keyboard-only mode,
/// full-screen otherwise.
pub fn overlay_mode(settings: Settings) -> (m: OverlayMode)
    ensures
        m == (if settings.keyboard_only { OverlayMode::KeyboardOnly } else { OverlayMode::FullScreen }),
{
    if settings.keyboard_only {
        OverlayMode::KeyboardOnly
    } else {
        OverlayMode::FullScreen
    }
}

/// Whether the settings window shows at startup: always on a normal launch; on a login launch
/// only when the menu bar icon is hidden, so the app never runs invisibly.
pub fn shows_window_at_start(is_login_launch: bool, show_menu_bar_icon: bool) -> (b: bool)
    ensures
        b == (!is_login_launch || !show_menu_bar_icon),
{
    if is_login_launch {
        !show_menu_bar_icon
    } else {
        true
    }
}

/// The actions after the About alert closed with button `choice`: its second button opens the
/// project's web page.
pub fn about_effect(choice: usize) -> (actions: Vec<AppAction>)
    ensures
        actions@ == (if choice == 1 { seq![AppAction::OpenRepository] } else { seq![] }),
{
    let mut actions: Vec<AppAction> = Vec::new();
    if choice == 1 {
        actions.push(AppAction::OpenRepository);
    }
    proof {
        assert(actions@ =~= (if choice == 1 { seq![AppAction::OpenRepository] } else { seq![] }));
    }
    actions
}

/// Closing the settings window never leaves the app running out of reach: it is hidden only
/// while the menu bar icon shows, and the app quits otherwise.
pub proof fn lemma_close_keeps_the_app_reachable(
    settings: Settings,
    idle: bool,
    tray_visible: bool,
    controls: Option<ControlValues>,
)
    ensures
        ({
            let actions = window_command_spec(WindowCommand::Close, settings, idle, tray_visible, controls).1;
            (actions.contains(AppAction::HideWindow) ==> tray_visible) && (!tray_visible
                ==> actions.contains(AppAction::Quit))
        }),
{
    let actions = window_command_spec(WindowCommand::Close, settings, idle, tray_visible, controls).1;
    if tray_visible {
        assert(actions[0] == AppAction::HideWindow);
    } else {
        assert(actions[0] == AppAction::Quit);
    }
}

/// Hiding the menu bar icon always removes the login item too, so a login launch can never start
/// the app with neither an icon nor a window.
pub proof fn lemma_hiding_the_icon_disables_login(
    settings: Settings,
    idle: bool,
    tray_visible: bool,
    v: ControlValues,
)
    requires
        !v.show_icon,
    ensures
        window_command_spec(WindowCommand::ToggleShowIcon, settings, idle, tray_visible, Some(v)).1.contains(
            AppAction::DisableLoginItem,
        ),
        !window_command_spec(WindowCommand::ToggleShowIcon, settings, idle, tray_visible, Some(v)).0.show_menu_bar_icon,
{
    let actions = window_command_spec(WindowCommand::ToggleShowIcon, settings, idle, tray_visible, Some(v)).1;
    assert(actions[1] == AppAction::DisableLoginItem);
}

/// "Clean" never starts a second attempt while a session runs.
pub proof fn lemma_clean_only_when_idle(
    command: WindowCommand,
    settings: Settings,
    tray_visible: bool,
    controls: Option<ControlValues>,
    origin: CleanOrigin,
)
    ensures
        !window_command_spec(command, settings, false, tray_visible, controls).1.contains(
            AppAction::StartClean(origin),
        ),
{
    let actions = window_command_spec(command, settings, false, tray_visible, controls).1;
    if actions.contains(AppAction::StartClean(origin)) {
        let i = choose|i: int| 0 <= i < actions.len() && actions[i] == AppAction::StartClean(origin);
        assert(actions[i] == AppAction::StartClean(origin));
    }
}

} // verus!
