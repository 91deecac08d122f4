//! Settings window and app menu actions: decoding a control's action into a command, and what
//! closing the window does.
use vstd::prelude::*;

use crate::color::CleaningColor;
use crate::failsafe::FailsafeDelay;

pub mod menu_tag;
pub mod tag;

verus! {

/// One action the settings window (or the app menu) reports.
#[derive(Debug, Clone, Copy, PartialEq, Eq, Structural)]
pub enum ActionId {
    /// A control with this tag was used.
    Tag(isize),
    /// The window was asked to close.
    Close,
    /// The app was reopened (Dock, Spotlight, Finder) while already running.
    Reopen,
}

/// One decoded settings window (or app menu) command.
#[derive(Debug, Clone, Copy, PartialEq, Eq, Structural)]
pub enum WindowCommand {
    /// Open System Settings on the Accessibility pane.
    GrantAccess,
    /// A color swatch was clicked.
    SetColor(CleaningColor),
    /// The auto-unlock control changed.
    SetFailsafe,
    /// The "Keyboard-Only Mode" switch changed.
    ToggleKeyboardOnly,
    /// The "Show Icon in Menu Bar" switch changed.
    ToggleShowIcon,
    /// The "Open at Login" switch changed.
    ToggleLogin,
    /// The "Clean" button.
    Clean,
    /// "About Urahafu".
    About,
    /// "Settings…" from the app menu.
    ShowSettings,
    /// "Quit Urahafu" from the app menu.
    Quit,
    /// The window was asked to close (close button, Cmd-W, Escape).
    Close,
}

/// The command for control tag `value`, if it is a known tag.
pub open spec fn command_for_tag(value: isize) -> Option<WindowCommand> {
    if value == tag::GRANT_ACCESS {
        Some(WindowCommand::GrantAccess)
    } else if value == tag::COLOR_BLACK {
        Some(WindowCommand::SetColor(CleaningColor::Black))
    } else if value == tag::COLOR_WHITE {
        Some(WindowCommand::SetColor(CleaningColor::White))
    } else if value == tag::FAILSAFE {
        Some(WindowCommand::SetFailsafe)
    } else if value == tag::KEYBOARD_ONLY {
        Some(WindowCommand::ToggleKeyboardOnly)
    } else if value == tag::SHOW_ICON {
        Some(WindowCommand::ToggleShowIcon)
    } else if value == tag::OPEN_AT_LOGIN {
        Some(WindowCommand::ToggleLogin)
    } else if value == tag::ABOUT {
        Some(WindowCommand::About)
    } else if value == tag::CLEAN {
        Some(WindowCommand::Clean)
    } else if value == tag::ESCAPE_CLOSE {
        Some(WindowCommand::Close)
    } else if value == menu_tag::OPEN_SETTINGS {
        Some(WindowCommand::ShowSettings)
    } else if value == menu_tag::QUIT {
        Some(WindowCommand::Quit)
    } else {
        None
    }
}

/// Decodes an action: a known tag to its command, a close request to [`WindowCommand::Close`];
/// `None` for a reopen (handled elsewhere) or an unknown tag.
pub fn command_for_action(action: ActionId) -> (c: Option<WindowCommand>)
    ensures
        c == (match action {
            ActionId::Close => Some(WindowCommand::Close),
            ActionId::Reopen => None,
            ActionId::Tag(value) => command_for_tag(value),
        }),
{
    match action {
        ActionId::Close => Some(WindowCommand::Close),
        ActionId::Reopen => None,
        ActionId::Tag(value) => {
            if value == tag::GRANT_ACCESS {
                Some(WindowCommand::GrantAccess)
            } else if value == tag::COLOR_BLACK {
                Some(WindowCommand::SetColor(CleaningColor::Black))
            } else if value == tag::COLOR_WHITE {
                Some(WindowCommand::SetColor(CleaningColor::White))
            } else if value == tag::FAILSAFE {
                Some(WindowCommand::SetFailsafe)
            } else if value == tag::KEYBOARD_ONLY {
                Some(WindowCommand::ToggleKeyboardOnly)
            } else if value == tag::SHOW_ICON {
                Some(WindowCommand::ToggleShowIcon)
            } else if value == tag::OPEN_AT_LOGIN {
                Some(WindowCommand::ToggleLogin)
            } else if value == tag::ABOUT {
                Some(WindowCommand::About)
            } else if value == tag::CLEAN {
                Some(WindowCommand::Clean)
            } else if value == tag::ESCAPE_CLOSE {
                Some(WindowCommand::Close)
            } else if value == menu_tag::OPEN_SETTINGS {
                Some(WindowCommand::ShowSettings)
            } else if value == menu_tag::QUIT {
                Some(WindowCommand::Quit)
            } else {
                None
            }
        },
    }
}

/// The window's and the menu's tags never collide: decoding is one-to-one on known tags, so
/// the window and the menu can share a single action target.
pub proof fn lemma_tags_decode_one_to_one(a: isize, b: isize)
    requires
        command_for_tag(a) is Some,
        command_for_tag(a) == command_for_tag(b),
    ensures
        a == b,
{
}

/// What closing the window does.
#[derive(Debug, Clone, Copy, PartialEq, Eq, Structural)]
pub enum CloseAction {
    /// Hide the window; the app keeps running in the menu bar.
    Hide,
    /// Quit the app.
    Quit,
}

/// Hide the window if the menu bar icon shows (the app stays reachable), quit otherwise.
pub fn close_action(tray_visible: bool) -> (a: CloseAction)
    ensures
        a == (if tray_visible { CloseAction::Hide } else { CloseAction::Quit }),
{
    if tray_visible {
        CloseAction::Hide
    } else {
        CloseAction::Quit
    }
}

/// The auto-unlock control's segments, in order: 30 s, 60 s, 90 s.
pub open spec fn failsafe_order() -> Seq<FailsafeDelay> {
    seq![FailsafeDelay::Seconds30, FailsafeDelay::Seconds60, FailsafeDelay::Seconds90]
}

/// The auto-unlock segments are in ascending order of delay, and selecting a delay's own segment
/// gives that delay back.
pub proof fn lemma_failsafe_segments(d: FailsafeDelay)
    ensures
        forall|i: int, j: int|
            0 <= i < j < 3 ==> (#[trigger] failsafe_order()[i]).spec_seconds() < (
            #[trigger] failsafe_order()[j]).spec_seconds(),
        exists|i: int| 0 <= i < 3 && #[trigger] failsafe_order()[i] == d,
{
    let k: int = match d {
        FailsafeDelay::Seconds30 => 0,
        FailsafeDelay::Seconds60 => 1,
        FailsafeDelay::Seconds90 => 2,
    };
    assert(failsafe_order()[k] == d);
}

/// The auto-unlock segment for delay `d`.
pub fn segment_for_failsafe(d: FailsafeDelay) -> (i: usize)
    ensures
        i < 3,
        failsafe_order()[i as int] == d,
{
    match d {
        FailsafeDelay::Seconds30 => 0,
        FailsafeDelay::Seconds60 => 1,
        FailsafeDelay::Seconds90 => 2,
    }
}

/// The delay of the selected segment `selected` (`-1` when none is selected); the default 60 s
/// for a selection outside the three segments.
pub fn failsafe_for_segment(selected: isize) -> (d: FailsafeDelay)
    ensures
        d == (if 0 <= selected < 3 {
            failsafe_order()[selected as int]
        } else {
            FailsafeDelay::Seconds60
        }),
{
    if selected == 0 {
        FailsafeDelay::Seconds30
    } else if selected == 1 {
        FailsafeDelay::Seconds60
    } else if selected == 2 {
        FailsafeDelay::Seconds90
    } else {
        FailsafeDelay::Seconds60
    }
}

} // verus!
