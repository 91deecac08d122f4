//! Startup decisions: which launch mode, which first-run alerts, and the checks a cleaning
//! session must pass before it starts.
use vstd::prelude::*;

use crate::color::chars_equal;
use crate::input::BlockError;
use crate::text::chars_of;

verus! {

/// The flag the login item passes on login-triggered launches.
pub open spec fn login_flag() -> Seq<char> {
    seq!['-', '-', 'l', 'o', 'g', 'i', 'n']
}

/// Whether `args` (program name included) contains the `--login` flag.
pub fn is_login_launch(args: &[&str]) -> (b: bool)
    ensures
        b == exists|i: int| 0 <= i < args@.len() && (#[trigger] args@[i])@ == login_flag(),
{
    let mut i: usize = 0;
    while i < args.len()
        invariant
            i <= args@.len(),
            forall|j: int| 0 <= j < i ==> (#[trigger] args@[j])@ != login_flag(),
        decreases args.len() - i,
    {
        let v = chars_of(args[i]);
        if chars_equal(&v, &['-', '-', 'l', 'o', 'g', 'i', 'n']) {
            return true;
        }
        i += 1;
    }
    false
}

/// Which of the two launch modes the app starts in.
#[derive(Debug, Clone, Copy, PartialEq, Eq, Structural)]
pub enum LaunchMode {
    /// Show the menu bar icon; cleaning starts when the user asks for it.
    MenuBar,
    /// No icon: a cleaning session starts immediately and the app exits when it ends.
    Direct,
}

/// Menu-bar mode whenever the icon is configured to show or Option is held at launch (which
/// reopens the menu even when the icon is hidden); direct mode otherwise.
pub fn launch_mode(show_menu_bar_icon: bool, option_held: bool) -> (m: LaunchMode)
    ensures
        m == (if show_menu_bar_icon || option_held {
            LaunchMode::MenuBar
        } else {
            LaunchMode::Direct
        }),
{
    if show_menu_bar_icon || option_held {
        LaunchMode::MenuBar
    } else {
        LaunchMode::Direct
    }
}

/// An alert shown when the app starts in menu-bar mode.
#[derive(Debug, Clone, Copy, PartialEq, Eq, Structural)]
pub enum StartupAlert {
    /// The welcome alert explaining the app.
    Welcome,
    /// The Accessibility permission request.
    FirstLaunchPermission,
}

/// The alerts to show at startup, in order: the welcome alert unless it was already seen, then
/// the permission request unless Accessibility is already trusted.
pub fn startup_alerts(welcome_seen: bool, trusted: bool) -> (alerts: Vec<StartupAlert>)
    ensures
        alerts@ == (if welcome_seen { seq![] } else { seq![StartupAlert::Welcome] }) + (if trusted {
            seq![]
        } else {
            seq![StartupAlert::FirstLaunchPermission]
        }),
{
    let mut alerts = Vec::new();
    if !welcome_seen {
        alerts.push(StartupAlert::Welcome);
    }
    if !trusted {
        alerts.push(StartupAlert::FirstLaunchPermission);
    }
    proof {
        assert(alerts@ =~= (if welcome_seen { seq![] } else { seq![StartupAlert::Welcome] }) + (
        if trusted {
            seq![]
        } else {
            seq![StartupAlert::FirstLaunchPermission]
        }));
    }
    alerts
}

/// Whether the latest permission poll just flipped from missing to granted.
pub fn permission_just_granted(was_trusted: bool, is_trusted: bool) -> (b: bool)
    ensures
        b == (!was_trusted && is_trusted),
{
    !was_trusted && is_trusted
}

/// The checks before a cleaning session starts (the same ones the input blocker makes before
/// installing its tap): Accessibility must be trusted, and Secure Input must be off.
pub fn preflight(trusted: bool, secure_input_enabled: bool) -> (r: Result<(), BlockError>)
    ensures
        r == (if !trusted {
            Err(BlockError::PermissionDenied)
        } else if secure_input_enabled {
            Err(BlockError::SecureInputActive)
        } else {
            Ok(())
        }),
{
    if !trusted {
        return Err(BlockError::PermissionDenied);
    }
    if secure_input_enabled {
        return Err(BlockError::SecureInputActive);
    }
    Ok(())
}

} // verus!
