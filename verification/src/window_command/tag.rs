//! Tags of the settings window's controls.
use vstd::prelude::*;

verus! {

/// The permission banner's "Open System Settings" button.
pub const GRANT_ACCESS: isize = 1;
/// The black color swatch.
pub const COLOR_BLACK: isize = 2;
/// The auto-unlock delay control.
pub const FAILSAFE: isize = 3;
/// The "Keyboard-Only Mode" switch.
pub const KEYBOARD_ONLY: isize = 4;
/// The "Show Icon in Menu Bar" switch.
pub const SHOW_ICON: isize = 5;
/// The "Open at Login" switch.
pub const OPEN_AT_LOGIN: isize = 6;
/// "About Urahafu" (an app menu item; the tag stays reserved here so the two never collide).
pub const ABOUT: isize = 7;
/// The "Clean" button.
pub const CLEAN: isize = 8;
/// The hidden button that gives the window an Escape key equivalent (closes the window).
pub const ESCAPE_CLOSE: isize = 9;
/// The white color swatch.
pub const COLOR_WHITE: isize = 12;

} // verus!
