//! Tags of the app main menu's items (distinct from every settings window tag).
use vstd::prelude::*;

verus! {

/// "Settings…": shows the settings window.
pub const OPEN_SETTINGS: isize = 10;
/// "Quit Urahafu".
pub const QUIT: isize = 11;

} // verus!
