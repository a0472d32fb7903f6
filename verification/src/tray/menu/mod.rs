pub mod handler;
pub mod ids;
pub mod item;
pub mod laws;

use vstd::prelude::*;

verus! {

/// The radio groups of the tray menu.
#[derive(Debug, Clone, Copy, PartialEq, Eq, Structural, Hash)]
pub enum MenuGroup {
    RadioWindowPosition,
    RadioMonitorSelector,
    RadioIndicatorIconTheme,
}

} // verus!
