//! Decision logic of the CapsGlow caps-lock indicator: the layout of its tray
//! menu, the handling of a clicked menu entry, and the small state machines
//! that drive the indicator window.

pub mod config;
pub mod events;
pub mod tray;
pub mod window;
