//! Decision logic of a rear-view mirror overlay: the display state machine
//! driven by a global shortcut, the window geometry derived from the
//! taskbar, the pointer dead zone used to drag the mirror, and the
//! periodic topmost refresh of the overlay window.

pub mod geometry;
pub mod display;
pub mod tracking;
pub mod overlay;
pub mod menu;
