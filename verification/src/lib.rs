//! Verified window-placement and window-lifecycle logic for a two-window
//! desktop overlay application.
//!
//! The library holds the decision logic: where a window goes on the screen,
//! how the dashboard window's visibility state evolves, which extended-style
//! bits a panel window carries, and how the main window is resolved among the
//! labels that exist. The surrounding application shell performs the actual
//! window-manager calls and feeds their results back in as plain values.

pub mod dashboard;
pub mod errors;
pub mod geometry;
pub mod main_window;
pub mod movement;
pub mod panel_style;
