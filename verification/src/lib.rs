//! Decision logic of a menu-bar text selection monitor.
//!
//! The crate holds what the monitor decides, as functions on plain values:
//! which text of the focused element counts as a selection, when the
//! polling detector publishes a change, what a hotkey press publishes, and
//! what the control commands and the tray menu answer. Reading the
//! accessibility layer, timers and the window shell stay with the caller.

pub mod commands;
pub mod event;
pub mod focus;
pub mod hotkey;
pub mod platform;
pub mod system_tray;
pub mod text;
pub mod text_detector;
