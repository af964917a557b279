//! Verified state and decision logic of the Archipelago robot-simulator viewer:
//! the close-confirmation dialog, touch handling on the brain display, frame
//! pixel preparation, the window icon, unit preferences, and the sensor windows' settings.

pub mod close_dialog;
pub mod display;
pub mod icon;
pub mod ipc;
pub mod prefs;
pub mod windows;
