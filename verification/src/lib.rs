//! Verified core of the TextGO selection helper: parsing of keys and shortcuts, the shortcut
//! registry, the global mouse and keyboard gesture state machine, tray locale handling, window
//! placement decisions and the platform accessibility decisions.
pub mod clicks;
pub mod keys;
pub mod mouse;
pub mod platform;
pub mod settings;
pub mod shortcut;
pub mod text;
pub mod tray;
pub mod window;
