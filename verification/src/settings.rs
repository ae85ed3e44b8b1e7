//! User settings that steer selection detection and synthetic copying.
use vstd::prelude::*;

use crate::text::{chars_of, eq_chars};

verus! {

/// Settings changed from the settings page and read by the input handlers.
#[derive(Clone, Copy, Debug, PartialEq, Eq, Structural)]
pub struct Settings {
    /// Fall back to the clipboard when the focused application exposes no selection.
    pub force_get_selection: bool,
    /// Copy with Control+C instead of Control+Insert (outside macOS).
    pub use_ctrl_c: bool,
    /// Report a long press of the left button on text.
    pub long_press: bool,
    /// How long the button must stay down to count as a long press, in milliseconds.
    pub long_press_duration: u64,
    /// Only treat a gesture as text selection when the pointer shows a text cursor.
    pub ibeam_cursor: bool,
}

impl Settings {
    /// Every option off, with a zero long press duration.
    pub fn new() -> (s: Self)
        ensures
            s == (Settings {
                force_get_selection: false,
                use_ctrl_c: false,
                long_press: false,
                long_press_duration: 0,
                ibeam_cursor: false,
            }),
    {
        Settings {
            force_get_selection: false,
            use_ctrl_c: false,
            long_press: false,
            long_press_duration: 0,
            ibeam_cursor: false,
        }
    }

    /// Set the force get selection state (clipboard fallback).
    pub fn set_force_get_selection(&mut self, enabled: bool)
        ensures
            *final(self) == (Settings { force_get_selection: enabled, ..*old(self) }),
    {
        self.force_get_selection = enabled;
    }

    /// Set the copy key combination: Control+C exactly when the key is `"ctrl_c"`.
    pub fn set_copy_key(&mut self, key: &str)
        ensures
            *final(self) == (Settings { use_ctrl_c: key@ == "ctrl_c"@, ..*old(self) }),
    {
        let ctrl_c = chars_of("ctrl_c");
        self.use_ctrl_c = eq_chars(&chars_of(key), &ctrl_c);
    }

    /// Set the long press enabled state.
    pub fn set_long_press_enabled(&mut self, enabled: bool)
        ensures
            *final(self) == (Settings { long_press: enabled, ..*old(self) }),
    {
        self.long_press = enabled;
    }

    /// Set the long press duration threshold, in milliseconds.
    pub fn set_long_press_duration(&mut self, duration: u64)
        ensures
            *final(self) == (Settings { long_press_duration: duration, ..*old(self) }),
    {
        self.long_press_duration = duration;
    }

    /// Set the I-beam cursor check state.
    pub fn set_ibeam_cursor_enabled(&mut self, enabled: bool)
        ensures
            *final(self) == (Settings { ibeam_cursor: enabled, ..*old(self) }),
    {
        self.ibeam_cursor = enabled;
    }
}

} // verus!
