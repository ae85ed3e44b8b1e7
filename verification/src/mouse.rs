//! Global mouse and keyboard event handling: drag, shift-click, double, triple click and long
//! press detection, user copy detection, and closing the toolbar's native menu.
//!
//! The handler is a state machine: every event moves [`MouseTracker`] to its next state and
//! yields the [`MouseAction`]s the caller performs (emitting gestures, hiding the toolbar,
//! starting timers).
use vstd::prelude::*;

use crate::clicks::{
    after_cancel, after_click, after_third_press, click_of, next_epoch, ClickState, ClickTracker,
    Point,
};
use crate::keys::Platform;
use crate::settings::Settings;
use crate::text::{chars_of, eq_chars, trim, trim_seq};

verus! {

/// Marker our own synthetic input carries, so the copy detector can ignore it.
pub const SIMULATED_INPUT_MARKER: u32 = 0x5447_4f21;

/// Platform key code of C on Windows (virtual key).
pub const WINDOWS_KEY_C: u32 = 0x43;

/// Platform key code of C on macOS.
pub const MACOS_KEY_C: u32 = 8;

/// Platform key code of the left Command key on macOS.
pub const MACOS_LEFT_COMMAND: u32 = 55;

/// Platform key code of the right Command key on macOS.
pub const MACOS_RIGHT_COMMAND: u32 = 54;

#[derive(Clone, Copy, Debug, PartialEq, Eq, Structural)]
pub enum MouseButton {
    Left,
    Other,
}

/// The keys the handler tells apart; every other key is `Other`.
#[derive(Clone, Copy, Debug, PartialEq, Eq, Structural)]
pub enum InputKey {
    ShiftLeft,
    ShiftRight,
    ControlLeft,
    ControlRight,
    MetaLeft,
    MetaRight,
    KeyC,
    Escape,
    Other,
}

#[derive(Clone, Copy, Debug, PartialEq, Eq, Structural)]
pub enum InputEventKind {
    ButtonPress(MouseButton),
    ButtonRelease(MouseButton),
    /// The pointer moved; `drag_distance_reached` tells whether it is now at least the drag
    /// distance away from where the left button went down.
    MouseMove { drag_distance_reached: bool },
    KeyPress(InputKey),
    KeyRelease(InputKey),
    Wheel,
    Other,
}

/// A global input event.
#[derive(Clone, Copy, Debug, PartialEq, Eq, Structural)]
pub struct InputEvent {
    pub kind: InputEventKind,
    /// Raw platform key code of a key event.
    pub platform_code: u32,
    /// Marker the event source attached to the event.
    pub marker: u64,
}

/// What the system reported around the event.
#[derive(Clone, Copy, Debug, PartialEq, Eq, Structural)]
pub struct Observation {
    /// Current time, in nanoseconds on a monotonic clock.
    pub now: u64,
    /// Pointer position, when it could be read.
    pub pointer: Option<Point>,
    /// Whether the platform reports the text (I-beam) cursor.
    pub ibeam_cursor: bool,
    /// Whether the pointer is over the visible result popup.
    pub pointer_over_popup: bool,
    /// Whether the platform reports the copy modifier as held right now.
    pub copy_modifier_down: bool,
}

/// Shortcut handling state the handler depends on.
#[derive(Clone, Copy, Debug, PartialEq, Eq, Structural)]
pub struct HandlerFlags {
    /// Shortcut handling is suspended by at least one guard.
    pub suspended: bool,
    /// Shortcut handling is paused.
    pub paused: bool,
    /// A triple click shortcut is registered.
    pub triple_click_registered: bool,
}

/// A mouse gesture reported to the frontend.
#[derive(Clone, Copy, Debug, PartialEq, Eq, Structural)]
pub enum Gesture {
    DragEnd,
    ShiftClick,
    DoubleClick,
    TripleClick,
    LongPress,
}

/// Work the caller performs after an event.
#[derive(Clone, Copy, Debug, PartialEq, Eq, Structural)]
pub enum MouseAction {
    /// Wait `duration_ms` and then report a long press if [`MouseTracker::fire_long_press`]
    /// accepts `epoch`.
    StartLongPressTimer { epoch: u64, duration_ms: u64 },
    /// Hide the toolbar; with `check_position`, only when the pointer is outside it.
    HideToolbar { check_position: bool },
    /// Report a gesture.
    Emit(Gesture),
    /// Wait the double click interval and then report the double click of click epoch `epoch`,
    /// unless it was cancelled meanwhile.
    ScheduleDoubleClick { epoch: u64 },
    /// Close the open native menu with Escape; copy the selection afterwards when `copy_after`.
    CloseNativeMenu { copy_after: bool },
    /// The user copied: restore the cached selection to the clipboard if the copy got lost.
    CompensateUserCopy,
}

/// Abstract state of the event handler.
pub ghost struct MouseState {
    pub clicks: ClickState,
    pub drag_start: Option<Point>,
    pub is_dragging: bool,
    pub is_valid_cursor: bool,
    pub shift_pressed: bool,
    pub copy_modifier_pressed: bool,
    pub long_press_epoch: u64,
    pub long_press_triggered: bool,
    pub toolbar_menu_open: bool,
    pub clipboard_restore_interrupted: bool,
    pub selection_end: Option<Point>,
}

/// State of the global event handler.
pub struct MouseTracker {
    pub clicks: ClickTracker,
    /// Where the left button went down, while it is held.
    pub drag_start: Option<Point>,
    pub is_dragging: bool,
    /// Whether the pointer showed a text cursor when the button went down.
    pub is_valid_cursor: bool,
    pub shift_pressed: bool,
    /// Whether the platform copy modifier (Control, Command on macOS) is held.
    pub copy_modifier_pressed: bool,
    /// Incremented whenever a pending long press becomes stale.
    pub long_press_epoch: u64,
    pub long_press_triggered: bool,
    /// Whether the toolbar's native action menu is open.
    pub toolbar_menu_open: bool,
    /// Whether a user copy interrupted restoring the clipboard.
    pub clipboard_restore_interrupted: bool,
    /// Pointer position that finished the current selection (drag or shift-click).
    pub selection_end: Option<Point>,
}

impl View for MouseTracker {
    type V = MouseState;

    open spec fn view(&self) -> MouseState {
        MouseState {
            clicks: self.clicks@,
            drag_start: self.drag_start,
            is_dragging: self.is_dragging,
            is_valid_cursor: self.is_valid_cursor,
            shift_pressed: self.shift_pressed,
            copy_modifier_pressed: self.copy_modifier_pressed,
            long_press_epoch: self.long_press_epoch,
            long_press_triggered: self.long_press_triggered,
            toolbar_menu_open: self.toolbar_menu_open,
            clipboard_restore_interrupted: self.clipboard_restore_interrupted,
            selection_end: self.selection_end,
        }
    }
}

/// Whether the pointer counts as a text cursor: always when the check is disabled.
pub open spec fn valid_cursor_spec(check_enabled: bool, platform_reports: bool) -> bool {
    !check_enabled || platform_reports
}

/// Whether `key` is the platform's copy modifier (Control on Windows, Command on macOS).
pub open spec fn is_copy_modifier(key: InputKey, platform: Platform) -> bool {
    match platform {
        Platform::Windows => key == InputKey::ControlLeft || key == InputKey::ControlRight,
        Platform::MacOs => key == InputKey::MetaLeft || key == InputKey::MetaRight,
    }
}

pub open spec fn is_shift(key: InputKey) -> bool {
    key == InputKey::ShiftLeft || key == InputKey::ShiftRight
}

/// State after the copy detector saw `event`, and whether it detected a user copy.
pub open spec fn copy_step(s: MouseState, event: InputEvent, platform: Platform) -> (
    MouseState,
    bool,
) {
    if event.marker == SIMULATED_INPUT_MARKER as u64 {
        (s, false)
    } else {
        match event.kind {
            InputEventKind::KeyPress(key) => {
                let s1 = if is_copy_modifier(key, platform) {
                    MouseState { copy_modifier_pressed: true, ..s }
                } else {
                    s
                };
                if key == InputKey::KeyC && s1.copy_modifier_pressed {
                    (MouseState { clipboard_restore_interrupted: true, ..s1 }, true)
                } else {
                    (s1, false)
                }
            },
            InputEventKind::KeyRelease(key) => {
                if is_copy_modifier(key, platform) {
                    (MouseState { copy_modifier_pressed: false, ..s }, false)
                } else {
                    (s, false)
                }
            },
            _ => (s, false),
        }
    }
}

/// State after a left button press, and the resulting actions.
pub open spec fn press_step(s: MouseState, settings: Settings, obs: Observation) -> (
    MouseState,
    Seq<MouseAction>,
) {
    let s1 = MouseState { clicks: after_cancel(s.clicks, false), ..s };
    match obs.pointer {
        None => (s1, Seq::empty()),
        Some(pos) => {
            let valid = valid_cursor_spec(settings.ibeam_cursor, obs.ibeam_cursor);
            let start_timer = valid && settings.long_press;
            let epoch = if start_timer {
                next_epoch(s.long_press_epoch)
            } else {
                s.long_press_epoch
            };
            let s2 = MouseState {
                clicks: after_third_press(s1.clicks, obs.now, pos),
                drag_start: Some(pos),
                is_dragging: false,
                selection_end: None,
                is_valid_cursor: valid,
                long_press_triggered: false,
                long_press_epoch: epoch,
                ..s1
            };
            let hide = MouseAction::HideToolbar { check_position: true };
            if start_timer {
                (
                    s2,
                    seq![
                        MouseAction::StartLongPressTimer {
                            epoch,
                            duration_ms: settings.long_press_duration,
                        },
                        hide,
                    ],
                )
            } else {
                (s2, seq![hide])
            }
        },
    }
}

/// State after the pointer moved.
pub open spec fn move_step(s: MouseState, drag_distance_reached: bool) -> MouseState {
    if s.drag_start is Some && drag_distance_reached {
        MouseState {
            is_dragging: true,
            long_press_epoch: next_epoch(s.long_press_epoch),
            ..s
        }
    } else {
        s
    }
}

/// The recorded selection end after recording the pointer position (kept when unknown).
pub open spec fn selection_end_after(s: MouseState, pointer: Option<Point>) -> Option<Point> {
    match pointer {
        Some(p) => Some(p),
        None => s.selection_end,
    }
}

/// State after a left button release, and the resulting actions.
pub open spec fn release_step(
    s: MouseState,
    flags: HandlerFlags,
    settings: Settings,
    obs: Observation,
    platform: Platform,
) -> (MouseState, Seq<MouseAction>) {
    let registered = flags.triple_click_registered;
    let s1 = MouseState {
        long_press_epoch: next_epoch(s.long_press_epoch),
        drag_start: None,
        clicks: if registered && (s.long_press_triggered || s.is_dragging || s.shift_pressed) {
            after_cancel(s.clicks, true)
        } else {
            s.clicks
        },
        ..s
    };
    let valid = s.is_valid_cursor || valid_cursor_spec(settings.ibeam_cursor, obs.ibeam_cursor);
    if s.long_press_triggered {
        (MouseState { long_press_triggered: false, is_dragging: false, ..s1 }, Seq::empty())
    } else if s.is_dragging {
        if valid {
            (
                MouseState {
                    is_dragging: false,
                    selection_end: selection_end_after(s1, obs.pointer),
                    ..s1
                },
                seq![MouseAction::Emit(Gesture::DragEnd)],
            )
        } else {
            (MouseState { is_dragging: false, ..s1 }, Seq::empty())
        }
    } else if s.shift_pressed {
        let s2 = if valid {
            MouseState { selection_end: selection_end_after(s1, obs.pointer), ..s1 }
        } else {
            s1
        };
        let s3 = if platform == Platform::MacOs {
            MouseState { shift_pressed: false, ..s2 }
        } else {
            s2
        };
        (s3, if valid {
            seq![MouseAction::Emit(Gesture::ShiftClick)]
        } else {
            Seq::empty()
        })
    } else {
        match obs.pointer {
            None => (s1, Seq::empty()),
            Some(pos) => {
                let count = click_of(s1.clicks, obs.now, pos, valid).count;
                let s2 = MouseState {
                    clicks: after_click(s1.clicks, obs.now, pos, valid, registered),
                    ..s1
                };
                let acts = if count == 2 && registered {
                    seq![MouseAction::ScheduleDoubleClick { epoch: s1.clicks.epoch }]
                } else if count == 2 {
                    seq![MouseAction::Emit(Gesture::DoubleClick)]
                } else if count == 3 {
                    seq![MouseAction::Emit(Gesture::TripleClick)]
                } else {
                    Seq::empty()
                };
                (s2, acts)
            },
        }
    }
}

/// State after the native-menu check for a key press, whether the key was handled by the menu,
/// and whether (and how) the menu is closed.
pub open spec fn native_menu_step(
    s: MouseState,
    key: InputKey,
    platform_code: u32,
    platform: Platform,
    copy_modifier_down: bool,
) -> (MouseState, bool, Option<bool>) {
    if !s.toolbar_menu_open {
        (s, false, None)
    } else if key == InputKey::Escape {
        (MouseState { toolbar_menu_open: false, ..s }, false, None)
    } else if platform == Platform::Windows && (key == InputKey::ControlLeft || key
        == InputKey::ControlRight) {
        (s, true, None)
    } else if platform == Platform::MacOs && (key == InputKey::MetaLeft || key
        == InputKey::MetaRight || platform_code == MACOS_LEFT_COMMAND || platform_code
        == MACOS_RIGHT_COMMAND) {
        (s, true, None)
    } else {
        let key_c = match platform {
            Platform::Windows => WINDOWS_KEY_C,
            Platform::MacOs => MACOS_KEY_C,
        };
        let copy = (key == InputKey::KeyC || platform_code == key_c) && (s.copy_modifier_pressed
            || copy_modifier_down);
        (MouseState { toolbar_menu_open: false, ..s }, false, Some(copy))
    }
}

/// State after a key press reached the gesture handler, and the resulting actions.
pub open spec fn key_press_step(
    s: MouseState,
    key: InputKey,
    platform_code: u32,
    platform: Platform,
    obs: Observation,
) -> (MouseState, Seq<MouseAction>) {
    if is_shift(key) && platform == Platform::Windows && s.shift_pressed {
        // a held shift key repeats its press on Windows
        (s, Seq::empty())
    } else {
        let s1 = if is_shift(key) {
            MouseState { shift_pressed: true, ..s }
        } else {
            s
        };
        let (s2, _handled, close) = native_menu_step(
            s1,
            key,
            platform_code,
            platform,
            obs.copy_modifier_down,
        );
        match close {
            Some(copy_after) => (s2, seq![MouseAction::CloseNativeMenu { copy_after }]),
            None => (s2, Seq::empty()),
        }
    }
}

/// Whether an event cancels a pending double click while a triple click is registered.
pub open spec fn cancels_pending_click(kind: InputEventKind) -> bool {
    match kind {
        InputEventKind::KeyPress(_) => true,
        InputEventKind::Wheel => true,
        InputEventKind::ButtonPress(b) => b != MouseButton::Left,
        _ => false,
    }
}

/// State after the gesture handler saw an event, and the resulting actions.
pub open spec fn gesture_step(
    s: MouseState,
    event: InputEvent,
    flags: HandlerFlags,
    settings: Settings,
    obs: Observation,
    platform: Platform,
) -> (MouseState, Seq<MouseAction>) {
    match event.kind {
        InputEventKind::ButtonPress(MouseButton::Left) => press_step(s, settings, obs),
        InputEventKind::MouseMove { drag_distance_reached } => (
            move_step(s, drag_distance_reached),
            Seq::empty(),
        ),
        InputEventKind::ButtonRelease(MouseButton::Left) => release_step(
            s,
            flags,
            settings,
            obs,
            platform,
        ),
        InputEventKind::KeyPress(key) => key_press_step(
            s,
            key,
            event.platform_code,
            platform,
            obs,
        ),
        InputEventKind::KeyRelease(key) => if is_shift(key) {
            (MouseState { shift_pressed: false, ..s }, Seq::empty())
        } else {
            (s, Seq::empty())
        },
        InputEventKind::Wheel => if !obs.pointer_over_popup {
            (s, seq![MouseAction::HideToolbar { check_position: false }])
        } else {
            (s, Seq::empty())
        },
        _ => (s, Seq::empty()),
    }
}

/// State after an event, and the resulting actions.
pub open spec fn event_step(
    s: MouseState,
    event: InputEvent,
    flags: HandlerFlags,
    settings: Settings,
    obs: Observation,
    platform: Platform,
) -> (MouseState, Seq<MouseAction>) {
    let registered = flags.triple_click_registered;
    if flags.suspended || flags.paused {
        (
            if registered {
                MouseState { clicks: after_cancel(s.clicks, true), ..s }
            } else {
                s
            },
            Seq::empty(),
        )
    } else {
        let (s1, copied) = copy_step(s, event, platform);
        let s2 = if registered && cancels_pending_click(event.kind) {
            MouseState { clicks: after_cancel(s1.clicks, true), ..s1 }
        } else {
            s1
        };
        let (s3, acts) = gesture_step(s2, event, flags, settings, obs, platform);
        (s3, if copied {
            seq![MouseAction::CompensateUserCopy] + acts
        } else {
            acts
        })
    }
}

/// Whether the pointer counts as a text cursor: when the I-beam check is disabled every cursor
/// counts.
pub fn is_ibeam_cursor(check_enabled: bool, platform_reports: bool) -> (r: bool)
    ensures
        r == valid_cursor_spec(check_enabled, platform_reports),
{
    if check_enabled {
        platform_reports
    } else {
        true
    }
}

/// Whether a delayed double click may still be reported when its timer ends: the triple click
/// shortcut is still registered and shortcut handling is neither paused nor suspended.
pub fn double_click_still_wanted(flags: HandlerFlags) -> (r: bool)
    ensures
        r == (flags.triple_click_registered && !flags.paused && !flags.suspended),
{
    flags.triple_click_registered && !flags.paused && !flags.suspended
}

fn following(e: u64) -> (r: u64)
    ensures
        r == next_epoch(e),
{
    e.wrapping_add(1)
}

impl Gesture {
    /// Shortcut name the frontend knows the gesture by.
    pub fn shortcut(&self) -> (name: &'static str)
        ensures
            *self == Gesture::DragEnd ==> name@ == "MouseClick+MouseMove"@,
            *self == Gesture::ShiftClick ==> name@ == "Shift+MouseClick"@,
            *self == Gesture::DoubleClick ==> name@ == "MouseClick+MouseClick"@,
            *self == Gesture::TripleClick ==> name@ == "MouseClick+MouseClick+MouseClick"@,
            *self == Gesture::LongPress ==> name@ == "LongPress"@,
    {
        match self {
            Gesture::DragEnd => "MouseClick+MouseMove",
            Gesture::ShiftClick => "Shift+MouseClick",
            Gesture::DoubleClick => "MouseClick+MouseClick",
            Gesture::TripleClick => "MouseClick+MouseClick+MouseClick",
            Gesture::LongPress => "LongPress",
        }
    }
}

impl MouseTracker {
    /// Nothing pressed, no click recorded, every epoch at 0.
    pub fn new() -> (t: Self)
        ensures
            t@ == (MouseState {
                clicks: ClickState { epoch: 0, last_click: None },
                drag_start: None,
                is_dragging: false,
                is_valid_cursor: false,
                shift_pressed: false,
                copy_modifier_pressed: false,
                long_press_epoch: 0,
                long_press_triggered: false,
                toolbar_menu_open: false,
                clipboard_restore_interrupted: false,
                selection_end: None,
            }),
    {
        MouseTracker {
            clicks: ClickTracker::new(),
            drag_start: None,
            is_dragging: false,
            is_valid_cursor: false,
            shift_pressed: false,
            copy_modifier_pressed: false,
            long_press_epoch: 0,
            long_press_triggered: false,
            toolbar_menu_open: false,
            clipboard_restore_interrupted: false,
            selection_end: None,
        }
    }

    /// Set toolbar native menu open state.
    pub fn set_toolbar_menu_open(&mut self, open: bool)
        ensures
            final(self)@ == (MouseState { toolbar_menu_open: open, ..old(self)@ }),
    {
        self.toolbar_menu_open = open;
    }

    /// Remember the pointer position that finished the current selection; an unknown position
    /// leaves the recorded one in place.
    ///
    /// Only drag and shift-click selections are recorded: double clicks and keyboard selections
    /// keep the default alignment.
    pub fn record_selection_end(&mut self, pointer: Option<Point>)
        ensures
            final(self)@ == (MouseState {
                selection_end: selection_end_after(old(self)@, pointer),
                ..old(self)@
            }),
    {
        match pointer {
            Some(p) => {
                self.selection_end = Some(p);
            },
            None => {},
        }
    }

    /// Drop the recorded selection end pointer, so a stale position is never used.
    pub fn clear_selection_end(&mut self)
        ensures
            final(self)@ == (MouseState { selection_end: None, ..old(self)@ }),
    {
        self.selection_end = None;
    }

    /// Called when a long press timer ends: the press still counts when nothing made its epoch
    /// stale, and then it is marked as triggered.
    pub fn fire_long_press(&mut self, epoch: u64) -> (fired: bool)
        ensures
            fired == (old(self)@.long_press_epoch == epoch),
            fired ==> final(self)@ == (MouseState { long_press_triggered: true, ..old(self)@ }),
            !fired ==> final(self)@ == old(self)@,
    {
        if self.long_press_epoch == epoch {
            self.long_press_triggered = true;
            true
        } else {
            false
        }
    }

    /// Update platform copy modifier state (Ctrl on Windows, Command on macOS).
    pub fn update_copy_modifier_state(&mut self, key: InputKey, pressed: bool, platform: Platform)
        ensures
            is_copy_modifier(key, platform) ==> final(self)@ == (MouseState {
                copy_modifier_pressed: pressed,
                ..old(self)@
            }),
            !is_copy_modifier(key, platform) ==> final(self)@ == old(self)@,
    {
        let matches = match platform {
            Platform::Windows => key == InputKey::ControlLeft || key == InputKey::ControlRight,
            Platform::MacOs => key == InputKey::MetaLeft || key == InputKey::MetaRight,
        };
        if matches {
            self.copy_modifier_pressed = pressed;
        }
    }

    /// Detect a user copy operation; our own synthetic input is recognised by its marker and
    /// ignored. Returns whether Copy was pressed with the copy modifier held.
    pub fn detect_user_copy_operation(&mut self, event: &InputEvent, platform: Platform) -> (r:
        bool)
        ensures
            (final(self)@, r) == copy_step(old(self)@, *event, platform),
    {
        if event.marker == SIMULATED_INPUT_MARKER as u64 {
            return false;
        }
        match event.kind {
            InputEventKind::KeyPress(key) => {
                self.update_copy_modifier_state(key, true, platform);
                if key == InputKey::KeyC && self.copy_modifier_pressed {
                    self.clipboard_restore_interrupted = true;
                    true
                } else {
                    false
                }
            },
            InputEventKind::KeyRelease(key) => {
                self.update_copy_modifier_state(key, false, platform);
                false
            },
            _ => false,
        }
    }

    /// Handle a left button press: start tracking a drag, a possible third click and a long
    /// press, and hide the toolbar unless the press lands on it.
    pub fn handle_mouse_press(&mut self, settings: Settings, obs: Observation) -> (actions: Vec<
        MouseAction,
    >)
        ensures
            (final(self)@, actions@) == press_step(old(self)@, settings, obs),
    {
        // cancel a pending double click, but keep the sequence for triple click detection
        self.clicks.cancel_pending_click(false);
        let pos = match obs.pointer {
            Some(p) => p,
            None => return Vec::new(),
        };
        self.clicks.record_third_press(obs.now, pos);
        self.drag_start = Some(pos);
        self.is_dragging = false;
        // a new press invalidates the pointer position recorded for the previous selection
        self.clear_selection_end();
        let valid = is_ibeam_cursor(settings.ibeam_cursor, obs.ibeam_cursor);
        self.is_valid_cursor = valid;
        self.long_press_triggered = false;
        let mut actions: Vec<MouseAction> = Vec::new();
        if valid && settings.long_press {
            let epoch = following(self.long_press_epoch);
            self.long_press_epoch = epoch;
            actions.push(
                MouseAction::StartLongPressTimer {
                    epoch,
                    duration_ms: settings.long_press_duration,
                },
            );
        }
        actions.push(MouseAction::HideToolbar { check_position: true });
        actions
    }

    /// Handle a pointer move: moving the drag distance away from the press starts a drag and
    /// makes a pending long press stale.
    pub fn handle_mouse_move(&mut self, drag_distance_reached: bool)
        ensures
            final(self)@ == move_step(old(self)@, drag_distance_reached),
    {
        if self.drag_start.is_some() && drag_distance_reached {
            self.is_dragging = true;
            self.long_press_epoch = following(self.long_press_epoch);
        }
    }

    /// Handle a left button release: report a drag end, a shift-click, a double or a triple
    /// click.
    pub fn handle_mouse_release(
        &mut self,
        flags: HandlerFlags,
        settings: Settings,
        obs: Observation,
        platform: Platform,
    ) -> (actions: Vec<MouseAction>)
        ensures
            (final(self)@, actions@) == release_step(old(self)@, flags, settings, obs, platform),
    {
        // a release makes a pending long press stale
        self.long_press_epoch = following(self.long_press_epoch);
        self.drag_start = None;
        let registered = flags.triple_click_registered;
        if registered && (self.long_press_triggered || self.is_dragging || self.shift_pressed) {
            self.clicks.cancel_pending_click(true);
        }
        // a long press already reported this gesture
        if self.long_press_triggered {
            self.long_press_triggered = false;
            self.is_dragging = false;
            return Vec::new();
        }
        let valid = self.is_valid_cursor || is_ibeam_cursor(settings.ibeam_cursor, obs.ibeam_cursor);
        let mut actions: Vec<MouseAction> = Vec::new();
        if self.is_dragging {
            if valid {
                // the toolbar anchors on the side where the drag finished
                self.record_selection_end(obs.pointer);
                actions.push(MouseAction::Emit(Gesture::DragEnd));
            }
            self.is_dragging = false;
            return actions;
        }
        if self.shift_pressed {
            if valid {
                // the selection extends towards the click, so this position ends it as well
                self.record_selection_end(obs.pointer);
                actions.push(MouseAction::Emit(Gesture::ShiftClick));
            }
            // avoid a sticky shift state on macOS
            if platform == Platform::MacOs {
                self.shift_pressed = false;
            }
            return actions;
        }
        let pos = match obs.pointer {
            Some(p) => p,
            None => return actions,
        };
        let (count, epoch) = self.clicks.record_click(obs.now, pos, valid, registered);
        if count == 2 && registered {
            // wait for a possible third click before reporting the double click
            actions.push(MouseAction::ScheduleDoubleClick { epoch });
        } else if count == 2 {
            actions.push(MouseAction::Emit(Gesture::DoubleClick));
        } else if count == 3 {
            actions.push(MouseAction::Emit(Gesture::TripleClick));
        }
        actions
    }

    /// Close the toolbar's native action menu on a key press while it is open.
    ///
    /// Escape closes it by itself; the copy modifier alone leaves it open; any other key closes
    /// it, and Copy pressed with the copy modifier is replayed once the menu is gone. Returns
    /// whether the key was handled by the menu, and `Some(copy_after)` when the menu must be
    /// closed.
    pub fn close_native_menu(
        &mut self,
        key: InputKey,
        platform_code: u32,
        platform: Platform,
        copy_modifier_down: bool,
    ) -> (r: (bool, Option<bool>))
        ensures
            (final(self)@, r.0, r.1) == native_menu_step(
                old(self)@,
                key,
                platform_code,
                platform,
                copy_modifier_down,
            ),
    {
        if !self.toolbar_menu_open {
            return (false, None);
        }
        if key == InputKey::Escape {
            self.toolbar_menu_open = false;
            return (false, None);
        }
        match platform {
            Platform::Windows => {
                if key == InputKey::ControlLeft || key == InputKey::ControlRight {
                    return (true, None);
                }
            },
            Platform::MacOs => {
                if key == InputKey::MetaLeft || key == InputKey::MetaRight || platform_code
                    == MACOS_LEFT_COMMAND || platform_code == MACOS_RIGHT_COMMAND {
                    return (true, None);
                }
            },
        }
        let key_c = match platform {
            Platform::Windows => WINDOWS_KEY_C,
            Platform::MacOs => MACOS_KEY_C,
        };
        let copy = (key == InputKey::KeyC || platform_code == key_c) && (self.copy_modifier_pressed
            || copy_modifier_down);
        self.toolbar_menu_open = false;
        (false, Some(copy))
    }

    fn handle_key_press(
        &mut self,
        key: InputKey,
        platform_code: u32,
        platform: Platform,
        obs: Observation,
    ) -> (actions: Vec<MouseAction>)
        ensures
            (final(self)@, actions@) == key_press_step(
                old(self)@,
                key,
                platform_code,
                platform,
                obs,
            ),
    {
        let shift = key == InputKey::ShiftLeft || key == InputKey::ShiftRight;
        if shift {
            if platform == Platform::Windows && self.shift_pressed {
                // ignore repeated key presses on Windows
                return Vec::new();
            }
            self.shift_pressed = true;
        }
        let mut actions: Vec<MouseAction> = Vec::new();
        let (_handled, close) = self.close_native_menu(
            key,
            platform_code,
            platform,
            obs.copy_modifier_down,
        );
        match close {
            Some(copy_after) => actions.push(MouseAction::CloseNativeMenu { copy_after }),
            None => {},
        }
        actions
    }

    /// Handle a global input event: while shortcut handling is suspended or paused nothing is
    /// reported and a pending double click is dropped; otherwise user copies are detected, a
    /// pending double click is cancelled by other input, and gestures are tracked.
    pub fn handle_mouse_event(
        &mut self,
        event: InputEvent,
        flags: HandlerFlags,
        settings: Settings,
        obs: Observation,
        platform: Platform,
    ) -> (actions: Vec<MouseAction>)
        ensures
            (final(self)@, actions@) == event_step(
                old(self)@,
                event,
                flags,
                settings,
                obs,
                platform,
            ),
    {
        let registered = flags.triple_click_registered;
        if flags.suspended || flags.paused {
            if registered {
                self.clicks.cancel_pending_click(true);
            }
            return Vec::new();
        }
        let copied = self.detect_user_copy_operation(&event, platform);
        if registered {
            let cancel = match event.kind {
                InputEventKind::KeyPress(_) => true,
                InputEventKind::Wheel => true,
                InputEventKind::ButtonPress(b) => b != MouseButton::Left,
                _ => false,
            };
            if cancel {
                self.clicks.cancel_pending_click(true);
            }
        }
        let ghost mid = self@;
        let mut gesture_actions: Vec<MouseAction> = match event.kind {
            InputEventKind::ButtonPress(MouseButton::Left) => self.handle_mouse_press(settings, obs),
            InputEventKind::MouseMove { drag_distance_reached } => {
                self.handle_mouse_move(drag_distance_reached);
                Vec::new()
            },
            InputEventKind::ButtonRelease(MouseButton::Left) => self.handle_mouse_release(
                flags,
                settings,
                obs,
                platform,
            ),
            InputEventKind::KeyPress(key) => self.handle_key_press(
                key,
                event.platform_code,
                platform,
                obs,
            ),
            InputEventKind::KeyRelease(key) => {
                if key == InputKey::ShiftLeft || key == InputKey::ShiftRight {
                    self.shift_pressed = false;
                }
                Vec::new()
            },
            InputEventKind::Wheel => {
                // scrolling hides the toolbar, except over the result popup whose text must
                // stay scrollable
                if !obs.pointer_over_popup {
                    let mut v: Vec<MouseAction> = Vec::new();
                    v.push(MouseAction::HideToolbar { check_position: false });
                    v
                } else {
                    Vec::new()
                }
            },
            _ => Vec::new(),
        };
        assert((self@, gesture_actions@) == gesture_step(mid, event, flags, settings, obs, platform));
        if copied {
            let mut actions: Vec<MouseAction> = Vec::new();
            actions.push(MouseAction::CompensateUserCopy);
            actions.append(&mut gesture_actions);
            actions
        } else {
            gesture_actions
        }
    }
}


/// Input carrying our own marker never counts as a user copy and leaves the copy state alone,
/// even when it arrives after shortcut handling resumed.
pub proof fn law_simulated_input_never_interrupts(s: MouseState, event: InputEvent, platform: Platform)
    requires
        event.marker == SIMULATED_INPUT_MARKER as u64,
    ensures
        copy_step(s, event, platform) == (s, false),
{
}

/// Copy pressed while the copy modifier is held marks the clipboard restore as interrupted.
pub proof fn law_user_copy_interrupts(s: MouseState, event: InputEvent, platform: Platform)
    requires
        event.marker != SIMULATED_INPUT_MARKER as u64,
        event.kind == InputEventKind::KeyPress(InputKey::KeyC),
        s.copy_modifier_pressed,
    ensures
        copy_step(s, event, platform).1,
        copy_step(s, event, platform).0.clipboard_restore_interrupted,
{
}

/// While shortcut handling is suspended or paused, no gesture is reported and no action is
/// taken.
pub proof fn law_suspended_handler_reports_nothing(
    s: MouseState,
    event: InputEvent,
    flags: HandlerFlags,
    settings: Settings,
    obs: Observation,
    platform: Platform,
)
    requires
        flags.suspended || flags.paused,
    ensures
        event_step(s, event, flags, settings, obs, platform).1 == Seq::<MouseAction>::empty(),
{
}

/// A long press timer started by a press no longer fires once the button is released.
pub proof fn law_release_makes_long_press_stale(
    s: MouseState,
    flags: HandlerFlags,
    settings: Settings,
    obs: Observation,
    platform: Platform,
)
    ensures
        release_step(s, flags, settings, obs, platform).0.long_press_epoch != s.long_press_epoch,
{
}

/// Starting a drag makes a pending long press stale.
pub proof fn law_drag_makes_long_press_stale(s: MouseState)
    requires
        s.drag_start is Some,
    ensures
        move_step(s, true).is_dragging,
        move_step(s, true).long_press_epoch != s.long_press_epoch,
{
}

/// A release after a long press reports nothing more: the long press was the gesture.
pub proof fn law_long_press_release_reports_nothing(
    s: MouseState,
    flags: HandlerFlags,
    settings: Settings,
    obs: Observation,
    platform: Platform,
)
    requires
        s.long_press_triggered,
    ensures
        release_step(s, flags, settings, obs, platform).1 == Seq::<MouseAction>::empty(),
        !release_step(s, flags, settings, obs, platform).0.long_press_triggered,
{
}

/// With a triple click shortcut registered, a double click is never reported at once: it is
/// scheduled, so that a third click can still cancel it.
pub proof fn law_double_click_waits_for_triple(
    s: MouseState,
    flags: HandlerFlags,
    settings: Settings,
    obs: Observation,
    platform: Platform,
)
    requires
        flags.triple_click_registered,
    ensures
        !release_step(s, flags, settings, obs, platform).1.contains(
            MouseAction::Emit(Gesture::DoubleClick),
        ),
{
    let acts = release_step(s, flags, settings, obs, platform).1;
    if acts.contains(MouseAction::Emit(Gesture::DoubleClick)) {
        let i = choose|i: int| 0 <= i < acts.len() && acts[i] == MouseAction::Emit(Gesture::DoubleClick);
        assert(acts[i] == MouseAction::Emit(Gesture::DoubleClick));
    }
}

/// Escape closes the native menu without replaying anything.
pub proof fn law_escape_closes_native_menu(
    s: MouseState,
    platform_code: u32,
    platform: Platform,
    copy_modifier_down: bool,
)
    requires
        s.toolbar_menu_open,
    ensures
        native_menu_step(s, InputKey::Escape, platform_code, platform, copy_modifier_down) == (
            MouseState { toolbar_menu_open: false, ..s },
            false,
            None::<bool>,
        ),
{
}



/// A release reports a selection gesture (drag end or shift click), and records where the
/// selection ended, only when the pointer counts as a text cursor: it did at the press, the
/// I-beam check is off, or the platform reports the I-beam at the release. A drag end needs a
/// drag, and a drag released away from text reports nothing at all.
pub proof fn law_selection_gestures_need_text_cursor(
    s: MouseState,
    flags: HandlerFlags,
    settings: Settings,
    obs: Observation,
    platform: Platform,
)
    ensures
        ({
            let (s2, acts) = release_step(s, flags, settings, obs, platform);
            let text_cursor = s.is_valid_cursor || !settings.ibeam_cursor || obs.ibeam_cursor;
            &&& (acts.contains(MouseAction::Emit(Gesture::DragEnd)) || acts.contains(
                MouseAction::Emit(Gesture::ShiftClick),
            )) ==> text_cursor
            &&& acts.contains(MouseAction::Emit(Gesture::DragEnd)) ==> s.is_dragging
                && !s.long_press_triggered
            &&& s2.selection_end != s.selection_end ==> text_cursor && obs.pointer == s2.selection_end
            &&& s.is_dragging && !s.long_press_triggered && !text_cursor ==> acts.len() == 0
                && s2.selection_end == s.selection_end
        }),
{
    let (s2, acts) = release_step(s, flags, settings, obs, platform);
    if acts.contains(MouseAction::Emit(Gesture::DragEnd)) {
        let i = choose|i: int| 0 <= i < acts.len() && acts[i] == MouseAction::Emit(Gesture::DragEnd);
        assert(acts[i] == MouseAction::Emit(Gesture::DragEnd));
    }
    if acts.contains(MouseAction::Emit(Gesture::ShiftClick)) {
        let i = choose|i: int|
            0 <= i < acts.len() && acts[i] == MouseAction::Emit(Gesture::ShiftClick);
        assert(acts[i] == MouseAction::Emit(Gesture::ShiftClick));
    }
}

/// How long a cached selection can stand in for the clipboard after a user copy, in
/// nanoseconds.
pub const SELECTION_CACHE_TTL_NS: u64 = 1_000_000_000;

/// Whether a selection cached at `cached_at` is still fresh at `now` (less than a second old;
/// a cache time in the future counts as just cached).
pub fn selection_cache_is_fresh(now: u64, cached_at: u64) -> (r: bool)
    ensures
        r == ((if now >= cached_at { now - cached_at } else { 0 }) < SELECTION_CACHE_TTL_NS),
{
    let age = if now >= cached_at {
        now - cached_at
    } else {
        0
    };
    age < SELECTION_CACHE_TTL_NS
}

/// Whether the clipboard lost the user's copy: its text differs from the cached selection,
/// both compared without surrounding white space.
pub fn clipboard_needs_restore(current: &str, cached: &str) -> (r: bool)
    ensures
        r == (trim_seq(current@) != trim_seq(cached@)),
{
    !eq_chars(&trim(&chars_of(current)), &trim(&chars_of(cached)))
}

/// Whether a fetched selection is worth reporting: it holds more than white space.
pub fn selection_is_reportable(selection: &str) -> (r: bool)
    ensures
        r == (trim_seq(selection@).len() > 0),
{
    trim(&chars_of(selection)).len() > 0
}

} // verus!
