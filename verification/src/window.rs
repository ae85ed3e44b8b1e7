//! Window decisions: showing, hiding and toggling windows, placing a window near the pointer,
//! dismissing the toolbar, and waiting for the popup's source application to regain focus.
use vstd::prelude::*;

use crate::keys::Platform;
use crate::text::{chars_of, eq_str};

verus! {

/// Offset between a window and the point it is placed next to, in logical pixels.
pub const WINDOW_OFFSET: i32 = 5;

/// Gap kept between a window and the screen edges, in logical pixels.
pub const SCREEN_EDGE_MARGIN: i32 = 2;

/// Longest wait for the popup source application to regain focus, in milliseconds.
pub const FOCUS_RESTORE_TIMEOUT_MS: u64 = 500;

/// Interval between source focus checks, in milliseconds.
pub const FOCUS_RESTORE_INTERVAL_MS: u64 = 10;

/// How a window is brought to the front.
#[derive(Clone, Copy, Debug, PartialEq, Eq, Structural)]
pub enum ShowStep {
    Unminimize,
    Show,
}

/// What toggling a window does.
#[derive(Clone, Copy, Debug, PartialEq, Eq, Structural)]
pub enum ToggleStep {
    Unminimize,
    Show,
    Hide,
}

/// Showing a window: a minimized one is restored, any other one is shown; it is focused
/// afterwards either way.
pub fn show_step(minimized: bool) -> (s: ShowStep)
    ensures
        minimized ==> s == ShowStep::Unminimize,
        !minimized ==> s == ShowStep::Show,
{
    if minimized {
        ShowStep::Unminimize
    } else {
        ShowStep::Show
    }
}

/// Toggling a window: a minimized one is restored, a hidden one (or, on macOS, an unfocused
/// one) is shown, and a visible one is hidden.
pub fn toggle_step(minimized: bool, visible: bool, focused: bool, platform: Platform) -> (s:
    ToggleStep)
    ensures
        minimized ==> s == ToggleStep::Unminimize,
        !minimized && !visible ==> s == ToggleStep::Show,
        !minimized && visible && platform == Platform::MacOs && !focused ==> s == ToggleStep::Show,
        !minimized && visible && (platform == Platform::Windows || focused) ==> s
            == ToggleStep::Hide,
{
    if minimized {
        return ToggleStep::Unminimize;
    }
    if !visible {
        return ToggleStep::Show;
    }
    if platform == Platform::MacOs && !focused {
        return ToggleStep::Show;
    }
    ToggleStep::Hide
}

/// Whether hiding a window also hides the dock icon: only the main window, only on macOS.
pub fn hides_dock_icon(label: &str, platform: Platform) -> (r: bool)
    ensures
        r == (platform == Platform::MacOs && label@ == "main"@),
{
    platform == Platform::MacOs && eq_str(&chars_of(label), "main")
}

/// Whether a toolbar hide request dismisses the toolbar. An open native menu keeps it (its
/// items lie outside the toolbar); a hidden toolbar has nothing to dismiss; otherwise it is
/// dismissed unless the position counts and the pointer is on the toolbar or on the result
/// popup next to it.
pub fn should_dismiss_toolbar(
    menu_open: bool,
    visible: bool,
    check_position: bool,
    pointer_outside_toolbar: bool,
    pointer_inside_popup: bool,
) -> (r: bool)
    ensures
        r == (!menu_open && visible && (!check_position || (pointer_outside_toolbar
            && !pointer_inside_popup))),
{
    if menu_open {
        return false;
    }
    if !visible {
        return false;
    }
    if !check_position {
        return true;
    }
    pointer_outside_toolbar && !pointer_inside_popup
}

/// A screen rectangle in logical pixels: origin and size.
#[derive(Clone, Copy, Debug, PartialEq, Eq, Structural)]
pub struct ScreenArea {
    pub x: i32,
    pub y: i32,
    pub width: i32,
    pub height: i32,
}

pub open spec fn clamp_spec(v: int, lo: int, hi: int) -> int {
    if v < lo {
        lo
    } else if v > hi {
        hi
    } else {
        v
    }
}

pub open spec fn max_spec(a: int, b: int) -> int {
    if a >= b {
        a
    } else {
        b
    }
}

/// The part of the i32 range every intermediate of [`near_point_position`] stays in.
pub open spec fn fits_i32(v: int) -> bool {
    i32::MIN <= v <= i32::MAX
}

/// Where a window of the given size goes next to the point `(x, y)`: offset by
/// [`WINDOW_OFFSET`] (down and right of the pointer, up and left of a selection end), then kept
/// inside the screen, a margin away from its edges and above the bottom safe area.
pub open spec fn near_point_spec(
    x: int,
    y: int,
    at_pointer: bool,
    window_width: int,
    window_height: int,
    screen: ScreenArea,
    safe_area_bottom: int,
) -> (int, int) {
    let offset = if at_pointer {
        WINDOW_OFFSET as int
    } else {
        -WINDOW_OFFSET
    };
    let min_x = screen.x + SCREEN_EDGE_MARGIN;
    let max_x = max_spec(screen.x + screen.width - window_width - SCREEN_EDGE_MARGIN, min_x);
    let min_y = screen.y + SCREEN_EDGE_MARGIN;
    let max_y = max_spec(
        screen.y + screen.height - window_height - safe_area_bottom - SCREEN_EDGE_MARGIN,
        min_y,
    );
    (clamp_spec(x + offset, min_x, max_x), clamp_spec(y + offset, min_y, max_y))
}

fn clamp_i32(v: i32, lo: i32, hi: i32) -> (r: i32)
    requires
        lo <= hi,
    ensures
        r == clamp_spec(v as int, lo as int, hi as int),
{
    if v < lo {
        lo
    } else if v > hi {
        hi
    } else {
        v
    }
}

/// Where a window of the given size goes next to the point `(x, y)` (see [`near_point_spec`]).
pub fn near_point_position(
    x: i32,
    y: i32,
    at_pointer: bool,
    window_width: i32,
    window_height: i32,
    screen: ScreenArea,
    safe_area_bottom: i32,
) -> (r: (i32, i32))
    requires
        fits_i32(x + WINDOW_OFFSET) && fits_i32(x - WINDOW_OFFSET),
        fits_i32(y + WINDOW_OFFSET) && fits_i32(y - WINDOW_OFFSET),
        fits_i32(screen.x + SCREEN_EDGE_MARGIN),
        fits_i32(screen.y + SCREEN_EDGE_MARGIN),
        fits_i32(screen.x + screen.width),
        fits_i32(screen.x + screen.width - window_width),
        fits_i32(screen.x + screen.width - window_width - SCREEN_EDGE_MARGIN),
        fits_i32(screen.y + screen.height),
        fits_i32(screen.y + screen.height - window_height),
        fits_i32(screen.y + screen.height - window_height - safe_area_bottom),
        fits_i32(screen.y + screen.height - window_height - safe_area_bottom - SCREEN_EDGE_MARGIN),
    ensures
        r.0 == near_point_spec(
            x as int,
            y as int,
            at_pointer,
            window_width as int,
            window_height as int,
            screen,
            safe_area_bottom as int,
        ).0,
        r.1 == near_point_spec(
            x as int,
            y as int,
            at_pointer,
            window_width as int,
            window_height as int,
            screen,
            safe_area_bottom as int,
        ).1,
{
    let min_x = screen.x + SCREEN_EDGE_MARGIN;
    let right = screen.x + screen.width - window_width - SCREEN_EDGE_MARGIN;
    let max_x = if right >= min_x {
        right
    } else {
        min_x
    };
    let min_y = screen.y + SCREEN_EDGE_MARGIN;
    let bottom = screen.y + screen.height - window_height - safe_area_bottom - SCREEN_EDGE_MARGIN;
    let max_y = if bottom >= min_y {
        bottom
    } else {
        min_y
    };
    let offset = if at_pointer {
        WINDOW_OFFSET
    } else {
        -WINDOW_OFFSET
    };
    (clamp_i32(x + offset, min_x, max_x), clamp_i32(y + offset, min_y, max_y))
}

/// Next step while waiting for the popup source to regain focus.
#[derive(Clone, Copy, Debug, PartialEq, Eq, Structural)]
pub enum FocusStep {
    /// The source owns focus again.
    Restored,
    /// Wait one interval and check again.
    Wait,
    /// Give up: the source did not regain focus in time.
    Failed,
}

/// Number of the last focus check: checks run at 0, 1, ..., this number.
pub open spec fn last_focus_check() -> u64 {
    (FOCUS_RESTORE_TIMEOUT_MS / FOCUS_RESTORE_INTERVAL_MS) as u64
}

/// After focus check `check` found the source active or not: done when active, otherwise wait
/// for another check, unless this was the last one.
pub fn focus_restore_step(check: u64, active: bool) -> (s: FocusStep)
    requires
        check <= last_focus_check(),
    ensures
        active ==> s == FocusStep::Restored,
        !active && check < last_focus_check() ==> s == FocusStep::Wait,
        !active && check == last_focus_check() ==> s == FocusStep::Failed,
{
    let max_checks = FOCUS_RESTORE_TIMEOUT_MS / FOCUS_RESTORE_INTERVAL_MS;
    if active {
        FocusStep::Restored
    } else if check < max_checks {
        FocusStep::Wait
    } else {
        FocusStep::Failed
    }
}

/// How long a window's content may take to initialize before its show event is sent anyway.
pub const INITIALIZATION_TIMEOUT_MS: u64 = 5000;

/// Interval between checks whether a window's content has initialized.
pub const INITIALIZATION_CHECK_INTERVAL_MS: u64 = 10;

/// Next step while a window's show event waits for its content to initialize.
#[derive(Clone, Copy, Debug, PartialEq, Eq, Structural)]
pub enum InitWaitStep {
    /// Send the show event now.
    Emit,
    /// Wait one interval and check again.
    Wait,
}

/// Number of intervals the show event waits at most.
pub open spec fn last_initialization_check() -> u64 {
    (INITIALIZATION_TIMEOUT_MS / INITIALIZATION_CHECK_INTERVAL_MS) as u64
}

/// After `waited` intervals, with the content initialized or not: the event goes out once the
/// content has initialized or the wait is over, otherwise it waits another interval.
pub fn initialization_wait_step(waited: u64, initialized: bool) -> (s: InitWaitStep)
    ensures
        initialized || waited >= last_initialization_check() ==> s == InitWaitStep::Emit,
        !initialized && waited < last_initialization_check() ==> s == InitWaitStep::Wait,
{
    if initialized || waited >= INITIALIZATION_TIMEOUT_MS / INITIALIZATION_CHECK_INTERVAL_MS {
        InitWaitStep::Emit
    } else {
        InitWaitStep::Wait
    }
}

/// A window placed next to a point keeps a 2 pixel gap to the screen's left and top edges, and
/// to its right edge and the bottom safe area where the window fits; a point whose 5 pixel
/// offset (down and right of the pointer, up and left of a selection end) already lies in that
/// range is only offset, and one outside it is moved to the nearest edge of the range.
pub proof fn law_near_point_stays_on_screen(
    x: int,
    y: int,
    at_pointer: bool,
    window_width: int,
    window_height: int,
    screen: ScreenArea,
    safe_area_bottom: int,
)
    ensures
        ({
            let r = near_point_spec(x, y, at_pointer, window_width, window_height, screen, safe_area_bottom);
            let px = if at_pointer { x + 5 } else { x - 5 };
            let py = if at_pointer { y + 5 } else { y - 5 };
            let lo_x = screen.x + 2;
            let fit_x = screen.x + screen.width - window_width - 2;
            let hi_x = if fit_x >= lo_x { fit_x } else { lo_x };
            let lo_y = screen.y + 2;
            let fit_y = screen.y + screen.height - window_height - safe_area_bottom - 2;
            let hi_y = if fit_y >= lo_y { fit_y } else { lo_y };
            &&& lo_x <= r.0 <= hi_x
            &&& lo_y <= r.1 <= hi_y
            &&& (lo_x <= px <= hi_x ==> r.0 == px)
            &&& (px < lo_x ==> r.0 == lo_x)
            &&& (px > hi_x ==> r.0 == hi_x)
            &&& (lo_y <= py <= hi_y ==> r.1 == py)
            &&& (py < lo_y ==> r.1 == lo_y)
            &&& (py > hi_y ==> r.1 == hi_y)
        }),
{
}

} // verus!
