use textgo::keys::Platform;
use textgo::settings::Settings;
use textgo::text::{chars_of, eq_ignore_ascii_case, to_ascii_lower, trim};
use textgo::window::{
    focus_restore_step, hides_dock_icon, initialization_wait_step, near_point_position,
    should_dismiss_toolbar, show_step, toggle_step, FocusStep, InitWaitStep, ScreenArea, ShowStep,
    ToggleStep,
};

#[test]
fn showing_and_toggling_windows() {
    assert_eq!(show_step(true), ShowStep::Unminimize);
    assert_eq!(show_step(false), ShowStep::Show);
    assert_eq!(toggle_step(true, true, true, Platform::MacOs), ToggleStep::Unminimize);
    assert_eq!(toggle_step(false, false, false, Platform::Windows), ToggleStep::Show);
    assert_eq!(toggle_step(false, true, false, Platform::MacOs), ToggleStep::Show);
    assert_eq!(toggle_step(false, true, false, Platform::Windows), ToggleStep::Hide);
    assert_eq!(toggle_step(false, true, true, Platform::MacOs), ToggleStep::Hide);
    assert!(hides_dock_icon("main", Platform::MacOs));
    assert!(!hides_dock_icon("main", Platform::Windows));
    assert!(!hides_dock_icon("popup", Platform::MacOs));
}

#[test]
fn toolbar_dismissal() {
    assert!(!should_dismiss_toolbar(true, true, false, true, false));
    assert!(!should_dismiss_toolbar(false, false, false, true, false));
    assert!(should_dismiss_toolbar(false, true, false, false, false));
    assert!(should_dismiss_toolbar(false, true, true, true, false));
    assert!(!should_dismiss_toolbar(false, true, true, true, true));
    assert!(!should_dismiss_toolbar(false, true, true, false, false));
}

#[test]
fn windows_stay_inside_the_safe_area() {
    let screen = ScreenArea {
        x: 0,
        y: 0,
        width: 1920,
        height: 1080,
    };
    // next to the pointer: down and right
    assert_eq!(near_point_position(100, 100, true, 300, 200, screen, 80), (105, 105));
    // next to a selection end: up and left
    assert_eq!(near_point_position(100, 100, false, 300, 200, screen, 80), (95, 95));
    // clamped to the right edge and above the bottom safe area
    assert_eq!(
        near_point_position(1900, 1000, true, 300, 200, screen, 80),
        (1918 - 300, 1078 - 200 - 80)
    );
    // clamped to the top left margin
    assert_eq!(near_point_position(0, 0, false, 300, 200, screen, 80), (2, 2));
    // a window larger than the screen sticks to the top left margin
    assert_eq!(near_point_position(500, 500, true, 4000, 3000, screen, 80), (2, 2));
}

#[test]
fn focus_restore_checks_then_gives_up() {
    assert_eq!(focus_restore_step(0, true), FocusStep::Restored);
    assert_eq!(focus_restore_step(0, false), FocusStep::Wait);
    assert_eq!(focus_restore_step(49, false), FocusStep::Wait);
    assert_eq!(focus_restore_step(50, false), FocusStep::Failed);
    assert_eq!(focus_restore_step(50, true), FocusStep::Restored);
}

#[test]
fn settings_setters() {
    let mut s = Settings::new();
    s.set_copy_key("ctrl_c");
    assert!(s.use_ctrl_c);
    s.set_copy_key("ctrl_insert");
    assert!(!s.use_ctrl_c);
    s.set_force_get_selection(true);
    s.set_long_press_enabled(true);
    s.set_long_press_duration(750);
    s.set_ibeam_cursor_enabled(true);
    assert!(s.force_get_selection && s.long_press && s.ibeam_cursor);
    assert_eq!(s.long_press_duration, 750);
}

#[test]
fn text_helpers() {
    assert_eq!(trim(&chars_of("\u{3000} a b \u{85}")), chars_of("a b"));
    assert_eq!(trim(&chars_of("   ")), Vec::<char>::new());
    assert_eq!(to_ascii_lower(&chars_of("AbÉ")), chars_of("abÉ"));
    assert!(eq_ignore_ascii_case("Zh-cN", "zh-CN"));
    assert!(!eq_ignore_ascii_case("é", "É"));
}

#[test]
fn show_events_wait_for_initialization_at_most_the_timeout() {
    assert_eq!(initialization_wait_step(0, true), InitWaitStep::Emit);
    assert_eq!(initialization_wait_step(0, false), InitWaitStep::Wait);
    assert_eq!(initialization_wait_step(499, false), InitWaitStep::Wait);
    assert_eq!(initialization_wait_step(500, false), InitWaitStep::Emit);
    assert_eq!(initialization_wait_step(17, true), InitWaitStep::Emit);
}
