use textgo::mouse::{clipboard_needs_restore, selection_cache_is_fresh, selection_is_reportable};
use textgo::clicks::{ClickTracker, Point};
use textgo::keys::Platform;
use textgo::mouse::{
    double_click_still_wanted, is_ibeam_cursor, Gesture, HandlerFlags, InputEvent,
    InputEventKind, InputKey, MouseAction, MouseButton, MouseTracker, Observation,
    SIMULATED_INPUT_MARKER,
};
use textgo::settings::Settings;

const MS: u64 = 1_000_000;

fn at(x: i32, y: i32) -> Point {
    Point { x, y }
}

#[test]
fn click_sequences_keep_double_and_triple_clicks_exclusive() {
    let mut clicks = ClickTracker::new();
    let start: u64 = 1_000 * MS;
    let pos = at(10, 10);

    // check click counts with and without triple click registration
    for (registered, expected) in [(false, [1, 2, 1, 2]), (true, [1, 2, 3, 1])] {
        clicks.cancel_pending_click(true);
        for (index, count) in expected.into_iter().enumerate() {
            clicks.cancel_pending_click(false);
            clicks.record_third_press(start + index as u64 * 100 * MS, pos);
            assert_eq!(
                clicks
                    .record_click(start + index as u64 * 100 * MS, pos, true, registered)
                    .0,
                count,
            );
        }
    }

    // check interval, distance and cursor limits for consecutive clicks
    for (interval, offset, valid_cursor, expected) in [
        (499, 2, true, 3),
        (500, 0, true, 1),
        (100, 3, true, 1),
        (100, 0, false, 1),
    ] {
        clicks.cancel_pending_click(true);
        let mut count = 0;
        for index in 0..3u64 {
            clicks.cancel_pending_click(false);
            let p = at(pos.x + index as i32 * offset, pos.y);
            clicks.record_third_press(start + index * interval * MS, p);
            count = clicks
                .record_click(start + index * interval * MS, p, valid_cursor, true)
                .0;
        }
        assert_eq!(count, expected);
    }

    // emit once on timeout and start a new click sequence afterward
    clicks.cancel_pending_click(true);
    clicks.record_click(start, pos, true, true);
    let (_, epoch) = clicks.record_click(start + 100 * MS, pos, true, true);
    let mut emitted = 0;
    assert!(clicks
        .dispatch_pending_double_click(epoch, || -> Result<(), ()> {
            emitted += 1;
            Ok(())
        })
        .unwrap());
    assert!(!clicks
        .dispatch_pending_double_click(epoch, || -> Result<(), ()> {
            panic!("duplicate double click")
        })
        .unwrap());
    assert_eq!(emitted, 1);
    clicks.cancel_pending_click(false);
    assert_eq!(clicks.record_click(start + 601 * MS, pos, true, true).0, 1);

    // cancel pending double click on third press and preserve the click count
    let (_, epoch) = clicks.record_click(start + 700 * MS, pos, true, true);
    clicks.cancel_pending_click(false);
    clicks.record_third_press(start + 750 * MS, pos);
    assert!(!clicks
        .dispatch_pending_double_click(epoch, || -> Result<(), ()> {
            panic!("canceled double click")
        })
        .unwrap());
    assert_eq!(clicks.record_click(start + 800 * MS, pos, true, true).0, 3);

    // cancel pending double click and reset the click sequence on other input
    clicks.record_click(start + 900 * MS, pos, true, true);
    let (_, epoch) = clicks.record_click(start + 1000 * MS, pos, true, true);
    clicks.cancel_pending_click(true);
    assert!(!clicks
        .dispatch_pending_double_click(epoch, || -> Result<(), ()> {
            panic!("canceled double click")
        })
        .unwrap());
    assert_eq!(clicks.record_click(start + 1100 * MS, pos, true, true).0, 1);

    // invalidate click state when registration changes or handling is suspended
    clicks.invalidate_epoch();
    clicks.cancel_pending_click(false);
    assert_eq!(clicks.record_click(start + 1200 * MS, pos, true, false).0, 1);
    clicks.cancel_pending_click(true);

    // accept a timely third press even if release occurs after 500ms
    // reject late presses or clicks outside the distance limit
    for (press_ms, press_offset, release_offset, expected) in [
        (450, 0, 0, 3),
        (499, 0, 0, 3),
        (500, 0, 0, 1),
        (501, 0, 0, 1),
        (450, 3, 0, 1),
        (450, 0, 3, 1),
    ] {
        clicks.cancel_pending_click(true);
        clicks.record_click(start, pos, true, true);
        let second_release = start + 100 * MS;
        let (_, epoch) = clicks.record_click(second_release, pos, true, true);
        clicks.cancel_pending_click(false);
        clicks.record_third_press(second_release + press_ms * MS, at(pos.x + press_offset, pos.y));
        assert!(!clicks
            .dispatch_pending_double_click(epoch, || -> Result<(), ()> {
                panic!("double before third release")
            })
            .unwrap());
        assert_eq!(
            clicks
                .record_click(
                    second_release + 550 * MS,
                    at(pos.x + release_offset, pos.y),
                    true,
                    true,
                )
                .0,
            expected,
        );
    }

    // invalidate recorded third press on other gestures or epoch changes
    for reset_sequence in [false, true] {
        clicks.cancel_pending_click(true);
        clicks.record_click(start, pos, true, true);
        clicks.record_click(start + 100 * MS, pos, true, true);
        clicks.cancel_pending_click(false);
        clicks.record_third_press(start + 550 * MS, pos);
        if reset_sequence {
            clicks.cancel_pending_click(true);
        } else {
            clicks.invalidate_epoch();
        }
        assert_eq!(clicks.record_click(start + 650 * MS, pos, true, true).0, 1);
    }

    // a cancellation before the final dispatch check refuses the dispatch
    clicks.cancel_pending_click(true);
    clicks.record_click(start, pos, true, true);
    let (_, epoch) = clicks.record_click(start + 100 * MS, pos, true, true);
    clicks.cancel_pending_click(true);
    assert!(!clicks
        .dispatch_pending_double_click(epoch, || -> Result<(), ()> { panic!("stale dispatch") })
        .unwrap());

    // a dispatch finishes before a later cancellation, which can not replay it
    clicks.cancel_pending_click(true);
    clicks.record_click(start, pos, true, true);
    let (_, epoch) = clicks.record_click(start + 100 * MS, pos, true, true);
    let mut dispatched = false;
    assert!(clicks
        .dispatch_pending_double_click(epoch, || -> Result<(), ()> {
            dispatched = true;
            Ok(())
        })
        .unwrap());
    assert!(dispatched);
    clicks.cancel_pending_click(true);
    assert!(!clicks
        .dispatch_pending_double_click(epoch, || -> Result<(), ()> {
            panic!("replayed dispatch")
        })
        .unwrap());
    clicks.cancel_pending_click(true);
}

#[test]
fn dispatch_errors_are_passed_on_after_claiming_the_epoch() {
    let mut clicks = ClickTracker::new();
    let epoch = clicks.epoch();
    assert_eq!(
        clicks.dispatch_pending_double_click(epoch, || Err("emit failed")),
        Err("emit failed")
    );
    assert_ne!(clicks.epoch(), epoch);
}

#[test]
fn epochs_wrap_around() {
    let mut clicks = ClickTracker::new();
    assert_eq!(clicks.epoch(), 0);
    clicks.cancel_pending_click(true);
    assert_eq!(clicks.epoch(), 1);
    assert!(clicks.last_click().is_none());
}

fn key_event(kind: InputEventKind, marker: u64) -> InputEvent {
    InputEvent {
        kind,
        platform_code: 0,
        marker,
    }
}

#[test]
fn copy_detection_distinguishes_simulated_and_user_input() {
    for (platform, modifier) in [
        (Platform::MacOs, InputKey::MetaLeft),
        (Platform::Windows, InputKey::ControlLeft),
    ] {
        // A late synthetic event reaches this detector after shortcut handling resumes.
        // Other applications' injected shortcuts must still count as user copy operations.
        for (marker, should_interrupt) in [
            (SIMULATED_INPUT_MARKER as u64, false),
            (0, true),
            (enigo::EVENT_MARKER as u64, true),
        ] {
            let mut tracker = MouseTracker::new();
            tracker.copy_modifier_pressed = false;
            tracker.clipboard_restore_interrupted = false;
            for kind in [
                InputEventKind::KeyPress(modifier),
                InputEventKind::KeyPress(InputKey::KeyC),
                InputEventKind::KeyRelease(InputKey::KeyC),
                InputEventKind::KeyRelease(modifier),
            ] {
                tracker.detect_user_copy_operation(&key_event(kind, marker), platform);
            }
            assert_eq!(
                tracker.clipboard_restore_interrupted, should_interrupt,
                "unexpected copy interruption for marker {marker:#x}",
            );
        }
    }
}

fn observe(now: u64, pointer: Option<Point>) -> Observation {
    Observation {
        now,
        pointer,
        ibeam_cursor: true,
        pointer_over_popup: false,
        copy_modifier_down: false,
    }
}

const ACTIVE: HandlerFlags = HandlerFlags {
    suspended: false,
    paused: false,
    triple_click_registered: false,
};

fn settings() -> Settings {
    let mut s = Settings::new();
    s.set_ibeam_cursor_enabled(true);
    s
}

fn event(kind: InputEventKind) -> InputEvent {
    key_event(kind, 0)
}

#[test]
fn drag_reports_its_end_and_records_where_it_ended() {
    let mut t = MouseTracker::new();
    let s = settings();
    let press = t.handle_mouse_event(
        event(InputEventKind::ButtonPress(MouseButton::Left)),
        ACTIVE,
        s,
        observe(0, Some(at(5, 5))),
        Platform::Windows,
    );
    assert_eq!(press, vec![MouseAction::HideToolbar { check_position: true }]);
    assert_eq!(t.drag_start, Some(at(5, 5)));
    t.handle_mouse_event(
        event(InputEventKind::MouseMove {
            drag_distance_reached: true,
        }),
        ACTIVE,
        s,
        observe(MS, Some(at(40, 5))),
        Platform::Windows,
    );
    assert!(t.is_dragging);
    let release = t.handle_mouse_event(
        event(InputEventKind::ButtonRelease(MouseButton::Left)),
        ACTIVE,
        s,
        observe(2 * MS, Some(at(40, 5))),
        Platform::Windows,
    );
    assert_eq!(release, vec![MouseAction::Emit(Gesture::DragEnd)]);
    assert_eq!(t.selection_end, Some(at(40, 5)));
    assert!(!t.is_dragging);
    assert_eq!(t.drag_start, None);
}

#[test]
fn double_click_is_reported_or_scheduled() {
    for (registered, expected) in [
        (false, MouseAction::Emit(Gesture::DoubleClick)),
        (true, MouseAction::ScheduleDoubleClick { epoch: 2 }),
    ] {
        let flags = HandlerFlags {
            triple_click_registered: registered,
            ..ACTIVE
        };
        let mut t = MouseTracker::new();
        let s = settings();
        let mut last = Vec::new();
        for i in 0..2u64 {
            t.handle_mouse_event(
                event(InputEventKind::ButtonPress(MouseButton::Left)),
                flags,
                s,
                observe(i * 100 * MS, Some(at(1, 1))),
                Platform::MacOs,
            );
            last = t.handle_mouse_event(
                event(InputEventKind::ButtonRelease(MouseButton::Left)),
                flags,
                s,
                observe(i * 100 * MS + MS, Some(at(1, 1))),
                Platform::MacOs,
            );
        }
        assert_eq!(last, vec![expected]);
    }
}

#[test]
fn triple_click_is_reported_when_registered() {
    let flags = HandlerFlags {
        triple_click_registered: true,
        ..ACTIVE
    };
    let mut t = MouseTracker::new();
    let s = settings();
    let mut last = Vec::new();
    for i in 0..3u64 {
        t.handle_mouse_event(
            event(InputEventKind::ButtonPress(MouseButton::Left)),
            flags,
            s,
            observe(i * 100 * MS, Some(at(1, 1))),
            Platform::Windows,
        );
        last = t.handle_mouse_event(
            event(InputEventKind::ButtonRelease(MouseButton::Left)),
            flags,
            s,
            observe(i * 100 * MS + MS, Some(at(1, 1))),
            Platform::Windows,
        );
    }
    assert_eq!(last, vec![MouseAction::Emit(Gesture::TripleClick)]);
}

#[test]
fn long_press_fires_only_while_the_button_is_held() {
    let mut t = MouseTracker::new();
    let mut s = settings();
    s.set_long_press_enabled(true);
    s.set_long_press_duration(600);
    let press = t.handle_mouse_press(s, observe(0, Some(at(3, 3))));
    let epoch = match press[0] {
        MouseAction::StartLongPressTimer { epoch, duration_ms } => {
            assert_eq!(duration_ms, 600);
            epoch
        }
        other => panic!("unexpected {:?}", other),
    };
    assert!(t.fire_long_press(epoch));
    // the release after a long press reports nothing else
    let release = t.handle_mouse_release(ACTIVE, s, observe(MS, Some(at(3, 3))), Platform::MacOs);
    assert!(release.is_empty());
    assert!(!t.long_press_triggered);

    let press = t.handle_mouse_press(s, observe(2 * MS, Some(at(3, 3))));
    let epoch = match press[0] {
        MouseAction::StartLongPressTimer { epoch, .. } => epoch,
        other => panic!("unexpected {:?}", other),
    };
    t.handle_mouse_release(ACTIVE, s, observe(3 * MS, Some(at(3, 3))), Platform::MacOs);
    assert!(!t.fire_long_press(epoch));
}

#[test]
fn suspended_handling_reports_nothing_and_drops_pending_clicks() {
    let mut t = MouseTracker::new();
    let flags = HandlerFlags {
        suspended: true,
        paused: false,
        triple_click_registered: true,
    };
    let before = t.clicks.epoch();
    let actions = t.handle_mouse_event(
        event(InputEventKind::ButtonPress(MouseButton::Left)),
        flags,
        settings(),
        observe(0, Some(at(0, 0))),
        Platform::Windows,
    );
    assert!(actions.is_empty());
    assert_ne!(t.clicks.epoch(), before);
    assert!(!double_click_still_wanted(flags));
    assert!(double_click_still_wanted(HandlerFlags {
        triple_click_registered: true,
        ..ACTIVE
    }));
}

#[test]
fn shift_click_extends_the_selection() {
    let mut t = MouseTracker::new();
    let s = settings();
    t.handle_mouse_event(
        event(InputEventKind::KeyPress(InputKey::ShiftLeft)),
        ACTIVE,
        s,
        observe(0, None),
        Platform::MacOs,
    );
    assert!(t.shift_pressed);
    let release = t.handle_mouse_event(
        event(InputEventKind::ButtonRelease(MouseButton::Left)),
        ACTIVE,
        s,
        observe(MS, Some(at(9, 9))),
        Platform::MacOs,
    );
    assert_eq!(release, vec![MouseAction::Emit(Gesture::ShiftClick)]);
    assert_eq!(t.selection_end, Some(at(9, 9)));
    // macOS drops the shift state after a shift-click
    assert!(!t.shift_pressed);
}

#[test]
fn wheel_hides_the_toolbar_unless_over_the_popup() {
    let mut t = MouseTracker::new();
    let s = settings();
    let hide = t.handle_mouse_event(event(InputEventKind::Wheel), ACTIVE, s, observe(0, None), Platform::Windows);
    assert_eq!(hide, vec![MouseAction::HideToolbar { check_position: false }]);
    let mut over = observe(0, None);
    over.pointer_over_popup = true;
    assert!(t
        .handle_mouse_event(event(InputEventKind::Wheel), ACTIVE, s, over, Platform::Windows)
        .is_empty());
}

#[test]
fn native_menu_closes_and_replays_copy() {
    let mut t = MouseTracker::new();
    t.set_toolbar_menu_open(true);
    // the copy modifier alone keeps the menu open
    assert_eq!(
        t.close_native_menu(InputKey::ControlLeft, 0, Platform::Windows, false),
        (true, None)
    );
    t.copy_modifier_pressed = true;
    assert_eq!(
        t.close_native_menu(InputKey::KeyC, 0, Platform::Windows, false),
        (false, Some(true))
    );
    assert!(!t.toolbar_menu_open);
    // closed menu: nothing to do
    assert_eq!(
        t.close_native_menu(InputKey::KeyC, 0, Platform::Windows, false),
        (false, None)
    );
    t.set_toolbar_menu_open(true);
    assert_eq!(
        t.close_native_menu(InputKey::Escape, 0, Platform::MacOs, false),
        (false, None)
    );
    assert!(!t.toolbar_menu_open);
    t.set_toolbar_menu_open(true);
    t.copy_modifier_pressed = false;
    // the command key by its macOS key code
    assert_eq!(
        t.close_native_menu(InputKey::Other, 55, Platform::MacOs, false),
        (true, None)
    );
    assert_eq!(
        t.close_native_menu(InputKey::Other, 8, Platform::MacOs, true),
        (false, Some(true))
    );
}

#[test]
fn key_presses_route_through_the_menu_and_copy_detection() {
    let mut t = MouseTracker::new();
    t.set_toolbar_menu_open(true);
    let s = settings();
    let actions = t.handle_mouse_event(
        event(InputEventKind::KeyPress(InputKey::ControlLeft)),
        ACTIVE,
        s,
        observe(0, None),
        Platform::Windows,
    );
    assert!(actions.is_empty());
    let actions = t.handle_mouse_event(
        event(InputEventKind::KeyPress(InputKey::KeyC)),
        ACTIVE,
        s,
        observe(0, None),
        Platform::Windows,
    );
    assert_eq!(
        actions,
        vec![
            MouseAction::CompensateUserCopy,
            MouseAction::CloseNativeMenu { copy_after: true }
        ]
    );
    assert!(t.clipboard_restore_interrupted);
}

#[test]
fn ibeam_check_can_be_disabled() {
    assert!(is_ibeam_cursor(false, false));
    assert!(is_ibeam_cursor(true, true));
    assert!(!is_ibeam_cursor(true, false));
}

#[test]
fn gesture_shortcut_names() {
    assert_eq!(Gesture::DragEnd.shortcut(), "MouseClick+MouseMove");
    assert_eq!(Gesture::ShiftClick.shortcut(), "Shift+MouseClick");
    assert_eq!(Gesture::DoubleClick.shortcut(), "MouseClick+MouseClick");
    assert_eq!(
        Gesture::TripleClick.shortcut(),
        "MouseClick+MouseClick+MouseClick"
    );
    assert_eq!(Gesture::LongPress.shortcut(), "LongPress");
}

#[test]
fn clipboard_compensation_helpers() {
    assert!(selection_cache_is_fresh(1_500 * MS, 1_000 * MS));
    assert!(!selection_cache_is_fresh(2_000 * MS, 1_000 * MS));
    assert!(selection_cache_is_fresh(0, 5 * MS));
    assert!(!clipboard_needs_restore("  copied text\n", "copied text"));
    assert!(clipboard_needs_restore("old clipboard", "copied text"));
    assert!(selection_is_reportable(" x "));
    assert!(!selection_is_reportable(" \t\n"));
    assert!(!selection_is_reportable(""));
}
