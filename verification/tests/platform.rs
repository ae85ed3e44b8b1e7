use textgo::platform::{is_web_url, macos, windows, AppIdNotFound, SelectionError};

#[test]
fn macos_focus_target_is_the_frontmost_process() {
    assert_eq!(macos::get_focus_target(Some(412)), Some(412));
    assert_eq!(macos::get_focus_target(Some(0)), None);
    assert_eq!(macos::get_focus_target(Some(-3)), None);
    assert_eq!(macos::get_focus_target(None), None);
    assert!(macos::is_focus_target_active(412, Some(412)));
    assert!(!macos::is_focus_target_active(412, Some(7)));
    assert!(!macos::is_focus_target_active(0, Some(0)));
}

#[test]
fn windows_focus_target_is_the_foreground_window() {
    assert_eq!(windows::get_focus_target(0x1234), Some(0x1234));
    assert_eq!(windows::get_focus_target(0), None);
    assert!(windows::is_focus_target_active(0x1234, 0x1234));
    assert!(!windows::is_focus_target_active(0x1234, 0x99));
}

#[test]
fn selection_rectangles() {
    let line1 = (1, 2, 30, 14);
    let line2 = (1, 16, 12, 28);
    assert_eq!(windows::get_selection_rects(vec![line1, line2]), Ok(vec![line1, line2]));
    let last_character = (5, 16, 12, 28);
    assert_eq!(
        windows::get_selection_rect(vec![line1, line2], Some(last_character)),
        Ok(last_character)
    );
    assert_eq!(windows::get_selection_rect(vec![line1, line2], None), Ok(line2));
    assert_eq!(
        windows::get_selection_rects(Vec::new()),
        Err(SelectionError::NoValidRectangle)
    );
    assert_eq!(
        windows::get_selection_rect(Vec::new(), Some(last_character)),
        Err(SelectionError::NoValidRectangle)
    );
    assert_eq!(macos::get_selection_rects::<()>(Ok(line1)), Ok(vec![line1]));
    assert_eq!(macos::get_selection_rects(Err("no focus")), Err("no focus"));
}

#[test]
fn selection_ranges_on_macos() {
    assert_eq!(macos::last_character_range(10, 5), Ok((14, 1)));
    assert_eq!(
        macos::last_character_range(10, 0),
        Err(SelectionError::NoTextSelected)
    );
    assert_eq!(macos::backward_selection_range(10, 0, 4), (6, 4));
    assert_eq!(macos::backward_selection_range(2, 1, 5), (0, 5));
}

#[test]
fn editable_roles_and_controls() {
    assert!(macos::is_editable_role("AXTextArea"));
    assert!(macos::is_editable_role("AXComboBox"));
    assert!(!macos::is_editable_role("AXSecureTextField"));
    assert!(!macos::is_editable_role("AXStaticText"));
    assert!(windows::is_cursor_editable(Some(50004), None, None));
    assert!(windows::is_cursor_editable(Some(50030), Some(true), None));
    assert!(windows::is_cursor_editable(Some(1), Some(false), None));
    assert!(windows::is_cursor_editable(None, None, Some(46)));
    assert!(!windows::is_cursor_editable(Some(1), Some(true), Some(9)));
    assert!(!windows::is_cursor_editable(None, None, None));
}

#[test]
fn application_identifiers() {
    assert_eq!(
        macos::bundle_identifier(Some("com.example.App".to_string())),
        Ok("com.example.App".to_string())
    );
    assert_eq!(macos::bundle_identifier(Some(String::new())), Err(AppIdNotFound));
    assert_eq!(macos::bundle_identifier(None), Err(AppIdNotFound));
    assert_eq!(
        windows::get_app_id(Some(r"\\?\C:\Apps\tool.exe")),
        Ok(r"C:\Apps\tool.exe".to_string())
    );
    assert_eq!(
        windows::get_app_id(Some(r"\\?\\\?\D:\x.exe")),
        Ok(r"D:\x.exe".to_string())
    );
    assert_eq!(
        windows::get_app_id(Some(r"C:\plain.exe")),
        Ok(r"C:\plain.exe".to_string())
    );
    assert_eq!(windows::get_app_id(None), Err(AppIdNotFound));
}

#[test]
fn web_urls() {
    assert!(is_web_url("https://example.com"));
    assert!(is_web_url("http://a"));
    assert!(!is_web_url("ftp://example.com"));
    assert!(!is_web_url(""));
    assert!(!is_web_url("example.com/https://"));
}

#[test]
fn axapi_pid_cache_expires_after_five_seconds() {
    let second: u64 = 1_000_000_000;
    let mut cache = macos::AxapiPidCache::new();
    assert!(!cache.is_recently_processed(77, 10 * second));
    cache.mark_processed(77, 10 * second);
    assert!(cache.is_recently_processed(77, 14 * second));
    assert!(cache.is_recently_processed(77, 15 * second - 1));
    assert!(!cache.is_recently_processed(77, 15 * second));
    assert!(!cache.is_recently_processed(78, 11 * second));
    cache.mark_processed(77, 20 * second);
    assert!(cache.is_recently_processed(77, 21 * second));
}

#[test]
fn com_initialization_outcomes() {
    assert_eq!(windows::com_init_outcome(0), Ok(true));
    assert_eq!(windows::com_init_outcome(1), Ok(true));
    assert_eq!(
        windows::com_init_outcome(0x8001_0106u32 as i32),
        Ok(false)
    );
    assert_eq!(
        windows::com_init_outcome(0x8000_4005u32 as i32),
        Err(windows::ComInitFailed)
    );
}
