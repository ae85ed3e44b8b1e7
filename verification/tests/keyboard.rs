use textgo::keys::{
    command_or_control, copy_keys, cut_keys, first_failure, modifier_keys, parse_key,
    parse_key_request, parse_modifier, paste_keys, release_order, send_outcome, send_step, Key,
    KeyError, Platform, SendStep,
};

const PLATFORMS: [Platform; 2] = [Platform::MacOs, Platform::Windows];

#[test]
fn parses_supported_keys() {
    for platform in PLATFORMS {
        assert_eq!(parse_key("a").unwrap(), Key::Unicode('a'));
        assert_eq!(parse_key("Enter").unwrap(), Key::Return);
        assert_eq!(parse_key("ArrowLeft").unwrap(), Key::LeftArrow);
        assert_eq!(parse_key("F12").unwrap(), Key::F12);
        assert_eq!(parse_modifier("Command", platform).unwrap(), Key::Meta);
        assert_eq!(parse_modifier("Ctrl", platform).unwrap(), Key::Control);
        assert_eq!(parse_modifier("Option", platform).unwrap(), Key::Alt);
        for modifier in ["CmdOrControl", "CommandOrCtrl", "ControlOrWindows"] {
            assert_eq!(parse_modifier(modifier, platform).unwrap(), command_or_control(platform));
        }

        assert!(parse_key("UnknownKey").is_err());
        assert!(parse_modifier("Fn", platform).is_err());
        assert!(parse_modifier("ShiftOrCtrl", platform).is_err());
    }
}

#[test]
fn command_or_control_follows_platform() {
    assert_eq!(command_or_control(Platform::MacOs), Key::Meta);
    assert_eq!(command_or_control(Platform::Windows), Key::Control);
    assert_eq!(parse_modifier("CmdOrCtrl", Platform::MacOs).unwrap(), Key::Meta);
    assert_eq!(parse_modifier("cmdorctrl", Platform::Windows).unwrap(), Key::Control);
}

#[test]
fn single_characters_are_taken_literally() {
    // a single character is never trimmed or lower-cased
    assert_eq!(parse_key(" ").unwrap(), Key::Unicode(' '));
    assert_eq!(parse_key("A").unwrap(), Key::Unicode('A'));
    assert_eq!(parse_key("é").unwrap(), Key::Unicode('é'));
}

#[test]
fn key_names_ignore_case_and_surrounding_white_space() {
    assert_eq!(parse_key("  ESC ").unwrap(), Key::Escape);
    assert_eq!(parse_key("\tPageDown\n").unwrap(), Key::PageDown);
    assert_eq!(parse_key("return").unwrap(), Key::Return);
    assert_eq!(parse_key("Shift").unwrap(), Key::Shift);
    assert_eq!(parse_key("win").unwrap(), Key::Meta);
    assert_eq!(parse_modifier("  SHIFT ", Platform::Windows).unwrap(), Key::Shift);
}

#[test]
fn unsupported_names_are_reported_as_given() {
    assert_eq!(
        parse_key("  Nope "),
        Err(KeyError::UnsupportedKey("  Nope ".to_string()))
    );
    assert_eq!(parse_key(""), Err(KeyError::UnsupportedKey(String::new())));
    assert_eq!(
        parse_modifier("Hyper", Platform::MacOs),
        Err(KeyError::UnsupportedModifier("Hyper".to_string()))
    );
    // both sides of "or" must name Command and Control
    assert!(parse_modifier("CmdOrCmd", Platform::MacOs).is_err());
}

#[test]
fn key_request_dedups_modifiers_in_order() {
    let request = parse_key_request(
        "k",
        Some(vec![
            "shift".to_string(),
            "Ctrl".to_string(),
            "SHIFT".to_string(),
            "control".to_string(),
        ]),
        Platform::Windows,
    )
    .unwrap();
    assert_eq!(request.key, Key::Unicode('k'));
    assert_eq!(request.modifiers, vec![Key::Shift, Key::Control]);

    let none = parse_key_request("Tab", None, Platform::MacOs).unwrap();
    assert_eq!(none.key, Key::Tab);
    assert!(none.modifiers.is_empty());
}

#[test]
fn key_request_reports_the_key_first_then_the_first_bad_modifier() {
    assert_eq!(
        parse_key_request("Bad", Some(vec!["Nope".to_string()]), Platform::MacOs).unwrap_err(),
        KeyError::UnsupportedKey("Bad".to_string())
    );
    assert_eq!(
        parse_key_request(
            "x",
            Some(vec!["alt".to_string(), "one".to_string(), "two".to_string()]),
            Platform::MacOs
        )
        .unwrap_err(),
        KeyError::UnsupportedModifier("one".to_string())
    );
}

#[test]
fn keys_are_released_in_reverse_order() {
    assert_eq!(
        release_order(&modifier_keys()),
        vec![Key::Shift, Key::Alt, Key::Control, Key::Meta]
    );
    assert!(release_order(&Vec::new()).is_empty());
}

#[test]
fn first_failure_keeps_the_earliest_error() {
    assert_eq!(first_failure::<u8>(vec![Ok(()), Ok(())]), Ok(()));
    assert_eq!(first_failure(vec![Ok(()), Err(2u8), Err(3u8)]), Err(2));
    assert_eq!(first_failure::<u8>(Vec::new()), Ok(()));
}

#[test]
fn clipboard_key_combinations() {
    assert_eq!(cut_keys(Platform::MacOs), (Key::Meta, Key::Unicode('x')));
    assert_eq!(cut_keys(Platform::Windows), (Key::Control, Key::Unicode('x')));
    assert_eq!(paste_keys(Platform::Windows), (Key::Control, Key::Unicode('v')));
    assert_eq!(copy_keys(Platform::MacOs, false), (Key::Meta, Key::Unicode('c')));
    assert_eq!(copy_keys(Platform::Windows, true), (Key::Control, Key::Unicode('c')));
    assert_eq!(copy_keys(Platform::Windows, false), (Key::Control, Key::Insert));
}

#[test]
fn key_requests_are_sent_in_order_and_stop_at_the_first_failure() {
    let request = parse_key_request(
        "a",
        Some(vec!["Ctrl".to_string(), "Shift".to_string()]),
        Platform::Windows,
    )
    .unwrap();
    assert_eq!(send_step(&request, 0, false), SendStep::Press(Key::Control));
    assert_eq!(send_step(&request, 1, false), SendStep::Press(Key::Shift));
    assert_eq!(send_step(&request, 2, false), SendStep::Click(Key::Unicode('a')));
    assert_eq!(send_step(&request, 3, false), SendStep::Release);
    assert_eq!(send_step(&request, 1, true), SendStep::Release);

    let ok: Result<(), &str> = Ok(());
    assert_eq!(send_outcome(Err("press"), Err("release")), Err("press"));
    assert_eq!(send_outcome(ok, Err("release")), Err("release"));
    assert_eq!(send_outcome(ok, ok), Ok(()));
}
