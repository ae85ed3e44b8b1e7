use global_hotkey::hotkey::{Code, HotKey, Modifiers};
use std::cell::Cell;
use textgo::shortcut::{
    parse_shortcut, ShortcutError, ShortcutHandlerGuard, ShortcutParseError, ShortcutRegistry,
    ShortcutSuspension, MOD_ALT, MOD_CONTROL, MOD_META, MOD_SHIFT,
};

#[test]
fn suspension_guard_is_nest_safe() {
    let mut suspension = ShortcutSuspension::new();
    let initial = suspension.depth();
    let outer = ShortcutHandlerGuard::suspend(&mut suspension);
    {
        let inner = ShortcutHandlerGuard::suspend(&mut suspension);
        assert_eq!(suspension.depth(), initial + 2);
        inner.release(&mut suspension);
    }
    assert_eq!(suspension.depth(), initial + 1);
    outer.release(&mut suspension);
    assert_eq!(suspension.depth(), initial);
}

#[test]
fn suspension_is_reported_while_a_guard_is_held() {
    let mut suspension = ShortcutSuspension::new();
    assert!(!suspension.is_suspended());
    let guard = ShortcutHandlerGuard::suspend(&mut suspension);
    assert!(suspension.is_suspended());
    guard.release(&mut suspension);
    assert!(!suspension.is_suspended());
}

#[test]
fn parsed_shortcut_has_the_hotkey_identifier() {
    let parsed = parse_shortcut("Control+Shift+KeyA").unwrap();
    assert_eq!(parsed.modifiers, MOD_CONTROL | MOD_SHIFT);
    assert_eq!(parsed.code, Code::KeyA);
    let hotkey = HotKey::new(Some(Modifiers::CONTROL | Modifiers::SHIFT), Code::KeyA);
    assert_eq!(parsed.id(), hotkey.id());

    let plain = parse_shortcut("F5").unwrap();
    assert_eq!(plain.modifiers, 0);
    assert_eq!(plain.id(), HotKey::new(None, Code::F5).id());

    let mixed = parse_shortcut("meta+ALT+Digit1").unwrap();
    assert_eq!(mixed.modifiers, MOD_META | MOD_ALT);
    assert_eq!(
        mixed.id(),
        HotKey::new(Some(Modifiers::META | Modifiers::ALT), Code::Digit1).id()
    );
}

#[test]
fn shortcut_errors_name_the_offending_token() {
    assert_eq!(
        parse_shortcut("Control+Hyper+KeyA").unwrap_err(),
        ShortcutParseError::UnsupportedModifier("Hyper".chars().collect())
    );
    assert_eq!(
        parse_shortcut("Control+keya").unwrap_err(),
        ShortcutParseError::UnsupportedKeyCode("keya".chars().collect())
    );
    assert_eq!(
        parse_shortcut("").unwrap_err(),
        ShortcutParseError::UnsupportedKeyCode(Vec::new())
    );
    assert_eq!(
        parse_shortcut("Control++KeyA").unwrap_err(),
        ShortcutParseError::UnsupportedModifier(Vec::new())
    );
}

fn accept(_: &textgo::shortcut::Shortcut) -> Result<(), String> {
    Ok(())
}

#[test]
fn registering_and_unregistering_shortcuts() {
    let mut registry = ShortcutRegistry::new();
    assert!(!registry.is_shortcut_registered("Alt+KeyQ"));
    assert!(registry
        .register_shortcut("Alt+KeyQ".to_string(), accept)
        .is_ok());
    assert!(registry.is_shortcut_registered("Alt+KeyQ"));
    match registry.register_shortcut("Alt+KeyQ".to_string(), accept) {
        Err(ShortcutError::AlreadyRegistered(s)) => assert_eq!(s, "Alt+KeyQ"),
        other => panic!("unexpected {:?}", other),
    }
    match registry.register_shortcut("Alt+Nope".to_string(), accept) {
        Err(ShortcutError::Parse(ShortcutParseError::UnsupportedKeyCode(t))) => {
            assert_eq!(t, "Nope".chars().collect::<Vec<char>>())
        }
        other => panic!("unexpected {:?}", other),
    }
    match registry.register_shortcut("Shift+KeyW".to_string(), |_| Err("busy".to_string())) {
        Err(ShortcutError::Plugin(e)) => assert_eq!(e, "busy"),
        other => panic!("unexpected {:?}", other),
    }
    assert!(!registry.is_shortcut_registered("Shift+KeyW"));

    match registry.unregister_shortcut("Shift+KeyW".to_string(), accept) {
        Err(ShortcutError::NotRegistered(s)) => assert_eq!(s, "Shift+KeyW"),
        other => panic!("unexpected {:?}", other),
    }
    match registry.unregister_shortcut("Alt+KeyQ".to_string(), |_| Err("denied".to_string())) {
        Err(ShortcutError::Plugin(e)) => assert_eq!(e, "denied"),
        other => panic!("unexpected {:?}", other),
    }
    assert!(registry.is_shortcut_registered("Alt+KeyQ"));
    assert!(registry
        .unregister_shortcut("Alt+KeyQ".to_string(), accept)
        .is_ok());
    assert!(!registry.is_shortcut_registered("Alt+KeyQ"));
}

#[test]
fn registration_hands_the_parsed_hotkey_to_the_system() {
    let mut registry = ShortcutRegistry::new();
    let seen = Cell::new(0u32);
    registry
        .register_shortcut("Control+KeyC".to_string(), |h| -> Result<(), ()> {
            seen.set(h.id());
            Ok(())
        })
        .unwrap();
    assert_eq!(
        seen.get(),
        HotKey::new(Some(Modifiers::CONTROL), Code::KeyC).id()
    );
}

#[test]
fn pausing_and_resuming_shortcut_handling() {
    let mut registry = ShortcutRegistry::new();
    registry.register_shortcut("Alt+KeyA".to_string(), accept).unwrap();
    registry.register_shortcut("Alt+KeyB".to_string(), accept).unwrap();
    let calls = Cell::new(0);
    let count = |_: &textgo::shortcut::Shortcut| -> Result<(), ()> {
        calls.set(calls.get() + 1);
        Err(())
    };

    assert!(!registry.resume_shortcut_handling(Some(true), count));
    assert_eq!(calls.get(), 0);
    assert!(registry.pause_shortcut_handling(Some(true), count));
    assert_eq!(calls.get(), 2);
    assert!(registry.is_paused());
    // already paused: nothing happens
    assert!(!registry.pause_shortcut_handling(Some(true), count));
    assert_eq!(calls.get(), 2);
    // failures of the system are ignored and the registry is kept
    assert!(registry.is_shortcut_registered("Alt+KeyA"));
    assert!(registry.resume_shortcut_handling(None, count));
    assert_eq!(calls.get(), 2);
    assert!(!registry.is_paused());
    assert!(registry.pause_shortcut_handling(None, count));
    assert!(registry.resume_shortcut_handling(Some(true), count));
    assert_eq!(calls.get(), 4);
}

#[test]
fn modifier_order_repetition_and_case_do_not_matter() {
    let reference = parse_shortcut("Control+Shift+KeyA").unwrap();
    for variant in ["Shift+Control+KeyA", "shift+CONTROL+Shift+KeyA", "control+control+SHIFT+KeyA"] {
        let parsed = parse_shortcut(variant).unwrap();
        assert_eq!(parsed.modifiers, reference.modifiers);
        assert_eq!(parsed.code, Code::KeyA);
        assert_eq!(parsed.id(), reference.id());
    }
    let other_key = parse_shortcut("Shift+Control+KeyB").unwrap();
    assert_eq!(other_key.code, Code::KeyB);
    assert_ne!(other_key.id(), reference.id());
}
