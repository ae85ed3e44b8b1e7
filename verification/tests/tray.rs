use textgo::keys::Platform;
use textgo::tray::{left_click_opens_menu, tray_menu_layout, MenuEntry, TrayText};
use textgo::tray::{
    relabeled_item_ids, resolve_locale, supported_locale, tray_locale, tray_menu_action,
    PendingLocale, TrayAction, TrayPage, UnsupportedLocale,
};

#[test]
fn saved_locale_takes_priority_over_system_locale() {
    assert_eq!(resolve_locale(Some("zh-CN"), Some("en-US")), "zh-CN");
}

#[test]
fn system_locale_is_used_when_saved_locale_is_missing() {
    assert_eq!(resolve_locale(None, Some("zh-CN")), "zh-CN");
}

#[test]
fn unsupported_locales_fall_back_to_english() {
    assert_eq!(resolve_locale(None, None), "en");
    assert_eq!(resolve_locale(Some("fr"), Some("de-DE")), "en");
    assert_eq!(resolve_locale(Some("fr"), Some("ZH-cn")), "zh-CN");
    assert_eq!(resolve_locale(Some("EN"), Some("zh-CN")), "en");
}

#[test]
fn locale_tags_ignore_ascii_case() {
    assert_eq!(supported_locale("zh-cn"), Some("zh-CN"));
    assert_eq!(supported_locale("En"), Some("en"));
    assert_eq!(supported_locale("en-US"), None);
    assert_eq!(supported_locale(""), None);
}

#[test]
fn tray_locale_refuses_unsupported_tags() {
    assert_eq!(tray_locale("ZH-CN"), Ok("zh-CN"));
    assert_eq!(tray_locale("ja"), Err(UnsupportedLocale("ja".to_string())));
}

#[test]
fn pending_locale_is_applied_once() {
    let mut pending = PendingLocale::new();
    assert_eq!(pending.request(false, "zh-CN".to_string()), None);
    assert_eq!(pending.request(false, "en".to_string()), None);
    assert_eq!(pending.take(), Some("en".to_string()));
    assert_eq!(pending.take(), None);
    assert_eq!(pending.request(true, "en".to_string()), Some("en".to_string()));
    assert_eq!(pending.take(), None);
}

#[test]
fn tray_items_map_to_actions() {
    assert_eq!(tray_menu_action("main_window"), Some(TrayAction::ShowMainWindow));
    assert_eq!(
        tray_menu_action("history"),
        Some(TrayAction::Navigate(TrayPage::History))
    );
    assert_eq!(tray_menu_action("about"), Some(TrayAction::ShowAbout));
    assert_eq!(tray_menu_action("quit"), Some(TrayAction::Quit));
    assert_eq!(tray_menu_action("Quit"), None);
    assert_eq!(TrayPage::Shortcuts.route(), "/shortcuts");
    assert_eq!(TrayPage::Settings.route(), "/settings");
    assert_eq!(
        relabeled_item_ids(),
        vec!["main_window", "shortcuts", "history", "settings", "quit"]
    );
}

#[test]
fn tray_menu_layout_and_left_click() {
    let layout = tray_menu_layout();
    assert_eq!(layout.len(), 9);
    assert_eq!(
        layout[4],
        MenuEntry::Item {
            id: "settings",
            text: TrayText::Settings,
            enabled: true,
            accelerator: Some("CmdOrCtrl+,"),
        }
    );
    assert_eq!(layout[7], MenuEntry::Separator);
    assert!(left_click_opens_menu(Platform::MacOs));
    assert!(!left_click_opens_menu(Platform::Windows));
}
