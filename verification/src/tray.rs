//! Tray menu: its locale, the menu items it relabels, and what each item does.
use vstd::prelude::*;

use crate::keys::Platform;
use crate::text::{ascii_lower, chars_of, eq_ignore_ascii_case, eq_str};

verus! {

/// Locale used when neither the saved nor the system locale is supported.
pub const DEFAULT_LOCALE: &'static str = "en";

/// Simplified Chinese.
pub const ZH_CN_LOCALE: &'static str = "zh-CN";

/// The supported locale a tag names, compared without regard to ASCII case.
pub open spec fn supported_locale_spec(locale: Seq<char>) -> Option<Seq<char>> {
    if ascii_lower(locale) == ascii_lower(ZH_CN_LOCALE@) {
        Some(ZH_CN_LOCALE@)
    } else if ascii_lower(locale) == ascii_lower(DEFAULT_LOCALE@) {
        Some(DEFAULT_LOCALE@)
    } else {
        None
    }
}

/// The locale the tray uses: the saved one when supported, else the system one when supported,
/// else the default.
pub open spec fn resolve_locale_spec(saved: Option<Seq<char>>, system: Option<Seq<char>>) -> Seq<
    char,
> {
    match (match saved {
        Some(s) => supported_locale_spec(s),
        None => None,
    }) {
        Some(l) => l,
        None => match (match system {
            Some(s) => supported_locale_spec(s),
            None => None,
        }) {
            Some(l) => l,
            None => DEFAULT_LOCALE@,
        },
    }
}

/// The supported locale a tag names, compared without regard to ASCII case.
pub fn supported_locale(locale: &str) -> (r: Option<&'static str>)
    ensures
        r matches Some(l) ==> supported_locale_spec(locale@) == Some(l@),
        r is None ==> supported_locale_spec(locale@) is None,
{
    if eq_ignore_ascii_case(locale, ZH_CN_LOCALE) {
        Some(ZH_CN_LOCALE)
    } else if eq_ignore_ascii_case(locale, DEFAULT_LOCALE) {
        Some(DEFAULT_LOCALE)
    } else {
        None
    }
}

fn supported_opt(locale: Option<&str>) -> (r: Option<&'static str>)
    ensures
        r matches Some(l) ==> (match locale {
            Some(s) => supported_locale_spec(s@),
            None => None,
        }) == Some(l@),
        r is None ==> (match locale {
            Some(s) => supported_locale_spec(s@),
            None => None,
        }) is None,
{
    match locale {
        Some(s) => supported_locale(s),
        None => None,
    }
}

/// The locale the tray uses: the saved one when supported, else the system one when supported,
/// else the default.
pub fn resolve_locale(saved: Option<&str>, system: Option<&str>) -> (r: &'static str)
    ensures
        r@ == resolve_locale_spec(
            match saved {
                Some(s) => Some(s@),
                None => None,
            },
            match system {
                Some(s) => Some(s@),
                None => None,
            },
        ),
{
    match supported_opt(saved) {
        Some(l) => l,
        None => match supported_opt(system) {
            Some(l) => l,
            None => DEFAULT_LOCALE,
        },
    }
}

/// A locale the tray can not be switched to; holds the requested tag.
#[derive(Clone, Debug, PartialEq, Eq)]
pub struct UnsupportedLocale(pub String);

/// The locale the tray switches to on request: refused unless supported.
pub fn tray_locale(locale: &str) -> (r: Result<&'static str, UnsupportedLocale>)
    ensures
        r matches Ok(l) ==> supported_locale_spec(locale@) == Some(l@),
        r matches Err(e) ==> supported_locale_spec(locale@) is None && e.0@ == locale@,
{
    match supported_locale(locale) {
        Some(l) => Ok(l),
        None => Err(UnsupportedLocale(locale.to_owned())),
    }
}

/// Locale requested before the tray menu existed, applied once the tray is created.
pub struct PendingLocale {
    pub locale: Option<String>,
}

impl PendingLocale {
    /// Nothing requested.
    pub fn new() -> (p: Self)
        ensures
            p.locale is None,
    {
        PendingLocale { locale: None }
    }

    /// A locale request: returned for immediate use when the tray exists, parked otherwise
    /// (replacing an earlier parked request).
    pub fn request(&mut self, tray_exists: bool, locale: String) -> (now: Option<String>)
        ensures
            tray_exists ==> now == Some(locale) && final(self).locale == old(self).locale,
            !tray_exists ==> now is None && final(self).locale == Some(locale),
    {
        if tray_exists {
            Some(locale)
        } else {
            self.locale = Some(locale);
            None
        }
    }

    /// The parked request, if any, which is dropped: it is applied at most once.
    pub fn take(&mut self) -> (r: Option<String>)
        ensures
            r == old(self).locale,
            final(self).locale is None,
    {
        let r = self.locale.take();
        r
    }
}

/// What a tray menu item does.
#[derive(Clone, Copy, Debug, PartialEq, Eq, Structural)]
pub enum TrayAction {
    ShowMainWindow,
    Navigate(TrayPage),
    ShowAbout,
    Quit,
}

/// Main window pages the tray navigates to.
#[derive(Clone, Copy, Debug, PartialEq, Eq, Structural)]
pub enum TrayPage {
    Shortcuts,
    History,
    Settings,
}

impl TrayPage {
    /// Route of the page in the main window.
    pub fn route(&self) -> (r: &'static str)
        ensures
            *self == TrayPage::Shortcuts ==> r@ == "/shortcuts"@,
            *self == TrayPage::History ==> r@ == "/history"@,
            *self == TrayPage::Settings ==> r@ == "/settings"@,
    {
        match self {
            TrayPage::Shortcuts => "/shortcuts",
            TrayPage::History => "/history",
            TrayPage::Settings => "/settings",
        }
    }
}

/// The action of a tray menu item, by its identifier.
pub open spec fn tray_action_spec(id: Seq<char>) -> Option<TrayAction> {
    if id == "main_window"@ {
        Some(TrayAction::ShowMainWindow)
    } else if id == "shortcuts"@ {
        Some(TrayAction::Navigate(TrayPage::Shortcuts))
    } else if id == "history"@ {
        Some(TrayAction::Navigate(TrayPage::History))
    } else if id == "settings"@ {
        Some(TrayAction::Navigate(TrayPage::Settings))
    } else if id == "about"@ {
        Some(TrayAction::ShowAbout)
    } else if id == "quit"@ {
        Some(TrayAction::Quit)
    } else {
        None
    }
}

/// The action of a tray menu item, by its identifier; unknown identifiers do nothing.
pub fn tray_menu_action(id: &str) -> (r: Option<TrayAction>)
    ensures
        r == tray_action_spec(id@),
{
    let v = chars_of(id);
    if eq_str(&v, "main_window") {
        Some(TrayAction::ShowMainWindow)
    } else if eq_str(&v, "shortcuts") {
        Some(TrayAction::Navigate(TrayPage::Shortcuts))
    } else if eq_str(&v, "history") {
        Some(TrayAction::Navigate(TrayPage::History))
    } else if eq_str(&v, "settings") {
        Some(TrayAction::Navigate(TrayPage::Settings))
    } else if eq_str(&v, "about") {
        Some(TrayAction::ShowAbout)
    } else if eq_str(&v, "quit") {
        Some(TrayAction::Quit)
    } else {
        None
    }
}

/// Identifiers of the tray items whose labels follow the locale, in menu order.
pub fn relabeled_item_ids() -> (ids: Vec<&'static str>)
    ensures
        ids@.len() == 5,
        ids@[0]@ == "main_window"@,
        ids@[1]@ == "shortcuts"@,
        ids@[2]@ == "history"@,
        ids@[3]@ == "settings"@,
        ids@[4]@ == "quit"@,
{
    vec!["main_window", "shortcuts", "history", "settings", "quit"]
}


/// The tray always uses a supported locale: the resolved locale is one of the supported tags.
pub proof fn law_resolved_locale_is_supported(saved: Option<Seq<char>>, system: Option<Seq<char>>)
    ensures
        resolve_locale_spec(saved, system) == ZH_CN_LOCALE@ || resolve_locale_spec(saved, system)
            == DEFAULT_LOCALE@,
{
}

/// A supported saved locale takes priority over the system locale.
pub proof fn law_saved_locale_takes_priority(saved: Seq<char>, system: Option<Seq<char>>)
    requires
        supported_locale_spec(saved) is Some,
    ensures
        resolve_locale_spec(Some(saved), system) == supported_locale_spec(saved)->0,
{
}

/// Without a supported saved locale, a supported system locale is used.
pub proof fn law_system_locale_used_when_saved_missing(saved: Option<Seq<char>>, system: Seq<char>)
    requires
        saved is None || supported_locale_spec(saved->0) is None,
        supported_locale_spec(system) is Some,
    ensures
        resolve_locale_spec(saved, Some(system)) == supported_locale_spec(system)->0,
{
}



/// The tray's locale is the default unless the saved or the system tag names it (ignoring ASCII
/// case); in particular, when neither tag is supported, the default is used.
pub proof fn law_unsupported_locales_fall_back_to_default(
    saved: Option<Seq<char>>,
    system: Option<Seq<char>>,
)
    ensures
        ({
            let r = resolve_locale_spec(saved, system);
            ||| r == "en"@
            ||| (saved matches Some(t) && ascii_lower(t) == ascii_lower(r))
            ||| (system matches Some(t) && ascii_lower(t) == ascii_lower(r))
        }),
        (saved is None || supported_locale_spec(saved->0) is None) && (system is None
            || supported_locale_spec(system->0) is None) ==> resolve_locale_spec(saved, system)
            == "en"@,
{
    reveal_strlit("en");
}

/// Text of a tray item: one of the localized labels, or the version line of the about item.
#[derive(Clone, Copy, Debug, PartialEq, Eq, Structural)]
pub enum TrayText {
    MainWindow,
    Shortcuts,
    History,
    Settings,
    Version,
    Quit,
}

/// An entry of the tray menu.
#[derive(Clone, Copy, Debug, PartialEq, Eq)]
pub enum MenuEntry {
    Item { id: &'static str, text: TrayText, enabled: bool, accelerator: Option<&'static str> },
    Separator,
}

/// The tray menu, top to bottom: open the main window; the shortcuts, history and settings
/// pages; the version (disabled); quit. Separators set off the first item, the version and
/// quit.
pub fn tray_menu_layout() -> (entries: Vec<MenuEntry>)
    ensures
        entries@.len() == 9,
        entries@[0] matches MenuEntry::Item { id, text, enabled, accelerator } && id@
            == "main_window"@ && text == TrayText::MainWindow && enabled && accelerator is None,
        entries@[1] == MenuEntry::Separator,
        entries@[2] matches MenuEntry::Item { id, text, enabled, accelerator } && id@
            == "shortcuts"@ && text == TrayText::Shortcuts && enabled && accelerator is None,
        entries@[3] matches MenuEntry::Item { id, text, enabled, accelerator } && id@ == "history"@
            && text == TrayText::History && enabled && accelerator is None,
        entries@[4] matches MenuEntry::Item { id, text, enabled, accelerator } && id@
            == "settings"@ && text == TrayText::Settings && enabled && (accelerator matches Some(a)
            && a@ == "CmdOrCtrl+,"@),
        entries@[5] == MenuEntry::Separator,
        entries@[6] matches MenuEntry::Item { id, text, enabled, accelerator } && id@ == "about"@
            && text == TrayText::Version && !enabled && accelerator is None,
        entries@[7] == MenuEntry::Separator,
        entries@[8] matches MenuEntry::Item { id, text, enabled, accelerator } && id@ == "quit"@
            && text == TrayText::Quit && enabled && (accelerator matches Some(a) && a@
            == "CmdOrCtrl+Q"@),
{
    vec![
        MenuEntry::Item {
            id: "main_window",
            text: TrayText::MainWindow,
            enabled: true,
            accelerator: None,
        },
        MenuEntry::Separator,
        MenuEntry::Item {
            id: "shortcuts",
            text: TrayText::Shortcuts,
            enabled: true,
            accelerator: None,
        },
        MenuEntry::Item { id: "history", text: TrayText::History, enabled: true, accelerator: None },
        MenuEntry::Item {
            id: "settings",
            text: TrayText::Settings,
            enabled: true,
            accelerator: Some("CmdOrCtrl+,"),
        },
        MenuEntry::Separator,
        MenuEntry::Item { id: "about", text: TrayText::Version, enabled: false, accelerator: None },
        MenuEntry::Separator,
        MenuEntry::Item {
            id: "quit",
            text: TrayText::Quit,
            enabled: true,
            accelerator: Some("CmdOrCtrl+Q"),
        },
    ]
}

/// Whether a left click on the tray icon opens the menu: everywhere but on Windows, where it
/// shows the main window instead.
pub fn left_click_opens_menu(platform: Platform) -> (r: bool)
    ensures
        r == (platform != Platform::Windows),
{
    platform != Platform::Windows
}

} // verus!
