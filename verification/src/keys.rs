//! Keys the helper synthesizes: parsing of key and modifier names, and the key combinations
//! used for cut, copy and paste.
use vstd::prelude::*;

use crate::text::{
    ascii_lower, chars_of, is_white_space, eq_str, find, find_from, slice_chars, to_ascii_lower, trim, trim_seq,
};

verus! {

/// Operating system whose conventions decide platform-dependent keys.
#[derive(Clone, Copy, Debug, PartialEq, Eq, Structural)]
pub enum Platform {
    MacOs,
    Windows,
}

/// A key the helper can press, click or release.
#[derive(Clone, Copy, Debug, PartialEq, Eq, Structural)]
pub enum Key {
    Unicode(char),
    Return,
    Tab,
    Escape,
    Space,
    Backspace,
    Delete,
    Insert,
    UpArrow,
    DownArrow,
    LeftArrow,
    RightArrow,
    Home,
    End,
    PageUp,
    PageDown,
    F1,
    F2,
    F3,
    F4,
    F5,
    F6,
    F7,
    F8,
    F9,
    F10,
    F11,
    F12,
    Meta,
    Control,
    Alt,
    Shift,
}

/// Why a key request was refused; each variant holds the name as it was given.
#[derive(Clone, Debug, PartialEq, Eq)]
pub enum KeyError {
    UnsupportedKey(String),
    UnsupportedModifier(String),
}

/// A parsed request to click one key while holding modifiers.
#[derive(Clone, Debug)]
pub struct KeyRequest {
    pub key: Key,
    /// Modifiers in the order they were first named, each at most once.
    pub modifiers: Vec<Key>,
}

/// The platform's primary shortcut modifier: Command on macOS, Control elsewhere.
pub open spec fn command_or_control_spec(platform: Platform) -> Key {
    match platform {
        Platform::MacOs => Key::Meta,
        Platform::Windows => Key::Control,
    }
}

/// The modifier a lower-cased name stands for.
pub open spec fn modifier_alias(name: Seq<char>) -> Option<Key> {
    if name == "meta"@ || name == "cmd"@ || name == "command"@ || name == "super"@ || name
        == "win"@ || name == "windows"@ {
        Some(Key::Meta)
    } else if name == "control"@ || name == "ctrl"@ {
        Some(Key::Control)
    } else if name == "alt"@ || name == "option"@ {
        Some(Key::Alt)
    } else if name == "shift"@ {
        Some(Key::Shift)
    } else {
        None
    }
}

/// The key a lower-cased key name stands for.
pub open spec fn named_key(name: Seq<char>) -> Option<Key> {
    if name == "enter"@ || name == "return"@ {
        Some(Key::Return)
    } else if name == "tab"@ {
        Some(Key::Tab)
    } else if name == "escape"@ || name == "esc"@ {
        Some(Key::Escape)
    } else if name == "space"@ {
        Some(Key::Space)
    } else if name == "backspace"@ {
        Some(Key::Backspace)
    } else if name == "delete"@ || name == "del"@ {
        Some(Key::Delete)
    } else if name == "up"@ || name == "arrowup"@ {
        Some(Key::UpArrow)
    } else if name == "down"@ || name == "arrowdown"@ {
        Some(Key::DownArrow)
    } else if name == "left"@ || name == "arrowleft"@ {
        Some(Key::LeftArrow)
    } else if name == "right"@ || name == "arrowright"@ {
        Some(Key::RightArrow)
    } else if name == "home"@ {
        Some(Key::Home)
    } else if name == "end"@ {
        Some(Key::End)
    } else if name == "pageup"@ {
        Some(Key::PageUp)
    } else if name == "pagedown"@ {
        Some(Key::PageDown)
    } else if name == "f1"@ {
        Some(Key::F1)
    } else if name == "f2"@ {
        Some(Key::F2)
    } else if name == "f3"@ {
        Some(Key::F3)
    } else if name == "f4"@ {
        Some(Key::F4)
    } else if name == "f5"@ {
        Some(Key::F5)
    } else if name == "f6"@ {
        Some(Key::F6)
    } else if name == "f7"@ {
        Some(Key::F7)
    } else if name == "f8"@ {
        Some(Key::F8)
    } else if name == "f9"@ {
        Some(Key::F9)
    } else if name == "f10"@ {
        Some(Key::F10)
    } else if name == "f11"@ {
        Some(Key::F11)
    } else if name == "f12"@ {
        Some(Key::F12)
    } else {
        modifier_alias(name)
    }
}

/// A single character is that character; anything else is a key name, compared after trimming
/// white space and ignoring ASCII case.
pub open spec fn key_of(key: Seq<char>) -> Option<Key> {
    if key.len() == 1 {
        Some(Key::Unicode(key[0]))
    } else {
        named_key(ascii_lower(trim_seq(key)))
    }
}

/// A modifier name, compared after trimming white space and ignoring ASCII case; a name of the
/// form `<a>or<b>` (split at its first "or") where one side names Command and the other Control
/// stands for the platform's primary modifier.
pub open spec fn modifier_of(modifier: Seq<char>, platform: Platform) -> Option<Key> {
    let n = ascii_lower(trim_seq(modifier));
    match find_from(n, "or"@, 0) {
        Some(i) => {
            let left = modifier_alias(n.subrange(0, i));
            let right = modifier_alias(n.subrange(i + "or"@.len(), n.len() as int));
            if (left == Some(Key::Meta) && right == Some(Key::Control)) || (left == Some(
                Key::Control,
            ) && right == Some(Key::Meta)) {
                Some(command_or_control_spec(platform))
            } else {
                modifier_alias(n)
            }
        },
        None => modifier_alias(n),
    }
}

/// `s` with later repetitions of a key dropped, first occurrences kept in order.
pub open spec fn dedup_keys(s: Seq<Key>) -> Seq<Key>
    decreases s.len(),
{
    if s.len() == 0 {
        Seq::empty()
    } else {
        let d = dedup_keys(s.drop_last());
        if d.contains(s.last()) {
            d
        } else {
            d.push(s.last())
        }
    }
}

/// The parsed modifiers named by `names`, or `None` when one of them is not a modifier.
pub open spec fn modifiers_of(names: Seq<Seq<char>>, platform: Platform) -> Option<Seq<Key>>
    decreases names.len(),
{
    if names.len() == 0 {
        Some(Seq::empty())
    } else {
        match (modifiers_of(names.drop_last(), platform), modifier_of(names.last(), platform)) {
            (Some(s), Some(k)) => Some(s.push(k)),
            _ => None,
        }
    }
}

/// Index of the first name in `names` that is not a modifier (`names.len()` if none).
pub open spec fn first_bad_modifier(names: Seq<Seq<char>>, platform: Platform, i: int) -> int
    decreases names.len() - i,
{
    if i < 0 || i >= names.len() {
        names.len() as int
    } else if modifier_of(names[i], platform) is None {
        i
    } else {
        first_bad_modifier(names, platform, i + 1)
    }
}

/// The platform's primary shortcut modifier: Command on macOS, Control elsewhere.
pub fn command_or_control(platform: Platform) -> (k: Key)
    ensures
        k == command_or_control_spec(platform),
{
    match platform {
        Platform::MacOs => Key::Meta,
        Platform::Windows => Key::Control,
    }
}

fn alias(name: &Vec<char>) -> (r: Option<Key>)
    ensures
        r == modifier_alias(name@),
{
    if eq_str(name, "meta") || eq_str(name, "cmd") || eq_str(name, "command") || eq_str(
        name,
        "super",
    ) || eq_str(name, "win") || eq_str(name, "windows") {
        Some(Key::Meta)
    } else if eq_str(name, "control") || eq_str(name, "ctrl") {
        Some(Key::Control)
    } else if eq_str(name, "alt") || eq_str(name, "option") {
        Some(Key::Alt)
    } else if eq_str(name, "shift") {
        Some(Key::Shift)
    } else {
        None
    }
}

fn key_by_name(name: &Vec<char>) -> (r: Option<Key>)
    ensures
        r == named_key(name@),
{
    if eq_str(name, "enter") || eq_str(name, "return") {
        Some(Key::Return)
    } else if eq_str(name, "tab") {
        Some(Key::Tab)
    } else if eq_str(name, "escape") || eq_str(name, "esc") {
        Some(Key::Escape)
    } else if eq_str(name, "space") {
        Some(Key::Space)
    } else if eq_str(name, "backspace") {
        Some(Key::Backspace)
    } else if eq_str(name, "delete") || eq_str(name, "del") {
        Some(Key::Delete)
    } else if eq_str(name, "up") || eq_str(name, "arrowup") {
        Some(Key::UpArrow)
    } else if eq_str(name, "down") || eq_str(name, "arrowdown") {
        Some(Key::DownArrow)
    } else if eq_str(name, "left") || eq_str(name, "arrowleft") {
        Some(Key::LeftArrow)
    } else if eq_str(name, "right") || eq_str(name, "arrowright") {
        Some(Key::RightArrow)
    } else if eq_str(name, "home") {
        Some(Key::Home)
    } else if eq_str(name, "end") {
        Some(Key::End)
    } else if eq_str(name, "pageup") {
        Some(Key::PageUp)
    } else if eq_str(name, "pagedown") {
        Some(Key::PageDown)
    } else if eq_str(name, "f1") {
        Some(Key::F1)
    } else if eq_str(name, "f2") {
        Some(Key::F2)
    } else if eq_str(name, "f3") {
        Some(Key::F3)
    } else if eq_str(name, "f4") {
        Some(Key::F4)
    } else if eq_str(name, "f5") {
        Some(Key::F5)
    } else if eq_str(name, "f6") {
        Some(Key::F6)
    } else if eq_str(name, "f7") {
        Some(Key::F7)
    } else if eq_str(name, "f8") {
        Some(Key::F8)
    } else if eq_str(name, "f9") {
        Some(Key::F9)
    } else if eq_str(name, "f10") {
        Some(Key::F10)
    } else if eq_str(name, "f11") {
        Some(Key::F11)
    } else if eq_str(name, "f12") {
        Some(Key::F12)
    } else {
        alias(name)
    }
}

/// Parse a character or a supported cross-platform key name.
pub fn parse_key(key: &str) -> (r: Result<Key, KeyError>)
    ensures
        key_of(key@) matches Some(k) ==> r == Ok::<Key, KeyError>(k),
        key_of(key@) is None ==> (r matches Err(KeyError::UnsupportedKey(s)) && s@ == key@),
{
    let chars = chars_of(key);
    if chars.len() == 1 {
        return Ok(Key::Unicode(chars[0]));
    }
    let name = to_ascii_lower(&trim(&chars));
    match key_by_name(&name) {
        Some(k) => Ok(k),
        None => Err(KeyError::UnsupportedKey(key.to_owned())),
    }
}

/// Parse a cross-platform modifier name.
pub fn parse_modifier(modifier: &str, platform: Platform) -> (r: Result<Key, KeyError>)
    ensures
        modifier_of(modifier@, platform) matches Some(k) ==> r == Ok::<Key, KeyError>(k),
        modifier_of(modifier@, platform) is None ==> (r matches Err(
            KeyError::UnsupportedModifier(s),
        ) && s@ == modifier@),
{
    let normalized = to_ascii_lower(&trim(&chars_of(modifier)));
    let or = chars_of("or");
    match find(&normalized, &or) {
        Some(i) => {
            let left = alias(&slice_chars(&normalized, 0, i));
            let right = alias(&slice_chars(&normalized, i + or.len(), normalized.len()));
            if (left == Some(Key::Meta) && right == Some(Key::Control)) || (left == Some(
                Key::Control,
            ) && right == Some(Key::Meta)) {
                return Ok(command_or_control(platform));
            }
        },
        None => {},
    }
    match alias(&normalized) {
        Some(k) => Ok(k),
        None => Err(KeyError::UnsupportedModifier(modifier.to_owned())),
    }
}

proof fn lemma_dedup_contains(s: Seq<Key>, k: Key)
    ensures
        dedup_keys(s).contains(k) <==> s.contains(k),
    decreases s.len(),
{
    if s.len() > 0 {
        lemma_dedup_contains(s.drop_last(), k);
        assert(s =~= s.drop_last().push(s.last()));
        if s.drop_last().contains(k) {
            let i = choose|i: int| 0 <= i < s.drop_last().len() && s.drop_last()[i] == k;
            assert(s[i] == k);
        }
        if s.contains(k) && k != s.last() {
            let i = choose|i: int| 0 <= i < s.len() && s[i] == k;
            assert(s.drop_last()[i] == k);
        }
        let d = dedup_keys(s.drop_last());
        if !d.contains(s.last()) {
            if d.push(s.last()).contains(k) && k != s.last() {
                let i = choose|i: int| 0 <= i < d.push(s.last()).len() && d.push(s.last())[i] == k;
                assert(d[i] == k);
            }
            if k == s.last() {
                assert(d.push(s.last())[d.len() as int] == k);
            }
            if d.contains(k) {
                let i = choose|i: int| 0 <= i < d.len() && d[i] == k;
                assert(d.push(s.last())[i] == k);
            }
        }
        if k == s.last() {
            assert(s[s.len() - 1] == k);
        }
    }
}

/// Parse a key request: the key first, then every modifier in order; a modifier named twice is
/// held once.
#[verifier::loop_isolation(false)]
pub fn parse_key_request(key: &str, modifiers: Option<Vec<String>>, platform: Platform) -> (r:
    Result<KeyRequest, KeyError>)
    ensures
        key_of(key@) is None ==> (r matches Err(KeyError::UnsupportedKey(s)) && s@ == key@),
        key_of(key@) is Some ==> ({
            let names = match modifiers {
                Some(v) => v@.map_values(|m: String| m@),
                None => Seq::empty(),
            };
            let bad = first_bad_modifier(names, platform, 0);
            &&& bad < names.len() ==> (r matches Err(KeyError::UnsupportedModifier(s)) && s@
                == names[bad])
            &&& bad == names.len() ==> (r matches Ok(req) && req.key == key_of(key@)->0
                && modifiers_of(names, platform) is Some && req.modifiers@ == dedup_keys(
                modifiers_of(names, platform)->0))
        }),
{
    let k = match parse_key(key) {
        Ok(k) => k,
        Err(e) => return Err(e),
    };
    assert(key_of(key@) is Some);
    let ghost given = match modifiers {
        Some(ref v) => v@.map_values(|m: String| m@),
        None => Seq::empty(),
    };
    let names: Vec<String> = match modifiers {
        Some(v) => v,
        None => Vec::new(),
    };
    let ghost all = names@.map_values(|m: String| m@);
    assert(all =~= given);
    let mut keys: Vec<Key> = Vec::new();
    let mut i: usize = 0;
    while i < names.len()
        invariant
            i <= names.len(),
            all == names@.map_values(|m: String| m@),
            all == given,
            key_of(key@) == Some(k),
            first_bad_modifier(all, platform, 0) == first_bad_modifier(all, platform, i as int),
            modifiers_of(all.subrange(0, i as int), platform) is Some,
            keys@ == dedup_keys(modifiers_of(all.subrange(0, i as int), platform)->0),
        decreases names.len() - i,
    {
        let m = match parse_modifier(names[i].as_str(), platform) {
            Ok(m) => m,
            Err(e) => {
                assert(all[i as int] == names[i as int]@);
                assert(modifier_of(all[i as int], platform) is None);
                assert(first_bad_modifier(all, platform, i as int) == i);
                return Err(e);
            },
        };
        let ghost prev = modifiers_of(all.subrange(0, i as int), platform)->0;
        assert(all.subrange(0, i + 1).drop_last() =~= all.subrange(0, i as int));
        assert(all.subrange(0, i + 1).last() == names[i as int]@);
        let ghost next = prev.push(m);
        assert(next.drop_last() =~= prev);
        proof {
            lemma_dedup_contains(prev, m);
        }
        let mut seen = false;
        let mut j: usize = 0;
        while j < keys.len()
            invariant
                j <= keys.len(),
                seen == (exists|t: int| 0 <= t < j && keys@[t] == m),
            decreases keys.len() - j,
        {
            if keys[j] == m {
                seen = true;
            }
            j = j + 1;
        }
        if !seen {
            keys.push(m);
        }
        i = i + 1;
    }
    assert(all.subrange(0, names.len() as int) =~= all);
    Ok(KeyRequest { key: k, modifiers: keys })
}

/// Modifiers released before any synthetic keystroke so that leftovers of a user shortcut
/// cannot interfere.
pub fn modifier_keys() -> (keys: Vec<Key>)
    ensures
        keys@ == seq![Key::Meta, Key::Control, Key::Alt, Key::Shift],
{
    vec![Key::Meta, Key::Control, Key::Alt, Key::Shift]
}

/// Order in which held keys are released: the reverse of the order they were pressed in.
pub fn release_order(keys: &Vec<Key>) -> (order: Vec<Key>)
    ensures
        order@ == keys@.reverse(),
{
    let mut order: Vec<Key> = Vec::new();
    let mut i: usize = keys.len();
    while i > 0
        invariant
            i <= keys.len(),
            order@ == keys@.subrange(i as int, keys.len() as int).reverse(),
        decreases i,
    {
        i = i - 1;
        order.push(keys[i]);
        assert(keys@.subrange(i as int, keys.len() as int).reverse() =~= keys@.subrange(
            i + 1,
            keys.len() as int,
        ).reverse().push(keys@[i as int]));
    }
    assert(keys@.subrange(0, keys.len() as int) =~= keys@);
    order
}

/// First failure among results reported in order, or success when none failed.
pub fn first_failure<E>(results: Vec<Result<(), E>>) -> (r: Result<(), E>)
    ensures
        r is Ok <==> forall|i: int| 0 <= i < results.len() ==> results@[i] is Ok,
        r is Err ==> exists|i: int|
            0 <= i < results.len() && results@[i] == r && forall|j: int|
                0 <= j < i ==> results@[j] is Ok,
{
    let mut results = results;
    let ghost all = results@;
    // walk from the back so that the earliest failure is the one kept
    let mut found: Option<E> = None;
    let ghost mut at: int = 0;
    let mut i: usize = results.len();
    while i > 0
        invariant
            i <= all.len(),
            results@ == all.subrange(0, i as int),
            found is None <==> forall|j: int| i <= j < all.len() ==> all[j] is Ok,
            found is Some ==> i <= at < all.len() && all[at] == Err::<(), E>(found->0) && forall|
                j: int,
            |
                i <= j < at ==> all[j] is Ok,
        decreases i,
    {
        i = i - 1;
        let item = results.pop().unwrap();
        assert(item == all[i as int]);
        match item {
            Err(e) => {
                found = Some(e);
                proof {
                    at = i as int;
                }
            },
            Ok(()) => {},
        }
    }
    match found {
        Some(e) => Err(e),
        None => Ok(()),
    }
}

/// The names that stand for a key (besides a single character, which stands for itself), in
/// lower case; `parse_key` also accepts them in any ASCII case and with surrounding white space.
pub open spec fn key_names(k: Key) -> Seq<Seq<char>> {
    match k {
        Key::Return => seq!["enter"@, "return"@],
        Key::Tab => seq!["tab"@],
        Key::Escape => seq!["escape"@, "esc"@],
        Key::Space => seq!["space"@],
        Key::Backspace => seq!["backspace"@],
        Key::Delete => seq!["delete"@, "del"@],
        Key::UpArrow => seq!["up"@, "arrowup"@],
        Key::DownArrow => seq!["down"@, "arrowdown"@],
        Key::LeftArrow => seq!["left"@, "arrowleft"@],
        Key::RightArrow => seq!["right"@, "arrowright"@],
        Key::Home => seq!["home"@],
        Key::End => seq!["end"@],
        Key::PageUp => seq!["pageup"@],
        Key::PageDown => seq!["pagedown"@],
        Key::F1 => seq!["f1"@],
        Key::F2 => seq!["f2"@],
        Key::F3 => seq!["f3"@],
        Key::F4 => seq!["f4"@],
        Key::F5 => seq!["f5"@],
        Key::F6 => seq!["f6"@],
        Key::F7 => seq!["f7"@],
        Key::F8 => seq!["f8"@],
        Key::F9 => seq!["f9"@],
        Key::F10 => seq!["f10"@],
        Key::F11 => seq!["f11"@],
        Key::F12 => seq!["f12"@],
        Key::Meta => seq!["meta"@, "cmd"@, "command"@, "super"@, "win"@, "windows"@],
        Key::Control => seq!["control"@, "ctrl"@],
        Key::Alt => seq!["alt"@, "option"@],
        Key::Shift => seq!["shift"@],
        Key::Insert => seq![],
        Key::Unicode(_) => seq![],
    }
}

/// A name of lower-case letters and digits is looked up as it is.
proof fn lemma_plain_name_lookup(n: Seq<char>)
    requires
        n.len() >= 2,
        forall|i: int| 0 <= i < n.len() ==> ('a' <= #[trigger] n[i] <= 'z') || ('0' <= n[i] <= '9'),
    ensures
        key_of(n) == named_key(n),
{
    assert(!is_white_space(n[0]));
    assert(!is_white_space(n[n.len() - 1]));
    assert(n.subrange(0, n.len() as int) =~= n);
    assert(ascii_lower(n) =~= n);
}

/// Every name of a key parses to that key and to no other: `Delete` and `Del` delete forward,
/// `Backspace` deletes back, each arrow, function and modifier name gives its own key.
pub proof fn law_key_names_parse_to_their_key(k: Key)
    ensures
        forall|i: int| 0 <= i < key_names(k).len() ==> key_of(#[trigger] key_names(k)[i]) == Some(k),
{
    reveal_strlit("enter");
    reveal_strlit("return");
    reveal_strlit("tab");
    reveal_strlit("escape");
    reveal_strlit("esc");
    reveal_strlit("space");
    reveal_strlit("backspace");
    reveal_strlit("delete");
    reveal_strlit("del");
    reveal_strlit("up");
    reveal_strlit("arrowup");
    reveal_strlit("down");
    reveal_strlit("arrowdown");
    reveal_strlit("left");
    reveal_strlit("arrowleft");
    reveal_strlit("right");
    reveal_strlit("arrowright");
    reveal_strlit("home");
    reveal_strlit("end");
    reveal_strlit("pageup");
    reveal_strlit("pagedown");
    reveal_strlit("f1");
    reveal_strlit("f2");
    reveal_strlit("f3");
    reveal_strlit("f4");
    reveal_strlit("f5");
    reveal_strlit("f6");
    reveal_strlit("f7");
    reveal_strlit("f8");
    reveal_strlit("f9");
    reveal_strlit("f10");
    reveal_strlit("f11");
    reveal_strlit("f12");
    reveal_strlit("meta");
    reveal_strlit("cmd");
    reveal_strlit("command");
    reveal_strlit("super");
    reveal_strlit("win");
    reveal_strlit("windows");
    reveal_strlit("control");
    reveal_strlit("ctrl");
    reveal_strlit("alt");
    reveal_strlit("option");
    reveal_strlit("shift");
    assert forall|i: int| 0 <= i < key_names(k).len() implies key_of(#[trigger] key_names(k)[i])
        == Some(k) by {
        lemma_plain_name_lookup(key_names(k)[i]);
    }
}

/// Next action while sending a key request.
#[derive(Clone, Copy, Debug, PartialEq, Eq, Structural)]
pub enum SendStep {
    /// Press and hold a modifier.
    Press(Key),
    /// Click the key.
    Click(Key),
    /// Stop sending and release the requested modifiers.
    Release,
}

/// After `done` actions of a key request succeeded, or the last of them failed: press the
/// modifiers in order, then click the key; the first failure, or the click, ends the sending,
/// and the requested modifiers are released in every case.
pub fn send_step(request: &KeyRequest, done: usize, failed: bool) -> (s: SendStep)
    ensures
        failed || done > request.modifiers@.len() ==> s == SendStep::Release,
        !failed && done < request.modifiers@.len() ==> s == SendStep::Press(
            request.modifiers@[done as int],
        ),
        !failed && done == request.modifiers@.len() ==> s == SendStep::Click(request.key),
{
    if failed || done > request.modifiers.len() {
        SendStep::Release
    } else if done < request.modifiers.len() {
        SendStep::Press(request.modifiers[done])
    } else {
        SendStep::Click(request.key)
    }
}

/// Outcome of sending a key request: the failure of sending the key comes first, then that of
/// releasing the modifiers.
pub fn send_outcome<E>(send: Result<(), E>, release: Result<(), E>) -> (r: Result<(), E>)
    ensures
        send is Err ==> r == send,
        send is Ok ==> r == release,
{
    match send {
        Err(e) => Err(e),
        Ok(()) => release,
    }
}

/// Keys that cut the selection: the primary modifier and `x`.
pub fn cut_keys(platform: Platform) -> (keys: (Key, Key))
    ensures
        keys == (command_or_control_spec(platform), Key::Unicode('x')),
{
    (command_or_control(platform), Key::Unicode('x'))
}

/// Keys that copy the selection: Command+C on macOS; elsewhere Control+C when that copy key is
/// configured, otherwise Control+Insert.
pub fn copy_keys(platform: Platform, use_ctrl_c: bool) -> (keys: (Key, Key))
    ensures
        platform == Platform::MacOs ==> keys == (Key::Meta, Key::Unicode('c')),
        platform == Platform::Windows && use_ctrl_c ==> keys == (Key::Control, Key::Unicode('c')),
        platform == Platform::Windows && !use_ctrl_c ==> keys == (Key::Control, Key::Insert),
{
    match platform {
        Platform::MacOs => (Key::Meta, Key::Unicode('c')),
        Platform::Windows => {
            if use_ctrl_c {
                (Key::Control, Key::Unicode('c'))
            } else {
                (Key::Control, Key::Insert)
            }
        },
    }
}

/// Keys that paste: the primary modifier and `v`.
pub fn paste_keys(platform: Platform) -> (keys: (Key, Key))
    ensures
        keys == (command_or_control_spec(platform), Key::Unicode('v')),
{
    (command_or_control(platform), Key::Unicode('v'))
}


/// A key request holds every modifier at most once, and holds each modifier that was named.
pub proof fn law_modifiers_held_once(s: Seq<Key>)
    ensures
        dedup_keys(s).no_duplicates(),
        forall|k: Key| dedup_keys(s).contains(k) <==> s.contains(k),
    decreases s.len(),
{
    if s.len() > 0 {
        law_modifiers_held_once(s.drop_last());
        let d = dedup_keys(s.drop_last());
        if !d.contains(s.last()) {
            assert forall|i: int, j: int|
                0 <= i < d.push(s.last()).len() && 0 <= j < d.push(s.last()).len() && i != j implies d.push(
                s.last(),
            )[i] != d.push(s.last())[j] by {
                if i == d.len() as int {
                    assert(d[j] != s.last());
                } else if j == d.len() as int {
                    assert(d[i] != s.last());
                }
            }
        }
    }
    assert forall|k: Key| dedup_keys(s).contains(k) <==> s.contains(k) by {
        lemma_dedup_contains(s, k);
    }
}

} // verus!
