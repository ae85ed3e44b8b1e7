//! Global keyboard shortcuts: parsing, the registry of registered shortcuts, pausing and
//! resuming shortcut handling, and the guard that suspends handling within a scope.
use vstd::prelude::*;

use keyboard_types::Code;
use std::collections::HashMap;

use crate::text::{ascii_lower, chars_of, eq_chars, eq_str, to_ascii_lower};

verus! {

/// `keyboard_types::Code`, the physical key of a shortcut.
#[verifier::external_type_specification]
#[verifier::external_body]
pub struct ExCode(Code);

/// The position number (`Code as u32`) of the key code that `keyboard_types` parses from `name`
/// (the `FromStr` impl of `Code`, a table of W3C key code names), or `None` when `name` is
/// not a key code name.
pub uninterp spec fn code_number(name: Seq<char>) -> Option<u32>;

/// The position number of a key code, `code as u32` (its place in the `Code` enum).
pub uninterp spec fn code_index(code: Code) -> u32;

/// Parse a key code name with `keyboard_types::Code::from_str`, returning the code together
/// with its position number. Claimed: it succeeds exactly on the names `code_number` accepts,
/// and returns a code whose position number (`code_index`) is the number `code_number` names,
/// together with that number.
#[verifier::external_body]
fn parse_code(name: &Vec<char>) -> (r: Option<(Code, u32)>)
    ensures
        r is Some <==> code_number(name@) is Some,
        r matches Some(p) ==> Some(p.1) == code_number(name@),
        r matches Some(p) ==> code_index(p.0) == p.1,
{
    let name: String = name.iter().collect();
    match name.parse::<Code>() {
        Ok(code) => Some((code, code as u32)),
        Err(_) => None,
    }
}

/// Modifier flag of Alt (`keyboard_types::Modifiers::ALT`).
pub const MOD_ALT: u32 = 0x01;

/// Modifier flag of Control (`keyboard_types::Modifiers::CONTROL`).
pub const MOD_CONTROL: u32 = 0x08;

/// Modifier flag of Meta (`keyboard_types::Modifiers::META`).
pub const MOD_META: u32 = 0x40;

/// Modifier flag of Shift (`keyboard_types::Modifiers::SHIFT`).
pub const MOD_SHIFT: u32 = 0x200;

/// A parsed global shortcut: modifier flags and a key code.
#[derive(Clone, Copy, Debug)]
pub struct Shortcut {
    /// Modifier flags, as `keyboard_types::Modifiers` bits.
    pub modifiers: u32,
    pub code: Code,
    /// Position number of `code`.
    pub code_number: u32,
}

/// Why a shortcut string was refused.
#[derive(Clone, Debug, PartialEq, Eq)]
pub enum ShortcutParseError {
    /// A token before the key is not a modifier; holds the token.
    UnsupportedModifier(Vec<char>),
    /// The last token is not a key code; holds the token.
    UnsupportedKeyCode(Vec<char>),
}

/// Identifier of a hotkey (`global_hotkey::hotkey::HotKey::new`): the modifier flags in the
/// upper half and the code number in the lower.
pub open spec fn hotkey_id(modifiers: u32, code_number: u32) -> u32 {
    (modifiers << 16u32) | code_number
}

/// The pieces of `s` between the separators `sep`, scanning left to right.
pub open spec fn split_by(s: Seq<char>, sep: char) -> Seq<Seq<char>>
    decreases s.len(),
{
    if s.len() == 0 {
        seq![Seq::empty()]
    } else {
        let init = split_by(s.drop_last(), sep);
        if s.last() == sep {
            init.push(Seq::empty())
        } else {
            init.update(init.len() - 1, init.last().push(s.last()))
        }
    }
}

/// The flag of a modifier name, compared without regard to case. (Lower-casing these ASCII
/// names with `to_lowercase` or `to_ascii_lowercase` tells them apart the same way: no other
/// character lower-cases to one of their letters.)
pub open spec fn modifier_flag(token: Seq<char>) -> Option<u32> {
    let t = ascii_lower(token);
    if t == "meta"@ {
        Some(MOD_META)
    } else if t == "control"@ {
        Some(MOD_CONTROL)
    } else if t == "alt"@ {
        Some(MOD_ALT)
    } else if t == "shift"@ {
        Some(MOD_SHIFT)
    } else {
        None
    }
}

/// The combined flags of modifier tokens, or the index of the first token that is not one.
pub open spec fn modifier_flags(tokens: Seq<Seq<char>>) -> Result<u32, int>
    decreases tokens.len(),
{
    if tokens.len() == 0 {
        Ok(0)
    } else {
        match modifier_flags(tokens.drop_last()) {
            Err(i) => Err(i),
            Ok(bits) => match modifier_flag(tokens.last()) {
                Some(f) => Ok(bits | f),
                None => Err(tokens.len() - 1),
            },
        }
    }
}

/// Outcome of parsing a shortcut string: modifiers first, joined by `+`, then one key code.
/// `Ok((modifiers, code_number))`, or the error with the offending token.
pub open spec fn shortcut_of(s: Seq<char>) -> Result<(u32, u32), ShortcutParseErrorSpec> {
    let tokens = split_by(s, '+');
    let mods = tokens.drop_last();
    match modifier_flags(mods) {
        Err(i) => Err(ShortcutParseErrorSpec::UnsupportedModifier(mods[i])),
        Ok(bits) => match code_number(tokens.last()) {
            Some(n) => Ok((bits, n)),
            None => Err(ShortcutParseErrorSpec::UnsupportedKeyCode(tokens.last())),
        },
    }
}

/// Abstract form of [`ShortcutParseError`].
pub ghost enum ShortcutParseErrorSpec {
    UnsupportedModifier(Seq<char>),
    UnsupportedKeyCode(Seq<char>),
}

impl ShortcutParseError {
    pub open spec fn spec(self) -> ShortcutParseErrorSpec {
        match self {
            ShortcutParseError::UnsupportedModifier(t) => ShortcutParseErrorSpec::UnsupportedModifier(
                t@,
            ),
            ShortcutParseError::UnsupportedKeyCode(t) => ShortcutParseErrorSpec::UnsupportedKeyCode(
                t@,
            ),
        }
    }
}

/// Whether `s` parses to a shortcut whose identifier is `id`.
pub open spec fn parses_with_id(s: Seq<char>, id: u32) -> bool {
    shortcut_of(s) matches Ok(p) && hotkey_id(p.0, p.1) == id
}

/// Extending a string keeps every completed piece before the current one.
proof fn lemma_split_extends(s: Seq<char>, j: int, k: int)
    requires
        0 <= j <= k <= s.len(),
    ensures
        split_by(s.subrange(0, k), '+').len() >= split_by(s.subrange(0, j), '+').len(),
        forall|t: int|
            0 <= t < split_by(s.subrange(0, j), '+').len() - 1 ==> split_by(s.subrange(0, k), '+')[t]
                == split_by(s.subrange(0, j), '+')[t],
    decreases k - j,
{
    if k > j {
        lemma_split_extends(s, j, k - 1);
        assert(s.subrange(0, k).drop_last() =~= s.subrange(0, k - 1));
        assert(split_by(s.subrange(0, k), '+').len() >= 1) by {
            lemma_split_nonempty(s.subrange(0, k));
        }
        lemma_split_nonempty(s.subrange(0, k - 1));
    }
}

proof fn lemma_split_nonempty(s: Seq<char>)
    ensures
        split_by(s, '+').len() >= 1,
    decreases s.len(),
{
    if s.len() > 0 {
        lemma_split_nonempty(s.drop_last());
    }
}

/// A modifier list whose prefix already holds a non-modifier fails at that token.
proof fn lemma_flags_prefix(x: Seq<Seq<char>>, n: int)
    requires
        0 <= n <= x.len(),
        modifier_flags(x.subrange(0, n)) is Err,
    ensures
        modifier_flags(x) == modifier_flags(x.subrange(0, n)),
    decreases x.len(),
{
    if x.len() == n {
        assert(x.subrange(0, n) =~= x);
    } else {
        assert(x.drop_last().subrange(0, n) =~= x.subrange(0, n));
        lemma_flags_prefix(x.drop_last(), n);
    }
}

/// The system refused the hotkey `shortcut` parses to: the hotkey was handed to `f`, which
/// failed with `e`.
pub open spec fn plugin_refused<E, F: FnOnce(&Shortcut) -> Result<(), E>>(
    shortcut: Seq<char>,
    f: F,
    e: E,
) -> bool {
    shortcut_of(shortcut) matches Ok(p) && exists|h: Shortcut|
        h.modifiers == p.0 && h.code_number == p.1 && code_index(h.code) == p.1 && #[trigger] call_ensures(
            f,
            (&h,),
            Err::<(), E>(e),
        )
}

/// The hotkey `shortcut` parses to was handed to `f`.
pub open spec fn handed_to<E, F: Fn(&Shortcut) -> Result<(), E>>(shortcut: Seq<char>, f: F) -> bool {
    shortcut_of(shortcut) matches Ok(p) && exists|h: Shortcut, o: Result<(), E>|
        h.modifiers == p.0 && h.code_number == p.1 && code_index(h.code) == p.1
            && #[trigger] call_ensures(f, (&h,), o)
}

impl Shortcut {
    /// Identifier of the hotkey, the key under which it is registered.
    pub fn id(&self) -> (r: u32)
        ensures
            r == hotkey_id(self.modifiers, self.code_number),
    {
        (self.modifiers << 16u32) | self.code_number
    }
}

fn flag_of(token: &Vec<char>) -> (r: Option<u32>)
    ensures
        r == modifier_flag(token@),
{
    let t = to_ascii_lower(token);
    if eq_str(&t, "meta") {
        Some(MOD_META)
    } else if eq_str(&t, "control") {
        Some(MOD_CONTROL)
    } else if eq_str(&t, "alt") {
        Some(MOD_ALT)
    } else if eq_str(&t, "shift") {
        Some(MOD_SHIFT)
    } else {
        None
    }
}

/// Parse a shortcut string such as `"Control+Shift+KeyA"`: modifiers (`Meta`, `Control`, `Alt`,
/// `Shift`, in any case) joined by `+`, then one key code.
pub fn parse_shortcut(shortcut: &str) -> (r: Result<Shortcut, ShortcutParseError>)
    ensures
        shortcut_of(shortcut@) matches Ok(p) ==> (r matches Ok(h) && h.modifiers == p.0
            && h.code_number == p.1 && code_index(h.code) == p.1),
        shortcut_of(shortcut@) matches Err(e) ==> (r matches Err(re) && re.spec() == e),
{
    let chars = chars_of(shortcut);
    let ghost s = chars@;
    let mut bits: u32 = 0;
    let mut token: Vec<char> = Vec::new();
    let ghost mut done: Seq<Seq<char>> = Seq::empty();
    let mut i: usize = 0;
    while i < chars.len()
        invariant
            i <= chars.len(),
            s == chars@,
            s == shortcut@,
            split_by(s.subrange(0, i as int), '+') == done.push(token@),
            modifier_flags(done) == Ok::<u32, int>(bits),
        decreases chars.len() - i,
    {
        let c = chars[i];
        assert(s.subrange(0, i + 1).drop_last() =~= s.subrange(0, i as int));
        assert(s.subrange(0, i + 1).last() == c);
        if c == '+' {
            match flag_of(&token) {
                Some(f) => {
                    proof {
                        assert(done.push(token@).drop_last() =~= done);
                    }
                    bits = bits | f;
                    proof {
                        done = done.push(token@);
                    }
                    token = Vec::new();
                },
                None => {
                    proof {
                        let tokens = split_by(s, '+');
                        let bad = done.push(token@);
                        assert(split_by(s.subrange(0, i + 1), '+') == bad.push(Seq::empty()));
                        lemma_split_extends(s, i + 1, s.len() as int);
                        assert(s.subrange(0, s.len() as int) =~= s);
                        let mods = tokens.drop_last();
                        assert(mods.subrange(0, bad.len() as int) =~= bad);
                        assert(bad.drop_last() =~= done);
                        assert(modifier_flags(bad) == Err::<u32, int>(done.len() as int));
                        lemma_flags_prefix(mods, bad.len() as int);
                        assert(mods[done.len() as int] == token@);
                    }
                    return Err(ShortcutParseError::UnsupportedModifier(token));
                },
            }
        } else {
            token.push(c);
        }
        i = i + 1;
    }
    assert(s.subrange(0, chars.len() as int) =~= s);
    assert(done.push(token@).drop_last() =~= done);
    match parse_code(&token) {
        Some((code, n)) => Ok(Shortcut { modifiers: bits, code, code_number: n }),
        None => Err(ShortcutParseError::UnsupportedKeyCode(token)),
    }
}


/// Abstract state of the shortcut registry: each registered shortcut string under the
/// identifier of its hotkey, and whether shortcut handling is paused.
pub ghost struct RegistryState {
    pub shortcuts: Map<u32, Seq<char>>,
    pub paused: bool,
}

/// Whether `shortcut` is one of the registered strings.
pub open spec fn registered_in(m: Map<u32, Seq<char>>, shortcut: Seq<char>) -> bool {
    exists|k: u32| m.contains_key(k) && m[k] == shortcut
}

/// Every registered string parses to a hotkey whose identifier is the key it is stored under.
pub open spec fn registry_well_formed(m: Map<u32, Seq<char>>) -> bool {
    forall|k: u32| m.contains_key(k) ==> parses_with_id(#[trigger] m[k], k)
}

/// The registered global shortcuts and the pause state of shortcut handling.
pub struct ShortcutRegistry {
    registered: HashMap<u32, String>,
    paused: bool,
}

impl View for ShortcutRegistry {
    type V = RegistryState;

    closed spec fn view(&self) -> RegistryState {
        RegistryState {
            shortcuts: self.registered@.map_values(|s: String| s@),
            paused: self.paused,
        }
    }
}

broadcast use vstd::std_specs::hash::group_hash_axioms;

impl ShortcutRegistry {
    #[verifier::type_invariant]
    spec fn inv(self) -> bool {
        registry_well_formed(self@.shortcuts)
    }

    /// No shortcut registered, handling not paused.
    pub fn new() -> (r: Self)
        ensures
            r@.shortcuts == Map::<u32, Seq<char>>::empty(),
            !r@.paused,
    {
        let r = ShortcutRegistry { registered: HashMap::new(), paused: false };
        assert(r@.shortcuts =~= Map::<u32, Seq<char>>::empty());
        r
    }

    /// Whether shortcut handling is paused.
    pub fn is_paused(&self) -> (r: bool)
        ensures
            r == self@.paused,
            registry_well_formed(self@.shortcuts),
    {
        proof {
            use_type_invariant(self);
        }
        self.paused
    }

    /// The registered strings, each once per identifier.
    fn registered_values(&self) -> (res: Vec<String>)
        ensures
            res@.to_set() == self.registered@.values(),
    {
        let ghost m = self.registered@;
        let mut snapshot: Vec<String> = Vec::new();
        for v in it: self.registered.values()
            invariant
                m == self.registered@,
                it.seq().unref().to_set() == m.values(),
                snapshot@ == it.seq().unref().take(it.index()),
                it.index() == it.seq().len() ==> snapshot@.to_set() == m.values(),
        {
            assert(it.seq().unref()[it.index()] == *v);
            snapshot.push(v.clone());
            assert(snapshot@ =~= it.seq().unref().take(it.index() + 1));
            assert(it.seq().unref().take(it.seq().len() as int) =~= it.seq().unref());
        }
        snapshot
    }

    /// Check if a global shortcut is registered, by its string.
    pub fn is_shortcut_registered(&self, shortcut: &str) -> (r: bool)
        ensures
            r == registered_in(self@.shortcuts, shortcut@),
            registry_well_formed(self@.shortcuts),
    {
        proof {
            use_type_invariant(self);
        }
        let target = chars_of(shortcut);
        let values = self.registered_values();
        let mut found = false;
        let mut i: usize = 0;
        while i < values.len()
            invariant
                i <= values.len(),
                found == exists|t: int| 0 <= t < i && (#[trigger] values@[t])@ == target@,
            decreases values.len() - i,
        {
            if eq_chars(&chars_of(values[i].as_str()), &target) {
                found = true;
            }
            i = i + 1;
        }
        proof {
            let m = self.registered@;
            let vm = self@.shortcuts;
            if found {
                let t = choose|t: int| 0 <= t < values.len() && (#[trigger] values@[t])@ == target@;
                assert(values@.to_set().contains(values@[t]));
                let k = choose|k: u32| m.contains_key(k) && m[k] == values@[t];
                assert(vm.contains_key(k) && vm[k] == shortcut@);
            }
            if registered_in(vm, shortcut@) {
                let k = choose|k: u32| vm.contains_key(k) && vm[k] == shortcut@;
                assert(m.values().contains(m[k]));
                assert(values@.to_set().contains(m[k]));
                let t = choose|t: int| 0 <= t < values.len() && values@[t] == m[k];
                assert(values@[t]@ == target@);
            }
        }
        found
    }

    /// Register a global shortcut: refused when its string is already registered or does not
    /// parse; otherwise `register` registers the hotkey with the system and, when that
    /// succeeds, the string is recorded under the hotkey's identifier.
    pub fn register_shortcut<E, F: FnOnce(&Shortcut) -> Result<(), E>>(
        &mut self,
        shortcut: String,
        register: F,
    ) -> (r: Result<(), ShortcutError<E>>)
        requires
            forall|h: Shortcut| call_requires(register, (&h,)),
        ensures
            final(self)@.paused == old(self)@.paused,
            registry_well_formed(old(self)@.shortcuts),
            registered_in(old(self)@.shortcuts, shortcut@) ==> (r matches Err(
                ShortcutError::AlreadyRegistered(s),
            ) && s@ == shortcut@ && final(self)@ == old(self)@),
            !registered_in(old(self)@.shortcuts, shortcut@) ==> (shortcut_of(shortcut@) matches Err(e)
                ==> (r matches Err(ShortcutError::Parse(pe)) && pe.spec() == e && final(self)@
                == old(self)@)),
            !registered_in(old(self)@.shortcuts, shortcut@) && shortcut_of(shortcut@) is Ok ==> (r is Ok
                || r matches Err(ShortcutError::Plugin(_))),
            r is Ok ==> (shortcut_of(shortcut@) matches Ok(p) && final(self)@.shortcuts == old(
                self,
            )@.shortcuts.insert(hotkey_id(p.0, p.1), shortcut@) && exists|h: Shortcut, o: Result<
                (),
                E,
            >|
                h.modifiers == p.0 && h.code_number == p.1 && code_index(h.code) == p.1 && o is Ok
                    && #[trigger] call_ensures(
                    register,
                    (&h,),
                    o,
                )),
            r matches Err(ShortcutError::Plugin(_)) ==> final(self)@ == old(self)@,
            r matches Err(ShortcutError::Plugin(e)) ==> plugin_refused(shortcut@, register, e),
    {
        proof {
            use_type_invariant(&*self);
        }
        if self.is_shortcut_registered(shortcut.as_str()) {
            return Err(ShortcutError::AlreadyRegistered(shortcut));
        }
        let hotkey = match parse_shortcut(shortcut.as_str()) {
            Ok(h) => h,
            Err(e) => return Err(ShortcutError::Parse(e)),
        };
        let outcome = register(&hotkey);
        match outcome {
            Ok(()) => {},
            Err(e) => {
                let ghost p = shortcut_of(shortcut@)->Ok_0;
                assert(exists|h: Shortcut|
                    h.modifiers == p.0 && h.code_number == p.1 && code_index(h.code) == p.1
                        && #[trigger] call_ensures(
                        register,
                        (&h,),
                        Err::<(), E>(e),
                    ));
                let r: Result<(), ShortcutError<E>> = Err(ShortcutError::Plugin(e));
                return r;
            },
        }
        let id = hotkey.id();
        let ghost old_m = self.registered@;
        let ghost text = shortcut@;
        let mut m: HashMap<u32, String> = HashMap::new();
        std::mem::swap(&mut m, &mut self.registered);
        m.insert(id, shortcut);
        proof {
            assert(m@.map_values(|s: String| s@) =~= old_m.map_values(|s: String| s@).insert(
                id,
                text,
            ));
            assert(parses_with_id(text, id));
        }
        self.registered = m;
        proof {
            assert(self@.shortcuts =~= old_m.map_values(|s: String| s@).insert(id, text));
        }
        Ok(())
    }

    /// Unregister a global shortcut: refused when its string is not registered; otherwise
    /// `unregister` removes the hotkey from the system and, when that succeeds, the string is
    /// dropped from the registry.
    pub fn unregister_shortcut<E, F: FnOnce(&Shortcut) -> Result<(), E>>(
        &mut self,
        shortcut: String,
        unregister: F,
    ) -> (r: Result<(), ShortcutError<E>>)
        requires
            forall|h: Shortcut| call_requires(unregister, (&h,)),
        ensures
            final(self)@.paused == old(self)@.paused,
            registry_well_formed(old(self)@.shortcuts),
            !registered_in(old(self)@.shortcuts, shortcut@) ==> (r matches Err(
                ShortcutError::NotRegistered(s),
            ) && s@ == shortcut@ && final(self)@ == old(self)@),
            registered_in(old(self)@.shortcuts, shortcut@) ==> shortcut_of(shortcut@) is Ok && (r is Ok
                || r matches Err(ShortcutError::Plugin(_))),
            r is Ok ==> (shortcut_of(shortcut@) matches Ok(p) && final(self)@.shortcuts == old(
                self,
            )@.shortcuts.remove(hotkey_id(p.0, p.1)) && exists|h: Shortcut, o: Result<(), E>|
                h.modifiers == p.0 && h.code_number == p.1 && code_index(h.code) == p.1 && o is Ok
                    && #[trigger] call_ensures(
                    unregister,
                    (&h,),
                    o,
                )),
            r matches Err(ShortcutError::Plugin(_)) ==> final(self)@ == old(self)@,
            r matches Err(ShortcutError::Plugin(e)) ==> plugin_refused(shortcut@, unregister, e),
    {
        proof {
            use_type_invariant(&*self);
        }
        if !self.is_shortcut_registered(shortcut.as_str()) {
            return Err(ShortcutError::NotRegistered(shortcut));
        }
        proof {
            let k = choose|k: u32| self@.shortcuts.contains_key(k) && self@.shortcuts[k] == shortcut@;
            assert(parses_with_id(self@.shortcuts[k], k));
        }
        let hotkey = match parse_shortcut(shortcut.as_str()) {
            Ok(h) => h,
            Err(e) => return Err(ShortcutError::Parse(e)),
        };
        let outcome = unregister(&hotkey);
        match outcome {
            Ok(()) => {},
            Err(e) => {
                let ghost p = shortcut_of(shortcut@)->Ok_0;
                assert(exists|h: Shortcut|
                    h.modifiers == p.0 && h.code_number == p.1 && code_index(h.code) == p.1
                        && #[trigger] call_ensures(
                        unregister,
                        (&h,),
                        Err::<(), E>(e),
                    ));
                let r: Result<(), ShortcutError<E>> = Err(ShortcutError::Plugin(e));
                return r;
            },
        }
        let id = hotkey.id();
        let ghost old_m = self.registered@;
        let mut m: HashMap<u32, String> = HashMap::new();
        std::mem::swap(&mut m, &mut self.registered);
        m.remove(&id);
        proof {
            assert(m@.map_values(|s: String| s@) =~= old_m.map_values(|s: String| s@).remove(id));
        }
        self.registered = m;
        proof {
            assert(self@.shortcuts =~= old_m.map_values(|s: String| s@).remove(id));
        }
        Ok(())
    }

    /// Pause shortcut event handling. Returns `false`, changing nothing, when already paused;
    /// with `unregister_all`, every registered hotkey is handed to `unregister` (whose failures
    /// are ignored) while the registry keeps its entries.
    pub fn pause_shortcut_handling<E, F: Fn(&Shortcut) -> Result<(), E>>(
        &mut self,
        unregister_all: Option<bool>,
        unregister: F,
    ) -> (r: bool)
        requires
            forall|h: Shortcut| call_requires(unregister, (&h,)),
        ensures
            r == !old(self)@.paused,
            final(self)@ == (RegistryState { paused: true, ..old(self)@ }),
            r && unregister_all == Some(true) ==> forall|k: u32|
                old(self)@.shortcuts.contains_key(k) ==> handed_to(
                    #[trigger] old(self)@.shortcuts[k],
                    unregister,
                ),
    {
        proof {
            use_type_invariant(&*self);
        }
        if self.paused {
            return false;
        }
        self.paused = true;
        if unregister_all == Some(true) {
            self.for_each_registered(&unregister);
        }
        true
    }

    /// Resume shortcut event handling. Returns `false`, changing nothing, when not paused;
    /// with `register_all`, every registered hotkey is handed to `register` (whose failures are
    /// ignored) before handling resumes.
    pub fn resume_shortcut_handling<E, F: Fn(&Shortcut) -> Result<(), E>>(
        &mut self,
        register_all: Option<bool>,
        register: F,
    ) -> (r: bool)
        requires
            forall|h: Shortcut| call_requires(register, (&h,)),
        ensures
            r == old(self)@.paused,
            final(self)@ == (RegistryState { paused: false, ..old(self)@ }),
            r && register_all == Some(true) ==> forall|k: u32|
                old(self)@.shortcuts.contains_key(k) ==> handed_to(
                    #[trigger] old(self)@.shortcuts[k],
                    register,
                ),
    {
        proof {
            use_type_invariant(&*self);
        }
        if !self.paused {
            return false;
        }
        if register_all == Some(true) {
            self.for_each_registered(&register);
        }
        self.paused = false;
        true
    }

    /// Hand the hotkey of every registered string to `f`, ignoring its results.
    fn for_each_registered<E, F: Fn(&Shortcut) -> Result<(), E>>(&self, f: &F)
        requires
            forall|h: Shortcut| call_requires(*f, (&h,)),
        ensures
            forall|k: u32| self@.shortcuts.contains_key(k) ==> handed_to(#[trigger] self@.shortcuts[k], *f),
    {
        proof {
            use_type_invariant(self);
        }
        let values = self.registered_values();
        let mut i: usize = 0;
        while i < values.len()
            invariant
                i <= values.len(),
                values@.to_set() == self.registered@.values(),
                registry_well_formed(self@.shortcuts),
                forall|h: Shortcut| call_requires(*f, (&h,)),
                forall|t: int| 0 <= t < i ==> handed_to((#[trigger] values@[t])@, *f),
            decreases values.len() - i,
        {
            proof {
                assert(values@.to_set().contains(values@[i as int]));
                let k = choose|k: u32|
                    self.registered@.contains_key(k) && self.registered@[k] == values@[i as int];
                assert(self@.shortcuts[k] == values@[i as int]@);
                assert(parses_with_id(self@.shortcuts[k], k));
            }
            match parse_shortcut(values[i].as_str()) {
                Ok(hotkey) => {
                    let outcome = f(&hotkey);
                    assert(handed_to(values@[i as int]@, *f)) by {
                        assert(call_ensures(*f, (&hotkey,), outcome));
                    }
                },
                Err(_) => {},
            }
            i = i + 1;
        }
        proof {
            assert forall|k: u32| self@.shortcuts.contains_key(k) implies handed_to(
                #[trigger] self@.shortcuts[k],
                *f,
            ) by {
                let m = self.registered@;
                assert(m.values().contains(m[k]));
                let t = choose|t: int| 0 <= t < values.len() && values@[t] == m[k];
                assert(handed_to(values@[t]@, *f));
            }
        }
    }
}

/// Why a registry operation was refused.
#[derive(Debug)]
pub enum ShortcutError<E> {
    AlreadyRegistered(String),
    NotRegistered(String),
    Parse(ShortcutParseError),
    /// The system refused the hotkey.
    Plugin(E),
}

/// Nesting depth of the guards that suspend shortcut event handling.
pub struct ShortcutSuspension {
    depth: u64,
}

impl View for ShortcutSuspension {
    type V = u64;

    closed spec fn view(&self) -> u64 {
        self.depth
    }
}

/// A guard that suspends shortcut event handling until it is released.
pub struct ShortcutHandlerGuard {
    private: (),
}

/// Depth after one more guard (wrapping).
pub open spec fn deeper(depth: u64) -> u64 {
    if depth == u64::MAX {
        0
    } else {
        (depth + 1) as u64
    }
}

impl ShortcutSuspension {
    /// No guard held.
    pub fn new() -> (s: Self)
        ensures
            s@ == 0,
    {
        ShortcutSuspension { depth: 0 }
    }

    /// Number of guards held.
    pub fn depth(&self) -> (d: u64)
        ensures
            d == self@,
    {
        self.depth
    }

    /// Whether shortcut event handling is suspended: at least one guard is held.
    pub fn is_suspended(&self) -> (b: bool)
        ensures
            b == (self@ > 0),
    {
        self.depth > 0
    }
}

impl ShortcutHandlerGuard {
    /// Suspend shortcut event handling until the returned guard is released; guards nest.
    pub fn suspend(suspension: &mut ShortcutSuspension) -> (g: Self)
        ensures
            final(suspension)@ == deeper(old(suspension)@),
    {
        suspension.depth = suspension.depth.wrapping_add(1);
        ShortcutHandlerGuard { private: () }
    }

    /// Release the guard: one level of suspension ends.
    pub fn release(self, suspension: &mut ShortcutSuspension)
        requires
            old(suspension)@ > 0,
        ensures
            final(suspension)@ == old(suspension)@ - 1,
    {
        suspension.depth = suspension.depth - 1;
    }
}


/// Depth after `n` more guards.
pub open spec fn deeper_by(depth: u64, n: nat) -> u64
    decreases n,
{
    if n == 0 {
        depth
    } else {
        deeper(deeper_by(depth, (n - 1) as nat))
    }
}

/// Suspension guards nest: while any of `n` guards taken on top of `depth` is held, handling
/// stays suspended, and releasing all of them restores `depth` exactly.
pub proof fn law_suspension_guards_nest(depth: u64, n: nat)
    requires
        depth + n <= u64::MAX,
    ensures
        deeper_by(depth, n) == depth + n,
        n > 0 ==> deeper_by(depth, n) > 0,
    decreases n,
{
    if n > 0 {
        law_suspension_guards_nest(depth, (n - 1) as nat);
    }
}

/// Once a shortcut string is recorded under its identifier, it counts as registered.
pub proof fn law_registered_after_register(m: Map<u32, Seq<char>>, shortcut: Seq<char>)
    requires
        registry_well_formed(m),
        shortcut_of(shortcut) is Ok,
    ensures
        ({
            let p = shortcut_of(shortcut)->Ok_0;
            let m2 = m.insert(hotkey_id(p.0, p.1), shortcut);
            registry_well_formed(m2) && registered_in(m2, shortcut)
        }),
{
    let p = shortcut_of(shortcut)->Ok_0;
    let id = hotkey_id(p.0, p.1);
    let m2 = m.insert(id, shortcut);
    assert(m2.contains_key(id) && m2[id] == shortcut);
    assert forall|k: u32| m2.contains_key(k) implies parses_with_id(#[trigger] m2[k], k) by {
        if k != id {
            assert(m.contains_key(k));
            assert(parses_with_id(m[k], k));
        }
    }
}

/// Once a registered shortcut is removed under its identifier, its string is no longer
/// registered: a string is only ever stored under its own identifier.
pub proof fn law_unregistered_after_unregister(m: Map<u32, Seq<char>>, shortcut: Seq<char>)
    requires
        registry_well_formed(m),
        registered_in(m, shortcut),
    ensures
        shortcut_of(shortcut) is Ok,
        ({
            let p = shortcut_of(shortcut)->Ok_0;
            let m2 = m.remove(hotkey_id(p.0, p.1));
            registry_well_formed(m2) && !registered_in(m2, shortcut)
        }),
{
    let k0 = choose|k: u32| m.contains_key(k) && m[k] == shortcut;
    assert(parses_with_id(m[k0], k0));
    let p = shortcut_of(shortcut)->Ok_0;
    let m2 = m.remove(hotkey_id(p.0, p.1));
    if registered_in(m2, shortcut) {
        let k = choose|k: u32| m2.contains_key(k) && m2[k] == shortcut;
        assert(m.contains_key(k) && parses_with_id(m[k], k));
    }
    assert forall|k: u32| m2.contains_key(k) implies parses_with_id(#[trigger] m2[k], k) by {
        assert(parses_with_id(m[k], k));
    }
}


/// Whether one of the tokens names the modifier whose flag is `f`.
pub open spec fn names_flag(tokens: Seq<Seq<char>>, f: u32) -> bool {
    exists|i: int| 0 <= i < tokens.len() && #[trigger] modifier_flag(tokens[i]) == Some(f)
}

/// Whether every token names a modifier.
pub open spec fn all_modifiers(tokens: Seq<Seq<char>>) -> bool {
    forall|i: int| 0 <= i < tokens.len() ==> (#[trigger] modifier_flag(tokens[i])) is Some
}

/// The flags of the named modifiers combined.
pub open spec fn flag_bits(meta: bool, control: bool, alt: bool, shift: bool) -> u32 {
    (if meta { MOD_META } else { 0u32 }) | (if control { MOD_CONTROL } else { 0u32 }) | (if alt {
        MOD_ALT
    } else {
        0u32
    }) | (if shift { MOD_SHIFT } else { 0u32 })
}

/// The combined flags of the modifiers that the tokens name, however often and in whatever
/// order or case they are named.
pub open spec fn flags_named(tokens: Seq<Seq<char>>) -> u32 {
    flag_bits(
        names_flag(tokens, MOD_META),
        names_flag(tokens, MOD_CONTROL),
        names_flag(tokens, MOD_ALT),
        names_flag(tokens, MOD_SHIFT),
    )
}

proof fn lemma_flag_bits_add(meta: bool, control: bool, alt: bool, shift: bool)
    ensures
        flag_bits(meta, control, alt, shift) | MOD_META == flag_bits(true, control, alt, shift),
        flag_bits(meta, control, alt, shift) | MOD_CONTROL == flag_bits(meta, true, alt, shift),
        flag_bits(meta, control, alt, shift) | MOD_ALT == flag_bits(meta, control, true, shift),
        flag_bits(meta, control, alt, shift) | MOD_SHIFT == flag_bits(meta, control, alt, true),
        flag_bits(false, false, false, false) == 0,
{
    assert(flag_bits(meta, control, alt, shift) | MOD_META == flag_bits(true, control, alt, shift))
        by (bit_vector);
    assert(flag_bits(meta, control, alt, shift) | MOD_CONTROL == flag_bits(meta, true, alt, shift))
        by (bit_vector);
    assert(flag_bits(meta, control, alt, shift) | MOD_ALT == flag_bits(meta, control, true, shift))
        by (bit_vector);
    assert(flag_bits(meta, control, alt, shift) | MOD_SHIFT == flag_bits(meta, control, alt, true))
        by (bit_vector);
    assert(flag_bits(false, false, false, false) == 0) by (bit_vector);
}

/// Tokens that all name modifiers combine to the flags of the modifiers named.
proof fn lemma_modifier_flags_named(tokens: Seq<Seq<char>>)
    requires
        all_modifiers(tokens),
    ensures
        modifier_flags(tokens) == Ok::<u32, int>(flags_named(tokens)),
    decreases tokens.len(),
{
    let n = tokens.len();
    if n == 0 {
        lemma_flag_bits_add(false, false, false, false);
    } else {
        let init = tokens.drop_last();
        assert(all_modifiers(init)) by {
            assert forall|i: int| 0 <= i < init.len() implies (#[trigger] modifier_flag(
                init[i],
            )) is Some by {
                assert(init[i] == tokens[i]);
            }
        }
        lemma_modifier_flags_named(init);
        let last = tokens.last();
        assert(modifier_flag(tokens[n - 1]) is Some);
        let f = modifier_flag(last)->Some_0;
        assert forall|g: u32| names_flag(tokens, g) == (names_flag(init, g) || f == g) by {
            if names_flag(tokens, g) {
                let i = choose|i: int| 0 <= i < n && #[trigger] modifier_flag(tokens[i]) == Some(g);
                if i < n - 1 {
                    assert(init[i] == tokens[i]);
                }
            }
            if names_flag(init, g) {
                let i = choose|i: int| 0 <= i < init.len() && #[trigger] modifier_flag(init[i]) == Some(g);
                assert(init[i] == tokens[i]);
                assert(modifier_flag(tokens[i]) == Some(g));
            }
            if f == g {
                assert(modifier_flag(tokens[n - 1]) == Some(g));
            }
        }
        lemma_flag_bits_add(
            names_flag(init, MOD_META),
            names_flag(init, MOD_CONTROL),
            names_flag(init, MOD_ALT),
            names_flag(init, MOD_SHIFT),
        );
    }
}

/// A shortcut whose leading tokens all name modifiers parses to the flags of the modifiers
/// named and the number of its last token, or is refused for that last token.
pub proof fn law_shortcut_of_named_modifiers(s: Seq<char>)
    requires
        all_modifiers(split_by(s, '+').drop_last()),
    ensures
        ({
            let tokens = split_by(s, '+');
            shortcut_of(s) == match code_number(tokens.last()) {
                Some(n) => Ok((flags_named(tokens.drop_last()), n)),
                None => Err(ShortcutParseErrorSpec::UnsupportedKeyCode(tokens.last())),
            }
        }),
{
    lemma_modifier_flags_named(split_by(s, '+').drop_last());
}

/// The order, repetition and letter case of the modifiers do not matter: two shortcuts that
/// name the same modifiers and end in the same key parse alike.
pub proof fn law_shortcut_ignores_modifier_order(s1: Seq<char>, s2: Seq<char>)
    requires
        all_modifiers(split_by(s1, '+').drop_last()),
        all_modifiers(split_by(s2, '+').drop_last()),
        split_by(s1, '+').last() == split_by(s2, '+').last(),
        forall|f: u32|
            names_flag(split_by(s1, '+').drop_last(), f) == names_flag(
                split_by(s2, '+').drop_last(),
                f,
            ),
    ensures
        shortcut_of(s1) == shortcut_of(s2),
{
    law_shortcut_of_named_modifiers(s1);
    law_shortcut_of_named_modifiers(s2);
    let m1 = split_by(s1, '+').drop_last();
    let m2 = split_by(s2, '+').drop_last();
    assert(names_flag(m1, MOD_META) == names_flag(m2, MOD_META));
    assert(names_flag(m1, MOD_CONTROL) == names_flag(m2, MOD_CONTROL));
    assert(names_flag(m1, MOD_ALT) == names_flag(m2, MOD_ALT));
    assert(names_flag(m1, MOD_SHIFT) == names_flag(m2, MOD_SHIFT));
}

/// Pausing and then resuming shortcut handling leaves the registry as it was.
pub proof fn law_pause_then_resume_restores(s: RegistryState)
    requires
        !s.paused,
    ensures
        (RegistryState { paused: false, ..(RegistryState { paused: true, ..s }) }) == s,
{
}

} // verus!
