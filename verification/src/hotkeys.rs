//! Chords and what they are bound to.
//!
//! A chord is a key pressed together with a set of modifier keys. In a
//! configuration it is written as the names of its modifiers and then the
//! name of its key, joined by `+`, as in `Ctrl+Shift+S`.

use std::collections::HashMap;
use vstd::prelude::*;
use crate::actions::{acted, action_named, unknown_action, Action};
use crate::error::{MdError, MdErrorView, MdResult};
use crate::session::{Effect, EffectView, MdEdit};
use crate::text::{fields, lemma_fields_are_free_of_separators, same_text, split, Separator};
use crate::trusted::{key_from_name, key_named};

verus! {

/// The modifier keys that are held down.
#[derive(Clone, Copy, Debug, PartialEq, Eq, Hash, Structural)]
pub struct Modifiers {
    pub alt: bool,
    pub ctrl: bool,
    pub shift: bool,
    /// The command key of a Mac keyboard.
    pub mac_cmd: bool,
    /// The key that commands are given with on the platform at hand.
    pub command: bool,
}

/// A key together with the modifiers held down with it. The key is the
/// number under which the windowing library knows it.
#[derive(Clone, Copy, Debug, PartialEq, Eq, Hash, Structural)]
pub struct HotKey {
    pub key: u8,
    pub modifiers: Modifiers,
}

impl Modifiers {
    /// No modifier at all.
    pub open spec fn none() -> Modifiers {
        Modifiers { alt: false, ctrl: false, shift: false, mac_cmd: false, command: false }
    }

    /// The modifiers of `self` together with those of `other`.
    pub open spec fn with(self, other: Modifiers) -> Modifiers {
        Modifiers {
            alt: self.alt || other.alt,
            ctrl: self.ctrl || other.ctrl,
            shift: self.shift || other.shift,
            mac_cmd: self.mac_cmd || other.mac_cmd,
            command: self.command || other.command,
        }
    }

    /// The modifiers as a number below 32, one bit for each.
    pub open spec fn bits(self) -> int {
        (if self.alt {
            1int
        } else {
            0int
        }) + (if self.ctrl {
            2int
        } else {
            0int
        }) + (if self.shift {
            4int
        } else {
            0int
        }) + (if self.mac_cmd {
            8int
        } else {
            0int
        }) + (if self.command {
            16int
        } else {
            0int
        })
    }

    /// No modifier at all.
    pub fn empty() -> (m: Modifiers)
        ensures
            m == Modifiers::none(),
    {
        Modifiers { alt: false, ctrl: false, shift: false, mac_cmd: false, command: false }
    }

    /// The modifiers of `self` together with those of `other`.
    pub fn union(self, other: Modifiers) -> (m: Modifiers)
        ensures
            m == self.with(other),
    {
        Modifiers {
            alt: self.alt || other.alt,
            ctrl: self.ctrl || other.ctrl,
            shift: self.shift || other.shift,
            mac_cmd: self.mac_cmd || other.mac_cmd,
            command: self.command || other.command,
        }
    }

    /// The modifier with the given name, alone.
    pub fn from_name(name: &str) -> (m: Option<Modifiers>)
        ensures
            m == modifier_named(name@),
    {
        let none = Modifiers::empty();
        if same_text(name, "Alt") {
            Some(Modifiers { alt: true, ..none })
        } else if same_text(name, "Ctrl") {
            Some(Modifiers { ctrl: true, ..none })
        } else if same_text(name, "Shift") {
            Some(Modifiers { shift: true, ..none })
        } else if same_text(name, "Cmd") {
            Some(Modifiers { mac_cmd: true, ..none })
        } else if same_text(name, "Command") {
            Some(Modifiers { command: true, ..none })
        } else {
            None
        }
    }

    fn as_bits(self) -> (b: u64)
        ensures
            b == self.bits(),
            b < 32,
    {
        let mut b: u64 = 0;
        if self.alt {
            b += 1;
        }
        if self.ctrl {
            b += 2;
        }
        if self.shift {
            b += 4;
        }
        if self.mac_cmd {
            b += 8;
        }
        if self.command {
            b += 16;
        }
        b
    }
}

/// The modifier with the given name, alone: `Alt`, `Ctrl`, `Shift`, `Cmd`
/// for the command key of a Mac, or `Command` for the command key of the
/// platform.
pub open spec fn modifier_named(name: Seq<char>) -> Option<Modifiers> {
    if name == "Alt"@ {
        Some(Modifiers { alt: true, ..Modifiers::none() })
    } else if name == "Ctrl"@ {
        Some(Modifiers { ctrl: true, ..Modifiers::none() })
    } else if name == "Shift"@ {
        Some(Modifiers { shift: true, ..Modifiers::none() })
    } else if name == "Cmd"@ {
        Some(Modifiers { mac_cmd: true, ..Modifiers::none() })
    } else if name == "Command"@ {
        Some(Modifiers { command: true, ..Modifiers::none() })
    } else {
        None
    }
}

/// The modifiers that a sequence of names stands for, or `None` where one
/// of them names no modifier. A name may occur more than once.
pub open spec fn modifiers_named(names: Seq<Seq<char>>) -> Option<Modifiers>
    decreases names.len(),
{
    if names.len() == 0 {
        Some(Modifiers::none())
    } else {
        match (modifiers_named(names.drop_last()), modifier_named(names.last())) {
            (Some(earlier), Some(last)) => Some(earlier.with(last)),
            _ => None,
        }
    }
}

/// The chord that the `parts` of a chord text stand for, where `key` is
/// the key that the last part names: all parts before the last name
/// modifiers. There is no chord without parts, without a key, or with a
/// part that names no modifier.
pub open spec fn chord_from(parts: Seq<Seq<char>>, key: Option<u8>) -> Option<HotKey> {
    if parts.len() == 0 {
        None
    } else {
        match (modifiers_named(parts.drop_last()), key) {
            (Some(modifiers), Some(k)) => Some(HotKey { key: k, modifiers }),
            _ => None,
        }
    }
}

/// The chord that a chord text stands for: its fields between plus
/// signs are the names of modifiers and, last, the name of a key.
pub open spec fn chord_of(chord: Seq<char>) -> Option<HotKey> {
    let parts = fields(chord, Separator::Plus);
    chord_from(parts, key_named(parts.last()))
}

/// The failure that a text gives which stands for no chord: it carries
/// the text.
pub open spec fn invalid_chord(chord: Seq<char>) -> MdErrorView {
    MdErrorView::InvalidHotkey(chord)
}

impl HotKey {
    /// The chord as one number: the key above the five bits of the
    /// modifiers.
    pub open spec fn code(self) -> u64 {
        (self.key * 32 + self.modifiers.bits()) as u64
    }

    /// A chord of the key `key` with `modifiers`.
    pub fn new(key: u8, modifiers: Modifiers) -> (h: HotKey)
        ensures
            h == (HotKey { key, modifiers }),
    {
        HotKey { key, modifiers }
    }

    /// The chord as one number.
    pub fn to_code(&self) -> (c: u64)
        ensures
            c == self.code(),
    {
        let key: u64 = self.key as u64;
        key * 32 + self.modifiers.as_bits()
    }
}

/// Different chords have different numbers.
pub proof fn lemma_code_is_injective(a: HotKey, b: HotKey)
    requires
        a.code() == b.code(),
    ensures
        a == b,
{
    let x = a.modifiers.bits();
    let y = b.modifiers.bits();
    assert(0 <= x < 32 && 0 <= y < 32);
    assert(a.key * 32 + x == b.key * 32 + y);
    assert(a.key == b.key);
    assert(x == y);
}

/// Reads the parts of a chord text, where `key` is what the
/// lookup of the last part as a key name gave.
pub fn hotkey_from_parts(parts: &Vec<String>, key: Option<u8>) -> (h: Option<HotKey>)
    ensures
        h == chord_from(parts.deep_view(), key),
{
    if parts.len() == 0 {
        return None;
    }
    let ghost names = parts.deep_view().drop_last();
    let count = parts.len() - 1;
    let mut modifiers = Modifiers::empty();
    let mut i: usize = 0;
    assert(names.take(0) =~= Seq::<Seq<char>>::empty());
    while i < count
        invariant
            count + 1 == parts.len(),
            names == parts.deep_view().drop_last(),
            i <= count,
            modifiers_named(names.take(i as int)) == Some(modifiers),
        decreases count - i,
    {
        proof {
            let next = names.take(i + 1);
            assert(next.drop_last() =~= names.take(i as int));
            assert(next.last() == parts[i as int]@);
        }
        match Modifiers::from_name(parts[i].as_str()) {
            Some(m) => {
                modifiers = modifiers.union(m);
            },
            None => {
                proof {
                    lemma_unknown_modifier(names, i as int);
                }
                return None;
            },
        }
        i += 1;
    }
    assert(names.take(count as int) =~= names);
    match key {
        Some(k) => Some(HotKey { key: k, modifiers }),
        None => None,
    }
}

/// Names of which one names no modifier stand for no modifiers.
proof fn lemma_unknown_modifier(names: Seq<Seq<char>>, i: int)
    requires
        0 <= i < names.len(),
        modifier_named(names[i]) is None,
    ensures
        modifiers_named(names) is None,
    decreases names.len(),
{
    if i < names.len() - 1 {
        lemma_unknown_modifier(names.drop_last(), i);
    }
}

/// Reads a chord text such as `Ctrl+Shift+S`.
///
/// Fails with `InvalidHotkey`, carrying the text, where a part
/// before the last names no modifier or the last part names no key.
pub fn parse_chord(chord: &str) -> (r: MdResult<HotKey>)
    ensures
        match chord_of(chord@) {
            Some(h) => r == Ok::<HotKey, MdError>(h),
            None => r matches Err(e) && e@ == invalid_chord(chord@),
        },
{
    let parts = split(chord, Separator::Plus);
    proof {
        lemma_fields_are_free_of_separators(chord@, Separator::Plus);
    }
    let last = parts.len() - 1;
    assert(parts.deep_view().last() == parts[last as int]@);
    let key = key_from_name(parts[last].as_str());
    match hotkey_from_parts(&parts, key) {
        Some(h) => Ok(h),
        None => Err(MdError::InvalidHotkey(String::from_str(chord))),
    }
}

/// The bindings that a configuration gives, or the failure of its first
/// entry that cannot be read. Entries are read in order, so that of two
/// entries for one chord the later one stays.
pub open spec fn configured(config: Seq<(Seq<char>, Seq<char>)>) -> Result<
    Map<HotKey, Action>,
    MdErrorView,
>
    decreases config.len(),
{
    if config.len() == 0 {
        Ok(Map::empty())
    } else {
        match configured(config.drop_last()) {
            Err(e) => Err(e),
            Ok(bindings) => match chord_of(config.last().0) {
                None => Err(invalid_chord(config.last().0)),
                Some(hotkey) => match action_named(config.last().1) {
                    None => Err(unknown_action()),
                    Some(action) => Ok(bindings.insert(hotkey, action)),
                },
            },
        }
    }
}

/// The actions that the chords pressed in one frame ask for, in the order
/// of the chords. A chord that is not bound asks for nothing.
pub open spec fn triggered(bindings: Map<HotKey, Action>, pressed: Seq<HotKey>) -> Seq<Action> {
    pressed.filter(|h: HotKey| bindings.contains_key(h)).map_values(|h: HotKey| bindings[h])
}

/// The bindings of chords to actions.
pub struct KeyManager {
    hotkeys: HashMap<u64, Action>,
}

impl View for KeyManager {
    type V = Map<HotKey, Action>;

    closed spec fn view(&self) -> Map<HotKey, Action> {
        Map::new(
            |h: HotKey| self.hotkeys@.contains_key(h.code()),
            |h: HotKey| self.hotkeys@[h.code()],
        )
    }
}

impl Default for KeyManager {
    fn default() -> (m: KeyManager)
        ensures
            m@ == Map::<HotKey, Action>::empty(),
    {
        KeyManager::new()
    }
}

impl KeyManager {
    /// A manager without bindings.
    pub fn new() -> (m: KeyManager)
        ensures
            m@ == Map::<HotKey, Action>::empty(),
    {
        let m = KeyManager { hotkeys: HashMap::new() };
        assert(m@ =~= Map::<HotKey, Action>::empty());
        m
    }

    /// Binds the chord of `key` and `modifiers` to `action`. A binding that
    /// the chord had before is replaced.
    pub fn register_hotkey(&mut self, key: u8, modifiers: Modifiers, action: Action)
        ensures
            final(self)@ == old(self)@.insert(HotKey { key, modifiers }, action),
    {
        let hotkey = HotKey { key, modifiers };
        self.hotkeys.insert(hotkey.to_code(), action);
        proof {
            assert forall|h: HotKey| h.code() == hotkey.code() implies h == hotkey by {
                lemma_code_is_injective(h, hotkey);
            }
            assert(self@ =~= old(self)@.insert(hotkey, action));
        }
    }

    /// The action that `hotkey` is bound to, if any.
    pub fn action_of(&self, hotkey: HotKey) -> (a: Option<Action>)
        ensures
            a == if self@.contains_key(hotkey) {
                Some(self@[hotkey])
            } else {
                None
            },
    {
        match self.hotkeys.get(&hotkey.to_code()) {
            Some(action) => Some(*action),
            None => None,
        }
    }

    /// Dispatches a chord: the action it is bound to runs on the session,
    /// without a path. A chord that is not bound does nothing.
    pub fn handle_hotkey(&self, hotkey: HotKey, md_edit: &mut MdEdit) -> (e: Effect)
        ensures
            self@.contains_key(hotkey) ==> (final(md_edit)@, e@) == acted(
                old(md_edit)@,
                self@[hotkey],
                None,
            ),
            !self@.contains_key(hotkey) ==> final(md_edit)@ == old(md_edit)@ && e@
                == EffectView::Nothing,
    {
        match self.action_of(hotkey) {
            Some(action) => action.run(None, md_edit),
            None => Effect::Nothing,
        }
    }

    /// The actions that the chords pressed in one frame ask for, in the
    /// order of the chords.
    pub fn handle(&self, pressed: &Vec<HotKey>) -> (actions: Vec<Action>)
        ensures
            actions@ == triggered(self@, pressed@),
    {
        let ghost bound = |h: HotKey| self@.contains_key(h);
        let ghost action = |h: HotKey| self@[h];
        let mut actions: Vec<Action> = Vec::new();
        let mut i: usize = 0;
        proof {
            assert(pressed@.take(0).filter(bound) =~= Seq::<HotKey>::empty()) by {
                reveal(Seq::filter);
            }
            assert(actions@ =~= pressed@.take(0).filter(bound).map_values(action));
        }
        while i < pressed.len()
            invariant
                i <= pressed.len(),
                bound == |h: HotKey| self@.contains_key(h),
                action == |h: HotKey| self@[h],
                actions@ == pressed@.take(i as int).filter(bound).map_values(action),
            decreases pressed.len() - i,
        {
            proof {
                let done = pressed@.take(i as int);
                assert(pressed@.take(i + 1) =~= done.push(pressed@[i as int]));
                done.lemma_filter_push(pressed@[i as int], bound);
                if bound(pressed@[i as int]) {
                    assert(done.filter(bound).push(pressed@[i as int]).map_values(action)
                        =~= done.filter(bound).map_values(action).push(self@[pressed@[i as int]]));
                }
            }
            match self.action_of(pressed[i]) {
                Some(a) => {
                    actions.push(a);
                },
                None => {},
            }
            i += 1;
        }
        assert(pressed@.take(pressed.len() as int) =~= pressed@);
        actions
    }

    /// The manager that a configuration describes. Each entry gives the
    /// text of a chord and the name of an action.
    ///
    /// Fails at the first entry that cannot be read: with `InvalidHotkey`
    /// where its chord is malformed, else with `InvalidAction` where its
    /// action is unknown.
    pub fn from_config(config: &Vec<(String, String)>) -> (r: MdResult<KeyManager>)
        ensures
            match configured(config.deep_view()) {
                Ok(bindings) => r matches Ok(m) && m@ == bindings,
                Err(failure) => r matches Err(e) && e@ == failure,
            },
    {
        let ghost all = config.deep_view();
        let mut manager = KeyManager::new();
        let mut i: usize = 0;
        assert(all.take(0) =~= Seq::<(Seq<char>, Seq<char>)>::empty());
        while i < config.len()
            invariant
                i <= config.len(),
                all == config.deep_view(),
                configured(all.take(i as int)) == Ok::<Map<HotKey, Action>, MdErrorView>(manager@),
            decreases config.len() - i,
        {
            proof {
                let next = all.take(i + 1);
                assert(next.drop_last() =~= all.take(i as int));
                assert(next.last() == all[i as int]);
                assert(all[i as int] == (config[i as int].0@, config[i as int].1@));
            }
            let hotkey = match parse_chord(config[i].0.as_str()) {
                Ok(h) => h,
                Err(e) => {
                    proof {
                        lemma_configured_fails(all, i + 1);
                    }
                    return Err(e);
                },
            };
            let action = match Action::from_name(config[i].1.as_str()) {
                Ok(a) => a,
                Err(e) => {
                    proof {
                        lemma_configured_fails(all, i + 1);
                    }
                    return Err(e);
                },
            };
            manager.register_hotkey(hotkey.key, hotkey.modifiers, action);
            i += 1;
        }
        assert(all.take(config.len() as int) =~= all);
        Ok(manager)
    }
}

/// A configuration fails as its first part that fails.
proof fn lemma_configured_fails(config: Seq<(Seq<char>, Seq<char>)>, n: int)
    requires
        0 <= n <= config.len(),
        configured(config.take(n)) is Err,
    ensures
        configured(config) == configured(config.take(n)),
    decreases config.len(),
{
    if n < config.len() {
        assert(config.drop_last().take(n) =~= config.take(n));
        lemma_configured_fails(config.drop_last(), n);
    } else {
        assert(config.take(n) =~= config);
    }
}

} // verus!
