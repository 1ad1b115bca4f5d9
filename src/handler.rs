use vstd::prelude::*;

use std::collections::{HashMap, HashSet};

use crate::keyboard::{KeyboardAction, Pid, VirtualKeyboard};
use crate::keycode::{keycode_from_str, keycode_of_name, Keycode};
use crate::modifier::{modifier_from_str, modifier_of_name, Modifier};
use crate::text::lower_of;

verus! {

/// One permitted key of a configuration: its name and the names of the
/// modifiers permitted with it.
pub struct KeyEntry {
    pub key: String,
    pub allowed_modifiers: Vec<String>,
}

/// A parsed configuration: the target process, the pause before each event
/// post in milliseconds, and the permitted keys in order.
pub struct Config {
    pub pid: Pid,
    pub keypress_delay: u64,
    pub keys: Vec<KeyEntry>,
}

/// Why a configuration was refused.
#[derive(Debug, PartialEq, Eq)]
pub enum ConfigError {
    /// A key name that has no key code.
    UnsupportedKey(String),
    /// A modifier name that stands for no modifier.
    UnsupportedModifier(String),
}

/// The permitted keys and, per key, the permitted modifiers.
pub struct AllowList {
    pub keys: Set<Keycode>,
    pub modifiers: Map<Keycode, Seq<Modifier>>,
}

/// Why the allow-list refused a key press.
#[derive(Clone, Copy, Debug, PartialEq, Eq, Structural)]
pub enum PolicyError {
    KeyNotAllowed,
    ModifierNotAllowed,
}

/// The modifiers that `names` stand for, ignoring case, or the first name
/// that stands for none.
pub open spec fn modifier_list(names: Seq<String>) -> Result<Seq<Modifier>, String>
    decreases names.len(),
{
    if names.len() == 0 {
        Ok(Seq::empty())
    } else {
        match modifier_list(names.drop_last()) {
            Err(bad) => Err(bad),
            Ok(mods) => match modifier_of_name(lower_of(names.last()@)) {
                Some(m) => Ok(mods.push(m)),
                None => Err(names.last()),
            },
        }
    }
}

/// The allow-list that the key entries describe, taken in order (a later
/// entry for the same key replaces the modifiers of an earlier one), or the
/// error of the first entry whose key, or one of whose modifiers, is unknown.
pub open spec fn allow_list_of(entries: Seq<KeyEntry>) -> Result<AllowList, ConfigError>
    decreases entries.len(),
{
    if entries.len() == 0 {
        Ok(AllowList { keys: Set::empty(), modifiers: Map::empty() })
    } else {
        match allow_list_of(entries.drop_last()) {
            Err(e) => Err(e),
            Ok(list) => {
                let entry = entries.last();
                match keycode_of_name(lower_of(entry.key@)) {
                    None => Err(ConfigError::UnsupportedKey(entry.key)),
                    Some(k) => match modifier_list(entry.allowed_modifiers@) {
                        Err(bad) => Err(ConfigError::UnsupportedModifier(bad)),
                        Ok(mods) => Ok(
                            AllowList {
                                keys: list.keys.insert(k),
                                modifiers: list.modifiers.insert(k, mods),
                            },
                        ),
                    },
                }
            },
        }
    }
}

/// Whether the allow-list permits `key` with `modifier`. A key outside the
/// list is refused. A modifier is refused when the key has a recorded list of
/// modifiers that lacks it; a key without a recorded list takes any modifier.
pub open spec fn authorization(list: AllowList, key: Keycode, modifier: Option<Modifier>) -> Result<
    (),
    PolicyError,
> {
    if !list.keys.contains(key) {
        Err(PolicyError::KeyNotAllowed)
    } else {
        match modifier {
            Some(m) => {
                if list.modifiers.contains_key(key) && !list.modifiers[key].contains(m) {
                    Err(PolicyError::ModifierNotAllowed)
                } else {
                    Ok(())
                }
            },
            None => Ok(()),
        }
    }
}

/// Once a prefix of the modifier names fails, the whole list fails the same way.
proof fn lemma_modifier_error_persists(names: Seq<String>, n: int)
    requires
        0 <= n <= names.len(),
        modifier_list(names.take(n)) is Err,
    ensures
        modifier_list(names) == modifier_list(names.take(n)),
    decreases names.len() - n,
{
    if n < names.len() {
        assert(names.take(n + 1).drop_last() =~= names.take(n));
        lemma_modifier_error_persists(names, n + 1);
    } else {
        assert(names.take(n) =~= names);
    }
}

/// Once a prefix of the key entries fails, the whole configuration fails the
/// same way.
proof fn lemma_entry_error_persists(entries: Seq<KeyEntry>, n: int)
    requires
        0 <= n <= entries.len(),
        allow_list_of(entries.take(n)) is Err,
    ensures
        allow_list_of(entries) == allow_list_of(entries.take(n)),
    decreases entries.len() - n,
{
    if n < entries.len() {
        assert(entries.take(n + 1).drop_last() =~= entries.take(n));
        lemma_entry_error_persists(entries, n + 1);
    } else {
        assert(entries.take(n) =~= entries);
    }
}

/// Whether `m` is among `mods`.
fn contains_modifier(mods: &Vec<Modifier>, m: Modifier) -> (r: bool)
    ensures
        r == mods@.contains(m),
{
    let mut i: usize = 0;
    while i < mods.len()
        invariant
            i <= mods@.len(),
            forall|j: int| 0 <= j < i ==> mods@[j] != m,
        decreases mods@.len() - i,
    {
        if mods[i] == m {
            return true;
        }
        i = i + 1;
    }
    false
}

/// Resolves every modifier name, in order; fails on the first unknown one.
fn resolve_modifiers(names: &Vec<String>) -> (r: Result<Vec<Modifier>, String>)
    ensures
        match r {
            Ok(mods) => modifier_list(names@) == Ok::<Seq<Modifier>, String>(mods@),
            Err(bad) => modifier_list(names@) == Err::<Seq<Modifier>, String>(bad),
        },
{
    let mut mods: Vec<Modifier> = Vec::with_capacity(names.len());
    let mut i: usize = 0;
    assert(names@.take(0) =~= Seq::<String>::empty());
    while i < names.len()
        invariant
            i <= names@.len(),
            modifier_list(names@.take(i as int)) == Ok::<Seq<Modifier>, String>(mods@),
        decreases names@.len() - i,
    {
        assert(names@.take(i as int + 1).drop_last() =~= names@.take(i as int));
        match modifier_from_str(names[i].as_str()) {
            Some(m) => mods.push(m),
            None => {
                proof {
                    lemma_modifier_error_persists(names@, i as int + 1);
                }
                return Err(names[i].clone());
            },
        }
        i = i + 1;
    }
    assert(names@.take(i as int) =~= names@);
    Ok(mods)
}

/// One field of a key request, as the transport found it.
#[derive(Debug)]
pub enum RequestField {
    /// The request does not have the field.
    Absent,
    /// The field holds something other than a string.
    NotText,
    /// The field holds this string.
    Text(String),
}

/// A key request: the key (required), a modifier (optional) and an action
/// (optional; a full press cycle when absent).
pub struct KeyRequest {
    pub key: RequestField,
    pub modifier: RequestField,
    pub action: RequestField,
}

/// A request field that the handler reads.
#[derive(Clone, Copy, Debug, PartialEq, Eq, Structural)]
pub enum Field {
    Key,
    Action,
}

/// Why a key request was refused.
#[derive(Clone, Copy, Debug, PartialEq, Eq, Structural)]
pub enum RequestError {
    /// A required field is absent.
    MissingField(Field),
    /// A field holds something other than a string.
    NotText(Field),
    /// The key name has no key code.
    InvalidKey,
    /// The action name is not up, down or cycle.
    InvalidAction,
    /// The key is not on the allow-list.
    KeyNotAllowed,
    /// The modifier is not permitted with the key.
    ModifierNotAllowed,
    /// The platform could not create the key events.
    InjectionFailed,
}

impl RequestError {
    /// The HTTP status that reports the error: the platform's failure is the
    /// server's fault, every other error the request's.
    pub fn status_code(&self) -> (r: u16)
        ensures
            r == (if *self == RequestError::InjectionFailed { 500u16 } else { 400u16 }),
    {
        match self {
            RequestError::InjectionFailed => 500,
            _ => 400,
        }
    }
}

/// A key press that a request asks for and the allow-list permits.
#[derive(Clone, Copy, Debug, PartialEq, Eq, Structural)]
pub struct KeyPress {
    pub keycode: Keycode,
    pub modifier: Option<Modifier>,
    pub action: KeyboardAction,
}

/// The action that a request's action field asks for: a full cycle when the
/// field is absent.
pub open spec fn requested_action(field: RequestField) -> Result<KeyboardAction, RequestError> {
    match field {
        RequestField::Absent => Ok(KeyboardAction::Cycle),
        RequestField::NotText => Err(RequestError::NotText(Field::Action)),
        RequestField::Text(name) => match KeyboardAction::of_name(lower_of(name@)) {
            Some(a) => Ok(a),
            None => Err(RequestError::InvalidAction),
        },
    }
}

/// The modifier that a request's modifier field asks for. A field that is
/// absent, not a string, or names no modifier asks for none.
pub open spec fn requested_modifier(field: RequestField) -> Option<Modifier> {
    match field {
        RequestField::Text(name) => modifier_of_name(lower_of(name@)),
        _ => None,
    }
}

/// What the handler makes of a request under an allow-list: the press to
/// make, or the first check that fails, in this order: the key is present and
/// a string, it names a key, the action is valid, and the allow-list permits
/// the key with the requested modifier.
pub open spec fn request_outcome(list: AllowList, request: KeyRequest) -> Result<KeyPress, RequestError> {
    match request.key {
        RequestField::Absent => Err(RequestError::MissingField(Field::Key)),
        RequestField::NotText => Err(RequestError::NotText(Field::Key)),
        RequestField::Text(name) => match keycode_of_name(lower_of(name@)) {
            None => Err(RequestError::InvalidKey),
            Some(keycode) => match requested_action(request.action) {
                Err(e) => Err(e),
                Ok(action) => {
                    let modifier = requested_modifier(request.modifier);
                    match authorization(list, keycode, modifier) {
                        Err(PolicyError::KeyNotAllowed) => Err(RequestError::KeyNotAllowed),
                        Err(PolicyError::ModifierNotAllowed) => Err(
                            RequestError::ModifierNotAllowed,
                        ),
                        Ok(()) => Ok(KeyPress { keycode, modifier, action }),
                    }
                },
            },
        },
    }
}

/// Serves key presses for one process, within a configured allow-list.
pub struct KeyboardHandler {
    allowed_keys: HashSet<Keycode>,
    allowed_modifiers: HashMap<Keycode, Vec<Modifier>>,
    keyboard: VirtualKeyboard,
}

/// The allow-list that a set of keys and a map of modifier lists hold.
spec fn allow_list_view(keys: HashSet<Keycode>, mods: HashMap<Keycode, Vec<Modifier>>) -> AllowList {
    AllowList {
        keys: keys@,
        modifiers: Map::new(|k: Keycode| mods@.contains_key(k), |k: Keycode| mods@[k]@),
    }
}

impl View for KeyboardHandler {
    type V = AllowList;

    closed spec fn view(&self) -> AllowList {
        allow_list_view(self.allowed_keys, self.allowed_modifiers)
    }
}

impl KeyboardHandler {
    /// The keyboard that performs the permitted presses.
    pub closed spec fn spec_keyboard(&self) -> VirtualKeyboard {
        self.keyboard
    }

    fn new(
        allowed_keys: HashSet<Keycode>,
        allowed_modifiers: HashMap<Keycode, Vec<Modifier>>,
        keyboard: VirtualKeyboard,
    ) -> (r: KeyboardHandler)
        ensures
            r@ == allow_list_view(allowed_keys, allowed_modifiers),
            r.spec_keyboard() == keyboard,
    {
        KeyboardHandler { allowed_keys, allowed_modifiers, keyboard }
    }

    /// The keyboard that performs the permitted presses.
    pub fn keyboard(&self) -> (r: &VirtualKeyboard)
        ensures
            *r == self.spec_keyboard(),
    {
        &self.keyboard
    }

    /// Checks a key and an optional modifier against the allow-list.
    pub fn authorize(&self, key: Keycode, modifier: Option<Modifier>) -> (r: Result<(), PolicyError>)
        ensures
            r == authorization(self@, key, modifier),
    {
        if !self.allowed_keys.contains(&key) {
            return Err(PolicyError::KeyNotAllowed);
        }
        match modifier {
            Some(m) => match self.allowed_modifiers.get(&key) {
                Some(mods) => {
                    if contains_modifier(mods, m) {
                        Ok(())
                    } else {
                        Err(PolicyError::ModifierNotAllowed)
                    }
                },
                None => Ok(()),
            },
            None => Ok(()),
        }
    }

    /// Decides a key request: the press to make, or why the request is
    /// refused. An absent action means a full press cycle; a modifier that
    /// names none is taken as no modifier.
    pub fn handle_request(&self, request: &KeyRequest) -> (r: Result<KeyPress, RequestError>)
        ensures
            r == request_outcome(self@, *request),
    {
        let name = match &request.key {
            RequestField::Absent => return Err(RequestError::MissingField(Field::Key)),
            RequestField::NotText => return Err(RequestError::NotText(Field::Key)),
            RequestField::Text(name) => name,
        };
        let keycode = match keycode_from_str(name.as_str()) {
            Some(k) => k,
            None => return Err(RequestError::InvalidKey),
        };
        let action = match &request.action {
            RequestField::Absent => KeyboardAction::Cycle,
            RequestField::NotText => return Err(RequestError::NotText(Field::Action)),
            RequestField::Text(a) => match KeyboardAction::from_str(a.as_str()) {
                Ok(a) => a,
                Err(_) => return Err(RequestError::InvalidAction),
            },
        };
        let modifier = match &request.modifier {
            RequestField::Text(m) => modifier_from_str(m.as_str()),
            _ => None,
        };
        match self.authorize(keycode, modifier) {
            Err(PolicyError::KeyNotAllowed) => Err(RequestError::KeyNotAllowed),
            Err(PolicyError::ModifierNotAllowed) => Err(RequestError::ModifierNotAllowed),
            Ok(()) => Ok(KeyPress { keycode, modifier, action }),
        }
    }

    /// Builds the handler that a configuration describes: its allow-list and
    /// a keyboard for its process and pause. Fails on the first key entry
    /// whose key, or one of whose modifiers, is unknown.
    pub fn keyboard_handler_from_config(config: &Config) -> (r: Result<KeyboardHandler, ConfigError>)
        ensures
            match r {
                Ok(h) => {
                    &&& allow_list_of(config.keys@) == Ok::<AllowList, ConfigError>(h@)
                    &&& h.spec_keyboard().target() == config.pid
                    &&& h.spec_keyboard().delay() == config.keypress_delay
                },
                Err(e) => allow_list_of(config.keys@) == Err::<AllowList, ConfigError>(e),
            },
    {
        let mut allowed_keys: HashSet<Keycode> = HashSet::new();
        let mut allowed_modifiers: HashMap<Keycode, Vec<Modifier>> = HashMap::new();
        let mut i: usize = 0;
        assert(config.keys@.take(0) =~= Seq::<KeyEntry>::empty());
        assert(allow_list_view(allowed_keys, allowed_modifiers).keys =~= Set::empty());
        assert(allow_list_view(allowed_keys, allowed_modifiers).modifiers =~= Map::empty());
        while i < config.keys.len()
            invariant
                i <= config.keys@.len(),
                allow_list_of(config.keys@.take(i as int)) == Ok::<AllowList, ConfigError>(
                    allow_list_view(allowed_keys, allowed_modifiers),
                ),
            decreases config.keys@.len() - i,
        {
            assert(config.keys@.take(i as int + 1).drop_last() =~= config.keys@.take(i as int));
            let entry = &config.keys[i];
            match keycode_from_str(entry.key.as_str()) {
                None => {
                    proof {
                        lemma_entry_error_persists(config.keys@, i as int + 1);
                    }
                    return Err(ConfigError::UnsupportedKey(entry.key.clone()));
                },
                Some(k) => {
                    match resolve_modifiers(&entry.allowed_modifiers) {
                        Err(bad) => {
                            proof {
                                lemma_entry_error_persists(config.keys@, i as int + 1);
                            }
                            return Err(ConfigError::UnsupportedModifier(bad));
                        },
                        Ok(mods) => {
                            let ghost before = allow_list_view(allowed_keys, allowed_modifiers);
                            allowed_keys.insert(k);
                            allowed_modifiers.insert(k, mods);
                            assert(allow_list_view(allowed_keys, allowed_modifiers).modifiers
                                =~= before.modifiers.insert(k, mods@));
                        },
                    }
                },
            }
            i = i + 1;
        }
        assert(config.keys@.take(i as int) =~= config.keys@);
        Ok(
            KeyboardHandler::new(
                allowed_keys,
                allowed_modifiers,
                VirtualKeyboard::new(config.pid, config.keypress_delay),
            ),
        )
    }
}

/// Loading one configuration twice gives two handlers that decide every key
/// and modifier alike, and every request alike.
pub proof fn loading_is_repeatable(config: Config, first: KeyboardHandler, second: KeyboardHandler)
    requires
        allow_list_of(config.keys@) == Ok::<AllowList, ConfigError>(first@),
        allow_list_of(config.keys@) == Ok::<AllowList, ConfigError>(second@),
    ensures
        forall|key: Keycode, modifier: Option<Modifier>|
            authorization(first@, key, modifier) == authorization(second@, key, modifier),
        forall|request: KeyRequest|
            request_outcome(first@, request) == request_outcome(second@, request),
{
}

} // verus!
