//! Keyboard state: which modifiers are held, how raw key events change it,
//! which raw events are key presses worth reporting, and which devices are
//! keyboards.
use vstd::prelude::*;
use crate::types::{Key, Modifier};

verus! {

/// Input event codes of the keys that this module looks at, as the Linux
/// input subsystem numbers them (`linux/input-event-codes.h`).
pub const KEY_ESC: u16 = 1;
pub const KEY_ENTER: u16 = 28;
pub const KEY_LEFTCTRL: u16 = 29;
pub const KEY_LEFTSHIFT: u16 = 42;
pub const KEY_C: u16 = 46;
pub const KEY_RIGHTSHIFT: u16 = 54;
pub const KEY_LEFTALT: u16 = 56;
pub const KEY_RIGHTCTRL: u16 = 97;
pub const KEY_RIGHTALT: u16 = 100;
pub const KEY_LEFTMETA: u16 = 125;
pub const KEY_RIGHTMETA: u16 = 126;

/// The modifiers currently held down.
#[derive(Debug, Clone, Copy, PartialEq, Eq, Structural)]
pub struct Modifiers {
    pub ctrl: bool,
    pub alt: bool,
    pub shift: bool,
    pub super_key: bool,
}

/// A key press together with the modifiers held when it happened.
#[derive(Debug, Clone, Copy, PartialEq, Eq, Structural)]
pub struct KeyEvent {
    pub key: Key,
    pub modifiers: Modifiers,
}

/// Whether `m` appears in `required`.
pub open spec fn requires_modifier(required: Seq<Modifier>, m: Modifier) -> bool {
    required.contains(m)
}

/// Whether the held modifiers are exactly those that `required` names.
pub open spec fn modifiers_match(held: Modifiers, required: Seq<Modifier>) -> bool {
    &&& held.ctrl == requires_modifier(required, Modifier::Ctrl)
    &&& held.alt == requires_modifier(required, Modifier::Alt)
    &&& held.shift == requires_modifier(required, Modifier::Shift)
    &&& held.super_key == requires_modifier(required, Modifier::Super)
}

/// The modifier that a key code belongs to, if any: either Ctrl, either Alt,
/// either Shift, either Meta (the Super key).
pub open spec fn modifier_of_code(code: u16) -> Option<Modifier> {
    if code == KEY_LEFTCTRL || code == KEY_RIGHTCTRL {
        Some(Modifier::Ctrl)
    } else if code == KEY_LEFTALT || code == KEY_RIGHTALT {
        Some(Modifier::Alt)
    } else if code == KEY_LEFTSHIFT || code == KEY_RIGHTSHIFT {
        Some(Modifier::Shift)
    } else if code == KEY_LEFTMETA || code == KEY_RIGHTMETA {
        Some(Modifier::Super)
    } else {
        None
    }
}

/// The held modifiers after a key event with `code` and `value` (0 for a
/// release, 1 for a press, 2 for auto-repeat): a modifier key's flag becomes
/// whether the value is non-zero; other keys change nothing.
pub open spec fn modifiers_after(held: Modifiers, code: u16, value: i32) -> Modifiers {
    let pressed = value != 0;
    match modifier_of_code(code) {
        Some(Modifier::Ctrl) => Modifiers { ctrl: pressed, ..held },
        Some(Modifier::Alt) => Modifiers { alt: pressed, ..held },
        Some(Modifier::Shift) => Modifiers { shift: pressed, ..held },
        Some(Modifier::Super) => Modifiers { super_key: pressed, ..held },
        None => held,
    }
}

/// Whether a device whose supported keys are `keys` (if it reports any) is
/// a keyboard: it has Escape, C and Enter.
pub open spec fn keyboard_keys(keys: Option<Seq<u16>>) -> bool {
    match keys {
        Some(k) => k.contains(KEY_ESC) && k.contains(KEY_C) && k.contains(KEY_ENTER),
        None => false,
    }
}

fn contains_modifier(required: &[Modifier], m: Modifier) -> (r: bool)
    ensures
        r == requires_modifier(required@, m),
{
    let n = required.len();
    let mut i: usize = 0;
    while i < n
        invariant
            n == required@.len(),
            i <= n,
            forall|k: int| 0 <= k < i ==> required@[k] != m,
        decreases n - i,
    {
        if required[i] == m {
            assert(required@[i as int] == m);
            return true;
        }
        i = i + 1;
    }
    false
}

fn contains_code(keys: &Vec<u16>, code: u16) -> (r: bool)
    ensures
        r == keys@.contains(code),
{
    let n = keys.len();
    let mut i: usize = 0;
    while i < n
        invariant
            n == keys@.len(),
            i <= n,
            forall|k: int| 0 <= k < i ==> keys@[k] != code,
        decreases n - i,
    {
        if keys[i] == code {
            assert(keys@[i as int] == code);
            return true;
        }
        i = i + 1;
    }
    false
}

impl Modifiers {
    /// No modifier held.
    pub fn none() -> (r: Modifiers)
        ensures
            r == (Modifiers { ctrl: false, alt: false, shift: false, super_key: false }),
    {
        Modifiers { ctrl: false, alt: false, shift: false, super_key: false }
    }

    /// Whether exactly the `required` modifiers are held: every one that is
    /// named and no other.
    pub fn matches(self, required: &[Modifier]) -> (r: bool)
        ensures
            r == modifiers_match(self, required@),
    {
        let wants_ctrl = contains_modifier(required, Modifier::Ctrl);
        let wants_alt = contains_modifier(required, Modifier::Alt);
        let wants_shift = contains_modifier(required, Modifier::Shift);
        let wants_super = contains_modifier(required, Modifier::Super);
        self.ctrl == wants_ctrl && self.alt == wants_alt && self.shift == wants_shift
            && self.super_key == wants_super
    }

    /// Records a raw key event with `code` and `value` in the held modifiers.
    pub fn update_modifiers(&mut self, code: u16, value: i32)
        ensures
            *final(self) == modifiers_after(*old(self), code, value),
            !(code == 29 || code == 97 || code == 56 || code == 100 || code == 42 || code == 54
                || code == 125 || code == 126) ==> *final(self) == *old(self),
    {
        proof {
            lemma_modifier_codes(code);
        }
        let pressed = value != 0;
        if code == KEY_LEFTCTRL || code == KEY_RIGHTCTRL {
            self.ctrl = pressed;
        } else if code == KEY_LEFTALT || code == KEY_RIGHTALT {
            self.alt = pressed;
        } else if code == KEY_LEFTSHIFT || code == KEY_RIGHTSHIFT {
            self.shift = pressed;
        } else if code == KEY_LEFTMETA || code == KEY_RIGHTMETA {
            self.super_key = pressed;
        }
    }
}

/// Handles one raw key event: updates the held modifiers, and reports the
/// event when it is a press (value 1), with the modifiers as now held.
/// Releases and auto-repeats are not reported.
pub fn next_key_event(modifiers: &mut Modifiers, code: u16, value: i32) -> (r: Option<KeyEvent>)
    ensures
        *final(modifiers) == modifiers_after(*old(modifiers), code, value),
        !(code == 29 || code == 97 || code == 56 || code == 100 || code == 42 || code == 54 || code
            == 125 || code == 126) ==> *final(modifiers) == *old(modifiers),
        r == (if value == 1 {
            Some(KeyEvent { key: Key(code), modifiers: *final(modifiers) })
        } else {
            None
        }),
{
    modifiers.update_modifiers(code, value);
    if value != 1 {
        return None;
    }
    Some(KeyEvent { key: Key::from_keycode(code), modifiers: *modifiers })
}

/// Whether a device that reports `supported_keys` (`None` when it reports no
/// key capabilities) is a keyboard: it has Escape, C and Enter.
pub fn is_keyboard_device(supported_keys: &Option<Vec<u16>>) -> (r: bool)
    ensures
        r == keyboard_keys(
            match supported_keys {
                Some(k) => Some(k@),
                None => None,
            },
        ),
{
    match supported_keys {
        Some(keys) => contains_code(keys, KEY_ESC) && contains_code(keys, KEY_C) && contains_code(
            keys,
            KEY_ENTER,
        ),
        None => false,
    }
}

/// The set of modifiers that `held` records as held.
pub open spec fn held_set(held: Modifiers) -> Set<Modifier> {
    Set::new(
        |m: Modifier|
            match m {
                Modifier::Ctrl => held.ctrl,
                Modifier::Alt => held.alt,
                Modifier::Shift => held.shift,
                Modifier::Super => held.super_key,
            },
    )
}

/// A chord matches exactly when the held modifiers form the set of the
/// required ones; so the order of the required modifiers, and repeating
/// one, make no difference.
pub proof fn lemma_match_is_set_equality(held: Modifiers, required: Seq<Modifier>)
    ensures
        modifiers_match(held, required) <==> held_set(held) == required.to_set(),
{
    if modifiers_match(held, required) {
        assert(held_set(held) =~= required.to_set());
    }
    if held_set(held) == required.to_set() {
        assert(held_set(held).contains(Modifier::Ctrl) == required.to_set().contains(Modifier::Ctrl));
        assert(held_set(held).contains(Modifier::Alt) == required.to_set().contains(Modifier::Alt));
        assert(held_set(held).contains(Modifier::Shift) == required.to_set().contains(
            Modifier::Shift,
        ));
        assert(held_set(held).contains(Modifier::Super) == required.to_set().contains(
            Modifier::Super,
        ));
    }
}

/// Pressing (or auto-repeating) a modifier key adds its modifier to the held
/// set, releasing it removes it, and no other key changes the set.
pub proof fn lemma_modifier_key_events(held: Modifiers, code: u16, value: i32)
    ensures
        modifier_of_code(code) is None ==> modifiers_after(held, code, value) == held,
        modifier_of_code(code) matches Some(m) ==> held_set(modifiers_after(held, code, value))
            == (if value != 0 {
            held_set(held).insert(m)
        } else {
            held_set(held).remove(m)
        }),
{
    if let Some(m) = modifier_of_code(code) {
        let after = modifiers_after(held, code, value);
        if value != 0 {
            assert(held_set(after) =~= held_set(held).insert(m));
        } else {
            assert(held_set(after) =~= held_set(held).remove(m));
        }
    }
}

/// The modifier keys are exactly the eight codes 29 and 97 (Ctrl), 56 and
/// 100 (Alt), 42 and 54 (Shift), 125 and 126 (Super); an event of any other
/// key leaves the held modifiers as they were, whatever its value.
pub proof fn lemma_modifier_codes(code: u16)
    ensures
        (modifier_of_code(code) == Some(Modifier::Ctrl)) == (code == 29 || code == 97),
        (modifier_of_code(code) == Some(Modifier::Alt)) == (code == 56 || code == 100),
        (modifier_of_code(code) == Some(Modifier::Shift)) == (code == 42 || code == 54),
        (modifier_of_code(code) == Some(Modifier::Super)) == (code == 125 || code == 126),
        (modifier_of_code(code) is None) == !(code == 29 || code == 97 || code == 56 || code == 100
            || code == 42 || code == 54 || code == 125 || code == 126),
        forall|held: Modifiers, value: i32|
            !(code == 29 || code == 97 || code == 56 || code == 100 || code == 42 || code == 54
                || code == 125 || code == 126) ==> #[trigger] modifiers_after(held, code, value)
                == held,
{
}

} // verus!
