use evdev::KeyCode;
use focuskeyd::event::{
    is_keyboard_device, next_key_event, KeyEvent, Modifiers, KEY_C, KEY_ENTER, KEY_ESC,
    KEY_LEFTALT, KEY_LEFTCTRL, KEY_LEFTMETA, KEY_LEFTSHIFT, KEY_RIGHTALT, KEY_RIGHTCTRL,
    KEY_RIGHTMETA, KEY_RIGHTSHIFT,
};
use focuskeyd::types::{Key, Modifier};

fn held(ctrl: bool, alt: bool, shift: bool, super_key: bool) -> Modifiers {
    Modifiers { ctrl, alt, shift, super_key }
}

#[test]
fn key_codes_agree_with_evdev() {
    assert_eq!(KEY_ESC, KeyCode::KEY_ESC.code());
    assert_eq!(KEY_ENTER, KeyCode::KEY_ENTER.code());
    assert_eq!(KEY_C, KeyCode::KEY_C.code());
    assert_eq!(KEY_LEFTCTRL, KeyCode::KEY_LEFTCTRL.code());
    assert_eq!(KEY_RIGHTCTRL, KeyCode::KEY_RIGHTCTRL.code());
    assert_eq!(KEY_LEFTALT, KeyCode::KEY_LEFTALT.code());
    assert_eq!(KEY_RIGHTALT, KeyCode::KEY_RIGHTALT.code());
    assert_eq!(KEY_LEFTSHIFT, KeyCode::KEY_LEFTSHIFT.code());
    assert_eq!(KEY_RIGHTSHIFT, KeyCode::KEY_RIGHTSHIFT.code());
    assert_eq!(KEY_LEFTMETA, KeyCode::KEY_LEFTMETA.code());
    assert_eq!(KEY_RIGHTMETA, KeyCode::KEY_RIGHTMETA.code());
}

#[test]
fn matches_exactly_the_required_modifiers() {
    assert!(Modifiers::none().matches(&[]));
    assert!(!Modifiers::none().matches(&[Modifier::Ctrl]));
    assert!(held(true, false, false, false).matches(&[Modifier::Ctrl]));
    assert!(!held(true, true, false, false).matches(&[Modifier::Ctrl]));
    assert!(held(true, false, true, false).matches(&[Modifier::Shift, Modifier::Ctrl]));
    assert!(held(true, false, true, false).matches(&[Modifier::Ctrl, Modifier::Shift, Modifier::Ctrl]));
    assert!(held(false, false, false, true).matches(&[Modifier::Super]));
    assert!(held(true, true, true, true).matches(&[
        Modifier::Alt,
        Modifier::Super,
        Modifier::Shift,
        Modifier::Ctrl
    ]));
    assert!(!held(false, true, false, false).matches(&[]));
}

#[test]
fn modifier_keys_update_state() {
    let mut m = Modifiers::none();
    m.update_modifiers(KEY_LEFTCTRL, 1);
    assert_eq!(m, held(true, false, false, false));
    m.update_modifiers(KEY_RIGHTALT, 2);
    assert_eq!(m, held(true, true, false, false));
    m.update_modifiers(KEY_RIGHTSHIFT, 1);
    m.update_modifiers(KEY_LEFTMETA, 1);
    assert_eq!(m, held(true, true, true, true));
    m.update_modifiers(KEY_RIGHTCTRL, 0);
    assert_eq!(m, held(false, true, true, true));
    m.update_modifiers(KEY_LEFTALT, 0);
    m.update_modifiers(KEY_LEFTSHIFT, 0);
    m.update_modifiers(KEY_RIGHTMETA, 0);
    assert_eq!(m, Modifiers::none());
    m.update_modifiers(KEY_C, 1);
    assert_eq!(m, Modifiers::none());
    m.update_modifiers(KEY_LEFTCTRL, -1);
    assert_eq!(m, held(true, false, false, false));
}

#[test]
fn reports_presses_with_held_modifiers() {
    let mut m = Modifiers::none();
    assert_eq!(next_key_event(&mut m, KEY_LEFTCTRL, 1), Some(KeyEvent {
        key: Key::from_keycode(KEY_LEFTCTRL),
        modifiers: held(true, false, false, false),
    }));
    assert_eq!(next_key_event(&mut m, KEY_C, 1), Some(KeyEvent {
        key: Key::from_keycode(KEY_C),
        modifiers: held(true, false, false, false),
    }));
    assert_eq!(next_key_event(&mut m, KEY_C, 2), None);
    assert_eq!(next_key_event(&mut m, KEY_C, 0), None);
    assert_eq!(next_key_event(&mut m, KEY_LEFTCTRL, 0), None);
    assert_eq!(m, Modifiers::none());
    assert_eq!(next_key_event(&mut m, KEY_C, 1), Some(KeyEvent {
        key: Key::from_keycode(KEY_C),
        modifiers: Modifiers::none(),
    }));
}

#[test]
fn recognises_keyboards() {
    assert!(!is_keyboard_device(&None));
    assert!(!is_keyboard_device(&Some(vec![])));
    assert!(!is_keyboard_device(&Some(vec![KEY_ESC, KEY_C])));
    assert!(is_keyboard_device(&Some(vec![KEY_ENTER, 30, KEY_C, KEY_ESC])));
    assert!(!is_keyboard_device(&Some(vec![0x110, 0x111, 0x112])));
}
