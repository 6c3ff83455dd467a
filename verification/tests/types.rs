use evdev::KeyCode;
use focuskeyd::types::{normalise_key_name, key_display_from_name, Key, Modifier};

fn key(code: KeyCode) -> Key {
    Key::from_keycode(code.code())
}

#[test]
fn parses_short_key_names() {
    assert_eq!(Key::from_str("esc").unwrap(), key(KeyCode::KEY_ESC));
    assert_eq!(Key::from_str("c").unwrap(), key(KeyCode::KEY_C));
    assert_eq!(Key::from_str("f12").unwrap(), key(KeyCode::KEY_F12));
    assert_eq!(
        Key::from_str("volumeup").unwrap(),
        key(KeyCode::KEY_VOLUMEUP)
    );
}

#[test]
fn parses_evdev_key_names() {
    assert_eq!(Key::from_str("KEY_ESC").unwrap(), key(KeyCode::KEY_ESC));
    assert_eq!(Key::from_str("key_c").unwrap(), key(KeyCode::KEY_C));
    assert_eq!(Key::from_str("BTN_LEFT").unwrap(), key(KeyCode::BTN_LEFT));
}

#[test]
fn display_roundtrips() {
    for code in [
        KeyCode::KEY_ESC,
        KeyCode::KEY_C,
        KeyCode::KEY_F12,
        KeyCode::BTN_LEFT,
    ] {
        let k = key(code);
        assert_eq!(Key::from_str(&k.to_string()).unwrap(), k);
    }
}

#[test]
fn display_roundtrips_for_every_named_key() {
    for code in 0u16..0x300 {
        let k = Key::from_keycode(code);
        let shown = k.to_string();
        if shown.starts_with("unknown key") {
            assert!(Key::from_str(&shown).is_err());
        } else {
            assert_eq!(Key::from_str(&shown).unwrap(), k, "{shown}");
        }
    }
}

#[test]
fn shows_keys_in_lower_case_without_prefix() {
    assert_eq!(key(KeyCode::KEY_ESC).to_string(), "esc");
    assert_eq!(key(KeyCode::KEY_F12).to_string(), "f12");
    assert_eq!(key(KeyCode::BTN_LEFT).to_string(), "btn_left");
    assert_eq!(Key::from_keycode(0x2ff).to_string(), "unknown key: 767");
    assert_eq!(key_display_from_name("KEY_PAGEUP"), "pageup");
    assert_eq!(key_display_from_name("BTN_SOUTH"), "btn_south");
    assert_eq!(key_display_from_name("Key_x"), "x");
}

#[test]
fn key_code_accessor() {
    assert_eq!(Key::from_keycode(46).code(), 46);
    assert_eq!(key(KeyCode::KEY_C).code(), KeyCode::KEY_C.code());
}

#[test]
fn normalises_names() {
    assert_eq!(normalise_key_name(""), None);
    assert_eq!(normalise_key_name(" \t\n"), None);
    assert_eq!(normalise_key_name("esc").as_deref(), Some("KEY_ESC"));
    assert_eq!(normalise_key_name(" Escape ").as_deref(), Some("KEY_ESC"));
    assert_eq!(normalise_key_name("return").as_deref(), Some("KEY_ENTER"));
    assert_eq!(normalise_key_name("page-up").as_deref(), Some("KEY_PAGEUP"));
    assert_eq!(normalise_key_name("PgDown").as_deref(), Some("KEY_PAGEDOWN"));
    assert_eq!(normalise_key_name("left-bracket").as_deref(), Some("KEY_LEFTBRACE"));
    assert_eq!(normalise_key_name("right_bracket").as_deref(), Some("KEY_RIGHTBRACE"));
    assert_eq!(normalise_key_name("backtick").as_deref(), Some("KEY_GRAVE"));
    assert_eq!(normalise_key_name("quote").as_deref(), Some("KEY_APOSTROPHE"));
    assert_eq!(normalise_key_name("period").as_deref(), Some("KEY_DOT"));
    assert_eq!(normalise_key_name("equals").as_deref(), Some("KEY_EQUAL"));
    assert_eq!(normalise_key_name("del").as_deref(), Some("KEY_DELETE"));
    assert_eq!(normalise_key_name("ins").as_deref(), Some("KEY_INSERT"));
    assert_eq!(normalise_key_name("btn-left").as_deref(), Some("BTN_LEFT"));
    assert_eq!(normalise_key_name("key-a").as_deref(), Some("KEY_A"));
    assert_eq!(normalise_key_name("f1").as_deref(), Some("KEY_F1"));
    assert_eq!(normalise_key_name("a b").as_deref(), Some("KEY_A B"));
    assert_eq!(normalise_key_name("\u{3000}é\u{a0}").as_deref(), Some("KEY_é"));
}

#[test]
fn normalising_twice_changes_nothing() {
    for name in ["esc", " Page-Up ", "btn_left", "f12", "x y", "leftbracket", "ß"] {
        let once = normalise_key_name(name).unwrap();
        assert_eq!(normalise_key_name(&once).unwrap(), once);
    }
}

#[test]
fn key_names_ignore_case() {
    for name in ["Esc", "KEY_esc", "F12", "VolumeUp", "btn_LEFT"] {
        assert_eq!(
            Key::from_str(name),
            Key::from_str(&name.to_ascii_lowercase())
        );
        assert_eq!(
            Key::from_str(name),
            Key::from_str(&name.to_ascii_uppercase())
        );
    }
}

#[test]
fn key_errors() {
    assert_eq!(Key::from_str("   ").unwrap_err(), "key cannot be empty");
    assert_eq!(Key::from_str("").unwrap_err(), "key cannot be empty");
    assert_eq!(Key::from_str(" nosuchkey ").unwrap_err(), "unsupported key  nosuchkey ");
    assert_eq!(Key::from_str("KEY_FOOBAR").unwrap_err(), "unsupported key KEY_FOOBAR");
}

#[test]
fn key_from_lookup_result() {
    assert_eq!(Key::from_lookup("x", Some(45)).unwrap(), Key::from_keycode(45));
    assert_eq!(Key::from_lookup("x", None).unwrap_err(), "unsupported key x");
}

#[test]
fn parses_modifiers() {
    assert_eq!(Modifier::from_str("ctrl"), Ok(Modifier::Ctrl));
    assert_eq!(Modifier::from_str(" Control "), Ok(Modifier::Ctrl));
    assert_eq!(Modifier::from_str("ALT"), Ok(Modifier::Alt));
    assert_eq!(Modifier::from_str("Shift"), Ok(Modifier::Shift));
    assert_eq!(Modifier::from_str("super"), Ok(Modifier::Super));
    assert_eq!(Modifier::from_str("meta"), Ok(Modifier::Super));
    assert_eq!(
        Modifier::from_str(" hyper"),
        Err("unsupported modifier  hyper".to_string())
    );
    assert_eq!(
        Modifier::from_str("ctrl-alt"),
        Err("unsupported modifier ctrl-alt".to_string())
    );
}
