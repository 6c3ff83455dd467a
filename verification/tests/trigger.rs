use focuskeyd::config::{ActionConfig, Rule};
use focuskeyd::event::{KeyEvent, Modifiers, KEY_C, KEY_ESC};
use focuskeyd::niri::{value_to_string, IdValue, WindowInfo};
use focuskeyd::trigger::{has_trigger, matching_rules, trigger_matches, window_matches};
use focuskeyd::types::{Key, Modifier};

fn rule(name: &str, app_ids: &[&str], key: u16, modifiers: Vec<Modifier>) -> Rule {
    Rule {
        name: name.to_string(),
        app_ids: app_ids.iter().map(|s| s.to_string()).collect(),
        key: Key::from_keycode(key),
        modifiers,
        actions: vec![ActionConfig { command: "true".to_string() }],
    }
}

fn window(app_id: Option<&str>) -> WindowInfo {
    WindowInfo {
        app_id: app_id.map(|s| s.to_string()),
        title: Some("title".to_string()),
        id: Some("7".to_string()),
        pid: Some(42),
    }
}

fn ctrl() -> Modifiers {
    Modifiers { ctrl: true, alt: false, shift: false, super_key: false }
}

#[test]
fn triggers_on_key_and_exact_modifiers() {
    let r = rule("copy", &["firefox"], KEY_C, vec![Modifier::Ctrl]);
    assert!(trigger_matches(&r, &KeyEvent { key: Key::from_keycode(KEY_C), modifiers: ctrl() }));
    assert!(!trigger_matches(&r, &KeyEvent { key: Key::from_keycode(KEY_ESC), modifiers: ctrl() }));
    assert!(!trigger_matches(&r, &KeyEvent { key: Key::from_keycode(KEY_C), modifiers: Modifiers::none() }));
    let mut more = ctrl();
    more.shift = true;
    assert!(!trigger_matches(&r, &KeyEvent { key: Key::from_keycode(KEY_C), modifiers: more }));
}

#[test]
fn window_matching() {
    let r = rule("copy", &["firefox", "kitty"], KEY_C, vec![]);
    assert!(window_matches(&r, &window(Some("kitty"))));
    assert!(!window_matches(&r, &window(Some("Kitty"))));
    assert!(!window_matches(&r, &window(Some("foot"))));
    assert!(!window_matches(&r, &window(None)));
}

#[test]
fn selects_matching_rules_in_order() {
    let rules = vec![
        rule("a", &["firefox"], KEY_C, vec![Modifier::Ctrl]),
        rule("b", &["kitty"], KEY_C, vec![Modifier::Ctrl]),
        rule("c", &["firefox"], KEY_ESC, vec![]),
        rule("d", &["firefox", "kitty"], KEY_C, vec![Modifier::Ctrl]),
    ];
    let event = KeyEvent { key: Key::from_keycode(KEY_C), modifiers: ctrl() };
    assert!(has_trigger(&rules, &event));
    let names: Vec<&str> = matching_rules(&rules, &event, &window(Some("firefox")))
        .iter()
        .map(|r| r.name.as_str())
        .collect();
    assert_eq!(names, vec!["a", "d"]);
    assert!(matching_rules(&rules, &event, &window(None)).is_empty());

    let other = KeyEvent { key: Key::from_keycode(30), modifiers: ctrl() };
    assert!(!has_trigger(&rules, &other));
    assert!(matching_rules(&rules, &other, &window(Some("firefox"))).is_empty());
    assert!(!has_trigger(&[], &event));
}

#[test]
fn window_id_text() {
    assert_eq!(value_to_string(IdValue::Text("abc".to_string())), "abc");
    assert_eq!(value_to_string(IdValue::Rendered("42".to_string())), "42");
}
