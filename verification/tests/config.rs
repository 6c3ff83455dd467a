use evdev::KeyCode;
use focuskeyd::config::{Backend, Config, ConfigError, RawActionConfig, RawConfig, RawRule, Rule, ActionConfig};
use focuskeyd::types::{Key, Modifier};

fn strings(v: &[&str]) -> Vec<String> {
    v.iter().map(|s| s.to_string()).collect()
}

fn raw_rule(name: &str, app_ids: &[&str], key: &str, modifiers: &[&str], actions: &[&str]) -> RawRule {
    RawRule {
        name: name.to_string(),
        app_ids: strings(app_ids),
        key: key.to_string(),
        modifiers: strings(modifiers),
        actions: actions
            .iter()
            .map(|a| RawActionConfig { command: a.to_string() })
            .collect(),
    }
}

fn raw_config(shell: Option<&str>, rules: Vec<RawRule>) -> RawConfig {
    RawConfig {
        backend: Backend::Niri,
        shell: shell.map(|s| s.to_string()),
        devices: strings(&["/dev/input/event3"]),
        rules,
    }
}

fn message(r: Result<Config, ConfigError>) -> String {
    match r {
        Ok(_) => panic!("expected an error"),
        Err(e) => e.message(),
    }
}

#[test]
fn validates_a_rule() {
    let rule = Rule::try_from(&raw_rule(
        "  copy ",
        &[" firefox", "kitty "],
        "c",
        &["Ctrl", " shift"],
        &["wl-copy  ", "notify-send hi"],
    ))
    .unwrap();
    assert_eq!(rule.name, "copy");
    assert_eq!(rule.app_ids, strings(&["firefox", "kitty"]));
    assert_eq!(rule.key, Key::from_keycode(KeyCode::KEY_C.code()));
    assert_eq!(rule.modifiers, vec![Modifier::Ctrl, Modifier::Shift]);
    assert_eq!(rule.actions.len(), 2);
    assert_eq!(rule.actions[0].command, "wl-copy  ");
    assert_eq!(rule.actions[1].command, "notify-send hi");
}

#[test]
fn rule_errors_in_order() {
    let err = |r: RawRule| Rule::try_from(&r).unwrap_err().message();
    assert_eq!(err(raw_rule("  ", &[], "", &["x"], &[])), "rule name cannot be empty");
    assert_eq!(
        err(raw_rule("r", &[], "", &[], &[])),
        "rule r must contain at least one non-empty app_id match"
    );
    assert_eq!(
        err(raw_rule(" r ", &["a", "  "], "c", &[], &["x"])),
        "rule r must contain at least one non-empty app_id match"
    );
    assert_eq!(err(raw_rule("r", &["a"], " ", &["bad"], &[])), "key cannot be empty");
    assert_eq!(err(raw_rule("r", &["a"], "nokey", &["bad"], &[])), "unsupported key nokey");
    assert_eq!(
        err(raw_rule("r", &["a"], "c", &["ctrl", "hyper", "bad"], &[])),
        "unsupported modifier hyper"
    );
    assert_eq!(
        err(raw_rule("r", &["a"], "c", &["ctrl"], &[])),
        "rule r must contain at least one action"
    );
    assert_eq!(
        err(raw_rule("r", &["a"], "c", &["ctrl"], &["ok", " \t "])),
        "exec action cannot be empty"
    );
    assert!(matches!(
        Rule::try_from(&raw_rule("r", &["a"], "c", &["ctrl"], &[""])),
        Err(ConfigError::EmptyExec)
    ));
}

#[test]
fn validates_actions() {
    let a = ActionConfig::try_from(&RawActionConfig { command: " ls ".to_string() }).unwrap();
    assert_eq!(a.command, " ls ");
    assert!(matches!(
        ActionConfig::try_from(&RawActionConfig { command: "\n".to_string() }),
        Err(ConfigError::EmptyExec)
    ));
}

#[test]
fn validates_a_config() {
    let raw = raw_config(
        Some("/bin/zsh"),
        vec![
            raw_rule("one", &["a"], "esc", &[], &["x"]),
            raw_rule("two", &["b"], "f12", &["super"], &["y"]),
        ],
    );
    let config = Config::try_from(raw, Some("/bin/bash".to_string())).unwrap();
    assert_eq!(config.backend, Backend::Niri);
    assert_eq!(config.shell, "/bin/zsh");
    assert_eq!(config.devices, strings(&["/dev/input/event3"]));
    assert_eq!(config.rules.len(), 2);
    assert_eq!(config.rules[1].name, "two");
    assert_eq!(config.rules[1].key, Key::from_keycode(KeyCode::KEY_F12.code()));
}

#[test]
fn chooses_the_shell() {
    let rules = || vec![raw_rule("r", &["a"], "c", &[], &["x"])];
    let shell = |configured: Option<&str>, env: Option<&str>| {
        Config::try_from(raw_config(configured, rules()), env.map(|s| s.to_string()))
            .unwrap()
            .shell
    };
    assert_eq!(shell(Some("/bin/fish"), Some("/bin/bash")), "/bin/fish");
    assert_eq!(shell(Some("  "), Some("/bin/bash")), "/bin/bash");
    assert_eq!(shell(None, Some("/bin/bash")), "/bin/bash");
    assert_eq!(shell(None, None), "/bin/sh");
    assert_eq!(shell(Some(""), None), "/bin/sh");
    assert_eq!(shell(None, Some("")), "");
}

#[test]
fn config_errors() {
    assert_eq!(
        message(Config::try_from(raw_config(None, vec![]), None)),
        "config must contain at least one rule"
    );
    assert_eq!(
        message(Config::try_from(
            raw_config(
                None,
                vec![
                    raw_rule("good", &["a"], "c", &[], &["x"]),
                    raw_rule("bad", &["a"], "c", &[], &[]),
                    raw_rule("", &["a"], "c", &[], &["x"]),
                ]
            ),
            None
        )),
        "rule bad must contain at least one action"
    );
}

#[test]
fn validated_config_is_well_formed() {
    let config = Config::try_from(
        raw_config(None, vec![raw_rule(" n ", &[" a "], "c", &[], &[" x"])]),
        None,
    )
    .unwrap();
    for rule in &config.rules {
        assert_eq!(rule.name.trim(), rule.name);
        assert!(!rule.name.is_empty());
        assert!(!rule.app_ids.is_empty());
        for id in &rule.app_ids {
            assert_eq!(id.trim(), id);
            assert!(!id.is_empty());
        }
        assert!(!rule.actions.is_empty());
        for a in &rule.actions {
            assert!(!a.command.trim().is_empty());
        }
    }
}
