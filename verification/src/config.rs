//! The configuration: its raw form as read from the file, and the checks
//! that turn it into a validated `Config`.
use vstd::prelude::*;
use crate::text::{concat_str, is_blank, lemma_trim_idempotent, trim, trim_string};
use crate::types::{parsed_key, parsed_modifier, with_error_view, Key, Modifier};

verus! {

/// The window-manager backend that reports the focused window.
#[derive(Debug, Clone, Copy, PartialEq, Eq, Structural)]
pub enum Backend {
    Niri,
}

/// One action of a rule, as written in the configuration.
#[derive(Debug)]
pub struct RawActionConfig {
    pub command: String,
}

/// One rule, as written in the configuration.
#[derive(Debug)]
pub struct RawRule {
    pub name: String,
    pub app_ids: Vec<String>,
    pub key: String,
    pub modifiers: Vec<String>,
    pub actions: Vec<RawActionConfig>,
}

/// The configuration file's contents, before validation.
#[derive(Debug)]
pub struct RawConfig {
    pub backend: Backend,
    pub shell: Option<String>,
    pub devices: Vec<String>,
    pub rules: Vec<RawRule>,
}

/// A validated action: a shell command line.
#[derive(Debug)]
pub struct ActionConfig {
    pub command: String,
}

/// A validated rule: when `key` is pressed with exactly `modifiers` held and
/// the focused window belongs to one of `app_ids`, run `actions` in order.
#[derive(Debug)]
pub struct Rule {
    pub name: String,
    pub app_ids: Vec<String>,
    pub key: Key,
    pub modifiers: Vec<Modifier>,
    pub actions: Vec<ActionConfig>,
}

/// A validated configuration.
#[derive(Debug)]
pub struct Config {
    pub backend: Backend,
    pub shell: String,
    pub devices: Vec<String>,
    pub rules: Vec<Rule>,
}

/// Why a configuration was refused.
#[derive(Debug)]
pub enum ConfigError {
    /// The configuration has no rule.
    NoRules,
    /// A rule's name is blank.
    EmptyRuleName,
    /// The rule so named has no application id, or a blank one.
    NoAppIds(String),
    /// A rule's key could not be parsed; the message says why.
    Key(String),
    /// A rule's modifier could not be parsed; the message says why.
    Modifier(String),
    /// The rule so named has no action.
    NoActions(String),
    /// An action's command is blank.
    EmptyExec,
}

/// `ConfigError` with its strings taken by their views.
pub enum ConfigErrorView {
    NoRules,
    EmptyRuleName,
    NoAppIds(Seq<char>),
    Key(Seq<char>),
    Modifier(Seq<char>),
    NoActions(Seq<char>),
    EmptyExec,
}

/// A raw rule with its strings taken by their views.
pub struct RawRuleView {
    pub name: Seq<char>,
    pub app_ids: Seq<Seq<char>>,
    pub key: Seq<char>,
    pub modifiers: Seq<Seq<char>>,
    pub actions: Seq<Seq<char>>,
}

/// A rule with its strings taken by their views.
pub struct RuleView {
    pub name: Seq<char>,
    pub app_ids: Seq<Seq<char>>,
    pub key: Key,
    pub modifiers: Seq<Modifier>,
    pub actions: Seq<Seq<char>>,
}

/// A raw configuration with its strings taken by their views.
pub struct RawConfigView {
    pub backend: Backend,
    pub shell: Option<Seq<char>>,
    pub devices: Seq<Seq<char>>,
    pub rules: Seq<RawRuleView>,
}

/// A configuration with its strings taken by their views.
pub struct ConfigView {
    pub backend: Backend,
    pub shell: Seq<char>,
    pub devices: Seq<Seq<char>>,
    pub rules: Seq<RuleView>,
}

/// An optional string taken by its view.
pub open spec fn string_option_view(o: Option<String>) -> Option<Seq<char>> {
    match o {
        Some(s) => Some(s@),
        None => None,
    }
}

/// The views of a sequence of strings.
pub open spec fn string_views(v: Seq<String>) -> Seq<Seq<char>> {
    v.map_values(|s: String| s@)
}

impl View for ConfigError {
    type V = ConfigErrorView;

    open spec fn view(&self) -> ConfigErrorView {
        match self {
            ConfigError::NoRules => ConfigErrorView::NoRules,
            ConfigError::EmptyRuleName => ConfigErrorView::EmptyRuleName,
            ConfigError::NoAppIds(n) => ConfigErrorView::NoAppIds(n@),
            ConfigError::Key(m) => ConfigErrorView::Key(m@),
            ConfigError::Modifier(m) => ConfigErrorView::Modifier(m@),
            ConfigError::NoActions(n) => ConfigErrorView::NoActions(n@),
            ConfigError::EmptyExec => ConfigErrorView::EmptyExec,
        }
    }
}

impl View for RawRule {
    type V = RawRuleView;

    open spec fn view(&self) -> RawRuleView {
        RawRuleView {
            name: self.name@,
            app_ids: string_views(self.app_ids@),
            key: self.key@,
            modifiers: string_views(self.modifiers@),
            actions: self.actions@.map_values(|a: RawActionConfig| a.command@),
        }
    }
}

impl View for Rule {
    type V = RuleView;

    open spec fn view(&self) -> RuleView {
        RuleView {
            name: self.name@,
            app_ids: string_views(self.app_ids@),
            key: self.key,
            modifiers: self.modifiers@,
            actions: self.actions@.map_values(|a: ActionConfig| a.command@),
        }
    }
}

impl View for RawConfig {
    type V = RawConfigView;

    open spec fn view(&self) -> RawConfigView {
        RawConfigView {
            backend: self.backend,
            shell: string_option_view(self.shell),
            devices: string_views(self.devices@),
            rules: self.rules@.map_values(|r: RawRule| r@),
        }
    }
}

impl View for Config {
    type V = ConfigView;

    open spec fn view(&self) -> ConfigView {
        ConfigView {
            backend: self.backend,
            shell: self.shell@,
            devices: string_views(self.devices@),
            rules: self.rules@.map_values(|r: Rule| r@),
        }
    }
}

/// A result with its value and error taken by their views.
pub open spec fn rule_result_view(r: Result<Rule, ConfigError>) -> Result<RuleView, ConfigErrorView> {
    match r {
        Ok(v) => Ok(v@),
        Err(e) => Err(e@),
    }
}

/// A result with its value and error taken by their views.
pub open spec fn config_result_view(r: Result<Config, ConfigError>) -> Result<
    ConfigView,
    ConfigErrorView,
> {
    match r {
        Ok(v) => Ok(v@),
        Err(e) => Err(e@),
    }
}

/// The modifiers that `names` denote, in order, or the message of the first
/// name that is not a modifier.
pub open spec fn parsed_modifiers(names: Seq<Seq<char>>) -> Result<Seq<Modifier>, Seq<char>>
    decreases names.len(),
{
    if names.len() == 0 {
        Ok(Seq::empty())
    } else {
        match parsed_modifiers(names.drop_last()) {
            Err(e) => Err(e),
            Ok(ms) => match parsed_modifier(names.last()) {
                Ok(m) => Ok(ms.push(m)),
                Err(e) => Err(e),
            },
        }
    }
}

/// Parsing a list of modifier names keeps every name: on success the result
/// has one modifier per name, in order, each the one that its name denotes;
/// it succeeds exactly when every name denotes a modifier, and otherwise
/// reports the first name that does not.
pub proof fn lemma_parsed_modifiers_elementwise(names: Seq<Seq<char>>)
    ensures
        parsed_modifiers(names) matches Ok(ms) ==> ms.len() == names.len() && forall|i: int|
            0 <= i < names.len() ==> parsed_modifier(#[trigger] names[i]) == Ok::<
                Modifier,
                Seq<char>,
            >(ms[i]),
        parsed_modifiers(names) is Ok <==> forall|i: int|
            0 <= i < names.len() ==> parsed_modifier(#[trigger] names[i]) is Ok,
        parsed_modifiers(names) matches Err(e) ==> exists|i: int|
            0 <= i < names.len() && parsed_modifier(#[trigger] names[i]) == Err::<Modifier, Seq<char>>(e)
                && forall|j: int| 0 <= j < i ==> parsed_modifier(#[trigger] names[j]) is Ok,
    decreases names.len(),
{
    if names.len() > 0 {
        let init = names.drop_last();
        lemma_parsed_modifiers_elementwise(init);
        assert forall|i: int| 0 <= i < init.len() implies init[i] == names[i] by {}
        if parsed_modifiers(init) is Err {
            let e = parsed_modifiers(init)->Err_0;
            let i = choose|i: int|
                0 <= i < init.len() && parsed_modifier(#[trigger] init[i]) == Err::<Modifier, Seq<char>>(e)
                    && forall|j: int| 0 <= j < i ==> parsed_modifier(#[trigger] init[j]) is Ok;
            assert(parsed_modifier(names[i]) is Err);
        } else {
            if parsed_modifier(names.last()) is Err {
                assert(parsed_modifier(names[names.len() - 1]) is Err);
            }
        }
    }
}

/// Whether some string of `v` is empty.
pub open spec fn has_empty(v: Seq<Seq<char>>) -> bool {
    exists|i: int| 0 <= i < v.len() && #[trigger] v[i].len() == 0
}

/// Whether some command of `actions` is blank.
pub open spec fn has_blank(actions: Seq<Seq<char>>) -> bool {
    exists|i: int| 0 <= i < actions.len() && trim(#[trigger] actions[i]).len() == 0
}

/// The trimmed strings of `v`.
pub open spec fn trimmed_all(v: Seq<Seq<char>>) -> Seq<Seq<char>> {
    v.map_values(|s: Seq<char>| trim(s))
}

/// The checks on one rule, in order: a name that is not blank (kept
/// trimmed); at least one application id, none blank (kept trimmed); a key;
/// the modifiers; at least one action; no blank command.
pub open spec fn validated_rule(raw: RawRuleView) -> Result<RuleView, ConfigErrorView> {
    let name = trim(raw.name);
    let app_ids = trimmed_all(raw.app_ids);
    if name.len() == 0 {
        Err(ConfigErrorView::EmptyRuleName)
    } else if app_ids.len() == 0 || has_empty(app_ids) {
        Err(ConfigErrorView::NoAppIds(name))
    } else {
        match parsed_key(raw.key) {
            Err(e) => Err(ConfigErrorView::Key(e)),
            Ok(key) => match parsed_modifiers(raw.modifiers) {
                Err(e) => Err(ConfigErrorView::Modifier(e)),
                Ok(modifiers) => if raw.actions.len() == 0 {
                    Err(ConfigErrorView::NoActions(name))
                } else if has_blank(raw.actions) {
                    Err(ConfigErrorView::EmptyExec)
                } else {
                    Ok(RuleView { name, app_ids, key, modifiers, actions: raw.actions })
                },
            },
        }
    }
}

/// The validated rules, in order, or the error of the first rule refused.
pub open spec fn validated_rules(raws: Seq<RawRuleView>) -> Result<Seq<RuleView>, ConfigErrorView>
    decreases raws.len(),
{
    if raws.len() == 0 {
        Ok(Seq::empty())
    } else {
        match validated_rules(raws.drop_last()) {
            Err(e) => Err(e),
            Ok(rs) => match validated_rule(raws.last()) {
                Ok(r) => Ok(rs.push(r)),
                Err(e) => Err(e),
            },
        }
    }
}

/// The shell that actions run in: the configured one unless it is absent or
/// blank, else the one from the environment (`SHELL`), else `/bin/sh`.
pub open spec fn chosen_shell(configured: Option<Seq<char>>, from_env: Option<Seq<char>>) -> Seq<
    char,
> {
    match configured {
        Some(s) if trim(s).len() != 0 => s,
        _ => match from_env {
            Some(e) => e,
            None => "/bin/sh"@,
        },
    }
}

/// The checks on a configuration: at least one rule, every rule valid (the
/// first refusal is reported); then the shell is chosen.
pub open spec fn validated_config(raw: RawConfigView, shell_env: Option<Seq<char>>) -> Result<
    ConfigView,
    ConfigErrorView,
> {
    if raw.rules.len() == 0 {
        Err(ConfigErrorView::NoRules)
    } else {
        match validated_rules(raw.rules) {
            Err(e) => Err(e),
            Ok(rules) => Ok(
                ConfigView {
                    backend: raw.backend,
                    shell: chosen_shell(raw.shell, shell_env),
                    devices: raw.devices,
                    rules,
                },
            ),
        }
    }
}

/// What every validated rule satisfies: a trimmed, non-empty name; at least
/// one application id, each trimmed and non-empty; at least one action, none
/// blank.
pub open spec fn rule_well_formed(r: RuleView) -> bool {
    &&& r.name.len() > 0
    &&& trim(r.name) == r.name
    &&& r.app_ids.len() > 0
    &&& forall|i: int| 0 <= i < r.app_ids.len() ==> (#[trigger] r.app_ids[i]).len() > 0 && trim(r.app_ids[i]) == r.app_ids[i]
    &&& r.actions.len() > 0
    &&& forall|i: int| 0 <= i < r.actions.len() ==> trim(#[trigger] r.actions[i]).len() > 0
}

/// What every validated configuration satisfies: at least one rule, every
/// rule well formed.
pub open spec fn config_well_formed(c: ConfigView) -> bool {
    &&& c.rules.len() > 0
    &&& forall|i: int| 0 <= i < c.rules.len() ==> rule_well_formed(#[trigger] c.rules[i])
}

/// A rule that passes validation is well formed.
pub proof fn lemma_validated_rule_well_formed(raw: RawRuleView)
    ensures
        validated_rule(raw) matches Ok(r) ==> rule_well_formed(r),
{
    if let Ok(r) = validated_rule(raw) {
        lemma_trim_idempotent(raw.name);
        assert forall|i: int| 0 <= i < r.app_ids.len() implies (#[trigger] r.app_ids[i]).len() > 0
            && trim(r.app_ids[i]) == r.app_ids[i] by {
            lemma_trim_idempotent(raw.app_ids[i]);
            if r.app_ids[i].len() == 0 {
                assert(has_empty(r.app_ids));
            }
        }
        assert forall|i: int| 0 <= i < r.actions.len() implies trim(#[trigger] r.actions[i]).len()
            > 0 by {
            if trim(r.actions[i]).len() == 0 {
                assert(has_blank(raw.actions));
            }
        }
    }
}

/// Every rule of a successful validation of `raws` is well formed.
pub proof fn lemma_validated_rules_well_formed(raws: Seq<RawRuleView>)
    ensures
        validated_rules(raws) matches Ok(rs) ==> rs.len() == raws.len() && forall|i: int|
            0 <= i < rs.len() ==> rule_well_formed(#[trigger] rs[i]),
    decreases raws.len(),
{
    if raws.len() > 0 {
        lemma_validated_rules_well_formed(raws.drop_last());
        lemma_validated_rule_well_formed(raws.last());
    }
}

/// A configuration that passes validation is well formed: it has a rule,
/// and every rule has a trimmed non-empty name, trimmed non-empty
/// application ids, and non-blank actions.
pub proof fn lemma_validated_config_well_formed(raw: RawConfigView, shell_env: Option<Seq<char>>)
    ensures
        validated_config(raw, shell_env) matches Ok(c) ==> config_well_formed(c),
{
    lemma_validated_rules_well_formed(raw.rules);
}

impl ConfigError {
    /// The message that describes this error.
    pub fn message(&self) -> (r: String)
        ensures
            r@ == (match self@ {
                ConfigErrorView::NoRules => "config must contain at least one rule"@,
                ConfigErrorView::EmptyRuleName => "rule name cannot be empty"@,
                ConfigErrorView::NoAppIds(n) => "rule "@ + n
                    + " must contain at least one non-empty app_id match"@,
                ConfigErrorView::Key(m) => m,
                ConfigErrorView::Modifier(m) => m,
                ConfigErrorView::NoActions(n) => "rule "@ + n + " must contain at least one action"@,
                ConfigErrorView::EmptyExec => "exec action cannot be empty"@,
            }),
    {
        match self {
            ConfigError::NoRules => String::from_str("config must contain at least one rule"),
            ConfigError::EmptyRuleName => String::from_str("rule name cannot be empty"),
            ConfigError::NoAppIds(n) => {
                let s = concat_str("rule ", n.as_str());
                s.concat(" must contain at least one non-empty app_id match")
            },
            ConfigError::Key(m) => m.clone(),
            ConfigError::Modifier(m) => m.clone(),
            ConfigError::NoActions(n) => {
                let s = concat_str("rule ", n.as_str());
                s.concat(" must contain at least one action")
            },
            ConfigError::EmptyExec => String::from_str("exec action cannot be empty"),
        }
    }
}

impl ActionConfig {
    /// Validates one action: its command must not be blank; it is kept as
    /// written.
    pub fn try_from(raw: &RawActionConfig) -> (r: Result<ActionConfig, ConfigError>)
        ensures
            match r {
                Ok(a) => trim(raw.command@).len() != 0 && a.command@ == raw.command@,
                Err(e) => trim(raw.command@).len() == 0 && e@ == ConfigErrorView::EmptyExec,
            },
    {
        if is_blank(raw.command.as_str()) {
            return Err(ConfigError::EmptyExec);
        }
        Ok(ActionConfig { command: raw.command.clone() })
    }
}

impl Rule {
    /// Validates one rule; see `validated_rule` for the checks and their order.
    #[verifier::loop_isolation(false)]
    pub fn try_from(raw: &RawRule) -> (r: Result<Rule, ConfigError>)
        ensures
            rule_result_view(r) == validated_rule(raw@),
            r matches Ok(rule) ==> rule_well_formed(rule@),
            r matches Ok(rule) ==> rule.modifiers@.len() == raw.modifiers@.len() && forall|i: int|
                0 <= i < raw.modifiers@.len() ==> parsed_modifier(#[trigger] raw.modifiers@[i]@)
                    == Ok::<Modifier, Seq<char>>(rule.modifiers@[i]),
    {
        proof {
            lemma_parsed_modifiers_elementwise(raw@.modifiers);
            assert forall|i: int| 0 <= i < raw.modifiers@.len() implies raw@.modifiers[i]
                == (#[trigger] raw.modifiers@[i])@ by {}
            lemma_validated_rule_well_formed(raw@);
        }
        let ghost rv = raw@;
        let name = trim_string(&raw.name);
        if name.as_str().is_empty() {
            return Err(ConfigError::EmptyRuleName);
        }
        let mut app_ids: Vec<String> = Vec::new();
        let n = raw.app_ids.len();
        let mut i: usize = 0;
        while i < n
            invariant
                n == raw.app_ids@.len(),
                i <= n,
                app_ids@.len() == i,
                forall|k: int| 0 <= k < i ==> (#[trigger] app_ids@[k])@ == trim(raw.app_ids@[k]@),
            decreases n - i,
        {
            app_ids.push(trim_string(&raw.app_ids[i]));
            i = i + 1;
        }
        assert(string_views(app_ids@) =~= trimmed_all(rv.app_ids));
        let mut any_empty = false;
        let mut j: usize = 0;
        while j < n
            invariant
                n == app_ids@.len(),
                j <= n,
                any_empty == exists|k: int| 0 <= k < j && (#[trigger] app_ids@[k])@.len() == 0,
            decreases n - j,
        {
            if app_ids[j].as_str().is_empty() {
                any_empty = true;
            }
            j = j + 1;
        }
        assert(any_empty == has_empty(string_views(app_ids@))) by {
            if any_empty {
                let k = choose|k: int| 0 <= k < n && (#[trigger] app_ids@[k])@.len() == 0;
                assert(string_views(app_ids@)[k].len() == 0);
            }
            if has_empty(string_views(app_ids@)) {
                let k = choose|k: int|
                    0 <= k < string_views(app_ids@).len() && (#[trigger] string_views(
                        app_ids@,
                    )[k]).len() == 0;
                assert(app_ids@[k]@.len() == 0);
            }
        }
        if n == 0 || any_empty {
            return Err(ConfigError::NoAppIds(name));
        }
        let key = match Key::from_str(raw.key.as_str()) {
            Ok(k) => k,
            Err(e) => {
                return Err(ConfigError::Key(e));
            },
        };
        let mut modifiers: Vec<Modifier> = Vec::new();
        let m = raw.modifiers.len();
        let mut i: usize = 0;
        while i < m
            invariant
                m == raw.modifiers@.len(),
                i <= m,
                rv == raw@,
                parsed_modifiers(rv.modifiers.take(i as int)) == Ok::<Seq<Modifier>, Seq<char>>(
                    modifiers@,
                ),
            decreases m - i,
        {
            assert(rv.modifiers.take(i + 1).drop_last() =~= rv.modifiers.take(i as int));
            assert(rv.modifiers.take(i + 1).last() == raw.modifiers@[i as int]@);
            match Modifier::from_str(raw.modifiers[i].as_str()) {
                Ok(md) => {
                    modifiers.push(md);
                },
                Err(e) => {
                    proof {
                        lemma_parsed_modifiers_prefix_error(rv.modifiers, i as int + 1);
                    }
                    return Err(ConfigError::Modifier(e));
                },
            }
            i = i + 1;
        }
        assert(rv.modifiers.take(m as int) =~= rv.modifiers);
        let a = raw.actions.len();
        if a == 0 {
            return Err(ConfigError::NoActions(name));
        }
        let mut actions: Vec<ActionConfig> = Vec::new();
        let mut i: usize = 0;
        while i < a
            invariant
                a == raw.actions@.len(),
                i <= a,
                rv == raw@,
                actions@.len() == i,
                forall|k: int| 0 <= k < i ==> (#[trigger] actions@[k]).command@ == rv.actions[k],
                forall|k: int| 0 <= k < i ==> trim(#[trigger] rv.actions[k]).len() != 0,
            decreases a - i,
        {
            match ActionConfig::try_from(&raw.actions[i]) {
                Ok(action) => {
                    actions.push(action);
                },
                Err(e) => {
                    assert(trim(rv.actions[i as int]).len() == 0);
                    return Err(e);
                },
            }
            i = i + 1;
        }
        let rule = Rule { name, app_ids, key, modifiers, actions };
        assert(rule@.actions =~= rv.actions);
        Ok(rule)
    }
}

/// Once a prefix of `names` is refused, the whole of `names` is refused
/// with the same message.
pub proof fn lemma_parsed_modifiers_prefix_error(names: Seq<Seq<char>>, i: int)
    requires
        0 <= i <= names.len(),
        parsed_modifiers(names.take(i)) is Err,
    ensures
        parsed_modifiers(names) == parsed_modifiers(names.take(i)),
    decreases names.len() - i,
{
    if i < names.len() {
        assert(names.take(i + 1).drop_last() =~= names.take(i));
        lemma_parsed_modifiers_prefix_error(names, i + 1);
    } else {
        assert(names.take(i) =~= names);
    }
}

/// Once a prefix of `raws` is refused, the whole of `raws` is refused with
/// the same error.
pub proof fn lemma_validated_rules_prefix_error(raws: Seq<RawRuleView>, i: int)
    requires
        0 <= i <= raws.len(),
        validated_rules(raws.take(i)) is Err,
    ensures
        validated_rules(raws) == validated_rules(raws.take(i)),
    decreases raws.len() - i,
{
    if i < raws.len() {
        assert(raws.take(i + 1).drop_last() =~= raws.take(i));
        lemma_validated_rules_prefix_error(raws, i + 1);
    } else {
        assert(raws.take(i) =~= raws);
    }
}

impl Config {
    /// Validates a configuration; `shell_env` is the value of the `SHELL`
    /// environment variable, used when the configuration names no shell.
    /// See `validated_config` for the checks and their order.
    #[verifier::loop_isolation(false)]
    pub fn try_from(raw: RawConfig, shell_env: Option<String>) -> (r: Result<Config, ConfigError>)
        ensures
            config_result_view(r) == validated_config(raw@, string_option_view(shell_env)),
            r matches Ok(c) ==> config_well_formed(c@),
    {
        let ghost rv = raw@;
        let ghost env = string_option_view(shell_env);
        proof {
            lemma_validated_config_well_formed(rv, env);
        }
        let RawConfig { backend, shell, devices, rules: raw_rules } = raw;
        let n = raw_rules.len();
        if n == 0 {
            return Err(ConfigError::NoRules);
        }
        let mut rules: Vec<Rule> = Vec::new();
        let mut i: usize = 0;
        assert(rv.rules.take(0) =~= Seq::<RawRuleView>::empty());
        assert(rules@.map_values(|r: Rule| r@) =~= Seq::<RuleView>::empty());
        while i < n
            invariant
                n == raw_rules@.len(),
                i <= n,
                rv.rules == raw_rules@.map_values(|r: RawRule| r@),
                validated_rules(rv.rules.take(i as int)) == Ok::<Seq<RuleView>, ConfigErrorView>(
                    rules@.map_values(|r: Rule| r@),
                ),
            decreases n - i,
        {
            assert(rv.rules.take(i + 1).drop_last() =~= rv.rules.take(i as int));
            assert(rv.rules.take(i + 1).last() == raw_rules@[i as int]@);
            match Rule::try_from(&raw_rules[i]) {
                Ok(rule) => {
                    let ghost before = rules@;
                    rules.push(rule);
                    assert(rules@.map_values(|r: Rule| r@) =~= before.map_values(|r: Rule| r@).push(
                        rule@,
                    ));
                },
                Err(e) => {
                    proof {
                        lemma_validated_rules_prefix_error(rv.rules, i as int + 1);
                    }
                    return Err(e);
                },
            }
            i = i + 1;
        }
        assert(rv.rules.take(n as int) =~= rv.rules);
        let chosen = match shell {
            Some(s) => {
                if is_blank(s.as_str()) {
                    match shell_env {
                        Some(e) => e,
                        None => String::from_str("/bin/sh"),
                    }
                } else {
                    s
                }
            },
            None => match shell_env {
                Some(e) => e,
                None => String::from_str("/bin/sh"),
            },
        };
        Ok(Config { backend, shell: chosen, devices, rules })
    }
}

} // verus!
