//! Which rules a key press triggers, and which of those apply to the
//! focused window.
use vstd::prelude::*;
use crate::config::{string_views, Rule};
use crate::event::{held_set, lemma_match_is_set_equality, modifiers_match, KeyEvent};
use crate::niri::WindowInfo;

verus! {

/// Whether `event` is the rule's key pressed with exactly the rule's modifiers.
pub open spec fn rule_triggered(rule: Rule, event: KeyEvent) -> bool {
    rule.key == event.key && modifiers_match(event.modifiers, rule.modifiers@)
}

/// Whether the window has an application id and it is one of the rule's.
pub open spec fn rule_window(rule: Rule, window: WindowInfo) -> bool {
    match window.app_id {
        Some(id) => string_views(rule.app_ids@).contains(id@),
        None => false,
    }
}

/// Whether a rule applies to `event` in `window`.
pub open spec fn rule_applies(rule: Rule, event: KeyEvent, window: WindowInfo) -> bool {
    rule_triggered(rule, event) && rule_window(rule, window)
}

/// The rules of `rules` that apply to `event` in `window`, in order.
pub open spec fn applying_rules(rules: Seq<Rule>, event: KeyEvent, window: WindowInfo) -> Seq<Rule> {
    rules.filter(|x: Rule| rule_applies(x, event, window))
}

/// Whether `event` triggers `rule`.
pub fn trigger_matches(rule: &Rule, event: &KeyEvent) -> (r: bool)
    ensures
        r == rule_triggered(*rule, *event),
        r == (rule.key == event.key && held_set(event.modifiers) == rule.modifiers@.to_set()),
{
    proof {
        lemma_trigger_is_exact_chord(*rule, *event);
    }
    rule.key == event.key && event.modifiers.matches(rule.modifiers.as_slice())
}

/// Whether the focused `window` belongs to one of the rule's applications.
#[verifier::loop_isolation(false)]
pub fn window_matches(rule: &Rule, window: &WindowInfo) -> (r: bool)
    ensures
        r == rule_window(*rule, *window),
        r == (window.app_id matches Some(id) && exists|k: int|
            0 <= k < rule.app_ids@.len() && (#[trigger] rule.app_ids@[k])@ == id@),
{
    proof {
        lemma_window_is_equal_app_id(*rule, *window);
    }
    match &window.app_id {
        Some(app_id) => {
            let n = rule.app_ids.len();
            let mut i: usize = 0;
            while i < n
                invariant
                    n == rule.app_ids@.len(),
                    i <= n,
                    forall|k: int| 0 <= k < i ==> (#[trigger] rule.app_ids@[k])@ != app_id@,
                decreases n - i,
            {
                if rule.app_ids[i] == *app_id {
                    assert(string_views(rule.app_ids@)[i as int] == app_id@);
                    assert(string_views(rule.app_ids@).contains(app_id@));
                    return true;
                }
                i = i + 1;
            }
            assert(!string_views(rule.app_ids@).contains(app_id@)) by {
                if string_views(rule.app_ids@).contains(app_id@) {
                    let k = choose|k: int|
                        0 <= k < string_views(rule.app_ids@).len() && string_views(
                            rule.app_ids@,
                        )[k] == app_id@;
                    assert(rule.app_ids@[k]@ == app_id@);
                }
            }
            false
        },
        None => false,
    }
}

/// Whether some rule is triggered by `event`, whatever window has focus.
pub fn has_trigger(rules: &[Rule], event: &KeyEvent) -> (r: bool)
    ensures
        r == exists|i: int| 0 <= i < rules@.len() && rule_triggered(#[trigger] rules@[i], *event),
{
    let n = rules.len();
    let mut i: usize = 0;
    while i < n
        invariant
            n == rules@.len(),
            i <= n,
            forall|k: int| 0 <= k < i ==> !rule_triggered(#[trigger] rules@[k], *event),
        decreases n - i,
    {
        if trigger_matches(&rules[i], event) {
            return true;
        }
        i = i + 1;
    }
    false
}

/// The rules that apply to `event` in `window`, in their configured order.
pub fn matching_rules<'a>(rules: &'a [Rule], event: &KeyEvent, window: &WindowInfo) -> (r: Vec<
    &'a Rule,
>)
    ensures
        r@.map_values(|x: &Rule| *x) == applying_rules(rules@, *event, *window),
{
    let mut out: Vec<&'a Rule> = Vec::new();
    let n = rules.len();
    let mut i: usize = 0;
    let ghost pred = |x: Rule| rule_applies(x, *event, *window);
    assert(rules@.take(0) =~= Seq::<Rule>::empty());
    assert(out@.map_values(|x: &Rule| *x) =~= Seq::<Rule>::empty());
    while i < n
        invariant
            n == rules@.len(),
            i <= n,
            pred == (|x: Rule| rule_applies(x, *event, *window)),
            out@.map_values(|x: &Rule| *x) == rules@.take(i as int).filter(pred),
        decreases n - i,
    {
        reveal_with_fuel(Seq::<_>::filter, 1);
        let ghost before = out@;
        if trigger_matches(&rules[i], event) && window_matches(&rules[i], window) {
            out.push(&rules[i]);
            assert(out@.map_values(|x: &Rule| *x) =~= before.map_values(|x: &Rule| *x).push(
                rules@[i as int],
            ));
        }
        assert(rules@.take(i + 1).drop_last() =~= rules@.take(i as int));
        i = i + 1;
    }
    assert(rules@.take(n as int) =~= rules@);
    out
}

/// Every rule that applies to an event in a window is triggered by the
/// event; so when no rule is triggered, no rule applies, whatever window has
/// focus (and the focused window need not be looked up).
pub proof fn lemma_applying_rules_are_triggered(rules: Seq<Rule>, event: KeyEvent, window: WindowInfo)
    ensures
        forall|i: int|
            0 <= i < applying_rules(rules, event, window).len() ==> rule_triggered(
                #[trigger] applying_rules(rules, event, window)[i],
                event,
            ),
        (forall|i: int| 0 <= i < rules.len() ==> !rule_triggered(#[trigger] rules[i], event))
            ==> applying_rules(rules, event, window).len() == 0,
{
    broadcast use vstd::seq_lib::group_filter_ensures;

    let pred = |x: Rule| rule_applies(x, event, window);
    assert forall|i: int| 0 <= i < applying_rules(rules, event, window).len() implies rule_triggered(
        #[trigger] applying_rules(rules, event, window)[i],
        event,
    ) by {
        assert(pred(rules.filter(pred)[i]));
    }
    if forall|i: int| 0 <= i < rules.len() ==> !rule_triggered(#[trigger] rules[i], event) {
        assert(rules.all(|x: Rule| !pred(x))) by {
            assert forall|i: int| 0 <= i < rules.len() implies !pred(rules[i]) by {
                assert(!rule_triggered(rules[i], event));
            }
        }
        rules.lemma_all_neg_filter_empty(pred);
    }
}

/// A key press triggers a rule exactly when it is the rule's key and the
/// set of held modifiers is the set of the rule's modifiers: none missing,
/// none extra (Super included).
pub proof fn lemma_trigger_is_exact_chord(rule: Rule, event: KeyEvent)
    ensures
        rule_triggered(rule, event) <==> (rule.key == event.key && held_set(event.modifiers)
            == rule.modifiers@.to_set()),
{
    lemma_match_is_set_equality(event.modifiers, rule.modifiers@);
}

/// A rule is for the focused window exactly when the window has an
/// application id equal, character for character, to one of the rule's.
pub proof fn lemma_window_is_equal_app_id(rule: Rule, window: WindowInfo)
    ensures
        rule_window(rule, window) <==> (window.app_id matches Some(id) && exists|k: int|
            0 <= k < rule.app_ids@.len() && (#[trigger] rule.app_ids@[k])@ == id@),
{
    if let Some(id) = window.app_id {
        if rule_window(rule, window) {
            let k = choose|k: int|
                0 <= k < string_views(rule.app_ids@).len() && string_views(rule.app_ids@)[k] == id@;
            assert(rule.app_ids@[k]@ == id@);
        }
        if exists|k: int| 0 <= k < rule.app_ids@.len() && (#[trigger] rule.app_ids@[k])@ == id@ {
            let k = choose|k: int| 0 <= k < rule.app_ids@.len() && (#[trigger] rule.app_ids@[k])@ == id@;
            assert(string_views(rule.app_ids@)[k] == id@);
        }
    }
}

} // verus!
