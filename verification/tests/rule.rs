use sledge::action::Action;
use sledge::backend::BackendVerdict;
use sledge::event::{EventKind, KeyCode, KeyEvent, Modifiers};
use sledge::rule::{Matcher, Rule, RuleSet, Verdict};
use sledge::trigger::{HotkeyTrigger, TapTrigger, Trigger};

fn hk(key: KeyCode, mods: Modifiers, action: Action) -> Rule {
    Rule {
        trigger: Trigger::Hotkey(HotkeyTrigger { key, mods }),
        action,
        when_app_in: None,
    }
}

fn kdown(code: KeyCode, mods: Modifiers) -> KeyEvent {
    KeyEvent {
        code,
        kind: EventKind::KeyDown,
        mods,
    }
}

fn kup(code: KeyCode, mods: Modifiers) -> KeyEvent {
    KeyEvent {
        code,
        kind: EventKind::KeyUp,
        mods,
    }
}

const NOW: u64 = 1_000_000;

#[test]
fn hotkey_fires_on_exact_modifier_match() {
    let rules = RuleSet::new(vec![hk(
        KeyCode::Digit1,
        Modifiers::cmd() | Modifiers::alt(),
        Action::SetInputSource { id: "us".into() },
    )]);
    let mut m = Matcher::new(rules);
    let v = m.dispatch(kdown(KeyCode::Digit1, Modifiers::cmd() | Modifiers::alt()), None, NOW);
    match v {
        Verdict::Replace(Action::SetInputSource { id }) => assert_eq!(id, "us"),
        other => panic!("dispatch gave {:?}", other),
    }
}

#[test]
fn hotkey_does_not_fire_without_mods() {
    let rules = RuleSet::new(vec![hk(
        KeyCode::Digit1,
        Modifiers::cmd() | Modifiers::alt(),
        Action::SetInputSource { id: "us".into() },
    )]);
    let mut m = Matcher::new(rules);
    let v = m.dispatch(kdown(KeyCode::Digit1, Modifiers::cmd()), None, NOW);
    assert!(matches!(v, Verdict::Pass));
}

#[test]
fn scope_filters_by_app() {
    let rule = Rule {
        trigger: Trigger::Hotkey(HotkeyTrigger {
            key: KeyCode::KeyK,
            mods: Modifiers::alt(),
        }),
        action: Action::SendKey {
            key: KeyCode::KeyT,
            mods: Modifiers::alt(),
        },
        when_app_in: Some(vec!["ghostty".into()]),
    };
    let rules = RuleSet::new(vec![rule]);
    let mut m = Matcher::new(rules);
    let v_wrong_app = m.dispatch(kdown(KeyCode::KeyK, Modifiers::alt()), Some("safari"), NOW);
    assert!(matches!(v_wrong_app, Verdict::Pass));
    let v_right_app = m.dispatch(kdown(KeyCode::KeyK, Modifiers::alt()), Some("ghostty"), NOW);
    assert!(matches!(v_right_app, Verdict::Replace(_)));
}

#[test]
fn triple_tap_right_alt_fires_with_production_mods_shape() {
    let rule = Rule {
        trigger: Trigger::Tap(TapTrigger {
            tap: KeyCode::RightAlt,
            count: 3,
            within_ms: 600,
        }),
        action: Action::SendKey {
            key: KeyCode::Return,
            mods: Modifiers::ctrl(),
        },
        when_app_in: None,
    };
    let rules = RuleSet::new(vec![rule]);
    let mut m = Matcher::new(rules);

    let base = NOW;
    let down = Modifiers::alt() | Modifiers::right_alt();
    let up = Modifiers::empty();

    let mk = |mods: Modifiers| KeyEvent {
        code: KeyCode::RightAlt,
        kind: EventKind::ModifiersChanged,
        mods,
    };

    // Tap 1: down, up (0-100ms)
    assert!(matches!(m.dispatch(mk(down), None, base), Verdict::Pass));
    assert!(matches!(m.dispatch(mk(up), None, base + 100), Verdict::Pass));

    // Tap 2: down, up (150-250ms)
    assert!(matches!(m.dispatch(mk(down), None, base + 150), Verdict::Pass));
    assert!(matches!(m.dispatch(mk(up), None, base + 250), Verdict::Pass));

    // Tap 3: down, up (300-400ms); the third release fires the rule.
    assert!(matches!(m.dispatch(mk(down), None, base + 300), Verdict::Pass));
    match m.dispatch(mk(up), None, base + 400) {
        Verdict::Replace(Action::SendKey { key, mods }) => {
            assert_eq!(key, KeyCode::Return);
            assert_eq!(mods, Modifiers::ctrl());
        }
        other => panic!("expected Replace(Ctrl+Return), got {other:?}"),
    }
}

#[test]
fn hotkey_replace_also_swallows_matching_key_up() {
    let rule = hk(
        KeyCode::KeyK,
        Modifiers::alt(),
        Action::SendKey {
            key: KeyCode::KeyT,
            mods: Modifiers::alt(),
        },
    );
    let rules = RuleSet::new(vec![rule]);
    let mut m = Matcher::new(rules);

    let now = NOW;

    let down = kdown(KeyCode::KeyK, Modifiers::alt());
    match m.dispatch(down, None, now) {
        Verdict::Replace(Action::SendKey { key, mods }) => {
            assert_eq!(key, KeyCode::KeyT);
            assert_eq!(mods, Modifiers::alt());
        }
        other => panic!("expected Replace(Alt+T), got {other:?}"),
    }

    let up = kup(KeyCode::KeyK, Modifiers::empty());
    let v = m.dispatch(up, None, now + 50);
    assert!(
        matches!(v, Verdict::Swallow),
        "expected KeyUp to be Swallow, got {v:?}",
    );

    let other_up = kup(KeyCode::KeyJ, Modifiers::empty());
    let v = m.dispatch(other_up, None, now + 100);
    assert!(
        matches!(v, Verdict::Pass),
        "expected unrelated KeyUp to Pass, got {v:?}",
    );

    let repeat_up = kup(KeyCode::KeyK, Modifiers::empty());
    let v = m.dispatch(repeat_up, None, now + 150);
    assert!(
        matches!(v, Verdict::Pass),
        "expected stale KeyUp to Pass, got {v:?}",
    );
}

#[test]
fn hotkey_out_of_scope_does_not_swallow_key_up() {
    let mut rule = hk(
        KeyCode::KeyK,
        Modifiers::alt(),
        Action::SendKey {
            key: KeyCode::KeyT,
            mods: Modifiers::alt(),
        },
    );
    rule.when_app_in = Some(vec!["ghostty".to_string()]);
    let rules = RuleSet::new(vec![rule]);
    let mut m = Matcher::new(rules);

    let now = NOW;
    let down = kdown(KeyCode::KeyK, Modifiers::alt());
    assert!(matches!(m.dispatch(down, Some("safari"), now), Verdict::Pass));

    let up = kup(KeyCode::KeyK, Modifiers::alt());
    assert!(matches!(m.dispatch(up, Some("safari"), now + 50), Verdict::Pass));
}

#[test]
fn rule_set_partitions_and_counts() {
    let tap = Rule {
        trigger: Trigger::Tap(TapTrigger {
            tap: KeyCode::LeftShift,
            count: 2,
            within_ms: 300,
        }),
        action: Action::SetInputSource { id: "x".into() },
        when_app_in: None,
    };
    let rules = RuleSet::new(vec![
        tap.clone(),
        hk(KeyCode::KeyA, Modifiers::cmd(), Action::SetInputSource { id: "a".into() }),
        hk(KeyCode::KeyB, Modifiers::cmd(), Action::SetInputSource { id: "b".into() }),
    ]);
    assert_eq!(rules.len(), 3);
    assert!(!rules.is_empty());
    let all = rules.iter();
    assert_eq!(all.len(), 3);
    assert!(matches!(all[0].trigger, Trigger::Hotkey(HotkeyTrigger { key: KeyCode::KeyA, .. })));
    assert!(matches!(all[1].trigger, Trigger::Hotkey(HotkeyTrigger { key: KeyCode::KeyB, .. })));
    assert!(matches!(all[2].trigger, Trigger::Tap(_)));
    assert!(RuleSet::new(vec![]).is_empty());
    assert_eq!(RuleSet::new(vec![]).len(), 0);
}

#[test]
fn first_matching_hotkey_wins() {
    let rules = RuleSet::new(vec![
        hk(KeyCode::KeyA, Modifiers::cmd(), Action::SetInputSource { id: "first".into() }),
        hk(KeyCode::KeyA, Modifiers::empty(), Action::SetInputSource { id: "second".into() }),
    ]);
    let mut m = Matcher::new(rules);
    match m.dispatch(kdown(KeyCode::KeyA, Modifiers::cmd() | Modifiers::left_cmd()), None, NOW) {
        Verdict::Replace(Action::SetInputSource { id }) => assert_eq!(id, "first"),
        other => panic!("dispatch gave {:?}", other),
    }
    match m.dispatch(kdown(KeyCode::KeyA, Modifiers::empty()), None, NOW) {
        Verdict::Replace(Action::SetInputSource { id }) => assert_eq!(id, "second"),
        other => panic!("dispatch gave {:?}", other),
    }
}

#[test]
fn scoped_rule_does_not_fire_without_focused_app() {
    let mut rule = hk(KeyCode::KeyK, Modifiers::alt(), Action::SetInputSource { id: "x".into() });
    rule.when_app_in = Some(vec!["ghostty".to_string()]);
    let mut m = Matcher::new(RuleSet::new(vec![rule]));
    assert!(matches!(m.dispatch(kdown(KeyCode::KeyK, Modifiers::alt()), None, NOW), Verdict::Pass));
}

#[test]
fn key_up_and_modifier_changes_do_not_trigger_hotkeys() {
    let mut m = Matcher::new(RuleSet::new(vec![hk(
        KeyCode::LeftAlt,
        Modifiers::empty(),
        Action::SetInputSource { id: "x".into() },
    )]));
    let change = KeyEvent {
        code: KeyCode::LeftAlt,
        kind: EventKind::ModifiersChanged,
        mods: Modifiers::alt() | Modifiers::left_alt(),
    };
    assert!(matches!(m.dispatch(change, None, NOW), Verdict::Pass));
    assert!(matches!(m.dispatch(kup(KeyCode::LeftAlt, Modifiers::empty()), None, NOW), Verdict::Pass));
}

#[test]
fn non_modifier_key_breaks_a_tap_sequence() {
    let rule = Rule {
        trigger: Trigger::Tap(TapTrigger {
            tap: KeyCode::LeftShift,
            count: 2,
            within_ms: 600,
        }),
        action: Action::SetInputSource { id: "x".into() },
        when_app_in: None,
    };
    let mut m = Matcher::new(RuleSet::new(vec![rule]));
    let mk = |mods: Modifiers| KeyEvent {
        code: KeyCode::LeftShift,
        kind: EventKind::ModifiersChanged,
        mods,
    };
    let down = Modifiers::shift() | Modifiers::left_shift();
    assert!(matches!(m.dispatch(mk(down), None, NOW), Verdict::Pass));
    assert!(matches!(m.dispatch(mk(Modifiers::empty()), None, NOW + 50), Verdict::Pass));
    assert_eq!(m.tap_count(KeyCode::LeftShift), 1);
    assert!(matches!(m.dispatch(kdown(KeyCode::KeyA, Modifiers::empty()), None, NOW + 80), Verdict::Pass));
    assert_eq!(m.tap_count(KeyCode::LeftShift), 0);
    assert!(matches!(m.dispatch(mk(down), None, NOW + 100), Verdict::Pass));
    assert!(matches!(m.dispatch(mk(Modifiers::empty()), None, NOW + 150), Verdict::Pass));
    assert!(matches!(m.dispatch(mk(down), None, NOW + 200), Verdict::Pass));
    assert!(matches!(m.dispatch(mk(Modifiers::empty()), None, NOW + 250), Verdict::Replace(_)));
}

#[test]
fn swap_rules_replaces_rules_and_forgets_pending_key_ups() {
    let mut m = Matcher::new(RuleSet::new(vec![hk(
        KeyCode::KeyK,
        Modifiers::alt(),
        Action::SetInputSource { id: "x".into() },
    )]));
    assert!(matches!(m.dispatch(kdown(KeyCode::KeyK, Modifiers::alt()), None, NOW), Verdict::Replace(_)));
    m.swap_rules(RuleSet::new(vec![]));
    assert_eq!(m.rules().len(), 0);
    assert!(matches!(m.dispatch(kup(KeyCode::KeyK, Modifiers::alt()), None, NOW + 10), Verdict::Pass));
    assert!(matches!(m.dispatch(kdown(KeyCode::KeyK, Modifiers::alt()), None, NOW + 20), Verdict::Pass));
}

#[test]
fn empty_rule_set_passes_everything() {
    let mut m = Matcher::new(RuleSet::new(vec![]));
    for ev in [
        kdown(KeyCode::KeyA, Modifiers::cmd()),
        kup(KeyCode::KeyA, Modifiers::cmd()),
        KeyEvent {
            code: KeyCode::RightCmd,
            kind: EventKind::ModifiersChanged,
            mods: Modifiers::cmd() | Modifiers::right_cmd(),
        },
    ] {
        assert!(matches!(m.dispatch(ev, Some("app"), NOW), Verdict::Pass));
    }
}

#[test]
fn verdicts_map_to_backend_verdicts() {
    assert!(matches!(Verdict::Pass.into_backend(), (BackendVerdict::Pass, None)));
    assert!(matches!(Verdict::Swallow.into_backend(), (BackendVerdict::Swallow, None)));
    match Verdict::Replace(Action::SetInputSource { id: "us".into() }).into_backend() {
        (BackendVerdict::Swallow, Some(Action::SetInputSource { id })) => assert_eq!(id, "us"),
        other => panic!("unexpected: {other:?}"),
    }
}

#[test]
fn helper_predicates() {
    let trig = HotkeyTrigger {
        key: KeyCode::KeyK,
        mods: Modifiers::alt(),
    };
    assert!(RuleSet::__hotkey_matches(&trig, kdown(KeyCode::KeyK, Modifiers::alt() | Modifiers::shift())));
    assert!(!RuleSet::__hotkey_matches(&trig, kup(KeyCode::KeyK, Modifiers::alt())));
    let mut rule = hk(KeyCode::KeyK, Modifiers::alt(), Action::SetInputSource { id: "x".into() });
    assert!(RuleSet::__scope_matches(&rule, None));
    rule.when_app_in = Some(vec!["a".into(), "b".into()]);
    assert!(RuleSet::__scope_matches(&rule, Some("b")));
    assert!(!RuleSet::__scope_matches(&rule, Some("c")));
    assert!(!RuleSet::__scope_matches(&rule, None));
}

fn tap_rule(count: u32, within_ms: u32) -> Rule {
    Rule {
        trigger: Trigger::Tap(TapTrigger { tap: KeyCode::RightAlt, count, within_ms }),
        action: Action::SetInputSource { id: "tap".into() },
        when_app_in: None,
    }
}

/// Taps of RightAlt released at the given offsets; the verdict of each release.
fn release_verdicts(m: &mut Matcher, releases: &[u64]) -> Vec<bool> {
    let down = Modifiers::alt() | Modifiers::right_alt();
    let mk = |mods: Modifiers| KeyEvent { code: KeyCode::RightAlt, kind: EventKind::ModifiersChanged, mods };
    releases
        .iter()
        .map(|&t| {
            assert!(matches!(m.dispatch(mk(down), None, NOW + t - 40), Verdict::Pass));
            matches!(m.dispatch(mk(Modifiers::empty()), None, NOW + t), Verdict::Replace(_))
        })
        .collect()
}

#[test]
fn taps_further_apart_than_within_ms_do_not_fire() {
    let mut m = Matcher::new(RuleSet::new(vec![tap_rule(3, 100)]));
    assert_eq!(release_verdicts(&mut m, &[100, 250, 400]), vec![false, false, false]);
}

#[test]
fn within_ms_longer_than_the_counting_window_is_honored() {
    let mut m = Matcher::new(RuleSet::new(vec![tap_rule(3, 1000)]));
    assert_eq!(release_verdicts(&mut m, &[100, 1000, 1900]), vec![false, false, true]);
    // The machine itself restarted its count after each long pause.
    assert_eq!(m.tap_count(KeyCode::RightAlt), 1);
}

#[test]
fn a_slow_tap_starts_the_run_over() {
    let mut m = Matcher::new(RuleSet::new(vec![tap_rule(2, 300)]));
    assert_eq!(release_verdicts(&mut m, &[100, 600, 700]), vec![false, false, true]);
}

#[test]
fn each_rule_uses_its_own_window() {
    let fast = tap_rule(2, 100);
    let slow = Rule { action: Action::SetInputSource { id: "slow".into() }, ..tap_rule(2, 500) };
    let mut m = Matcher::new(RuleSet::new(vec![fast, slow]));
    let down = Modifiers::alt() | Modifiers::right_alt();
    let mk = |mods: Modifiers| KeyEvent { code: KeyCode::RightAlt, kind: EventKind::ModifiersChanged, mods };
    m.dispatch(mk(down), None, NOW);
    m.dispatch(mk(Modifiers::empty()), None, NOW + 50);
    m.dispatch(mk(down), None, NOW + 300);
    match m.dispatch(mk(Modifiers::empty()), None, NOW + 350) {
        Verdict::Replace(Action::SetInputSource { id }) => assert_eq!(id, "slow"),
        other => panic!("dispatch gave {:?}", other),
    }
}

#[test]
fn fn_double_tap_fires() {
    let rule = Rule {
        trigger: Trigger::Tap(TapTrigger { tap: KeyCode::Fn, count: 2, within_ms: 600 }),
        action: Action::SendKey { key: KeyCode::Return, mods: Modifiers::ctrl() },
        when_app_in: None,
    };
    let mut m = Matcher::new(RuleSet::new(vec![rule]));
    let mk = |mods: Modifiers| KeyEvent { code: KeyCode::Fn, kind: EventKind::ModifiersChanged, mods };
    assert!(matches!(m.dispatch(mk(Modifiers::fn_key()), None, NOW), Verdict::Pass));
    assert!(matches!(m.dispatch(mk(Modifiers::empty()), None, NOW + 50), Verdict::Pass));
    assert!(matches!(m.dispatch(mk(Modifiers::fn_key()), None, NOW + 100), Verdict::Pass));
    match m.dispatch(mk(Modifiers::empty()), None, NOW + 150) {
        Verdict::Replace(Action::SendKey { key, mods }) => {
            assert_eq!(key, KeyCode::Return);
            assert_eq!(mods, Modifiers::ctrl());
        }
        other => panic!("dispatch gave {:?}", other),
    }
}
