use sledge::action::Action;
use sledge::config::{apply_reload, validate, ConfigError};
use sledge::config_models::{ActionDoc, AliasTable, BindingDoc, ConfigDoc, DaemonSection, TriggerDoc};
use sledge::event::{EventKind, KeyCode, KeyEvent, Modifiers};
use sledge::rule::{Matcher, Rule, RuleSet, Verdict};
use sledge::trigger::{HotkeyTrigger, Trigger};

const NOW: u64 = 1_000_000;

fn down(code: KeyCode, mods: Modifiers) -> KeyEvent {
    KeyEvent { code, kind: EventKind::KeyDown, mods }
}

fn up(code: KeyCode, mods: Modifiers) -> KeyEvent {
    KeyEvent { code, kind: EventKind::KeyUp, mods }
}

fn matcher_with_k_rule() -> Matcher {
    Matcher::new(RuleSet::new(vec![Rule {
        trigger: Trigger::Hotkey(HotkeyTrigger { key: KeyCode::KeyK, mods: Modifiers::alt() }),
        action: Action::SetInputSource { id: "old".into() },
        when_app_in: None,
    }]))
}

fn doc_with_two_bindings() -> ConfigDoc {
    let b = |key: &str| BindingDoc {
        when: None,
        trigger: TriggerDoc::Hotkey { key: key.to_string(), mods: vec!["cmd".to_string()] },
        action: ActionDoc::SetInputSource { id: "new".to_string() },
    };
    ConfigDoc { daemon: DaemonSection::default(), app_aliases: AliasTable::new(), bindings: vec![b("KeyJ"), b("KeyL")] }
}

#[test]
fn failed_reload_keeps_the_old_rules_and_state() {
    let mut m = matcher_with_k_rule();
    assert!(matches!(m.dispatch(down(KeyCode::KeyK, Modifiers::alt()), None, NOW), Verdict::Replace(_)));
    let err = ConfigError::InvalidLogLevel("loud".to_string());
    assert_eq!(apply_reload(&mut m, Err(err.clone())), Err(err));
    assert_eq!(m.rules().len(), 1);
    // The pending key-up of the replaced key-down is still swallowed.
    assert!(matches!(m.dispatch(up(KeyCode::KeyK, Modifiers::alt()), None, NOW + 5), Verdict::Swallow));
    assert!(matches!(m.dispatch(down(KeyCode::KeyK, Modifiers::alt()), None, NOW + 10), Verdict::Replace(_)));
}

#[test]
fn successful_reload_swaps_the_rules_in() {
    let mut m = matcher_with_k_rule();
    assert!(matches!(m.dispatch(down(KeyCode::KeyK, Modifiers::alt()), None, NOW), Verdict::Replace(_)));
    let cfg = validate(doc_with_two_bindings()).unwrap();
    assert_eq!(apply_reload(&mut m, Ok(cfg)), Ok(2));
    assert_eq!(m.rules().len(), 2);
    assert!(matches!(m.dispatch(up(KeyCode::KeyK, Modifiers::alt()), None, NOW + 5), Verdict::Pass));
    assert!(matches!(m.dispatch(down(KeyCode::KeyK, Modifiers::alt()), None, NOW + 10), Verdict::Pass));
    match m.dispatch(down(KeyCode::KeyJ, Modifiers::cmd()), None, NOW + 20) {
        Verdict::Replace(Action::SetInputSource { id }) => assert_eq!(id, "new"),
        other => panic!("dispatch gave {:?}", other),
    }
}
