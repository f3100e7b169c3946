use sledge::action::Action;
use sledge::config::{
    app_for_match, keycode_from_name, validation_summary, mod_from_name, resolve_alias, resolve_logical, validate,
    validate_log_level, ConfigError, Platform,
};
use sledge::config_models::{
    default_log_level, ActionDoc, AliasTable, AppAlias, BindingDoc, ConfigDoc, DaemonSection, TriggerDoc, WhenDoc,
};
use sledge::event::{KeyCode, Modifiers};
use sledge::trigger::Trigger;

fn strings(items: &[&str]) -> Vec<String> {
    items.iter().map(|s| s.to_string()).collect()
}

fn hotkey(key: &str, mods: &[&str]) -> TriggerDoc {
    TriggerDoc::Hotkey {
        key: key.to_string(),
        mods: strings(mods),
    }
}

fn send_key(key: &str, mods: &[&str]) -> ActionDoc {
    ActionDoc::SendKey {
        key: key.to_string(),
        mods: strings(mods),
    }
}

fn binding(trigger: TriggerDoc, action: ActionDoc) -> BindingDoc {
    BindingDoc {
        when: None,
        trigger,
        action,
    }
}

fn doc(bindings: Vec<BindingDoc>) -> ConfigDoc {
    ConfigDoc {
        daemon: DaemonSection::default(),
        app_aliases: AliasTable::new(),
        bindings,
    }
}

/// The document of the annotated example configuration.
fn example() -> ConfigDoc {
    let mut aliases = AliasTable::new();
    aliases.insert(
        "ghostty".to_string(),
        AppAlias {
            macos: Some("com.mitchellh.ghostty".to_string()),
            linux: None,
            windows: None,
        },
    );
    ConfigDoc {
        daemon: DaemonSection {
            log_level: "debug".to_string(),
        },
        app_aliases: aliases,
        bindings: vec![
            binding(
                hotkey("Digit1", &["cmd", "alt"]),
                ActionDoc::SetInputSource {
                    id: "com.apple.keylayout.US".to_string(),
                },
            ),
            binding(
                TriggerDoc::Tap {
                    tap: "RightAlt".to_string(),
                    count: 3,
                    within_ms: 600,
                },
                send_key("Return", &["ctrl"]),
            ),
            BindingDoc {
                when: Some(WhenDoc {
                    app_in: strings(&["ghostty"]),
                }),
                trigger: hotkey("Semicolon", &["ctrl"]),
                action: send_key("KeyS", &["ctrl"]),
            },
        ],
    }
}

#[test]
fn parses_example() {
    let cfg = validate(example()).expect("parse ok");
    assert_eq!(cfg.daemon.log_level, "debug");
    assert_eq!(cfg.rules.len(), 3);
}

#[test]
fn unknown_key_errors() {
    let err = validate(doc(vec![binding(hotkey("KeyBogus", &[]), send_key("Return", &[]))])).unwrap_err();
    assert!(matches!(err, ConfigError::UnknownKey { .. }));
}

#[test]
fn tap_count_too_low_errors() {
    let err = validate(doc(vec![binding(
        TriggerDoc::Tap {
            tap: "RightAlt".to_string(),
            count: 1,
            within_ms: 600,
        },
        send_key("Return", &[]),
    )]))
    .unwrap_err();
    assert!(matches!(err, ConfigError::TapCountTooLow { .. }));
}

#[test]
fn tap_non_modifier_errors() {
    let err = validate(doc(vec![binding(
        TriggerDoc::Tap {
            tap: "KeyA".to_string(),
            count: 3,
            within_ms: 600,
        },
        send_key("Return", &[]),
    )]))
    .unwrap_err();
    assert!(matches!(err, ConfigError::TapNotModifier { .. }));
}

#[test]
fn unknown_alias_errors() {
    let err = validate(doc(vec![BindingDoc {
        when: Some(WhenDoc {
            app_in: strings(&["ghostty"]),
        }),
        trigger: hotkey("KeyK", &["alt"]),
        action: send_key("KeyT", &["alt"]),
    }]))
    .unwrap_err();
    assert!(matches!(err, ConfigError::UnknownAlias { .. }));
}

#[test]
fn resolves_alias_per_platform() {
    let mut aliases = AliasTable::new();
    aliases.insert(
        "ghostty".to_string(),
        AppAlias {
            macos: Some("com.mitchellh.ghostty".into()),
            linux: None,
            windows: None,
        },
    );
    assert_eq!(
        resolve_alias(&aliases, "ghostty", Platform::MacOS),
        Some("com.mitchellh.ghostty")
    );
    assert_eq!(resolve_alias(&aliases, "ghostty", Platform::Linux), None);
    assert_eq!(resolve_alias(&aliases, "missing", Platform::MacOS), None);
}

#[test]
fn example_compiles_to_the_expected_rules() {
    let cfg = validate(example()).unwrap();
    let rules = cfg.rules.iter();
    assert!(matches!(
        rules[0].trigger,
        Trigger::Hotkey(h) if h.key == KeyCode::Digit1 && h.mods == (Modifiers::cmd() | Modifiers::alt())
    ));
    assert!(matches!(&rules[0].action, Action::SetInputSource { id } if id == "com.apple.keylayout.US"));
    assert!(rules[0].when_app_in.is_none());
    assert!(matches!(
        rules[1].trigger,
        Trigger::Hotkey(h) if h.key == KeyCode::Semicolon && h.mods == Modifiers::ctrl()
    ));
    assert_eq!(rules[1].when_app_in, Some(vec!["ghostty".to_string()]));
    assert!(matches!(
        rules[2].trigger,
        Trigger::Tap(t) if t.tap == KeyCode::RightAlt && t.count == 3 && t.within_ms == 600
    ));
    assert!(matches!(
        &rules[2].action,
        Action::SendKey { key: KeyCode::Return, mods } if *mods == Modifiers::ctrl()
    ));
    assert_eq!(cfg.app_aliases.len(), 1);
}

#[test]
fn invalid_log_level_errors_before_bindings() {
    let mut d = doc(vec![binding(hotkey("KeyBogus", &[]), send_key("Return", &[]))]);
    d.daemon.log_level = "verbose".to_string();
    assert_eq!(validate(d).unwrap_err(), ConfigError::InvalidLogLevel("verbose".to_string()));
    for level in ["trace", "debug", "info", "warn", "error"] {
        assert!(validate_log_level(&level.to_string()).is_ok());
    }
    assert_eq!(default_log_level(), "info");
    assert_eq!(DaemonSection::default().log_level, "info");
}

#[test]
fn first_failing_binding_is_reported_with_its_index() {
    let err = validate(doc(vec![
        binding(hotkey("KeyA", &["cmd"]), send_key("KeyB", &[])),
        binding(hotkey("KeyA", &["hyper"]), send_key("Nope", &[])),
        binding(hotkey("Nope", &[]), send_key("KeyB", &[])),
    ]))
    .unwrap_err();
    assert_eq!(
        err,
        ConfigError::UnknownModifier {
            name: "hyper".to_string(),
            index: 1
        }
    );
}

#[test]
fn trigger_errors_come_before_action_errors() {
    let err = validate(doc(vec![binding(hotkey("Bad1", &[]), send_key("Bad2", &[]))])).unwrap_err();
    assert_eq!(
        err,
        ConfigError::UnknownKey {
            name: "Bad1".to_string(),
            index: 0
        }
    );
    let err = validate(doc(vec![binding(hotkey("KeyA", &[]), send_key("Bad2", &[]))])).unwrap_err();
    assert_eq!(
        err,
        ConfigError::UnknownKey {
            name: "Bad2".to_string(),
            index: 0
        }
    );
}

#[test]
fn tap_checks_come_in_order() {
    let tap = |name: &str, count: u32, within_ms: u32| {
        doc(vec![binding(
            TriggerDoc::Tap {
                tap: name.to_string(),
                count,
                within_ms,
            },
            send_key("Return", &[]),
        )])
    };
    assert_eq!(
        validate(tap("KeyA", 1, 0)).unwrap_err(),
        ConfigError::TapNotModifier {
            index: 0,
            name: "KeyA".to_string()
        }
    );
    assert_eq!(
        validate(tap("LeftShift", 1, 0)).unwrap_err(),
        ConfigError::TapCountTooLow { index: 0, count: 1 }
    );
    assert_eq!(
        validate(tap("LeftShift", 2, 0)).unwrap_err(),
        ConfigError::TapWindowZero { index: 0 }
    );
    assert!(validate(tap("LeftShift", 2, 1)).is_ok());
}

#[test]
fn key_and_modifier_names() {
    assert_eq!(keycode_from_name("KeyA"), Some(KeyCode::KeyA));
    assert_eq!(keycode_from_name("F24"), Some(KeyCode::F24));
    assert_eq!(keycode_from_name("Insert"), Some(KeyCode::Insert));
    assert_eq!(keycode_from_name("keya"), None);
    assert_eq!(keycode_from_name(""), None);
    assert_eq!(mod_from_name("meta"), Some(Modifiers::cmd()));
    assert_eq!(mod_from_name("super"), Some(Modifiers::cmd()));
    assert_eq!(mod_from_name("right_alt"), Some(Modifiers::right_alt() | Modifiers::alt()));
    assert_eq!(mod_from_name("Ctrl"), None);
}

#[test]
fn alias_table_behaves_like_a_map() {
    let mut t = AliasTable::new();
    assert!(t.insert("a".into(), AppAlias::default()).is_none());
    let prev = t.insert(
        "a".into(),
        AppAlias {
            macos: Some("m".into()),
            linux: None,
            windows: None,
        },
    );
    assert!(prev.is_some());
    assert_eq!(t.len(), 1);
    assert!(t.contains_key("a"));
    assert!(!t.contains_key("b"));
    assert_eq!(t.get("a").unwrap().macos.as_deref(), Some("m"));
    assert!(t.get("b").is_none());
}

#[test]
fn logical_names_resolve_from_bundle_ids() {
    let cfg = validate(example()).unwrap();
    assert_eq!(resolve_logical(&cfg.app_aliases, "com.mitchellh.ghostty"), Some("ghostty".to_string()));
    assert_eq!(resolve_logical(&cfg.app_aliases, "com.apple.Safari"), None);
    assert_eq!(app_for_match(&cfg.app_aliases, Some("com.mitchellh.ghostty")), Some("ghostty".to_string()));
    assert_eq!(app_for_match(&cfg.app_aliases, Some("com.apple.Safari")), Some("com.apple.Safari".to_string()));
    assert_eq!(app_for_match(&cfg.app_aliases, None), None);
}

#[test]
fn alias_without_macos_identifier_is_refused() {
    let mut d = doc(vec![BindingDoc {
        when: Some(WhenDoc {
            app_in: strings(&["kitty"]),
        }),
        trigger: hotkey("KeyK", &["alt"]),
        action: send_key("KeyT", &["alt"]),
    }]);
    d.app_aliases.insert(
        "kitty".to_string(),
        AppAlias {
            macos: None,
            linux: Some("kitty".to_string()),
            windows: None,
        },
    );
    let err = validate(d).unwrap_err();
    assert_eq!(
        err,
        ConfigError::UnknownAlias {
            name: "kitty".to_string(),
            index: 0
        }
    );
}

#[test]
fn summary_of_the_example() {
    let cfg = validate(example()).unwrap();
    assert_eq!(validation_summary(&cfg), "OK: 3 rule(s), 1 alias(es), log_level=debug");
}

#[test]
fn key_names_read_back() {
    for k in [
        KeyCode::KeyA,
        KeyCode::Digit7,
        KeyCode::F13,
        KeyCode::ArrowLeft,
        KeyCode::RightCmd,
        KeyCode::CapsLock,
        KeyCode::Backquote,
        KeyCode::LeftBracket,
        KeyCode::PageDown,
    ] {
        assert_eq!(keycode_from_name(k.name()), Some(k));
    }
}

#[test]
fn platform_from_target_name() {
    assert_eq!(Platform::for_target_os("linux"), Platform::Linux);
    assert_eq!(Platform::for_target_os("windows"), Platform::Windows);
    assert_eq!(Platform::for_target_os("macos"), Platform::MacOS);
    assert_eq!(Platform::for_target_os("freebsd"), Platform::MacOS);
}
