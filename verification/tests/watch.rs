use sledge::watch::{debounce_step, event_matches, ChangeKind, WatchInput, WatchStep, DEBOUNCE_MS};

fn names(items: &[Option<&str>]) -> Vec<Option<String>> {
    items.iter().map(|n| n.map(str::to_string)).collect()
}

#[test]
fn content_changes_to_the_config_match() {
    let paths = names(&[Some(".config.toml.swp"), Some("config.toml")]);
    assert!(event_matches(ChangeKind::Create, &paths, "config.toml"));
    assert!(event_matches(ChangeKind::Modify, &paths, "config.toml"));
    assert!(event_matches(ChangeKind::Remove, &paths, "config.toml"));
}

#[test]
fn other_kinds_never_match() {
    let paths = names(&[Some("config.toml")]);
    assert!(!event_matches(ChangeKind::Other, &paths, "config.toml"));
}

#[test]
fn changes_to_other_files_do_not_match() {
    let paths = names(&[Some("other.toml"), None]);
    assert!(!event_matches(ChangeKind::Modify, &paths, "config.toml"));
    assert!(!event_matches(ChangeKind::Modify, &names(&[]), "config.toml"));
}

#[test]
fn a_burst_of_notifications_reloads_once() {
    let hit = |t| WatchInput::Notified { matches: true, now_ms: t };
    let miss = |t| WatchInput::Notified { matches: false, now_ms: t };
    assert_eq!(DEBOUNCE_MS, 250);
    assert_eq!(debounce_step(None, miss(10)), (None, WatchStep::Wait));
    assert_eq!(debounce_step(None, WatchInput::Quiet { now_ms: 10 }), (None, WatchStep::Wait));
    let (p, s) = debounce_step(None, hit(1000));
    assert_eq!((p, s), (Some(1250), WatchStep::WaitUntil(1250)));
    let (p, s) = debounce_step(p, hit(1100));
    assert_eq!((p, s), (Some(1250), WatchStep::WaitUntil(1250)));
    let (p, s) = debounce_step(p, miss(1249));
    assert_eq!((p, s), (Some(1250), WatchStep::WaitUntil(1250)));
    let (p, s) = debounce_step(p, WatchInput::Quiet { now_ms: 1250 });
    assert_eq!((p, s), (None, WatchStep::Reload));
    assert_eq!(debounce_step(None, hit(u64::MAX - 10)), (Some(u64::MAX), WatchStep::WaitUntil(u64::MAX)));
}
