use sledge::backend::BackendError;
use sledge::event::{EventKind, KeyCode, Modifiers};
use sledge::mac::{
    event_for_engine, flags_to_mods, permission_report, preflight, from_cg_keycode, input_source_outcome, mods_to_cg_flags, plan_keystroke,
    to_cg_keycode, translate, InputSourceProbe, PermissionStatus, SLEDGE_EVENT_SOURCE_TAG,
};

#[test]
fn roundtrip_common_keys() {
    for k in [
        KeyCode::KeyA,
        KeyCode::Return,
        KeyCode::RightAlt,
        KeyCode::Semicolon,
        KeyCode::Digit1,
        KeyCode::F1,
        KeyCode::ArrowUp,
    ] {
        let cg = to_cg_keycode(k);
        assert_eq!(from_cg_keycode(cg), Some(k), "roundtrip failed for {k:?}");
    }
}

#[test]
fn f21_to_f24_have_no_virtual_key_code() {
    for k in [KeyCode::F21, KeyCode::F22, KeyCode::F23, KeyCode::F24] {
        assert_eq!(to_cg_keycode(k), 0);
        assert_eq!(from_cg_keycode(0), Some(KeyCode::KeyA));
    }
    assert_eq!(from_cg_keycode(0x7F), None);
    assert_eq!(to_cg_keycode(KeyCode::Escape), 0x35);
}

#[test]
fn flags_to_mods_empty() {
    assert_eq!(flags_to_mods(0), Modifiers::empty());
}

#[test]
fn flags_to_mods_left_alt() {
    let m = flags_to_mods(0x80120);
    assert!(m.contains(Modifiers::alt()));
    assert!(m.contains(Modifiers::left_alt()));
    assert!(!m.contains(Modifiers::right_alt()));
}

#[test]
fn flags_to_mods_right_alt() {
    let m = flags_to_mods(0x80140);
    assert!(m.contains(Modifiers::alt()));
    assert!(m.contains(Modifiers::right_alt()));
    assert!(!m.contains(Modifiers::left_alt()));
}

#[test]
fn flags_to_mods_left_shift() {
    let m = flags_to_mods(0x20102);
    assert!(m.contains(Modifiers::shift()));
    assert!(m.contains(Modifiers::left_shift()));
    assert!(!m.contains(Modifiers::right_shift()));
}

#[test]
fn flags_to_mods_right_shift() {
    let m = flags_to_mods(0x20104);
    assert!(m.contains(Modifiers::shift()));
    assert!(m.contains(Modifiers::right_shift()));
    assert!(!m.contains(Modifiers::left_shift()));
}

#[test]
fn flags_to_mods_left_ctrl() {
    let m = flags_to_mods(0x40101);
    assert!(m.contains(Modifiers::ctrl()));
    assert!(m.contains(Modifiers::left_ctrl()));
    assert!(!m.contains(Modifiers::right_ctrl()));
}

#[test]
fn flags_to_mods_right_ctrl() {
    let m = flags_to_mods(0x42100);
    assert!(m.contains(Modifiers::ctrl()));
    assert!(m.contains(Modifiers::right_ctrl()));
    assert!(!m.contains(Modifiers::left_ctrl()));
}

#[test]
fn flags_to_mods_left_cmd() {
    let m = flags_to_mods(0x100108);
    assert!(m.contains(Modifiers::cmd()));
    assert!(m.contains(Modifiers::left_cmd()));
    assert!(!m.contains(Modifiers::right_cmd()));
}

#[test]
fn flags_to_mods_right_cmd() {
    let m = flags_to_mods(0x100110);
    assert!(m.contains(Modifiers::cmd()));
    assert!(m.contains(Modifiers::right_cmd()));
    assert!(!m.contains(Modifiers::left_cmd()));
}

#[test]
fn flags_to_mods_both_shifts() {
    let m = flags_to_mods(0x20106);
    assert!(m.contains(Modifiers::shift()));
    assert!(m.contains(Modifiers::left_shift()));
    assert!(m.contains(Modifiers::right_shift()));
}

#[test]
fn flags_to_mods_cmd_shift_combo() {
    let m = flags_to_mods(0x12010A);
    assert!(m.contains(Modifiers::cmd()));
    assert!(m.contains(Modifiers::shift()));
    assert!(m.contains(Modifiers::left_cmd()));
    assert!(m.contains(Modifiers::left_shift()));
    assert!(!m.contains(Modifiers::alt()));
    assert!(!m.contains(Modifiers::ctrl()));
}

#[test]
fn flags_to_mods_release_is_empty() {
    assert_eq!(flags_to_mods(0x100), Modifiers::empty());
}

#[test]
fn fn_flag_and_exact_bits() {
    assert_eq!(flags_to_mods(0x800000), Modifiers::fn_key());
    assert_eq!(flags_to_mods(0x80140).bits(), 0x4 | 0x2000);
}

#[test]
fn posted_flags_carry_generic_bits_only() {
    let m = Modifiers::ctrl() | Modifiers::left_ctrl() | Modifiers::shift() | Modifiers::fn_key();
    let f = mods_to_cg_flags(m);
    assert_eq!(f, 0x40000 | 0x20000 | 0x800000);
    assert_eq!(flags_to_mods(f), Modifiers::ctrl() | Modifiers::shift() | Modifiers::fn_key());
    assert_eq!(mods_to_cg_flags(Modifiers::empty()), 0);
}

#[test]
fn keystroke_plan() {
    assert_eq!(plan_keystroke(KeyCode::Return, Modifiers::ctrl()), Ok((0x24, 0x40000)));
    assert_eq!(
        plan_keystroke(KeyCode::F21, Modifiers::empty()),
        Err(BackendError::Inject("no CGKeyCode mapping for F21".to_string()))
    );
    assert_eq!(plan_keystroke(KeyCode::KeyA, Modifiers::ctrl()), Ok((0x00, 0x40000)));
}

#[test]
fn translate_raw_events() {
    let e = translate(10, 0x28, 0x80120).unwrap();
    assert_eq!(e.code, KeyCode::KeyK);
    assert_eq!(e.kind, EventKind::KeyDown);
    assert_eq!(e.mods, Modifiers::alt() | Modifiers::left_alt());
    assert_eq!(translate(11, 0x24, 0).unwrap().kind, EventKind::KeyUp);
    assert_eq!(translate(12, 0x3D, 0x80140).unwrap().kind, EventKind::ModifiersChanged);
    assert!(translate(13, 0x24, 0).is_none());
    assert!(translate(10, 0x7F, 0).is_none());
    assert_eq!(translate(10, 0x1_0024, 0).unwrap().code, KeyCode::Return);
}

#[test]
fn input_source_outcomes() {
    assert_eq!(
        input_source_outcome("com.x", InputSourceProbe::NotFound),
        Err(BackendError::UnknownInputSource("com.x".to_string()))
    );
    assert_eq!(
        input_source_outcome("com.x", InputSourceProbe::NotEnabled),
        Err(BackendError::Inject(
            "input source 'com.x' is installed but not enabled. Enable it via System Settings > Keyboard > Text Input > Input Sources."
                .to_string()
        ))
    );
    assert_eq!(input_source_outcome("com.x", InputSourceProbe::SelectStatus(0)), Ok(()));
    assert_eq!(
        input_source_outcome("com.x", InputSourceProbe::SelectStatus(-50)),
        Err(BackendError::Inject("TISSelectInputSource returned -50 for 'com.x'".to_string()))
    );
    assert_eq!(
        input_source_outcome("k", InputSourceProbe::SelectStatus(i32::MIN)),
        Err(BackendError::Inject("TISSelectInputSource returned -2147483648 for 'k'".to_string()))
    );
}

#[test]
fn permission_status_needs_both() {
    assert!(PermissionStatus { accessibility: true, input_monitoring: true }.ok());
    assert!(!PermissionStatus { accessibility: true, input_monitoring: false }.ok());
    assert!(!PermissionStatus { accessibility: false, input_monitoring: true }.ok());
}

#[test]
fn own_events_never_reach_the_engine() {
    assert!(event_for_engine(SLEDGE_EVENT_SOURCE_TAG, 10, 0x28, 0).is_none());
    let e = event_for_engine(0, 10, 0x28, 0).unwrap();
    assert_eq!(e.code, KeyCode::KeyK);
    assert_eq!(e.kind, EventKind::KeyDown);
    assert!(event_for_engine(0, 13, 0x28, 0).is_none());
}

#[test]
fn preflight_names_the_missing_grants() {
    let st = |accessibility, input_monitoring| PermissionStatus { accessibility, input_monitoring };
    assert_eq!(preflight(st(true, true)), Ok(()));
    assert_eq!(preflight(st(false, true)), Err(BackendError::MissingPermission("Accessibility".to_string())));
    assert_eq!(preflight(st(true, false)), Err(BackendError::MissingPermission("Input Monitoring".to_string())));
    assert_eq!(
        preflight(st(false, false)),
        Err(BackendError::MissingPermission("Accessibility and Input Monitoring".to_string()))
    );
}

#[test]
fn permission_report_lines() {
    let st = PermissionStatus { accessibility: false, input_monitoring: true };
    assert_eq!(permission_report(st), vec!["accessibility  : NO", "input monitor  : yes"]);
}
