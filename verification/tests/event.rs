use sledge::event::{KeyCode, Modifiers};

#[test]
fn modifier_bit_is_empty_for_regular_keys() {
    assert_eq!(KeyCode::KeyA.modifier_bit(), Modifiers::empty());
    assert_eq!(KeyCode::Digit1.modifier_bit(), Modifiers::empty());
    assert_eq!(KeyCode::Return.modifier_bit(), Modifiers::empty());
}

#[test]
fn modifier_bit_is_set_for_modifier_keys() {
    assert_eq!(KeyCode::LeftAlt.modifier_bit(), Modifiers::left_alt());
    assert_eq!(KeyCode::RightCmd.modifier_bit(), Modifiers::right_cmd());
}

#[test]
fn modifiers_matches_requires_exact_side_when_set() {
    let state = Modifiers::ctrl() | Modifiers::left_ctrl();
    let want_any = Modifiers::ctrl();
    let want_left = Modifiers::ctrl() | Modifiers::left_ctrl();
    let want_right = Modifiers::ctrl() | Modifiers::right_ctrl();

    assert!(state.matches(want_any));
    assert!(state.matches(want_left));
    assert!(!state.matches(want_right));
}

#[test]
fn every_state_matches_empty_and_itself() {
    let state = Modifiers::shift() | Modifiers::right_shift() | Modifiers::cmd();
    assert!(state.matches(Modifiers::empty()));
    assert!(state.matches(state));
    assert!(Modifiers::empty().matches(Modifiers::empty()));
    assert!(!Modifiers::empty().matches(Modifiers::shift()));
}

#[test]
fn generic_requirement_matches_either_side() {
    let left = Modifiers::alt() | Modifiers::left_alt();
    let right = Modifiers::alt() | Modifiers::right_alt();
    assert!(left.matches(Modifiers::alt()));
    assert!(right.matches(Modifiers::alt()));
    assert!(!left.matches(Modifiers::alt() | Modifiers::right_alt()));
}

#[test]
fn modifier_bits_have_their_values() {
    assert_eq!(Modifiers::ctrl().bits(), 0x1);
    assert_eq!(Modifiers::shift().bits(), 0x2);
    assert_eq!(Modifiers::alt().bits(), 0x4);
    assert_eq!(Modifiers::cmd().bits(), 0x8);
    assert_eq!(Modifiers::fn_key().bits(), 0x10);
    assert_eq!(Modifiers::left_ctrl().bits(), 0x100);
    assert_eq!(Modifiers::right_cmd().bits(), 0x8000);
    assert_eq!((Modifiers::ctrl() | Modifiers::alt()).bits(), 0x5);
    assert_eq!((Modifiers::from_bits_retain(0x7) & Modifiers::alt()).bits(), 0x4);
    assert_eq!((Modifiers::from_bits_retain(0x7) - Modifiers::alt()).bits(), 0x3);
    assert!(Modifiers::empty().is_empty());
    assert!(!Modifiers::empty().any());
    assert!(Modifiers::fn_key().any());
}

#[test]
fn is_modifier_covers_modifier_keys_only() {
    for k in [
        KeyCode::LeftShift,
        KeyCode::RightShift,
        KeyCode::LeftCtrl,
        KeyCode::RightCtrl,
        KeyCode::LeftAlt,
        KeyCode::RightAlt,
        KeyCode::LeftCmd,
        KeyCode::RightCmd,
        KeyCode::Fn,
        KeyCode::CapsLock,
    ] {
        assert!(k.is_modifier(), "{k:?}");
    }
    for k in [KeyCode::KeyA, KeyCode::Space, KeyCode::F24, KeyCode::Insert, KeyCode::Escape] {
        assert!(!k.is_modifier(), "{k:?}");
    }
}

#[test]
fn generic_bit_names_the_family() {
    assert_eq!(KeyCode::RightAlt.generic_bit(), Modifiers::alt());
    assert_eq!(KeyCode::LeftShift.generic_bit(), Modifiers::shift());
    assert_eq!(KeyCode::Fn.generic_bit(), Modifiers::fn_key());
    assert_eq!(KeyCode::Fn.modifier_bit(), Modifiers::empty());
    assert_eq!(KeyCode::CapsLock.generic_bit(), Modifiers::empty());
    assert_eq!(KeyCode::KeyQ.generic_bit(), Modifiers::empty());
}

#[test]
fn names_and_ordinals() {
    assert_eq!(KeyCode::KeyA.name(), "KeyA");
    assert_eq!(KeyCode::RightBracket.name(), "RightBracket");
    assert_eq!(KeyCode::KeyA.ordinal(), 0);
    assert_eq!(KeyCode::Insert.ordinal(), 95);
    assert_ne!(KeyCode::LeftAlt.ordinal(), KeyCode::RightAlt.ordinal());
}
