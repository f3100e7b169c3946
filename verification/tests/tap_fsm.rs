use sledge::event::{KeyCode, Modifiers};
use sledge::tap_fsm::{TapFsm, TapResult};

const BASE: u64 = 1_000_000;

fn t(ms: u64) -> u64 {
    BASE + ms
}

#[test]
fn single_tap_counts_as_one() {
    let mut fsm = TapFsm::new();
    let r1 = fsm.on_modifier_change(KeyCode::RightAlt, false, Modifiers::right_alt() | Modifiers::alt(), t(0));
    let r2 = fsm.on_modifier_change(KeyCode::RightAlt, true, Modifiers::empty(), t(50));
    assert_eq!(r1, TapResult::NoTap);
    assert_eq!(
        r2,
        TapResult::Tapped {
            key: KeyCode::RightAlt,
            count: 1,
        }
    );
}

#[test]
fn triple_tap_increments_count() {
    let mut fsm = TapFsm::new();
    for (i, ms) in [(false, 0u64), (true, 50), (false, 100), (true, 150), (false, 200), (true, 250)]
        .iter()
        .enumerate()
    {
        let was_down = ms.0;
        let at = t(ms.1);
        let mods = if was_down {
            Modifiers::empty()
        } else {
            Modifiers::right_alt() | Modifiers::alt()
        };
        let r = fsm.on_modifier_change(KeyCode::RightAlt, was_down, mods, at);
        if i % 2 == 1 {
            let expected = (u32::try_from(i).unwrap() / 2) + 1;
            assert_eq!(
                r,
                TapResult::Tapped {
                    key: KeyCode::RightAlt,
                    count: expected,
                }
            );
        }
    }
}

#[test]
fn another_key_resets_count() {
    let mut fsm = TapFsm::new();
    fsm.on_modifier_change(KeyCode::RightAlt, false, Modifiers::right_alt() | Modifiers::alt(), t(0));
    fsm.on_modifier_change(KeyCode::RightAlt, true, Modifiers::empty(), t(50));
    fsm.on_other_key();
    let r = fsm.on_modifier_change(KeyCode::RightAlt, false, Modifiers::right_alt() | Modifiers::alt(), t(100));
    let r2 = fsm.on_modifier_change(KeyCode::RightAlt, true, Modifiers::empty(), t(150));
    assert_eq!(r, TapResult::NoTap);
    assert_eq!(
        r2,
        TapResult::Tapped {
            key: KeyCode::RightAlt,
            count: 1,
        }
    );
}

#[test]
fn holding_other_modifier_does_not_count() {
    let mut fsm = TapFsm::new();
    let r = fsm.on_modifier_change(
        KeyCode::RightAlt,
        false,
        Modifiers::right_alt() | Modifiers::alt() | Modifiers::shift() | Modifiers::left_shift(),
        t(0),
    );
    let r2 = fsm.on_modifier_change(KeyCode::RightAlt, true, Modifiers::shift() | Modifiers::left_shift(), t(50));
    assert_eq!(r, TapResult::NoTap);
    assert_eq!(r2, TapResult::NoTap);
}

#[test]
fn slow_second_tap_starts_a_new_sequence() {
    let mut fsm = TapFsm::new();
    let down = Modifiers::left_cmd() | Modifiers::cmd();
    fsm.on_modifier_change(KeyCode::LeftCmd, false, down, t(0));
    fsm.on_modifier_change(KeyCode::LeftCmd, true, Modifiers::empty(), t(50));
    fsm.on_modifier_change(KeyCode::LeftCmd, false, down, t(700));
    let at_window = fsm.on_modifier_change(KeyCode::LeftCmd, true, Modifiers::empty(), t(850));
    assert_eq!(at_window, TapResult::Tapped { key: KeyCode::LeftCmd, count: 2 });
    fsm.on_modifier_change(KeyCode::LeftCmd, false, down, t(1500));
    let late = fsm.on_modifier_change(KeyCode::LeftCmd, true, Modifiers::empty(), t(1651));
    assert_eq!(late, TapResult::Tapped { key: KeyCode::LeftCmd, count: 1 });
    assert_eq!(fsm.tap_count(KeyCode::LeftCmd), 1);
    assert_eq!(fsm.tap_count(KeyCode::RightCmd), 0);
}

#[test]
fn key_pressed_during_hold_taints_the_tap() {
    let mut fsm = TapFsm::new();
    fsm.on_modifier_change(KeyCode::LeftCtrl, false, Modifiers::left_ctrl() | Modifiers::ctrl(), t(0));
    fsm.on_other_key();
    let r = fsm.on_modifier_change(KeyCode::LeftCtrl, true, Modifiers::empty(), t(40));
    assert_eq!(r, TapResult::NoTap);
    fsm.on_modifier_change(KeyCode::LeftCtrl, false, Modifiers::left_ctrl() | Modifiers::ctrl(), t(60));
    let r = fsm.on_modifier_change(KeyCode::LeftCtrl, true, Modifiers::empty(), t(90));
    assert_eq!(r, TapResult::Tapped { key: KeyCode::LeftCtrl, count: 1 });
}

#[test]
fn fn_taps_count_and_caps_lock_never_completes_a_tap() {
    let mut fsm = TapFsm::new();
    assert_eq!(fsm.on_modifier_change(KeyCode::Fn, false, Modifiers::fn_key(), t(0)), TapResult::NoTap);
    assert_eq!(
        fsm.on_modifier_change(KeyCode::Fn, true, Modifiers::empty(), t(20)),
        TapResult::Tapped { key: KeyCode::Fn, count: 1 }
    );
    assert_eq!(fsm.on_modifier_change(KeyCode::CapsLock, false, Modifiers::empty(), t(100)), TapResult::NoTap);
    assert_eq!(fsm.on_modifier_change(KeyCode::CapsLock, true, Modifiers::empty(), t(120)), TapResult::NoTap);
}

#[test]
fn tapping_a_different_modifier_resets_the_count() {
    let mut fsm = TapFsm::new();
    let alt = Modifiers::right_alt() | Modifiers::alt();
    let shift = Modifiers::left_shift() | Modifiers::shift();
    assert_eq!(fsm.on_modifier_change(KeyCode::RightAlt, false, alt, t(0)), TapResult::NoTap);
    assert_eq!(
        fsm.on_modifier_change(KeyCode::RightAlt, true, Modifiers::empty(), t(50)),
        TapResult::Tapped { key: KeyCode::RightAlt, count: 1 }
    );
    assert_eq!(fsm.on_modifier_change(KeyCode::LeftShift, false, shift, t(100)), TapResult::NoTap);
    assert_eq!(
        fsm.on_modifier_change(KeyCode::LeftShift, true, Modifiers::empty(), t(150)),
        TapResult::Tapped { key: KeyCode::LeftShift, count: 1 }
    );
    assert_eq!(fsm.on_modifier_change(KeyCode::RightAlt, false, alt, t(200)), TapResult::NoTap);
    assert_eq!(
        fsm.on_modifier_change(KeyCode::RightAlt, true, Modifiers::empty(), t(250)),
        TapResult::Tapped { key: KeyCode::RightAlt, count: 1 }
    );
}

#[test]
fn last_gap_measures_release_to_release() {
    let mut fsm = TapFsm::new();
    let down = Modifiers::right_shift() | Modifiers::shift();
    assert_eq!(fsm.last_gap(KeyCode::RightShift), None);
    fsm.on_modifier_change(KeyCode::RightShift, false, down, t(0));
    fsm.on_modifier_change(KeyCode::RightShift, true, Modifiers::empty(), t(30));
    assert_eq!(fsm.last_gap(KeyCode::RightShift), None);
    fsm.on_modifier_change(KeyCode::RightShift, false, down, t(900));
    fsm.on_modifier_change(KeyCode::RightShift, true, Modifiers::empty(), t(930));
    // The pause restarted the count, but the gap is still measured.
    assert_eq!(fsm.tap_count(KeyCode::RightShift), 1);
    assert_eq!(fsm.last_gap(KeyCode::RightShift), Some(900));
    fsm.on_other_key();
    assert_eq!(fsm.last_gap(KeyCode::RightShift), None);
}
