//! macOS key model: virtual key codes and event flag bits.
//!
//! Carbon virtual key codes (HIToolbox `Events.h`) are what
//! `kCGKeyboardEventKeycode` reports; `CGEventFlags` carries device-independent
//! modifier bits and the device-dependent `NX_DEVICE*KEYMASK` side bits.

use vstd::prelude::*;

use crate::backend::BackendError;
use crate::ipc::{yes_no, yn};
use crate::text::{decimal_of, decimal_string};
use crate::event::{
    EventKind, KeyCode, KeyEvent, Modifiers, MOD_ALT, MOD_CMD, MOD_CTRL, MOD_FN, MOD_LEFT_ALT, MOD_LEFT_CMD,
    MOD_LEFT_CTRL, MOD_LEFT_SHIFT, MOD_RIGHT_ALT, MOD_RIGHT_CMD, MOD_RIGHT_CTRL, MOD_RIGHT_SHIFT, MOD_SHIFT,
};

verus! {

/// Sentinel stamped into the source-userdata field of injected events; the
/// tap passes anything carrying it through unprocessed.
pub const SLEDGE_EVENT_SOURCE_TAG: i64 = 0x0005_1ED6_E001;

/// `CGEventFlags` device-independent bit: Control.
pub const CG_FLAG_CONTROL: u64 = 0x0004_0000;
/// `CGEventFlags` device-independent bit: Shift.
pub const CG_FLAG_SHIFT: u64 = 0x0002_0000;
/// `CGEventFlags` device-independent bit: Option.
pub const CG_FLAG_ALTERNATE: u64 = 0x0008_0000;
/// `CGEventFlags` device-independent bit: Command.
pub const CG_FLAG_COMMAND: u64 = 0x0010_0000;
/// `CGEventFlags` device-independent bit: Fn.
pub const CG_FLAG_SECONDARY_FN: u64 = 0x0080_0000;

/// Device-dependent side bits (`NX_DEVICE*KEYMASK`, IOLLEvent.h).
pub const NX_L_CTRL: u64 = 0x0000_0001;
pub const NX_L_SHIFT: u64 = 0x0000_0002;
pub const NX_R_SHIFT: u64 = 0x0000_0004;
pub const NX_L_CMD: u64 = 0x0000_0008;
pub const NX_R_CMD: u64 = 0x0000_0010;
pub const NX_L_ALT: u64 = 0x0000_0020;
pub const NX_R_ALT: u64 = 0x0000_0040;
pub const NX_R_CTRL: u64 = 0x0000_2000;

/// `CGEventType` of a key-down.
pub const CG_EVENT_KEY_DOWN: u32 = 10;
/// `CGEventType` of a key-up.
pub const CG_EVENT_KEY_UP: u32 = 11;
/// `CGEventType` of a modifier-state change.
pub const CG_EVENT_FLAGS_CHANGED: u32 = 12;

/// The key code of a macOS virtual key code; `None` for codes not modelled.
#[verifier::allow_in_spec]
pub fn from_cg_keycode(kc: u16) -> Option<KeyCode>
    returns
        (match kc {
                0x00u16 => Some(KeyCode::KeyA),
                0x0Bu16 => Some(KeyCode::KeyB),
                0x08u16 => Some(KeyCode::KeyC),
                0x02u16 => Some(KeyCode::KeyD),
                0x0Eu16 => Some(KeyCode::KeyE),
                0x03u16 => Some(KeyCode::KeyF),
                0x05u16 => Some(KeyCode::KeyG),
                0x04u16 => Some(KeyCode::KeyH),
                0x22u16 => Some(KeyCode::KeyI),
                0x26u16 => Some(KeyCode::KeyJ),
                0x28u16 => Some(KeyCode::KeyK),
                0x25u16 => Some(KeyCode::KeyL),
                0x2Eu16 => Some(KeyCode::KeyM),
                0x2Du16 => Some(KeyCode::KeyN),
                0x1Fu16 => Some(KeyCode::KeyO),
                0x23u16 => Some(KeyCode::KeyP),
                0x0Cu16 => Some(KeyCode::KeyQ),
                0x0Fu16 => Some(KeyCode::KeyR),
                0x01u16 => Some(KeyCode::KeyS),
                0x11u16 => Some(KeyCode::KeyT),
                0x20u16 => Some(KeyCode::KeyU),
                0x09u16 => Some(KeyCode::KeyV),
                0x0Du16 => Some(KeyCode::KeyW),
                0x07u16 => Some(KeyCode::KeyX),
                0x10u16 => Some(KeyCode::KeyY),
                0x06u16 => Some(KeyCode::KeyZ),
                0x1Du16 => Some(KeyCode::Digit0),
                0x12u16 => Some(KeyCode::Digit1),
                0x13u16 => Some(KeyCode::Digit2),
                0x14u16 => Some(KeyCode::Digit3),
                0x15u16 => Some(KeyCode::Digit4),
                0x17u16 => Some(KeyCode::Digit5),
                0x16u16 => Some(KeyCode::Digit6),
                0x1Au16 => Some(KeyCode::Digit7),
                0x1Cu16 => Some(KeyCode::Digit8),
                0x19u16 => Some(KeyCode::Digit9),
                0x7Au16 => Some(KeyCode::F1),
                0x78u16 => Some(KeyCode::F2),
                0x63u16 => Some(KeyCode::F3),
                0x76u16 => Some(KeyCode::F4),
                0x60u16 => Some(KeyCode::F5),
                0x61u16 => Some(KeyCode::F6),
                0x62u16 => Some(KeyCode::F7),
                0x64u16 => Some(KeyCode::F8),
                0x65u16 => Some(KeyCode::F9),
                0x6Du16 => Some(KeyCode::F10),
                0x67u16 => Some(KeyCode::F11),
                0x6Fu16 => Some(KeyCode::F12),
                0x69u16 => Some(KeyCode::F13),
                0x6Bu16 => Some(KeyCode::F14),
                0x71u16 => Some(KeyCode::F15),
                0x6Au16 => Some(KeyCode::F16),
                0x40u16 => Some(KeyCode::F17),
                0x4Fu16 => Some(KeyCode::F18),
                0x50u16 => Some(KeyCode::F19),
                0x5Au16 => Some(KeyCode::F20),
                0x7Eu16 => Some(KeyCode::ArrowUp),
                0x7Du16 => Some(KeyCode::ArrowDown),
                0x7Bu16 => Some(KeyCode::ArrowLeft),
                0x7Cu16 => Some(KeyCode::ArrowRight),
                0x38u16 => Some(KeyCode::LeftShift),
                0x3Cu16 => Some(KeyCode::RightShift),
                0x3Bu16 => Some(KeyCode::LeftCtrl),
                0x3Eu16 => Some(KeyCode::RightCtrl),
                0x3Au16 => Some(KeyCode::LeftAlt),
                0x3Du16 => Some(KeyCode::RightAlt),
                0x37u16 => Some(KeyCode::LeftCmd),
                0x36u16 => Some(KeyCode::RightCmd),
                0x3Fu16 => Some(KeyCode::Fn),
                0x39u16 => Some(KeyCode::CapsLock),
                0x24u16 => Some(KeyCode::Return),
                0x30u16 => Some(KeyCode::Tab),
                0x31u16 => Some(KeyCode::Space),
                0x33u16 => Some(KeyCode::Backspace),
                0x75u16 => Some(KeyCode::Delete),
                0x35u16 => Some(KeyCode::Escape),
                0x29u16 => Some(KeyCode::Semicolon),
                0x27u16 => Some(KeyCode::Quote),
                0x2Bu16 => Some(KeyCode::Comma),
                0x2Fu16 => Some(KeyCode::Period),
                0x2Cu16 => Some(KeyCode::Slash),
                0x2Au16 => Some(KeyCode::Backslash),
                0x32u16 => Some(KeyCode::Backquote),
                0x1Bu16 => Some(KeyCode::Minus),
                0x18u16 => Some(KeyCode::Equal),
                0x21u16 => Some(KeyCode::LeftBracket),
                0x1Eu16 => Some(KeyCode::RightBracket),
                0x73u16 => Some(KeyCode::Home),
                0x77u16 => Some(KeyCode::End),
                0x74u16 => Some(KeyCode::PageUp),
                0x79u16 => Some(KeyCode::PageDown),
                0x72u16 => Some(KeyCode::Insert),
                _ => None,
            }),
{
    match kc {
        0x00u16 => Some(KeyCode::KeyA),
        0x0Bu16 => Some(KeyCode::KeyB),
        0x08u16 => Some(KeyCode::KeyC),
        0x02u16 => Some(KeyCode::KeyD),
        0x0Eu16 => Some(KeyCode::KeyE),
        0x03u16 => Some(KeyCode::KeyF),
        0x05u16 => Some(KeyCode::KeyG),
        0x04u16 => Some(KeyCode::KeyH),
        0x22u16 => Some(KeyCode::KeyI),
        0x26u16 => Some(KeyCode::KeyJ),
        0x28u16 => Some(KeyCode::KeyK),
        0x25u16 => Some(KeyCode::KeyL),
        0x2Eu16 => Some(KeyCode::KeyM),
        0x2Du16 => Some(KeyCode::KeyN),
        0x1Fu16 => Some(KeyCode::KeyO),
        0x23u16 => Some(KeyCode::KeyP),
        0x0Cu16 => Some(KeyCode::KeyQ),
        0x0Fu16 => Some(KeyCode::KeyR),
        0x01u16 => Some(KeyCode::KeyS),
        0x11u16 => Some(KeyCode::KeyT),
        0x20u16 => Some(KeyCode::KeyU),
        0x09u16 => Some(KeyCode::KeyV),
        0x0Du16 => Some(KeyCode::KeyW),
        0x07u16 => Some(KeyCode::KeyX),
        0x10u16 => Some(KeyCode::KeyY),
        0x06u16 => Some(KeyCode::KeyZ),
        0x1Du16 => Some(KeyCode::Digit0),
        0x12u16 => Some(KeyCode::Digit1),
        0x13u16 => Some(KeyCode::Digit2),
        0x14u16 => Some(KeyCode::Digit3),
        0x15u16 => Some(KeyCode::Digit4),
        0x17u16 => Some(KeyCode::Digit5),
        0x16u16 => Some(KeyCode::Digit6),
        0x1Au16 => Some(KeyCode::Digit7),
        0x1Cu16 => Some(KeyCode::Digit8),
        0x19u16 => Some(KeyCode::Digit9),
        0x7Au16 => Some(KeyCode::F1),
        0x78u16 => Some(KeyCode::F2),
        0x63u16 => Some(KeyCode::F3),
        0x76u16 => Some(KeyCode::F4),
        0x60u16 => Some(KeyCode::F5),
        0x61u16 => Some(KeyCode::F6),
        0x62u16 => Some(KeyCode::F7),
        0x64u16 => Some(KeyCode::F8),
        0x65u16 => Some(KeyCode::F9),
        0x6Du16 => Some(KeyCode::F10),
        0x67u16 => Some(KeyCode::F11),
        0x6Fu16 => Some(KeyCode::F12),
        0x69u16 => Some(KeyCode::F13),
        0x6Bu16 => Some(KeyCode::F14),
        0x71u16 => Some(KeyCode::F15),
        0x6Au16 => Some(KeyCode::F16),
        0x40u16 => Some(KeyCode::F17),
        0x4Fu16 => Some(KeyCode::F18),
        0x50u16 => Some(KeyCode::F19),
        0x5Au16 => Some(KeyCode::F20),
        0x7Eu16 => Some(KeyCode::ArrowUp),
        0x7Du16 => Some(KeyCode::ArrowDown),
        0x7Bu16 => Some(KeyCode::ArrowLeft),
        0x7Cu16 => Some(KeyCode::ArrowRight),
        0x38u16 => Some(KeyCode::LeftShift),
        0x3Cu16 => Some(KeyCode::RightShift),
        0x3Bu16 => Some(KeyCode::LeftCtrl),
        0x3Eu16 => Some(KeyCode::RightCtrl),
        0x3Au16 => Some(KeyCode::LeftAlt),
        0x3Du16 => Some(KeyCode::RightAlt),
        0x37u16 => Some(KeyCode::LeftCmd),
        0x36u16 => Some(KeyCode::RightCmd),
        0x3Fu16 => Some(KeyCode::Fn),
        0x39u16 => Some(KeyCode::CapsLock),
        0x24u16 => Some(KeyCode::Return),
        0x30u16 => Some(KeyCode::Tab),
        0x31u16 => Some(KeyCode::Space),
        0x33u16 => Some(KeyCode::Backspace),
        0x75u16 => Some(KeyCode::Delete),
        0x35u16 => Some(KeyCode::Escape),
        0x29u16 => Some(KeyCode::Semicolon),
        0x27u16 => Some(KeyCode::Quote),
        0x2Bu16 => Some(KeyCode::Comma),
        0x2Fu16 => Some(KeyCode::Period),
        0x2Cu16 => Some(KeyCode::Slash),
        0x2Au16 => Some(KeyCode::Backslash),
        0x32u16 => Some(KeyCode::Backquote),
        0x1Bu16 => Some(KeyCode::Minus),
        0x18u16 => Some(KeyCode::Equal),
        0x21u16 => Some(KeyCode::LeftBracket),
        0x1Eu16 => Some(KeyCode::RightBracket),
        0x73u16 => Some(KeyCode::Home),
        0x77u16 => Some(KeyCode::End),
        0x74u16 => Some(KeyCode::PageUp),
        0x79u16 => Some(KeyCode::PageDown),
        0x72u16 => Some(KeyCode::Insert),
        _ => None,
    }
}

/// The macOS virtual key code of a key code. F21 to F24 have none and give
/// 0, which is also `KeyA`'s code.
#[verifier::allow_in_spec]
pub fn to_cg_keycode(code: KeyCode) -> u16
    returns
        (match code {
                KeyCode::KeyA => 0x00u16,
                KeyCode::KeyB => 0x0Bu16,
                KeyCode::KeyC => 0x08u16,
                KeyCode::KeyD => 0x02u16,
                KeyCode::KeyE => 0x0Eu16,
                KeyCode::KeyF => 0x03u16,
                KeyCode::KeyG => 0x05u16,
                KeyCode::KeyH => 0x04u16,
                KeyCode::KeyI => 0x22u16,
                KeyCode::KeyJ => 0x26u16,
                KeyCode::KeyK => 0x28u16,
                KeyCode::KeyL => 0x25u16,
                KeyCode::KeyM => 0x2Eu16,
                KeyCode::KeyN => 0x2Du16,
                KeyCode::KeyO => 0x1Fu16,
                KeyCode::KeyP => 0x23u16,
                KeyCode::KeyQ => 0x0Cu16,
                KeyCode::KeyR => 0x0Fu16,
                KeyCode::KeyS => 0x01u16,
                KeyCode::KeyT => 0x11u16,
                KeyCode::KeyU => 0x20u16,
                KeyCode::KeyV => 0x09u16,
                KeyCode::KeyW => 0x0Du16,
                KeyCode::KeyX => 0x07u16,
                KeyCode::KeyY => 0x10u16,
                KeyCode::KeyZ => 0x06u16,
                KeyCode::Digit0 => 0x1Du16,
                KeyCode::Digit1 => 0x12u16,
                KeyCode::Digit2 => 0x13u16,
                KeyCode::Digit3 => 0x14u16,
                KeyCode::Digit4 => 0x15u16,
                KeyCode::Digit5 => 0x17u16,
                KeyCode::Digit6 => 0x16u16,
                KeyCode::Digit7 => 0x1Au16,
                KeyCode::Digit8 => 0x1Cu16,
                KeyCode::Digit9 => 0x19u16,
                KeyCode::F1 => 0x7Au16,
                KeyCode::F2 => 0x78u16,
                KeyCode::F3 => 0x63u16,
                KeyCode::F4 => 0x76u16,
                KeyCode::F5 => 0x60u16,
                KeyCode::F6 => 0x61u16,
                KeyCode::F7 => 0x62u16,
                KeyCode::F8 => 0x64u16,
                KeyCode::F9 => 0x65u16,
                KeyCode::F10 => 0x6Du16,
                KeyCode::F11 => 0x67u16,
                KeyCode::F12 => 0x6Fu16,
                KeyCode::F13 => 0x69u16,
                KeyCode::F14 => 0x6Bu16,
                KeyCode::F15 => 0x71u16,
                KeyCode::F16 => 0x6Au16,
                KeyCode::F17 => 0x40u16,
                KeyCode::F18 => 0x4Fu16,
                KeyCode::F19 => 0x50u16,
                KeyCode::F20 => 0x5Au16,
                KeyCode::ArrowUp => 0x7Eu16,
                KeyCode::ArrowDown => 0x7Du16,
                KeyCode::ArrowLeft => 0x7Bu16,
                KeyCode::ArrowRight => 0x7Cu16,
                KeyCode::LeftShift => 0x38u16,
                KeyCode::RightShift => 0x3Cu16,
                KeyCode::LeftCtrl => 0x3Bu16,
                KeyCode::RightCtrl => 0x3Eu16,
                KeyCode::LeftAlt => 0x3Au16,
                KeyCode::RightAlt => 0x3Du16,
                KeyCode::LeftCmd => 0x37u16,
                KeyCode::RightCmd => 0x36u16,
                KeyCode::Fn => 0x3Fu16,
                KeyCode::CapsLock => 0x39u16,
                KeyCode::Return => 0x24u16,
                KeyCode::Tab => 0x30u16,
                KeyCode::Space => 0x31u16,
                KeyCode::Backspace => 0x33u16,
                KeyCode::Delete => 0x75u16,
                KeyCode::Escape => 0x35u16,
                KeyCode::Semicolon => 0x29u16,
                KeyCode::Quote => 0x27u16,
                KeyCode::Comma => 0x2Bu16,
                KeyCode::Period => 0x2Fu16,
                KeyCode::Slash => 0x2Cu16,
                KeyCode::Backslash => 0x2Au16,
                KeyCode::Backquote => 0x32u16,
                KeyCode::Minus => 0x1Bu16,
                KeyCode::Equal => 0x18u16,
                KeyCode::LeftBracket => 0x21u16,
                KeyCode::RightBracket => 0x1Eu16,
                KeyCode::Home => 0x73u16,
                KeyCode::End => 0x77u16,
                KeyCode::PageUp => 0x74u16,
                KeyCode::PageDown => 0x79u16,
                KeyCode::Insert => 0x72u16,
                KeyCode::F21 | KeyCode::F22 | KeyCode::F23 | KeyCode::F24 => 0u16,
            }),
{
    match code {
        KeyCode::KeyA => 0x00u16,
        KeyCode::KeyB => 0x0Bu16,
        KeyCode::KeyC => 0x08u16,
        KeyCode::KeyD => 0x02u16,
        KeyCode::KeyE => 0x0Eu16,
        KeyCode::KeyF => 0x03u16,
        KeyCode::KeyG => 0x05u16,
        KeyCode::KeyH => 0x04u16,
        KeyCode::KeyI => 0x22u16,
        KeyCode::KeyJ => 0x26u16,
        KeyCode::KeyK => 0x28u16,
        KeyCode::KeyL => 0x25u16,
        KeyCode::KeyM => 0x2Eu16,
        KeyCode::KeyN => 0x2Du16,
        KeyCode::KeyO => 0x1Fu16,
        KeyCode::KeyP => 0x23u16,
        KeyCode::KeyQ => 0x0Cu16,
        KeyCode::KeyR => 0x0Fu16,
        KeyCode::KeyS => 0x01u16,
        KeyCode::KeyT => 0x11u16,
        KeyCode::KeyU => 0x20u16,
        KeyCode::KeyV => 0x09u16,
        KeyCode::KeyW => 0x0Du16,
        KeyCode::KeyX => 0x07u16,
        KeyCode::KeyY => 0x10u16,
        KeyCode::KeyZ => 0x06u16,
        KeyCode::Digit0 => 0x1Du16,
        KeyCode::Digit1 => 0x12u16,
        KeyCode::Digit2 => 0x13u16,
        KeyCode::Digit3 => 0x14u16,
        KeyCode::Digit4 => 0x15u16,
        KeyCode::Digit5 => 0x17u16,
        KeyCode::Digit6 => 0x16u16,
        KeyCode::Digit7 => 0x1Au16,
        KeyCode::Digit8 => 0x1Cu16,
        KeyCode::Digit9 => 0x19u16,
        KeyCode::F1 => 0x7Au16,
        KeyCode::F2 => 0x78u16,
        KeyCode::F3 => 0x63u16,
        KeyCode::F4 => 0x76u16,
        KeyCode::F5 => 0x60u16,
        KeyCode::F6 => 0x61u16,
        KeyCode::F7 => 0x62u16,
        KeyCode::F8 => 0x64u16,
        KeyCode::F9 => 0x65u16,
        KeyCode::F10 => 0x6Du16,
        KeyCode::F11 => 0x67u16,
        KeyCode::F12 => 0x6Fu16,
        KeyCode::F13 => 0x69u16,
        KeyCode::F14 => 0x6Bu16,
        KeyCode::F15 => 0x71u16,
        KeyCode::F16 => 0x6Au16,
        KeyCode::F17 => 0x40u16,
        KeyCode::F18 => 0x4Fu16,
        KeyCode::F19 => 0x50u16,
        KeyCode::F20 => 0x5Au16,
        KeyCode::ArrowUp => 0x7Eu16,
        KeyCode::ArrowDown => 0x7Du16,
        KeyCode::ArrowLeft => 0x7Bu16,
        KeyCode::ArrowRight => 0x7Cu16,
        KeyCode::LeftShift => 0x38u16,
        KeyCode::RightShift => 0x3Cu16,
        KeyCode::LeftCtrl => 0x3Bu16,
        KeyCode::RightCtrl => 0x3Eu16,
        KeyCode::LeftAlt => 0x3Au16,
        KeyCode::RightAlt => 0x3Du16,
        KeyCode::LeftCmd => 0x37u16,
        KeyCode::RightCmd => 0x36u16,
        KeyCode::Fn => 0x3Fu16,
        KeyCode::CapsLock => 0x39u16,
        KeyCode::Return => 0x24u16,
        KeyCode::Tab => 0x30u16,
        KeyCode::Space => 0x31u16,
        KeyCode::Backspace => 0x33u16,
        KeyCode::Delete => 0x75u16,
        KeyCode::Escape => 0x35u16,
        KeyCode::Semicolon => 0x29u16,
        KeyCode::Quote => 0x27u16,
        KeyCode::Comma => 0x2Bu16,
        KeyCode::Period => 0x2Fu16,
        KeyCode::Slash => 0x2Cu16,
        KeyCode::Backslash => 0x2Au16,
        KeyCode::Backquote => 0x32u16,
        KeyCode::Minus => 0x1Bu16,
        KeyCode::Equal => 0x18u16,
        KeyCode::LeftBracket => 0x21u16,
        KeyCode::RightBracket => 0x1Eu16,
        KeyCode::Home => 0x73u16,
        KeyCode::End => 0x77u16,
        KeyCode::PageUp => 0x74u16,
        KeyCode::PageDown => 0x79u16,
        KeyCode::Insert => 0x72u16,
        KeyCode::F21 | KeyCode::F22 | KeyCode::F23 | KeyCode::F24 => 0u16,
    }
}

/// `modifier` if `raw` holds every bit of `flag`, else nothing.
pub open spec fn bit_if_all(raw: u64, flag: u64, modifier: u32) -> u32 {
    if raw & flag == flag {
        modifier
    } else {
        0
    }
}

/// `modifier` if `raw` holds any bit of `flag`, else nothing.
pub open spec fn bit_if_any(raw: u64, flag: u64, modifier: u32) -> u32 {
    if raw & flag != 0 {
        modifier
    } else {
        0
    }
}

/// The modifier state that raw `CGEventFlags` bits describe: generic bits
/// from the device-independent flags, side bits from the device-dependent
/// ones. Other flag bits are ignored.
pub open spec fn mods_of_flags(raw: u64) -> u32 {
    0u32
        | bit_if_all(raw, CG_FLAG_CONTROL, MOD_CTRL)
        | bit_if_all(raw, CG_FLAG_SHIFT, MOD_SHIFT)
        | bit_if_all(raw, CG_FLAG_ALTERNATE, MOD_ALT)
        | bit_if_all(raw, CG_FLAG_COMMAND, MOD_CMD)
        | bit_if_all(raw, CG_FLAG_SECONDARY_FN, MOD_FN)
        | bit_if_any(raw, NX_L_CTRL, MOD_LEFT_CTRL)
        | bit_if_any(raw, NX_R_CTRL, MOD_RIGHT_CTRL)
        | bit_if_any(raw, NX_L_SHIFT, MOD_LEFT_SHIFT)
        | bit_if_any(raw, NX_R_SHIFT, MOD_RIGHT_SHIFT)
        | bit_if_any(raw, NX_L_ALT, MOD_LEFT_ALT)
        | bit_if_any(raw, NX_R_ALT, MOD_RIGHT_ALT)
        | bit_if_any(raw, NX_L_CMD, MOD_LEFT_CMD)
        | bit_if_any(raw, NX_R_CMD, MOD_RIGHT_CMD)
}

/// Translate raw `CGEventFlags` bits into a modifier state.
pub fn flags_to_mods(raw: u64) -> (r: Modifiers)
    ensures
        r@ == mods_of_flags(raw),
{
    let mut bits: u32 = 0;
    bits = bits | if raw & CG_FLAG_CONTROL == CG_FLAG_CONTROL {
        MOD_CTRL
    } else {
        0
    };
    bits = bits | if raw & CG_FLAG_SHIFT == CG_FLAG_SHIFT {
        MOD_SHIFT
    } else {
        0
    };
    bits = bits | if raw & CG_FLAG_ALTERNATE == CG_FLAG_ALTERNATE {
        MOD_ALT
    } else {
        0
    };
    bits = bits | if raw & CG_FLAG_COMMAND == CG_FLAG_COMMAND {
        MOD_CMD
    } else {
        0
    };
    bits = bits | if raw & CG_FLAG_SECONDARY_FN == CG_FLAG_SECONDARY_FN {
        MOD_FN
    } else {
        0
    };
    bits = bits | if raw & NX_L_CTRL != 0 {
        MOD_LEFT_CTRL
    } else {
        0
    };
    bits = bits | if raw & NX_R_CTRL != 0 {
        MOD_RIGHT_CTRL
    } else {
        0
    };
    bits = bits | if raw & NX_L_SHIFT != 0 {
        MOD_LEFT_SHIFT
    } else {
        0
    };
    bits = bits | if raw & NX_R_SHIFT != 0 {
        MOD_RIGHT_SHIFT
    } else {
        0
    };
    bits = bits | if raw & NX_L_ALT != 0 {
        MOD_LEFT_ALT
    } else {
        0
    };
    bits = bits | if raw & NX_R_ALT != 0 {
        MOD_RIGHT_ALT
    } else {
        0
    };
    bits = bits | if raw & NX_L_CMD != 0 {
        MOD_LEFT_CMD
    } else {
        0
    };
    bits = bits | if raw & NX_R_CMD != 0 {
        MOD_RIGHT_CMD
    } else {
        0
    };
    Modifiers::from_bits_retain(bits)
}

/// `flag` if `mods` holds every bit of `modifier`, else nothing.
pub open spec fn flag_if(mods: u32, modifier: u32, flag: u64) -> u64 {
    if mods & modifier == modifier {
        flag
    } else {
        0
    }
}

/// The `CGEventFlags` bits that post a modifier state: the
/// device-independent flag of each modifier family held.
pub open spec fn flags_of_mods(mods: u32) -> u64 {
    0u64
        | flag_if(mods, MOD_CTRL, CG_FLAG_CONTROL)
        | flag_if(mods, MOD_SHIFT, CG_FLAG_SHIFT)
        | flag_if(mods, MOD_ALT, CG_FLAG_ALTERNATE)
        | flag_if(mods, MOD_CMD, CG_FLAG_COMMAND)
        | flag_if(mods, MOD_FN, CG_FLAG_SECONDARY_FN)
}

/// Translate a modifier state into `CGEventFlags` bits for posting.
pub fn mods_to_cg_flags(mods: Modifiers) -> (r: u64)
    ensures
        r == flags_of_mods(mods@),
{
    let mut f: u64 = 0;
    f = f | if mods.contains(Modifiers::from_bits_retain(MOD_CTRL)) {
        CG_FLAG_CONTROL
    } else {
        0
    };
    f = f | if mods.contains(Modifiers::from_bits_retain(MOD_SHIFT)) {
        CG_FLAG_SHIFT
    } else {
        0
    };
    f = f | if mods.contains(Modifiers::from_bits_retain(MOD_ALT)) {
        CG_FLAG_ALTERNATE
    } else {
        0
    };
    f = f | if mods.contains(Modifiers::from_bits_retain(MOD_CMD)) {
        CG_FLAG_COMMAND
    } else {
        0
    };
    f = f | if mods.contains(Modifiers::from_bits_retain(MOD_FN)) {
        CG_FLAG_SECONDARY_FN
    } else {
        0
    };
    f
}

/// The message of the error for a key with no virtual key code.
pub open spec fn no_mapping_message(key: KeyCode) -> Seq<char> {
    "no CGKeyCode mapping for "@ + key.name()@
}

/// True if `key` has a macOS virtual key code: every key code but F21 to
/// F24, which macOS keyboards do not have.
#[verifier::allow_in_spec]
pub fn has_cg_keycode(key: KeyCode) -> bool
    returns
        !(key == KeyCode::F21 || key == KeyCode::F22 || key == KeyCode::F23 || key == KeyCode::F24),
{
    match key {
        KeyCode::F21 | KeyCode::F22 | KeyCode::F23 | KeyCode::F24 => false,
        _ => true,
    }
}

/// The virtual key code and flags that synthesize `key` with `mods`. A key
/// without a virtual key code is refused.
pub fn plan_keystroke(key: KeyCode, mods: Modifiers) -> (r: Result<(u16, u64), BackendError>)
    ensures
        match r {
            Ok((code, flags)) => {
                &&& has_cg_keycode(key)
                &&& code == to_cg_keycode(key)
                &&& flags == flags_of_mods(mods@)
            },
            Err(e) => {
                &&& !has_cg_keycode(key)
                &&& e matches BackendError::Inject(m)
                &&& m@ == no_mapping_message(key)
            },
        },
{
    if !has_cg_keycode(key) {
        let msg = String::from_str("no CGKeyCode mapping for ").concat(key.name());
        return Err(BackendError::Inject(msg));
    }
    Ok((to_cg_keycode(key), mods_to_cg_flags(mods)))
}

/// The event kind of a raw `CGEventType`, for the types the tap listens to.
pub open spec fn event_kind_of(etype: u32) -> Option<EventKind> {
    if etype == CG_EVENT_KEY_DOWN {
        Some(EventKind::KeyDown)
    } else if etype == CG_EVENT_KEY_UP {
        Some(EventKind::KeyUp)
    } else if etype == CG_EVENT_FLAGS_CHANGED {
        Some(EventKind::ModifiersChanged)
    } else {
        None
    }
}

/// The normalized form of a tapped event: its key from the low 16 bits of
/// the keycode field, its kind from the event type, its modifiers from the
/// flags. `None` for key codes not modelled and for other event types.
pub open spec fn translation(etype: u32, keycode_field: i64, flags: u64) -> Option<KeyEvent> {
    match (from_cg_keycode(keycode_field as u16), event_kind_of(etype)) {
        (Some(code), Some(kind)) => Some(KeyEvent { code, kind, mods: Modifiers(mods_of_flags(flags)) }),
        _ => None,
    }
}

/// Normalize a tapped event from its type, its keycode field and its raw
/// flags.
pub fn translate(etype: u32, keycode_field: i64, flags: u64) -> (r: Option<KeyEvent>)
    ensures
        r == translation(etype, keycode_field, flags),
{
    let kc = keycode_field as u16;
    let code = from_cg_keycode(kc)?;
    let mods = flags_to_mods(flags);
    let kind = if etype == CG_EVENT_KEY_DOWN {
        EventKind::KeyDown
    } else if etype == CG_EVENT_KEY_UP {
        EventKind::KeyUp
    } else if etype == CG_EVENT_FLAGS_CHANGED {
        EventKind::ModifiersChanged
    } else {
        return None;
    };
    Some(KeyEvent { code, kind, mods })
}

/// The event the engine is asked about for a tapped event: none for an
/// event the daemon posted itself (its source userdata carries
/// [`SLEDGE_EVENT_SOURCE_TAG`]), so that injected output never triggers a
/// rule; otherwise its normalized form.
pub fn event_for_engine(userdata: i64, etype: u32, keycode_field: i64, flags: u64) -> (r: Option<KeyEvent>)
    ensures
        r == if userdata == SLEDGE_EVENT_SOURCE_TAG {
            None
        } else {
            translation(etype, keycode_field, flags)
        },
{
    if userdata == SLEDGE_EVENT_SOURCE_TAG {
        None
    } else {
        translate(etype, keycode_field, flags)
    }
}

/// Whether the two macOS grants the daemon needs are present.
#[derive(Debug, Clone, Copy, PartialEq, Eq, Structural)]
pub struct PermissionStatus {
    pub accessibility: bool,
    pub input_monitoring: bool,
}

impl PermissionStatus {
    /// True if both grants are present.
    pub fn ok(self) -> (r: bool)
        ensures
            r == (self.accessibility && self.input_monitoring),
    {
        self.accessibility && self.input_monitoring
    }
}

/// The lines of the permission report for `status`.
pub open spec fn permission_report_lines(status: PermissionStatus) -> Seq<Seq<char>> {
    seq!["accessibility  : "@ + yes_no(status.accessibility), "input monitor  : "@ + yes_no(status.input_monitoring)]
}

/// The permission report for `status`, one string per line.
pub fn permission_report(status: PermissionStatus) -> (r: Vec<String>)
    ensures
        r@.map_values(|l: String| l@) == permission_report_lines(status),
{
    let mut lines: Vec<String> = Vec::new();
    lines.push(String::from_str("accessibility  : ").concat(yn(status.accessibility)));
    lines.push(String::from_str("input monitor  : ").concat(yn(status.input_monitoring)));
    assert(lines@.map_values(|l: String| l@) =~= permission_report_lines(status));
    lines
}

/// The message naming the grants that `status` lacks.
pub open spec fn missing_grants(status: PermissionStatus) -> Seq<char> {
    if !status.accessibility && !status.input_monitoring {
        "Accessibility and Input Monitoring"@
    } else if !status.accessibility {
        "Accessibility"@
    } else {
        "Input Monitoring"@
    }
}

/// The startup preflight: the daemon runs only with both grants, and
/// otherwise fails naming the grants that are missing.
pub fn preflight(status: PermissionStatus) -> (r: Result<(), BackendError>)
    ensures
        status.accessibility && status.input_monitoring ==> r is Ok,
        !(status.accessibility && status.input_monitoring) ==> (r matches Err(BackendError::MissingPermission(m))
            && m@ == missing_grants(status)),
{
    if status.accessibility && status.input_monitoring {
        Ok(())
    } else if !status.accessibility && !status.input_monitoring {
        Err(BackendError::MissingPermission(String::from_str("Accessibility and Input Monitoring")))
    } else if !status.accessibility {
        Err(BackendError::MissingPermission(String::from_str("Accessibility")))
    } else {
        Err(BackendError::MissingPermission(String::from_str("Input Monitoring")))
    }
}

/// What selecting an input source by id came to.
#[derive(Debug, Clone, Copy, PartialEq, Eq, Structural)]
pub enum InputSourceProbe {
    /// No installed input source has the id.
    NotFound,
    /// The source is installed but not enabled.
    NotEnabled,
    /// Selection was attempted and returned this status (0 is success).
    SelectStatus(i32),
}

/// The message for a source that is installed but not enabled.
pub open spec fn not_enabled_message(id: Seq<char>) -> Seq<char> {
    "input source '"@ + id
        + "' is installed but not enabled. Enable it via System Settings > Keyboard > Text Input > Input Sources."@
}

/// The message for a selection that returned a non-zero status.
pub open spec fn select_failed_message(id: Seq<char>, rc: i32) -> Seq<char> {
    "TISSelectInputSource returned "@ + decimal_of(rc as int) + " for '"@ + id + "'"@
}

/// The result of switching to input source `id`, from what the switch
/// came to.
pub fn input_source_outcome(id: &str, probe: InputSourceProbe) -> (r: Result<(), BackendError>)
    ensures
        match probe {
            InputSourceProbe::NotFound => r matches Err(BackendError::UnknownInputSource(m)) && m@ == id@,
            InputSourceProbe::NotEnabled => r matches Err(BackendError::Inject(m)) && m@ == not_enabled_message(id@),
            InputSourceProbe::SelectStatus(rc) => if rc == 0 {
                r is Ok
            } else {
                r matches Err(BackendError::Inject(m)) && m@ == select_failed_message(id@, rc)
            },
        },
{
    match probe {
        InputSourceProbe::NotFound => Err(BackendError::UnknownInputSource(String::from_str(id))),
        InputSourceProbe::NotEnabled => {
            let msg = String::from_str("input source '").concat(id).concat(
                "' is installed but not enabled. Enable it via System Settings > Keyboard > Text Input > Input Sources.",
            );
            Err(BackendError::Inject(msg))
        },
        InputSourceProbe::SelectStatus(rc) => {
            if rc == 0 {
                Ok(())
            } else {
                let msg = String::from_str("TISSelectInputSource returned ").concat(decimal_string(rc).as_str()).concat(
                    " for '",
                ).concat(id).concat("'");
                Err(BackendError::Inject(msg))
            }
        },
    }
}

/// Every key code with a virtual key code reads back from it: translating
/// to the virtual key code and back gives the same key.
pub proof fn lemma_keycode_roundtrip(k: KeyCode)
    requires
        has_cg_keycode(k),
    ensures
        from_cg_keycode(to_cg_keycode(k)) == Some(k),
{
}

/// Every modelled virtual key code is the code of the key it reads as.
pub proof fn lemma_cg_keycode_roundtrip(kc: u16)
    ensures
        from_cg_keycode(kc) matches Some(k) ==> to_cg_keycode(k) == kc,
{
}

/// Posting a modifier state and reading the posted flags back keeps
/// exactly its generic modifier bits: side bits are not posted.
pub proof fn lemma_posted_flags_read_back(m: Modifiers)
    ensures
        mods_of_flags(flags_of_mods(m@)) == m@ & (MOD_CTRL | MOD_SHIFT | MOD_ALT | MOD_CMD | MOD_FN),
{
    let x = m@;
    assert(mods_of_flags(flags_of_mods(x)) == x & (MOD_CTRL | MOD_SHIFT | MOD_ALT | MOD_CMD | MOD_FN)) by (bit_vector);
}

} // verus!
