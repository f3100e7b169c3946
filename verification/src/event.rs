//! Normalized key event model.
//!
//! Platform backends translate their native key codes into [`KeyCode`] on the
//! way in and back on the way out. Names follow the USB HID Keyboard/Keypad
//! usage page where possible.

use vstd::prelude::*;

verus! {

/// A single key-down / key-up / modifiers-changed event delivered by a backend.
#[derive(Debug, Clone, Copy, PartialEq, Eq, Structural)]
pub struct KeyEvent {
    pub code: KeyCode,
    pub kind: EventKind,
    pub mods: Modifiers,
}

/// Event kinds the engine cares about.
#[derive(Debug, Clone, Copy, PartialEq, Eq, Structural)]
pub enum EventKind {
    /// Regular key-down.
    KeyDown,
    /// Regular key-up.
    KeyUp,
    /// A modifier's state changed. `code` names the modifier; `mods` is the
    /// aggregate state after the change.
    ModifiersChanged,
}

/// Bit of [`Modifiers`]: Control, either side.
pub const MOD_CTRL: u32 = 0x1;
/// Bit of [`Modifiers`]: Shift, either side.
pub const MOD_SHIFT: u32 = 0x2;
/// Bit of [`Modifiers`]: Alt / Option, either side.
pub const MOD_ALT: u32 = 0x4;
/// Bit of [`Modifiers`]: Command, either side.
pub const MOD_CMD: u32 = 0x8;
/// Bit of [`Modifiers`]: The Fn key.
pub const MOD_FN: u32 = 0x10;
/// Bit of [`Modifiers`]: Left Control.
pub const MOD_LEFT_CTRL: u32 = 0x100;
/// Bit of [`Modifiers`]: Right Control.
pub const MOD_RIGHT_CTRL: u32 = 0x200;
/// Bit of [`Modifiers`]: Left Shift.
pub const MOD_LEFT_SHIFT: u32 = 0x400;
/// Bit of [`Modifiers`]: Right Shift.
pub const MOD_RIGHT_SHIFT: u32 = 0x800;
/// Bit of [`Modifiers`]: Left Alt / Option.
pub const MOD_LEFT_ALT: u32 = 0x1000;
/// Bit of [`Modifiers`]: Right Alt / Option.
pub const MOD_RIGHT_ALT: u32 = 0x2000;
/// Bit of [`Modifiers`]: Left Command.
pub const MOD_LEFT_CMD: u32 = 0x4000;
/// Bit of [`Modifiers`]: Right Command.
pub const MOD_RIGHT_CMD: u32 = 0x8000;

/// Modifier state as a bit set. Side-specific bits (`LEFT_*`, `RIGHT_*`)
/// are set in lockstep with their generic counterparts by the backends: if
/// `LEFT_CTRL` is set then `CTRL` is also set.
#[derive(Debug, Clone, Copy, PartialEq, Eq, Structural, Hash, Default)]
pub struct Modifiers(pub u32);

impl View for Modifiers {
    type V = u32;

    open spec fn view(&self) -> u32 {
        self.0
    }
}

impl Modifiers {
    /// No modifier held.
    pub fn empty() -> (r: Modifiers)
        ensures
            r@ == 0,
    {
        Modifiers(0)
    }

    /// Builds a state from raw bits, keeping bits that name no modifier.
    pub fn from_bits_retain(bits: u32) -> (r: Modifiers)
        ensures
            r@ == bits,
    {
        Modifiers(bits)
    }

    /// The raw bits.
    pub fn bits(self) -> (r: u32)
        ensures
            r == self@,
    {
        self.0
    }

    /// Control, either side.
    pub fn ctrl() -> (r: Modifiers)
        ensures
            r@ == MOD_CTRL,
    {
        Modifiers(MOD_CTRL)
    }

    /// Shift, either side.
    pub fn shift() -> (r: Modifiers)
        ensures
            r@ == MOD_SHIFT,
    {
        Modifiers(MOD_SHIFT)
    }

    /// Alt / Option, either side.
    pub fn alt() -> (r: Modifiers)
        ensures
            r@ == MOD_ALT,
    {
        Modifiers(MOD_ALT)
    }

    /// Command, either side.
    pub fn cmd() -> (r: Modifiers)
        ensures
            r@ == MOD_CMD,
    {
        Modifiers(MOD_CMD)
    }

    /// The Fn key.
    pub fn fn_key() -> (r: Modifiers)
        ensures
            r@ == MOD_FN,
    {
        Modifiers(MOD_FN)
    }

    /// Left Control.
    pub fn left_ctrl() -> (r: Modifiers)
        ensures
            r@ == MOD_LEFT_CTRL,
    {
        Modifiers(MOD_LEFT_CTRL)
    }

    /// Right Control.
    pub fn right_ctrl() -> (r: Modifiers)
        ensures
            r@ == MOD_RIGHT_CTRL,
    {
        Modifiers(MOD_RIGHT_CTRL)
    }

    /// Left Shift.
    pub fn left_shift() -> (r: Modifiers)
        ensures
            r@ == MOD_LEFT_SHIFT,
    {
        Modifiers(MOD_LEFT_SHIFT)
    }

    /// Right Shift.
    pub fn right_shift() -> (r: Modifiers)
        ensures
            r@ == MOD_RIGHT_SHIFT,
    {
        Modifiers(MOD_RIGHT_SHIFT)
    }

    /// Left Alt / Option.
    pub fn left_alt() -> (r: Modifiers)
        ensures
            r@ == MOD_LEFT_ALT,
    {
        Modifiers(MOD_LEFT_ALT)
    }

    /// Right Alt / Option.
    pub fn right_alt() -> (r: Modifiers)
        ensures
            r@ == MOD_RIGHT_ALT,
    {
        Modifiers(MOD_RIGHT_ALT)
    }

    /// Left Command.
    pub fn left_cmd() -> (r: Modifiers)
        ensures
            r@ == MOD_LEFT_CMD,
    {
        Modifiers(MOD_LEFT_CMD)
    }

    /// Right Command.
    pub fn right_cmd() -> (r: Modifiers)
        ensures
            r@ == MOD_RIGHT_CMD,
    {
        Modifiers(MOD_RIGHT_CMD)
    }

    /// True if every bit of `other` is set in `self`.
    pub fn contains(self, other: Modifiers) -> (r: bool)
        ensures
            r == (self@ & other@ == other@),
    {
        self.0 & other.0 == other.0
    }

    /// True if no bit is set.
    pub fn is_empty(self) -> (r: bool)
        ensures
            r == (self@ == 0),
    {
        self.0 == 0
    }

    /// True if `self` holds every modifier that `required` asks for. Generic
    /// bits in `required` are satisfied by either side; side-specific bits
    /// require that side.
    pub fn matches(self, required: Modifiers) -> (r: bool)
        ensures
            r == (self@ & required@ == required@),
    {
        self.contains(required)
    }

    /// True if any modifier bit is set.
    pub fn any(self) -> (r: bool)
        ensures
            r == (self@ != 0),
    {
        !self.is_empty()
    }
}

impl core::ops::BitOr for Modifiers {
    type Output = Modifiers;

    fn bitor(self, rhs: Modifiers) -> (r: Modifiers) {
        Modifiers(self.0 | rhs.0)
    }
}

impl vstd::std_specs::ops::BitOrSpecImpl for Modifiers {
    open spec fn obeys_bitor_spec() -> bool {
        true
    }

    open spec fn bitor_req(self, rhs: Modifiers) -> bool {
        true
    }

    open spec fn bitor_spec(self, rhs: Modifiers) -> Modifiers {
        Modifiers(self.0 | rhs.0)
    }
}

impl core::ops::BitAnd for Modifiers {
    type Output = Modifiers;

    fn bitand(self, rhs: Modifiers) -> (r: Modifiers) {
        Modifiers(self.0 & rhs.0)
    }
}

impl vstd::std_specs::ops::BitAndSpecImpl for Modifiers {
    open spec fn obeys_bitand_spec() -> bool {
        true
    }

    open spec fn bitand_req(self, rhs: Modifiers) -> bool {
        true
    }

    open spec fn bitand_spec(self, rhs: Modifiers) -> Modifiers {
        Modifiers(self.0 & rhs.0)
    }
}

/// Set difference: the bits of `self` that `rhs` does not hold.
impl core::ops::Sub for Modifiers {
    type Output = Modifiers;

    fn sub(self, rhs: Modifiers) -> (r: Modifiers) {
        Modifiers(self.0 & !rhs.0)
    }
}

impl vstd::std_specs::ops::SubSpecImpl for Modifiers {
    open spec fn obeys_sub_spec() -> bool {
        true
    }

    open spec fn sub_req(self, rhs: Modifiers) -> bool {
        true
    }

    open spec fn sub_spec(self, rhs: Modifiers) -> Modifiers {
        Modifiers(self.0 & !rhs.0)
    }
}

/// Normalized key codes.
#[derive(Debug, Clone, Copy, PartialEq, Eq, Structural, Hash)]
pub enum KeyCode {
    // Letters
    KeyA,
    KeyB,
    KeyC,
    KeyD,
    KeyE,
    KeyF,
    KeyG,
    KeyH,
    KeyI,
    KeyJ,
    KeyK,
    KeyL,
    KeyM,
    KeyN,
    KeyO,
    KeyP,
    KeyQ,
    KeyR,
    KeyS,
    KeyT,
    KeyU,
    KeyV,
    KeyW,
    KeyX,
    KeyY,
    KeyZ,
    // Digit row
    Digit0,
    Digit1,
    Digit2,
    Digit3,
    Digit4,
    Digit5,
    Digit6,
    Digit7,
    Digit8,
    Digit9,
    // Function keys
    F1,
    F2,
    F3,
    F4,
    F5,
    F6,
    F7,
    F8,
    F9,
    F10,
    F11,
    F12,
    F13,
    F14,
    F15,
    F16,
    F17,
    F18,
    F19,
    F20,
    F21,
    F22,
    F23,
    F24,
    // Arrows
    ArrowUp,
    ArrowDown,
    ArrowLeft,
    ArrowRight,
    // Modifiers (side-specific)
    LeftShift,
    RightShift,
    LeftCtrl,
    RightCtrl,
    LeftAlt,
    RightAlt,
    LeftCmd,
    RightCmd,
    Fn,
    CapsLock,
    // Whitespace / editing
    Return,
    Tab,
    Space,
    Backspace,
    Delete,
    Escape,
    // Punctuation
    Semicolon,
    Quote,
    Comma,
    Period,
    Slash,
    Backslash,
    Backquote,
    Minus,
    Equal,
    LeftBracket,
    RightBracket,
    // Navigation
    Home,
    End,
    PageUp,
    PageDown,
    Insert,
}

impl KeyCode {
    /// True for modifier keys: shift, ctrl, alt, cmd (either side), fn and
    /// caps-lock.
    #[verifier::allow_in_spec]
    pub fn is_modifier(self) -> bool
        returns
            (match self {
                KeyCode::LeftShift | KeyCode::RightShift | KeyCode::LeftCtrl | KeyCode::RightCtrl | KeyCode::LeftAlt | KeyCode::RightAlt | KeyCode::LeftCmd | KeyCode::RightCmd | KeyCode::Fn | KeyCode::CapsLock => true,
                _ => false,
            }),
    {
        match self {
            KeyCode::LeftShift | KeyCode::RightShift | KeyCode::LeftCtrl | KeyCode::RightCtrl | KeyCode::LeftAlt | KeyCode::RightAlt | KeyCode::LeftCmd | KeyCode::RightCmd | KeyCode::Fn | KeyCode::CapsLock => true,
            _ => false,
        }
    }

    /// The side-specific [`Modifiers`] bit of a modifier key; empty for caps
    /// lock, fn and every non-modifier key.
    #[verifier::allow_in_spec]
    pub fn modifier_bit(self) -> Modifiers
        returns
            (match self {
                KeyCode::LeftShift => Modifiers(MOD_LEFT_SHIFT),
                KeyCode::RightShift => Modifiers(MOD_RIGHT_SHIFT),
                KeyCode::LeftCtrl => Modifiers(MOD_LEFT_CTRL),
                KeyCode::RightCtrl => Modifiers(MOD_RIGHT_CTRL),
                KeyCode::LeftAlt => Modifiers(MOD_LEFT_ALT),
                KeyCode::RightAlt => Modifiers(MOD_RIGHT_ALT),
                KeyCode::LeftCmd => Modifiers(MOD_LEFT_CMD),
                KeyCode::RightCmd => Modifiers(MOD_RIGHT_CMD),
                _ => Modifiers(0),
            }),
    {
        match self {
            KeyCode::LeftShift => Modifiers(MOD_LEFT_SHIFT),
            KeyCode::RightShift => Modifiers(MOD_RIGHT_SHIFT),
            KeyCode::LeftCtrl => Modifiers(MOD_LEFT_CTRL),
            KeyCode::RightCtrl => Modifiers(MOD_RIGHT_CTRL),
            KeyCode::LeftAlt => Modifiers(MOD_LEFT_ALT),
            KeyCode::RightAlt => Modifiers(MOD_RIGHT_ALT),
            KeyCode::LeftCmd => Modifiers(MOD_LEFT_CMD),
            KeyCode::RightCmd => Modifiers(MOD_RIGHT_CMD),
            _ => Modifiers(0),
        }
    }

    /// The [`Modifiers`] bit that tells whether this modifier key is down:
    /// its side bit, or for fn, which has no sides, its family bit. Empty
    /// for caps lock, whose state no bit carries, and non-modifier keys.
    #[verifier::allow_in_spec]
    pub fn state_bit(self) -> Modifiers
        returns
            (match self {
                KeyCode::LeftShift => Modifiers(MOD_LEFT_SHIFT),
                KeyCode::RightShift => Modifiers(MOD_RIGHT_SHIFT),
                KeyCode::LeftCtrl => Modifiers(MOD_LEFT_CTRL),
                KeyCode::RightCtrl => Modifiers(MOD_RIGHT_CTRL),
                KeyCode::LeftAlt => Modifiers(MOD_LEFT_ALT),
                KeyCode::RightAlt => Modifiers(MOD_RIGHT_ALT),
                KeyCode::LeftCmd => Modifiers(MOD_LEFT_CMD),
                KeyCode::RightCmd => Modifiers(MOD_RIGHT_CMD),
                KeyCode::Fn => Modifiers(MOD_FN),
                _ => Modifiers(0),
            }),
    {
        match self {
            KeyCode::LeftShift => Modifiers(MOD_LEFT_SHIFT),
            KeyCode::RightShift => Modifiers(MOD_RIGHT_SHIFT),
            KeyCode::LeftCtrl => Modifiers(MOD_LEFT_CTRL),
            KeyCode::RightCtrl => Modifiers(MOD_RIGHT_CTRL),
            KeyCode::LeftAlt => Modifiers(MOD_LEFT_ALT),
            KeyCode::RightAlt => Modifiers(MOD_RIGHT_ALT),
            KeyCode::LeftCmd => Modifiers(MOD_LEFT_CMD),
            KeyCode::RightCmd => Modifiers(MOD_RIGHT_CMD),
            KeyCode::Fn => Modifiers(MOD_FN),
            _ => Modifiers(0),
        }
    }

    /// The generic [`Modifiers`] bit of a modifier key's family (e.g.
    /// `RightAlt` gives `ALT`); empty for caps lock and non-modifier keys.
    #[verifier::allow_in_spec]
    pub fn generic_bit(self) -> Modifiers
        returns
            (match self {
                KeyCode::LeftShift | KeyCode::RightShift => Modifiers(MOD_SHIFT),
                KeyCode::LeftCtrl | KeyCode::RightCtrl => Modifiers(MOD_CTRL),
                KeyCode::LeftAlt | KeyCode::RightAlt => Modifiers(MOD_ALT),
                KeyCode::LeftCmd | KeyCode::RightCmd => Modifiers(MOD_CMD),
                KeyCode::Fn => Modifiers(MOD_FN),
                _ => Modifiers(0),
            }),
    {
        match self {
            KeyCode::LeftShift | KeyCode::RightShift => Modifiers(MOD_SHIFT),
            KeyCode::LeftCtrl | KeyCode::RightCtrl => Modifiers(MOD_CTRL),
            KeyCode::LeftAlt | KeyCode::RightAlt => Modifiers(MOD_ALT),
            KeyCode::LeftCmd | KeyCode::RightCmd => Modifiers(MOD_CMD),
            KeyCode::Fn => Modifiers(MOD_FN),
            _ => Modifiers(0),
        }
    }

    /// The code's name, as written in configuration files.
    #[verifier::allow_in_spec]
    pub fn name(self) -> &'static str
        returns
            (match self {
                KeyCode::KeyA => "KeyA",
                KeyCode::KeyB => "KeyB",
                KeyCode::KeyC => "KeyC",
                KeyCode::KeyD => "KeyD",
                KeyCode::KeyE => "KeyE",
                KeyCode::KeyF => "KeyF",
                KeyCode::KeyG => "KeyG",
                KeyCode::KeyH => "KeyH",
                KeyCode::KeyI => "KeyI",
                KeyCode::KeyJ => "KeyJ",
                KeyCode::KeyK => "KeyK",
                KeyCode::KeyL => "KeyL",
                KeyCode::KeyM => "KeyM",
                KeyCode::KeyN => "KeyN",
                KeyCode::KeyO => "KeyO",
                KeyCode::KeyP => "KeyP",
                KeyCode::KeyQ => "KeyQ",
                KeyCode::KeyR => "KeyR",
                KeyCode::KeyS => "KeyS",
                KeyCode::KeyT => "KeyT",
                KeyCode::KeyU => "KeyU",
                KeyCode::KeyV => "KeyV",
                KeyCode::KeyW => "KeyW",
                KeyCode::KeyX => "KeyX",
                KeyCode::KeyY => "KeyY",
                KeyCode::KeyZ => "KeyZ",
                KeyCode::Digit0 => "Digit0",
                KeyCode::Digit1 => "Digit1",
                KeyCode::Digit2 => "Digit2",
                KeyCode::Digit3 => "Digit3",
                KeyCode::Digit4 => "Digit4",
                KeyCode::Digit5 => "Digit5",
                KeyCode::Digit6 => "Digit6",
                KeyCode::Digit7 => "Digit7",
                KeyCode::Digit8 => "Digit8",
                KeyCode::Digit9 => "Digit9",
                KeyCode::F1 => "F1",
                KeyCode::F2 => "F2",
                KeyCode::F3 => "F3",
                KeyCode::F4 => "F4",
                KeyCode::F5 => "F5",
                KeyCode::F6 => "F6",
                KeyCode::F7 => "F7",
                KeyCode::F8 => "F8",
                KeyCode::F9 => "F9",
                KeyCode::F10 => "F10",
                KeyCode::F11 => "F11",
                KeyCode::F12 => "F12",
                KeyCode::F13 => "F13",
                KeyCode::F14 => "F14",
                KeyCode::F15 => "F15",
                KeyCode::F16 => "F16",
                KeyCode::F17 => "F17",
                KeyCode::F18 => "F18",
                KeyCode::F19 => "F19",
                KeyCode::F20 => "F20",
                KeyCode::F21 => "F21",
                KeyCode::F22 => "F22",
                KeyCode::F23 => "F23",
                KeyCode::F24 => "F24",
                KeyCode::ArrowUp => "ArrowUp",
                KeyCode::ArrowDown => "ArrowDown",
                KeyCode::ArrowLeft => "ArrowLeft",
                KeyCode::ArrowRight => "ArrowRight",
                KeyCode::LeftShift => "LeftShift",
                KeyCode::RightShift => "RightShift",
                KeyCode::LeftCtrl => "LeftCtrl",
                KeyCode::RightCtrl => "RightCtrl",
                KeyCode::LeftAlt => "LeftAlt",
                KeyCode::RightAlt => "RightAlt",
                KeyCode::LeftCmd => "LeftCmd",
                KeyCode::RightCmd => "RightCmd",
                KeyCode::Fn => "Fn",
                KeyCode::CapsLock => "CapsLock",
                KeyCode::Return => "Return",
                KeyCode::Tab => "Tab",
                KeyCode::Space => "Space",
                KeyCode::Backspace => "Backspace",
                KeyCode::Delete => "Delete",
                KeyCode::Escape => "Escape",
                KeyCode::Semicolon => "Semicolon",
                KeyCode::Quote => "Quote",
                KeyCode::Comma => "Comma",
                KeyCode::Period => "Period",
                KeyCode::Slash => "Slash",
                KeyCode::Backslash => "Backslash",
                KeyCode::Backquote => "Backquote",
                KeyCode::Minus => "Minus",
                KeyCode::Equal => "Equal",
                KeyCode::LeftBracket => "LeftBracket",
                KeyCode::RightBracket => "RightBracket",
                KeyCode::Home => "Home",
                KeyCode::End => "End",
                KeyCode::PageUp => "PageUp",
                KeyCode::PageDown => "PageDown",
                KeyCode::Insert => "Insert",
            }),
    {
        match self {
            KeyCode::KeyA => "KeyA",
            KeyCode::KeyB => "KeyB",
            KeyCode::KeyC => "KeyC",
            KeyCode::KeyD => "KeyD",
            KeyCode::KeyE => "KeyE",
            KeyCode::KeyF => "KeyF",
            KeyCode::KeyG => "KeyG",
            KeyCode::KeyH => "KeyH",
            KeyCode::KeyI => "KeyI",
            KeyCode::KeyJ => "KeyJ",
            KeyCode::KeyK => "KeyK",
            KeyCode::KeyL => "KeyL",
            KeyCode::KeyM => "KeyM",
            KeyCode::KeyN => "KeyN",
            KeyCode::KeyO => "KeyO",
            KeyCode::KeyP => "KeyP",
            KeyCode::KeyQ => "KeyQ",
            KeyCode::KeyR => "KeyR",
            KeyCode::KeyS => "KeyS",
            KeyCode::KeyT => "KeyT",
            KeyCode::KeyU => "KeyU",
            KeyCode::KeyV => "KeyV",
            KeyCode::KeyW => "KeyW",
            KeyCode::KeyX => "KeyX",
            KeyCode::KeyY => "KeyY",
            KeyCode::KeyZ => "KeyZ",
            KeyCode::Digit0 => "Digit0",
            KeyCode::Digit1 => "Digit1",
            KeyCode::Digit2 => "Digit2",
            KeyCode::Digit3 => "Digit3",
            KeyCode::Digit4 => "Digit4",
            KeyCode::Digit5 => "Digit5",
            KeyCode::Digit6 => "Digit6",
            KeyCode::Digit7 => "Digit7",
            KeyCode::Digit8 => "Digit8",
            KeyCode::Digit9 => "Digit9",
            KeyCode::F1 => "F1",
            KeyCode::F2 => "F2",
            KeyCode::F3 => "F3",
            KeyCode::F4 => "F4",
            KeyCode::F5 => "F5",
            KeyCode::F6 => "F6",
            KeyCode::F7 => "F7",
            KeyCode::F8 => "F8",
            KeyCode::F9 => "F9",
            KeyCode::F10 => "F10",
            KeyCode::F11 => "F11",
            KeyCode::F12 => "F12",
            KeyCode::F13 => "F13",
            KeyCode::F14 => "F14",
            KeyCode::F15 => "F15",
            KeyCode::F16 => "F16",
            KeyCode::F17 => "F17",
            KeyCode::F18 => "F18",
            KeyCode::F19 => "F19",
            KeyCode::F20 => "F20",
            KeyCode::F21 => "F21",
            KeyCode::F22 => "F22",
            KeyCode::F23 => "F23",
            KeyCode::F24 => "F24",
            KeyCode::ArrowUp => "ArrowUp",
            KeyCode::ArrowDown => "ArrowDown",
            KeyCode::ArrowLeft => "ArrowLeft",
            KeyCode::ArrowRight => "ArrowRight",
            KeyCode::LeftShift => "LeftShift",
            KeyCode::RightShift => "RightShift",
            KeyCode::LeftCtrl => "LeftCtrl",
            KeyCode::RightCtrl => "RightCtrl",
            KeyCode::LeftAlt => "LeftAlt",
            KeyCode::RightAlt => "RightAlt",
            KeyCode::LeftCmd => "LeftCmd",
            KeyCode::RightCmd => "RightCmd",
            KeyCode::Fn => "Fn",
            KeyCode::CapsLock => "CapsLock",
            KeyCode::Return => "Return",
            KeyCode::Tab => "Tab",
            KeyCode::Space => "Space",
            KeyCode::Backspace => "Backspace",
            KeyCode::Delete => "Delete",
            KeyCode::Escape => "Escape",
            KeyCode::Semicolon => "Semicolon",
            KeyCode::Quote => "Quote",
            KeyCode::Comma => "Comma",
            KeyCode::Period => "Period",
            KeyCode::Slash => "Slash",
            KeyCode::Backslash => "Backslash",
            KeyCode::Backquote => "Backquote",
            KeyCode::Minus => "Minus",
            KeyCode::Equal => "Equal",
            KeyCode::LeftBracket => "LeftBracket",
            KeyCode::RightBracket => "RightBracket",
            KeyCode::Home => "Home",
            KeyCode::End => "End",
            KeyCode::PageUp => "PageUp",
            KeyCode::PageDown => "PageDown",
            KeyCode::Insert => "Insert",
        }
    }

    /// Position of the code in declaration order; distinct codes have
    /// distinct positions.
    #[verifier::allow_in_spec]
    pub fn ordinal(self) -> u8
        returns
            (match self {
                KeyCode::KeyA => 0u8,
                KeyCode::KeyB => 1u8,
                KeyCode::KeyC => 2u8,
                KeyCode::KeyD => 3u8,
                KeyCode::KeyE => 4u8,
                KeyCode::KeyF => 5u8,
                KeyCode::KeyG => 6u8,
                KeyCode::KeyH => 7u8,
                KeyCode::KeyI => 8u8,
                KeyCode::KeyJ => 9u8,
                KeyCode::KeyK => 10u8,
                KeyCode::KeyL => 11u8,
                KeyCode::KeyM => 12u8,
                KeyCode::KeyN => 13u8,
                KeyCode::KeyO => 14u8,
                KeyCode::KeyP => 15u8,
                KeyCode::KeyQ => 16u8,
                KeyCode::KeyR => 17u8,
                KeyCode::KeyS => 18u8,
                KeyCode::KeyT => 19u8,
                KeyCode::KeyU => 20u8,
                KeyCode::KeyV => 21u8,
                KeyCode::KeyW => 22u8,
                KeyCode::KeyX => 23u8,
                KeyCode::KeyY => 24u8,
                KeyCode::KeyZ => 25u8,
                KeyCode::Digit0 => 26u8,
                KeyCode::Digit1 => 27u8,
                KeyCode::Digit2 => 28u8,
                KeyCode::Digit3 => 29u8,
                KeyCode::Digit4 => 30u8,
                KeyCode::Digit5 => 31u8,
                KeyCode::Digit6 => 32u8,
                KeyCode::Digit7 => 33u8,
                KeyCode::Digit8 => 34u8,
                KeyCode::Digit9 => 35u8,
                KeyCode::F1 => 36u8,
                KeyCode::F2 => 37u8,
                KeyCode::F3 => 38u8,
                KeyCode::F4 => 39u8,
                KeyCode::F5 => 40u8,
                KeyCode::F6 => 41u8,
                KeyCode::F7 => 42u8,
                KeyCode::F8 => 43u8,
                KeyCode::F9 => 44u8,
                KeyCode::F10 => 45u8,
                KeyCode::F11 => 46u8,
                KeyCode::F12 => 47u8,
                KeyCode::F13 => 48u8,
                KeyCode::F14 => 49u8,
                KeyCode::F15 => 50u8,
                KeyCode::F16 => 51u8,
                KeyCode::F17 => 52u8,
                KeyCode::F18 => 53u8,
                KeyCode::F19 => 54u8,
                KeyCode::F20 => 55u8,
                KeyCode::F21 => 56u8,
                KeyCode::F22 => 57u8,
                KeyCode::F23 => 58u8,
                KeyCode::F24 => 59u8,
                KeyCode::ArrowUp => 60u8,
                KeyCode::ArrowDown => 61u8,
                KeyCode::ArrowLeft => 62u8,
                KeyCode::ArrowRight => 63u8,
                KeyCode::LeftShift => 64u8,
                KeyCode::RightShift => 65u8,
                KeyCode::LeftCtrl => 66u8,
                KeyCode::RightCtrl => 67u8,
                KeyCode::LeftAlt => 68u8,
                KeyCode::RightAlt => 69u8,
                KeyCode::LeftCmd => 70u8,
                KeyCode::RightCmd => 71u8,
                KeyCode::Fn => 72u8,
                KeyCode::CapsLock => 73u8,
                KeyCode::Return => 74u8,
                KeyCode::Tab => 75u8,
                KeyCode::Space => 76u8,
                KeyCode::Backspace => 77u8,
                KeyCode::Delete => 78u8,
                KeyCode::Escape => 79u8,
                KeyCode::Semicolon => 80u8,
                KeyCode::Quote => 81u8,
                KeyCode::Comma => 82u8,
                KeyCode::Period => 83u8,
                KeyCode::Slash => 84u8,
                KeyCode::Backslash => 85u8,
                KeyCode::Backquote => 86u8,
                KeyCode::Minus => 87u8,
                KeyCode::Equal => 88u8,
                KeyCode::LeftBracket => 89u8,
                KeyCode::RightBracket => 90u8,
                KeyCode::Home => 91u8,
                KeyCode::End => 92u8,
                KeyCode::PageUp => 93u8,
                KeyCode::PageDown => 94u8,
                KeyCode::Insert => 95u8,
            }),
    {
        match self {
            KeyCode::KeyA => 0,
            KeyCode::KeyB => 1,
            KeyCode::KeyC => 2,
            KeyCode::KeyD => 3,
            KeyCode::KeyE => 4,
            KeyCode::KeyF => 5,
            KeyCode::KeyG => 6,
            KeyCode::KeyH => 7,
            KeyCode::KeyI => 8,
            KeyCode::KeyJ => 9,
            KeyCode::KeyK => 10,
            KeyCode::KeyL => 11,
            KeyCode::KeyM => 12,
            KeyCode::KeyN => 13,
            KeyCode::KeyO => 14,
            KeyCode::KeyP => 15,
            KeyCode::KeyQ => 16,
            KeyCode::KeyR => 17,
            KeyCode::KeyS => 18,
            KeyCode::KeyT => 19,
            KeyCode::KeyU => 20,
            KeyCode::KeyV => 21,
            KeyCode::KeyW => 22,
            KeyCode::KeyX => 23,
            KeyCode::KeyY => 24,
            KeyCode::KeyZ => 25,
            KeyCode::Digit0 => 26,
            KeyCode::Digit1 => 27,
            KeyCode::Digit2 => 28,
            KeyCode::Digit3 => 29,
            KeyCode::Digit4 => 30,
            KeyCode::Digit5 => 31,
            KeyCode::Digit6 => 32,
            KeyCode::Digit7 => 33,
            KeyCode::Digit8 => 34,
            KeyCode::Digit9 => 35,
            KeyCode::F1 => 36,
            KeyCode::F2 => 37,
            KeyCode::F3 => 38,
            KeyCode::F4 => 39,
            KeyCode::F5 => 40,
            KeyCode::F6 => 41,
            KeyCode::F7 => 42,
            KeyCode::F8 => 43,
            KeyCode::F9 => 44,
            KeyCode::F10 => 45,
            KeyCode::F11 => 46,
            KeyCode::F12 => 47,
            KeyCode::F13 => 48,
            KeyCode::F14 => 49,
            KeyCode::F15 => 50,
            KeyCode::F16 => 51,
            KeyCode::F17 => 52,
            KeyCode::F18 => 53,
            KeyCode::F19 => 54,
            KeyCode::F20 => 55,
            KeyCode::F21 => 56,
            KeyCode::F22 => 57,
            KeyCode::F23 => 58,
            KeyCode::F24 => 59,
            KeyCode::ArrowUp => 60,
            KeyCode::ArrowDown => 61,
            KeyCode::ArrowLeft => 62,
            KeyCode::ArrowRight => 63,
            KeyCode::LeftShift => 64,
            KeyCode::RightShift => 65,
            KeyCode::LeftCtrl => 66,
            KeyCode::RightCtrl => 67,
            KeyCode::LeftAlt => 68,
            KeyCode::RightAlt => 69,
            KeyCode::LeftCmd => 70,
            KeyCode::RightCmd => 71,
            KeyCode::Fn => 72,
            KeyCode::CapsLock => 73,
            KeyCode::Return => 74,
            KeyCode::Tab => 75,
            KeyCode::Space => 76,
            KeyCode::Backspace => 77,
            KeyCode::Delete => 78,
            KeyCode::Escape => 79,
            KeyCode::Semicolon => 80,
            KeyCode::Quote => 81,
            KeyCode::Comma => 82,
            KeyCode::Period => 83,
            KeyCode::Slash => 84,
            KeyCode::Backslash => 85,
            KeyCode::Backquote => 86,
            KeyCode::Minus => 87,
            KeyCode::Equal => 88,
            KeyCode::LeftBracket => 89,
            KeyCode::RightBracket => 90,
            KeyCode::Home => 91,
            KeyCode::End => 92,
            KeyCode::PageUp => 93,
            KeyCode::PageDown => 94,
            KeyCode::Insert => 95,
        }
    }
}

/// Matching is a partial order on modifier states: every state matches the
/// empty requirement and itself, and a state matches whatever a state it
/// matches matches.
pub proof fn lemma_matches_order(a: Modifiers, b: Modifiers, c: Modifiers)
    ensures
        a@ & 0 == 0,
        a@ & a@ == a@,
        (a@ & b@ == b@ && b@ & c@ == c@) ==> a@ & c@ == c@,
{
    let (x, y, z) = (a@, b@, c@);
    assert(x & 0 == 0) by (bit_vector);
    assert(x & x == x) by (bit_vector);
    assert((x & y == y && y & z == z) ==> x & z == z) by (bit_vector);
}

/// Plain modifier names match either side; side-specific names require
/// their side. With one side of a family held (its side bit together with
/// the family's generic bit, as backends report it), the state meets the
/// family's generic requirement and the held side's requirement, but not
/// the other side's.
pub proof fn lemma_sides_of_a_family(held: KeyCode, other: KeyCode, state: Modifiers)
    requires
        held.modifier_bit()@ != 0,
        other.modifier_bit()@ != 0,
        other != held,
        other.generic_bit() == held.generic_bit(),
        state@ == held.modifier_bit()@ | held.generic_bit()@,
    ensures
        state@ & held.generic_bit()@ == held.generic_bit()@,
        state@ & (held.modifier_bit()@ | held.generic_bit()@) == held.modifier_bit()@ | held.generic_bit()@,
        state@ & (other.modifier_bit()@ | other.generic_bit()@) != other.modifier_bit()@ | other.generic_bit()@,
{
    let (x, kb, ob, g) = (state@, held.modifier_bit()@, other.modifier_bit()@, held.generic_bit()@);
    assert(kb != ob);
    assert(kb == 0x100 || kb == 0x200 || kb == 0x400 || kb == 0x800 || kb == 0x1000 || kb == 0x2000 || kb == 0x4000
        || kb == 0x8000);
    assert(ob == 0x100 || ob == 0x200 || ob == 0x400 || ob == 0x800 || ob == 0x1000 || ob == 0x2000 || ob == 0x4000
        || ob == 0x8000);
    assert(g == 1 || g == 2 || g == 4 || g == 8);
    assert(x & g == g && x & (kb | g) == kb | g && x & (ob | g) != ob | g) by (bit_vector)
        requires
            x == kb | g,
            kb != ob,
            kb == 0x100 || kb == 0x200 || kb == 0x400 || kb == 0x800 || kb == 0x1000 || kb == 0x2000 || kb == 0x4000
                || kb == 0x8000,
            ob == 0x100 || ob == 0x200 || ob == 0x400 || ob == 0x800 || ob == 0x1000 || ob == 0x2000 || ob == 0x4000
                || ob == 0x8000,
            g == 1 || g == 2 || g == 4 || g == 8,
    ;
}

/// Distinct key codes have distinct ordinals, so maps keyed by ordinal
/// keep one entry per key code.
pub proof fn lemma_ordinal_injective(a: KeyCode, b: KeyCode)
    ensures
        a.ordinal() == b.ordinal() ==> a == b,
{
}

} // verus!
