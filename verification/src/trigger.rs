//! Trigger definitions: what causes a rule to fire.

use vstd::prelude::*;

use crate::event::{KeyCode, Modifiers};

verus! {

/// A trigger is a hotkey (modifiers + key) or a modifier tap (the same
/// modifier pressed several times in a row).
#[derive(Debug, Clone, Copy, PartialEq, Eq, Structural)]
pub enum Trigger {
    Hotkey(HotkeyTrigger),
    Tap(TapTrigger),
}

/// A modifiers + key hotkey.
#[derive(Debug, Clone, Copy, PartialEq, Eq, Structural)]
pub struct HotkeyTrigger {
    pub key: KeyCode,
    pub mods: Modifiers,
}

/// A modifier-tap trigger: `count` taps of the modifier `tap` in a row,
/// each released at most `within_ms` milliseconds after the previous one.
/// Validated configurations have `count >= 2`, `within_ms > 0` and a
/// modifier key in `tap`.
#[derive(Debug, Clone, Copy, PartialEq, Eq, Structural)]
pub struct TapTrigger {
    pub tap: KeyCode,
    pub count: u32,
    pub within_ms: u32,
}

} // verus!
