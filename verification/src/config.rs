//! Configuration validation.
//!
//! Validates a [`ConfigDoc`] and compiles its bindings into a [`RuleSet`]
//! for the engine.

use vstd::prelude::*;

use crate::action::Action;
use crate::config_models::{ActionDoc, AliasTable, AppAlias, BindingDoc, ConfigDoc, DaemonSection, TriggerDoc, WhenDoc};
use crate::event::{
    KeyCode, Modifiers, MOD_ALT, MOD_CMD, MOD_CTRL, MOD_FN, MOD_LEFT_ALT, MOD_LEFT_CMD, MOD_LEFT_CTRL,
    MOD_LEFT_SHIFT, MOD_RIGHT_ALT, MOD_RIGHT_CMD, MOD_RIGHT_CTRL, MOD_RIGHT_SHIFT, MOD_SHIFT,
};
use crate::rule::{clone_strings, is_hotkey_rule, is_tap_rule, scope_list, Matcher, MatcherView, Rule, RuleSet, RuleSetView};
use crate::tap_fsm::TapFsmView;
use crate::text::{digits_of, str_eq, unsigned_decimal_string};
use crate::trigger::{HotkeyTrigger, TapTrigger, Trigger};

verus! {

/// Target platform for alias resolution.
#[derive(Debug, Clone, Copy, PartialEq, Eq, Structural)]
pub enum Platform {
    MacOS,
    Linux,
    Windows,
}

impl Platform {
    /// The platform of a target operating system, by the name Rust gives it
    /// (`std::env::consts::OS`); macOS for any other.
    pub fn for_target_os(os: &str) -> (r: Platform)
        ensures
            r == if os@ == "linux"@ {
                Platform::Linux
            } else if os@ == "windows"@ {
                Platform::Windows
            } else {
                Platform::MacOS
            },
    {
        if str_eq(os, "linux") {
            Platform::Linux
        } else if str_eq(os, "windows") {
            Platform::Windows
        } else {
            Platform::MacOS
        }
    }
}

/// Fully validated configuration.
#[derive(Debug, Clone)]
pub struct Config {
    pub daemon: DaemonSection,
    pub app_aliases: AliasTable,
    pub rules: RuleSet,
}

/// Why a configuration was refused.
#[derive(Debug, Clone, PartialEq, Eq)]
pub enum ConfigError {
    /// The file could not be read.
    Io { path: String, source: String },
    /// The document is not valid TOML of the expected shape.
    Parse(String),
    /// `log_level` is none of trace, debug, info, warn, error.
    InvalidLogLevel(String),
    /// A key name that names no [`KeyCode`].
    UnknownKey { name: String, index: usize },
    /// A modifier name that names no modifier.
    UnknownModifier { name: String, index: usize },
    /// A `when.app_in` entry that is not in `[app_aliases]`, or that has
    /// no `macos` identifier there.
    UnknownAlias { name: String, index: usize },
    /// A tap trigger with fewer than two taps.
    TapCountTooLow { index: usize, count: u32 },
    /// A tap trigger with a zero window.
    TapWindowZero { index: usize },
    /// A tap trigger on a key that is no modifier.
    TapNotModifier { index: usize, name: String },
}

/// A validated binding, with its scope list by the characters of its entries.
pub ghost struct CompiledRule {
    pub trigger: Trigger,
    pub action: Action,
    pub when_app_in: Option<Seq<String>>,
}

/// The compiled form of a rule.
pub open spec fn compiled(r: Rule) -> CompiledRule {
    CompiledRule { trigger: r.trigger, action: r.action, when_app_in: scope_list(r) }
}

/// True if `set` holds the hotkey rules and the tap rules of `rules`, each
/// in their order there.
pub open spec fn partitions(set: RuleSetView, rules: Seq<Rule>) -> bool {
    &&& set.hotkeys == rules.filter(|x: Rule| is_hotkey_rule(x))
    &&& set.taps == rules.filter(|x: Rule| is_tap_rule(x))
}

/// The accepted log levels.
pub open spec fn log_level_ok(level: Seq<char>) -> bool {
    ||| level == "trace"@
    ||| level == "debug"@
    ||| level == "info"@
    ||| level == "warn"@
    ||| level == "error"@
}

/// The key code a key name stands for: the one whose name it is (see
/// [`KeyCode::name`]), if any.
pub open spec fn key_named(name: Seq<char>) -> Option<KeyCode> {
    if exists|k: KeyCode| #[trigger] key_name(k) == name {
        Some(choose|k: KeyCode| #[trigger] key_name(k) == name)
    } else {
        None
    }
}

/// The name of a key code, as written in configuration files.
pub open spec fn key_name(k: KeyCode) -> Seq<char> {
    k.name()@
}

/// The modifier bits a modifier name stands for. Plain names match either
/// side; `left_*` / `right_*` names carry their side and family bits.
pub open spec fn modifier_named(name: Seq<char>) -> Option<Modifiers> {
    if name == "ctrl"@ {
        Some(Modifiers(MOD_CTRL))
    } else     if name == "shift"@ {
        Some(Modifiers(MOD_SHIFT))
    } else     if name == "alt"@ {
        Some(Modifiers(MOD_ALT))
    } else     if name == "cmd"@ {
        Some(Modifiers(MOD_CMD))
    } else     if name == "meta"@ {
        Some(Modifiers(MOD_CMD))
    } else     if name == "super"@ {
        Some(Modifiers(MOD_CMD))
    } else     if name == "fn"@ {
        Some(Modifiers(MOD_FN))
    } else     if name == "left_ctrl"@ {
        Some(Modifiers(MOD_LEFT_CTRL | MOD_CTRL))
    } else     if name == "right_ctrl"@ {
        Some(Modifiers(MOD_RIGHT_CTRL | MOD_CTRL))
    } else     if name == "left_shift"@ {
        Some(Modifiers(MOD_LEFT_SHIFT | MOD_SHIFT))
    } else     if name == "right_shift"@ {
        Some(Modifiers(MOD_RIGHT_SHIFT | MOD_SHIFT))
    } else     if name == "left_alt"@ {
        Some(Modifiers(MOD_LEFT_ALT | MOD_ALT))
    } else     if name == "right_alt"@ {
        Some(Modifiers(MOD_RIGHT_ALT | MOD_ALT))
    } else     if name == "left_cmd"@ {
        Some(Modifiers(MOD_LEFT_CMD | MOD_CMD))
    } else     if name == "right_cmd"@ {
        Some(Modifiers(MOD_RIGHT_CMD | MOD_CMD))
    } else {
        None
    }
}

/// A key name, or the error naming it.
pub open spec fn key_parse(index: usize, name: String) -> Result<KeyCode, ConfigError> {
    match key_named(name@) {
        Some(k) => Ok(k),
        None => Err(ConfigError::UnknownKey { name, index }),
    }
}

/// The union of a list of modifier names, or the error for the first name
/// that names no modifier.
pub open spec fn mods_parse(index: usize, names: Seq<String>) -> Result<Modifiers, ConfigError>
    decreases names.len(),
{
    if names.len() == 0 {
        Ok(Modifiers(0))
    } else {
        match mods_parse(index, names.drop_last()) {
            Err(e) => Err(e),
            Ok(m) => match modifier_named(names.last()@) {
                Some(b) => Ok(Modifiers(m.0 | b.0)),
                None => Err(ConfigError::UnknownModifier { name: names.last(), index }),
            },
        }
    }
}

/// A trigger document, or the first error it holds: key, then modifiers;
/// for a tap, key, then that it is a modifier, then count, then window.
pub open spec fn trigger_parse(index: usize, t: TriggerDoc) -> Result<Trigger, ConfigError> {
    match t {
        TriggerDoc::Hotkey { key, mods } => match key_parse(index, key) {
            Err(e) => Err(e),
            Ok(k) => match mods_parse(index, mods@) {
                Err(e) => Err(e),
                Ok(m) => Ok(Trigger::Hotkey(HotkeyTrigger { key: k, mods: m })),
            },
        },
        TriggerDoc::Tap { tap, count, within_ms } => match key_parse(index, tap) {
            Err(e) => Err(e),
            Ok(k) => if !k.is_modifier() {
                Err(ConfigError::TapNotModifier { index, name: tap })
            } else if count < 2 {
                Err(ConfigError::TapCountTooLow { index, count })
            } else if within_ms == 0 {
                Err(ConfigError::TapWindowZero { index })
            } else {
                Ok(Trigger::Tap(TapTrigger { tap: k, count, within_ms }))
            },
        },
    }
}

/// An action document, or the first error it holds.
pub open spec fn action_parse(index: usize, a: ActionDoc) -> Result<Action, ConfigError> {
    match a {
        ActionDoc::SendKey { key, mods } => match key_parse(index, key) {
            Err(e) => Err(e),
            Ok(k) => match mods_parse(index, mods@) {
                Err(e) => Err(e),
                Ok(m) => Ok(Action::SendKey { key: k, mods: m }),
            },
        },
        ActionDoc::SetInputSource { id } => Ok(Action::SetInputSource { id }),
    }
}

/// True if `name` is an alias with a macOS identifier, the identifier
/// the running backend consults.
pub open spec fn alias_usable(aliases: Map<Seq<char>, AppAlias>, name: Seq<char>) -> bool {
    aliases.contains_key(name) && aliases[name].macos is Some
}

/// The first name in `names` that is not an alias with a macOS identifier.
pub open spec fn first_unknown_alias(names: Seq<String>, aliases: Map<Seq<char>, AppAlias>) -> Option<String>
    decreases names.len(),
{
    if names.len() == 0 {
        None
    } else {
        match first_unknown_alias(names.drop_last(), aliases) {
            Some(n) => Some(n),
            None => if alias_usable(aliases, names.last()@) {
                None
            } else {
                Some(names.last())
            },
        }
    }
}

/// A scope document, or the error for its first unknown alias.
pub open spec fn scope_parse(index: usize, when: Option<WhenDoc>, aliases: Map<Seq<char>, AppAlias>) -> Result<
    Option<Seq<String>>,
    ConfigError,
> {
    match when {
        None => Ok(None),
        Some(w) => match first_unknown_alias(w.app_in@, aliases) {
            Some(name) => Err(ConfigError::UnknownAlias { name, index }),
            None => Ok(Some(w.app_in@)),
        },
    }
}

/// A binding, or its first error: trigger, then action, then scope.
pub open spec fn binding_parse(index: usize, b: BindingDoc, aliases: Map<Seq<char>, AppAlias>) -> Result<
    CompiledRule,
    ConfigError,
> {
    match trigger_parse(index, b.trigger) {
        Err(e) => Err(e),
        Ok(trigger) => match action_parse(index, b.action) {
            Err(e) => Err(e),
            Ok(action) => match scope_parse(index, b.when, aliases) {
                Err(e) => Err(e),
                Ok(when_app_in) => Ok(CompiledRule { trigger, action, when_app_in }),
            },
        },
    }
}

/// The compiled bindings, or the error of the first binding that has one.
/// A binding's index is its position in the document.
pub open spec fn bindings_parse(bs: Seq<BindingDoc>, aliases: Map<Seq<char>, AppAlias>) -> Result<
    Seq<CompiledRule>,
    ConfigError,
>
    decreases bs.len(),
{
    if bs.len() == 0 {
        Ok(Seq::empty())
    } else {
        match bindings_parse(bs.drop_last(), aliases) {
            Err(e) => Err(e),
            Ok(rs) => match binding_parse((bs.len() - 1) as usize, bs.last(), aliases) {
                Err(e) => Err(e),
                Ok(r) => Ok(rs.push(r)),
            },
        }
    }
}

/// What validating `doc` gives: the log level is checked first, then the
/// bindings in order.
pub open spec fn validation(doc: ConfigDoc) -> Result<Seq<CompiledRule>, ConfigError> {
    if !log_level_ok(doc.daemon.log_level@) {
        Err(ConfigError::InvalidLogLevel(doc.daemon.log_level))
    } else {
        bindings_parse(doc.bindings@, doc.app_aliases@)
    }
}

proof fn lemma_mods_prefix_err(index: usize, names: Seq<String>, k: int)
    requires
        0 <= k <= names.len(),
        mods_parse(index, names.take(k)) is Err,
    ensures
        mods_parse(index, names) == mods_parse(index, names.take(k)),
    decreases names.len(),
{
    if k < names.len() {
        assert(names.drop_last().take(k) == names.take(k));
        lemma_mods_prefix_err(index, names.drop_last(), k);
    } else {
        assert(names.take(k) == names);
    }
}

proof fn lemma_alias_prefix_some(names: Seq<String>, aliases: Map<Seq<char>, AppAlias>, k: int)
    requires
        0 <= k <= names.len(),
        first_unknown_alias(names.take(k), aliases) is Some,
    ensures
        first_unknown_alias(names, aliases) == first_unknown_alias(names.take(k), aliases),
    decreases names.len(),
{
    if k < names.len() {
        assert(names.drop_last().take(k) == names.take(k));
        lemma_alias_prefix_some(names.drop_last(), aliases, k);
    } else {
        assert(names.take(k) == names);
    }
}

proof fn lemma_bindings_prefix_err(bs: Seq<BindingDoc>, aliases: Map<Seq<char>, AppAlias>, k: int)
    requires
        0 <= k <= bs.len(),
        bindings_parse(bs.take(k), aliases) is Err,
    ensures
        bindings_parse(bs, aliases) == bindings_parse(bs.take(k), aliases),
    decreases bs.len(),
{
    if k < bs.len() {
        assert(bs.drop_last().take(k) == bs.take(k));
        lemma_bindings_prefix_err(bs.drop_last(), aliases, k);
    } else {
        assert(bs.take(k) == bs);
    }
}

/// Check the log level.
pub fn validate_log_level(level: &String) -> (r: Result<(), ConfigError>)
    ensures
        match r {
            Ok(()) => log_level_ok(level@),
            Err(e) => !log_level_ok(level@) && e == ConfigError::InvalidLogLevel(*level),
        },
{
    let l = level.as_str();
    if str_eq(l, "trace") || str_eq(l, "debug") || str_eq(l, "info") || str_eq(l, "warn") || str_eq(l, "error") {
        Ok(())
    } else {
        Err(ConfigError::InvalidLogLevel(level.clone()))
    }
}

/// The key code named `name`, if any.
pub fn keycode_from_name(name: &str) -> (r: Option<KeyCode>)
    ensures
        r == key_named(name@),
{
    if str_eq(name, "KeyA") {
        proof {
            lemma_key_named(KeyCode::KeyA, name@);
        }
        return Some(KeyCode::KeyA);
    }
    if str_eq(name, "KeyB") {
        proof {
            lemma_key_named(KeyCode::KeyB, name@);
        }
        return Some(KeyCode::KeyB);
    }
    if str_eq(name, "KeyC") {
        proof {
            lemma_key_named(KeyCode::KeyC, name@);
        }
        return Some(KeyCode::KeyC);
    }
    if str_eq(name, "KeyD") {
        proof {
            lemma_key_named(KeyCode::KeyD, name@);
        }
        return Some(KeyCode::KeyD);
    }
    if str_eq(name, "KeyE") {
        proof {
            lemma_key_named(KeyCode::KeyE, name@);
        }
        return Some(KeyCode::KeyE);
    }
    if str_eq(name, "KeyF") {
        proof {
            lemma_key_named(KeyCode::KeyF, name@);
        }
        return Some(KeyCode::KeyF);
    }
    if str_eq(name, "KeyG") {
        proof {
            lemma_key_named(KeyCode::KeyG, name@);
        }
        return Some(KeyCode::KeyG);
    }
    if str_eq(name, "KeyH") {
        proof {
            lemma_key_named(KeyCode::KeyH, name@);
        }
        return Some(KeyCode::KeyH);
    }
    if str_eq(name, "KeyI") {
        proof {
            lemma_key_named(KeyCode::KeyI, name@);
        }
        return Some(KeyCode::KeyI);
    }
    if str_eq(name, "KeyJ") {
        proof {
            lemma_key_named(KeyCode::KeyJ, name@);
        }
        return Some(KeyCode::KeyJ);
    }
    if str_eq(name, "KeyK") {
        proof {
            lemma_key_named(KeyCode::KeyK, name@);
        }
        return Some(KeyCode::KeyK);
    }
    if str_eq(name, "KeyL") {
        proof {
            lemma_key_named(KeyCode::KeyL, name@);
        }
        return Some(KeyCode::KeyL);
    }
    if str_eq(name, "KeyM") {
        proof {
            lemma_key_named(KeyCode::KeyM, name@);
        }
        return Some(KeyCode::KeyM);
    }
    if str_eq(name, "KeyN") {
        proof {
            lemma_key_named(KeyCode::KeyN, name@);
        }
        return Some(KeyCode::KeyN);
    }
    if str_eq(name, "KeyO") {
        proof {
            lemma_key_named(KeyCode::KeyO, name@);
        }
        return Some(KeyCode::KeyO);
    }
    if str_eq(name, "KeyP") {
        proof {
            lemma_key_named(KeyCode::KeyP, name@);
        }
        return Some(KeyCode::KeyP);
    }
    if str_eq(name, "KeyQ") {
        proof {
            lemma_key_named(KeyCode::KeyQ, name@);
        }
        return Some(KeyCode::KeyQ);
    }
    if str_eq(name, "KeyR") {
        proof {
            lemma_key_named(KeyCode::KeyR, name@);
        }
        return Some(KeyCode::KeyR);
    }
    if str_eq(name, "KeyS") {
        proof {
            lemma_key_named(KeyCode::KeyS, name@);
        }
        return Some(KeyCode::KeyS);
    }
    if str_eq(name, "KeyT") {
        proof {
            lemma_key_named(KeyCode::KeyT, name@);
        }
        return Some(KeyCode::KeyT);
    }
    if str_eq(name, "KeyU") {
        proof {
            lemma_key_named(KeyCode::KeyU, name@);
        }
        return Some(KeyCode::KeyU);
    }
    if str_eq(name, "KeyV") {
        proof {
            lemma_key_named(KeyCode::KeyV, name@);
        }
        return Some(KeyCode::KeyV);
    }
    if str_eq(name, "KeyW") {
        proof {
            lemma_key_named(KeyCode::KeyW, name@);
        }
        return Some(KeyCode::KeyW);
    }
    if str_eq(name, "KeyX") {
        proof {
            lemma_key_named(KeyCode::KeyX, name@);
        }
        return Some(KeyCode::KeyX);
    }
    if str_eq(name, "KeyY") {
        proof {
            lemma_key_named(KeyCode::KeyY, name@);
        }
        return Some(KeyCode::KeyY);
    }
    if str_eq(name, "KeyZ") {
        proof {
            lemma_key_named(KeyCode::KeyZ, name@);
        }
        return Some(KeyCode::KeyZ);
    }
    if str_eq(name, "Digit0") {
        proof {
            lemma_key_named(KeyCode::Digit0, name@);
        }
        return Some(KeyCode::Digit0);
    }
    if str_eq(name, "Digit1") {
        proof {
            lemma_key_named(KeyCode::Digit1, name@);
        }
        return Some(KeyCode::Digit1);
    }
    if str_eq(name, "Digit2") {
        proof {
            lemma_key_named(KeyCode::Digit2, name@);
        }
        return Some(KeyCode::Digit2);
    }
    if str_eq(name, "Digit3") {
        proof {
            lemma_key_named(KeyCode::Digit3, name@);
        }
        return Some(KeyCode::Digit3);
    }
    if str_eq(name, "Digit4") {
        proof {
            lemma_key_named(KeyCode::Digit4, name@);
        }
        return Some(KeyCode::Digit4);
    }
    if str_eq(name, "Digit5") {
        proof {
            lemma_key_named(KeyCode::Digit5, name@);
        }
        return Some(KeyCode::Digit5);
    }
    if str_eq(name, "Digit6") {
        proof {
            lemma_key_named(KeyCode::Digit6, name@);
        }
        return Some(KeyCode::Digit6);
    }
    if str_eq(name, "Digit7") {
        proof {
            lemma_key_named(KeyCode::Digit7, name@);
        }
        return Some(KeyCode::Digit7);
    }
    if str_eq(name, "Digit8") {
        proof {
            lemma_key_named(KeyCode::Digit8, name@);
        }
        return Some(KeyCode::Digit8);
    }
    if str_eq(name, "Digit9") {
        proof {
            lemma_key_named(KeyCode::Digit9, name@);
        }
        return Some(KeyCode::Digit9);
    }
    if str_eq(name, "F1") {
        proof {
            lemma_key_named(KeyCode::F1, name@);
        }
        return Some(KeyCode::F1);
    }
    if str_eq(name, "F2") {
        proof {
            lemma_key_named(KeyCode::F2, name@);
        }
        return Some(KeyCode::F2);
    }
    if str_eq(name, "F3") {
        proof {
            lemma_key_named(KeyCode::F3, name@);
        }
        return Some(KeyCode::F3);
    }
    if str_eq(name, "F4") {
        proof {
            lemma_key_named(KeyCode::F4, name@);
        }
        return Some(KeyCode::F4);
    }
    if str_eq(name, "F5") {
        proof {
            lemma_key_named(KeyCode::F5, name@);
        }
        return Some(KeyCode::F5);
    }
    if str_eq(name, "F6") {
        proof {
            lemma_key_named(KeyCode::F6, name@);
        }
        return Some(KeyCode::F6);
    }
    if str_eq(name, "F7") {
        proof {
            lemma_key_named(KeyCode::F7, name@);
        }
        return Some(KeyCode::F7);
    }
    if str_eq(name, "F8") {
        proof {
            lemma_key_named(KeyCode::F8, name@);
        }
        return Some(KeyCode::F8);
    }
    if str_eq(name, "F9") {
        proof {
            lemma_key_named(KeyCode::F9, name@);
        }
        return Some(KeyCode::F9);
    }
    if str_eq(name, "F10") {
        proof {
            lemma_key_named(KeyCode::F10, name@);
        }
        return Some(KeyCode::F10);
    }
    if str_eq(name, "F11") {
        proof {
            lemma_key_named(KeyCode::F11, name@);
        }
        return Some(KeyCode::F11);
    }
    if str_eq(name, "F12") {
        proof {
            lemma_key_named(KeyCode::F12, name@);
        }
        return Some(KeyCode::F12);
    }
    if str_eq(name, "F13") {
        proof {
            lemma_key_named(KeyCode::F13, name@);
        }
        return Some(KeyCode::F13);
    }
    if str_eq(name, "F14") {
        proof {
            lemma_key_named(KeyCode::F14, name@);
        }
        return Some(KeyCode::F14);
    }
    if str_eq(name, "F15") {
        proof {
            lemma_key_named(KeyCode::F15, name@);
        }
        return Some(KeyCode::F15);
    }
    if str_eq(name, "F16") {
        proof {
            lemma_key_named(KeyCode::F16, name@);
        }
        return Some(KeyCode::F16);
    }
    if str_eq(name, "F17") {
        proof {
            lemma_key_named(KeyCode::F17, name@);
        }
        return Some(KeyCode::F17);
    }
    if str_eq(name, "F18") {
        proof {
            lemma_key_named(KeyCode::F18, name@);
        }
        return Some(KeyCode::F18);
    }
    if str_eq(name, "F19") {
        proof {
            lemma_key_named(KeyCode::F19, name@);
        }
        return Some(KeyCode::F19);
    }
    if str_eq(name, "F20") {
        proof {
            lemma_key_named(KeyCode::F20, name@);
        }
        return Some(KeyCode::F20);
    }
    if str_eq(name, "F21") {
        proof {
            lemma_key_named(KeyCode::F21, name@);
        }
        return Some(KeyCode::F21);
    }
    if str_eq(name, "F22") {
        proof {
            lemma_key_named(KeyCode::F22, name@);
        }
        return Some(KeyCode::F22);
    }
    if str_eq(name, "F23") {
        proof {
            lemma_key_named(KeyCode::F23, name@);
        }
        return Some(KeyCode::F23);
    }
    if str_eq(name, "F24") {
        proof {
            lemma_key_named(KeyCode::F24, name@);
        }
        return Some(KeyCode::F24);
    }
    if str_eq(name, "ArrowUp") {
        proof {
            lemma_key_named(KeyCode::ArrowUp, name@);
        }
        return Some(KeyCode::ArrowUp);
    }
    if str_eq(name, "ArrowDown") {
        proof {
            lemma_key_named(KeyCode::ArrowDown, name@);
        }
        return Some(KeyCode::ArrowDown);
    }
    if str_eq(name, "ArrowLeft") {
        proof {
            lemma_key_named(KeyCode::ArrowLeft, name@);
        }
        return Some(KeyCode::ArrowLeft);
    }
    if str_eq(name, "ArrowRight") {
        proof {
            lemma_key_named(KeyCode::ArrowRight, name@);
        }
        return Some(KeyCode::ArrowRight);
    }
    if str_eq(name, "LeftShift") {
        proof {
            lemma_key_named(KeyCode::LeftShift, name@);
        }
        return Some(KeyCode::LeftShift);
    }
    if str_eq(name, "RightShift") {
        proof {
            lemma_key_named(KeyCode::RightShift, name@);
        }
        return Some(KeyCode::RightShift);
    }
    if str_eq(name, "LeftCtrl") {
        proof {
            lemma_key_named(KeyCode::LeftCtrl, name@);
        }
        return Some(KeyCode::LeftCtrl);
    }
    if str_eq(name, "RightCtrl") {
        proof {
            lemma_key_named(KeyCode::RightCtrl, name@);
        }
        return Some(KeyCode::RightCtrl);
    }
    if str_eq(name, "LeftAlt") {
        proof {
            lemma_key_named(KeyCode::LeftAlt, name@);
        }
        return Some(KeyCode::LeftAlt);
    }
    if str_eq(name, "RightAlt") {
        proof {
            lemma_key_named(KeyCode::RightAlt, name@);
        }
        return Some(KeyCode::RightAlt);
    }
    if str_eq(name, "LeftCmd") {
        proof {
            lemma_key_named(KeyCode::LeftCmd, name@);
        }
        return Some(KeyCode::LeftCmd);
    }
    if str_eq(name, "RightCmd") {
        proof {
            lemma_key_named(KeyCode::RightCmd, name@);
        }
        return Some(KeyCode::RightCmd);
    }
    if str_eq(name, "Fn") {
        proof {
            lemma_key_named(KeyCode::Fn, name@);
        }
        return Some(KeyCode::Fn);
    }
    if str_eq(name, "CapsLock") {
        proof {
            lemma_key_named(KeyCode::CapsLock, name@);
        }
        return Some(KeyCode::CapsLock);
    }
    if str_eq(name, "Return") {
        proof {
            lemma_key_named(KeyCode::Return, name@);
        }
        return Some(KeyCode::Return);
    }
    if str_eq(name, "Tab") {
        proof {
            lemma_key_named(KeyCode::Tab, name@);
        }
        return Some(KeyCode::Tab);
    }
    if str_eq(name, "Space") {
        proof {
            lemma_key_named(KeyCode::Space, name@);
        }
        return Some(KeyCode::Space);
    }
    if str_eq(name, "Backspace") {
        proof {
            lemma_key_named(KeyCode::Backspace, name@);
        }
        return Some(KeyCode::Backspace);
    }
    if str_eq(name, "Delete") {
        proof {
            lemma_key_named(KeyCode::Delete, name@);
        }
        return Some(KeyCode::Delete);
    }
    if str_eq(name, "Escape") {
        proof {
            lemma_key_named(KeyCode::Escape, name@);
        }
        return Some(KeyCode::Escape);
    }
    if str_eq(name, "Semicolon") {
        proof {
            lemma_key_named(KeyCode::Semicolon, name@);
        }
        return Some(KeyCode::Semicolon);
    }
    if str_eq(name, "Quote") {
        proof {
            lemma_key_named(KeyCode::Quote, name@);
        }
        return Some(KeyCode::Quote);
    }
    if str_eq(name, "Comma") {
        proof {
            lemma_key_named(KeyCode::Comma, name@);
        }
        return Some(KeyCode::Comma);
    }
    if str_eq(name, "Period") {
        proof {
            lemma_key_named(KeyCode::Period, name@);
        }
        return Some(KeyCode::Period);
    }
    if str_eq(name, "Slash") {
        proof {
            lemma_key_named(KeyCode::Slash, name@);
        }
        return Some(KeyCode::Slash);
    }
    if str_eq(name, "Backslash") {
        proof {
            lemma_key_named(KeyCode::Backslash, name@);
        }
        return Some(KeyCode::Backslash);
    }
    if str_eq(name, "Backquote") {
        proof {
            lemma_key_named(KeyCode::Backquote, name@);
        }
        return Some(KeyCode::Backquote);
    }
    if str_eq(name, "Minus") {
        proof {
            lemma_key_named(KeyCode::Minus, name@);
        }
        return Some(KeyCode::Minus);
    }
    if str_eq(name, "Equal") {
        proof {
            lemma_key_named(KeyCode::Equal, name@);
        }
        return Some(KeyCode::Equal);
    }
    if str_eq(name, "LeftBracket") {
        proof {
            lemma_key_named(KeyCode::LeftBracket, name@);
        }
        return Some(KeyCode::LeftBracket);
    }
    if str_eq(name, "RightBracket") {
        proof {
            lemma_key_named(KeyCode::RightBracket, name@);
        }
        return Some(KeyCode::RightBracket);
    }
    if str_eq(name, "Home") {
        proof {
            lemma_key_named(KeyCode::Home, name@);
        }
        return Some(KeyCode::Home);
    }
    if str_eq(name, "End") {
        proof {
            lemma_key_named(KeyCode::End, name@);
        }
        return Some(KeyCode::End);
    }
    if str_eq(name, "PageUp") {
        proof {
            lemma_key_named(KeyCode::PageUp, name@);
        }
        return Some(KeyCode::PageUp);
    }
    if str_eq(name, "PageDown") {
        proof {
            lemma_key_named(KeyCode::PageDown, name@);
        }
        return Some(KeyCode::PageDown);
    }
    if str_eq(name, "Insert") {
        proof {
            lemma_key_named(KeyCode::Insert, name@);
        }
        return Some(KeyCode::Insert);
    }
    proof {
        assert forall|k: KeyCode| #[trigger] key_name(k) != name@ by {}
    }
    None
}

/// The modifier bits named `name`, if any.
pub fn mod_from_name(name: &str) -> (r: Option<Modifiers>)
    ensures
        r == modifier_named(name@),
{
    if str_eq(name, "ctrl") {
        return Some(Modifiers(MOD_CTRL));
    }
    if str_eq(name, "shift") {
        return Some(Modifiers(MOD_SHIFT));
    }
    if str_eq(name, "alt") {
        return Some(Modifiers(MOD_ALT));
    }
    if str_eq(name, "cmd") {
        return Some(Modifiers(MOD_CMD));
    }
    if str_eq(name, "meta") {
        return Some(Modifiers(MOD_CMD));
    }
    if str_eq(name, "super") {
        return Some(Modifiers(MOD_CMD));
    }
    if str_eq(name, "fn") {
        return Some(Modifiers(MOD_FN));
    }
    if str_eq(name, "left_ctrl") {
        return Some(Modifiers(MOD_LEFT_CTRL | MOD_CTRL));
    }
    if str_eq(name, "right_ctrl") {
        return Some(Modifiers(MOD_RIGHT_CTRL | MOD_CTRL));
    }
    if str_eq(name, "left_shift") {
        return Some(Modifiers(MOD_LEFT_SHIFT | MOD_SHIFT));
    }
    if str_eq(name, "right_shift") {
        return Some(Modifiers(MOD_RIGHT_SHIFT | MOD_SHIFT));
    }
    if str_eq(name, "left_alt") {
        return Some(Modifiers(MOD_LEFT_ALT | MOD_ALT));
    }
    if str_eq(name, "right_alt") {
        return Some(Modifiers(MOD_RIGHT_ALT | MOD_ALT));
    }
    if str_eq(name, "left_cmd") {
        return Some(Modifiers(MOD_LEFT_CMD | MOD_CMD));
    }
    if str_eq(name, "right_cmd") {
        return Some(Modifiers(MOD_RIGHT_CMD | MOD_CMD));
    }
    None
}

fn parse_keycode(index: usize, name: &String) -> (r: Result<KeyCode, ConfigError>)
    ensures
        r == key_parse(index, *name),
{
    match keycode_from_name(name.as_str()) {
        Some(k) => Ok(k),
        None => Err(ConfigError::UnknownKey { name: name.clone(), index }),
    }
}

fn parse_mods(index: usize, list: &Vec<String>) -> (r: Result<Modifiers, ConfigError>)
    ensures
        r == mods_parse(index, list@),
{
    let mut m = Modifiers::empty();
    for i in 0..list.len()
        invariant
            mods_parse(index, list@.take(i as int)) == Ok::<Modifiers, ConfigError>(m),
    {
        proof {
            assert(list@.take(i + 1).drop_last() == list@.take(i as int));
        }
        match mod_from_name(list[i].as_str()) {
            Some(b) => {
                m = m | b;
            },
            None => {
                proof {
                    lemma_mods_prefix_err(index, list@, i + 1);
                }
                return Err(ConfigError::UnknownModifier { name: list[i].clone(), index });
            },
        }
    }
    proof {
        assert(list@.take(list@.len() as int) == list@);
    }
    Ok(m)
}

fn parse_trigger(index: usize, t: &TriggerDoc) -> (r: Result<Trigger, ConfigError>)
    ensures
        r == trigger_parse(index, *t),
{
    match t {
        TriggerDoc::Hotkey { key, mods } => {
            let key = parse_keycode(index, key)?;
            let mods = parse_mods(index, mods)?;
            Ok(Trigger::Hotkey(HotkeyTrigger { key, mods }))
        },
        TriggerDoc::Tap { tap, count, within_ms } => {
            let key = parse_keycode(index, tap)?;
            if !key.is_modifier() {
                return Err(ConfigError::TapNotModifier { index, name: tap.clone() });
            }
            if *count < 2 {
                return Err(ConfigError::TapCountTooLow { index, count: *count });
            }
            if *within_ms == 0 {
                return Err(ConfigError::TapWindowZero { index });
            }
            Ok(Trigger::Tap(TapTrigger { tap: key, count: *count, within_ms: *within_ms }))
        },
    }
}

fn parse_action(index: usize, a: &ActionDoc) -> (r: Result<Action, ConfigError>)
    ensures
        r == action_parse(index, *a),
{
    match a {
        ActionDoc::SendKey { key, mods } => {
            let key = parse_keycode(index, key)?;
            let mods = parse_mods(index, mods)?;
            Ok(Action::SendKey { key, mods })
        },
        ActionDoc::SetInputSource { id } => Ok(Action::SetInputSource { id: id.clone() }),
    }
}

fn validate_when(index: usize, w: &WhenDoc, aliases: &AliasTable) -> (r: Result<Vec<String>, ConfigError>)
    ensures
        match r {
            Ok(v) => first_unknown_alias(w.app_in@, aliases@) is None && v@ == w.app_in@,
            Err(e) => first_unknown_alias(w.app_in@, aliases@) matches Some(name) && e
                == ConfigError::UnknownAlias { name, index },
        },
{
    for i in 0..w.app_in.len()
        invariant
            first_unknown_alias(w.app_in@.take(i as int), aliases@) is None,
    {
        proof {
            assert(w.app_in@.take(i + 1).drop_last() == w.app_in@.take(i as int));
        }
        let usable = match aliases.get(w.app_in[i].as_str()) {
            Some(a) => a.macos.is_some(),
            None => false,
        };
        if !usable {
            proof {
                lemma_alias_prefix_some(w.app_in@, aliases@, i + 1);
            }
            return Err(ConfigError::UnknownAlias { name: w.app_in[i].clone(), index });
        }
    }
    proof {
        assert(w.app_in@.take(w.app_in@.len() as int) == w.app_in@);
    }
    Ok(clone_strings(&w.app_in))
}

fn validate_binding(index: usize, b: &BindingDoc, aliases: &AliasTable) -> (r: Result<Rule, ConfigError>)
    ensures
        match r {
            Ok(rule) => binding_parse(index, *b, aliases@) == Ok::<CompiledRule, ConfigError>(compiled(rule)),
            Err(e) => binding_parse(index, *b, aliases@) == Err::<CompiledRule, ConfigError>(e),
        },
{
    let trigger = parse_trigger(index, &b.trigger)?;
    let action = parse_action(index, &b.action)?;
    let when_app_in = match &b.when {
        Some(w) => Some(validate_when(index, w, aliases)?),
        None => None,
    };
    Ok(Rule { trigger, action, when_app_in })
}

/// Validate a parsed document and compile its bindings.
pub fn validate(doc: ConfigDoc) -> (r: Result<Config, ConfigError>)
    ensures
        match r {
            Ok(cfg) => {
                &&& validation(doc) is Ok
                &&& cfg.daemon == doc.daemon
                &&& cfg.app_aliases == doc.app_aliases
                &&& exists|rules: Seq<Rule>|
                    #[trigger] partitions(cfg.rules@, rules) && rules.map_values(|x: Rule| compiled(x))
                        == validation(doc)->Ok_0
            },
            Err(e) => validation(doc) == Err::<Seq<CompiledRule>, ConfigError>(e),
        },
{
    if let Err(e) = validate_log_level(&doc.daemon.log_level) {
        return Err(e);
    }
    let n = doc.bindings.len();
    let mut rules: Vec<Rule> = Vec::with_capacity(n);
    proof {
        assert(doc.bindings@.take(0) =~= Seq::<BindingDoc>::empty());
        assert(rules@.map_values(|x: Rule| compiled(x)) =~= Seq::<CompiledRule>::empty());
    }
    for i in 0..n
        invariant
            n == doc.bindings@.len(),
            log_level_ok(doc.daemon.log_level@),
            bindings_parse(doc.bindings@.take(i as int), doc.app_aliases@) == Ok::<Seq<CompiledRule>, ConfigError>(
                rules@.map_values(|x: Rule| compiled(x)),
            ),
    {
        proof {
            assert(doc.bindings@.take(i + 1).drop_last() == doc.bindings@.take(i as int));
        }
        match validate_binding(i, &doc.bindings[i], &doc.app_aliases) {
            Ok(rule) => {
                let ghost prev = rules@;
                let ghost added = rule;
                rules.push(rule);
                proof {
                    assert(rules@.map_values(|x: Rule| compiled(x)) =~= prev.map_values(|x: Rule| compiled(x)).push(
                        compiled(added),
                    ));
                }
            },
            Err(e) => {
                proof {
                    assert(doc.bindings@.take(i + 1).last() == doc.bindings@[i as int]);
                    lemma_bindings_prefix_err(doc.bindings@, doc.app_aliases@, i + 1);
                }
                return Err(e);
            },
        }
    }
    proof {
        assert(doc.bindings@.take(n as int) == doc.bindings@);
    }
    let ghost all = rules@;
    assert(all.map_values(|x: Rule| compiled(x)) == validation(doc)->Ok_0);
    let compiled_rules = RuleSet::new(rules);
    let cfg = Config { daemon: doc.daemon, app_aliases: doc.app_aliases, rules: compiled_rules };
    assert(validation(doc) is Ok);
    assert(partitions(cfg.rules@, all) && all.map_values(|x: Rule| compiled(x)) == validation(doc)->Ok_0);
    Ok(cfg)
}

/// The one-line summary of a validated configuration.
pub open spec fn summary_line(cfg: Config) -> Seq<char> {
    "OK: "@ + digits_of((cfg.rules@.hotkeys.len() + cfg.rules@.taps.len()) as nat) + " rule(s), "@ + digits_of(
        cfg.app_aliases.entry_seq().len(),
    ) + " alias(es), log_level="@ + cfg.daemon.log_level@
}

/// The one-line summary printed for a configuration that validates.
pub fn validation_summary(cfg: &Config) -> (r: String)
    ensures
        r@ == summary_line(*cfg),
{
    let rules = unsigned_decimal_string(cfg.rules.len() as u64);
    let aliases = unsigned_decimal_string(cfg.app_aliases.len() as u64);
    String::from_str("OK: ").concat(rules.as_str()).concat(" rule(s), ").concat(aliases.as_str()).concat(
        " alias(es), log_level=",
    ).concat(cfg.daemon.log_level.as_str())
}

/// Apply a reload outcome to the live matcher. A configuration that loaded
/// and validated has its rules swapped in, and their number is returned; a
/// failure leaves the matcher exactly as it was and is returned as is.
pub fn apply_reload(matcher: &mut Matcher, loaded: Result<Config, ConfigError>) -> (r: Result<usize, ConfigError>)
    ensures
        match loaded {
            Ok(cfg) => {
                &&& r == Ok::<usize, ConfigError>((cfg.rules@.hotkeys.len() + cfg.rules@.taps.len()) as usize)
                &&& final(matcher)@ == (MatcherView {
                    rules: cfg.rules@,
                    fsm: TapFsmView::initial(),
                    swallowed: Set::empty(),
                    runs: Seq::empty(),
                    ..old(matcher)@
                })
            },
            Err(e) => {
                &&& r == Err::<usize, ConfigError>(e)
                &&& final(matcher)@ == old(matcher)@
            },
        },
{
    match loaded {
        Ok(cfg) => {
            let count = cfg.rules.len();
            matcher.swap_rules(cfg.rules);
            Ok(count)
        },
        Err(e) => Err(e),
    }
}

/// The identifier an alias has on `platform`.
pub open spec fn alias_for(a: AppAlias, platform: Platform) -> Option<String> {
    match platform {
        Platform::MacOS => a.macos,
        Platform::Linux => a.linux,
        Platform::Windows => a.windows,
    }
}

/// Resolve a logical alias to `platform`'s identifier. `None` if the alias
/// does not exist or has no entry for the platform.
pub fn resolve_alias<'a>(aliases: &'a AliasTable, name: &str, platform: Platform) -> (r: Option<&'a str>)
    ensures
        match r {
            Some(id) => {
                &&& aliases@.contains_key(name@)
                &&& alias_for(aliases@[name@], platform) matches Some(s)
                &&& id@ == s@
            },
            None => !aliases@.contains_key(name@) || alias_for(aliases@[name@], platform) is None,
        },
{
    let a = aliases.get(name)?;
    let id = match platform {
        Platform::MacOS => &a.macos,
        Platform::Linux => &a.linux,
        Platform::Windows => &a.windows,
    };
    match id {
        Some(s) => Some(s.as_str()),
        None => None,
    }
}

/// The name of the first entry, at or after `from`, whose macOS
/// identifier is `bundle_id`.
pub open spec fn first_logical(entries: Seq<(String, AppAlias)>, bundle_id: Seq<char>, from: int) -> Option<String>
    decreases entries.len() - from,
{
    if from < 0 || from >= entries.len() {
        None
    } else if entries[from].1.macos matches Some(id) && id@ == bundle_id {
        Some(entries[from].0)
    } else {
        first_logical(entries, bundle_id, from + 1)
    }
}

/// The logical name of the alias whose macOS identifier is `bundle_id`:
/// the first such entry of the table.
pub fn resolve_logical(aliases: &AliasTable, bundle_id: &str) -> (r: Option<String>)
    ensures
        r == first_logical(aliases.entry_seq(), bundle_id@, 0),
{
    let entries = aliases.entries();
    let mut i: usize = 0;
    while i < entries.len()
        invariant
            0 <= i <= entries@.len(),
            entries@ == aliases.entry_seq(),
            first_logical(entries@, bundle_id@, 0) == first_logical(entries@, bundle_id@, i as int),
        decreases entries@.len() - i,
    {
        let matched = match &entries[i].1.macos {
            Some(id) => str_eq(id.as_str(), bundle_id),
            None => false,
        };
        if matched {
            return Some(entries[i].0.clone());
        }
        i = i + 1;
    }
    None
}

/// The app identifier to match rules against: the logical alias name of
/// the focused app if one has its bundle id, else the bundle id itself.
pub open spec fn app_for_match_spec(aliases: AliasTable, focused: Option<Seq<char>>) -> Option<Seq<char>> {
    match focused {
        None => None,
        Some(bid) => match first_logical(aliases.entry_seq(), bid, 0) {
            Some(name) => Some(name@),
            None => Some(bid),
        },
    }
}

/// Resolve the focused app's bundle id to the identifier rules are scoped
/// by.
pub fn app_for_match(aliases: &AliasTable, focused_app: Option<&str>) -> (r: Option<String>)
    ensures
        match r {
            Some(s) => app_for_match_spec(*aliases, crate::rule::app_view(focused_app)) == Some(s@),
            None => app_for_match_spec(*aliases, crate::rule::app_view(focused_app)) is None,
        },
{
    match focused_app {
        None => None,
        Some(bid) => match resolve_logical(aliases, bid) {
            Some(name) => Some(name),
            None => Some(String::from_str(bid)),
        },
    }
}

/// True if a compiled rule is well formed: a tap trigger asks for at least
/// two taps of a modifier key within a non-zero window, and every scope
/// entry names an alias with a macOS identifier.
pub open spec fn well_formed(r: CompiledRule, aliases: Map<Seq<char>, AppAlias>) -> bool {
    &&& (r.trigger matches Trigger::Tap(t) ==> t.count >= 2 && t.within_ms > 0 && t.tap.is_modifier())
    &&& (r.when_app_in matches Some(list) ==> forall|j: int| 0 <= j < list.len() ==> alias_usable(
        aliases,
        (#[trigger] list[j])@,
    ))
}

proof fn lemma_scope_names_known(names: Seq<String>, aliases: Map<Seq<char>, AppAlias>)
    requires
        first_unknown_alias(names, aliases) is None,
    ensures
        forall|j: int| 0 <= j < names.len() ==> alias_usable(aliases, (#[trigger] names[j])@),
    decreases names.len(),
{
    if names.len() > 0 {
        lemma_scope_names_known(names.drop_last(), aliases);
        assert forall|j: int| 0 <= j < names.len() implies alias_usable(aliases, (#[trigger] names[j])@) by {
            if j < names.len() - 1 {
                assert(names[j] == names.drop_last()[j]);
            }
        }
    }
}

/// A document that validates compiles to one rule per binding, and every
/// compiled rule is well formed.
pub proof fn lemma_validated_bindings(bs: Seq<BindingDoc>, aliases: Map<Seq<char>, AppAlias>)
    requires
        bindings_parse(bs, aliases) is Ok,
    ensures
        bindings_parse(bs, aliases)->Ok_0.len() == bs.len(),
        forall|i: int|
            0 <= i < bs.len() ==> well_formed(#[trigger] bindings_parse(bs, aliases)->Ok_0[i], aliases),
    decreases bs.len(),
{
    if bs.len() > 0 {
        lemma_validated_bindings(bs.drop_last(), aliases);
        let last = binding_parse((bs.len() - 1) as usize, bs.last(), aliases)->Ok_0;
        if let Some(w) = bs.last().when {
            lemma_scope_names_known(w.app_in@, aliases);
        }
        assert(well_formed(last, aliases));
    }
}

/// What a successful validation guarantees of the configuration: the log
/// level is one of the five accepted, and the bindings compiled one rule
/// each, all well formed.
pub proof fn lemma_validated_config(doc: ConfigDoc)
    requires
        validation(doc) is Ok,
    ensures
        log_level_ok(doc.daemon.log_level@),
        validation(doc)->Ok_0.len() == doc.bindings@.len(),
        forall|i: int|
            0 <= i < doc.bindings@.len() ==> well_formed(#[trigger] validation(doc)->Ok_0[i], doc.app_aliases@),
{
    lemma_validated_bindings(doc.bindings@, doc.app_aliases@);
}

/// The name of `k`, and only that name, stands for `k`.
proof fn lemma_key_named(k: KeyCode, name: Seq<char>)
    requires
        k.name()@ == name,
    ensures
        key_named(name) == Some(k),
{
    assert(key_name(k) == name);
    let c = choose|k: KeyCode| #[trigger] key_name(k) == name;
    lemma_key_names_distinct(c, k);
}

/// Every key code's name, as written in configuration files, names that
/// key code.
pub proof fn lemma_key_names_roundtrip(k: KeyCode)
    ensures
        key_named(k.name()@) == Some(k),
{
    lemma_key_named(k, k.name()@);
}

/// Distinct key codes have distinct names.
pub proof fn lemma_key_names_distinct(a: KeyCode, b: KeyCode)
    requires
        a.name()@ == b.name()@,
    ensures
        a == b,
{
    reveal_strlit("KeyA");
    assert("KeyA"@.len() == 4 && "KeyA"@[0] == 'K' && "KeyA"@[1] == 'e' && "KeyA"@[2] == 'y' && "KeyA"@[3] == 'A');
    reveal_strlit("KeyB");
    assert("KeyB"@.len() == 4 && "KeyB"@[0] == 'K' && "KeyB"@[1] == 'e' && "KeyB"@[2] == 'y' && "KeyB"@[3] == 'B');
    reveal_strlit("KeyC");
    assert("KeyC"@.len() == 4 && "KeyC"@[0] == 'K' && "KeyC"@[1] == 'e' && "KeyC"@[2] == 'y' && "KeyC"@[3] == 'C');
    reveal_strlit("KeyD");
    assert("KeyD"@.len() == 4 && "KeyD"@[0] == 'K' && "KeyD"@[1] == 'e' && "KeyD"@[2] == 'y' && "KeyD"@[3] == 'D');
    reveal_strlit("KeyE");
    assert("KeyE"@.len() == 4 && "KeyE"@[0] == 'K' && "KeyE"@[1] == 'e' && "KeyE"@[2] == 'y' && "KeyE"@[3] == 'E');
    reveal_strlit("KeyF");
    assert("KeyF"@.len() == 4 && "KeyF"@[0] == 'K' && "KeyF"@[1] == 'e' && "KeyF"@[2] == 'y' && "KeyF"@[3] == 'F');
    reveal_strlit("KeyG");
    assert("KeyG"@.len() == 4 && "KeyG"@[0] == 'K' && "KeyG"@[1] == 'e' && "KeyG"@[2] == 'y' && "KeyG"@[3] == 'G');
    reveal_strlit("KeyH");
    assert("KeyH"@.len() == 4 && "KeyH"@[0] == 'K' && "KeyH"@[1] == 'e' && "KeyH"@[2] == 'y' && "KeyH"@[3] == 'H');
    reveal_strlit("KeyI");
    assert("KeyI"@.len() == 4 && "KeyI"@[0] == 'K' && "KeyI"@[1] == 'e' && "KeyI"@[2] == 'y' && "KeyI"@[3] == 'I');
    reveal_strlit("KeyJ");
    assert("KeyJ"@.len() == 4 && "KeyJ"@[0] == 'K' && "KeyJ"@[1] == 'e' && "KeyJ"@[2] == 'y' && "KeyJ"@[3] == 'J');
    reveal_strlit("KeyK");
    assert("KeyK"@.len() == 4 && "KeyK"@[0] == 'K' && "KeyK"@[1] == 'e' && "KeyK"@[2] == 'y' && "KeyK"@[3] == 'K');
    reveal_strlit("KeyL");
    assert("KeyL"@.len() == 4 && "KeyL"@[0] == 'K' && "KeyL"@[1] == 'e' && "KeyL"@[2] == 'y' && "KeyL"@[3] == 'L');
    reveal_strlit("KeyM");
    assert("KeyM"@.len() == 4 && "KeyM"@[0] == 'K' && "KeyM"@[1] == 'e' && "KeyM"@[2] == 'y' && "KeyM"@[3] == 'M');
    reveal_strlit("KeyN");
    assert("KeyN"@.len() == 4 && "KeyN"@[0] == 'K' && "KeyN"@[1] == 'e' && "KeyN"@[2] == 'y' && "KeyN"@[3] == 'N');
    reveal_strlit("KeyO");
    assert("KeyO"@.len() == 4 && "KeyO"@[0] == 'K' && "KeyO"@[1] == 'e' && "KeyO"@[2] == 'y' && "KeyO"@[3] == 'O');
    reveal_strlit("KeyP");
    assert("KeyP"@.len() == 4 && "KeyP"@[0] == 'K' && "KeyP"@[1] == 'e' && "KeyP"@[2] == 'y' && "KeyP"@[3] == 'P');
    reveal_strlit("KeyQ");
    assert("KeyQ"@.len() == 4 && "KeyQ"@[0] == 'K' && "KeyQ"@[1] == 'e' && "KeyQ"@[2] == 'y' && "KeyQ"@[3] == 'Q');
    reveal_strlit("KeyR");
    assert("KeyR"@.len() == 4 && "KeyR"@[0] == 'K' && "KeyR"@[1] == 'e' && "KeyR"@[2] == 'y' && "KeyR"@[3] == 'R');
    reveal_strlit("KeyS");
    assert("KeyS"@.len() == 4 && "KeyS"@[0] == 'K' && "KeyS"@[1] == 'e' && "KeyS"@[2] == 'y' && "KeyS"@[3] == 'S');
    reveal_strlit("KeyT");
    assert("KeyT"@.len() == 4 && "KeyT"@[0] == 'K' && "KeyT"@[1] == 'e' && "KeyT"@[2] == 'y' && "KeyT"@[3] == 'T');
    reveal_strlit("KeyU");
    assert("KeyU"@.len() == 4 && "KeyU"@[0] == 'K' && "KeyU"@[1] == 'e' && "KeyU"@[2] == 'y' && "KeyU"@[3] == 'U');
    reveal_strlit("KeyV");
    assert("KeyV"@.len() == 4 && "KeyV"@[0] == 'K' && "KeyV"@[1] == 'e' && "KeyV"@[2] == 'y' && "KeyV"@[3] == 'V');
    reveal_strlit("KeyW");
    assert("KeyW"@.len() == 4 && "KeyW"@[0] == 'K' && "KeyW"@[1] == 'e' && "KeyW"@[2] == 'y' && "KeyW"@[3] == 'W');
    reveal_strlit("KeyX");
    assert("KeyX"@.len() == 4 && "KeyX"@[0] == 'K' && "KeyX"@[1] == 'e' && "KeyX"@[2] == 'y' && "KeyX"@[3] == 'X');
    reveal_strlit("KeyY");
    assert("KeyY"@.len() == 4 && "KeyY"@[0] == 'K' && "KeyY"@[1] == 'e' && "KeyY"@[2] == 'y' && "KeyY"@[3] == 'Y');
    reveal_strlit("KeyZ");
    assert("KeyZ"@.len() == 4 && "KeyZ"@[0] == 'K' && "KeyZ"@[1] == 'e' && "KeyZ"@[2] == 'y' && "KeyZ"@[3] == 'Z');
    reveal_strlit("Digit0");
    assert("Digit0"@.len() == 6 && "Digit0"@[0] == 'D' && "Digit0"@[1] == 'i' && "Digit0"@[2] == 'g' && "Digit0"@[3] == 'i' && "Digit0"@[4] == 't' && "Digit0"@[5] == '0');
    reveal_strlit("Digit1");
    assert("Digit1"@.len() == 6 && "Digit1"@[0] == 'D' && "Digit1"@[1] == 'i' && "Digit1"@[2] == 'g' && "Digit1"@[3] == 'i' && "Digit1"@[4] == 't' && "Digit1"@[5] == '1');
    reveal_strlit("Digit2");
    assert("Digit2"@.len() == 6 && "Digit2"@[0] == 'D' && "Digit2"@[1] == 'i' && "Digit2"@[2] == 'g' && "Digit2"@[3] == 'i' && "Digit2"@[4] == 't' && "Digit2"@[5] == '2');
    reveal_strlit("Digit3");
    assert("Digit3"@.len() == 6 && "Digit3"@[0] == 'D' && "Digit3"@[1] == 'i' && "Digit3"@[2] == 'g' && "Digit3"@[3] == 'i' && "Digit3"@[4] == 't' && "Digit3"@[5] == '3');
    reveal_strlit("Digit4");
    assert("Digit4"@.len() == 6 && "Digit4"@[0] == 'D' && "Digit4"@[1] == 'i' && "Digit4"@[2] == 'g' && "Digit4"@[3] == 'i' && "Digit4"@[4] == 't' && "Digit4"@[5] == '4');
    reveal_strlit("Digit5");
    assert("Digit5"@.len() == 6 && "Digit5"@[0] == 'D' && "Digit5"@[1] == 'i' && "Digit5"@[2] == 'g' && "Digit5"@[3] == 'i' && "Digit5"@[4] == 't' && "Digit5"@[5] == '5');
    reveal_strlit("Digit6");
    assert("Digit6"@.len() == 6 && "Digit6"@[0] == 'D' && "Digit6"@[1] == 'i' && "Digit6"@[2] == 'g' && "Digit6"@[3] == 'i' && "Digit6"@[4] == 't' && "Digit6"@[5] == '6');
    reveal_strlit("Digit7");
    assert("Digit7"@.len() == 6 && "Digit7"@[0] == 'D' && "Digit7"@[1] == 'i' && "Digit7"@[2] == 'g' && "Digit7"@[3] == 'i' && "Digit7"@[4] == 't' && "Digit7"@[5] == '7');
    reveal_strlit("Digit8");
    assert("Digit8"@.len() == 6 && "Digit8"@[0] == 'D' && "Digit8"@[1] == 'i' && "Digit8"@[2] == 'g' && "Digit8"@[3] == 'i' && "Digit8"@[4] == 't' && "Digit8"@[5] == '8');
    reveal_strlit("Digit9");
    assert("Digit9"@.len() == 6 && "Digit9"@[0] == 'D' && "Digit9"@[1] == 'i' && "Digit9"@[2] == 'g' && "Digit9"@[3] == 'i' && "Digit9"@[4] == 't' && "Digit9"@[5] == '9');
    reveal_strlit("F1");
    assert("F1"@.len() == 2 && "F1"@[0] == 'F' && "F1"@[1] == '1');
    reveal_strlit("F2");
    assert("F2"@.len() == 2 && "F2"@[0] == 'F' && "F2"@[1] == '2');
    reveal_strlit("F3");
    assert("F3"@.len() == 2 && "F3"@[0] == 'F' && "F3"@[1] == '3');
    reveal_strlit("F4");
    assert("F4"@.len() == 2 && "F4"@[0] == 'F' && "F4"@[1] == '4');
    reveal_strlit("F5");
    assert("F5"@.len() == 2 && "F5"@[0] == 'F' && "F5"@[1] == '5');
    reveal_strlit("F6");
    assert("F6"@.len() == 2 && "F6"@[0] == 'F' && "F6"@[1] == '6');
    reveal_strlit("F7");
    assert("F7"@.len() == 2 && "F7"@[0] == 'F' && "F7"@[1] == '7');
    reveal_strlit("F8");
    assert("F8"@.len() == 2 && "F8"@[0] == 'F' && "F8"@[1] == '8');
    reveal_strlit("F9");
    assert("F9"@.len() == 2 && "F9"@[0] == 'F' && "F9"@[1] == '9');
    reveal_strlit("F10");
    assert("F10"@.len() == 3 && "F10"@[0] == 'F' && "F10"@[1] == '1' && "F10"@[2] == '0');
    reveal_strlit("F11");
    assert("F11"@.len() == 3 && "F11"@[0] == 'F' && "F11"@[1] == '1' && "F11"@[2] == '1');
    reveal_strlit("F12");
    assert("F12"@.len() == 3 && "F12"@[0] == 'F' && "F12"@[1] == '1' && "F12"@[2] == '2');
    reveal_strlit("F13");
    assert("F13"@.len() == 3 && "F13"@[0] == 'F' && "F13"@[1] == '1' && "F13"@[2] == '3');
    reveal_strlit("F14");
    assert("F14"@.len() == 3 && "F14"@[0] == 'F' && "F14"@[1] == '1' && "F14"@[2] == '4');
    reveal_strlit("F15");
    assert("F15"@.len() == 3 && "F15"@[0] == 'F' && "F15"@[1] == '1' && "F15"@[2] == '5');
    reveal_strlit("F16");
    assert("F16"@.len() == 3 && "F16"@[0] == 'F' && "F16"@[1] == '1' && "F16"@[2] == '6');
    reveal_strlit("F17");
    assert("F17"@.len() == 3 && "F17"@[0] == 'F' && "F17"@[1] == '1' && "F17"@[2] == '7');
    reveal_strlit("F18");
    assert("F18"@.len() == 3 && "F18"@[0] == 'F' && "F18"@[1] == '1' && "F18"@[2] == '8');
    reveal_strlit("F19");
    assert("F19"@.len() == 3 && "F19"@[0] == 'F' && "F19"@[1] == '1' && "F19"@[2] == '9');
    reveal_strlit("F20");
    assert("F20"@.len() == 3 && "F20"@[0] == 'F' && "F20"@[1] == '2' && "F20"@[2] == '0');
    reveal_strlit("F21");
    assert("F21"@.len() == 3 && "F21"@[0] == 'F' && "F21"@[1] == '2' && "F21"@[2] == '1');
    reveal_strlit("F22");
    assert("F22"@.len() == 3 && "F22"@[0] == 'F' && "F22"@[1] == '2' && "F22"@[2] == '2');
    reveal_strlit("F23");
    assert("F23"@.len() == 3 && "F23"@[0] == 'F' && "F23"@[1] == '2' && "F23"@[2] == '3');
    reveal_strlit("F24");
    assert("F24"@.len() == 3 && "F24"@[0] == 'F' && "F24"@[1] == '2' && "F24"@[2] == '4');
    reveal_strlit("ArrowUp");
    assert("ArrowUp"@.len() == 7 && "ArrowUp"@[0] == 'A' && "ArrowUp"@[1] == 'r' && "ArrowUp"@[2] == 'r' && "ArrowUp"@[3] == 'o' && "ArrowUp"@[4] == 'w' && "ArrowUp"@[5] == 'U');
    reveal_strlit("ArrowDown");
    assert("ArrowDown"@.len() == 9 && "ArrowDown"@[0] == 'A' && "ArrowDown"@[1] == 'r' && "ArrowDown"@[2] == 'r' && "ArrowDown"@[3] == 'o' && "ArrowDown"@[4] == 'w' && "ArrowDown"@[5] == 'D');
    reveal_strlit("ArrowLeft");
    assert("ArrowLeft"@.len() == 9 && "ArrowLeft"@[0] == 'A' && "ArrowLeft"@[1] == 'r' && "ArrowLeft"@[2] == 'r' && "ArrowLeft"@[3] == 'o' && "ArrowLeft"@[4] == 'w' && "ArrowLeft"@[5] == 'L');
    reveal_strlit("ArrowRight");
    assert("ArrowRight"@.len() == 10 && "ArrowRight"@[0] == 'A' && "ArrowRight"@[1] == 'r' && "ArrowRight"@[2] == 'r' && "ArrowRight"@[3] == 'o' && "ArrowRight"@[4] == 'w' && "ArrowRight"@[5] == 'R');
    reveal_strlit("LeftShift");
    assert("LeftShift"@.len() == 9 && "LeftShift"@[0] == 'L' && "LeftShift"@[1] == 'e' && "LeftShift"@[2] == 'f' && "LeftShift"@[3] == 't' && "LeftShift"@[4] == 'S' && "LeftShift"@[5] == 'h');
    reveal_strlit("RightShift");
    assert("RightShift"@.len() == 10 && "RightShift"@[0] == 'R' && "RightShift"@[1] == 'i' && "RightShift"@[2] == 'g' && "RightShift"@[3] == 'h' && "RightShift"@[4] == 't' && "RightShift"@[5] == 'S');
    reveal_strlit("LeftCtrl");
    assert("LeftCtrl"@.len() == 8 && "LeftCtrl"@[0] == 'L' && "LeftCtrl"@[1] == 'e' && "LeftCtrl"@[2] == 'f' && "LeftCtrl"@[3] == 't' && "LeftCtrl"@[4] == 'C' && "LeftCtrl"@[5] == 't');
    reveal_strlit("RightCtrl");
    assert("RightCtrl"@.len() == 9 && "RightCtrl"@[0] == 'R' && "RightCtrl"@[1] == 'i' && "RightCtrl"@[2] == 'g' && "RightCtrl"@[3] == 'h' && "RightCtrl"@[4] == 't' && "RightCtrl"@[5] == 'C');
    reveal_strlit("LeftAlt");
    assert("LeftAlt"@.len() == 7 && "LeftAlt"@[0] == 'L' && "LeftAlt"@[1] == 'e' && "LeftAlt"@[2] == 'f' && "LeftAlt"@[3] == 't' && "LeftAlt"@[4] == 'A' && "LeftAlt"@[5] == 'l');
    reveal_strlit("RightAlt");
    assert("RightAlt"@.len() == 8 && "RightAlt"@[0] == 'R' && "RightAlt"@[1] == 'i' && "RightAlt"@[2] == 'g' && "RightAlt"@[3] == 'h' && "RightAlt"@[4] == 't' && "RightAlt"@[5] == 'A');
    reveal_strlit("LeftCmd");
    assert("LeftCmd"@.len() == 7 && "LeftCmd"@[0] == 'L' && "LeftCmd"@[1] == 'e' && "LeftCmd"@[2] == 'f' && "LeftCmd"@[3] == 't' && "LeftCmd"@[4] == 'C' && "LeftCmd"@[5] == 'm');
    reveal_strlit("RightCmd");
    assert("RightCmd"@.len() == 8 && "RightCmd"@[0] == 'R' && "RightCmd"@[1] == 'i' && "RightCmd"@[2] == 'g' && "RightCmd"@[3] == 'h' && "RightCmd"@[4] == 't' && "RightCmd"@[5] == 'C');
    reveal_strlit("Fn");
    assert("Fn"@.len() == 2 && "Fn"@[0] == 'F' && "Fn"@[1] == 'n');
    reveal_strlit("CapsLock");
    assert("CapsLock"@.len() == 8 && "CapsLock"@[0] == 'C' && "CapsLock"@[1] == 'a' && "CapsLock"@[2] == 'p' && "CapsLock"@[3] == 's' && "CapsLock"@[4] == 'L' && "CapsLock"@[5] == 'o');
    reveal_strlit("Return");
    assert("Return"@.len() == 6 && "Return"@[0] == 'R' && "Return"@[1] == 'e' && "Return"@[2] == 't' && "Return"@[3] == 'u' && "Return"@[4] == 'r' && "Return"@[5] == 'n');
    reveal_strlit("Tab");
    assert("Tab"@.len() == 3 && "Tab"@[0] == 'T' && "Tab"@[1] == 'a' && "Tab"@[2] == 'b');
    reveal_strlit("Space");
    assert("Space"@.len() == 5 && "Space"@[0] == 'S' && "Space"@[1] == 'p' && "Space"@[2] == 'a' && "Space"@[3] == 'c' && "Space"@[4] == 'e');
    reveal_strlit("Backspace");
    assert("Backspace"@.len() == 9 && "Backspace"@[0] == 'B' && "Backspace"@[1] == 'a' && "Backspace"@[2] == 'c' && "Backspace"@[3] == 'k' && "Backspace"@[4] == 's' && "Backspace"@[5] == 'p');
    reveal_strlit("Delete");
    assert("Delete"@.len() == 6 && "Delete"@[0] == 'D' && "Delete"@[1] == 'e' && "Delete"@[2] == 'l' && "Delete"@[3] == 'e' && "Delete"@[4] == 't' && "Delete"@[5] == 'e');
    reveal_strlit("Escape");
    assert("Escape"@.len() == 6 && "Escape"@[0] == 'E' && "Escape"@[1] == 's' && "Escape"@[2] == 'c' && "Escape"@[3] == 'a' && "Escape"@[4] == 'p' && "Escape"@[5] == 'e');
    reveal_strlit("Semicolon");
    assert("Semicolon"@.len() == 9 && "Semicolon"@[0] == 'S' && "Semicolon"@[1] == 'e' && "Semicolon"@[2] == 'm' && "Semicolon"@[3] == 'i' && "Semicolon"@[4] == 'c' && "Semicolon"@[5] == 'o');
    reveal_strlit("Quote");
    assert("Quote"@.len() == 5 && "Quote"@[0] == 'Q' && "Quote"@[1] == 'u' && "Quote"@[2] == 'o' && "Quote"@[3] == 't' && "Quote"@[4] == 'e');
    reveal_strlit("Comma");
    assert("Comma"@.len() == 5 && "Comma"@[0] == 'C' && "Comma"@[1] == 'o' && "Comma"@[2] == 'm' && "Comma"@[3] == 'm' && "Comma"@[4] == 'a');
    reveal_strlit("Period");
    assert("Period"@.len() == 6 && "Period"@[0] == 'P' && "Period"@[1] == 'e' && "Period"@[2] == 'r' && "Period"@[3] == 'i' && "Period"@[4] == 'o' && "Period"@[5] == 'd');
    reveal_strlit("Slash");
    assert("Slash"@.len() == 5 && "Slash"@[0] == 'S' && "Slash"@[1] == 'l' && "Slash"@[2] == 'a' && "Slash"@[3] == 's' && "Slash"@[4] == 'h');
    reveal_strlit("Backslash");
    assert("Backslash"@.len() == 9 && "Backslash"@[0] == 'B' && "Backslash"@[1] == 'a' && "Backslash"@[2] == 'c' && "Backslash"@[3] == 'k' && "Backslash"@[4] == 's' && "Backslash"@[5] == 'l');
    reveal_strlit("Backquote");
    assert("Backquote"@.len() == 9 && "Backquote"@[0] == 'B' && "Backquote"@[1] == 'a' && "Backquote"@[2] == 'c' && "Backquote"@[3] == 'k' && "Backquote"@[4] == 'q' && "Backquote"@[5] == 'u');
    reveal_strlit("Minus");
    assert("Minus"@.len() == 5 && "Minus"@[0] == 'M' && "Minus"@[1] == 'i' && "Minus"@[2] == 'n' && "Minus"@[3] == 'u' && "Minus"@[4] == 's');
    reveal_strlit("Equal");
    assert("Equal"@.len() == 5 && "Equal"@[0] == 'E' && "Equal"@[1] == 'q' && "Equal"@[2] == 'u' && "Equal"@[3] == 'a' && "Equal"@[4] == 'l');
    reveal_strlit("LeftBracket");
    assert("LeftBracket"@.len() == 11 && "LeftBracket"@[0] == 'L' && "LeftBracket"@[1] == 'e' && "LeftBracket"@[2] == 'f' && "LeftBracket"@[3] == 't' && "LeftBracket"@[4] == 'B' && "LeftBracket"@[5] == 'r');
    reveal_strlit("RightBracket");
    assert("RightBracket"@.len() == 12 && "RightBracket"@[0] == 'R' && "RightBracket"@[1] == 'i' && "RightBracket"@[2] == 'g' && "RightBracket"@[3] == 'h' && "RightBracket"@[4] == 't' && "RightBracket"@[5] == 'B');
    reveal_strlit("Home");
    assert("Home"@.len() == 4 && "Home"@[0] == 'H' && "Home"@[1] == 'o' && "Home"@[2] == 'm' && "Home"@[3] == 'e');
    reveal_strlit("End");
    assert("End"@.len() == 3 && "End"@[0] == 'E' && "End"@[1] == 'n' && "End"@[2] == 'd');
    reveal_strlit("PageUp");
    assert("PageUp"@.len() == 6 && "PageUp"@[0] == 'P' && "PageUp"@[1] == 'a' && "PageUp"@[2] == 'g' && "PageUp"@[3] == 'e' && "PageUp"@[4] == 'U' && "PageUp"@[5] == 'p');
    reveal_strlit("PageDown");
    assert("PageDown"@.len() == 8 && "PageDown"@[0] == 'P' && "PageDown"@[1] == 'a' && "PageDown"@[2] == 'g' && "PageDown"@[3] == 'e' && "PageDown"@[4] == 'D' && "PageDown"@[5] == 'o');
    reveal_strlit("Insert");
    assert("Insert"@.len() == 6 && "Insert"@[0] == 'I' && "Insert"@[1] == 'n' && "Insert"@[2] == 's' && "Insert"@[3] == 'e' && "Insert"@[4] == 'r' && "Insert"@[5] == 't');
}

/// True if `name` begins with `left_`.
pub open spec fn has_left_prefix(name: Seq<char>) -> bool {
    name.len() >= 5 && name.take(5) == "left_"@
}

/// True if `name` begins with `right_`.
pub open spec fn has_right_prefix(name: Seq<char>) -> bool {
    name.len() >= 6 && name.take(6) == "right_"@
}

/// True if `bits` is exactly one generic modifier bit.
pub open spec fn one_generic_bit(bits: u32) -> bool {
    bits == MOD_CTRL || bits == MOD_SHIFT || bits == MOD_ALT || bits == MOD_CMD || bits == MOD_FN
}

/// True if `bits` is exactly one left side bit together with its family's
/// generic bit.
pub open spec fn one_left_side_with_family(bits: u32) -> bool {
    ||| bits == MOD_LEFT_CTRL | MOD_CTRL
    ||| bits == MOD_LEFT_SHIFT | MOD_SHIFT
    ||| bits == MOD_LEFT_ALT | MOD_ALT
    ||| bits == MOD_LEFT_CMD | MOD_CMD
}

/// True if `bits` is exactly one right side bit together with its
/// family's generic bit.
pub open spec fn one_right_side_with_family(bits: u32) -> bool {
    ||| bits == MOD_RIGHT_CTRL | MOD_CTRL
    ||| bits == MOD_RIGHT_SHIFT | MOD_SHIFT
    ||| bits == MOD_RIGHT_ALT | MOD_ALT
    ||| bits == MOD_RIGHT_CMD | MOD_CMD
}

/// Plain modifier names (`ctrl`, `shift`, `alt`, `cmd` and its aliases
/// `meta` and `super`, `fn`) stand for exactly one generic family bit and
/// no side bit, so either side satisfies them; a name with a `left_`
/// (`right_`) prefix stands for exactly one left (right) side bit together
/// with the generic bit of that side's family.
pub proof fn lemma_plain_modifier_names_match_either_side(name: Seq<char>)
    ensures
        modifier_named(name) matches Some(m) ==> ((has_left_prefix(name) ==> one_left_side_with_family(m@)) && (
        has_right_prefix(name) ==> one_right_side_with_family(m@)) && (!has_left_prefix(name) && !has_right_prefix(
            name,
        ) ==> one_generic_bit(m@))),
{
    reveal_strlit("ctrl");
    assert("ctrl"@.len() == 4 && "ctrl"@[0] == 'c' && "ctrl"@[1] == 't' && "ctrl"@[2] == 'r' && "ctrl"@[3] == 'l');
    reveal_strlit("shift");
    assert("shift"@.len() == 5 && "shift"@[0] == 's' && "shift"@[1] == 'h' && "shift"@[2] == 'i' && "shift"@[3] == 'f' && "shift"@[4] == 't');
    reveal_strlit("alt");
    assert("alt"@.len() == 3 && "alt"@[0] == 'a' && "alt"@[1] == 'l' && "alt"@[2] == 't');
    reveal_strlit("cmd");
    assert("cmd"@.len() == 3 && "cmd"@[0] == 'c' && "cmd"@[1] == 'm' && "cmd"@[2] == 'd');
    reveal_strlit("meta");
    assert("meta"@.len() == 4 && "meta"@[0] == 'm' && "meta"@[1] == 'e' && "meta"@[2] == 't' && "meta"@[3] == 'a');
    reveal_strlit("super");
    assert("super"@.len() == 5 && "super"@[0] == 's' && "super"@[1] == 'u' && "super"@[2] == 'p' && "super"@[3] == 'e' && "super"@[4] == 'r');
    reveal_strlit("fn");
    assert("fn"@.len() == 2 && "fn"@[0] == 'f' && "fn"@[1] == 'n');
    reveal_strlit("left_ctrl");
    assert("left_ctrl"@.len() == 9 && "left_ctrl"@[0] == 'l' && "left_ctrl"@[1] == 'e' && "left_ctrl"@[2] == 'f' && "left_ctrl"@[3] == 't' && "left_ctrl"@[4] == '_' && "left_ctrl"@[5] == 'c' && "left_ctrl"@[6] == 't' && "left_ctrl"@[7] == 'r' && "left_ctrl"@[8] == 'l');
    reveal_strlit("right_ctrl");
    assert("right_ctrl"@.len() == 10 && "right_ctrl"@[0] == 'r' && "right_ctrl"@[1] == 'i' && "right_ctrl"@[2] == 'g' && "right_ctrl"@[3] == 'h' && "right_ctrl"@[4] == 't' && "right_ctrl"@[5] == '_' && "right_ctrl"@[6] == 'c' && "right_ctrl"@[7] == 't' && "right_ctrl"@[8] == 'r' && "right_ctrl"@[9] == 'l');
    reveal_strlit("left_shift");
    assert("left_shift"@.len() == 10 && "left_shift"@[0] == 'l' && "left_shift"@[1] == 'e' && "left_shift"@[2] == 'f' && "left_shift"@[3] == 't' && "left_shift"@[4] == '_' && "left_shift"@[5] == 's' && "left_shift"@[6] == 'h' && "left_shift"@[7] == 'i' && "left_shift"@[8] == 'f' && "left_shift"@[9] == 't');
    reveal_strlit("right_shift");
    assert("right_shift"@.len() == 11 && "right_shift"@[0] == 'r' && "right_shift"@[1] == 'i' && "right_shift"@[2] == 'g' && "right_shift"@[3] == 'h' && "right_shift"@[4] == 't' && "right_shift"@[5] == '_' && "right_shift"@[6] == 's' && "right_shift"@[7] == 'h' && "right_shift"@[8] == 'i' && "right_shift"@[9] == 'f' && "right_shift"@[10] == 't');
    reveal_strlit("left_alt");
    assert("left_alt"@.len() == 8 && "left_alt"@[0] == 'l' && "left_alt"@[1] == 'e' && "left_alt"@[2] == 'f' && "left_alt"@[3] == 't' && "left_alt"@[4] == '_' && "left_alt"@[5] == 'a' && "left_alt"@[6] == 'l' && "left_alt"@[7] == 't');
    reveal_strlit("right_alt");
    assert("right_alt"@.len() == 9 && "right_alt"@[0] == 'r' && "right_alt"@[1] == 'i' && "right_alt"@[2] == 'g' && "right_alt"@[3] == 'h' && "right_alt"@[4] == 't' && "right_alt"@[5] == '_' && "right_alt"@[6] == 'a' && "right_alt"@[7] == 'l' && "right_alt"@[8] == 't');
    reveal_strlit("left_cmd");
    assert("left_cmd"@.len() == 8 && "left_cmd"@[0] == 'l' && "left_cmd"@[1] == 'e' && "left_cmd"@[2] == 'f' && "left_cmd"@[3] == 't' && "left_cmd"@[4] == '_' && "left_cmd"@[5] == 'c' && "left_cmd"@[6] == 'm' && "left_cmd"@[7] == 'd');
    reveal_strlit("right_cmd");
    assert("right_cmd"@.len() == 9 && "right_cmd"@[0] == 'r' && "right_cmd"@[1] == 'i' && "right_cmd"@[2] == 'g' && "right_cmd"@[3] == 'h' && "right_cmd"@[4] == 't' && "right_cmd"@[5] == '_' && "right_cmd"@[6] == 'c' && "right_cmd"@[7] == 'm' && "right_cmd"@[8] == 'd');
    reveal_strlit("left_");
    assert("left_"@.len() == 5 && "left_"@[0] == 'l' && "left_"@[1] == 'e' && "left_"@[2] == 'f' && "left_"@[3] == 't' && "left_"@[4] == '_');
    reveal_strlit("right_");
    assert("right_"@.len() == 6 && "right_"@[0] == 'r' && "right_"@[1] == 'i' && "right_"@[2] == 'g' && "right_"@[3] == 'h' && "right_"@[4] == 't' && "right_"@[5] == '_');
    if name.len() >= 5 && name.take(5) == "left_"@ {
        assert(name[0] == name.take(5)[0]);
    }
    if name.len() >= 6 && name.take(6) == "right_"@ {
        assert(name[0] == name.take(6)[0]);
    }
    if name == "left_ctrl"@ {
        assert(name.take(5) =~= "left_"@);
    }
    if name == "right_ctrl"@ {
        assert(name.take(6) =~= "right_"@);
    }
    if name == "left_shift"@ {
        assert(name.take(5) =~= "left_"@);
    }
    if name == "right_shift"@ {
        assert(name.take(6) =~= "right_"@);
    }
    if name == "left_alt"@ {
        assert(name.take(5) =~= "left_"@);
    }
    if name == "right_alt"@ {
        assert(name.take(6) =~= "right_"@);
    }
    if name == "left_cmd"@ {
        assert(name.take(5) =~= "left_"@);
    }
    if name == "right_cmd"@ {
        assert(name.take(6) =~= "right_"@);
    }
}

/// The logical name that a bundle id resolves to is that of an entry with
/// that macOS identifier, and there is none only when no entry has it.
pub proof fn lemma_logical_name_has_the_bundle_id(entries: Seq<(String, AppAlias)>, bundle_id: Seq<char>, from: int)
    requires
        0 <= from,
    ensures
        first_logical(entries, bundle_id, from) matches Some(n) ==> exists|j: int|
            from <= j < entries.len() && (#[trigger] entries[j]).0 == n && (entries[j].1.macos matches Some(id)
                && id@ == bundle_id),
        first_logical(entries, bundle_id, from) is None ==> forall|j: int|
            from <= j < entries.len() ==> !((#[trigger] entries[j]).1.macos matches Some(id) && id@ == bundle_id),
    decreases entries.len() - from,
{
    if from < entries.len() {
        lemma_logical_name_has_the_bundle_id(entries, bundle_id, from + 1);
        if entries[from].1.macos matches Some(id) && id@ == bundle_id {
            let e = entries[from];
        }
    }
}

/// Resolving an alias for a platform reads that platform's own field of
/// the alias.
pub proof fn lemma_alias_per_platform(a: AppAlias)
    ensures
        alias_for(a, Platform::MacOS) == a.macos,
        alias_for(a, Platform::Linux) == a.linux,
        alias_for(a, Platform::Windows) == a.windows,
{
}

/// A tap trigger is accepted exactly when it names a modifier key, asks
/// for at least two taps and has a non-zero window, and then it keeps that
/// key, count and window.
pub proof fn lemma_tap_trigger_acceptance(index: usize, tap: String, count: u32, within_ms: u32)
    ensures
        trigger_parse(index, TriggerDoc::Tap { tap, count, within_ms }) is Ok <==> (key_named(tap@) matches Some(
            k,
        ) && k.is_modifier() && count >= 2 && within_ms > 0),
        trigger_parse(index, TriggerDoc::Tap { tap, count, within_ms }) matches Ok(Trigger::Tap(t)) ==> (t.count
            == count && t.within_ms == within_ms && key_named(tap@) == Some(t.tap)),
{
}

/// A modifier list is accepted exactly when every entry names a modifier,
/// and then the state it stands for holds every bit each entry names.
pub proof fn lemma_modifier_list_holds_every_name(index: usize, names: Seq<String>)
    ensures
        mods_parse(index, names) is Ok <==> forall|j: int| 0 <= j < names.len() ==> (#[trigger] modifier_named(
            names[j]@,
        )) is Some,
        mods_parse(index, names) matches Ok(m) ==> forall|j: int|
            0 <= j < names.len() ==> (#[trigger] modifier_named(names[j]@) matches Some(b) && m@ & b@ == b@),
    decreases names.len(),
{
    if names.len() > 0 {
        let prev = names.drop_last();
        lemma_modifier_list_holds_every_name(index, prev);
        assert forall|j: int| 0 <= j < prev.len() implies names[j] == prev[j] by {}
        if let Ok(m) = mods_parse(index, prev) {
            if let Some(b) = modifier_named(names.last()@) {
                let (x, y) = (m@, b@);
                assert((x | y) & y == y) by (bit_vector);
                assert forall|j: int| 0 <= j < prev.len() implies (#[trigger] modifier_named(prev[j]@) matches Some(
                    c,
                ) && (x | y) & c@ == c@) by {
                    if let Some(c) = modifier_named(prev[j]@) {
                        let z = c@;
                        assert(x & z == z ==> (x | y) & z == z) by (bit_vector);
                    }
                }
            }
        }
    }
}

} // verus!
