//! Keyboard-event engine: normalized key model, rule matching, the
//! modifier-tap state machine and configuration validation.

pub mod action;
pub mod backend;
pub mod cli;
pub mod config;
pub mod config_models;
pub mod event;
pub mod ipc;
pub mod linux;
pub mod mac;
pub mod paths;
pub mod rule;
pub mod tap_fsm;
pub mod text;
pub mod trigger;
pub mod watch;
pub mod windows;
