//! Platform backend interface.
//!
//! Each platform implements [`InputBackend`] to deliver normalized
//! [`KeyEvent`]s to the engine and to execute the [`Action`]s it produces.

use vstd::prelude::*;

use crate::action::Action;
use crate::event::KeyEvent;

verus! {

/// What the engine wants the backend to do with an incoming event.
#[derive(Debug, Clone, Copy, PartialEq, Eq, Structural)]
pub enum BackendVerdict {
    /// Pass the event through unmodified.
    Pass,
    /// Swallow the event (drop it).
    Swallow,
}

/// Platform backend abstraction. Backends run their own event loop and call
/// the [`EventSink`] synchronously from it.
pub trait InputBackend {
    /// Run the backend; does not return under normal operation. Fails if
    /// the system-level hooks cannot be installed.
    fn run(&mut self, sink: Box<dyn EventSink>) -> Result<(), BackendError>;

    /// Synthesize an action, typically the result of a matched rule.
    fn inject(&self, action: &Action) -> Result<(), BackendError>;
}

/// Callback the backend invokes for each incoming event. `focused_app` is
/// the focused application's identifier, if known.
pub trait EventSink {
    fn on_event(&mut self, event: KeyEvent, focused_app: Option<&str>) -> BackendVerdict;
}

/// Errors a backend can raise.
#[derive(Debug, Clone, PartialEq, Eq)]
pub enum BackendError {
    MissingPermission(String),
    TapInstall(String),
    Inject(String),
    UnknownInputSource(String),
    Other(String),
}

} // verus!
