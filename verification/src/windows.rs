//! Windows backend placeholder: every operation reports that it is not
//! implemented.

use vstd::prelude::*;

use crate::action::Action;
use crate::backend::{BackendError, EventSink, InputBackend};

verus! {

/// Placeholder backend that returns errors for everything.
#[derive(Debug)]
pub struct WindowsBackend;

impl WindowsBackend {
    pub fn new() -> (r: WindowsBackend) {
        WindowsBackend
    }
}

impl Default for WindowsBackend {
    fn default() -> (r: WindowsBackend) {
        WindowsBackend::new()
    }
}

impl InputBackend for WindowsBackend {
    fn run(&mut self, sink: Box<dyn EventSink>) -> (r: Result<(), BackendError>)
        ensures
            r matches Err(BackendError::Other(m)) && m@ == "sledge_windows backend is not yet implemented"@,
    {
        Err(BackendError::Other(String::from_str("sledge_windows backend is not yet implemented")))
    }

    fn inject(&self, action: &Action) -> (r: Result<(), BackendError>)
        ensures
            r matches Err(BackendError::Other(m)) && m@ == "sledge_windows backend is not yet implemented"@,
    {
        Err(BackendError::Other(String::from_str("sledge_windows backend is not yet implemented")))
    }
}

} // verus!
