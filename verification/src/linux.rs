//! Linux backend placeholder: every operation reports that it is not
//! implemented.

use vstd::prelude::*;

use crate::action::Action;
use crate::backend::{BackendError, EventSink, InputBackend};

verus! {

/// Placeholder backend that returns errors for everything.
#[derive(Debug)]
pub struct LinuxBackend;

impl LinuxBackend {
    pub fn new() -> (r: LinuxBackend) {
        LinuxBackend
    }
}

impl Default for LinuxBackend {
    fn default() -> (r: LinuxBackend) {
        LinuxBackend::new()
    }
}

impl InputBackend for LinuxBackend {
    fn run(&mut self, sink: Box<dyn EventSink>) -> (r: Result<(), BackendError>)
        ensures
            r matches Err(BackendError::Other(m)) && m@ == "sledge_linux backend is not yet implemented"@,
    {
        Err(BackendError::Other(String::from_str("sledge_linux backend is not yet implemented")))
    }

    fn inject(&self, action: &Action) -> (r: Result<(), BackendError>)
        ensures
            r matches Err(BackendError::Other(m)) && m@ == "sledge_linux backend is not yet implemented"@,
    {
        Err(BackendError::Other(String::from_str("sledge_linux backend is not yet implemented")))
    }
}

} // verus!
