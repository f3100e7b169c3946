//! Actions that rules can produce.

use vstd::prelude::*;

use crate::event::{KeyCode, Modifiers};

verus! {

/// Action produced by a matched rule.
#[derive(Debug, PartialEq, Eq)]
pub enum Action {
    /// Synthesize a keystroke (down + up) with the given modifiers.
    SendKey { key: KeyCode, mods: Modifiers },
    /// Switch the active input source.
    SetInputSource { id: String },
}

impl Clone for Action {
    fn clone(&self) -> (r: Action)
        ensures
            r == *self,
    {
        match self {
            Action::SendKey { key, mods } => Action::SendKey { key: *key, mods: *mods },
            Action::SetInputSource { id } => Action::SetInputSource { id: id.clone() },
        }
    }
}

} // verus!
