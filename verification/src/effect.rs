//! Side effects that the router asks the session driver to perform.

use vstd::prelude::*;

verus! {

/// What the session driver should do after a routed event. The router
/// returns these instead of performing the effects itself, so the
/// decisions stay plain functions over the state.
#[derive(Debug, Clone, PartialEq, Eq)]
pub enum Effect {
    /// Persist the current results document.
    SaveResults,
    /// End the session.
    Quit,
    /// Type a command string into the embedded terminal.
    InsertTerminalCommand(String),
    /// Forward encoded key bytes to the embedded terminal.
    SendTerminalBytes(Vec<u8>),
}

} // verus!
