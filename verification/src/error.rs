//! What can go wrong during a switch.

use vstd::prelude::*;

verus! {

/// The failures that a switch can meet. None of them keeps the client from
/// being launched.
#[derive(Debug, Clone, Copy, PartialEq, Eq, Structural)]
pub enum SwitchError {
    /// The client's configuration or its state store does not exist: the
    /// client was never set up and there is nothing to switch.
    MissingConfig,
    /// A key-value text cannot be read, or the configuration lacks one of the
    /// three keys of a session.
    MalformedConfig,
    /// The binary state store cannot be parsed. The player name is then left
    /// as it was.
    CorruptState,
    /// Writing the vault, the configuration or the state store failed.
    IoFailure,
}

} // verus!
