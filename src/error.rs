use vstd::prelude::*;

verus! {

/// The kinds of failure the harness distinguishes.
#[derive(Clone, Copy, Debug, PartialEq, Eq, Structural)]
pub enum HarnessError {
    /// The engine handed over data outside its documented contract.
    ProtocolViolation,
    /// A device index lies outside the range the model was sized for.
    OutOfRange,
    /// A requested game is absent from the engine's catalog.
    NotFound,
    /// The engine is in a state that does not allow the requested operation.
    StateConflict,
    /// The producer side of a frame channel has gone away.
    ChannelDisconnected,
    /// A platform resource could not be initialised.
    ResourceUnavailable,
}

} // verus!
