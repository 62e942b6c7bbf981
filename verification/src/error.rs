//! The kinds of failure that a session knows.

use vstd::prelude::*;

verus! {

/// Why a session ended early, or why an input was turned down.
#[derive(Debug, Clone, Copy, PartialEq, Eq, Structural)]
pub enum Error {
    /// Reading from or writing to the channel failed.
    TransportIo,
    /// The peer sent what the protocol does not allow at this point.
    ProtocolViolation,
    /// The local input does not fit the state of the game. The session goes
    /// on as if the input had not been made.
    LocalInputRejected,
    /// The peer's reveal does not open its commitment.
    CryptoFailure,
    /// The local peer asked to quit.
    CancelRequested,
}

impl Error {
    /// Whether the session survives the failure. Only a rejected local input
    /// leaves it running.
    pub open spec fn recoverable(self) -> bool {
        self == Error::LocalInputRejected
    }

    /// Whether the session survives the failure.
    pub fn is_recoverable(&self) -> (recoverable: bool)
        ensures
            recoverable == self.recoverable(),
    {
        match self {
            Error::LocalInputRejected => true,
            _ => false,
        }
    }
}

} // verus!
