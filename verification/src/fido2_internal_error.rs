//! The ways in which the engine rejects an input.

use vstd::prelude::*;

verus! {

/// Why a packet, a payload or a buffer was rejected. None of these is fatal:
/// each is reported to the caller, who answers the host with an error
/// response and carries on.
#[derive(Debug, Clone, Copy, PartialEq, Eq, Structural)]
pub enum FIDO2InternalError {
    /// The channel identifier is one the protocol reserves.
    ReversedChannelError,
    /// A declared or actual length is outside the protocol's bounds.
    DataLengthError,
    /// The command tag is not one of the known commands.
    CommandNotFoundError,
    /// The channel identifier is not currently allocated.
    UnknownChannelError,
    /// The destination cannot hold what has to be written to it.
    BufferTooSmallError,
}

} // verus!
