//! Protocol limits and the device identity that an INIT response reports.

use vstd::prelude::*;

verus! {

/// Major device version number.
pub const MAJOR_VERSION: u8 = 1;

/// Minor device version number.
pub const MINOR_VERSION: u8 = 0;

/// Build device version number.
pub const BUILD_VERSION: u8 = 1;

/// CTAPHID protocol version.
pub const PROTOCOL_VERSION: u8 = 2;

/// Size of one physical HID packet.
pub const FIDO2_PACKET_SIZE: usize = 64;

/// Longest message the protocol can carry: one initiation packet and 128
/// continuation packets.
pub const FIDO2_MAX_DATA_LENGTH: usize = 7609;

/// Payload bytes of an initiation packet: 64 minus the 7-byte header.
pub const FIDO2_MAX_NORMAL_PACKET_DATA_SIZE: usize = 57;

/// Payload bytes of a continuation packet: 64 minus the 5-byte header.
pub const FIDO2_MAX_CHUNK_PACKET_DATA_SIZE: usize = 59;

/// Number of continuation packets a message can have at most.
pub const FIDO2_MAX_CHUNKS: usize = 128;

pub const FIDO2_COMMAND_MSG_REQUEST_MAX_SIZE: usize = FIDO2_MAX_DATA_LENGTH;

pub const FIDO2_COMMAND_MSG_RESPONSE_MAX_SIZE: usize = FIDO2_MAX_DATA_LENGTH;

pub const FIDO2_COMMAND_CBOR_REQUEST_MAX_SIZE: usize = FIDO2_MAX_DATA_LENGTH;

pub const FIDO2_COMMAND_CBOR_RESPONSE_MAX_SIZE: usize = FIDO2_MAX_DATA_LENGTH;

pub const FIDO2_COMMAND_INIT_REQUEST_MAX_SIZE: usize = 8;

pub const FIDO2_COMMAND_INIT_RESPONSE_MAX_SIZE: usize = 17;

pub const FIDO2_COMMAND_PING_REQUEST_MAX_SIZE: usize = FIDO2_MAX_DATA_LENGTH;

pub const FIDO2_COMMAND_PING_RESPONSE_MAX_SIZE: usize = FIDO2_MAX_DATA_LENGTH;

pub const FIDO2_COMMAND_CANCEL_REQUEST_MAX_SIZE: usize = 0;

pub const FIDO2_COMMAND_CANCEL_RESPONSE_MAX_SIZE: usize = 1;

pub const FIDO2_COMMAND_KEEPALIVE_RESPONSE_MAX_SIZE: usize = 1;

pub const FIDO2_COMMAND_WINK_REQUEST_MAX_SIZE: usize = 0;

pub const FIDO2_COMMAND_WINK_RESPONSE_MAX_SIZE: usize = 0;

pub const FIDO2_COMMAND_LOCK_REQUEST_MAX_SIZE: usize = 1;

pub const FIDO2_COMMAND_LOCK_RESPONSE_MAX_SIZE: usize = 0;

/// The message limit is exactly what 1 + 128 packets can hold.
pub proof fn lemma_max_data_length()
    ensures
        FIDO2_MAX_DATA_LENGTH == FIDO2_MAX_NORMAL_PACKET_DATA_SIZE + FIDO2_MAX_CHUNKS
            * FIDO2_MAX_CHUNK_PACKET_DATA_SIZE,
{
}

} // verus!
