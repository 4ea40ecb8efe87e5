//! Command codec: the payload of each command, read from a complete inbound
//! message or written to an outbound buffer.
//!
//! | Command   | Request payload        | Response payload                    |
//! |-----------|------------------------|-------------------------------------|
//! | PING      | any bytes              | the same bytes                      |
//! | CANCEL    | none                   | no response                         |
//! | ERROR     | (response only)        | error code                          |
//! | KEEPALIVE | (response only)        | status code                         |
//! | INIT      | 8-byte nonce           | nonce, channel, versions, flags: 17 |
//! | WINK      | none                   | none                                |
//! | LOCK      | lock time              | none                                |
//! | MSG       | command byte, data     | status byte, data                   |
//! | CBOR      | command byte, data     | status byte, data                   |

use crate::consts::{
    BUILD_VERSION, FIDO2_COMMAND_INIT_REQUEST_MAX_SIZE,
    FIDO2_MAX_DATA_LENGTH, MAJOR_VERSION, MINOR_VERSION, PROTOCOL_VERSION,
};
use crate::fido2_internal_error::FIDO2InternalError;
use crate::fido2_parser::FIDO2PacketCommand;
use crate::utils::copy_bytes;
use vstd::prelude::*;

verus! {

/// What writing a response of the given payload to a buffer comes to.
///
/// The payload is written when it fits the buffer and the protocol's
/// message limit: it then fills the front of the buffer, the rest of the
/// buffer stays, and its length is returned. Otherwise the buffer stays as
/// it was and nothing is returned.
pub open spec fn written_to(
    payload: Seq<u8>,
    before: Seq<u8>,
    written: Option<u16>,
    after: Seq<u8>,
) -> bool {
    if payload.len() <= before.len() && payload.len() <= FIDO2_MAX_DATA_LENGTH {
        &&& written == Some(payload.len() as u16)
        &&& after == payload + before.subrange(payload.len() as int, before.len() as int)
    } else {
        &&& written is None
        &&& after == before
    }
}

/// A response that can be written to an outbound buffer.
pub trait FIDO2PacketCommandResponse: Sized {
    /// The bytes of the response.
    spec fn payload(&self) -> Seq<u8>;

    /// Writes the response to the front of `arr` and returns its length, or
    /// returns `None`, with `arr` untouched, where `arr` is too small or
    /// the response longer than a message can be.
    fn apply(self, arr: &mut [u8]) -> (written: Option<u16>)
        ensures
            written_to(self.payload(), old(arr)@, written, final(arr)@),
    ;
}

/// Writes `head` followed by `tail` to the front of `arr`.
fn put(arr: &mut [u8], head: &[u8], tail: &[u8]) -> (written: Option<u16>)
    ensures
        written_to(head@ + tail@, old(arr)@, written, final(arr)@),
{
    if head.len() > FIDO2_MAX_DATA_LENGTH || tail.len() > FIDO2_MAX_DATA_LENGTH {
        return None;
    }
    let required_size: usize = head.len() + tail.len();
    if required_size > FIDO2_MAX_DATA_LENGTH || arr.len() < required_size {
        return None;
    }
    copy_bytes(arr, 0, head, 0, head.len());
    copy_bytes(arr, head.len(), tail, 0, tail.len());
    assert(arr@ =~= (head@ + tail@) + old(arr)@.subrange(
        required_size as int,
        old(arr)@.len() as int,
    ));
    Some(required_size as u16)
}

// Ping

/// A PING request: bytes to be echoed.
#[derive(Debug, Clone, Copy)]
pub struct FIDO2PacketCommandPingRequest<'a> {
    pub data: &'a [u8],
}

impl<'a> FIDO2PacketCommandPingRequest<'a> {
    /// Reads a PING request: the whole payload, of any length.
    pub fn unpack(packet: &'a [u8]) -> (r: Result<
        FIDO2PacketCommandPingRequest<'a>,
        FIDO2InternalError,
    >)
        ensures
            r matches Ok(request) && request.data@ == packet@,
    {
        Ok(FIDO2PacketCommandPingRequest { data: packet })
    }
}

/// A PING response: the bytes of the request.
#[derive(Debug, Clone, Copy)]
pub struct FIDO2PacketCommandPingResponse<'a> {
    pub data: &'a [u8],
}

impl<'a> FIDO2PacketCommandPingResponse<'a> {
    pub fn new(data: &'a [u8]) -> (response: FIDO2PacketCommandPingResponse<'a>)
        ensures
            response.data@ == data@,
    {
        FIDO2PacketCommandPingResponse { data }
    }

    /// The bytes of the response: those it was made with.
    pub fn pack(self) -> (packet: &'a [u8])
        ensures
            packet@ == self.data@,
            packet@ == self.payload(),
    {
        self.data
    }
}

impl<'a> FIDO2PacketCommandResponse for FIDO2PacketCommandPingResponse<'a> {
    open spec fn payload(&self) -> Seq<u8> {
        self.data@
    }

    fn apply(self, arr: &mut [u8]) -> (written: Option<u16>) {
        let head: [u8; 0] = [];
        let written = put(arr, &head, self.data);
        assert(head@ + self.data@ =~= self.data@);
        written
    }
}

// Cancel

/// A CANCEL request. It has no payload and no response: it aborts the
/// transaction that is under way.
#[derive(Debug, Clone, Copy)]
pub struct FIDO2PacketCommandCancelRequest {}

impl FIDO2PacketCommandCancelRequest {
    pub fn unpack() -> (r: Result<FIDO2PacketCommandCancelRequest, FIDO2InternalError>)
        ensures
            r is Ok,
    {
        Ok(FIDO2PacketCommandCancelRequest {  })
    }
}

// Error

/// The error codes of an ERROR response.
#[derive(Debug, Clone, Copy, PartialEq, Eq, Structural)]
pub enum FIDO2ErrorCode {
    /// The command of the request is not valid.
    ErrInvalidCmd,
    /// A parameter of the request is not valid.
    ErrInvalidPar,
    /// The length field of the request is not valid.
    ErrInvalidLen,
    /// The sequence index is not the expected one.
    ErrInvalidSeq,
    /// The message timed out.
    ErrMsgTimeout,
    /// The device is busy with another channel.
    ErrChannelBusy,
    /// The command needs a channel lock.
    ErrLockRequired,
    /// The channel identifier is not valid.
    ErrInvalidChannel,
    /// Any other error.
    ErrOther,
}

impl FIDO2ErrorCode {
    /// The byte that stands for the code on the wire.
    pub open spec fn code(self) -> u8 {
        match self {
            FIDO2ErrorCode::ErrInvalidCmd => 0x01,
            FIDO2ErrorCode::ErrInvalidPar => 0x02,
            FIDO2ErrorCode::ErrInvalidLen => 0x03,
            FIDO2ErrorCode::ErrInvalidSeq => 0x04,
            FIDO2ErrorCode::ErrMsgTimeout => 0x05,
            FIDO2ErrorCode::ErrChannelBusy => 0x06,
            FIDO2ErrorCode::ErrLockRequired => 0x0A,
            FIDO2ErrorCode::ErrInvalidChannel => 0x0B,
            FIDO2ErrorCode::ErrOther => 0x7F,
        }
    }

    /// The error code that answers a rejected input: an unknown command
    /// with `ErrInvalidCmd`, a bad length with `ErrInvalidLen`, a reserved
    /// or unallocated channel with `ErrInvalidChannel`, a buffer that is too
    /// small with `ErrOther`.
    pub open spec fn of_internal(e: FIDO2InternalError) -> FIDO2ErrorCode {
        match e {
            FIDO2InternalError::CommandNotFoundError => FIDO2ErrorCode::ErrInvalidCmd,
            FIDO2InternalError::DataLengthError => FIDO2ErrorCode::ErrInvalidLen,
            FIDO2InternalError::ReversedChannelError => FIDO2ErrorCode::ErrInvalidChannel,
            FIDO2InternalError::UnknownChannelError => FIDO2ErrorCode::ErrInvalidChannel,
            FIDO2InternalError::BufferTooSmallError => FIDO2ErrorCode::ErrOther,
        }
    }

    /// The byte of the code.
    pub fn to_primitive(self) -> (number: u8)
        ensures
            number == self.code(),
    {
        match self {
            FIDO2ErrorCode::ErrInvalidCmd => 0x01,
            FIDO2ErrorCode::ErrInvalidPar => 0x02,
            FIDO2ErrorCode::ErrInvalidLen => 0x03,
            FIDO2ErrorCode::ErrInvalidSeq => 0x04,
            FIDO2ErrorCode::ErrMsgTimeout => 0x05,
            FIDO2ErrorCode::ErrChannelBusy => 0x06,
            FIDO2ErrorCode::ErrLockRequired => 0x0A,
            FIDO2ErrorCode::ErrInvalidChannel => 0x0B,
            FIDO2ErrorCode::ErrOther => 0x7F,
        }
    }

    /// The code that a byte stands for, or `None` where it stands for none.
    pub fn try_from_primitive(number: u8) -> (r: Option<FIDO2ErrorCode>)
        ensures
            r matches Some(code) ==> code.code() == number,
            r is None ==> forall|code: FIDO2ErrorCode| code.code() != number,
    {
        if number == 0x01 {
            Some(FIDO2ErrorCode::ErrInvalidCmd)
        } else if number == 0x02 {
            Some(FIDO2ErrorCode::ErrInvalidPar)
        } else if number == 0x03 {
            Some(FIDO2ErrorCode::ErrInvalidLen)
        } else if number == 0x04 {
            Some(FIDO2ErrorCode::ErrInvalidSeq)
        } else if number == 0x05 {
            Some(FIDO2ErrorCode::ErrMsgTimeout)
        } else if number == 0x06 {
            Some(FIDO2ErrorCode::ErrChannelBusy)
        } else if number == 0x0A {
            Some(FIDO2ErrorCode::ErrLockRequired)
        } else if number == 0x0B {
            Some(FIDO2ErrorCode::ErrInvalidChannel)
        } else if number == 0x7F {
            Some(FIDO2ErrorCode::ErrOther)
        } else {
            None
        }
    }

    /// The error code that answers a rejected input.
    pub fn from_internal(e: FIDO2InternalError) -> (code: FIDO2ErrorCode)
        ensures
            code == FIDO2ErrorCode::of_internal(e),
    {
        match e {
            FIDO2InternalError::CommandNotFoundError => FIDO2ErrorCode::ErrInvalidCmd,
            FIDO2InternalError::DataLengthError => FIDO2ErrorCode::ErrInvalidLen,
            FIDO2InternalError::ReversedChannelError => FIDO2ErrorCode::ErrInvalidChannel,
            FIDO2InternalError::UnknownChannelError => FIDO2ErrorCode::ErrInvalidChannel,
            FIDO2InternalError::BufferTooSmallError => FIDO2ErrorCode::ErrOther,
        }
    }
}

/// An ERROR response: one byte, the error code.
#[derive(Debug, Clone, Copy)]
pub struct FIDO2PacketCommandErrorResponse {
    pub code: FIDO2ErrorCode,
}

impl FIDO2PacketCommandErrorResponse {
    pub fn new(code: FIDO2ErrorCode) -> (response: FIDO2PacketCommandErrorResponse)
        ensures
            response.code == code,
    {
        FIDO2PacketCommandErrorResponse { code }
    }

    /// The one byte of the response: the error code.
    pub fn pack(self) -> (packet: [u8; 1])
        ensures
            packet@ == seq![self.code.code()],
            packet@ == self.payload(),
    {
        let mut packet = [0u8; 1];
        packet[0] = self.code.to_primitive();
        assert(packet@ =~= seq![self.code.code()]);
        packet
    }
}

impl FIDO2PacketCommandResponse for FIDO2PacketCommandErrorResponse {
    open spec fn payload(&self) -> Seq<u8> {
        seq![self.code.code()]
    }

    fn apply(self, arr: &mut [u8]) -> (written: Option<u16>) {
        let head: [u8; 1] = self.pack();
        let tail: [u8; 0] = [];
        let written = put(arr, &head, &tail);
        assert(head@ + tail@ =~= head@);
        written
    }
}

// KeepAlive

/// The status codes of a KEEPALIVE response.
#[derive(Debug, Clone, Copy, PartialEq, Eq, Structural)]
pub enum FIDO2KeepAliveCode {
    /// The authenticator is still working on the request.
    StatusProcessing,
    /// The authenticator waits for the user to be present.
    StatusUpNeeded,
}

impl FIDO2KeepAliveCode {
    /// The byte that stands for the status on the wire.
    pub open spec fn code(self) -> u8 {
        match self {
            FIDO2KeepAliveCode::StatusProcessing => 1,
            FIDO2KeepAliveCode::StatusUpNeeded => 2,
        }
    }

    /// The byte of the status.
    pub fn to_primitive(self) -> (number: u8)
        ensures
            number == self.code(),
    {
        match self {
            FIDO2KeepAliveCode::StatusProcessing => 1,
            FIDO2KeepAliveCode::StatusUpNeeded => 2,
        }
    }

    /// The status that a byte stands for, or `None` where it stands for
    /// none.
    pub fn try_from_primitive(number: u8) -> (r: Option<FIDO2KeepAliveCode>)
        ensures
            r matches Some(code) ==> code.code() == number,
            r is None ==> forall|code: FIDO2KeepAliveCode| code.code() != number,
    {
        if number == 1 {
            Some(FIDO2KeepAliveCode::StatusProcessing)
        } else if number == 2 {
            Some(FIDO2KeepAliveCode::StatusUpNeeded)
        } else {
            None
        }
    }
}

/// A KEEPALIVE response: one byte, the status code.
#[derive(Debug, Clone, Copy)]
pub struct FIDO2PacketCommandKeepAliveResponse {
    pub code: FIDO2KeepAliveCode,
}

impl FIDO2PacketCommandKeepAliveResponse {
    pub fn new(code: FIDO2KeepAliveCode) -> (response: FIDO2PacketCommandKeepAliveResponse)
        ensures
            response.code == code,
    {
        FIDO2PacketCommandKeepAliveResponse { code }
    }

    /// The one byte of the response: the status code.
    pub fn pack(self) -> (packet: [u8; 1])
        ensures
            packet@ == seq![self.code.code()],
            packet@ == self.payload(),
    {
        let mut packet = [0u8; 1];
        packet[0] = self.code.to_primitive();
        assert(packet@ =~= seq![self.code.code()]);
        packet
    }
}

impl FIDO2PacketCommandResponse for FIDO2PacketCommandKeepAliveResponse {
    open spec fn payload(&self) -> Seq<u8> {
        seq![self.code.code()]
    }

    fn apply(self, arr: &mut [u8]) -> (written: Option<u16>) {
        let head: [u8; 1] = self.pack();
        let tail: [u8; 0] = [];
        let written = put(arr, &head, &tail);
        assert(head@ + tail@ =~= head@);
        written
    }
}

// Init

/// An INIT request: the client's nonce.
#[derive(Debug, Clone, Copy)]
pub struct FIDO2PacketCommandInitRequest {
    pub random: [u8; 8],
}

impl FIDO2PacketCommandInitRequest {
    /// Reads an INIT request: the first eight bytes of the payload are the
    /// nonce. Fails with `DataLengthError` exactly when the payload is
    /// shorter.
    pub fn unpack(packet: &[u8]) -> (r: Result<FIDO2PacketCommandInitRequest, FIDO2InternalError>)
        ensures
            match r {
                Ok(request) => packet@.len() >= 8 && request.random@ == packet@.subrange(0, 8),
                Err(e) => packet@.len() < 8 && e == FIDO2InternalError::DataLengthError,
            },
    {
        if packet.len() < FIDO2_COMMAND_INIT_REQUEST_MAX_SIZE {
            return Err(FIDO2InternalError::DataLengthError);
        }
        let mut random = [0u8; 8];
        copy_bytes(&mut random, 0, packet, 0, 8);
        assert(random@ =~= packet@.subrange(0, 8));
        Ok(FIDO2PacketCommandInitRequest { random })
    }
}

/// The capabilities that an INIT response can announce.
#[derive(Debug, Clone, Copy, PartialEq, Eq, Structural)]
pub enum FIDO2Capabilities {
    /// The device implements WINK.
    CapabilityWink,
    /// The device implements CBOR.
    CapabilityCbor,
    /// The device does not implement MSG.
    CapabilityNmsg,
}

impl FIDO2Capabilities {
    /// The bit that announces the capability.
    pub open spec fn flag(self) -> u8 {
        match self {
            FIDO2Capabilities::CapabilityWink => 0x01,
            FIDO2Capabilities::CapabilityCbor => 0x04,
            FIDO2Capabilities::CapabilityNmsg => 0x08,
        }
    }

    /// The bit of the capability.
    pub fn to_primitive(self) -> (number: u8)
        ensures
            number == self.flag(),
    {
        match self {
            FIDO2Capabilities::CapabilityWink => 0x01,
            FIDO2Capabilities::CapabilityCbor => 0x04,
            FIDO2Capabilities::CapabilityNmsg => 0x08,
        }
    }

    /// The capability that a byte stands for, or `None` where it stands for
    /// none.
    pub fn try_from_primitive(number: u8) -> (r: Option<FIDO2Capabilities>)
        ensures
            r matches Some(capability) ==> capability.flag() == number,
            r is None ==> forall|capability: FIDO2Capabilities| capability.flag() != number,
    {
        if number == 0x01 {
            Some(FIDO2Capabilities::CapabilityWink)
        } else if number == 0x04 {
            Some(FIDO2Capabilities::CapabilityCbor)
        } else if number == 0x08 {
            Some(FIDO2Capabilities::CapabilityNmsg)
        } else {
            None
        }
    }
}

/// The capabilities byte of this device: WINK, and no MSG.
pub const FIDO2_CAPABILITIES: u8 = 0x09;

/// An INIT response.
#[derive(Debug, Clone, Copy)]
pub struct FIDO2PacketCommandInitResponse {
    /// The nonce of the request.
    pub random: [u8; 8],
    /// The channel that the client is to use from now on.
    pub channel_id: [u8; 4],
    pub protocol_version: u8,
    pub major_version: u8,
    pub minor_version: u8,
    pub build_version: u8,
    pub capabilities_flag: u8,
}

impl FIDO2PacketCommandInitResponse {
    /// The INIT response of this device for the given nonce and channel:
    /// protocol version 2, the firmware's version numbers, and the
    /// capabilities WINK and no-MSG.
    pub fn new(random: [u8; 8], channel_id: [u8; 4]) -> (response: FIDO2PacketCommandInitResponse)
        ensures
            response.random == random,
            response.channel_id == channel_id,
            response.protocol_version == PROTOCOL_VERSION,
            response.major_version == MAJOR_VERSION,
            response.minor_version == MINOR_VERSION,
            response.build_version == BUILD_VERSION,
            response.capabilities_flag == FIDO2_CAPABILITIES,
            response.capabilities_flag == FIDO2Capabilities::CapabilityWink.flag()
                | FIDO2Capabilities::CapabilityNmsg.flag(),
    {
        assert(0x01u8 | 0x08u8 == 0x09u8) by (bit_vector);
        FIDO2PacketCommandInitResponse {
            random,
            channel_id,
            protocol_version: PROTOCOL_VERSION,
            major_version: MAJOR_VERSION,
            minor_version: MINOR_VERSION,
            build_version: BUILD_VERSION,
            capabilities_flag: (FIDO2Capabilities::CapabilityWink.to_primitive()
                | FIDO2Capabilities::CapabilityNmsg.to_primitive()),
        }
    }

    /// The 17 bytes of the response: nonce, channel, protocol version,
    /// major, minor and build version, capabilities.
    pub fn pack(self) -> (packet: [u8; 17])
        ensures
            packet@ == self.payload(),
    {
        let mut packet = [0u8; 17];
        copy_bytes(&mut packet, 0, &self.random, 0, 8);
        copy_bytes(&mut packet, 8, &self.channel_id, 0, 4);
        packet[12] = self.protocol_version;
        packet[13] = self.major_version;
        packet[14] = self.minor_version;
        packet[15] = self.build_version;
        packet[16] = self.capabilities_flag;
        assert(packet@ =~= self.payload());
        packet
    }
}

impl FIDO2PacketCommandResponse for FIDO2PacketCommandInitResponse {
    open spec fn payload(&self) -> Seq<u8> {
        self.random@ + self.channel_id@ + seq![
            self.protocol_version,
            self.major_version,
            self.minor_version,
            self.build_version,
            self.capabilities_flag,
        ]
    }

    fn apply(self, arr: &mut [u8]) -> (written: Option<u16>) {
        let head: [u8; 17] = self.pack();
        let tail: [u8; 0] = [];
        let written = put(arr, &head, &tail);
        assert(head@ + tail@ =~= head@);
        written
    }
}

// Wink

/// A WINK request. It has no payload.
#[derive(Debug, Clone, Copy)]
pub struct FIDO2PacketCommandWinkRequest {}

impl FIDO2PacketCommandWinkRequest {
    pub fn unpack() -> (r: Result<FIDO2PacketCommandWinkRequest, FIDO2InternalError>)
        ensures
            r is Ok,
    {
        Ok(FIDO2PacketCommandWinkRequest {  })
    }
}

/// A WINK response. It has no payload.
#[derive(Debug, Clone, Copy)]
pub struct FIDO2PacketCommandWinkResponse {}

impl FIDO2PacketCommandWinkResponse {
    /// The WINK response. It carries no bytes.
    pub fn new() -> (response: FIDO2PacketCommandWinkResponse)
        ensures
            response.payload() == Seq::<u8>::empty(),
    {
        FIDO2PacketCommandWinkResponse {  }
    }
}

impl FIDO2PacketCommandResponse for FIDO2PacketCommandWinkResponse {
    open spec fn payload(&self) -> Seq<u8> {
        Seq::empty()
    }

    fn apply(self, arr: &mut [u8]) -> (written: Option<u16>) {
        assert(arr@ =~= Seq::<u8>::empty() + arr@.subrange(0, arr@.len() as int));
        Some(0)
    }
}

// Lock

/// A LOCK request: for how many seconds the channel is to be locked.
#[derive(Debug, Clone, Copy)]
pub struct FIDO2PacketCommandLockRequest {
    lock_time: u8,
}

impl FIDO2PacketCommandLockRequest {
    /// The lock time that the request asks for.
    pub closed spec fn duration(&self) -> u8 {
        self.lock_time
    }

    /// Reads a LOCK request: the first byte of the payload is the lock
    /// time. Fails with `DataLengthError` exactly when the payload is empty.
    pub fn unpack(packet: &[u8]) -> (r: Result<FIDO2PacketCommandLockRequest, FIDO2InternalError>)
        ensures
            match r {
                Ok(request) => packet@.len() >= 1 && request.duration() == packet@[0],
                Err(e) => packet@.len() < 1 && e == FIDO2InternalError::DataLengthError,
            },
    {
        if packet.len() < 1 {
            return Err(FIDO2InternalError::DataLengthError);
        }
        Ok(FIDO2PacketCommandLockRequest { lock_time: packet[0] })
    }

    /// The lock time that the request asks for.
    pub fn lock_time(&self) -> (seconds: u8)
        ensures
            seconds == self.duration(),
    {
        self.lock_time
    }
}

/// A LOCK response. It has no payload.
#[derive(Debug, Clone, Copy)]
pub struct FIDO2PacketCommandLockResponse {}

impl FIDO2PacketCommandLockResponse {
    /// The LOCK response. It carries no bytes.
    pub fn new() -> (response: FIDO2PacketCommandLockResponse)
        ensures
            response.payload() == Seq::<u8>::empty(),
    {
        FIDO2PacketCommandLockResponse {  }
    }
}

impl FIDO2PacketCommandResponse for FIDO2PacketCommandLockResponse {
    open spec fn payload(&self) -> Seq<u8> {
        Seq::empty()
    }

    fn apply(self, arr: &mut [u8]) -> (written: Option<u16>) {
        assert(arr@ =~= Seq::<u8>::empty() + arr@.subrange(0, arr@.len() as int));
        Some(0)
    }
}

// Msg (u2f)

/// A MSG request: a command byte and its data.
#[derive(Debug, Clone, Copy)]
pub struct FIDO2PacketCommandMsgRequest<'a> {
    pub command: u8,
    pub data: &'a [u8],
}

impl<'a> FIDO2PacketCommandMsgRequest<'a> {
    /// Reads a MSG request: the first byte of the payload is the command,
    /// the rest its data. Fails with `DataLengthError` exactly when the
    /// payload is empty.
    pub fn unpack(packet: &'a [u8]) -> (r: Result<
        FIDO2PacketCommandMsgRequest<'a>,
        FIDO2InternalError,
    >)
        ensures
            match r {
                Ok(request) => {
                    &&& packet@.len() >= 1
                    &&& request.command == packet@[0]
                    &&& request.data@ == packet@.subrange(1, packet@.len() as int)
                },
                Err(e) => packet@.len() < 1 && e == FIDO2InternalError::DataLengthError,
            },
    {
        if packet.len() < 1 {
            return Err(FIDO2InternalError::DataLengthError);
        }
        let command: u8 = packet[0];
        let data = &packet[1..packet.len()];
        Ok(FIDO2PacketCommandMsgRequest { command, data })
    }
}

/// A MSG response: a status byte and data.
#[derive(Debug, Clone, Copy)]
pub struct FIDO2PacketCommandMsgResponse<'a> {
    pub status_code: u8,
    pub data: &'a [u8],
}

impl<'a> FIDO2PacketCommandMsgResponse<'a> {
    pub fn new(status_code: u8, data: &'a [u8]) -> (response: FIDO2PacketCommandMsgResponse<'a>)
        ensures
            response.status_code == status_code,
            response.data@ == data@,
    {
        FIDO2PacketCommandMsgResponse { status_code, data }
    }
}

impl<'a> FIDO2PacketCommandResponse for FIDO2PacketCommandMsgResponse<'a> {
    open spec fn payload(&self) -> Seq<u8> {
        seq![self.status_code] + self.data@
    }

    fn apply(self, arr: &mut [u8]) -> (written: Option<u16>) {
        let head: [u8; 1] = [self.status_code];
        assert(head@ =~= seq![self.status_code]);
        put(arr, &head, self.data)
    }
}

// Cbor

/// A CBOR request: a command byte and its data.
#[derive(Debug, Clone, Copy)]
pub struct FIDO2PacketCommandCborRequest<'a> {
    pub command: u8,
    pub data: &'a [u8],
}

impl<'a> FIDO2PacketCommandCborRequest<'a> {
    /// Reads a CBOR request: the first byte of the payload is the command,
    /// the rest its data. Fails with `DataLengthError` exactly when the
    /// payload is empty.
    pub fn unpack(packet: &'a [u8]) -> (r: Result<
        FIDO2PacketCommandCborRequest<'a>,
        FIDO2InternalError,
    >)
        ensures
            match r {
                Ok(request) => {
                    &&& packet@.len() >= 1
                    &&& request.command == packet@[0]
                    &&& request.data@ == packet@.subrange(1, packet@.len() as int)
                },
                Err(e) => packet@.len() < 1 && e == FIDO2InternalError::DataLengthError,
            },
    {
        if packet.len() < 1 {
            return Err(FIDO2InternalError::DataLengthError);
        }
        let command: u8 = packet[0];
        let data = &packet[1..packet.len()];
        Ok(FIDO2PacketCommandCborRequest { command, data })
    }
}

/// A CBOR response: a status byte and data.
#[derive(Debug, Clone, Copy)]
pub struct FIDO2PacketCommandCborResponse<'a> {
    pub status_code: u8,
    pub data: &'a [u8],
}

impl<'a> FIDO2PacketCommandCborResponse<'a> {
    pub fn new(status_code: u8, data: &'a [u8]) -> (response: FIDO2PacketCommandCborResponse<'a>)
        ensures
            response.status_code == status_code,
            response.data@ == data@,
    {
        FIDO2PacketCommandCborResponse { status_code, data }
    }
}

impl<'a> FIDO2PacketCommandResponse for FIDO2PacketCommandCborResponse<'a> {
    open spec fn payload(&self) -> Seq<u8> {
        seq![self.status_code] + self.data@
    }

    fn apply(self, arr: &mut [u8]) -> (written: Option<u16>) {
        let head: [u8; 1] = [self.status_code];
        assert(head@ =~= seq![self.status_code]);
        put(arr, &head, self.data)
    }
}

// Requests, by command

/// A request of any of the commands that a host can send.
#[derive(Debug, Clone, Copy)]
pub enum FIDO2PacketCommandRequest<'a> {
    Ping(FIDO2PacketCommandPingRequest<'a>),
    Cancel(FIDO2PacketCommandCancelRequest),
    Init(FIDO2PacketCommandInitRequest),
    Wink(FIDO2PacketCommandWinkRequest),
    Lock(FIDO2PacketCommandLockRequest),
    Msg(FIDO2PacketCommandMsgRequest<'a>),
    Cbor(FIDO2PacketCommandCborRequest<'a>),
}

impl<'a> FIDO2PacketCommandRequest<'a> {
    /// Why a payload is no request of the command, if it is none.
    ///
    /// ERROR and KEEPALIVE are sent by the device only: as requests they
    /// are unknown commands. INIT needs its eight bytes of nonce, and LOCK,
    /// MSG and CBOR their first byte.
    pub open spec fn unpack_error(command: FIDO2PacketCommand, packet: Seq<u8>) -> Option<
        FIDO2InternalError,
    > {
        match command {
            FIDO2PacketCommand::CtapHIDError | FIDO2PacketCommand::CtapHIDKeepalive => Some(
                FIDO2InternalError::CommandNotFoundError,
            ),
            FIDO2PacketCommand::CtapHIDInit => if packet.len() < 8 {
                Some(FIDO2InternalError::DataLengthError)
            } else {
                None
            },
            FIDO2PacketCommand::CtapHIDLock
            | FIDO2PacketCommand::CtapHIDMsg
            | FIDO2PacketCommand::CtapHIDCbor => if packet.len() < 1 {
                Some(FIDO2InternalError::DataLengthError)
            } else {
                None
            },
            _ => None,
        }
    }

    /// Whether the request is what the payload says under the command.
    pub open spec fn reads(&self, command: FIDO2PacketCommand, packet: Seq<u8>) -> bool {
        match command {
            FIDO2PacketCommand::CtapHIDPing => *self matches FIDO2PacketCommandRequest::Ping(r)
                && r.data@ == packet,
            FIDO2PacketCommand::CtapHIDCancel => *self is Cancel,
            FIDO2PacketCommand::CtapHIDInit => *self matches FIDO2PacketCommandRequest::Init(r)
                && r.random@ == packet.subrange(0, 8),
            FIDO2PacketCommand::CtapHIDWink => *self is Wink,
            FIDO2PacketCommand::CtapHIDLock => *self matches FIDO2PacketCommandRequest::Lock(r)
                && r.duration() == packet[0],
            FIDO2PacketCommand::CtapHIDMsg => *self matches FIDO2PacketCommandRequest::Msg(r)
                && r.command == packet[0] && r.data@ == packet.subrange(1, packet.len() as int),
            FIDO2PacketCommand::CtapHIDCbor => *self matches FIDO2PacketCommandRequest::Cbor(r)
                && r.command == packet[0] && r.data@ == packet.subrange(1, packet.len() as int),
            FIDO2PacketCommand::CtapHIDError | FIDO2PacketCommand::CtapHIDKeepalive => false,
        }
    }

    /// Reads the payload of a complete inbound message as a request of the
    /// given command.
    pub fn unpack(command: FIDO2PacketCommand, packet: &'a [u8]) -> (r: Result<
        FIDO2PacketCommandRequest<'a>,
        FIDO2InternalError,
    >)
        ensures
            match r {
                Ok(request) => {
                    &&& FIDO2PacketCommandRequest::unpack_error(command, packet@) is None
                    &&& request.reads(command, packet@)
                },
                Err(e) => FIDO2PacketCommandRequest::unpack_error(command, packet@) == Some(e),
            },
    {
        match command {
            FIDO2PacketCommand::CtapHIDPing => match FIDO2PacketCommandPingRequest::unpack(packet) {
                Ok(request) => Ok(FIDO2PacketCommandRequest::Ping(request)),
                Err(e) => Err(e),
            },
            FIDO2PacketCommand::CtapHIDCancel => match FIDO2PacketCommandCancelRequest::unpack() {
                Ok(request) => Ok(FIDO2PacketCommandRequest::Cancel(request)),
                Err(e) => Err(e),
            },
            FIDO2PacketCommand::CtapHIDInit => match FIDO2PacketCommandInitRequest::unpack(packet) {
                Ok(request) => Ok(FIDO2PacketCommandRequest::Init(request)),
                Err(e) => Err(e),
            },
            FIDO2PacketCommand::CtapHIDWink => match FIDO2PacketCommandWinkRequest::unpack() {
                Ok(request) => Ok(FIDO2PacketCommandRequest::Wink(request)),
                Err(e) => Err(e),
            },
            FIDO2PacketCommand::CtapHIDLock => match FIDO2PacketCommandLockRequest::unpack(packet) {
                Ok(request) => Ok(FIDO2PacketCommandRequest::Lock(request)),
                Err(e) => Err(e),
            },
            FIDO2PacketCommand::CtapHIDMsg => match FIDO2PacketCommandMsgRequest::unpack(packet) {
                Ok(request) => Ok(FIDO2PacketCommandRequest::Msg(request)),
                Err(e) => Err(e),
            },
            FIDO2PacketCommand::CtapHIDCbor => match FIDO2PacketCommandCborRequest::unpack(packet) {
                Ok(request) => Ok(FIDO2PacketCommandRequest::Cbor(request)),
                Err(e) => Err(e),
            },
            FIDO2PacketCommand::CtapHIDError | FIDO2PacketCommand::CtapHIDKeepalive => Err(
                FIDO2InternalError::CommandNotFoundError,
            ),
        }
    }
}

} // verus!
