//! Frame codec: one 64-byte packet to one logical frame and back.
//!
//! A packet starts with a four-byte channel identifier and a type byte. With
//! the high bit of the type byte set, the packet begins a message: the low
//! seven bits are the command tag, two bytes of message length follow, and
//! up to 57 payload bytes fill the rest. With the high bit clear, the packet
//! continues a message: the type byte is the sequence index, and 59 payload
//! bytes fill the rest.

use crate::consts::{
    FIDO2_MAX_CHUNK_PACKET_DATA_SIZE, FIDO2_MAX_DATA_LENGTH, FIDO2_MAX_NORMAL_PACKET_DATA_SIZE,
};
use crate::fido2_internal_error::FIDO2InternalError;
use crate::utils::{
    channel_id_to_array, channel_id_to_u32, copy_bytes, data_len_to_array, data_len_to_u16,
    lemma_channel_id_round_trip, lemma_data_len_round_trip, u16_from_be, u16_to_be, u32_from_le,
    u32_to_le,
};
use vstd::prelude::*;

verus! {

/// The nine commands of the protocol.
#[derive(Debug, Clone, Copy, PartialEq, Eq, Structural)]
pub enum FIDO2PacketCommand {
    CtapHIDMsg,
    CtapHIDCbor,
    CtapHIDInit,
    CtapHIDPing,
    CtapHIDCancel,
    CtapHIDError,
    CtapHIDKeepalive,
    CtapHIDWink,
    CtapHIDLock,
}

impl FIDO2PacketCommand {
    /// The seven-bit tag that stands for the command on the wire.
    pub open spec fn tag(self) -> u8 {
        match self {
            FIDO2PacketCommand::CtapHIDMsg => 0x03,
            FIDO2PacketCommand::CtapHIDCbor => 0x10,
            FIDO2PacketCommand::CtapHIDInit => 0x06,
            FIDO2PacketCommand::CtapHIDPing => 0x01,
            FIDO2PacketCommand::CtapHIDCancel => 0x11,
            FIDO2PacketCommand::CtapHIDError => 0x3F,
            FIDO2PacketCommand::CtapHIDKeepalive => 0x3B,
            FIDO2PacketCommand::CtapHIDWink => 0x08,
            FIDO2PacketCommand::CtapHIDLock => 0x04,
        }
    }

    /// The command that a tag stands for, if any.
    pub open spec fn of_tag(number: u8) -> Option<FIDO2PacketCommand> {
        if number == 0x03 {
            Some(FIDO2PacketCommand::CtapHIDMsg)
        } else if number == 0x10 {
            Some(FIDO2PacketCommand::CtapHIDCbor)
        } else if number == 0x06 {
            Some(FIDO2PacketCommand::CtapHIDInit)
        } else if number == 0x01 {
            Some(FIDO2PacketCommand::CtapHIDPing)
        } else if number == 0x11 {
            Some(FIDO2PacketCommand::CtapHIDCancel)
        } else if number == 0x3F {
            Some(FIDO2PacketCommand::CtapHIDError)
        } else if number == 0x3B {
            Some(FIDO2PacketCommand::CtapHIDKeepalive)
        } else if number == 0x08 {
            Some(FIDO2PacketCommand::CtapHIDWink)
        } else if number == 0x04 {
            Some(FIDO2PacketCommand::CtapHIDLock)
        } else {
            None
        }
    }

    /// The tag of the command.
    pub fn to_primitive(self) -> (number: u8)
        ensures
            number == self.tag(),
            number < 0x80,
    {
        match self {
            FIDO2PacketCommand::CtapHIDMsg => 0x03,
            FIDO2PacketCommand::CtapHIDCbor => 0x10,
            FIDO2PacketCommand::CtapHIDInit => 0x06,
            FIDO2PacketCommand::CtapHIDPing => 0x01,
            FIDO2PacketCommand::CtapHIDCancel => 0x11,
            FIDO2PacketCommand::CtapHIDError => 0x3F,
            FIDO2PacketCommand::CtapHIDKeepalive => 0x3B,
            FIDO2PacketCommand::CtapHIDWink => 0x08,
            FIDO2PacketCommand::CtapHIDLock => 0x04,
        }
    }

    /// The command with the given tag; `CommandNotFoundError` exactly when
    /// no command has it.
    pub fn try_from_primitive(number: u8) -> (r: Result<FIDO2PacketCommand, FIDO2InternalError>)
        ensures
            match r {
                Ok(command) => FIDO2PacketCommand::of_tag(number) == Some(command),
                Err(e) => FIDO2PacketCommand::of_tag(number) is None
                    && e == FIDO2InternalError::CommandNotFoundError,
            },
    {
        if number == 0x03 {
            Ok(FIDO2PacketCommand::CtapHIDMsg)
        } else if number == 0x10 {
            Ok(FIDO2PacketCommand::CtapHIDCbor)
        } else if number == 0x06 {
            Ok(FIDO2PacketCommand::CtapHIDInit)
        } else if number == 0x01 {
            Ok(FIDO2PacketCommand::CtapHIDPing)
        } else if number == 0x11 {
            Ok(FIDO2PacketCommand::CtapHIDCancel)
        } else if number == 0x3F {
            Ok(FIDO2PacketCommand::CtapHIDError)
        } else if number == 0x3B {
            Ok(FIDO2PacketCommand::CtapHIDKeepalive)
        } else if number == 0x08 {
            Ok(FIDO2PacketCommand::CtapHIDWink)
        } else if number == 0x04 {
            Ok(FIDO2PacketCommand::CtapHIDLock)
        } else {
            Err(FIDO2InternalError::CommandNotFoundError)
        }
    }

    /// A tag and its command determine each other.
    pub proof fn lemma_tag_round_trip(self)
        ensures
            self.tag() < 0x80,
            FIDO2PacketCommand::of_tag(self.tag()) == Some(self),
    {
    }

    /// A tag that denotes a command is the tag of that command.
    pub proof fn lemma_of_tag_is_tag(number: u8)
        ensures
            FIDO2PacketCommand::of_tag(number) matches Some(command) ==> command.tag() == number,
    {
    }
}

/// What distinguishes the two kinds of frame.
pub enum FrameKind {
    /// The first packet of a message: its command and the length of the
    /// whole message.
    Initiation { command: FIDO2PacketCommand, declared_length: u16 },
    /// A later packet of a message: its position among the continuations.
    Continuation { sequence_index: u8 },
}

/// The logical content of one packet.
pub struct Frame {
    pub channel_id: u32,
    pub kind: FrameKind,
    pub payload: Seq<u8>,
}

/// The number of payload bytes that the initiation packet of a message of
/// `declared_length` bytes carries.
pub open spec fn initiation_payload_len(declared_length: int) -> int {
    if declared_length < FIDO2_MAX_NORMAL_PACKET_DATA_SIZE {
        declared_length
    } else {
        FIDO2_MAX_NORMAL_PACKET_DATA_SIZE as int
    }
}

impl Frame {
    /// The frames that a packet can carry.
    pub open spec fn valid(self) -> bool {
        &&& self.channel_id != 0
        &&& match self.kind {
            FrameKind::Initiation { command, declared_length } => {
                &&& declared_length <= FIDO2_MAX_DATA_LENGTH
                &&& self.payload.len() == initiation_payload_len(declared_length as int)
            },
            FrameKind::Continuation { sequence_index } => {
                &&& sequence_index <= 127
                &&& self.payload.len() == FIDO2_MAX_CHUNK_PACKET_DATA_SIZE
            },
        }
    }

    /// The header and payload of the frame, before padding.
    pub open spec fn encode_used(self) -> Seq<u8> {
        match self.kind {
            FrameKind::Initiation { command, declared_length } => u32_to_le(self.channel_id)
                + seq![(0x80 + command.tag()) as u8] + u16_to_be(declared_length) + self.payload,
            FrameKind::Continuation { sequence_index } => u32_to_le(self.channel_id)
                + seq![sequence_index] + self.payload,
        }
    }

    /// The packet that carries the frame: header, payload, then zeros up to
    /// 64 bytes.
    pub open spec fn encode(self) -> Seq<u8> {
        let used = self.encode_used();
        used + Seq::new((64 - used.len()) as nat, |i: int| 0u8)
    }

    /// The frame that a packet carries, or why it carries none.
    ///
    /// The checks are made in this order: a zero channel identifier, then,
    /// for an initiation packet, a length above the protocol's maximum, then
    /// an unknown command tag.
    pub open spec fn decode(packet: Seq<u8>) -> Result<Frame, FIDO2InternalError> {
        let channel_id = u32_from_le(packet.subrange(0, 4)) as u32;
        let type_byte = packet[4];
        if channel_id == 0 {
            Err(FIDO2InternalError::ReversedChannelError)
        } else if type_byte >= 0x80 {
            let declared_length = u16_from_be(packet.subrange(5, 7));
            if declared_length > FIDO2_MAX_DATA_LENGTH {
                Err(FIDO2InternalError::DataLengthError)
            } else {
                match FIDO2PacketCommand::of_tag((type_byte - 0x80) as u8) {
                    None => Err(FIDO2InternalError::CommandNotFoundError),
                    Some(command) => Ok(
                        Frame {
                            channel_id,
                            kind: FrameKind::Initiation {
                                command,
                                declared_length: declared_length as u16,
                            },
                            payload: packet.subrange(7, 7 + initiation_payload_len(declared_length)),
                        },
                    ),
                }
            }
        } else {
            Ok(
                Frame {
                    channel_id,
                    kind: FrameKind::Continuation { sequence_index: type_byte },
                    payload: packet.subrange(5, 64),
                },
            )
        }
    }

    /// Decoding the packet of a valid frame gives the frame back, whatever
    /// its command tag or sequence index.
    pub proof fn lemma_encode_decode(self)
        requires
            self.valid(),
        ensures
            self.encode().len() == 64,
            Frame::decode(self.encode()) == Ok::<Frame, FIDO2InternalError>(self),
    {
        let packet = self.encode();
        lemma_channel_id_round_trip(self.channel_id);
        assert(packet.subrange(0, 4) =~= u32_to_le(self.channel_id));
        match self.kind {
            FrameKind::Initiation { command, declared_length } => {
                command.lemma_tag_round_trip();
                lemma_data_len_round_trip(declared_length);
                assert(packet[4] == 0x80 + command.tag());
                assert(packet.subrange(5, 7) =~= u16_to_be(declared_length));
                assert(packet.subrange(7, 7 + initiation_payload_len(declared_length as int))
                    =~= self.payload);
            },
            FrameKind::Continuation { sequence_index } => {
                assert(packet[4] == sequence_index);
                assert(packet.subrange(5, 64) =~= self.payload);
            },
        }
    }

    /// A packet that decodes carries a valid frame.
    pub proof fn lemma_decode_valid(packet: Seq<u8>)
        requires
            packet.len() == 64,
        ensures
            Frame::decode(packet) matches Ok(frame) ==> frame.valid(),
    {
    }

    /// Among initiation packets on a channel other than zero, exactly those
    /// that declare more than 7609 bytes are rejected for their length: 7609
    /// passes, 7610 does not.
    pub proof fn lemma_declared_length_bound(packet: Seq<u8>)
        requires
            packet.len() == 64,
            u32_from_le(packet.subrange(0, 4)) != 0,
            packet[4] >= 0x80,
        ensures
            Frame::decode(packet) == Err::<Frame, FIDO2InternalError>(
                FIDO2InternalError::DataLengthError,
            ) <==> u16_from_be(packet.subrange(5, 7)) > 7609,
    {
    }
}

/// One packet in decoded form, as it is held in memory.
///
/// An initiation frame has `is_seq == false`, its command in `packet_type`
/// and the length of the whole message in `data_length`; the first
/// `min(data_length, 57)` bytes of `data` are its payload. A continuation
/// frame has `is_seq == true` and its sequence index in `seq_id`; all 59
/// bytes of `data` are its payload.
#[derive(Debug, Clone, Copy)]
pub struct FIDO2PacketBuilder {
    pub channel_id: u32,
    pub packet_type: Option<FIDO2PacketCommand>,
    pub seq_id: u8,
    pub data_length: u16,
    pub is_seq: bool,
    pub data: [u8; 59],
}

impl View for FIDO2PacketBuilder {
    type V = Frame;

    /// The frame that the fields describe. The fields that do not belong to
    /// the frame's kind play no part in it.
    open spec fn view(&self) -> Frame {
        if self.is_seq {
            Frame {
                channel_id: self.channel_id,
                kind: FrameKind::Continuation { sequence_index: self.seq_id },
                payload: self.data@,
            }
        } else {
            Frame {
                channel_id: self.channel_id,
                kind: FrameKind::Initiation {
                    command: self.packet_type->Some_0,
                    declared_length: self.data_length,
                },
                payload: self.data@.subrange(0, initiation_payload_len(self.data_length as int)),
            }
        }
    }
}

impl FIDO2PacketBuilder {
    /// Why the frame cannot be put into a packet, if it cannot.
    ///
    /// A continuation index above 127 and a message length above 7609 both
    /// point past the end of the longest message. An initiation frame needs
    /// a command. The channel plays no part: a frame on any channel can be
    /// put into a packet.
    pub open spec fn pack_error(&self) -> Option<FIDO2InternalError> {
        if self.is_seq {
            if self.seq_id > 127 {
                Some(FIDO2InternalError::DataLengthError)
            } else {
                None
            }
        } else if self.packet_type is None {
            Some(FIDO2InternalError::CommandNotFoundError)
        } else if self.data_length > FIDO2_MAX_DATA_LENGTH {
            Some(FIDO2InternalError::DataLengthError)
        } else {
            None
        }
    }

    /// The frames in the form in which decoding produces them: valid, with
    /// the fields that do not belong to the frame's kind at fixed values and
    /// the bytes of `data` behind the payload zero.
    pub open spec fn wf(&self) -> bool {
        &&& self.channel_id != 0
        &&& self.pack_error() is None
        &&& if self.is_seq {
            &&& self.packet_type is None
            &&& self.data_length == FIDO2_MAX_CHUNK_PACKET_DATA_SIZE
        } else {
            &&& self.seq_id == 0xff
            &&& forall|i: int|
                initiation_payload_len(self.data_length as int) <= i < 59 ==> self.data@[i] == 0
        }
    }

    /// Decodes one packet.
    ///
    /// Fails with `ReversedChannelError` on channel zero; on an initiation
    /// packet, with `DataLengthError` when the declared length is over 7609
    /// and otherwise with `CommandNotFoundError` when the tag is unknown.
    pub fn new_from_raw_packet(packet: [u8; 64]) -> (r: Result<
        FIDO2PacketBuilder,
        FIDO2InternalError,
    >)
        ensures
            match r {
                Ok(frame) => frame.wf() && Frame::decode(packet@) == Ok::<Frame, FIDO2InternalError>(
                    frame@,
                ),
                Err(e) => Frame::decode(packet@) == Err::<Frame, FIDO2InternalError>(e),
            },
    {
        let channel_id: u32 = channel_id_to_u32(&packet[0..4]);
        if channel_id == 0x00000000 {
            return Err(FIDO2InternalError::ReversedChannelError);
        }
        let packet_type_raw: u8 = packet[4];
        let mut data = [0u8; 59];
        assert(packet_type_raw & 0x80 == 0x80 <==> packet_type_raw >= 0x80) by (bit_vector);
        if packet_type_raw & 0b10000000 == 0b10000000 {
            let data_length_raw: u16 = data_len_to_u16(&packet[5..7]);
            if data_length_raw as usize > FIDO2_MAX_DATA_LENGTH {
                return Err(FIDO2InternalError::DataLengthError);
            }
            assert(packet_type_raw >= 0x80 ==> packet_type_raw & 0x7f == (packet_type_raw
                - 0x80) as u8) by (bit_vector);
            match FIDO2PacketCommand::try_from_primitive(packet_type_raw & 0b01111111) {
                Err(e) => Err(e),
                Ok(packet_type) => {
                    let payload_len: usize = if (data_length_raw as usize)
                        < FIDO2_MAX_NORMAL_PACKET_DATA_SIZE {
                        data_length_raw as usize
                    } else {
                        FIDO2_MAX_NORMAL_PACKET_DATA_SIZE
                    };
                    copy_bytes(&mut data, 0, &packet, 7, payload_len);
                    let frame = FIDO2PacketBuilder {
                        channel_id,
                        packet_type: Some(packet_type),
                        seq_id: 0xff,
                        data_length: data_length_raw,
                        is_seq: false,
                        data,
                    };
                    assert(frame@.payload =~= packet@.subrange(7, 7 + payload_len));
                    Ok(frame)
                },
            }
        } else {
            copy_bytes(&mut data, 0, &packet, 5, FIDO2_MAX_CHUNK_PACKET_DATA_SIZE);
            let frame = FIDO2PacketBuilder {
                channel_id,
                packet_type: None,
                seq_id: packet_type_raw,
                data_length: 59,
                is_seq: true,
                data,
            };
            assert(frame@.payload =~= packet@.subrange(5, 64));
            Ok(frame)
        }
    }

    /// Encodes the frame into one packet, padded with zeros.
    ///
    /// Fails exactly when `pack_error` names a reason, and with that reason.
    pub fn pack(self) -> (r: Result<[u8; 64], FIDO2InternalError>)
        ensures
            match r {
                Ok(packet) => self.pack_error() is None && packet@ == self@.encode(),
                Err(e) => self.pack_error() == Some(e),
            },
    {
        let mut packet = [0u8; 64];
        let channel_id_raw: [u8; 4] = channel_id_to_array(self.channel_id);
        copy_bytes(&mut packet, 0, &channel_id_raw, 0, 4);
        if self.is_seq {
            if self.seq_id > 127 {
                return Err(FIDO2InternalError::DataLengthError);
            }
            packet[4] = self.seq_id;
            copy_bytes(&mut packet, 5, &self.data, 0, FIDO2_MAX_CHUNK_PACKET_DATA_SIZE);
            assert(packet@ =~= self@.encode());
            return Ok(packet);
        }
        match self.packet_type {
            None => Err(FIDO2InternalError::CommandNotFoundError),
            Some(command) => {
                if self.data_length as usize > FIDO2_MAX_DATA_LENGTH {
                    return Err(FIDO2InternalError::DataLengthError);
                }
                packet[4] = command.to_primitive() + 0b10000000;
                let packet_len_arr: [u8; 2] = data_len_to_array(self.data_length);
                packet[5] = packet_len_arr[0];
                packet[6] = packet_len_arr[1];
                let payload_len: usize = if (self.data_length as usize)
                    < FIDO2_MAX_NORMAL_PACKET_DATA_SIZE {
                    self.data_length as usize
                } else {
                    FIDO2_MAX_NORMAL_PACKET_DATA_SIZE
                };
                copy_bytes(&mut packet, 7, &self.data, 0, payload_len);
                assert(packet@ =~= self@.encode());
                Ok(packet)
            },
        }
    }

    /// Round trip: packing a well-formed frame and decoding the packet gives
    /// a frame equal to it in every field.
    pub proof fn lemma_pack_unpack(self, decoded: FIDO2PacketBuilder)
        requires
            self.wf(),
            decoded.wf(),
            Frame::decode(self@.encode()) == Ok::<Frame, FIDO2InternalError>(decoded@),
        ensures
            decoded == self,
    {
        self@.lemma_encode_decode();
        assert(decoded@ == self@);
        if self.is_seq {
            assert(decoded.data@ =~= self.data@);
        } else {
            let n = initiation_payload_len(self.data_length as int);
            assert forall|i: int| 0 <= i < 59 implies decoded.data@[i] == self.data@[i] by {
                if i < n {
                    assert(decoded.data@[i] == decoded@.payload[i]);
                    assert(self.data@[i] == self@.payload[i]);
                }
            }
            assert(decoded.data@ =~= self.data@);
        }
        assert(decoded.data =~= self.data);
    }

    /// A well-formed frame can be packed, and its view is a valid frame.
    pub proof fn lemma_wf_valid(self)
        requires
            self.wf(),
        ensures
            self.pack_error() is None,
            self@.valid(),
    {
    }
}

} // verus!
