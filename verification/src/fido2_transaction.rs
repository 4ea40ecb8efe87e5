//! Transaction coordinator: the one request and the one response that are
//! under way at a time.
//!
//! ```text
//! Idle -> ReceivingRequest -> RequestReady -> ProcessingResponse -> ResponseReady -> Idle
//! ```
//!
//! An initiation packet on a channel that accepts its command starts a request. Its
//! continuation packets are put together until the request is complete. The
//! request is then handed out once for processing, and the response is
//! written to the response buffer and sent packet by packet. After the last
//! packet both buffers are cleared. A CANCEL on the channel of the
//! transaction, before the response is ready, drops the transaction.

use crate::consts::{
    FIDO2_MAX_CHUNK_PACKET_DATA_SIZE, FIDO2_MAX_DATA_LENGTH, FIDO2_MAX_NORMAL_PACKET_DATA_SIZE,
};
use crate::fido2_channel::{
    admission_error, lowest_free, FIDO2ChannelManager, FIDO2_CHANNEL_BROADCAST,
    FIDO2_CHANNEL_NULL,
};
use crate::fido2_chunk::{chunk_count, chunk_offset, FIDO2ChunkMerger, FIDO2ChunkSpliter};
use crate::fido2_commands::{
    FIDO2ErrorCode, FIDO2PacketCommandCborResponse, FIDO2PacketCommandErrorResponse,
    FIDO2PacketCommandInitResponse, FIDO2PacketCommandLockResponse,
    FIDO2PacketCommandMsgResponse, FIDO2PacketCommandPingResponse, FIDO2PacketCommandRequest,
    FIDO2PacketCommandResponse, FIDO2PacketCommandWinkResponse, FIDO2_CAPABILITIES,
};
use crate::consts::{BUILD_VERSION, MAJOR_VERSION, MINOR_VERSION, PROTOCOL_VERSION};
use crate::fido2_internal_error::FIDO2InternalError;
use crate::fido2_parser::{
    initiation_payload_len, FIDO2PacketBuilder, FIDO2PacketCommand, Frame, FrameKind,
};
use crate::global_buffer::{zeros, GlobalBuffer};
use crate::utils::{channel_id_to_array, channel_id_to_u32, u32_from_le, u32_to_le};
use vstd::prelude::*;

verus! {

/// Where the transaction stands.
#[derive(Debug, Clone, Copy, PartialEq, Eq, Structural)]
pub enum FIDO2TransactionState {
    /// No transaction is under way.
    Idle,
    /// A request has begun and is not complete yet.
    ReceivingRequest,
    /// The request is complete and waits to be processed.
    RequestReady,
    /// The request has been handed out and its response is awaited.
    ProcessingResponse,
    /// The response is in the response buffer and is being sent.
    ResponseReady,
}

/// What a packet did to the transaction.
#[derive(Debug, Clone, Copy, PartialEq, Eq, Structural)]
pub enum FIDO2TransactionEvent {
    /// The packet was taken in. The request is not complete yet.
    Receiving,
    /// The packet was taken in and completed the request.
    RequestReady,
    /// The packet cancelled the transaction.
    Cancelled,
    /// The packet was dropped without effect.
    Ignored,
    /// The packet was refused without effect: an ERROR response with this
    /// code is owed to this channel.
    Rejected { channel_id: u32, code: FIDO2ErrorCode },
}

/// The coordinator: both buffers, the channel pool, and the transaction
/// that is under way.
#[derive(Debug, Clone)]
pub struct FIDO2Transaction {
    /// The request and the response.
    pub buffer: GlobalBuffer,
    /// The channels that are allocated.
    pub channels: FIDO2ChannelManager,
    /// Where the transaction stands.
    pub state: FIDO2TransactionState,
    /// The channel of the transaction.
    pub channel_id: u32,
    /// The command of the request and, once it is ready, of the response.
    pub command: FIDO2PacketCommand,
    /// Puts the request together.
    pub merger: FIDO2ChunkMerger,
    /// The sequence index of the response packet that is sent next; above
    /// 127 for the initiation packet.
    pub next_seq: u8,
}

impl FIDO2Transaction {
    /// The fields fit the state.
    pub open spec fn wf(&self) -> bool {
        &&& self.buffer.wf()
        &&& match self.state {
            FIDO2TransactionState::Idle => self.buffer.is_clear(),
            FIDO2TransactionState::ReceivingRequest => {
                &&& self.channel_id != 0
                &&& self.command != FIDO2PacketCommand::CtapHIDCancel
                &&& self.buffer.response_is_clear()
                &&& self.merger.first_packet_length == FIDO2_MAX_NORMAL_PACKET_DATA_SIZE
                &&& self.merger.data_length <= FIDO2_MAX_DATA_LENGTH
                &&& self.merger.first_packet_received
                &&& !self.merger.complete()
                &&& !self.buffer.request_buffer_done
                &&& !self.buffer.response_buffer_done
                &&& self.buffer.request_buffer_data_len == 0
            },
            FIDO2TransactionState::RequestReady | FIDO2TransactionState::ProcessingResponse => {
                &&& self.channel_id != 0
                &&& self.command != FIDO2PacketCommand::CtapHIDCancel
                &&& self.buffer.response_is_clear()
                &&& self.buffer.request_buffer_done
                &&& !self.buffer.response_buffer_done
            },
            FIDO2TransactionState::ResponseReady => {
                &&& self.channel_id != 0
                &&& self.buffer.response_buffer_done
                &&& (self.next_seq > 127 || self.next_seq < chunk_count(
                    self.buffer.response_buffer_data_len as int,
                    FIDO2_MAX_NORMAL_PACKET_DATA_SIZE as int,
                ))
            },
        }
    }

    /// Whether a CANCEL on the given channel drops the transaction: it is
    /// the channel of a transaction whose response is not ready yet.
    pub open spec fn cancellable_by(&self, channel_id: u32) -> bool {
        &&& channel_id == self.channel_id
        &&& (self.state == FIDO2TransactionState::ReceivingRequest || self.state
            == FIDO2TransactionState::RequestReady || self.state
            == FIDO2TransactionState::ProcessingResponse)
    }

    /// What the given packet does to the transaction.
    ///
    /// A packet that does not decode is rejected with the code of its
    /// error. A CANCEL drops the transaction of its channel, and is ignored
    /// otherwise. Another initiation packet is rejected on a channel that
    /// does not accept its command and while a transaction is under way;
    /// else it begins a request. A continuation packet is ignored unless it
    /// belongs to the request that is being received, and rejected when the
    /// request has no packet of its index.
    pub open spec fn event_of(&self, packet: Seq<u8>) -> FIDO2TransactionEvent {
        match Frame::decode(packet) {
            Err(e) => FIDO2TransactionEvent::Rejected {
                channel_id: u32_from_le(packet.subrange(0, 4)) as u32,
                code: FIDO2ErrorCode::of_internal(e),
            },
            Ok(frame) => match frame.kind {
                FrameKind::Initiation { command, declared_length } => {
                    if command == FIDO2PacketCommand::CtapHIDCancel {
                        if self.cancellable_by(frame.channel_id) {
                            FIDO2TransactionEvent::Cancelled
                        } else {
                            FIDO2TransactionEvent::Ignored
                        }
                    } else if admission_error(self.channels@, frame.channel_id, command)
                        is Some {
                        FIDO2TransactionEvent::Rejected {
                            channel_id: frame.channel_id,
                            code: FIDO2ErrorCode::of_internal(
                                admission_error(self.channels@, frame.channel_id, command)->Some_0,
                            ),
                        }
                    } else if self.state != FIDO2TransactionState::Idle {
                        FIDO2TransactionEvent::Rejected {
                            channel_id: frame.channel_id,
                            code: FIDO2ErrorCode::ErrChannelBusy,
                        }
                    } else if declared_length <= FIDO2_MAX_NORMAL_PACKET_DATA_SIZE {
                        FIDO2TransactionEvent::RequestReady
                    } else {
                        FIDO2TransactionEvent::Receiving
                    }
                },
                FrameKind::Continuation { sequence_index } => {
                    if self.state != FIDO2TransactionState::ReceivingRequest || frame.channel_id
                        != self.channel_id {
                        FIDO2TransactionEvent::Ignored
                    } else if sequence_index >= self.merger.chunks_expected() {
                        FIDO2TransactionEvent::Rejected {
                            channel_id: frame.channel_id,
                            code: FIDO2ErrorCode::ErrInvalidSeq,
                        }
                    } else if self.merger.marked(sequence_index).complete() {
                        FIDO2TransactionEvent::RequestReady
                    } else {
                        FIDO2TransactionEvent::Receiving
                    }
                },
            },
        }
    }

    /// Whether `after` is the coordinator that the given packet leaves
    /// behind.
    ///
    /// A rejected or ignored packet changes nothing. A cancelled
    /// transaction leaves cleared buffers and the state `Idle`. A packet
    /// that is taken in has its payload at its place in the request buffer,
    /// and where it completes the request, the request is marked as
    /// complete with its declared length.
    pub open spec fn after_packet(&self, packet: Seq<u8>, after: FIDO2Transaction) -> bool {
        let frame = Frame::decode(packet)->Ok_0;
        match self.event_of(packet) {
            FIDO2TransactionEvent::Rejected { .. } | FIDO2TransactionEvent::Ignored => after
                == *self,
            FIDO2TransactionEvent::Cancelled => {
                &&& after.state == FIDO2TransactionState::Idle
                &&& after.buffer.is_clear()
                &&& after.channels == self.channels
                &&& after.channel_id == self.channel_id
                &&& after.command == self.command
                &&& after.merger == self.merger
                &&& after.next_seq == self.next_seq
            },
            event => {
                let done = event == FIDO2TransactionEvent::RequestReady;
                &&& after.state == if done {
                    FIDO2TransactionState::RequestReady
                } else {
                    FIDO2TransactionState::ReceivingRequest
                }
                &&& after.channels == self.channels
                &&& after.channel_id == frame.channel_id
                &&& after.next_seq == self.next_seq
                &&& after.buffer.response_buffer == self.buffer.response_buffer
                &&& after.buffer.response_buffer_data_len == self.buffer.response_buffer_data_len
                &&& after.buffer.response_buffer_done == self.buffer.response_buffer_done
                &&& after.buffer.request_buffer_done == done
                &&& after.buffer.request_buffer_data_len == if done {
                    after.merger.data_length
                } else {
                    0
                }
                &&& match frame.kind {
                    FrameKind::Initiation { command, declared_length } => {
                        &&& after.command == command
                        &&& after.merger == (FIDO2ChunkMerger {
                            first_packet_length: FIDO2_MAX_NORMAL_PACKET_DATA_SIZE as u8,
                            first_packet_received: true,
                            seq_received: 0,
                            data_length: declared_length,
                        })
                        &&& after.buffer.request_buffer@ == frame.payload + zeros().subrange(
                            frame.payload.len() as int,
                            FIDO2_MAX_DATA_LENGTH as int,
                        )
                    },
                    FrameKind::Continuation { sequence_index } => {
                        let at = chunk_offset(
                            FIDO2_MAX_NORMAL_PACKET_DATA_SIZE as int,
                            sequence_index,
                        );
                        &&& after.command == self.command
                        &&& after.merger == self.merger.marked(sequence_index)
                        &&& after.buffer.request_buffer@ == self.buffer.request_buffer@.subrange(
                            0,
                            at,
                        ) + frame.payload + self.buffer.request_buffer@.subrange(
                            at + FIDO2_MAX_CHUNK_PACKET_DATA_SIZE,
                            FIDO2_MAX_DATA_LENGTH as int,
                        )
                    },
                }
            },
        }
    }

    /// A coordinator with no channel allocated and no transaction under
    /// way: both buffers clear, the state `Idle`, a reassembler that has
    /// received nothing, and the initiation packet as the next to send.
    pub fn new() -> (transaction: FIDO2Transaction)
        ensures
            transaction.wf(),
            transaction.state == FIDO2TransactionState::Idle,
            transaction.channels@ == Set::<u32>::empty(),
            transaction.buffer.is_clear(),
            transaction.channel_id == 0,
            transaction.command == FIDO2PacketCommand::CtapHIDInit,
            transaction.merger == (FIDO2ChunkMerger {
                first_packet_length: FIDO2_MAX_NORMAL_PACKET_DATA_SIZE as u8,
                first_packet_received: false,
                seq_received: 0,
                data_length: 0,
            }),
            transaction.next_seq == 0xff,
    {
        FIDO2Transaction {
            buffer: GlobalBuffer::new(),
            channels: FIDO2ChannelManager::new(),
            state: FIDO2TransactionState::Idle,
            channel_id: 0,
            command: FIDO2PacketCommand::CtapHIDInit,
            merger: FIDO2ChunkMerger::new(0, FIDO2_MAX_NORMAL_PACKET_DATA_SIZE as u8),
            next_seq: 0xff,
        }
    }

    /// Whether the fields fit the state. They do in a coordinator that
    /// `new` made and that only the functions of this type have changed.
    pub fn is_well_formed(&self) -> (ok: bool)
        ensures
            ok == self.wf(),
    {
        if self.buffer.request_buffer_data_len as usize > FIDO2_MAX_DATA_LENGTH
            || self.buffer.response_buffer_data_len as usize > FIDO2_MAX_DATA_LENGTH {
            return false;
        }
        let on_channel: bool = self.channel_id != 0;
        let cancelling: bool = match self.command {
            FIDO2PacketCommand::CtapHIDCancel => true,
            _ => false,
        };
        match self.state {
            FIDO2TransactionState::Idle => self.buffer.request_cleared()
                && self.buffer.response_cleared(),
            FIDO2TransactionState::ReceivingRequest => on_channel && !cancelling
                && self.merger.first_packet_length as usize == FIDO2_MAX_NORMAL_PACKET_DATA_SIZE
                && self.merger.data_length as usize <= FIDO2_MAX_DATA_LENGTH
                && self.merger.first_packet_received && !self.merger.is_done()
                && !self.buffer.request_buffer_done && self.buffer.request_buffer_data_len == 0
                && self.buffer.response_cleared(),
            FIDO2TransactionState::RequestReady | FIDO2TransactionState::ProcessingResponse => {
                on_channel && !cancelling && self.buffer.request_buffer_done
                    && self.buffer.response_cleared()
            },
            FIDO2TransactionState::ResponseReady => {
                let chunks: u8 = FIDO2ChunkSpliter::new(
                    self.buffer.response_buffer_data_len,
                    FIDO2_MAX_NORMAL_PACKET_DATA_SIZE as u8,
                ).chunks();
                on_channel && self.buffer.response_buffer_done && (self.next_seq > 127
                    || self.next_seq < chunks)
            },
        }
    }

    /// Drops the transaction: clears both buffers and returns to `Idle`.
    fn reset(&mut self)
        ensures
            final(self).state == FIDO2TransactionState::Idle,
            final(self).buffer.is_clear(),
            final(self).wf(),
            final(self).channels == old(self).channels,
            final(self).channel_id == old(self).channel_id,
            final(self).command == old(self).command,
            final(self).merger == old(self).merger,
            final(self).next_seq == old(self).next_seq,
    {
        self.buffer.clear_request();
        self.buffer.clear_response();
        self.state = FIDO2TransactionState::Idle;
    }

    /// Marks the request as complete if it is, and says what the packet
    /// that was just taken in did.
    fn settle(&mut self) -> (event: FIDO2TransactionEvent)
        requires
            old(self).buffer.wf(),
            old(self).channel_id != 0,
            old(self).command != FIDO2PacketCommand::CtapHIDCancel,
            old(self).buffer.response_is_clear(),
            old(self).merger.first_packet_length == FIDO2_MAX_NORMAL_PACKET_DATA_SIZE,
            old(self).merger.data_length <= FIDO2_MAX_DATA_LENGTH,
            old(self).merger.first_packet_received,
            !old(self).buffer.request_buffer_done,
            !old(self).buffer.response_buffer_done,
            old(self).buffer.request_buffer_data_len == 0,
        ensures
            final(self).wf(),
            event == if old(self).merger.complete() {
                FIDO2TransactionEvent::RequestReady
            } else {
                FIDO2TransactionEvent::Receiving
            },
            *final(self) == (FIDO2Transaction {
                state: if old(self).merger.complete() {
                    FIDO2TransactionState::RequestReady
                } else {
                    FIDO2TransactionState::ReceivingRequest
                },
                buffer: GlobalBuffer {
                    request_buffer_done: old(self).merger.complete(),
                    request_buffer_data_len: if old(self).merger.complete() {
                        old(self).merger.data_length
                    } else {
                        0
                    },
                    ..old(self).buffer
                },
                ..*old(self)
            }),
    {
        if self.merger.is_done() {
            self.buffer.set_request_done(self.merger.data_length);
            self.state = FIDO2TransactionState::RequestReady;
            FIDO2TransactionEvent::RequestReady
        } else {
            self.state = FIDO2TransactionState::ReceivingRequest;
            FIDO2TransactionEvent::Receiving
        }
    }

    /// Takes in one packet from the host.
    ///
    /// Returns what the packet did, and leaves the coordinator as
    /// `after_packet` describes.
    pub fn receive_packet(&mut self, packet: [u8; 64]) -> (event: FIDO2TransactionEvent)
        requires
            old(self).wf(),
        ensures
            final(self).wf(),
            event == old(self).event_of(packet@),
            old(self).after_packet(packet@, *final(self)),
    {
        let frame = match FIDO2PacketBuilder::new_from_raw_packet(packet) {
            Err(e) => {
                return FIDO2TransactionEvent::Rejected {
                    channel_id: channel_id_to_u32(&packet[0..4]),
                    code: FIDO2ErrorCode::from_internal(e),
                };
            },
            Ok(frame) => frame,
        };
        if frame.is_seq {
            let in_progress = match self.state {
                FIDO2TransactionState::ReceivingRequest => true,
                _ => false,
            };
            if !in_progress || frame.channel_id != self.channel_id {
                return FIDO2TransactionEvent::Ignored;
            }
            if frame.seq_id as u16 >= self.merger.expected_chunks() {
                return FIDO2TransactionEvent::Rejected {
                    channel_id: frame.channel_id,
                    code: FIDO2ErrorCode::ErrInvalidSeq,
                };
            }
            match self.merger.apply(&mut self.buffer.request_buffer, &frame.data, frame.seq_id) {
                Ok(_) => {},
                Err(_) => {
                    assert(false);
                },
            }
            proof {
                let at: int = chunk_offset(FIDO2_MAX_NORMAL_PACKET_DATA_SIZE as int, frame.seq_id);
                assert(frame.data@.subrange(0, 59) =~= frame@.payload);
                assert(self.buffer.request_buffer@ =~= old(self).buffer.request_buffer@.subrange(
                    0,
                    at,
                ) + frame@.payload + old(self).buffer.request_buffer@.subrange(
                    at + FIDO2_MAX_CHUNK_PACKET_DATA_SIZE,
                    FIDO2_MAX_DATA_LENGTH as int,
                ));
            }
            self.settle()
        } else {
            let command = match frame.packet_type {
                Some(command) => command,
                None => {
                    assert(false);
                    return FIDO2TransactionEvent::Ignored;
                },
            };
            match command {
                FIDO2PacketCommand::CtapHIDCancel => {
                    let live = match self.state {
                        FIDO2TransactionState::ReceivingRequest
                        | FIDO2TransactionState::RequestReady
                        | FIDO2TransactionState::ProcessingResponse => true,
                        _ => false,
                    };
                    if live && frame.channel_id == self.channel_id {
                        self.reset();
                        return FIDO2TransactionEvent::Cancelled;
                    }
                    return FIDO2TransactionEvent::Ignored;
                },
                _ => {},
            }
            match self.channels.validate(frame.channel_id, command) {
                Ok(_) => {},
                Err(e) => {
                    return FIDO2TransactionEvent::Rejected {
                        channel_id: frame.channel_id,
                        code: FIDO2ErrorCode::from_internal(e),
                    };
                },
            }
            match self.state {
                FIDO2TransactionState::Idle => {},
                _ => {
                    return FIDO2TransactionEvent::Rejected {
                        channel_id: frame.channel_id,
                        code: FIDO2ErrorCode::ErrChannelBusy,
                    };
                },
            }
            self.channel_id = frame.channel_id;
            self.command = command;
            self.merger = FIDO2ChunkMerger::new(
                frame.data_length,
                FIDO2_MAX_NORMAL_PACKET_DATA_SIZE as u8,
            );
            assert(!self.merger.chunk_received(0));
            match self.merger.apply(&mut self.buffer.request_buffer, &frame.data, 0xff) {
                Ok(_) => {},
                Err(_) => {
                    assert(false);
                },
            }
            proof {
                assert(self.buffer.request_buffer@ =~= frame@.payload + zeros().subrange(
                    frame@.payload.len() as int,
                    FIDO2_MAX_DATA_LENGTH as int,
                ));
                if frame.data_length > FIDO2_MAX_NORMAL_PACKET_DATA_SIZE {
                    assert(!self.merger.chunk_received(0));
                }
            }
            self.settle()
        }
    }
    /// The channel that an INIT request is answered with: a newly allocated
    /// one for a request on the broadcast channel, if the pool has one
    /// left, and the requesting channel itself otherwise.
    pub open spec fn init_channel(&self) -> Option<u32> {
        if self.channel_id == FIDO2_CHANNEL_BROADCAST {
            lowest_free(self.channels@)
        } else {
            Some(self.channel_id)
        }
    }

    /// The command and the payload of the response to the request that is
    /// held, given the status that the command handler assigns to a MSG or
    /// CBOR request.
    ///
    /// A request that does not read as one of its command is answered with
    /// an ERROR of the code of its error, and so is an INIT when no channel
    /// is left, with `ErrChannelBusy`. PING is answered with its payload,
    /// INIT with nonce, channel and device identity, WINK and LOCK with
    /// nothing, MSG and CBOR with the status and the data of the request.
    pub open spec fn answer(&self, status_code: u8) -> (FIDO2PacketCommand, Seq<u8>) {
        let request = self.buffer.request();
        match FIDO2PacketCommandRequest::unpack_error(self.command, request) {
            Some(e) => (
                FIDO2PacketCommand::CtapHIDError,
                seq![FIDO2ErrorCode::of_internal(e).code()],
            ),
            None => match self.command {
                FIDO2PacketCommand::CtapHIDInit => match self.init_channel() {
                    Some(id) => (
                        FIDO2PacketCommand::CtapHIDInit,
                        request.subrange(0, 8) + u32_to_le(id) + seq![
                            PROTOCOL_VERSION,
                            MAJOR_VERSION,
                            MINOR_VERSION,
                            BUILD_VERSION,
                            FIDO2_CAPABILITIES,
                        ],
                    ),
                    None => (
                        FIDO2PacketCommand::CtapHIDError,
                        seq![FIDO2ErrorCode::ErrChannelBusy.code()],
                    ),
                },
                FIDO2PacketCommand::CtapHIDMsg | FIDO2PacketCommand::CtapHIDCbor => (
                    self.command,
                    seq![status_code] + request.subrange(1, request.len() as int),
                ),
                FIDO2PacketCommand::CtapHIDPing => (self.command, request),
                _ => (self.command, Seq::<u8>::empty()),
            },
        }
    }

    /// Whether `after` is the coordinator that answering the request leaves
    /// behind.
    ///
    /// Outside the state `ProcessingResponse` nothing changes. In it, the
    /// response is written to the front of the response buffer and marked as
    /// complete, its initiation packet is due next, and an INIT on the
    /// broadcast channel has allocated the channel that it announces.
    pub open spec fn after_answer(&self, status_code: u8, after: FIDO2Transaction) -> bool {
        if self.state != FIDO2TransactionState::ProcessingResponse {
            after == *self
        } else {
            let (command, payload) = self.answer(status_code);
            &&& after.state == FIDO2TransactionState::ResponseReady
            &&& after.command == command
            &&& after.channel_id == self.channel_id
            &&& after.merger == self.merger
            &&& after.next_seq == 0xff
            &&& after.channels@ == if self.command == FIDO2PacketCommand::CtapHIDInit
                && command == FIDO2PacketCommand::CtapHIDInit && self.channel_id
                == FIDO2_CHANNEL_BROADCAST {
                self.channels@.insert(lowest_free(self.channels@)->Some_0)
            } else {
                self.channels@
            }
            &&& after.buffer.request_buffer == self.buffer.request_buffer
            &&& after.buffer.request_buffer_data_len == self.buffer.request_buffer_data_len
            &&& after.buffer.request_buffer_done == self.buffer.request_buffer_done
            &&& after.buffer.response_buffer_done
            &&& after.buffer.response_buffer_data_len == payload.len()
            &&& after.buffer.response_buffer@ == payload + zeros().subrange(
                payload.len() as int,
                FIDO2_MAX_DATA_LENGTH as int,
            )
        }
    }

    /// The fragmenter of the response that is held.
    pub open spec fn spliter(&self) -> FIDO2ChunkSpliter {
        FIDO2ChunkSpliter {
            data_length: self.buffer.response_buffer_data_len,
            first_packet_length: FIDO2_MAX_NORMAL_PACKET_DATA_SIZE as u8,
            chunks_num: chunk_count(
                self.buffer.response_buffer_data_len as int,
                FIDO2_MAX_NORMAL_PACKET_DATA_SIZE as int,
            ) as u8,
        }
    }

    /// The frame of the response packet that is sent next: the initiation
    /// frame with the command, the length of the response and as much of
    /// the fragmenter's 57 bytes as belongs to the response, or a
    /// continuation frame, whose payload is padded with zeros to 59 bytes.
    pub open spec fn outgoing(&self) -> Frame {
        let part = self.spliter().packet_payload(self.buffer.response_buffer@, self.next_seq);
        if self.next_seq > 127 {
            Frame {
                channel_id: self.channel_id,
                kind: FrameKind::Initiation {
                    command: self.command,
                    declared_length: self.buffer.response_buffer_data_len,
                },
                payload: part.subrange(
                    0,
                    initiation_payload_len(self.buffer.response_buffer_data_len as int),
                ),
            }
        } else {
            Frame {
                channel_id: self.channel_id,
                kind: FrameKind::Continuation { sequence_index: self.next_seq },
                payload: part + zeros().subrange(0, FIDO2_MAX_CHUNK_PACKET_DATA_SIZE - part.len()),
            }
        }
    }

    /// The number of response packets that have gone out once the next one
    /// has.
    pub open spec fn sent_after_next(&self) -> int {
        if self.next_seq > 127 {
            0
        } else {
            self.next_seq + 1
        }
    }

    /// Whether `after` is the coordinator that sending the next response
    /// packet leaves behind.
    ///
    /// Outside the state `ResponseReady` nothing changes. In it, the next
    /// continuation packet becomes due; after the last packet both buffers
    /// are cleared and the state is `Idle`.
    pub open spec fn after_send(&self, after: FIDO2Transaction) -> bool {
        if self.state != FIDO2TransactionState::ResponseReady {
            after == *self
        } else if self.sent_after_next() < chunk_count(
            self.buffer.response_buffer_data_len as int,
            FIDO2_MAX_NORMAL_PACKET_DATA_SIZE as int,
        ) {
            after == (FIDO2Transaction { next_seq: self.sent_after_next() as u8, ..*self })
        } else {
            &&& after.state == FIDO2TransactionState::Idle
            &&& after.buffer.is_clear()
            &&& after.channels == self.channels
            &&& after.channel_id == self.channel_id
            &&& after.command == self.command
            &&& after.merger == self.merger
            &&& after.next_seq == self.next_seq
        }
    }

    /// Hands the complete request out for processing: its channel and its
    /// command. This happens once for a request: the state moves from
    /// `RequestReady` to `ProcessingResponse`. In any other state the
    /// result is `None` and nothing changes.
    pub fn take_request(&mut self) -> (r: Option<(u32, FIDO2PacketCommand)>)
        requires
            old(self).wf(),
        ensures
            final(self).wf(),
            match r {
                Some((channel_id, command)) => {
                    &&& old(self).state == FIDO2TransactionState::RequestReady
                    &&& channel_id == old(self).channel_id
                    &&& command == old(self).command
                    &&& *final(self) == (FIDO2Transaction {
                        state: FIDO2TransactionState::ProcessingResponse,
                        ..*old(self)
                    })
                },
                None => {
                    &&& old(self).state != FIDO2TransactionState::RequestReady
                    &&& *final(self) == *old(self)
                },
            },
    {
        match self.state {
            FIDO2TransactionState::RequestReady => {
                self.state = FIDO2TransactionState::ProcessingResponse;
                Some((self.channel_id, self.command))
            },
            _ => None,
        }
    }

    /// The payload of the request that is held.
    pub fn request(&self) -> (payload: &[u8])
        requires
            self.wf(),
        ensures
            payload@ == self.buffer.request(),
    {
        &self.buffer.request_buffer[0..self.buffer.request_buffer_data_len as usize]
    }

    /// Answers the request that was handed out: writes its response to the
    /// response buffer, ready to be sent.
    ///
    /// `status_code` is the status that the command handler assigns; it is
    /// the first byte of the response to a MSG or CBOR request and plays no
    /// part for the other commands. Returns whether there was a request to
    /// answer.
    pub fn respond(&mut self, status_code: u8) -> (answered: bool)
        requires
            old(self).wf(),
        ensures
            final(self).wf(),
            answered == (old(self).state == FIDO2TransactionState::ProcessingResponse),
            old(self).after_answer(status_code, *final(self)),
    {
        match self.state {
            FIDO2TransactionState::ProcessingResponse => {},
            _ => {
                return false;
            },
        }
        let length: usize = self.buffer.request_buffer_data_len as usize;
        let mut command: FIDO2PacketCommand = self.command;
        let written: Option<u16> = match FIDO2PacketCommandRequest::unpack(
            self.command,
            &self.buffer.request_buffer[0..length],
        ) {
            Err(e) => {
                command = FIDO2PacketCommand::CtapHIDError;
                FIDO2PacketCommandErrorResponse::new(FIDO2ErrorCode::from_internal(e)).apply(
                    &mut self.buffer.response_buffer,
                )
            },
            Ok(FIDO2PacketCommandRequest::Ping(request)) => FIDO2PacketCommandPingResponse::new(
                request.data,
            ).apply(&mut self.buffer.response_buffer),
            Ok(FIDO2PacketCommandRequest::Init(request)) => {
                let channel: Option<u32> = if self.channel_id == FIDO2_CHANNEL_BROADCAST {
                    self.channels.allocate()
                } else {
                    Some(self.channel_id)
                };
                match channel {
                    Some(id) => FIDO2PacketCommandInitResponse::new(
                        request.random,
                        channel_id_to_array(id),
                    ).apply(&mut self.buffer.response_buffer),
                    None => {
                        command = FIDO2PacketCommand::CtapHIDError;
                        FIDO2PacketCommandErrorResponse::new(FIDO2ErrorCode::ErrChannelBusy).apply(
                            &mut self.buffer.response_buffer,
                        )
                    },
                }
            },
            Ok(FIDO2PacketCommandRequest::Wink(_)) => FIDO2PacketCommandWinkResponse::new().apply(
                &mut self.buffer.response_buffer,
            ),
            Ok(FIDO2PacketCommandRequest::Lock(_)) => FIDO2PacketCommandLockResponse::new().apply(
                &mut self.buffer.response_buffer,
            ),
            Ok(FIDO2PacketCommandRequest::Msg(request)) => FIDO2PacketCommandMsgResponse::new(
                status_code,
                request.data,
            ).apply(&mut self.buffer.response_buffer),
            Ok(FIDO2PacketCommandRequest::Cbor(request)) => FIDO2PacketCommandCborResponse::new(
                status_code,
                request.data,
            ).apply(&mut self.buffer.response_buffer),
            Ok(FIDO2PacketCommandRequest::Cancel(_)) => {
                assert(false);
                None
            },
        };
        let response_length: u16 = match written {
            Some(response_length) => response_length,
            None => {
                assert(false);
                0
            },
        };
        self.buffer.set_response_done(response_length);
        self.command = command;
        self.next_seq = 0xff;
        self.state = FIDO2TransactionState::ResponseReady;
        true
    }

    /// The next packet of the response, for the caller to send.
    ///
    /// In the state `ResponseReady` this is the packet of the frame
    /// `outgoing`, and the coordinator moves on as `after_send` describes.
    /// In any other state there is nothing to send.
    pub fn next_packet(&mut self) -> (packet: Option<[u8; 64]>)
        requires
            old(self).wf(),
        ensures
            final(self).wf(),
            match packet {
                Some(bytes) => old(self).state == FIDO2TransactionState::ResponseReady && bytes@
                    == old(self).outgoing().encode(),
                None => old(self).state != FIDO2TransactionState::ResponseReady,
            },
            old(self).after_send(*final(self)),
    {
        match self.state {
            FIDO2TransactionState::ResponseReady => {},
            _ => {
                return None;
            },
        }
        let spliter = FIDO2ChunkSpliter::new(
            self.buffer.response_buffer_data_len,
            FIDO2_MAX_NORMAL_PACKET_DATA_SIZE as u8,
        );
        let mut data = [0u8; 59];
        match spliter.apply(&self.buffer.response_buffer, &mut data, self.next_seq) {
            Ok(_) => {},
            Err(_) => {
                assert(false);
            },
        }
        let frame = if self.next_seq > 127 {
            FIDO2PacketBuilder {
                channel_id: self.channel_id,
                packet_type: Some(self.command),
                seq_id: 0xff,
                data_length: self.buffer.response_buffer_data_len,
                is_seq: false,
                data,
            }
        } else {
            FIDO2PacketBuilder {
                channel_id: self.channel_id,
                packet_type: None,
                seq_id: self.next_seq,
                data_length: 59,
                is_seq: true,
                data,
            }
        };
        assert(frame@.payload =~= self.outgoing().payload);
        let packet = match frame.pack() {
            Ok(packet) => packet,
            Err(_) => {
                assert(false);
                [0u8; 64]
            },
        };
        let sent: u8 = if self.next_seq > 127 {
            0
        } else {
            self.next_seq + 1
        };
        if sent < spliter.chunks() {
            self.next_seq = sent;
        } else {
            self.reset();
        }
        Some(packet)
    }

    /// The packet that tells a channel of a rejected packet: an ERROR
    /// frame with the code as its one byte of payload. There is none for
    /// the null channel: `ReversedChannelError`.
    pub fn rejection_packet(channel_id: u32, code: FIDO2ErrorCode) -> (r: Result<
        [u8; 64],
        FIDO2InternalError,
    >)
        ensures
            match r {
                Ok(packet) => channel_id != 0 && packet@ == (Frame {
                    channel_id,
                    kind: FrameKind::Initiation {
                        command: FIDO2PacketCommand::CtapHIDError,
                        declared_length: 1,
                    },
                    payload: seq![code.code()],
                }).encode(),
                Err(e) => channel_id == 0 && e == FIDO2InternalError::ReversedChannelError,
            },
    {
        if channel_id == FIDO2_CHANNEL_NULL {
            return Err(FIDO2InternalError::ReversedChannelError);
        }
        let mut data = [0u8; 59];
        let written = FIDO2PacketCommandErrorResponse::new(code).apply(&mut data);
        let frame = FIDO2PacketBuilder {
            channel_id,
            packet_type: Some(FIDO2PacketCommand::CtapHIDError),
            seq_id: 0xff,
            data_length: 1,
            is_seq: false,
            data,
        };
        assert(frame@.payload =~= seq![code.code()]);
        frame.pack()
    }
}

} // verus!
