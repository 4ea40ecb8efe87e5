//! The two message buffers of the transaction coordinator: one for the
//! inbound request, one for the outbound response, each of the protocol's
//! maximum message length, with the length of the message it holds and a
//! flag that tells whether the message is complete.

use crate::consts::FIDO2_MAX_DATA_LENGTH;
use crate::fido2_commands::FIDO2PacketCommandResponse;
use crate::fido2_internal_error::FIDO2InternalError;
use vstd::prelude::*;

verus! {

/// The request buffer and the response buffer.
#[derive(Debug, Clone)]
pub struct GlobalBuffer {
    pub request_buffer: [u8; FIDO2_MAX_DATA_LENGTH],
    pub response_buffer: [u8; FIDO2_MAX_DATA_LENGTH],
    pub request_buffer_data_len: u16,
    pub response_buffer_data_len: u16,
    pub request_buffer_done: bool,
    pub response_buffer_done: bool,
}

/// A buffer's worth of zeros.
pub open spec fn zeros() -> Seq<u8> {
    Seq::new(FIDO2_MAX_DATA_LENGTH as nat, |i: int| 0u8)
}

/// Whether every byte of the buffer is zero.
fn all_zero(buffer: &[u8; FIDO2_MAX_DATA_LENGTH]) -> (zero: bool)
    ensures
        zero == (buffer@ == zeros()),
{
    let mut k: usize = 0;
    while k < FIDO2_MAX_DATA_LENGTH
        invariant
            k <= FIDO2_MAX_DATA_LENGTH,
            forall|i: int| 0 <= i < k ==> buffer@[i] == 0,
        decreases FIDO2_MAX_DATA_LENGTH - k,
    {
        if buffer[k] != 0 {
            assert(zeros()[k as int] == 0);
            return false;
        }
        k += 1;
    }
    assert(buffer@ =~= zeros());
    true
}

impl GlobalBuffer {
    /// Both recorded lengths are within the buffers.
    pub open spec fn wf(&self) -> bool {
        &&& self.request_buffer_data_len <= FIDO2_MAX_DATA_LENGTH
        &&& self.response_buffer_data_len <= FIDO2_MAX_DATA_LENGTH
    }

    /// The request that the buffer holds: the first
    /// `request_buffer_data_len` bytes of the request buffer.
    pub open spec fn request(&self) -> Seq<u8> {
        self.request_buffer@.subrange(0, self.request_buffer_data_len as int)
    }

    /// The response that the buffer holds: the first
    /// `response_buffer_data_len` bytes of the response buffer.
    pub open spec fn response(&self) -> Seq<u8> {
        self.response_buffer@.subrange(0, self.response_buffer_data_len as int)
    }

    /// Whether nothing is held: both buffers zero, both lengths zero, both
    /// flags down.
    pub open spec fn is_clear(&self) -> bool {
        self.request_is_clear() && self.response_is_clear()
    }

    /// Whether no response is held: the response buffer zero, its length
    /// zero, its flag down.
    pub open spec fn response_is_clear(&self) -> bool {
        &&& self.response_buffer@ == zeros()
        &&& self.response_buffer_data_len == 0
        &&& !self.response_buffer_done
    }

    /// Whether no request is held: the request buffer zero, its length
    /// zero, its flag down.
    pub open spec fn request_is_clear(&self) -> bool {
        &&& self.request_buffer@ == zeros()
        &&& self.request_buffer_data_len == 0
        &&& !self.request_buffer_done
    }

    /// Whether no request is held.
    pub fn request_cleared(&self) -> (clear: bool)
        ensures
            clear == self.request_is_clear(),
    {
        self.request_buffer_data_len == 0 && !self.request_buffer_done && all_zero(
            &self.request_buffer,
        )
    }

    /// Whether no response is held.
    pub fn response_cleared(&self) -> (clear: bool)
        ensures
            clear == self.response_is_clear(),
    {
        self.response_buffer_data_len == 0 && !self.response_buffer_done && all_zero(
            &self.response_buffer,
        )
    }

    /// Buffers that hold nothing.
    pub fn new() -> (buffer: GlobalBuffer)
        ensures
            buffer.is_clear(),
            buffer.wf(),
    {
        let buffer = GlobalBuffer {
            request_buffer: [0u8; FIDO2_MAX_DATA_LENGTH],
            response_buffer: [0u8; FIDO2_MAX_DATA_LENGTH],
            request_buffer_data_len: 0,
            response_buffer_data_len: 0,
            request_buffer_done: false,
            response_buffer_done: false,
        };
        assert(buffer.request_buffer@ =~= zeros());
        assert(buffer.response_buffer@ =~= zeros());
        buffer
    }

    /// Writes a response to the front of the response buffer and marks the
    /// response as complete, with its length.
    ///
    /// Fails with `BufferTooSmallError`, and changes nothing, exactly when
    /// the response is longer than the buffer.
    pub fn apply_response_from<R: FIDO2PacketCommandResponse>(&mut self, resp: R) -> (r: Result<
        u16,
        FIDO2InternalError,
    >)
        ensures
            match r {
                Ok(length) => {
                    &&& resp.payload().len() <= FIDO2_MAX_DATA_LENGTH
                    &&& length == resp.payload().len()
                    &&& final(self).response_buffer@ == resp.payload() + old(
                        self,
                    ).response_buffer@.subrange(length as int, FIDO2_MAX_DATA_LENGTH as int)
                    &&& final(self).response() == resp.payload()
                    &&& final(self).response_buffer_data_len == length
                    &&& final(self).response_buffer_done
                    &&& final(self).request_buffer == old(self).request_buffer
                    &&& final(self).request_buffer_data_len == old(self).request_buffer_data_len
                    &&& final(self).request_buffer_done == old(self).request_buffer_done
                },
                Err(e) => {
                    &&& resp.payload().len() > FIDO2_MAX_DATA_LENGTH
                    &&& e == FIDO2InternalError::BufferTooSmallError
                    &&& *final(self) == *old(self)
                },
            },
    {
        match resp.apply(&mut self.response_buffer) {
            Some(length) => {
                self.set_response_done(length);
                assert(self.response() =~= resp.payload());
                Ok(length)
            },
            None => {
                assert(self.response_buffer =~= old(self).response_buffer);
                Err(FIDO2InternalError::BufferTooSmallError)
            },
        }
    }

    /// Marks the request as complete, with its length.
    pub fn set_request_done(&mut self, length: u16)
        ensures
            *final(self) == (GlobalBuffer {
                request_buffer_data_len: length,
                request_buffer_done: true,
                ..*old(self)
            }),
    {
        self.request_buffer_data_len = length;
        self.request_buffer_done = true;
    }

    /// Marks the response as complete, with its length.
    pub fn set_response_done(&mut self, length: u16)
        ensures
            *final(self) == (GlobalBuffer {
                response_buffer_data_len: length,
                response_buffer_done: true,
                ..*old(self)
            }),
    {
        self.response_buffer_data_len = length;
        self.response_buffer_done = true;
    }

    /// Whether the request is still incomplete.
    pub fn get_request_pending(&self) -> (pending: bool)
        ensures
            pending == !self.request_buffer_done,
    {
        !self.request_buffer_done
    }

    /// Whether the response is still incomplete.
    pub fn get_response_pending(&self) -> (pending: bool)
        ensures
            pending == !self.response_buffer_done,
    {
        !self.response_buffer_done
    }

    /// Forgets the request: length zero, flag down, buffer zeroed. The
    /// response side stays as it is.
    pub fn clear_request(&mut self)
        ensures
            final(self).request_is_clear(),
            final(self).response_buffer == old(self).response_buffer,
            final(self).response_buffer_data_len == old(self).response_buffer_data_len,
            final(self).response_buffer_done == old(self).response_buffer_done,
    {
        self.request_buffer_data_len = 0;
        self.request_buffer_done = false;
        self.request_buffer = [0u8; FIDO2_MAX_DATA_LENGTH];
        assert(self.request_buffer@ =~= zeros());
    }

    /// Forgets the response: length zero, flag down, buffer zeroed. The
    /// request side stays as it is.
    pub fn clear_response(&mut self)
        ensures
            final(self).response_is_clear(),
            final(self).request_buffer == old(self).request_buffer,
            final(self).request_buffer_data_len == old(self).request_buffer_data_len,
            final(self).request_buffer_done == old(self).request_buffer_done,
    {
        self.response_buffer_data_len = 0;
        self.response_buffer_done = false;
        self.response_buffer = [0u8; FIDO2_MAX_DATA_LENGTH];
        assert(self.response_buffer@ =~= zeros());
    }
}

} // verus!
