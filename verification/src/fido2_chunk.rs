//! Message reassembly and fragmentation.
//!
//! A message of `data_length` bytes travels as one initiation packet, which
//! carries its first `first_packet_length` bytes, and as many continuation
//! packets of 59 bytes as the rest needs. Continuation `i` carries the bytes
//! from offset `first_packet_length + 59 * i` on. Both directions name the
//! initiation packet by a sequence index above 127.

use crate::consts::{
    FIDO2_MAX_CHUNK_PACKET_DATA_SIZE, FIDO2_MAX_DATA_LENGTH, FIDO2_MAX_NORMAL_PACKET_DATA_SIZE,
};
use crate::fido2_internal_error::FIDO2InternalError;
use crate::utils::{bit_u128, copy_bytes, lemma_no_bit_of_zero, lemma_set_bit, set_bit_u128};
use vstd::prelude::*;

verus! {

/// The number of continuation packets that a message of `data_length` bytes
/// needs when its initiation packet carries `first_packet_length` of them:
/// the rest divided by 59, rounded up.
pub open spec fn chunk_count(data_length: int, first_packet_length: int) -> int {
    if data_length <= first_packet_length {
        0
    } else {
        (data_length - first_packet_length + 58) / 59
    }
}

/// Where in the message the packet with the given sequence index starts.
pub open spec fn chunk_offset(first_packet_length: int, seq_id: u8) -> int {
    if seq_id > 127 {
        0
    } else {
        first_packet_length + 59 * seq_id
    }
}

/// The smaller of two numbers.
pub open spec fn smaller(a: int, b: int) -> int {
    if a <= b {
        a
    } else {
        b
    }
}

/// The word whose `n` lowest bits are set and no others.
pub open spec fn low_mask(n: int) -> u128 {
    if n >= 128 {
        u128::MAX
    } else {
        ((1u128 << (n as u8)) - 1) as u128
    }
}

/// Whether the `n` lowest bits of `a` are all set.
pub open spec fn low_bits_set(a: u128, n: int) -> bool {
    forall|i: int| 0 <= i < n ==> bit_u128(a, #[trigger] (i as u8))
}

proof fn lemma_low_mask_step(a: u128, k: u8)
    requires
        k < 128,
    ensures
        (a & low_mask(k + 1) == low_mask(k + 1)) <==> (a & low_mask(k as int) == low_mask(k as int)
            && bit_u128(a, k)),
{
    if k == 127 {
        assert((a & 0xffff_ffff_ffff_ffff_ffff_ffff_ffff_ffffu128
            == 0xffff_ffff_ffff_ffff_ffff_ffff_ffff_ffffu128) <==> (a & (((1u128 << 127u8)
            - 1) as u128) == (((1u128 << 127u8) - 1) as u128) && a & (1u128 << 127u8) == (1u128
            << 127u8))) by (bit_vector);
    } else {
        let k1: u8 = (k + 1) as u8;
        assert((a & (((1u128 << k1) - 1) as u128) == (((1u128 << k1) - 1) as u128)) <==> (a & (((
        1u128 << k) - 1) as u128) == (((1u128 << k) - 1) as u128) && a & (1u128 << k) == (1u128
            << k))) by (bit_vector)
            requires
                k < 127,
                k1 == k + 1,
        ;
    }
}

/// A word covers the mask of its `n` lowest bits exactly when each of those
/// bits is set in it.
pub proof fn lemma_low_mask(a: u128, n: int)
    requires
        0 <= n <= 128,
    ensures
        (a & low_mask(n) == low_mask(n)) <==> low_bits_set(a, n),
    decreases n,
{
    if n == 0 {
        assert(a & 0u128 == 0u128) by (bit_vector);
        assert(((1u128 << 0u8) - 1) as u128 == 0u128) by (bit_vector);
    } else {
        let k: u8 = (n - 1) as u8;
        lemma_low_mask(a, n - 1);
        lemma_low_mask_step(a, k);
        if low_bits_set(a, n) {
            assert(bit_u128(a, k as int as u8));
            assert(low_bits_set(a, n - 1));
        }
        if low_bits_set(a, n - 1) && bit_u128(a, k) {
            assert forall|i: int| 0 <= i < n implies bit_u128(a, #[trigger] (i as u8)) by {
                if i == n - 1 {
                    assert(i as u8 == k);
                }
            }
        }
    }
}

/// Puts the packets of one inbound message together.
#[derive(Debug, Clone, Copy)]
pub struct FIDO2ChunkMerger {
    /// Number of message bytes that the initiation packet carries.
    pub first_packet_length: u8,
    /// Whether the initiation packet has arrived.
    pub first_packet_received: bool,
    /// Bit `i` is set once continuation `i` has arrived.
    pub seq_received: u128,
    /// Length of the whole message, as the initiation packet declared it.
    pub data_length: u16,
}

impl FIDO2ChunkMerger {
    /// The number of continuation packets that the message needs.
    pub open spec fn chunks_expected(&self) -> int {
        chunk_count(self.data_length as int, self.first_packet_length as int)
    }

    /// Whether continuation `index` has arrived.
    pub open spec fn chunk_received(&self, index: int) -> bool {
        0 <= index < 128 && bit_u128(self.seq_received, index as u8)
    }

    /// Whether the initiation packet and every continuation packet that the
    /// message needs have arrived.
    pub open spec fn complete(&self) -> bool {
        &&& self.first_packet_received
        &&& forall|i: int| 0 <= i < self.chunks_expected() ==> self.chunk_received(i)
    }

    /// The number of payload bytes taken from a packet that carries
    /// `data_len` of them.
    pub open spec fn accepted_len(&self, data_len: int, seq_id: u8) -> int {
        if seq_id > 127 {
            smaller(self.first_packet_length as int, data_len)
        } else {
            smaller(FIDO2_MAX_CHUNK_PACKET_DATA_SIZE as int, data_len)
        }
    }

    /// The reassembler once the packet with the given index is noted.
    pub open spec fn marked(self, seq_id: u8) -> FIDO2ChunkMerger {
        if seq_id > 127 {
            FIDO2ChunkMerger { first_packet_received: true, ..self }
        } else {
            FIDO2ChunkMerger { seq_received: self.seq_received | (1u128 << seq_id), ..self }
        }
    }

    /// What taking in a packet does: the reassembler and the buffer after
    /// it, or `None` where the bytes would fall outside the buffer.
    pub open spec fn merge(self, buffer: Seq<u8>, data: Seq<u8>, seq_id: u8) -> Option<
        (FIDO2ChunkMerger, Seq<u8>),
    > {
        let at = chunk_offset(self.first_packet_length as int, seq_id);
        let len = self.accepted_len(data.len() as int, seq_id);
        if at + len <= buffer.len() {
            Some(
                (
                    self.marked(seq_id),
                    buffer.subrange(0, at) + data.subrange(0, len) + buffer.subrange(
                        at + len,
                        buffer.len() as int,
                    ),
                ),
            )
        } else {
            None
        }
    }

    /// A reassembler for a message of `data_length` bytes, of which nothing
    /// has arrived yet.
    pub fn new(data_length: u16, first_packet_length: u8) -> (merger: FIDO2ChunkMerger)
        ensures
            merger.data_length == data_length,
            merger.first_packet_length == first_packet_length,
            !merger.first_packet_received,
            merger.seq_received == 0,
            forall|i: int| !merger.chunk_received(i),
    {
        let merger = FIDO2ChunkMerger {
            first_packet_received: false,
            seq_received: 0,
            data_length,
            first_packet_length,
        };
        proof {
            lemma_no_bit_of_zero();
        }
        merger
    }

    fn mark_first_packet_received(&mut self)
        ensures
            *final(self) == old(self).marked(0xff),
    {
        self.first_packet_received = true;
    }

    fn mark_chunk_packet_received(&mut self, index: u8)
        requires
            index < 128,
        ensures
            *final(self) == old(self).marked(index),
    {
        set_bit_u128(&mut self.seq_received, index);
    }

    /// The number of continuation packets that the message needs.
    pub fn expected_chunks(&self) -> (count: u16)
        ensures
            count == self.chunks_expected(),
    {
        if self.data_length <= self.first_packet_length as u16 {
            0
        } else {
            (self.data_length - self.first_packet_length as u16 - 1) / 59 + 1
        }
    }

    /// Whether the message is complete: the initiation packet and all the
    /// continuation packets that its length calls for have arrived.
    pub fn is_done(&self) -> (done: bool)
        ensures
            done == self.complete(),
    {
        let count: u16 = self.expected_chunks();
        if !self.first_packet_received {
            return false;
        }
        if count > 128 {
            assert(!self.chunk_received(128));
            return false;
        }
        assert(count < 128 ==> 1u128 << count >= 1) by (bit_vector);
        let mask: u128 = if count == 128 {
            u128::MAX
        } else {
            (1u128 << count) - 1
        };
        proof {
            let n: u8 = count as u8;
            assert(1u128 << count == 1u128 << n) by (bit_vector)
                requires
                    n == count,
            ;
            assert(mask == low_mask(count as int));
            lemma_low_mask(self.seq_received, count as int);
            if low_bits_set(self.seq_received, count as int) {
                assert forall|i: int| 0 <= i < self.chunks_expected() implies self.chunk_received(
                    i,
                ) by {
                    assert(bit_u128(self.seq_received, i as u8));
                }
            }
            if self.complete() {
                assert forall|i: int| 0 <= i < count implies bit_u128(
                    self.seq_received,
                    #[trigger] (i as u8),
                ) by {
                    assert(self.chunk_received(i));
                }
            }
        }
        self.seq_received & mask == mask
    }

    /// Takes in the payload of one packet: the initiation packet for a
    /// `seq_id` above 127, else continuation `seq_id`.
    ///
    /// Copies the payload to its place in `buffer` and notes the packet as
    /// arrived. Where the bytes would fall outside `buffer`, nothing is
    /// written or noted and the result is `BufferTooSmallError`.
    pub fn apply(&mut self, buffer: &mut [u8], data: &[u8], seq_id: u8) -> (r: Result<
        (),
        FIDO2InternalError,
    >)
        ensures
            match r {
                Ok(_) => old(self).merge(old(buffer)@, data@, seq_id) == Some(
                    (*final(self), final(buffer)@),
                ),
                Err(e) => {
                    &&& old(self).merge(old(buffer)@, data@, seq_id) is None
                    &&& e == FIDO2InternalError::BufferTooSmallError
                    &&& *final(self) == *old(self)
                    &&& final(buffer)@ == old(buffer)@
                },
            },
    {
        if seq_id > 127 {
            let first_len: usize = if (self.first_packet_length as usize) <= data.len() {
                self.first_packet_length as usize
            } else {
                data.len()
            };
            if first_len > buffer.len() {
                return Err(FIDO2InternalError::BufferTooSmallError);
            }
            copy_bytes(buffer, 0, data, 0, first_len);
            self.mark_first_packet_received();
            Ok(())
        } else {
            let chunk_len: usize = if FIDO2_MAX_CHUNK_PACKET_DATA_SIZE <= data.len() {
                FIDO2_MAX_CHUNK_PACKET_DATA_SIZE
            } else {
                data.len()
            };
            let at: usize = seq_id as usize * 59 + self.first_packet_length as usize;
            if at + chunk_len > buffer.len() {
                return Err(FIDO2InternalError::BufferTooSmallError);
            }
            copy_bytes(buffer, at, data, 0, chunk_len);
            self.mark_chunk_packet_received(seq_id);
            Ok(())
        }
    }
}

/// Cuts one outbound message into the payloads of its packets.
#[derive(Debug, Clone, Copy)]
pub struct FIDO2ChunkSpliter {
    /// Length of the whole message.
    pub data_length: u16,
    /// Number of message bytes that the initiation packet carries.
    pub first_packet_length: u8,
    /// Number of continuation packets that the message needs.
    pub chunks_num: u8,
}

impl FIDO2ChunkSpliter {
    /// The number of continuation packets is the one that the length calls
    /// for.
    pub open spec fn wf(&self) -> bool {
        &&& self.data_length <= FIDO2_MAX_DATA_LENGTH
        &&& self.chunks_num == chunk_count(
            self.data_length as int,
            self.first_packet_length as int,
        )
    }

    /// Whether the message has a packet with the given sequence index.
    pub open spec fn has_packet(&self, seq_id: u8) -> bool {
        seq_id > 127 || chunk_offset(self.first_packet_length as int, seq_id) < self.data_length
    }

    /// The number of bytes that the packet with the given sequence index
    /// carries: `first_packet_length` for the initiation packet, whatever
    /// the length of the message; for a continuation packet, what is left
    /// of the message at its offset, up to the packet's capacity.
    pub open spec fn packet_len(&self, seq_id: u8) -> int {
        if seq_id > 127 {
            self.first_packet_length as int
        } else {
            smaller(
                FIDO2_MAX_CHUNK_PACKET_DATA_SIZE as int,
                self.data_length - chunk_offset(self.first_packet_length as int, seq_id),
            )
        }
    }

    /// The part of the buffer that the packet with the given sequence index
    /// carries.
    pub open spec fn packet_payload(&self, message: Seq<u8>, seq_id: u8) -> Seq<u8> {
        let at = chunk_offset(self.first_packet_length as int, seq_id);
        message.subrange(at, at + self.packet_len(seq_id))
    }

    /// Why the packet with the given index cannot be cut from a buffer of
    /// `buffer_len` bytes into a destination of `data_len` bytes, if it
    /// cannot.
    ///
    /// `DataLengthError` where the message has no such packet or the buffer
    /// does not hold the bytes that the packet carries;
    /// `BufferTooSmallError` where the destination cannot hold the payload.
    pub open spec fn split_error(&self, buffer_len: int, data_len: int, seq_id: u8) -> Option<
        FIDO2InternalError,
    > {
        let at = chunk_offset(self.first_packet_length as int, seq_id);
        if !self.has_packet(seq_id) {
            Some(FIDO2InternalError::DataLengthError)
        } else if buffer_len < at + self.packet_len(seq_id) {
            Some(FIDO2InternalError::DataLengthError)
        } else if data_len < self.packet_len(seq_id) {
            Some(FIDO2InternalError::BufferTooSmallError)
        } else {
            None
        }
    }

    /// A fragmenter for a message of `data_length` bytes.
    pub fn new(data_length: u16, first_packet_length: u8) -> (spliter: FIDO2ChunkSpliter)
        requires
            data_length <= FIDO2_MAX_DATA_LENGTH,
        ensures
            spliter.data_length == data_length,
            spliter.first_packet_length == first_packet_length,
            spliter.chunks_num == chunk_count(data_length as int, first_packet_length as int),
            spliter.wf(),
    {
        let chunks_num: u8 = if data_length <= first_packet_length as u16 {
            0
        } else {
            ((data_length - first_packet_length as u16 - 1) / 59 + 1) as u8
        };
        FIDO2ChunkSpliter { data_length, first_packet_length, chunks_num }
    }

    /// Cuts out the payload of one packet: the initiation packet for a
    /// `seq_id` above 127, else continuation `seq_id`.
    ///
    /// Copies that part of `buffer`, which holds the message from its
    /// start, to the front of `data` and returns its length. The initiation
    /// packet takes the first `first_packet_length` bytes of `buffer`, also
    /// where the message is shorter. On an error `data` is left as it was.
    pub fn apply(&self, buffer: &[u8], data: &mut [u8], seq_id: u8) -> (r: Result<
        usize,
        FIDO2InternalError,
    >)
        ensures
            match r {
                Ok(len) => {
                    &&& self.split_error(buffer@.len() as int, old(data)@.len() as int, seq_id)
                        is None
                    &&& len == self.packet_len(seq_id)
                    &&& final(data)@ == self.packet_payload(buffer@, seq_id) + old(data)@.subrange(
                        len as int,
                        old(data)@.len() as int,
                    )
                },
                Err(e) => {
                    &&& self.split_error(buffer@.len() as int, old(data)@.len() as int, seq_id)
                        == Some(e)
                    &&& final(data)@ == old(data)@
                },
            },
    {
        let first: usize = self.first_packet_length as usize;
        let total: usize = self.data_length as usize;
        let at: usize = if seq_id > 127 {
            0
        } else {
            seq_id as usize * 59 + first
        };
        let len: usize = if seq_id > 127 {
            first
        } else {
            if at >= total {
                return Err(FIDO2InternalError::DataLengthError);
            }
            if total - at >= FIDO2_MAX_CHUNK_PACKET_DATA_SIZE {
                FIDO2_MAX_CHUNK_PACKET_DATA_SIZE
            } else {
                total - at
            }
        };
        if buffer.len() < at + len {
            return Err(FIDO2InternalError::DataLengthError);
        }
        if data.len() < len {
            return Err(FIDO2InternalError::BufferTooSmallError);
        }
        copy_bytes(data, 0, buffer, at, len);
        assert(final(data)@ =~= self.packet_payload(buffer@, seq_id) + old(data)@.subrange(
            len as int,
            old(data)@.len() as int,
        ));
        Ok(len)
    }

    /// The number of continuation packets that the message needs.
    pub fn chunks(&self) -> (count: u8)
        ensures
            count == self.chunks_num,
    {
        self.chunks_num
    }
}

/// The fragmenter and the reassembler of one message count the same number
/// of continuation packets.
pub proof fn lemma_chunk_counts_agree(spliter: FIDO2ChunkSpliter, merger: FIDO2ChunkMerger)
    requires
        spliter.wf(),
        merger.data_length == spliter.data_length,
        merger.first_packet_length == spliter.first_packet_length,
    ensures
        spliter.chunks_num == merger.chunks_expected(),
        forall|seq_id: u8|
            seq_id <= 127 ==> (spliter.has_packet(seq_id) <==> seq_id < merger.chunks_expected()),
{
}

/// The fragmenter for a message of `length` bytes, as
/// `FIDO2ChunkSpliter::new` makes it with the standard initiation payload of
/// 57 bytes.
pub open spec fn spliter_for(length: nat) -> FIDO2ChunkSpliter {
    FIDO2ChunkSpliter {
        data_length: length as u16,
        first_packet_length: FIDO2_MAX_NORMAL_PACKET_DATA_SIZE as u8,
        chunks_num: chunk_count(length as int, FIDO2_MAX_NORMAL_PACKET_DATA_SIZE as int) as u8,
    }
}

/// The reassembler for a message of `length` bytes, as
/// `FIDO2ChunkMerger::new` makes it with the standard initiation payload of
/// 57 bytes.
pub open spec fn merger_for(length: nat) -> FIDO2ChunkMerger {
    FIDO2ChunkMerger {
        first_packet_length: FIDO2_MAX_NORMAL_PACKET_DATA_SIZE as u8,
        first_packet_received: false,
        seq_received: 0,
        data_length: length as u16,
    }
}

/// The reassembler and its buffer once the initiation packet and the first
/// `k` continuation packets of the message of `length` bytes at the front
/// of `source` have been cut by its fragmenter and taken in, in order,
/// starting from a fresh reassembler and `buffer`.
pub open spec fn relayed(source: Seq<u8>, length: nat, buffer: Seq<u8>, k: nat) -> Option<
    (FIDO2ChunkMerger, Seq<u8>),
>
    decreases k,
{
    if k == 0 {
        merger_for(length).merge(buffer, spliter_for(length).packet_payload(source, 0xff), 0xff)
    } else {
        match relayed(source, length, buffer, (k - 1) as nat) {
            None => None,
            Some((merger, merged)) => merger.merge(
                merged,
                spliter_for(length).packet_payload(source, (k - 1) as u8),
                (k - 1) as u8,
            ),
        }
    }
}

/// The number of bytes that the initiation packet and the first `k`
/// continuation packets carry together: 57 for the initiation packet alone,
/// and the message up to the end of continuation `k - 1` after it.
pub open spec fn relayed_len(length: nat, k: nat) -> int {
    if k == 0 {
        FIDO2_MAX_NORMAL_PACKET_DATA_SIZE as int
    } else {
        smaller(length as int, FIDO2_MAX_NORMAL_PACKET_DATA_SIZE + 59 * k)
    }
}

proof fn lemma_relayed_state(source: Seq<u8>, length: nat, buffer: Seq<u8>, k: nat)
    requires
        length <= FIDO2_MAX_DATA_LENGTH,
        length <= source.len(),
        length <= buffer.len(),
        FIDO2_MAX_NORMAL_PACKET_DATA_SIZE <= source.len(),
        FIDO2_MAX_NORMAL_PACKET_DATA_SIZE <= buffer.len(),
        k <= chunk_count(length as int, FIDO2_MAX_NORMAL_PACKET_DATA_SIZE as int),
    ensures
        relayed(source, length, buffer, k) matches Some((merger, merged)) && {
            &&& merger.first_packet_received
            &&& merger.first_packet_length == FIDO2_MAX_NORMAL_PACKET_DATA_SIZE
            &&& merger.data_length == length
            &&& forall|i: int| merger.chunk_received(i) <==> 0 <= i < k
            &&& merged.len() == buffer.len()
            &&& merged.subrange(0, relayed_len(length, k)) == source.subrange(
                0,
                relayed_len(length, k),
            )
            &&& merged.subrange(relayed_len(length, k), merged.len() as int) == buffer.subrange(
                relayed_len(length, k),
                buffer.len() as int,
            )
        },
    decreases k,
{
    let spliter = spliter_for(length);
    if k == 0 {
        let (merger, merged) = relayed(source, length, buffer, 0).unwrap();
        lemma_no_bit_of_zero();
        assert forall|i: int| !merger.chunk_received(i) by {
            if 0 <= i < 128 {
                assert(!bit_u128(0, i as u8));
            }
        }
        assert(merged.subrange(0, 57) =~= source.subrange(0, 57));
        assert(merged.subrange(57, merged.len() as int) =~= buffer.subrange(
            57,
            buffer.len() as int,
        ));
    } else {
        let j: u8 = (k - 1) as u8;
        lemma_relayed_state(source, length, buffer, (k - 1) as nat);
        let (before, held) = relayed(source, length, buffer, (k - 1) as nat).unwrap();
        let payload = spliter.packet_payload(source, j);
        let at = chunk_offset(57, j);
        let covered = relayed_len(length, (k - 1) as nat);
        assert(covered == at);
        assert(at + payload.len() == relayed_len(length, k));
        let (merger, merged) = before.merge(held, payload, j).unwrap();
        lemma_set_bit(before.seq_received, j);
        assert forall|i: int| merger.chunk_received(i) <==> 0 <= i < k by {
            if 0 <= i < 128 {
                assert(bit_u128(merger.seq_received, i as u8) == (i as u8 == j || bit_u128(
                    before.seq_received,
                    i as u8,
                )));
                assert(before.chunk_received(i) <==> 0 <= i < k - 1);
            }
        }
        let done = relayed_len(length, k);
        assert(merged.subrange(0, done) =~= source.subrange(0, done)) by {
            assert forall|i: int| 0 <= i < done implies merged[i] == source[i] by {
                if i < at {
                    assert(held.subrange(0, at)[i] == source.subrange(0, at)[i]);
                }
            }
        }
        assert(merged.subrange(done, merged.len() as int) =~= buffer.subrange(
            done,
            buffer.len() as int,
        )) by {
            assert forall|i: int| done <= i < merged.len() implies merged[i] == buffer[i] by {
                assert(held.subrange(at, held.len() as int)[i - at] == buffer.subrange(
                    at,
                    buffer.len() as int,
                )[i - at]);
            }
        }
    }
}

/// Cutting a message of up to 7609 bytes into packets and taking these in,
/// in order, with a fresh reassembler puts the message at the front of the
/// reassembler's buffer. The reassembler reports completion after the last
/// continuation packet that the message needs, and not before.
///
/// The message is the first `length` bytes of `source`. Both `source` and
/// the reassembler's buffer hold at least the 57 bytes that the initiation
/// packet carries whatever the length of the message: with it come the
/// bytes of `source` behind a message shorter than that. The rest of the
/// reassembler's buffer stays as it was.
pub proof fn lemma_split_merge(source: Seq<u8>, length: nat, buffer: Seq<u8>, k: nat)
    requires
        length <= FIDO2_MAX_DATA_LENGTH,
        length <= source.len(),
        length <= buffer.len(),
        FIDO2_MAX_NORMAL_PACKET_DATA_SIZE <= source.len(),
        FIDO2_MAX_NORMAL_PACKET_DATA_SIZE <= buffer.len(),
        k <= chunk_count(length as int, FIDO2_MAX_NORMAL_PACKET_DATA_SIZE as int),
    ensures
        relayed(source, length, buffer, k) matches Some((merger, merged)) && {
            &&& merger.complete() <==> k == chunk_count(
                length as int,
                FIDO2_MAX_NORMAL_PACKET_DATA_SIZE as int,
            )
            &&& merger.complete() ==> merged.subrange(0, length as int) == source.subrange(
                0,
                length as int,
            )
            &&& merger.complete() ==> merged.subrange(
                relayed_len(length, k),
                merged.len() as int,
            ) == buffer.subrange(relayed_len(length, k), buffer.len() as int)
        },
{
    lemma_relayed_state(source, length, buffer, k);
    let (merger, merged) = relayed(source, length, buffer, k).unwrap();
    let n = chunk_count(length as int, 57);
    if k < n {
        assert(!merger.chunk_received(k as int));
    } else {
        let done = relayed_len(length, k);
        assert(length <= done);
        assert(merged.subrange(0, length as int) =~= source.subrange(0, length as int)) by {
            assert forall|i: int| 0 <= i < length implies merged[i] == source[i] by {
                assert(merged.subrange(0, done)[i] == source.subrange(0, done)[i]);
            }
        }
    }
}

} // verus!
