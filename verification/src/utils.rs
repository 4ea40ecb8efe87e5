//! Byte-order codec for the header fields of a packet, and single-bit
//! operations on the 128-bit map of received continuation packets.

use byteorder::{ByteOrder, LittleEndian};
use vstd::prelude::*;

verus! {

/// The number that four bytes denote, least significant byte first.
pub open spec fn u32_from_le(b: Seq<u8>) -> int {
    b[0] + 0x100 * b[1] + 0x1_0000 * b[2] + 0x100_0000 * b[3]
}

/// The four bytes of `n`, least significant first.
pub open spec fn u32_to_le(n: u32) -> Seq<u8> {
    seq![
        (n % 0x100) as u8,
        ((n / 0x100) % 0x100) as u8,
        ((n / 0x1_0000) % 0x100) as u8,
        ((n / 0x100_0000) % 0x100) as u8,
    ]
}

/// The number that two bytes denote, least significant byte first.
pub open spec fn u16_from_le(b: Seq<u8>) -> int {
    b[0] + 0x100 * b[1]
}

/// The two bytes of `n`, least significant first.
pub open spec fn u16_to_le(n: u16) -> Seq<u8> {
    seq![(n % 0x100) as u8, ((n / 0x100) % 0x100) as u8]
}

/// The number that two bytes denote, most significant byte first: the order
/// of the length field on the wire.
pub open spec fn u16_from_be(b: Seq<u8>) -> int {
    0x100 * b[0] + b[1]
}

/// The two bytes of `n`, most significant first.
pub open spec fn u16_to_be(n: u16) -> Seq<u8> {
    seq![((n / 0x100) % 0x100) as u8, (n % 0x100) as u8]
}

/// Calls `byteorder::LittleEndian::read_u32`, which asserts that `buf` holds
/// at least four bytes and returns the little-endian value of the first four.
#[verifier::external_body]
fn le_read_u32(buf: &[u8]) -> (n: u32)
    requires
        buf@.len() >= 4,
    ensures
        n == u32_from_le(buf@),
{
    LittleEndian::read_u32(buf)
}

/// Calls `byteorder::LittleEndian::write_u32`, which asserts that `buf` holds
/// at least four bytes and overwrites the first four with the little-endian
/// bytes of `n`, leaving the others as they were.
#[verifier::external_body]
fn le_write_u32(buf: &mut [u8], n: u32)
    requires
        old(buf)@.len() >= 4,
    ensures
        final(buf)@ == u32_to_le(n) + old(buf)@.subrange(4, old(buf)@.len() as int),
{
    LittleEndian::write_u32(buf, n)
}

/// Calls `byteorder::LittleEndian::read_u16`, which asserts that `buf` holds
/// at least two bytes and returns the little-endian value of the first two.
#[verifier::external_body]
fn le_read_u16(buf: &[u8]) -> (n: u16)
    requires
        buf@.len() >= 2,
    ensures
        n == u16_from_le(buf@),
{
    LittleEndian::read_u16(buf)
}

/// Calls `byteorder::LittleEndian::write_u16`, which asserts that `buf` holds
/// at least two bytes and overwrites the first two with the little-endian
/// bytes of `n`, leaving the others as they were.
#[verifier::external_body]
fn le_write_u16(buf: &mut [u8], n: u16)
    requires
        old(buf)@.len() >= 2,
    ensures
        final(buf)@ == u16_to_le(n) + old(buf)@.subrange(2, old(buf)@.len() as int),
{
    LittleEndian::write_u16(buf, n)
}

/// Reads a channel identifier from its four wire bytes. A slice of any other
/// length yields 0, the identifier that is never valid.
pub fn channel_id_to_u32(c: &[u8]) -> (id: u32)
    ensures
        id == if c@.len() == 4 {
            u32_from_le(c@)
        } else {
            0
        },
{
    if c.len() != 4 {
        return 0;
    }
    le_read_u32(c)
}

/// The four wire bytes of a channel identifier.
pub fn channel_id_to_array(c: u32) -> (r: [u8; 4])
    ensures
        r@ == u32_to_le(c),
{
    let mut r = [0u8; 4];
    le_write_u32(&mut r, c);
    assert(r@ =~= u32_to_le(c));
    r
}

/// Reads a message length from its two wire bytes, most significant first. A
/// slice of any other length yields 0.
pub fn data_len_to_u16(c: &[u8]) -> (n: u16)
    ensures
        n == if c@.len() == 2 {
            u16_from_be(c@)
        } else {
            0
        },
{
    if c.len() != 2 {
        return 0;
    }
    let c2 = [c[1], c[0]];
    le_read_u16(&c2)
}

/// The two wire bytes of a message length, most significant first.
pub fn data_len_to_array(c: u16) -> (r: [u8; 2])
    ensures
        r@ == u16_to_be(c),
{
    let mut r = [0u8; 2];
    le_write_u16(&mut r, c);
    let r2 = [r[1], r[0]];
    assert(r2@ =~= u16_to_be(c));
    r2
}

/// Splitting a number into its lowest byte and the rest, and back.
proof fn lemma_low_byte(low: int, high: int)
    requires
        0 <= low < 0x100,
    ensures
        (low + 0x100 * high) % 0x100 == low,
        (low + 0x100 * high) / 0x100 == high,
{
}

/// Writing a channel identifier and reading it back gives the identifier.
pub proof fn lemma_channel_id_round_trip(c: u32)
    ensures
        u32_to_le(c).len() == 4,
        u32_from_le(u32_to_le(c)) == c,
{
    let c1: int = (c / 0x100) as int;
    let c2: int = c1 / 0x100;
    let c3: int = c2 / 0x100;
    assert(c == c % 0x100 + 0x100 * c1);
    assert(c1 == c1 % 0x100 + 0x100 * c2);
    assert(c2 == c2 % 0x100 + 0x100 * c3);
    assert(c3 < 0x100);
    assert(c2 == c / 0x1_0000);
    assert(c3 == c / 0x100_0000);
}

/// Reading four bytes as a channel identifier and writing it gives the bytes.
pub proof fn lemma_channel_bytes_round_trip(b: Seq<u8>)
    requires
        b.len() == 4,
    ensures
        0 <= u32_from_le(b) <= u32::MAX,
        u32_to_le(u32_from_le(b) as u32) == b,
{
    let n: int = u32_from_le(b);
    let n1: int = b[1] + 0x100 * (b[2] + 0x100 * b[3]);
    let n2: int = b[2] + 0x100 * b[3];
    assert(n == b[0] + 0x100 * n1);
    lemma_low_byte(b[0] as int, n1);
    lemma_low_byte(b[1] as int, n2);
    lemma_low_byte(b[2] as int, b[3] as int);
    assert(n / 0x100 == n1);
    assert(n1 / 0x100 == n2);
    assert(n / 0x1_0000 == n2);
    assert(n2 / 0x100 == b[3]);
    assert(n / 0x100_0000 == b[3]);
    assert(u32_to_le(n as u32) =~= b);
}

/// Writing a message length and reading it back gives the length.
pub proof fn lemma_data_len_round_trip(n: u16)
    ensures
        u16_to_be(n).len() == 2,
        u16_from_be(u16_to_be(n)) == n,
{
    let n1: int = (n / 0x100) as int;
    assert(n == n % 0x100 + 0x100 * n1);
    assert(n1 < 0x100);
}

/// Reading two bytes as a message length and writing it gives the bytes.
pub proof fn lemma_data_len_bytes_round_trip(b: Seq<u8>)
    requires
        b.len() == 2,
    ensures
        0 <= u16_from_be(b) <= u16::MAX,
        u16_to_be(u16_from_be(b) as u16) == b,
{
    lemma_low_byte(b[1] as int, b[0] as int);
    assert(u16_to_be(u16_from_be(b) as u16) =~= b);
}

/// Copies `len` bytes of `src`, starting at `src_at`, over the bytes of `dst`
/// that start at `dst_at`. Nothing else in `dst` changes.
pub(crate) fn copy_bytes(dst: &mut [u8], dst_at: usize, src: &[u8], src_at: usize, len: usize)
    requires
        dst_at + len <= old(dst)@.len(),
        src_at + len <= src@.len(),
    ensures
        final(dst)@ == old(dst)@.subrange(0, dst_at as int) + src@.subrange(
            src_at as int,
            src_at + len,
        ) + old(dst)@.subrange(dst_at + len, old(dst)@.len() as int),
{
    let dst_len: usize = dst.len();
    let src_len: usize = src.len();
    let mut k: usize = 0;
    while k < len
        invariant
            k <= len,
            dst_at + len <= dst_len == dst@.len(),
            src_at + len <= src_len == src@.len(),
            dst@.len() == old(dst)@.len(),
            dst@ == old(dst)@.subrange(0, dst_at as int) + src@.subrange(
                src_at as int,
                src_at + k,
            ) + old(dst)@.subrange(dst_at + k, old(dst)@.len() as int),
        decreases len - k,
    {
        dst[dst_at + k] = src[src_at + k];
        k += 1;
    }
}

/// Whether bit `index` of `a` is set.
pub open spec fn bit_u128(a: u128, index: u8) -> bool {
    a & (1u128 << index) == (1u128 << index)
}

/// Sets bit `index` of `a` and leaves every other bit as it was.
pub fn set_bit_u128(a: &mut u128, index: u8)
    requires
        index < 128,
    ensures
        *final(a) == *old(a) | (1u128 << index),
        forall|j: u8| j < 128 ==> #[trigger] bit_u128(*final(a), j) == (j == index || bit_u128(*old(a), j)),
{
    let mask: u128 = 1u128 << index;
    let ghost before: u128 = *a;
    *a |= mask;
    proof {
        lemma_set_bit(before, index);
    }
}

/// Clears bit `index` of `a` and leaves every other bit as it was.
pub fn clear_bit_u128(a: &mut u128, index: u8)
    requires
        index < 128,
    ensures
        *final(a) == *old(a) & !(1u128 << index),
        forall|j: u8| j < 128 ==> #[trigger] bit_u128(*final(a), j) == (j != index && bit_u128(*old(a), j)),
{
    let mask: u128 = 1u128 << index;
    let ghost before: u128 = *a;
    *a &= !mask;
    proof {
        lemma_clear_bit(before, index);
    }
}

/// Whether bit `index` of `a` is set.
pub fn read_bit_u128(a: &u128, index: u8) -> (set: bool)
    requires
        index < 128,
    ensures
        set == bit_u128(*a, index),
{
    let mask: u128 = 1u128 << index;
    *a & mask == mask
}

/// No bit of zero is set.
pub proof fn lemma_no_bit_of_zero()
    ensures
        forall|j: u8| j < 128 ==> !#[trigger] bit_u128(0, j),
{
    assert forall|j: u8| j < 128 implies !#[trigger] bit_u128(0, j) by {
        assert(0u128 & (1u128 << j) != (1u128 << j)) by (bit_vector)
            requires
                j < 128,
        ;
    }
}

/// Or-ing in a single bit sets that bit and no other.
pub proof fn lemma_set_bit(a: u128, index: u8)
    requires
        index < 128,
    ensures
        forall|j: u8| j < 128 ==> #[trigger] bit_u128(a | (1u128 << index), j) == (j == index || bit_u128(a, j)),
{
    assert forall|j: u8| j < 128 implies #[trigger] bit_u128(a | (1u128 << index), j) == (j == index
        || bit_u128(a, j)) by {
        assert(((a | (1u128 << index)) & (1u128 << j) == (1u128 << j)) == (j == index || (a & (1u128
            << j) == (1u128 << j)))) by (bit_vector)
            requires
                index < 128,
                j < 128,
        ;
    }
}

/// And-ing out a single bit clears that bit and no other.
pub proof fn lemma_clear_bit(a: u128, index: u8)
    requires
        index < 128,
    ensures
        forall|j: u8| j < 128 ==> #[trigger] bit_u128(a & !(1u128 << index), j) == (j != index && bit_u128(a, j)),
{
    assert forall|j: u8| j < 128 implies #[trigger] bit_u128(a & !(1u128 << index), j) == (j != index
        && bit_u128(a, j)) by {
        assert(((a & !(1u128 << index)) & (1u128 << j) == (1u128 << j)) == (j != index && (a & (1u128
            << j) == (1u128 << j)))) by (bit_vector)
            requires
                index < 128,
                j < 128,
        ;
    }
}

} // verus!
