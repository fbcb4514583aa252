//! Little-endian byte order for the multi-byte header fields.
//!
//! Every multi-byte integer in the emitted binary layout is little-endian,
//! for every header type and every chip family.

use vstd::prelude::*;

verus! {

/// The low byte of a 16-bit value.
pub open spec fn u16_lo(x: u16) -> u8 {
    (x & 0xff) as u8
}

/// The high byte of a 16-bit value.
pub open spec fn u16_hi(x: u16) -> u8 {
    ((x >> 8) & 0xff) as u8
}

/// The 16-bit value whose little-endian bytes are `lo, hi`.
pub open spec fn u16_from_le(lo: u8, hi: u8) -> u16 {
    (lo as u16) | ((hi as u16) << 8)
}

/// The little-endian byte sequence of a 16-bit value.
pub open spec fn u16_le_bytes(x: u16) -> Seq<u8> {
    seq![u16_lo(x), u16_hi(x)]
}

/// Byte `k` (0 = least significant) of a 32-bit value.
pub open spec fn u32_byte(x: u32, k: int) -> u8
    recommends
        0 <= k < 4,
{
    ((x >> (8 * k) as u32) & 0xff) as u8
}

/// The 32-bit value whose little-endian bytes are `b0, b1, b2, b3`.
pub open spec fn u32_from_le(b0: u8, b1: u8, b2: u8, b3: u8) -> u32 {
    (b0 as u32) | ((b1 as u32) << 8) | ((b2 as u32) << 16) | ((b3 as u32) << 24)
}

/// The little-endian byte sequence of a 32-bit value.
pub open spec fn u32_le_bytes(x: u32) -> Seq<u8> {
    seq![u32_byte(x, 0), u32_byte(x, 1), u32_byte(x, 2), u32_byte(x, 3)]
}

/// Reassembling the little-endian bytes of a 16-bit value gives it back.
pub proof fn lemma_u16_le_round_trip(x: u16)
    ensures
        u16_from_le(u16_lo(x), u16_hi(x)) == x,
{
    assert(((x & 0xff) as u8 as u16) | ((((x >> 8) & 0xff) as u8 as u16) << 8) == x)
        by (bit_vector);
}

/// Reading the bytes of a reassembled 16-bit value gives back the bytes.
pub proof fn lemma_u16_le_bytes_of_value(lo: u8, hi: u8)
    ensures
        u16_lo(u16_from_le(lo, hi)) == lo,
        u16_hi(u16_from_le(lo, hi)) == hi,
{
    assert((((lo as u16) | ((hi as u16) << 8)) & 0xff) as u8 == lo) by (bit_vector);
    assert(((((lo as u16) | ((hi as u16) << 8)) >> 8) & 0xff) as u8 == hi) by (bit_vector);
}

/// Reassembling the little-endian bytes of a 32-bit value gives it back.
pub proof fn lemma_u32_le_round_trip(x: u32)
    ensures
        u32_from_le(u32_byte(x, 0), u32_byte(x, 1), u32_byte(x, 2), u32_byte(x, 3)) == x,
{
    assert(((x >> 0) & 0xff) as u8 as u32 | ((((x >> 8) & 0xff) as u8 as u32) << 8) | ((((x
        >> 16) & 0xff) as u8 as u32) << 16) | ((((x >> 24) & 0xff) as u8 as u32) << 24) == x)
        by (bit_vector);
}

/// Reading the bytes of a reassembled 32-bit value gives back the bytes.
pub proof fn lemma_u32_le_bytes_of_value(b0: u8, b1: u8, b2: u8, b3: u8)
    ensures
        u32_byte(u32_from_le(b0, b1, b2, b3), 0) == b0,
        u32_byte(u32_from_le(b0, b1, b2, b3), 1) == b1,
        u32_byte(u32_from_le(b0, b1, b2, b3), 2) == b2,
        u32_byte(u32_from_le(b0, b1, b2, b3), 3) == b3,
{
    assert(((((b0 as u32) | ((b1 as u32) << 8) | ((b2 as u32) << 16) | ((b3 as u32) << 24)) >> 0)
        & 0xff) as u8 == b0) by (bit_vector);
    assert(((((b0 as u32) | ((b1 as u32) << 8) | ((b2 as u32) << 16) | ((b3 as u32) << 24)) >> 8)
        & 0xff) as u8 == b1) by (bit_vector);
    assert(((((b0 as u32) | ((b1 as u32) << 8) | ((b2 as u32) << 16) | ((b3 as u32) << 24)) >> 16)
        & 0xff) as u8 == b2) by (bit_vector);
    assert(((((b0 as u32) | ((b1 as u32) << 8) | ((b2 as u32) << 16) | ((b3 as u32) << 24)) >> 24)
        & 0xff) as u8 == b3) by (bit_vector);
}

/// Appends the two little-endian bytes of `x` to `out`.
pub fn push_u16_le(out: &mut Vec<u8>, x: u16)
    ensures
        final(out)@ == old(out)@ + u16_le_bytes(x),
{
    out.push((x & 0xff) as u8);
    out.push(((x >> 8) & 0xff) as u8);
    assert(out@ =~= old(out)@ + u16_le_bytes(x));
}

/// Appends the four little-endian bytes of `x` to `out`.
pub fn push_u32_le(out: &mut Vec<u8>, x: u32)
    ensures
        final(out)@ == old(out)@ + u32_le_bytes(x),
{
    out.push((x & 0xff) as u8);
    out.push(((x >> 8) & 0xff) as u8);
    out.push(((x >> 16) & 0xff) as u8);
    out.push(((x >> 24) & 0xff) as u8);
    assert((x >> 0) == x) by (bit_vector);
    assert(out@ =~= old(out)@ + u32_le_bytes(x));
}

/// Reads the 16-bit little-endian value at `offset`.
pub fn read_u16_le(data: &[u8], offset: usize) -> (r: u16)
    requires
        offset + 2 <= data@.len(),
    ensures
        r == u16_from_le(data@[offset as int], data@[offset + 1]),
{
    let lo = data[offset];
    let hi = data[offset + 1];
    (lo as u16) | ((hi as u16) << 8)
}

/// Reads the 32-bit little-endian value at `offset`.
pub fn read_u32_le(data: &[u8], offset: usize) -> (r: u32)
    requires
        offset + 4 <= data@.len(),
    ensures
        r == u32_from_le(
            data@[offset as int],
            data@[offset + 1],
            data@[offset + 2],
            data@[offset + 3],
        ),
{
    let b0 = data[offset];
    let b1 = data[offset + 1];
    let b2 = data[offset + 2];
    let b3 = data[offset + 3];
    (b0 as u32) | ((b1 as u32) << 8) | ((b2 as u32) << 16) | ((b3 as u32) << 24)
}

} // verus!
