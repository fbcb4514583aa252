//! The three fixed-size binary headers of the emitted image format.
//!
//! Every header serializes to an exact byte count with no implicit padding
//! or alignment gaps, and every multi-byte field is little-endian. Reading
//! a header from a buffer shorter than its size fails with
//! `Error::TruncatedHeader`; a longer buffer is read from its start.

use vstd::prelude::*;

use crate::bytes::{
    lemma_u16_le_bytes_of_value, lemma_u32_le_bytes_of_value, push_u16_le, push_u32_le,
    read_u16_le, read_u32_le, u16_from_le, u16_le_bytes, u32_from_le, u32_le_bytes,
};
use crate::errors::Error;

verus! {

broadcast use vstd::array::group_array_axioms;

/// The sentinel that the first byte of every common header must hold.
pub const ESP_MAGIC: u8 = 0xe9;

/// The write-protect pin value meaning "no write-protect pin".
pub const WP_PIN_DISABLED: u8 = 0xee;

/// Serialized size of `EspCommonHeader` in bytes.
pub const COMMON_HEADER_SIZE: usize = 8;

/// Serialized size of `ExtendedHeader` in bytes.
pub const EXTENDED_HEADER_SIZE: usize = 16;

/// Serialized size of `SegmentHeader` in bytes.
pub const SEGMENT_HEADER_SIZE: usize = 8;

/// The 8-byte header that opens every emitted image: magic sentinel,
/// segment count, the two flash parameter bytes, and the entry point.
#[derive(Debug, Clone, Copy, PartialEq, Eq)]
pub struct EspCommonHeader {
    pub magic: u8,
    pub segment_count: u8,
    pub flash_mode: u8,
    pub flash_config: u8,
    pub entry: u32,
}

/// The 16-byte header appended after the common header by families that
/// require it: flash-chip electrical configuration, a 16-bit chip
/// identifier, a minimum hardware revision, reserved padding, and a flag
/// saying whether a content digest follows the image.
#[derive(Debug, Clone, Copy, PartialEq, Eq)]
pub struct ExtendedHeader {
    pub wp_pin: u8,
    pub clk_q_drv: u8,
    pub d_cs_drv: u8,
    pub gd_wp_drv: u8,
    pub chip_id: u16,
    pub min_rev: u8,
    pub padding: [u8; 8],
    pub append_digest: u8,
}

/// The 8-byte header that precedes every segment payload: destination
/// address and exact payload length in bytes.
#[derive(Debug, Clone, Copy, PartialEq, Eq)]
pub struct SegmentHeader {
    pub addr: u32,
    pub length: u32,
}

impl EspCommonHeader {
    /// The exact serialized form of this header.
    pub open spec fn spec_bytes(self) -> Seq<u8> {
        seq![self.magic, self.segment_count, self.flash_mode, self.flash_config]
            + u32_le_bytes(self.entry)
    }

    /// The header read from the first 8 bytes of `b`.
    pub open spec fn spec_from_bytes(b: Seq<u8>) -> EspCommonHeader
        recommends
            b.len() >= COMMON_HEADER_SIZE,
    {
        EspCommonHeader {
            magic: b[0],
            segment_count: b[1],
            flash_mode: b[2],
            flash_config: b[3],
            entry: u32_from_le(b[4], b[5], b[6], b[7]),
        }
    }

    /// Serializes this header to its exact 8-byte form.
    pub fn to_bytes(&self) -> (r: Vec<u8>)
        ensures
            r@ == self.spec_bytes(),
            r@.len() == COMMON_HEADER_SIZE,
    {
        let mut out: Vec<u8> = Vec::new();
        out.push(self.magic);
        out.push(self.segment_count);
        out.push(self.flash_mode);
        out.push(self.flash_config);
        push_u32_le(&mut out, self.entry);
        assert(out@ =~= self.spec_bytes());
        out
    }

    /// Reads a header from the start of `data`: succeeds on any buffer of
    /// at least 8 bytes and fails with `TruncatedHeader` on any shorter one.
    pub fn from_bytes(data: &[u8]) -> (r: Result<EspCommonHeader, Error>)
        ensures
            data@.len() >= COMMON_HEADER_SIZE ==> r == Ok::<EspCommonHeader, Error>(
                EspCommonHeader::spec_from_bytes(data@),
            ),
            data@.len() < COMMON_HEADER_SIZE ==> r == Err::<EspCommonHeader, Error>(
                Error::TruncatedHeader,
            ),
    {
        if data.len() < COMMON_HEADER_SIZE {
            return Err(Error::TruncatedHeader);
        }
        Ok(
            EspCommonHeader {
                magic: data[0],
                segment_count: data[1],
                flash_mode: data[2],
                flash_config: data[3],
                entry: read_u32_le(data, 4),
            },
        )
    }
}

/// Serializing a common header and reading it back yields the original
/// field values unchanged.
pub proof fn lemma_common_header_round_trip(h: EspCommonHeader)
    ensures
        EspCommonHeader::spec_from_bytes(h.spec_bytes()) == h,
{
    crate::bytes::lemma_u32_le_round_trip(h.entry);
}

/// Reading a common header out of a buffer and serializing it again
/// reproduces the first 8 bytes of the buffer unchanged.
pub proof fn lemma_common_header_bytes_round_trip(b: Seq<u8>)
    requires
        b.len() >= COMMON_HEADER_SIZE,
    ensures
        EspCommonHeader::spec_from_bytes(b).spec_bytes() == b.subrange(0, 8),
{
    lemma_u32_le_bytes_of_value(b[4], b[5], b[6], b[7]);
    assert(EspCommonHeader::spec_from_bytes(b).spec_bytes() =~= b.subrange(0, 8));
}

impl SegmentHeader {
    /// The exact serialized form of this header.
    pub open spec fn spec_bytes(self) -> Seq<u8> {
        u32_le_bytes(self.addr) + u32_le_bytes(self.length)
    }

    /// The header read from the first 8 bytes of `b`.
    pub open spec fn spec_from_bytes(b: Seq<u8>) -> SegmentHeader
        recommends
            b.len() >= SEGMENT_HEADER_SIZE,
    {
        SegmentHeader {
            addr: u32_from_le(b[0], b[1], b[2], b[3]),
            length: u32_from_le(b[4], b[5], b[6], b[7]),
        }
    }

    /// Serializes this header to its exact 8-byte form.
    pub fn to_bytes(&self) -> (r: Vec<u8>)
        ensures
            r@ == self.spec_bytes(),
            r@.len() == SEGMENT_HEADER_SIZE,
    {
        let mut out: Vec<u8> = Vec::new();
        push_u32_le(&mut out, self.addr);
        push_u32_le(&mut out, self.length);
        assert(out@ =~= self.spec_bytes());
        out
    }

    /// Reads a header from the start of `data`: succeeds on any buffer of
    /// at least 8 bytes and fails with `TruncatedHeader` on any shorter one.
    pub fn from_bytes(data: &[u8]) -> (r: Result<SegmentHeader, Error>)
        ensures
            data@.len() >= SEGMENT_HEADER_SIZE ==> r == Ok::<SegmentHeader, Error>(
                SegmentHeader::spec_from_bytes(data@),
            ),
            data@.len() < SEGMENT_HEADER_SIZE ==> r == Err::<SegmentHeader, Error>(
                Error::TruncatedHeader,
            ),
    {
        if data.len() < SEGMENT_HEADER_SIZE {
            return Err(Error::TruncatedHeader);
        }
        Ok(SegmentHeader { addr: read_u32_le(data, 0), length: read_u32_le(data, 4) })
    }
}

/// Serializing a segment header and reading it back yields the original
/// field values unchanged.
pub proof fn lemma_segment_header_round_trip(h: SegmentHeader)
    ensures
        SegmentHeader::spec_from_bytes(h.spec_bytes()) == h,
{
    crate::bytes::lemma_u32_le_round_trip(h.addr);
    crate::bytes::lemma_u32_le_round_trip(h.length);
}

/// Reading a segment header out of a buffer and serializing it again
/// reproduces the first 8 bytes of the buffer unchanged.
pub proof fn lemma_segment_header_bytes_round_trip(b: Seq<u8>)
    requires
        b.len() >= SEGMENT_HEADER_SIZE,
    ensures
        SegmentHeader::spec_from_bytes(b).spec_bytes() == b.subrange(0, 8),
{
    lemma_u32_le_bytes_of_value(b[0], b[1], b[2], b[3]);
    lemma_u32_le_bytes_of_value(b[4], b[5], b[6], b[7]);
    assert(SegmentHeader::spec_from_bytes(b).spec_bytes() =~= b.subrange(0, 8));
}

impl ExtendedHeader {
    /// The exact serialized form of this header.
    pub open spec fn spec_bytes(self) -> Seq<u8> {
        seq![self.wp_pin, self.clk_q_drv, self.d_cs_drv, self.gd_wp_drv]
            + u16_le_bytes(self.chip_id) + seq![self.min_rev] + self.padding@
            + seq![self.append_digest]
    }

    /// Whether `h` holds exactly the field values laid out in the first
    /// 16 bytes of `b`.
    pub open spec fn spec_parses_to(b: Seq<u8>, h: ExtendedHeader) -> bool
        recommends
            b.len() >= EXTENDED_HEADER_SIZE,
    {
        &&& h.wp_pin == b[0]
        &&& h.clk_q_drv == b[1]
        &&& h.d_cs_drv == b[2]
        &&& h.gd_wp_drv == b[3]
        &&& h.chip_id == u16_from_le(b[4], b[5])
        &&& h.min_rev == b[6]
        &&& h.padding@ == b.subrange(7, 15)
        &&& h.append_digest == b[15]
    }

    /// Serializes this header to its exact 16-byte form.
    pub fn to_bytes(&self) -> (r: Vec<u8>)
        ensures
            r@ == self.spec_bytes(),
            r@.len() == EXTENDED_HEADER_SIZE,
    {
        let mut out: Vec<u8> = Vec::new();
        out.push(self.wp_pin);
        out.push(self.clk_q_drv);
        out.push(self.d_cs_drv);
        out.push(self.gd_wp_drv);
        push_u16_le(&mut out, self.chip_id);
        out.push(self.min_rev);
        out.push(self.padding[0]);
        out.push(self.padding[1]);
        out.push(self.padding[2]);
        out.push(self.padding[3]);
        out.push(self.padding[4]);
        out.push(self.padding[5]);
        out.push(self.padding[6]);
        out.push(self.padding[7]);
        out.push(self.append_digest);
        assert(out@ =~= self.spec_bytes());
        out
    }

    /// Reads a header from the start of `data`: succeeds on any buffer of
    /// at least 16 bytes and fails with `TruncatedHeader` on any shorter one.
    pub fn from_bytes(data: &[u8]) -> (r: Result<ExtendedHeader, Error>)
        ensures
            data@.len() >= EXTENDED_HEADER_SIZE ==> (r matches Ok(h)
                && ExtendedHeader::spec_parses_to(data@, h)),
            data@.len() < EXTENDED_HEADER_SIZE ==> r == Err::<ExtendedHeader, Error>(
                Error::TruncatedHeader,
            ),
    {
        if data.len() < EXTENDED_HEADER_SIZE {
            return Err(Error::TruncatedHeader);
        }
        let mut padding: [u8; 8] = [0; 8];
        padding[0] = data[7];
        padding[1] = data[8];
        padding[2] = data[9];
        padding[3] = data[10];
        padding[4] = data[11];
        padding[5] = data[12];
        padding[6] = data[13];
        padding[7] = data[14];
        assert(padding@ =~= data@.subrange(7, 15));
        Ok(
            ExtendedHeader {
                wp_pin: data[0],
                clk_q_drv: data[1],
                d_cs_drv: data[2],
                gd_wp_drv: data[3],
                chip_id: read_u16_le(data, 4),
                min_rev: data[6],
                padding,
                append_digest: data[15],
            },
        )
    }
}

/// Reading an extended header out of a buffer and serializing it again
/// reproduces the first 16 bytes of the buffer unchanged.
pub proof fn lemma_extended_header_bytes_round_trip(b: Seq<u8>, h: ExtendedHeader)
    requires
        b.len() >= EXTENDED_HEADER_SIZE,
        ExtendedHeader::spec_parses_to(b, h),
    ensures
        h.spec_bytes() == b.subrange(0, 16),
{
    lemma_u16_le_bytes_of_value(b[4], b[5]);
    assert(h.spec_bytes() =~= b.subrange(0, 16));
}

/// Serializing an extended header and reading it back yields the original
/// field values unchanged: its own bytes parse exactly to it, and no two
/// distinct headers share a serialized form.
pub proof fn lemma_extended_header_round_trip(h: ExtendedHeader, g: ExtendedHeader)
    ensures
        ExtendedHeader::spec_parses_to(h.spec_bytes(), h),
        ExtendedHeader::spec_parses_to(h.spec_bytes(), g) ==> g == h,
{
    lemma_u16_le_bytes_of_value(
        crate::bytes::u16_lo(h.chip_id),
        crate::bytes::u16_hi(h.chip_id),
    );
    crate::bytes::lemma_u16_le_round_trip(h.chip_id);
    assert(h.padding@ =~= h.spec_bytes().subrange(7, 15));
    if ExtendedHeader::spec_parses_to(h.spec_bytes(), g) {
        assert(g.padding@ == h.padding@);
        assert(g.padding =~= h.padding);
    }
}

} // verus!
