//! The firmware image consumed by segmentation and the flash segments it
//! produces.
//!
//! The image-loading collaborator (an ELF parser, outside this crate) hands
//! over an entry point, the two flash parameter bytes, and the loadable
//! regions as plain values; this crate never parses object files itself.

use vstd::prelude::*;

verus! {

/// One loadable region of a parsed firmware image: a destination address,
/// the payload bytes, and whether the region asks for flash placement
/// (as opposed to RAM-only placement).
#[derive(Debug, Clone, PartialEq, Eq)]
pub struct CodeSegment {
    pub addr: u32,
    pub data: Vec<u8>,
    pub flash_mapped: bool,
}

/// A parsed firmware image: entry-point address, the two flash parameter
/// bytes carried verbatim into the common header, and the loadable regions.
#[derive(Debug, Clone, PartialEq, Eq)]
pub struct FirmwareImage {
    pub entry: u32,
    pub flash_mode: u8,
    pub flash_config: u8,
    pub segments: Vec<CodeSegment>,
}

/// One emitted flash segment: the destination address and the exact bytes
/// to write there.
#[derive(Debug, Clone, PartialEq, Eq)]
pub struct RomSegment {
    pub addr: u32,
    pub data: Vec<u8>,
}

/// Copies a byte vector. Emitted segments own their bytes, so the cursor
/// copies each payload out of the image it holds.
pub fn copy_bytes(src: &Vec<u8>) -> (r: Vec<u8>)
    ensures
        r@ == src@,
{
    let mut out: Vec<u8> = Vec::new();
    let mut i: usize = 0;
    while i < src.len()
        invariant
            i <= src@.len(),
            out@ == src@.subrange(0, i as int),
        decreases src@.len() - i,
    {
        out.push(src[i]);
        i = i + 1;
        assert(out@ =~= src@.subrange(0, i as int));
    }
    assert(out@ =~= src@);
    out
}

} // verus!
