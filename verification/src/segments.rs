//! Segment generation: the single-pass cursor that turns a firmware image
//! into the flash segments a family's boot ROM expects.
//!
//! The emitted sequence is: one header segment first (common header, then
//! the extended header for families that require it), then one data
//! segment per loadable region, in ascending destination address order
//! (regions with equal addresses keep their source order). Each data
//! segment's bytes are the region's 8-byte segment header — destination
//! address and exact payload length, little-endian — immediately followed
//! by the payload, as the boot ROM expects. A region that violates the
//! family's constraints yields an error element in its place; earlier
//! elements stand regardless. Elements are computed one at a time, on
//! demand, and the cursor is single-pass: it cannot be restarted.

use vstd::prelude::*;

use crate::chip::Chip;
use crate::errors::Error;
use crate::headers::{
    lemma_segment_header_round_trip, EspCommonHeader, ExtendedHeader, SegmentHeader, ESP_MAGIC,
    WP_PIN_DISABLED,
};
use crate::image::{copy_bytes, CodeSegment, FirmwareImage, RomSegment};

verus! {

broadcast use vstd::array::group_array_axioms;

/// The common header the cursor emits for `image`: the magic sentinel,
/// one count per loadable region, the image's flash parameter bytes and
/// its entry point.
pub open spec fn spec_header_common(image: FirmwareImage) -> EspCommonHeader {
    EspCommonHeader {
        magic: ESP_MAGIC,
        segment_count: image.segments@.len() as u8,
        flash_mode: image.flash_mode,
        flash_config: image.flash_config,
        entry: image.entry,
    }
}

/// The extended header a family that requires one receives: no
/// write-protect pin, default drive strengths, the family's chip
/// identifier, zero-filled padding, and no appended digest.
pub open spec fn spec_default_extended_header(chip: Chip) -> ExtendedHeader {
    ExtendedHeader {
        wp_pin: WP_PIN_DISABLED,
        clk_q_drv: 0,
        d_cs_drv: 0,
        gd_wp_drv: 0,
        chip_id: chip.spec_chip_id(),
        min_rev: 0,
        padding: vstd::array::spec_array_fill_for_copy_type::<u8, 8>(0u8),
        append_digest: 0,
    }
}

/// The exact payload of the header segment for `chip` and `image`.
pub open spec fn spec_header_bytes(chip: Chip, image: FirmwareImage) -> Seq<u8> {
    spec_header_common(image).spec_bytes() + if chip.spec_needs_extended_header() {
        spec_default_extended_header(chip).spec_bytes()
    } else {
        Seq::<u8>::empty()
    }
}

/// Whether a loadable region satisfies the family's constraints: a region
/// that asks for flash placement must sit in the flash-mapped window, and
/// no payload may exceed the family's segment size limit.
pub open spec fn segment_eligible(chip: Chip, s: CodeSegment) -> bool {
    &&& (s.flash_mapped ==> chip.spec_addr_is_flash(s.addr))
    &&& s.data@.len() <= chip.spec_max_segment_size()
}

/// The error an ineligible region yields: wrong placement is reported
/// before excessive size.
pub open spec fn segment_failure(chip: Chip, s: CodeSegment) -> Error
    recommends
        !segment_eligible(chip, s),
{
    if s.flash_mapped && !chip.spec_addr_is_flash(s.addr) {
        Error::AddrNotFlash { addr: s.addr }
    } else {
        Error::SegmentTooLarge {
            length: s.data@.len() as usize,
            limit: chip.spec_max_segment_size(),
        }
    }
}

/// The exact bytes of an eligible region's data segment: its 8-byte
/// segment header — destination address and exact payload byte count,
/// little-endian — immediately followed by the payload.
pub open spec fn spec_data_segment_bytes(s: CodeSegment) -> Seq<u8>
    recommends
        s.data@.len() <= u32::MAX,
{
    (SegmentHeader { addr: s.addr, length: s.data@.len() as u32 }).spec_bytes() + s.data@
}

/// Emission order of two regions: by destination address, and by source
/// position between regions with equal addresses.
pub open spec fn ordered_before(segs: Seq<CodeSegment>, a: int, b: int) -> bool
    recommends
        0 <= a < segs.len(),
        0 <= b < segs.len(),
{
    ||| segs[a].addr < segs[b].addr
    ||| (segs[a].addr == segs[b].addr && a < b)
}

/// Whether `order` holds the value `v` somewhere.
pub open spec fn schedule_contains(order: Seq<usize>, v: int) -> bool {
    exists|k: int| 0 <= k < order.len() && (#[trigger] order[k]) as int == v
}

/// Every entry of `order` is below `n`.
pub open spec fn schedule_in_bounds(order: Seq<usize>, n: int) -> bool {
    forall|k: int| 0 <= k < order.len() ==> (#[trigger] order[k]) < n
}

/// Every region index below `n` appears in `order`.
pub open spec fn schedule_covers(order: Seq<usize>, n: int) -> bool {
    forall|v: int| 0 <= v < n ==> #[trigger] schedule_contains(order, v)
}

/// The entries of `order` are strictly increasing under the emission
/// order, which makes the schedule the unique stable ascending-address
/// ordering of the regions.
pub open spec fn schedule_sorted(order: Seq<usize>, segs: Seq<CodeSegment>) -> bool {
    forall|i: int, j: int|
        #![trigger order[i], order[j]]
        0 <= i < j < order.len() ==> ordered_before(segs, order[i] as int, order[j] as int)
}

/// The lazy, single-pass sequence of flash segments for one image over
/// one chip family. Position 0 is the header segment; position `p` with
/// `1 <= p <= n` is the data segment (or error) for the region scheduled
/// at `order[p - 1]`; after that the sequence is exhausted.
pub struct FlashSegments {
    pub chip: Chip,
    pub image: FirmwareImage,
    pub order: Vec<usize>,
    pub pos: usize,
}

impl FlashSegments {
    /// The cursor's invariant: the schedule is a stable ascending-address
    /// permutation of the region indices, and the position never runs
    /// past the end of the sequence.
    pub open spec fn wf(self) -> bool {
        &&& self.image.segments@.len() <= 255
        &&& self.order@.len() == self.image.segments@.len()
        &&& schedule_in_bounds(self.order@, self.image.segments@.len() as int)
        &&& schedule_covers(self.order@, self.image.segments@.len() as int)
        &&& schedule_sorted(self.order@, self.image.segments@)
        &&& self.pos <= self.order@.len() + 1
    }

    /// How many elements the whole sequence has: the header segment plus
    /// one element per loadable region.
    pub open spec fn spec_len(self) -> int {
        self.order@.len() as int + 1
    }

    /// Builds the cursor for `image` over `chip`. The segment count of
    /// the emitted header is a single byte, so an image may not carry
    /// more than 255 loadable regions.
    pub fn new(chip: Chip, image: FirmwareImage) -> (r: FlashSegments)
        requires
            image.segments@.len() <= 255,
        ensures
            r.wf(),
            r.chip == chip,
            r.image == image,
            r.pos == 0,
    {
        let order = sorted_order(&image.segments);
        FlashSegments { chip, image, order, pos: 0 }
    }

    /// Computes the next element of the sequence, or `None` when it is
    /// exhausted. The first element is the header segment at address 0;
    /// each later element is the scheduled region's data segment — its
    /// segment header followed by its payload — when the region is
    /// eligible, and its error when it is not.
    pub fn next_segment(&mut self) -> (r: Option<Result<RomSegment, Error>>)
        requires
            old(self).wf(),
        ensures
            final(self).wf(),
            final(self).chip == old(self).chip,
            final(self).image == old(self).image,
            final(self).order == old(self).order,
            old(self).pos < old(self).spec_len() ==> final(self).pos == old(self).pos + 1,
            old(self).pos >= old(self).spec_len() ==> final(self).pos == old(self).pos
                && r is None,
            old(self).pos == 0 ==> (r matches Some(item) && item matches Ok(seg) && seg.addr == 0
                && seg.data@ == spec_header_bytes(old(self).chip, old(self).image)),
            1 <= old(self).pos < old(self).spec_len() ==> {
                let s = old(self).image.segments@[old(self).order@[old(self).pos - 1] as int];
                &&& (segment_eligible(old(self).chip, s) ==> (r matches Some(item)
                    && item matches Ok(seg) && seg.addr == s.addr && seg.data@
                    == spec_data_segment_bytes(s)))
                &&& (!segment_eligible(old(self).chip, s) ==> r == Some(
                    Err::<RomSegment, Error>(segment_failure(old(self).chip, s)),
                ))
            },
    {
        if self.pos == 0 {
            let n = self.image.segments.len();
            let common = EspCommonHeader {
                magic: ESP_MAGIC,
                segment_count: n as u8,
                flash_mode: self.image.flash_mode,
                flash_config: self.image.flash_config,
                entry: self.image.entry,
            };
            let mut data = common.to_bytes();
            if chip_needs_extended_header(&self.chip) {
                let ext = default_extended_header(&self.chip);
                let mut ext_bytes = ext.to_bytes();
                data.append(&mut ext_bytes);
            }
            assert(data@ =~= spec_header_bytes(self.chip, self.image));
            self.pos = 1;
            Some(Ok(RomSegment { addr: 0, data }))
        } else if self.pos <= self.order.len() {
            let k = self.order[self.pos - 1];
            let seg_addr = self.image.segments[k].addr;
            let flash_mapped = self.image.segments[k].flash_mapped;
            if flash_mapped && !self.chip.addr_is_flash(seg_addr) {
                self.pos = self.pos + 1;
                return Some(Err(Error::AddrNotFlash { addr: seg_addr }));
            }
            let limit = self.chip.max_segment_size();
            if self.image.segments[k].data.len() > limit as usize {
                let length = self.image.segments[k].data.len();
                self.pos = self.pos + 1;
                return Some(Err(Error::SegmentTooLarge { length, limit }));
            }
            let length = self.image.segments[k].data.len();
            let header = SegmentHeader { addr: seg_addr, length: length as u32 };
            let mut data = header.to_bytes();
            let mut payload = copy_bytes(&self.image.segments[k].data);
            data.append(&mut payload);
            assert(data@ =~= spec_data_segment_bytes(
                self.image.segments@[self.order@[self.pos - 1] as int],
            ));
            self.pos = self.pos + 1;
            Some(Ok(RomSegment { addr: seg_addr, data }))
        } else {
            None
        }
    }
}

/// Whether the family requires the extended header.
fn chip_needs_extended_header(chip: &Chip) -> (r: bool)
    ensures
        r == chip.spec_needs_extended_header(),
{
    match chip {
        Chip::Esp8266 => false,
        Chip::Esp32 => true,
        Chip::Esp32s2 => true,
    }
}

/// The extended header emitted for a family that requires one.
fn default_extended_header(chip: &Chip) -> (r: ExtendedHeader)
    ensures
        r == spec_default_extended_header(*chip),
{
    let chip_id: u16 = match chip {
        Chip::Esp8266 => 0,
        Chip::Esp32 => crate::esp32::CHIP_ID,
        Chip::Esp32s2 => crate::esp32s2::CHIP_ID,
    };
    let r = ExtendedHeader {
        wp_pin: WP_PIN_DISABLED,
        clk_q_drv: 0,
        d_cs_drv: 0,
        gd_wp_drv: 0,
        chip_id,
        min_rev: 0,
        padding: [0; 8],
        append_digest: 0,
    };
    proof {
        let s = spec_default_extended_header(*chip);
        assert(r.padding@ =~= s.padding@);
        assert(r.padding =~= s.padding);
    }
    r
}

/// Computes the stable ascending-address schedule of the regions: the
/// permutation of `0 .. segments.len()` that sorts region indices by
/// address and, between equal addresses, by source position.
fn sorted_order(segments: &Vec<CodeSegment>) -> (order: Vec<usize>)
    ensures
        order@.len() == segments@.len(),
        schedule_in_bounds(order@, segments@.len() as int),
        schedule_covers(order@, segments@.len() as int),
        schedule_sorted(order@, segments@),
{
    let mut order: Vec<usize> = Vec::new();
    let mut i: usize = 0;
    while i < segments.len()
        invariant
            i <= segments@.len(),
            order@.len() == i,
            schedule_in_bounds(order@, i as int),
            schedule_covers(order@, i as int),
            schedule_sorted(order@, segments@),
        decreases segments@.len() - i,
    {
        let addr_i = segments[i].addr;
        let mut p: usize = 0;
        loop
            invariant
                p <= order@.len(),
                order@.len() == i,
                i < segments@.len(),
                addr_i == segments@[i as int].addr,
                schedule_in_bounds(order@, i as int),
                forall|k: int|
                    0 <= k < p ==> segments@[(#[trigger] order@[k]) as int].addr <= addr_i,
            ensures
                p <= order@.len(),
                forall|k: int|
                    0 <= k < p ==> segments@[(#[trigger] order@[k]) as int].addr <= addr_i,
                p < order@.len() ==> segments@[order@[p as int] as int].addr > addr_i,
            decreases order@.len() - p,
        {
            if p >= order.len() {
                break;
            }
            let idx = order[p];
            if segments[idx].addr > addr_i {
                break;
            }
            p = p + 1;
        }
        let ghost prev = order@;
        order.insert(p, i);
        proof {
            prev.insert_ensures(p as int, i);
            let cur = order@;
            let pi = p as int;
            assert forall|k: int| 0 <= k < cur.len() implies (#[trigger] cur[k]) < i + 1 by {
                if k > pi {
                    assert(cur[k] == prev[k - 1]);
                }
            }
            assert forall|v: int| 0 <= v < i + 1 implies #[trigger] schedule_contains(
                cur,
                v,
            ) by {
                if v == i {
                    assert(cur[pi] as int == v);
                } else {
                    assert(schedule_contains(prev, v));
                    let k = choose|k: int|
                        0 <= k < prev.len() && (#[trigger] prev[k]) as int == v;
                    if k < pi {
                        assert(cur[k] as int == v);
                    } else {
                        assert(cur[k + 1] as int == v);
                    }
                }
            }
            assert forall|a: int, b: int|
                #![trigger cur[a], cur[b]]
                0 <= a < b < cur.len() implies ordered_before(
                segments@,
                cur[a] as int,
                cur[b] as int,
            ) by {
                if b < pi {
                    assert(cur[a] == prev[a] && cur[b] == prev[b]);
                    assert(ordered_before(segments@, prev[a] as int, prev[b] as int));
                } else if a < pi && b == pi {
                    assert(cur[a] == prev[a]);
                    assert(cur[b] as int == i);
                    assert(segments@[prev[a] as int].addr <= addr_i);
                    assert(prev[a] < i);
                } else if a < pi && b > pi {
                    assert(cur[a] == prev[a] && cur[b] == prev[b - 1]);
                    assert(a < b - 1 || a == b - 1);
                    if a < b - 1 {
                        assert(ordered_before(segments@, prev[a] as int, prev[b - 1] as int));
                    }
                } else if a == pi {
                    assert(cur[a] as int == i);
                    assert(cur[b] == prev[b - 1]);
                    assert(pi <= b - 1 < prev.len());
                    assert(segments@[prev[pi] as int].addr > addr_i);
                    if b - 1 > pi {
                        assert(ordered_before(segments@, prev[pi] as int, prev[b - 1] as int));
                        assert(segments@[prev[b - 1] as int].addr >= segments@[prev[pi] as int].addr);
                    }
                    assert(segments@[prev[b - 1] as int].addr > addr_i);
                } else {
                    assert(cur[a] == prev[a - 1] && cur[b] == prev[b - 1]);
                    assert(ordered_before(segments@, prev[a - 1] as int, prev[b - 1] as int));
                }
            }
        }
        i = i + 1;
    }
    order
}

/// Sentinel law: every header segment this crate emits starts with the
/// reserved magic byte, for every family and every image.
pub proof fn lemma_emitted_header_starts_with_magic(chip: Chip, image: FirmwareImage)
    ensures
        spec_header_bytes(chip, image).len() >= 8,
        spec_header_bytes(chip, image)[0] == ESP_MAGIC,
{
}

/// Framing law: an emitted data segment opens with a segment header whose
/// address is the region's destination and whose length equals the exact
/// byte count of the payload that follows it.
pub proof fn lemma_data_segment_framing(s: CodeSegment)
    requires
        s.data@.len() <= u32::MAX,
    ensures
        spec_data_segment_bytes(s).len() == 8 + s.data@.len(),
        SegmentHeader::spec_from_bytes(spec_data_segment_bytes(s)) == (SegmentHeader {
            addr: s.addr,
            length: s.data@.len() as u32,
        }),
        spec_data_segment_bytes(s).subrange(8, spec_data_segment_bytes(s).len() as int)
            == s.data@,
{
    let h = SegmentHeader { addr: s.addr, length: s.data@.len() as u32 };
    let b = spec_data_segment_bytes(s);
    assert(forall|i: int| 0 <= i < 8 ==> b[i] == h.spec_bytes()[i]);
    lemma_segment_header_round_trip(h);
    assert(SegmentHeader::spec_from_bytes(b) == SegmentHeader::spec_from_bytes(h.spec_bytes()));
    assert(b.subrange(8, b.len() as int) =~= s.data@);
}

/// Emission-order law: the cursor's data segments come out in ascending
/// destination address order.
pub proof fn lemma_segments_ascending(fs: FlashSegments, i: int, j: int)
    requires
        fs.wf(),
        0 <= i < j < fs.order@.len(),
    ensures
        fs.image.segments@[fs.order@[i] as int].addr <= fs.image.segments@[fs.order@[j] as int].addr,
{
    assert(ordered_before(fs.image.segments@, fs.order@[i] as int, fs.order@[j] as int));
}

/// Completeness law: every loadable region of the image is scheduled for
/// emission.
pub proof fn lemma_every_region_scheduled(fs: FlashSegments, v: int)
    requires
        fs.wf(),
        0 <= v < fs.image.segments@.len(),
    ensures
        schedule_contains(fs.order@, v),
{
}

/// Uniqueness law: no loadable region is scheduled twice.
pub proof fn lemma_no_region_scheduled_twice(fs: FlashSegments, i: int, j: int)
    requires
        fs.wf(),
        0 <= i < j < fs.order@.len(),
    ensures
        fs.order@[i] != fs.order@[j],
{
    assert(ordered_before(fs.image.segments@, fs.order@[i] as int, fs.order@[j] as int));
}

} // verus!
