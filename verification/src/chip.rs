//! Chip identity and dispatch.
//!
//! `Chip` is the closed set of supported families. It is constructed once,
//! from a magic value read off the device or from a family name, and every
//! capability operation dispatches exhaustively on it, so adding a family
//! breaks the build until every dispatch site is updated.

use vstd::prelude::*;
use vstd::string::StrSliceExecFns;

use crate::errors::Error;
use crate::image::FirmwareImage;
use crate::segments::FlashSegments;
use crate::esp32::Esp32;
use crate::esp32s2::Esp32s2;
use crate::esp8266::Esp8266;
use crate::spi::SpiRegisters;

verus! {

/// The secondary-magic slot of a family that has only one magic value.
/// No family uses zero as a primary magic.
pub const NO_SECONDARY_MAGIC: u32 = 0;

/// The capability contract every supported chip family implements:
/// its magic value(s), its SPI register table, its flash address window,
/// and its segment size limit.
pub trait ChipType {
    /// The identity value this family answers to.
    spec fn spec_chip() -> Chip;

    /// The family's primary magic value.
    spec fn spec_magic() -> u32;

    /// The family's secondary magic value, or `NO_SECONDARY_MAGIC`.
    spec fn spec_magic2() -> u32;

    /// The family's SPI flash-controller register table.
    spec fn spec_spi_registers() -> SpiRegisters;

    /// Whether `addr` lies in the family's flash-mapped address window.
    spec fn spec_addr_is_flash(addr: u32) -> bool;

    /// The largest payload a single emitted segment may carry.
    spec fn spec_max_segment_size() -> u32;

    /// Whether the family's boot ROM expects an extended header after the
    /// common header.
    spec fn spec_needs_extended_header() -> bool;

    /// The 16-bit chip identifier carried in the extended header.
    spec fn spec_chip_id() -> u16;

    fn chip_detect_magic_value() -> (r: u32)
        ensures
            r == Self::spec_magic(),
    ;

    fn chip_detect_magic_value2() -> (r: u32)
        ensures
            r == Self::spec_magic2(),
    ;

    fn spi_registers() -> (r: SpiRegisters)
        ensures
            r == Self::spec_spi_registers(),
            r.wf(),
    ;

    fn addr_is_flash(addr: u32) -> (r: bool)
        ensures
            r == Self::spec_addr_is_flash(addr),
    ;

    fn max_segment_size() -> (r: u32)
        ensures
            r == Self::spec_max_segment_size(),
    ;

    /// The lazy sequence of flash segments for writing `image` to a
    /// device of this family. The emitted segment count is a single
    /// byte, so the image may hold at most 255 loadable regions.
    fn get_flash_segments(image: FirmwareImage) -> (r: FlashSegments)
        requires
            image.segments@.len() <= 255,
        ensures
            r.wf(),
            r.chip == Self::spec_chip(),
            r.image == image,
            r.pos == 0,
    ;
}

/// The closed set of supported chip families.
#[derive(Debug, Clone, Copy, PartialEq, Eq)]
pub enum Chip {
    Esp8266,
    Esp32,
    Esp32s2,
}

impl Chip {
    /// The family's primary magic value.
    pub open spec fn spec_magic(self) -> u32 {
        match self {
            Chip::Esp8266 => Esp8266::spec_magic(),
            Chip::Esp32 => Esp32::spec_magic(),
            Chip::Esp32s2 => Esp32s2::spec_magic(),
        }
    }

    /// The family's secondary magic value, or `NO_SECONDARY_MAGIC`.
    pub open spec fn spec_magic2(self) -> u32 {
        match self {
            Chip::Esp8266 => Esp8266::spec_magic2(),
            Chip::Esp32 => Esp32::spec_magic2(),
            Chip::Esp32s2 => Esp32s2::spec_magic2(),
        }
    }

    /// The family's SPI register table.
    pub open spec fn spec_spi_registers(self) -> SpiRegisters {
        match self {
            Chip::Esp8266 => Esp8266::spec_spi_registers(),
            Chip::Esp32 => Esp32::spec_spi_registers(),
            Chip::Esp32s2 => Esp32s2::spec_spi_registers(),
        }
    }

    /// Whether `addr` lies in the family's flash-mapped window.
    pub open spec fn spec_addr_is_flash(self, addr: u32) -> bool {
        match self {
            Chip::Esp8266 => Esp8266::spec_addr_is_flash(addr),
            Chip::Esp32 => Esp32::spec_addr_is_flash(addr),
            Chip::Esp32s2 => Esp32s2::spec_addr_is_flash(addr),
        }
    }

    /// The family's segment size limit.
    pub open spec fn spec_max_segment_size(self) -> u32 {
        match self {
            Chip::Esp8266 => Esp8266::spec_max_segment_size(),
            Chip::Esp32 => Esp32::spec_max_segment_size(),
            Chip::Esp32s2 => Esp32s2::spec_max_segment_size(),
        }
    }

    /// Whether the family requires the extended header.
    pub open spec fn spec_needs_extended_header(self) -> bool {
        match self {
            Chip::Esp8266 => Esp8266::spec_needs_extended_header(),
            Chip::Esp32 => Esp32::spec_needs_extended_header(),
            Chip::Esp32s2 => Esp32s2::spec_needs_extended_header(),
        }
    }

    /// The 16-bit chip identifier carried in the extended header.
    pub open spec fn spec_chip_id(self) -> u16 {
        match self {
            Chip::Esp8266 => Esp8266::spec_chip_id(),
            Chip::Esp32 => Esp32::spec_chip_id(),
            Chip::Esp32s2 => Esp32s2::spec_chip_id(),
        }
    }

    /// The family name accepted by name-based construction.
    pub open spec fn spec_name(self) -> Seq<char> {
        match self {
            Chip::Esp8266 => seq!['e', 's', 'p', '8', '2', '6', '6'],
            Chip::Esp32 => seq!['e', 's', 'p', '3', '2'],
            Chip::Esp32s2 => seq!['e', 's', 'p', '3', '2', 's', '2'],
        }
    }

    /// The family whose primary magic is `magic`, or `None`.
    pub open spec fn spec_from_magic(magic: u32) -> Option<Chip> {
        if magic == Chip::Esp8266.spec_magic() {
            Some(Chip::Esp8266)
        } else if magic == Chip::Esp32.spec_magic() {
            Some(Chip::Esp32)
        } else if magic == Chip::Esp32s2.spec_magic() {
            Some(Chip::Esp32s2)
        } else {
            None
        }
    }

    /// The family whose name is `s`, or `Error::UnrecognizedChip`.
    pub open spec fn spec_from_name(s: Seq<char>) -> Result<Chip, Error> {
        if s == Chip::Esp32.spec_name() {
            Ok(Chip::Esp32)
        } else if s == Chip::Esp32s2.spec_name() {
            Ok(Chip::Esp32s2)
        } else if s == Chip::Esp8266.spec_name() {
            Ok(Chip::Esp8266)
        } else {
            Err(Error::UnrecognizedChip)
        }
    }

    /// Identifies the family from a magic value read off the device.
    /// Returns `None` exactly when the value matches no family.
    pub fn from_magic(magic: u32) -> (r: Option<Chip>)
        ensures
            r == Chip::spec_from_magic(magic),
    {
        if magic == Esp8266::chip_detect_magic_value() {
            Some(Chip::Esp8266)
        } else if magic == Esp32::chip_detect_magic_value() {
            Some(Chip::Esp32)
        } else if magic == Esp32s2::chip_detect_magic_value() {
            Some(Chip::Esp32s2)
        } else {
            None
        }
    }

    /// Identifies the family from its name (case-sensitive, exact match).
    /// Fails with `Error::UnrecognizedChip` on any other string.
    pub fn from_str(s: &str) -> (r: Result<Chip, Error>)
        ensures
            r == Chip::spec_from_name(s@),
    {
        proof {
            reveal_strlit("esp32");
            reveal_strlit("esp32s2");
            reveal_strlit("esp8266");
            assert(("esp32")@ =~= Chip::Esp32.spec_name());
            assert(("esp32s2")@ =~= Chip::Esp32s2.spec_name());
            assert(("esp8266")@ =~= Chip::Esp8266.spec_name());
        }
        if str_eq(s, "esp32") {
            Ok(Chip::Esp32)
        } else if str_eq(s, "esp32s2") {
            Ok(Chip::Esp32s2)
        } else if str_eq(s, "esp8266") {
            Ok(Chip::Esp8266)
        } else {
            Err(Error::UnrecognizedChip)
        }
    }

    /// Whether `addr` lies in this family's flash-mapped window.
    pub fn addr_is_flash(&self, addr: u32) -> (r: bool)
        ensures
            r == self.spec_addr_is_flash(addr),
    {
        match self {
            Chip::Esp8266 => Esp8266::addr_is_flash(addr),
            Chip::Esp32 => Esp32::addr_is_flash(addr),
            Chip::Esp32s2 => Esp32s2::addr_is_flash(addr),
        }
    }

    /// This family's SPI register table.
    pub fn spi_registers(&self) -> (r: SpiRegisters)
        ensures
            r == self.spec_spi_registers(),
            r.wf(),
    {
        match self {
            Chip::Esp8266 => Esp8266::spi_registers(),
            Chip::Esp32 => Esp32::spi_registers(),
            Chip::Esp32s2 => Esp32s2::spi_registers(),
        }
    }

    /// This family's segment size limit.
    pub fn max_segment_size(&self) -> (r: u32)
        ensures
            r == self.spec_max_segment_size(),
    {
        match self {
            Chip::Esp8266 => Esp8266::max_segment_size(),
            Chip::Esp32 => Esp32::max_segment_size(),
            Chip::Esp32s2 => Esp32s2::max_segment_size(),
        }
    }

    /// The lazy sequence of flash segments for writing `image` to a
    /// device of this family. The emitted segment count is a single
    /// byte, so the image may hold at most 255 loadable regions.
    pub fn get_flash_segments(&self, image: FirmwareImage) -> (r: FlashSegments)
        requires
            image.segments@.len() <= 255,
        ensures
            r.wf(),
            r.chip == *self,
            r.image == image,
            r.pos == 0,
    {
        match self {
            Chip::Esp8266 => Esp8266::get_flash_segments(image),
            Chip::Esp32 => Esp32::get_flash_segments(image),
            Chip::Esp32s2 => Esp32s2::get_flash_segments(image),
        }
    }
}

/// Character-exact string comparison.
fn str_eq(a: &str, b: &str) -> (r: bool)
    ensures
        r == (a@ == b@),
{
    let la = a.unicode_len();
    let lb = b.unicode_len();
    if la != lb {
        return false;
    }
    let mut i: usize = 0;
    while i < la
        invariant
            i <= la,
            la == a@.len(),
            la == b@.len(),
            forall|j: int| 0 <= j < i ==> a@[j] == b@[j],
        decreases la - i,
    {
        if a.get_char(i) != b.get_char(i) {
            return false;
        }
        i = i + 1;
    }
    assert(a@ =~= b@);
    true
}

/// Identification law: each family is recognized from its own primary
/// magic value.
pub proof fn lemma_from_magic_identifies_family(c: Chip)
    ensures
        Chip::spec_from_magic(c.spec_magic()) == Some(c),
{
    match c {
        Chip::Esp8266 => {},
        Chip::Esp32 => {},
        Chip::Esp32s2 => {},
    }
}

/// Identification law: a value that equals no family's primary or
/// secondary magic is unrecognized.
pub proof fn lemma_from_magic_rejects_unknown(magic: u32)
    requires
        forall|c: Chip| magic != #[trigger] c.spec_magic() && magic != c.spec_magic2(),
    ensures
        Chip::spec_from_magic(magic) is None,
{
    assert(magic != Chip::Esp8266.spec_magic());
    assert(magic != Chip::Esp32.spec_magic());
    assert(magic != Chip::Esp32s2.spec_magic());
}

/// Naming law: each family is recognized from its own name.
pub proof fn lemma_from_name_identifies_family(c: Chip)
    ensures
        Chip::spec_from_name(c.spec_name()) == Ok::<Chip, Error>(c),
{
    match c {
        Chip::Esp8266 => {
            assert(Chip::Esp8266.spec_name().len() != Chip::Esp32.spec_name().len());
            assert(Chip::Esp8266.spec_name()[3] != Chip::Esp32s2.spec_name()[3]);
        },
        Chip::Esp32 => {},
        Chip::Esp32s2 => {
            assert(Chip::Esp32s2.spec_name().len() != Chip::Esp32.spec_name().len());
        },
    }
}

/// Name-based and magic-based construction agree on every family.
pub proof fn lemma_name_and_magic_agree(c: Chip)
    ensures
        Chip::spec_from_name(c.spec_name()) == Ok::<Chip, Error>(c),
        Chip::spec_from_magic(c.spec_magic()) == Some(c),
{
    lemma_from_name_identifies_family(c);
    lemma_from_magic_identifies_family(c);
}

/// Partition law: for a given family every address is classified either
/// flash-mapped or not, and never both.
pub proof fn lemma_addr_is_flash_partitions(c: Chip, addr: u32)
    ensures
        c.spec_addr_is_flash(addr) || !c.spec_addr_is_flash(addr),
        !(c.spec_addr_is_flash(addr) && !c.spec_addr_is_flash(addr)),
{
}

/// The classification is family-specific: an address flash-mapped for one
/// family need not be flash-mapped for another.
pub proof fn lemma_addr_is_flash_is_family_specific()
    ensures
        Chip::Esp32.spec_addr_is_flash(0x3f40_0000),
        !Chip::Esp32s2.spec_addr_is_flash(0x3f40_0000),
        !Chip::Esp8266.spec_addr_is_flash(0x3f40_0000),
        Chip::Esp8266.spec_addr_is_flash(0x4020_0000),
        !Chip::Esp32s2.spec_addr_is_flash(0x3fff_ffff),
        Chip::Esp32s2.spec_addr_is_flash(0x3f00_0000),
{
}

} // verus!
