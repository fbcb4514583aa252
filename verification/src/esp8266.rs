//! The ESP8266 family: its magic value, register table, flash window and
//! segment size limit. The family needs no extended header.

use vstd::prelude::*;

use crate::chip::{Chip, ChipType, NO_SECONDARY_MAGIC};
use crate::image::FirmwareImage;
use crate::segments::FlashSegments;
use crate::spi::SpiRegisters;

verus! {

/// Magic value read from a device of this family.
pub const CHIP_DETECT_MAGIC_VALUE: u32 = 0xfff0_c101;

/// Start (inclusive) of the flash-mapped address window.
pub const IROM_MAP_START: u32 = 0x4020_0000;

/// End (exclusive) of the flash-mapped address window.
pub const IROM_MAP_END: u32 = 0x4030_0000;

/// Largest payload a single emitted segment may carry.
pub const MAX_SEGMENT_SIZE: u32 = 0x10_0000;

#[derive(Debug, Clone, Copy)]
pub struct Esp8266;

impl ChipType for Esp8266 {
    open spec fn spec_chip() -> Chip {
        Chip::Esp8266
    }

    open spec fn spec_magic() -> u32 {
        CHIP_DETECT_MAGIC_VALUE
    }

    open spec fn spec_magic2() -> u32 {
        NO_SECONDARY_MAGIC
    }

    open spec fn spec_spi_registers() -> SpiRegisters {
        SpiRegisters {
            base: 0x6000_0200,
            usr_offset: 0x1c,
            usr1_offset: 0x20,
            usr2_offset: 0x24,
            w0_offset: 0x40,
            mosi_length_offset: None,
            miso_length_offset: None,
        }
    }

    open spec fn spec_addr_is_flash(addr: u32) -> bool {
        IROM_MAP_START <= addr < IROM_MAP_END
    }

    open spec fn spec_max_segment_size() -> u32 {
        MAX_SEGMENT_SIZE
    }

    open spec fn spec_needs_extended_header() -> bool {
        false
    }

    open spec fn spec_chip_id() -> u16 {
        0
    }

    fn chip_detect_magic_value() -> u32 {
        CHIP_DETECT_MAGIC_VALUE
    }

    fn chip_detect_magic_value2() -> u32 {
        NO_SECONDARY_MAGIC
    }

    fn spi_registers() -> SpiRegisters {
        SpiRegisters {
            base: 0x6000_0200,
            usr_offset: 0x1c,
            usr1_offset: 0x20,
            usr2_offset: 0x24,
            w0_offset: 0x40,
            mosi_length_offset: None,
            miso_length_offset: None,
        }
    }

    fn addr_is_flash(addr: u32) -> bool {
        IROM_MAP_START <= addr && addr < IROM_MAP_END
    }

    fn max_segment_size() -> u32 {
        MAX_SEGMENT_SIZE
    }

    fn get_flash_segments(image: FirmwareImage) -> FlashSegments {
        FlashSegments::new(Chip::Esp8266, image)
    }
}

} // verus!
