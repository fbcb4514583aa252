//! The ESP32-S2 family: its magic value, register table, the two
//! flash-mapped windows (instruction and data), and its segment size
//! limit. The family requires the extended header.

use vstd::prelude::*;

use crate::chip::{Chip, ChipType, NO_SECONDARY_MAGIC};
use crate::image::FirmwareImage;
use crate::segments::FlashSegments;
use crate::spi::SpiRegisters;

verus! {

/// Magic value read from a device of this family.
pub const CHIP_DETECT_MAGIC_VALUE: u32 = 0x0000_07c6;

/// Start (inclusive) of the instruction flash-mapped window.
pub const IROM_MAP_START: u32 = 0x4008_0000;

/// End (exclusive) of the instruction flash-mapped window.
pub const IROM_MAP_END: u32 = 0x40b8_0000;

/// Start (inclusive) of the data flash-mapped window.
pub const DROM_MAP_START: u32 = 0x3f00_0000;

/// End (exclusive) of the data flash-mapped window.
pub const DROM_MAP_END: u32 = 0x3f3f_0000;

/// Largest payload a single emitted segment may carry.
pub const MAX_SEGMENT_SIZE: u32 = 0x40_0000;

/// The 16-bit chip identifier carried in the extended header.
pub const CHIP_ID: u16 = 2;

#[derive(Debug, Clone, Copy)]
pub struct Esp32s2;

impl ChipType for Esp32s2 {
    open spec fn spec_chip() -> Chip {
        Chip::Esp32s2
    }

    open spec fn spec_magic() -> u32 {
        CHIP_DETECT_MAGIC_VALUE
    }

    open spec fn spec_magic2() -> u32 {
        NO_SECONDARY_MAGIC
    }

    open spec fn spec_spi_registers() -> SpiRegisters {
        SpiRegisters {
            base: 0x3f40_2000,
            usr_offset: 0x18,
            usr1_offset: 0x1c,
            usr2_offset: 0x20,
            w0_offset: 0x58,
            mosi_length_offset: Some(0x24),
            miso_length_offset: Some(0x28),
        }
    }

    open spec fn spec_addr_is_flash(addr: u32) -> bool {
        (IROM_MAP_START <= addr < IROM_MAP_END) || (DROM_MAP_START <= addr < DROM_MAP_END)
    }

    open spec fn spec_max_segment_size() -> u32 {
        MAX_SEGMENT_SIZE
    }

    open spec fn spec_needs_extended_header() -> bool {
        true
    }

    open spec fn spec_chip_id() -> u16 {
        CHIP_ID
    }

    fn chip_detect_magic_value() -> u32 {
        CHIP_DETECT_MAGIC_VALUE
    }

    fn chip_detect_magic_value2() -> u32 {
        NO_SECONDARY_MAGIC
    }

    fn spi_registers() -> SpiRegisters {
        SpiRegisters {
            base: 0x3f40_2000,
            usr_offset: 0x18,
            usr1_offset: 0x1c,
            usr2_offset: 0x20,
            w0_offset: 0x58,
            mosi_length_offset: Some(0x24),
            miso_length_offset: Some(0x28),
        }
    }

    fn addr_is_flash(addr: u32) -> bool {
        (IROM_MAP_START <= addr && addr < IROM_MAP_END) || (DROM_MAP_START <= addr && addr
            < DROM_MAP_END)
    }

    fn max_segment_size() -> u32 {
        MAX_SEGMENT_SIZE
    }

    fn get_flash_segments(image: FirmwareImage) -> FlashSegments {
        FlashSegments::new(Chip::Esp32s2, image)
    }
}

} // verus!
