//! Chip-abstraction core for flashing firmware to ESP-family microcontrollers.
//!
//! The crate identifies a chip family from a magic value or a name, exposes
//! the family's SPI flash-controller register map, and turns a parsed
//! firmware image into the ordered sequence of flash segments that the
//! family's boot ROM expects, in a bit-exact binary layout.

pub mod bytes;
pub mod chip;
pub mod errors;
pub mod esp32;
pub mod esp32s2;
pub mod esp8266;
pub mod headers;
pub mod image;
pub mod segments;
pub mod spi;

pub use crate::esp32::Esp32;
pub use crate::esp32s2::Esp32s2;
pub use crate::esp8266::Esp8266;
