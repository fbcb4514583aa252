use espflash::chip::{Chip, ChipType};
use espflash::errors::Error;
use espflash::{Esp32, Esp32s2, Esp8266};

#[test]
fn from_magic_identifies_each_family() {
    assert_eq!(Chip::from_magic(0xfff0_c101), Some(Chip::Esp8266));
    assert_eq!(Chip::from_magic(0x00f0_1d83), Some(Chip::Esp32));
    assert_eq!(Chip::from_magic(0x0000_07c6), Some(Chip::Esp32s2));
}

#[test]
fn from_magic_rejects_unknown_values() {
    assert_eq!(Chip::from_magic(0), None);
    assert_eq!(Chip::from_magic(0xdead_beef), None);
    assert_eq!(Chip::from_magic(u32::MAX), None);
}

#[test]
fn trait_magic_values_match_dispatch() {
    assert_eq!(Esp8266::chip_detect_magic_value(), 0xfff0_c101);
    assert_eq!(Esp32::chip_detect_magic_value(), 0x00f0_1d83);
    assert_eq!(Esp32s2::chip_detect_magic_value(), 0x0000_07c6);
    assert_eq!(Esp8266::chip_detect_magic_value2(), 0);
    assert_eq!(Esp32::chip_detect_magic_value2(), 0);
    assert_eq!(Esp32s2::chip_detect_magic_value2(), 0);
}

#[test]
fn from_str_accepts_each_family_name() {
    assert_eq!(Chip::from_str("esp32"), Ok(Chip::Esp32));
    assert_eq!(Chip::from_str("esp32s2"), Ok(Chip::Esp32s2));
    assert_eq!(Chip::from_str("esp8266"), Ok(Chip::Esp8266));
}

#[test]
fn from_str_rejects_unknown_names() {
    assert_eq!(Chip::from_str("esp99"), Err(Error::UnrecognizedChip));
    assert_eq!(Chip::from_str("ESP32"), Err(Error::UnrecognizedChip));
    assert_eq!(Chip::from_str(""), Err(Error::UnrecognizedChip));
    assert_eq!(Chip::from_str("esp32s"), Err(Error::UnrecognizedChip));
}

#[test]
fn from_str_agrees_with_from_magic() {
    let by_name = Chip::from_str("esp8266").unwrap();
    let by_magic = Chip::from_magic(0xfff0_c101).unwrap();
    assert_eq!(by_name, by_magic);
}

#[test]
fn spi_registers_esp8266() {
    let regs = Chip::Esp8266.spi_registers();
    assert_eq!(regs.cmd(), 0x6000_0200);
    assert_eq!(regs.usr(), 0x6000_021c);
    assert_eq!(regs.usr1(), 0x6000_0220);
    assert_eq!(regs.usr2(), 0x6000_0224);
    assert_eq!(regs.w0(), 0x6000_0240);
    assert_eq!(regs.mosi_length(), None);
    assert_eq!(regs.miso_length(), None);
}

#[test]
fn spi_registers_esp32() {
    let regs = Chip::Esp32.spi_registers();
    assert_eq!(regs.cmd(), 0x3ff4_2000);
    assert_eq!(regs.usr(), 0x3ff4_201c);
    assert_eq!(regs.usr1(), 0x3ff4_2020);
    assert_eq!(regs.usr2(), 0x3ff4_2024);
    assert_eq!(regs.w0(), 0x3ff4_2080);
    assert_eq!(regs.mosi_length(), Some(0x3ff4_2028));
    assert_eq!(regs.miso_length(), Some(0x3ff4_202c));
}

#[test]
fn spi_registers_esp32s2() {
    let regs = Chip::Esp32s2.spi_registers();
    assert_eq!(regs.cmd(), 0x3f40_2000);
    assert_eq!(regs.usr(), 0x3f40_2018);
    assert_eq!(regs.usr1(), 0x3f40_201c);
    assert_eq!(regs.usr2(), 0x3f40_2020);
    assert_eq!(regs.w0(), 0x3f40_2058);
    assert_eq!(regs.mosi_length(), Some(0x3f40_2024));
    assert_eq!(regs.miso_length(), Some(0x3f40_2028));
}

#[test]
fn addr_is_flash_esp8266_window() {
    let c = Chip::Esp8266;
    assert!(c.addr_is_flash(0x4020_0000));
    assert!(c.addr_is_flash(0x402f_ffff));
    assert!(!c.addr_is_flash(0x4030_0000));
    assert!(!c.addr_is_flash(0x401f_ffff));
    assert!(!c.addr_is_flash(0x3f40_0000));
    assert!(!c.addr_is_flash(0));
}

#[test]
fn addr_is_flash_esp32_windows() {
    let c = Chip::Esp32;
    assert!(c.addr_is_flash(0x400d_0000));
    assert!(c.addr_is_flash(0x403f_ffff));
    assert!(!c.addr_is_flash(0x4040_0000));
    assert!(c.addr_is_flash(0x3f40_0000));
    assert!(c.addr_is_flash(0x3f7f_ffff));
    assert!(!c.addr_is_flash(0x3f80_0000));
    assert!(!c.addr_is_flash(0x1000));
}

#[test]
fn addr_is_flash_esp32s2_windows() {
    let c = Chip::Esp32s2;
    assert!(c.addr_is_flash(0x4008_0000));
    assert!(c.addr_is_flash(0x40b7_ffff));
    assert!(!c.addr_is_flash(0x40b8_0000));
    assert!(c.addr_is_flash(0x3f00_0000));
    assert!(!c.addr_is_flash(0x3f3f_0000));
    assert!(!c.addr_is_flash(0x4000_0000));
}

#[test]
fn addr_is_flash_is_family_specific() {
    assert!(Chip::Esp32.addr_is_flash(0x3f40_0000));
    assert!(!Chip::Esp8266.addr_is_flash(0x3f40_0000));
    assert!(!Chip::Esp32s2.addr_is_flash(0x3f40_0000));
}

#[test]
fn error_descriptions_are_nonempty() {
    assert!(!Error::UnrecognizedChip.describe().is_empty());
    assert!(!Error::TruncatedHeader.describe().is_empty());
    assert!(!Error::AddrNotFlash { addr: 0 }.describe().is_empty());
    assert!(!Error::SegmentTooLarge { length: 1, limit: 0 }.describe().is_empty());
}
