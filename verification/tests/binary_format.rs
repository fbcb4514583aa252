use espflash::errors::Error;
use espflash::headers::{EspCommonHeader, ExtendedHeader, SegmentHeader};

#[test]
fn common_header_exact_layout() {
    let h = EspCommonHeader {
        magic: 0xe9,
        segment_count: 2,
        flash_mode: 3,
        flash_config: 4,
        entry: 0x1234_5678,
    };
    let bytes = h.to_bytes();
    assert_eq!(bytes, vec![0xe9, 2, 3, 4, 0x78, 0x56, 0x34, 0x12]);
}

#[test]
fn common_header_round_trip() {
    let h = EspCommonHeader {
        magic: 0xe9,
        segment_count: 255,
        flash_mode: 0x02,
        flash_config: 0x1f,
        entry: 0xdead_beef,
    };
    let bytes = h.to_bytes();
    let parsed = EspCommonHeader::from_bytes(&bytes).unwrap();
    assert_eq!(parsed, h);
}

#[test]
fn common_header_truncated() {
    let bytes = vec![0xe9, 0, 0, 0, 0];
    assert_eq!(EspCommonHeader::from_bytes(&bytes), Err(Error::TruncatedHeader));
    assert_eq!(EspCommonHeader::from_bytes(&[]), Err(Error::TruncatedHeader));
}

#[test]
fn segment_header_exact_layout() {
    let h = SegmentHeader { addr: 0x0000_1000, length: 4096 };
    let bytes = h.to_bytes();
    assert_eq!(bytes, vec![0x00, 0x10, 0x00, 0x00, 0x00, 0x10, 0x00, 0x00]);
}

#[test]
fn segment_header_round_trip() {
    let h = SegmentHeader { addr: 0xfffe_fdfc, length: 0x0102_0304 };
    let bytes = h.to_bytes();
    let parsed = SegmentHeader::from_bytes(&bytes).unwrap();
    assert_eq!(parsed, h);
}

#[test]
fn segment_header_truncated() {
    let bytes = vec![0u8; 7];
    assert_eq!(SegmentHeader::from_bytes(&bytes), Err(Error::TruncatedHeader));
}

#[test]
fn extended_header_exact_layout() {
    let h = ExtendedHeader {
        wp_pin: 0xee,
        clk_q_drv: 1,
        d_cs_drv: 2,
        gd_wp_drv: 3,
        chip_id: 0x0102,
        min_rev: 5,
        padding: [0; 8],
        append_digest: 1,
    };
    let bytes = h.to_bytes();
    assert_eq!(bytes, vec![0xee, 1, 2, 3, 0x02, 0x01, 5, 0, 0, 0, 0, 0, 0, 0, 0, 1]);
}

#[test]
fn extended_header_round_trip() {
    let h = ExtendedHeader {
        wp_pin: 7,
        clk_q_drv: 0x11,
        d_cs_drv: 0x22,
        gd_wp_drv: 0x33,
        chip_id: 0xa5c3,
        min_rev: 9,
        padding: [1, 2, 3, 4, 5, 6, 7, 8],
        append_digest: 0,
    };
    let bytes = h.to_bytes();
    let parsed = ExtendedHeader::from_bytes(&bytes).unwrap();
    assert_eq!(parsed, h);
}

#[test]
fn extended_header_truncated() {
    let bytes = vec![0u8; 15];
    assert_eq!(ExtendedHeader::from_bytes(&bytes), Err(Error::TruncatedHeader));
}

#[test]
fn headers_parse_from_longer_buffers() {
    let h = SegmentHeader { addr: 0x10, length: 0x20 };
    let mut bytes = h.to_bytes();
    bytes.push(0xff);
    bytes.push(0xff);
    let parsed = SegmentHeader::from_bytes(&bytes).unwrap();
    assert_eq!(parsed, h);
}
