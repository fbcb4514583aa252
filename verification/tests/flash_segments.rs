use espflash::chip::Chip;
use espflash::errors::Error;
use espflash::headers::SegmentHeader;
use espflash::image::{CodeSegment, FirmwareImage, RomSegment};

fn image_with(segments: Vec<CodeSegment>) -> FirmwareImage {
    FirmwareImage { entry: 0x400d_0400, flash_mode: 0x02, flash_config: 0x1f, segments }
}

fn collect(chip: Chip, image: FirmwareImage) -> Vec<Result<RomSegment, Error>> {
    let mut cursor = chip.get_flash_segments(image);
    let mut out = Vec::new();
    while let Some(item) = cursor.next_segment() {
        out.push(item);
    }
    out
}

#[test]
fn esp32_single_region_end_to_end() {
    let region = CodeSegment { addr: 0x1000, data: vec![0xab; 4096], flash_mapped: false };
    let image = image_with(vec![region]);
    let items = collect(Chip::Esp32, image);
    assert_eq!(items.len(), 2);

    let header = items[0].as_ref().unwrap();
    assert_eq!(header.addr, 0);
    assert_eq!(header.data.len(), 24);
    let mut expected = vec![0xe9, 1, 0x02, 0x1f, 0x00, 0x04, 0x0d, 0x40];
    expected.extend_from_slice(&[0xee, 0, 0, 0, 0, 0, 0, 0, 0, 0, 0, 0, 0, 0, 0, 0]);
    assert_eq!(header.data, expected);

    let data = items[1].as_ref().unwrap();
    assert_eq!(data.addr, 0x1000);
    assert_eq!(data.data.len(), 8 + 4096);
    // Segment header: addr 0x1000 LE, length 4096 LE, then the payload.
    assert_eq!(&data.data[..8], &[0x00, 0x10, 0x00, 0x00, 0x00, 0x10, 0x00, 0x00]);
    assert!(data.data[8..].iter().all(|&b| b == 0xab));
}

#[test]
fn esp32s2_header_carries_its_chip_id() {
    let image = image_with(vec![]);
    let items = collect(Chip::Esp32s2, image);
    assert_eq!(items.len(), 1);
    let header = items[0].as_ref().unwrap();
    assert_eq!(header.addr, 0);
    assert_eq!(header.data.len(), 24);
    assert_eq!(header.data[0], 0xe9);
    assert_eq!(header.data[1], 0);
    assert_eq!(header.data[12], 2);
    assert_eq!(header.data[13], 0);
}

#[test]
fn esp8266_emits_no_extended_header() {
    let region = CodeSegment { addr: 0x4020_0000, data: vec![1, 2, 3], flash_mapped: true };
    let image = image_with(vec![region]);
    let items = collect(Chip::Esp8266, image);
    assert_eq!(items.len(), 2);
    let header = items[0].as_ref().unwrap();
    assert_eq!(header.data.len(), 8);
    assert_eq!(header.data[0], 0xe9);
    assert_eq!(header.data[1], 1);
    let data = items[1].as_ref().unwrap();
    assert_eq!(data.addr, 0x4020_0000);
    assert_eq!(data.data, vec![0x00, 0x00, 0x20, 0x40, 3, 0, 0, 0, 1, 2, 3]);
}

#[test]
fn data_segments_come_out_in_ascending_address_order() {
    let regions = vec![
        CodeSegment { addr: 0x3000, data: vec![3], flash_mapped: false },
        CodeSegment { addr: 0x1000, data: vec![1], flash_mapped: false },
        CodeSegment { addr: 0x2000, data: vec![2], flash_mapped: false },
    ];
    let image = image_with(regions);
    let items = collect(Chip::Esp32, image);
    assert_eq!(items.len(), 4);
    let addrs: Vec<u32> = items[1..].iter().map(|i| i.as_ref().unwrap().addr).collect();
    assert_eq!(addrs, vec![0x1000, 0x2000, 0x3000]);
    assert_eq!(items[1].as_ref().unwrap().data[8..], [1]);
    assert_eq!(items[3].as_ref().unwrap().data[8..], [3]);
}

#[test]
fn equal_addresses_keep_source_order() {
    let regions = vec![
        CodeSegment { addr: 0x1000, data: vec![10], flash_mapped: false },
        CodeSegment { addr: 0x1000, data: vec![20], flash_mapped: false },
    ];
    let image = image_with(regions);
    let items = collect(Chip::Esp32, image);
    assert_eq!(items.len(), 3);
    assert_eq!(items[1].as_ref().unwrap().data[8..], [10]);
    assert_eq!(items[2].as_ref().unwrap().data[8..], [20]);
}

#[test]
fn flash_required_region_outside_window_fails_per_element() {
    let regions = vec![
        CodeSegment { addr: 0x500, data: vec![9], flash_mapped: true },
        CodeSegment { addr: 0x4020_0000, data: vec![7], flash_mapped: true },
    ];
    let image = image_with(regions);
    let items = collect(Chip::Esp8266, image);
    assert_eq!(items.len(), 3);
    assert!(items[0].is_ok());
    assert_eq!(*items[1].as_ref().unwrap_err(), Error::AddrNotFlash { addr: 0x500 });
    let ok = items[2].as_ref().unwrap();
    assert_eq!(ok.addr, 0x4020_0000);
    assert_eq!(ok.data, vec![0x00, 0x00, 0x20, 0x40, 1, 0, 0, 0, 7]);
}

#[test]
fn oversized_segment_fails_with_the_family_limit() {
    let big = vec![0u8; 0x10_0001];
    let regions = vec![CodeSegment { addr: 0x1000, data: big, flash_mapped: false }];
    let image = image_with(regions);
    let items = collect(Chip::Esp8266, image);
    assert_eq!(items.len(), 2);
    assert_eq!(
        *items[1].as_ref().unwrap_err(),
        Error::SegmentTooLarge { length: 0x10_0001, limit: 0x10_0000 }
    );
}

#[test]
fn placement_error_is_reported_before_size_error() {
    let big = vec![0u8; 0x10_0001];
    let regions = vec![CodeSegment { addr: 0x500, data: big, flash_mapped: true }];
    let image = image_with(regions);
    let items = collect(Chip::Esp8266, image);
    assert_eq!(items.len(), 2);
    assert_eq!(*items[1].as_ref().unwrap_err(), Error::AddrNotFlash { addr: 0x500 });
}

#[test]
fn emitted_data_segment_header_parses_back() {
    let region = CodeSegment { addr: 0x2000, data: vec![5, 6, 7, 8, 9], flash_mapped: false };
    let image = image_with(vec![region]);
    let items = collect(Chip::Esp32, image);
    let data = items[1].as_ref().unwrap();
    let header = SegmentHeader::from_bytes(&data.data).unwrap();
    assert_eq!(header.addr, 0x2000);
    assert_eq!(header.length, 5);
    assert_eq!(header.length as usize, data.data.len() - 8);
    assert_eq!(&data.data[8..], &[5, 6, 7, 8, 9]);
}

#[test]
fn empty_image_yields_only_the_header() {
    let image = image_with(vec![]);
    let items = collect(Chip::Esp8266, image);
    assert_eq!(items.len(), 1);
    let header = items[0].as_ref().unwrap();
    assert_eq!(header.data[1], 0);
}

#[test]
fn cursor_is_exhausted_after_the_last_element() {
    let image = image_with(vec![]);
    let mut cursor = Chip::Esp32.get_flash_segments(image);
    assert!(cursor.next_segment().is_some());
    assert!(cursor.next_segment().is_none());
    assert!(cursor.next_segment().is_none());
}
