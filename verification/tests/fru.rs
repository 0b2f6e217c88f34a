//! FRU images, reading them, and the inventory.

use ipmicfg::cli::InventoryArgs;
use ipmicfg::cmd::inventory::{locate, locator_device, vendor_text, LocatorDevice};
use ipmicfg::cmd::inventory_run::{print_fru, InventoryRun};
use ipmicfg::conn::{Recipient, Response};
use ipmicfg::dialog::{Action, DeviceId, Event};
use ipmicfg::fru::{
    chassis_type_name, decode_6bit_ascii, decode_bcd_plus, format_mfg_date, next_field,
    parse_image, Fru, ProductInfo,
};
use ipmicfg::fru_read::{standard_area_offsets, DecodedRead, FruTarget, RangeRead, RawRead};
use ipmicfg::sdr::{Record, RecordContents};

fn reply(data: &[u8]) -> Result<Response, String> {
    Ok(Response { cc: 0, data: data.to_vec() })
}

fn framed(id: u16, ty: u8, body: &[u8]) -> Vec<u8> {
    let mut data = vec![id as u8, (id >> 8) as u8, 0x51, ty, body.len() as u8];
    data.extend_from_slice(body);
    data
}

fn fru_locator(id: u16, address: u8, device: u8, channel: u8, name: &[u8]) -> Record {
    let mut body = vec![0u8; 10];
    body[0] = address;
    body[1] = device;
    body[3] = channel;
    body.push(0xC0 | name.len() as u8);
    body.extend_from_slice(name);
    Record::parse(&framed(id, 0x11, &body)).unwrap()
}

/// An image with a product area of one manufacturer and one name.
fn image() -> Vec<u8> {
    let mut image = vec![0x01, 0, 0, 0, 1, 0, 0, 0];
    let mut product = vec![0x01, 2, 25, 0xC4];
    product.extend_from_slice(b"ACME");
    product.push(0xC3);
    product.extend_from_slice(b"X-1");
    product.push(0xC1);
    product.resize(16, 0);
    image.extend_from_slice(&product);
    image
}

#[test]
fn selects_only_referenced_standard_areas() {
    let header = [0x01, 0, 1, 3, 5, 0, 0, 0];
    assert_eq!(standard_area_offsets(&header, 128), [8, 24, 40]);
    assert!(standard_area_offsets(&[0; 8], 128).is_empty());
    assert_eq!(standard_area_offsets(&header, 25), [8]);
}

#[test]
fn parses_product_areas() {
    let fru = parse_image(&image(), false);
    assert_eq!(fru.product.manufacturer.as_deref(), Some("ACME"));
    assert_eq!(fru.product.product_name.as_deref(), Some("X-1"));
    assert_eq!(fru.product.part_number, None);
    assert!(!fru.is_empty());
    assert!(parse_image(&[], false).is_empty());
    assert!(Fru::default().is_empty());
}

#[test]
fn parses_chassis_and_board_areas() {
    let mut data = vec![0x01, 0, 1, 2, 0, 0, 0, 0];
    data.extend_from_slice(&[0x01, 1, 0x02, 0xC2, b'P', b'1', 0xC1, 0]);
    // 0x123456 minutes after 1996-01-01 00:00.
    data.extend_from_slice(&[0x01, 1, 25, 0x56, 0x34, 0x12, 0xC1, 0]);
    let fru = parse_image(&data, false);
    assert_eq!(
        fru.chassis.chassis_type.as_deref(),
        Some("Unknown (0x02) — not set by vendor")
    );
    assert_eq!(fru.chassis.part_number.as_deref(), Some("P1"));
    assert_eq!(fru.board.mfg_date.as_deref(), Some("1998-04-08 12:06"));
    let colored = parse_image(&data, true);
    assert_eq!(
        colored.chassis.chassis_type.as_deref(),
        Some("Unknown (0x02)\x1b[2m — not set by vendor\x1b[0m")
    );
    assert_eq!(chassis_type_name(0x17), Some("Rack Mount Chassis"));
    assert_eq!(chassis_type_name(0x02), None);
}

#[test]
fn board_dates_count_from_1996() {
    assert_eq!(format_mfg_date(0), None);
    assert_eq!(format_mfg_date(1).as_deref(), Some("1996-01-01 00:01"));
    assert_eq!(format_mfg_date(1440).as_deref(), Some("1996-01-02 00:00"));
    // 1996 is a leap year.
    assert_eq!(format_mfg_date(59 * 1440).as_deref(), Some("1996-02-29 00:00"));
    assert_eq!(format_mfg_date(366 * 1440 - 1).as_deref(), Some("1996-12-31 23:59"));
}

#[test]
fn decodes_field_encodings() {
    // "IPMI" packed into three bytes.
    assert_eq!(decode_6bit_ascii(&[0x29, 0xDC, 0xA6]), "IPMI");
    assert_eq!(decode_6bit_ascii(&[0x21]), "A");
    assert_eq!(decode_6bit_ascii(&[0x21, 0x09]), "AD");
    assert_eq!(decode_bcd_plus(&[0x12, 0xA3, 0xBC, 0xDE]), "12 3-.");
    let mut idx = 0;
    assert_eq!(next_field(&[0x02, 0xAB, 0xCD], &mut idx).as_deref(), Some("AB CD"));
    assert_eq!(idx, 3);
    let mut idx = 0;
    assert_eq!(next_field(&[0xC2, b' ', b' ', 0xC1], &mut idx), None);
    assert_eq!(idx, 3);
    assert_eq!(next_field(&[0xC2, b' ', b' ', 0xC1], &mut idx), None);
    assert_eq!(idx, 3);
    let mut idx = 0;
    assert_eq!(next_field(&[0xC0], &mut idx).as_deref(), Some(""));
    let mut idx = 0;
    assert_eq!(next_field(&[0xC5, b'a'], &mut idx), None);
    assert_eq!(idx, 0);
}

#[test]
fn reads_a_range_in_chunks() {
    let device: Vec<u8> = (0..40).collect();
    let target = Some(FruTarget { address: 0x2C, channel: 0, lun: 0 });
    let mut read = RangeRead::new(7, target, 8, 20, 2);
    let request = read.request().unwrap();
    assert_eq!(request.data, [7, 4, 0, 16]);
    assert_eq!(
        request.recipient,
        Recipient::BmcOrIpmb { address: 0x2C, channel: 0, lun: 0 }
    );
    let mut offset = 8;
    while let Some(request) = read.request() {
        let n = request.data[3] as usize;
        let mut data = vec![n as u8];
        data.extend_from_slice(&device[offset..offset + n]);
        offset += n;
        read = read.advance(reply(&data));
    }
    assert!(read.error().is_none());
    assert_eq!(read.into_bytes(), device[8..28]);
}

#[test]
fn a_range_ends_where_the_device_does() {
    let read = RangeRead::new(0, None, 0, 64, 1).advance(reply(&[3, 1, 2, 3]));
    assert_eq!(read.request().unwrap().data, [0, 3, 0, 16]);
    let read = read.advance(reply(&[0]));
    assert!(read.request().is_none());
    assert_eq!(read.into_bytes(), [1, 2, 3]);
    let failed = RangeRead::new(0, None, 5, 64, 1)
        .advance(Ok(Response { cc: 0xC3, data: vec![] }));
    assert_eq!(
        failed.error().unwrap(),
        "Read FRU Data at offset 5: completion code 0xC3"
    );
}

#[test]
fn reads_the_whole_image() {
    let bytes = image();
    let mut read = RawRead::new(0, None);
    assert_eq!(read.request().unwrap().cmd, 0x10);
    read = read.advance(reply(&[bytes.len() as u8, 0, 0]));
    let mut offset = 0;
    while let Some(request) = read.request() {
        let n = request.data[3] as usize;
        let mut data = vec![n as u8];
        data.extend_from_slice(&bytes[offset..offset + n]);
        offset += n;
        read = read.advance(reply(&data));
    }
    assert_eq!(read.finish(), Ok(bytes));
    let empty = RawRead::new(0, None).advance(reply(&[0, 0]));
    assert_eq!(empty.finish(), Err("FRU area reports zero size".to_string()));
    let short = RawRead::new(0, None).advance(reply(&[0]));
    assert_eq!(short.finish(), Err("Get FRU Area Info: short response".to_string()));
}

#[test]
fn reads_only_the_areas_that_are_referenced() {
    let bytes = image();
    let mut read = DecodedRead::new(0, None).advance(reply(&[0x00, 0x10, 0]));
    let mut asked = Vec::new();
    while let Some(request) = read.request() {
        let offset = request.data[1] as usize + 256 * request.data[2] as usize;
        let n = request.data[3] as usize;
        asked.push((offset, n));
        let mut data = vec![n as u8];
        data.extend_from_slice(&bytes[offset..offset + n]);
        read = read.advance(reply(&data));
    }
    assert_eq!(asked, vec![(0, 8), (8, 2), (8, 16)]);
    let fru = match read.finish(false) {
        Ok(fru) => fru,
        Err(e) => panic!("{e}"),
    };
    assert_eq!(fru.product.manufacturer.as_deref(), Some("ACME"));
}

#[test]
fn small_and_foreign_devices_have_no_fields() {
    let small = DecodedRead::new(0, None).advance(reply(&[7, 0]));
    assert!(matches!(small.finish(false), Err(e) if e == "FRU area is too small (7 bytes)"));
    let foreign = DecodedRead::new(0, None)
        .advance(reply(&[64, 0]))
        .advance(reply(&[8, 9, 9, 9, 9, 9, 9, 9, 9]));
    assert!(foreign.request().is_none());
    assert!(matches!(foreign.finish(false), Ok(fru) if fru.is_empty()));
}

#[test]
fn parses_pinned_fru_locator_debug_shape() {
    assert!(matches!(
        locator_device("Logical(LogicalFruDevice { fru_device_id: 3 })"),
        Some(LocatorDevice::Logical(3))
    ));
    assert!(matches!(
        locator_device("Physical(PhysicalFruDevice { i2c_address: 82 })"),
        Some(LocatorDevice::Physical(82))
    ));
}

#[test]
fn unknown_locator_shapes_are_not_guessed() {
    assert_eq!(locator_device("Other(3)"), None);
    assert_eq!(locator_device("Logical(LogicalFruDevice { id: 3 })"), None);
    assert_eq!(locator_device("Logical(LogicalFruDevice { fru_device_id: 300 })"), None);
}

#[test]
fn locates_devices_once() {
    let records = vec![
        fru_locator(1, 0x20, 0, 0, b"System"),
        fru_locator(2, 0x20, 3, 0, b"PSU"),
        fru_locator(3, 0x20, 3, 0, b"PSU again"),
        fru_locator(4, 0x20, 0xA4, 7, b"DIMM"),
    ];
    let (frus, physical) = match locate(&records) {
        Ok(found) => found,
        Err(e) => panic!("{e}"),
    };
    assert_eq!(frus.len(), 2);
    assert_eq!((frus[0].id, frus[0].name.as_str()), (0, "System"));
    assert!(frus[0].target.is_none());
    assert_eq!((frus[1].id, frus[1].name.as_str()), (3, "PSU"));
    assert_eq!(frus[1].location, "IPMB 0x20, channel 0");
    assert_eq!(physical.len(), 1);
    assert_eq!((physical[0].address, physical[0].channel), (0x52, 7));
    let invalid = vec![fru_locator(1, 0x20, 3, 0x0C, b"?")];
    assert!(matches!(
        locate(&invalid),
        Err(e) if e == "FRU locator contains an invalid channel"
    ));
}

fn device() -> DeviceId {
    DeviceId {
        device_id: 0x20,
        device_revision: 1,
        major_fw_revision: 3,
        minor_fw_revision: 7,
        major_version: 2,
        minor_version: 0,
        manufacturer_id: 0x002A7C,
        product_id: 0x0123,
        device_available: true,
        chassis_support: true,
        bridge_support: false,
        fru_inventory_support: true,
        sel_device_support: true,
        sdr_repository_support: true,
        sensor_device_support: true,
    }
}

#[test]
fn shows_the_inventory() {
    let run = InventoryRun::new(InventoryArgs { fru_id: None, raw: None }, false);
    assert!(matches!(run.action(), Action::GetDeviceId));
    let (run, lines) = run.advance(Event::DeviceId(Ok(device())));
    assert_eq!(
        lines[3..],
        [
            "  Manufacturer        Supermicro (0x002A7C)",
            "  Product ID          0x0123",
            "  Device ID           0x20",
            "  Device revision     1",
            "  Firmware            3.07",
        ]
    );
    let mut mc = vec![0u8; 10];
    mc.push(0xC3);
    mc.extend_from_slice(b"BMC");
    let mut data = vec![0xFF, 0xFF];
    data.extend_from_slice(&framed(1, 0x12, &mc));
    let (run, lines) = run.advance(Event::Reply(reply(&data)));
    assert_eq!(lines[1], "FRU 0 — Primary FRU (BMC)");
    let (run, lines) = run.advance(Event::Reply(Err("timeout".to_string())));
    assert_eq!(lines[0], "  unavailable: Get FRU Area Info failed: timeout");
    assert_eq!(
        lines[2..],
        [
            "Detected devices",
            "────────────────",
            "  KIND             ID/ADDRESS  NAME         LOCATION",
            "  Logical FRU      0           Primary FRU  BMC",
            "  Mgmt controller  —           BMC          SDR",
            "",
        ]
    );
    assert!(matches!(run.action(), Action::Finish(Ok(()))));
}

#[test]
fn exports_a_selected_image() {
    let args = InventoryArgs { fru_id: Some(9), raw: Some("fru.bin".to_string()) };
    let run = InventoryRun::new(args, false);
    let (run, _) = run.advance(Event::DeviceId(Ok(device())));
    let mut data = vec![0xFF, 0xFF];
    data.extend_from_slice(&framed(1, 0xC0, &[]));
    let (run, lines) = run.advance(Event::Reply(reply(&data)));
    assert_eq!(
        lines[1],
        "FRU 9 — Explicitly selected FRU (BMC (not listed in SDR))"
    );
    let (run, _) = run.advance(Event::Reply(reply(&[2, 0])));
    let (run, _) = run.advance(Event::Reply(reply(&[2, 0xAA, 0xBB])));
    assert!(matches!(run.action(), Action::Export(data) if data == [0xAA, 0xBB]));
    let (run, lines) = run.advance(Event::Exported(Ok(())));
    assert_eq!(lines[0], "OK: exported 2 bytes to fru.bin");
    assert_eq!(lines[1], "  present but no decodable fields");
    assert!(matches!(run.action(), Action::Finish(Ok(()))));
}

#[test]
fn a_raw_export_needs_one_device() {
    let args = InventoryArgs { fru_id: None, raw: Some("fru.bin".to_string()) };
    let run = InventoryRun::new(args, false);
    let (run, _) = run.advance(Event::DeviceId(Ok(device())));
    let mut data = vec![2, 0];
    let mut psu = vec![0u8; 10];
    psu[0] = 0x20;
    psu[1] = 3;
    psu.push(0xC0);
    data.extend_from_slice(&framed(1, 0x11, &psu));
    let (run, _) = run.advance(Event::Reply(reply(&data)));
    let mut last = vec![0xFF, 0xFF];
    last.extend_from_slice(&framed(2, 0xC0, &[]));
    let (run, _) = run.advance(Event::Reply(reply(&last)));
    assert!(matches!(
        run.action(),
        Action::Finish(Err(e)) if e == "raw export requires a single selected FRU"
    ));
    assert_eq!(vendor_text(0x123456), "0x123456");
}

#[test]
fn prints_fields_that_have_text() {
    let lines = print_fru(&parse_image(&image(), false), false);
    assert_eq!(
        lines,
        vec![
            "  Product manufacturer    ACME",
            "  Product name            X-1",
        ]
    );
}

#[test]
fn every_locator_is_recognized() {
    for device in 0..=0xFFu8 {
        let record = fru_locator(1, 0x20, device, 0, b"X");
        let RecordContents::FruDeviceLocator(locator) = record.contents else {
            panic!("expected a locator");
        };
        let expected = if device >= 0x80 {
            LocatorDevice::Physical(device / 2)
        } else {
            LocatorDevice::Logical(device)
        };
        assert_eq!(locator_device(&locator.fru_device), Some(expected));
    }
}

#[test]
fn a_version_alone_is_a_usable_field() {
    let version = Fru {
        product: ProductInfo { version: Some("1.0".to_string()), ..Default::default() },
        ..Default::default()
    };
    assert!(!version.is_empty());
    assert_eq!(print_fru(&version, false), vec!["  Version                 1.0"]);
}

#[test]
fn empty_texts_are_no_usable_fields() {
    let blank = Fru {
        product: ProductInfo { serial: Some(String::new()), ..Default::default() },
        ..Default::default()
    };
    assert!(blank.is_empty());
    assert_eq!(print_fru(&blank, false), vec!["  present but no decodable fields"]);
    // A product area whose fields all have length zero.
    let mut image = vec![0x01, 0, 0, 0, 1, 0, 0, 0];
    image.extend_from_slice(&[0x01, 1, 25, 0xC0, 0xC0, 0xC0, 0xC1, 0]);
    assert!(parse_image(&image, false).is_empty());
}

#[test]
fn reads_a_range_however_it_is_served() {
    let device: Vec<u8> = (0..100).collect();
    for portion in [1, 3, 16] {
        let mut read = RangeRead::new(0, None, 10, 50, 1);
        while let Some(request) = read.request() {
            let at = request.data[1] as usize;
            let n = portion.min(request.data[3] as usize);
            let mut data = vec![n as u8];
            data.extend_from_slice(&device[at..at + n]);
            read = read.advance(reply(&data));
        }
        assert_eq!(read.into_bytes(), device[10..60]);
    }
}
