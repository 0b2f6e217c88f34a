//! Requests, and the walk over the SDR repository.

use ipmicfg::conn::{
    check, parse_sdr_response, sdr_record_id_matches, sdr_request, Response, SdrScan,
};
use ipmicfg::sdr::{
    is_decodable, EventReadingTypeCodes, Record, RecordContents, SensorKey,
};

fn reply(cc: u8, data: &[u8]) -> Result<Response, String> {
    Ok(Response { cc, data: data.to_vec() })
}

fn framed(id: u16, ty: u8, body: &[u8]) -> Vec<u8> {
    let mut data = vec![id as u8, (id >> 8) as u8, 0x51, ty, body.len() as u8];
    data.extend_from_slice(body);
    data
}

fn with_next(next: u16, data: &[u8]) -> Vec<u8> {
    let mut all = vec![next as u8, (next >> 8) as u8];
    all.extend_from_slice(data);
    all
}

#[test]
fn builds_get_sdr_request() {
    assert_eq!(
        sdr_request(0x1234, 0x5678, 5, 32),
        [0x34, 0x12, 0x78, 0x56, 5, 32]
    );
}

#[test]
fn separates_next_record_id_from_sdr_data() {
    let response = parse_sdr_response(1, &[2, 0, 1, 0, 0x51, 1, 0x3A]).unwrap();
    assert_eq!(response.next_id, 2);
    assert_eq!(response.data, [1, 0, 0x51, 1, 0x3A]);
}

#[test]
fn first_record_selector_accepts_concrete_record_id() {
    assert!(sdr_record_id_matches(0, 1));
    assert!(sdr_record_id_matches(2, 2));
    assert!(!sdr_record_id_matches(2, 3));
}

#[test]
fn short_sdr_responses_are_rejected() {
    assert_eq!(
        parse_sdr_response(0x1F, &[1]).unwrap_err(),
        "Get SDR 0x001F returned a short response"
    );
}

#[test]
fn completion_codes_are_checked() {
    assert_eq!(check(0, "Set"), Ok(()));
    assert_eq!(check(0xD4, "Set"), Err("Set: completion code 0xD4".to_string()));
}

#[test]
fn decodes_sensor_records() {
    let mut body = vec![0u8; 12];
    body[0] = 0x41;
    body[1] = 0x73;
    body[2] = 0x10;
    body[5] = 0x0F;
    body[6] = 0x6F;
    body[11] = 0xC4;
    body.extend_from_slice(b"BIOS");
    let record = Record::parse(&framed(0x0102, 0x03, &body)).unwrap();
    assert_eq!(record.id, 0x0102);
    let RecordContents::EventOnlySensor(sensor) = record.contents else {
        panic!("expected an event-only sensor");
    };
    assert_eq!(sensor.name, "BIOS");
    assert_eq!(sensor.ty, 0x0F);
    assert_eq!(sensor.event_code, EventReadingTypeCodes::SensorSpecific);
    assert_eq!(
        sensor.key,
        SensorKey { owner_id: 0x41, owner_channel: 7, owner_lun: 3, sensor_number: 0x10 }
    );
}

#[test]
fn decodes_locators() {
    let mut body = vec![0u8; 10];
    body[0] = 0x20;
    body[1] = 0x03;
    body[2] = 0x10;
    body[3] = 0x07;
    body.push(0xC3);
    body.extend_from_slice(b"PSU");
    let record = Record::parse(&framed(1, 0x11, &body)).unwrap();
    let RecordContents::FruDeviceLocator(locator) = record.contents else {
        panic!("expected a FRU locator");
    };
    assert_eq!(locator.device_access_address, 0x10);
    assert_eq!(
        locator.fru_device,
        "Logical(LogicalFruDevice { fru_device_id: 3 })"
    );
    assert_eq!((locator.lun, locator.channel_number), (2, 7));
    assert_eq!(locator.name, "PSU");

    let mut mc = vec![0u8; 10];
    mc.push(0xC3);
    mc.extend_from_slice(b"BMC");
    assert!(matches!(
        Record::parse(&framed(1, 0x12, &mc)).unwrap().contents,
        RecordContents::McDeviceLocator(name) if name == "BMC"
    ));
    assert!(matches!(
        Record::parse(&framed(1, 0x10, &mc)).unwrap().contents,
        RecordContents::GenericDeviceLocator(name) if name == "BMC"
    ));
    assert!(matches!(
        Record::parse(&framed(1, 0xC0, &mc)).unwrap().contents,
        RecordContents::Unknown
    ));
}

#[test]
fn record_errors_are_reported() {
    assert!(matches!(Record::parse(&[1, 0]), Err(e) if e == "NotEnoughData"));
    assert!(matches!(Record::parse(&[1, 0, 0x51, 0xC0, 9]), Err(e) if e == "IncorrectRecordLength"));
}

#[test]
fn tells_records_that_cannot_be_decoded() {
    assert!(!is_decodable(&framed(1, 0x01, &[0u8; 15])));
    assert!(!is_decodable(&framed(1, 0x01, &[0u8; 17])));
    assert!(!is_decodable(&framed(1, 0x01, &[0u8; 42])));
    assert!(is_decodable(&framed(1, 0x01, &[0u8; 16])));
    assert!(!is_decodable(&framed(1, 0x02, &[0u8; 26])));
    assert!(!is_decodable(&framed(1, 0x11, &[0u8; 9])));
    assert!(is_decodable(&framed(1, 0x11, &[0u8; 11])));
    let mut reserved = vec![0u8; 27];
    reserved[18] = 0x20;
    assert!(!is_decodable(&framed(1, 0x02, &reserved)));
    // An invalid key is reported before the record is read further.
    let mut no_sensor = vec![0u8; 42];
    no_sensor[2] = 0xFF;
    assert!(is_decodable(&framed(1, 0x01, &no_sensor)));
    assert!(matches!(
        Record::parse(&framed(1, 0x01, &no_sensor)),
        Err(e) if e == "InvalidSensorNumber"
    ));
}

#[test]
fn walks_whole_records() {
    let scan = SdrScan::new();
    assert_eq!(scan.request().unwrap().data, [0, 0, 0, 0, 0, 0xFF]);
    let scan = scan.advance(reply(0, &with_next(2, &framed(1, 0xC0, &[9]))));
    assert_eq!(scan.request().unwrap().data, [0, 0, 2, 0, 0, 0xFF]);
    let scan = scan.advance(reply(0, &with_next(0xFFFF, &framed(2, 0xC0, &[]))));
    assert!(scan.request().is_none());
    assert!(scan.error().is_none());
    assert_eq!(scan.into_records().len(), 2);
}

#[test]
fn reads_records_in_pieces_when_asked_to() {
    let record = framed(1, 0xC0, &[7u8; 40]);
    let scan = SdrScan::new().advance(reply(0xCA, &[]));
    let request = scan.request().unwrap();
    assert_eq!((request.cmd, request.data.len()), (0x22, 0));
    let scan = scan.advance(reply(0, &[0x34, 0x12]));
    assert_eq!(scan.request().unwrap().data, [0x34, 0x12, 0, 0, 0, 5]);
    let scan = scan.advance(reply(0, &with_next(0xFFFF, &record[..5])));
    assert_eq!(scan.request().unwrap().data, [0x34, 0x12, 0, 0, 5, 32]);
    // The piece is too large for this controller: half of it is asked for.
    let scan = scan.advance(reply(0xCA, &[]));
    assert_eq!(scan.request().unwrap().data, [0x34, 0x12, 0, 0, 5, 16]);
    let scan = scan.advance(reply(0, &with_next(0xFFFF, &record[5..21])));
    assert_eq!(scan.request().unwrap().data[4..], [21, 16]);
    let scan = scan.advance(reply(0, &with_next(0xFFFF, &record[21..37])));
    assert_eq!(scan.request().unwrap().data[4..], [37, 8]);
    let scan = scan.advance(reply(0, &with_next(0xFFFF, &record[37..])));
    assert!(scan.request().is_none());
    assert_eq!(scan.into_records().len(), 1);
}

#[test]
fn walk_errors_are_reported() {
    let error = |scan: SdrScan| scan.error().unwrap();
    assert_eq!(
        error(SdrScan::new().advance(Err("timeout".to_string()))),
        "Get SDR 0x0000 failed: timeout"
    );
    assert_eq!(
        error(SdrScan::new().advance(reply(0xC5, &[]))),
        "Get SDR 0x0000 failed: completion code 0xC5"
    );
    let again = SdrScan::new().advance(reply(0, &with_next(0, &framed(1, 0xC0, &[]))));
    assert_eq!(error(again), "SDR repository cycle detected at record 0x0000");
    let other = SdrScan::new()
        .advance(reply(0, &with_next(2, &framed(1, 0xC0, &[]))))
        .advance(reply(0, &with_next(3, &framed(9, 0xC0, &[]))));
    assert_eq!(
        error(other),
        "SDR record ID mismatch: requested 0x0002, received 0x0009"
    );
    assert_eq!(
        error(SdrScan::new().advance(reply(0, &[2, 0, 1]))),
        "failed to parse SDR record 0x0000: NotEnoughData"
    );
    let reserve = || SdrScan::new().advance(reply(0xCA, &[]));
    assert_eq!(
        error(reserve().advance(reply(0, &[1]))),
        "Reserve SDR Repository returned a short response"
    );
    assert_eq!(
        error(reserve().advance(reply(0xC1, &[]))),
        "Reserve SDR Repository failed: completion code 0xC1"
    );
    let header = || reserve().advance(reply(0, &[1, 0]));
    assert_eq!(
        error(header().advance(reply(0, &[2, 0, 1]))),
        "Get SDR 0x0000 returned 1 header bytes, expected 5"
    );
    assert_eq!(
        error(header().advance(Err("lost".to_string()))),
        "Get SDR 0x0000 at offset 0 failed: lost"
    );
    let body = || header().advance(reply(0, &with_next(2, &framed(1, 0xC0, &[1, 2, 3])[..5])));
    assert_eq!(
        error(body().advance(reply(0, &[3, 0, 1]))),
        "SDR repository changed while reading record 0x0000"
    );
    assert_eq!(
        error(body().advance(reply(0, &[2, 0]))),
        "Get SDR 0x0000 returned no data at offset 5"
    );
}

#[test]
fn stops_at_an_undecodable_record() {
    let scan = SdrScan::new().advance(reply(0, &with_next(2, &framed(1, 0x11, &[0u8; 9]))));
    assert!(scan.is_undecodable());
    assert!(scan.request().is_none());
}

#[test]
fn collects_the_repository_however_it_is_served() {
    let records = [
        framed(7, 0xC0, &[1u8; 60]),
        framed(8, 0xC0, &[]),
        framed(9, 0xC0, &[2u8; 200]),
    ];
    // The most bytes that the controller returns at once, and how many fewer
    // than requested it returns.
    for (limit, fewer) in [(255, 0), (254, 0), (32, 0), (20, 0), (5, 0), (32, 3)] {
        let mut scan = SdrScan::new();
        let mut steps = 0;
        while let Some(request) = scan.request() {
            steps += 1;
            assert!(steps < 1000);
            if request.cmd == 0x22 {
                scan = scan.advance(reply(0, &[1, 0]));
                continue;
            }
            let id = u16::from_le_bytes([request.data[2], request.data[3]]);
            let k = records
                .iter()
                .position(|record| id == id_of(record))
                .unwrap_or(0);
            let next = if k + 1 < records.len() { id_of(&records[k + 1]) } else { 0xFFFF };
            let (at, count) = (request.data[4] as usize, request.data[5] as usize);
            if count > limit {
                scan = scan.advance(reply(0xCA, &[]));
                continue;
            }
            let served = if at == 0 || count <= fewer { count } else { count - fewer };
            let end = records[k].len().min(at + served);
            scan = scan.advance(reply(0, &with_next(next, &records[k][at..end])));
        }
        assert!(scan.error().is_none());
        let ids: Vec<u16> = scan.into_records().iter().map(|record| record.id).collect();
        assert_eq!(ids, [7, 8, 9]);
    }
}

fn id_of(record: &[u8]) -> u16 {
    u16::from_le_bytes([record[0], record[1]])
}
