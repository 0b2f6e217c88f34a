//! Entries of the System Event Log.

use ipmi_rs::storage::Timestamp;

use ipmicfg::cli::{SelArgs, SelSeverity};
use ipmicfg::cmd::fujitsu::{DecodedSelEntry, Severity};
use ipmicfg::cmd::sel::{
    dell_oem_diagnostic_description, describe_entry, display_described, display_entry_description,
    displayed_severity, entry_description, entry_id, entry_sensor, entry_severity, entry_timestamp,
    health_summary, matches_entry, oem_dump, oem_text_group, parse_time, print_entries,
    sensor_names, severity_from_description, severity_of_described, should_decode_oem, strip,
    OemDecodedEntries, RenderContext, SensorNames,
};
use ipmicfg::event::{
    swap_event_data_selectors, Entry, EventData, EventData2Type, EventData3Type, EventDirection,
};
use ipmicfg::sdr::Record;

fn oem(id: u16, data: [u8; 13]) -> Entry {
    Entry::OemNotTimestamped { record_id: id, ty: 0xF0, data }
}

fn system_event(direction: EventDirection, event_type: u8, offset: u8) -> Entry {
    Entry::System {
        record_id: 1,
        timestamp: Timestamp::from(1_700_000_000).to_string(),
        sensor_type: 0x01,
        sensor_number: 1,
        event_direction: direction,
        event_type,
        event_data: EventData::parse(&[offset, 0xFF, 0xFF]),
    }
}

fn no_filters() -> SelArgs {
    SelArgs {
        action: None,
        raw: false,
        since: None,
        until: None,
        sensor: None,
        severity: None,
        limit: None,
        follow: false,
        no_oem_decode: false,
    }
}

#[test]
fn reassembles_license_message() {
    // Exact bytes captured from the BMC SEL.
    let entries = vec![
        oem(0x00FE, *b"\x20\x00License exp"),
        oem(0x00FF, *b"\x20\x01ired, shutt"),
        oem(0x0100, *b"\x20\x02ing down\x00\x00\x00"),
    ];
    let g = oem_text_group(&entries).expect("should group");
    assert_eq!(g.count, 3);
    assert_eq!(g.ty, 0xF0);
    assert_eq!(g.first_id, 0x00FE);
    assert_eq!(g.text, "License expired, shutting down");
}

#[test]
fn requires_sequence_to_start_at_zero() {
    let entries = vec![oem(0x0001, *b"\x20\x01ired, shutt")];
    assert!(oem_text_group(&entries).is_none());
}

#[test]
fn rejects_binary_payload() {
    let entries = vec![oem(
        0x0001,
        [0x20, 0x00, 0xDE, 0xAD, 0xBE, 0xEF, 1, 2, 3, 4, 5, 6, 7],
    )];
    assert!(oem_text_group(&entries).is_none());
}

#[test]
fn stops_at_sequence_gap() {
    // seq 0 then seq 2 — only the first chunk should be consumed.
    let entries = vec![
        oem(0x0001, *b"\x20\x00abcdefghijk"),
        oem(0x0002, *b"\x20\x02xxxxxxxxxxx"),
    ];
    let g = oem_text_group(&entries).expect("first chunk groups alone");
    assert_eq!(g.count, 1);
    assert_eq!(g.text, "abcdefghijk");
}

#[test]
fn infers_threshold_severity() {
    assert_eq!(
        entry_severity(&system_event(EventDirection::Assert, 0x01, 0)),
        SelSeverity::Warning
    );
    assert_eq!(
        entry_severity(&system_event(EventDirection::Assert, 0x01, 2)),
        SelSeverity::Critical
    );
    assert_eq!(
        entry_severity(&system_event(EventDirection::Deassert, 0x01, 2)),
        SelSeverity::Normal
    );
}

#[test]
fn decodes_standard_system_firmware_progress_extension() {
    let mut starting_os = system_event(EventDirection::Assert, 0x6F, 0x02);
    // Selector bits have already been normalized: Data 2 is a sensor-specific
    // extension and carries progress code 0x13.
    if let Entry::System { sensor_type, event_data, .. } = &mut starting_os {
        *sensor_type = 0x0F;
        *event_data = EventData::parse(&[0x32, 0x13, 0xFF]);
    }
    assert_eq!(
        entry_description(&starting_os),
        "Starting operating system boot process"
    );
    assert_eq!(entry_severity(&starting_os), SelSeverity::Normal);

    if let Entry::System { event_data, .. } = &mut starting_os {
        *event_data = EventData::parse(&[0x32, 0x00, 0xFF]);
    }
    assert_eq!(
        entry_description(&starting_os),
        "Firmware progress checkpoint (detail not supplied by firmware)"
    );
}

#[test]
fn distinguishes_power_down_assertion_and_clear() {
    let mut asserted = system_event(EventDirection::Assert, 0x6F, 0x00);
    if let Entry::System { sensor_type, .. } = &mut asserted {
        *sensor_type = 0x09;
    }
    let mut cleared = asserted.clone();
    if let Entry::System { event_direction, .. } = &mut cleared {
        *event_direction = EventDirection::Deassert;
    }

    assert_eq!(
        entry_description(&asserted),
        "Power off / power down initiated"
    );
    assert_eq!(
        entry_description(&cleared),
        "Power off / power down condition cleared"
    );
    assert_eq!(entry_severity(&asserted), SelSeverity::Normal);
    assert_eq!(entry_severity(&cleared), SelSeverity::Normal);
}

#[test]
fn normalizes_ipmi_event_data_selector_bit_order() {
    assert_eq!(swap_event_data_selectors(0xC2), 0x32);
    assert_eq!(swap_event_data_selectors(0x32), 0xC2);
    assert_eq!(swap_event_data_selectors(0xA0), 0xA0);
}

#[test]
fn swapping_selectors_twice_changes_nothing() {
    for value in 0..=255u8 {
        assert_eq!(
            swap_event_data_selectors(swap_event_data_selectors(value)),
            value
        );
    }
}

#[test]
fn selects_only_oem_defined_system_events_for_firmware_decoding() {
    let standard = system_event(EventDirection::Assert, 0x6F, 0);
    assert!(!should_decode_oem(&standard));

    let mut oem_sensor = system_event(EventDirection::Assert, 0x6F, 0);
    let Entry::System { sensor_type, .. } = &mut oem_sensor else {
        unreachable!();
    };
    *sensor_type = 0xE1;
    assert!(should_decode_oem(&oem_sensor));

    let oem_event = system_event(EventDirection::Assert, 0x7F, 6);
    assert!(should_decode_oem(&oem_event));
}

#[test]
fn uses_fujitsu_firmware_severity_when_available() {
    let entry = system_event(EventDirection::Assert, 0x7F, 6);
    let mut decoded = OemDecodedEntries::new();
    decoded.insert(
        1,
        DecodedSelEntry {
            record_id: 1,
            record_type: 2,
            timestamp: 1_700_000_000,
            severity: Severity::Informational,
            css: false,
            text: "BBU relearn required".to_string(),
        },
    );
    assert_eq!(
        displayed_severity(&entry, &decoded, None),
        SelSeverity::Normal
    );
}

#[test]
fn decodes_dell_oem_diagnostic_companion_without_link_tuning_guess() {
    let mut entry = system_event(EventDirection::Assert, 0x72, 0x02);
    if let Entry::System { sensor_type, event_data, .. } = &mut entry {
        *sensor_type = 0xC1;
        *event_data = EventData::parse(&[0xA2, 0x02, 0x00]);
    }

    let description = dell_oem_diagnostic_description(&entry, Some(0x0002A2)).unwrap();
    assert_eq!(
        description,
        "Dell OEM diagnostic data (additional context for hardware failure; data 02 00)"
    );
    assert_eq!(
        displayed_severity(&entry, &OemDecodedEntries::new(), Some(0x0002A2)),
        SelSeverity::Normal
    );
    assert!(dell_oem_diagnostic_description(&entry, None).is_none());
    assert!(dell_oem_diagnostic_description(&entry, Some(0x000157)).is_none());
}

#[test]
fn preserves_undecoded_event_context_without_guessing_severity() {
    let entry = system_event(EventDirection::Assert, 0x6F, 0x0E);
    assert_eq!(entry_severity(&entry), SelSeverity::Unknown);
    let description = display_entry_description(&entry);
    assert!(description.contains("asserted sensor-specific event"));
    assert!(description.contains("offset 0x0E"));
}

#[test]
fn classifies_running_and_oem_crash_text() {
    assert_eq!(
        severity_from_description("transition to Running"),
        Some(SelSeverity::Normal)
    );
    assert_eq!(
        severity_from_description("softlockup: hung tasks"),
        Some(SelSeverity::Critical)
    );
    assert_eq!(severity_from_description("vendor state 42"), None);
}

#[test]
fn sensor_names_are_keyed_by_type_and_number() {
    let mut names = SensorNames::new();
    names.insert((0x01, 7), "Temperature 7".to_string());
    names.insert((0x04, 7), "Fan 7".to_string());
    let entry = system_event(EventDirection::Assert, 0x01, 0);
    let Entry::System { sensor_number, .. } = &entry else {
        unreachable!()
    };
    assert_eq!(*sensor_number, 1);
    names.insert((0x01, 1), "CPU Temp".to_string());
    assert!(entry_sensor(&entry, &names).starts_with("CPU Temp"));
}

#[test]
fn parses_rfc3339_and_unix_times() {
    assert_eq!(parse_time("1700000000"), Ok(1_700_000_000));
    assert_eq!(parse_time("2023-11-14T22:13:20Z"), Ok(1_700_000_000));
    assert!(parse_time("last Tuesday").is_err());
}

#[test]
fn reads_offsets_and_signed_times() {
    assert_eq!(parse_time("2023-11-14T23:13:20+01:00"), Ok(1_700_000_000));
    assert_eq!(parse_time("-5"), Ok(-5));
    assert_eq!(parse_time("+7"), Ok(7));
    assert_eq!(
        parse_time("soon"),
        Err("invalid time 'soon'; use RFC 3339 or a Unix timestamp".to_string())
    );
    assert!(parse_time("9223372036854775808").is_err());
    assert_eq!(parse_time("-9223372036854775808"), Ok(i64::MIN));
}

#[test]
fn describes_events_by_the_standard_tables() {
    let mut entry = system_event(EventDirection::Assert, 0x6F, 0x01);
    if let Entry::System { sensor_type, .. } = &mut entry {
        *sensor_type = 0x07;
    }
    assert_eq!(entry_description(&entry), "Thermal Trip");
    assert_eq!(entry_severity(&entry), SelSeverity::Critical);

    let running = system_event(EventDirection::Assert, 0x0A, 0x00);
    assert_eq!(entry_description(&running), "transition to Running");
    assert_eq!(entry_severity(&running), SelSeverity::Normal);
}

#[test]
fn descriptions_and_severities_follow_a_given_text() {
    let entry = system_event(EventDirection::Assert, 0x03, 0x00);
    assert_eq!(describe_entry(&entry, "State Deasserted"), "State Deasserted");
    assert_eq!(
        severity_of_described(&entry, "Redundancy Lost"),
        SelSeverity::Critical
    );
    assert_eq!(
        severity_of_described(&entry, "nothing special"),
        SelSeverity::Warning
    );
    assert_eq!(severity_of_described(&entry, ""), SelSeverity::Unknown);
    assert_eq!(
        display_described(&entry, ""),
        "asserted generic discrete event (type 0x03, offset 0x00)"
    );
    assert_eq!(describe_entry(&oem(9, [0; 13]), "text"), "");
    assert_eq!(display_described(&oem(9, [0; 13]), ""), "undecoded OEM record");
}

#[test]
fn shows_event_data_of_undescribed_events() {
    let mut entry = system_event(EventDirection::Deassert, 0x7F, 0x00);
    if let Entry::System { event_data, .. } = &mut entry {
        // Normalized: bits 5:4 select byte 2, bits 7:6 byte 3.
        *event_data = EventData::parse(&[0x95, 0x42, 0x50]);
    }
    assert_eq!(
        display_entry_description(&entry),
        "deasserted OEM event (type 0x7F, offset 0x05; reading=66, oem3=0x50)"
    );
}

#[test]
fn event_data_is_read_in_normalized_form() {
    let data = EventData::parse(&[0x32, 0x13, 0xFF]);
    assert_eq!(data.offset, 2);
    assert_eq!(data.data2_type, EventData2Type::SensorSpecific(0x13));
    assert_eq!(data.data3_type, EventData3Type::Unspecified);
    let both = EventData::parse(&[0x51, 0x10, 0x20]);
    assert_eq!(both.data2_type, EventData2Type::TriggerReading(0x10));
    assert_eq!(both.data3_type, EventData3Type::TriggerThreshold(0x20));
    assert_eq!(both.text(), "reading=16, threshold=32");
    assert_eq!(EventData::parse(&[0x3F, 0xFF, 0xFF]).text(), "");
}

#[test]
fn decodes_records() {
    let mut raw = [0u8; 16];
    raw[0] = 0x34;
    raw[1] = 0x12;
    raw[2] = 0x02;
    raw[3..7].copy_from_slice(&1_700_000_000u32.to_le_bytes());
    raw[10] = 0x07;
    raw[11] = 0x55;
    raw[12] = 0x80 | 0x6F;
    raw[13] = 0x01;
    raw[14] = 0xFF;
    raw[15] = 0xFF;
    let entry = Entry::parse(&raw).unwrap();
    assert_eq!(entry_id(&entry), 0x1234);
    assert_eq!(entry_timestamp(&entry), Some(1_700_000_000));
    let Entry::System { timestamp, sensor_type, sensor_number, event_direction, event_type, .. } =
        entry
    else {
        panic!("expected a system event");
    };
    assert_eq!(timestamp, "2023-11-14T22:13:20Z");
    assert_eq!((sensor_type, sensor_number, event_type), (0x07, 0x55, 0x6F));
    assert_eq!(event_direction, EventDirection::Deassert);

    raw[2] = 0xC1;
    raw[7..10].copy_from_slice(&[0x80, 0x28, 0x00]);
    let Entry::OemTimestamped { ty, manufacturer_id, data, .. } = Entry::parse(&raw).unwrap()
    else {
        panic!("expected a timestamped OEM record");
    };
    assert_eq!((ty, manufacturer_id), (0xC1, 0x2880));
    assert_eq!(data, [0x07, 0x55, 0xEF, 0x01, 0xFF, 0xFF]);

    raw[2] = 0xE0;
    let Entry::OemNotTimestamped { data, .. } = Entry::parse(&raw).unwrap() else {
        panic!("expected an OEM record without timestamp");
    };
    assert_eq!(data[..], raw[3..]);
}

#[test]
fn rejects_undecodable_records() {
    let mut raw = [0u8; 16];
    raw[2] = 0x05;
    assert_eq!(Entry::parse(&raw).unwrap_err(), "UnknownRecordType(5)");
    raw[2] = 0x02;
    raw[8] = 0xC0;
    assert_eq!(Entry::parse(&raw).unwrap_err(), "InvalidChannel(12)");
}

#[test]
fn a_zero_timestamp_is_unknown() {
    let mut raw = [0u8; 16];
    raw[2] = 0x02;
    let entry = Entry::parse(&raw).unwrap();
    assert_eq!(entry_timestamp(&entry), None);
    let Entry::System { timestamp, .. } = entry else {
        panic!("expected a system event");
    };
    assert_eq!(timestamp, "Unknown");
}

fn listing(entries: Vec<Entry>, args: &SelArgs, since: Option<i64>, until: Option<i64>) -> Vec<String> {
    let decoded = OemDecodedEntries::new();
    let names = SensorNames::new();
    let render = RenderContext {
        decoded: &decoded,
        manufacturer_id: None,
        args,
        names: &names,
        since,
        until,
        color: false,
    };
    print_entries(entries, &render, Some((3, true)))
}

#[test]
fn lists_entries_with_collapsed_text() {
    let entries = vec![
        system_event(EventDirection::Assert, 0x01, 2),
        oem(0x00FE, *b"\x20\x00kernel pani"),
        oem(0x00FF, *b"\x20\x01c\x00\x00\x00\x00\x00\x00\x00\x00\x00\x00"),
    ];
    let lines = listing(entries, &no_filters(), None, None);
    assert_eq!(
        lines,
        vec![
            "",
            "System Event Log (3 entries)",
            "────────────────────────────",
            "  ! SEL overflow flag set — some events were lost",
            "      ID  TIMESTAMP             SEVERITY  SENSOR          EVENT                     ",
            "  0x0001  2023-11-14T22:13:20Z  critical  Temperature #1  Lower Critical - going low",
            "  0x00FE  —                     critical  OEM 0xF0 ×2     \"kernel panic\"",
            "",
        ]
    );
}

#[test]
fn raw_listing_keeps_single_records() {
    let mut args = no_filters();
    args.raw = true;
    let lines = listing(vec![oem(0x0010, *b"\x20\x00abcdefghijk")], &args, None, None);
    assert_eq!(
        lines[lines.len() - 2],
        "  0x0010  —          unknown   OEM 0xF0  20 00 61 62 63 64 65 66 67 68 69 6A 6B  | .abcdefghijk|"
    );
}

#[test]
fn filters_and_limits_entries() {
    let first = system_event(EventDirection::Assert, 0x01, 0);
    let mut second = system_event(EventDirection::Assert, 0x01, 2);
    if let Entry::System { record_id, .. } = &mut second {
        *record_id = 2;
    }
    let mut args = no_filters();
    args.severity = Some(SelSeverity::Critical);
    let lines = listing(vec![first.clone(), second.clone()], &args, None, None);
    assert!(lines.iter().all(|line| !line.contains("0x0001")));
    assert!(lines.iter().any(|line| line.contains("0x0002")));

    let mut newest = no_filters();
    newest.limit = Some(1);
    let lines = listing(vec![first.clone(), second.clone()], &newest, None, None);
    assert!(lines.iter().all(|line| !line.contains("0x0001")));

    let late = listing(
        vec![first.clone(), second.clone()],
        &no_filters(),
        Some(1_700_000_001),
        None,
    );
    assert!(late.contains(&"  no entries matched".to_string()));

    let mut sensor = no_filters();
    sensor.sensor = Some("TEMPER".to_string());
    let found = listing(vec![first, second], &sensor, None, Some(1_700_000_000));
    assert!(found.iter().any(|line| line.contains("0x0001")));
}

#[test]
fn a_filter_matches_translated_text() {
    let entry = system_event(EventDirection::Assert, 0x7F, 6);
    let mut decoded = OemDecodedEntries::new();
    decoded.insert(
        1,
        DecodedSelEntry {
            record_id: 1,
            record_type: 2,
            timestamp: 0,
            severity: Severity::Minor,
            css: true,
            text: "PSU 2 removed".to_string(),
        },
    );
    let names = SensorNames::new();
    let mut args = no_filters();
    args.sensor = Some("psu 2".to_string());
    let render = RenderContext {
        decoded: &decoded,
        manufacturer_id: Some(0x2880),
        args: &args,
        names: &names,
        since: None,
        until: None,
        color: false,
    };
    assert!(matches_entry(&entry, &render));
    let lines = print_entries(vec![entry], &render, None);
    assert_eq!(lines[1], "New SEL entries");
    assert!(lines[4].ends_with("PSU 2 removed (CSS component)"));
    assert!(lines[4].contains("warning"));
}

#[test]
fn summarizes_critical_entries() {
    let mut entries = Vec::new();
    for id in 1..=5u16 {
        let mut entry = system_event(EventDirection::Assert, 0x01, 2);
        if let Entry::System { record_id, .. } = &mut entry {
            *record_id = id;
        }
        entries.push(entry);
    }
    let summary = health_summary(5, false, &entries, 2);
    assert_eq!(summary.critical, 5);
    assert_eq!(
        summary.recent_critical,
        vec![
            "0x0004: Lower Critical - going low".to_string(),
            "0x0005: Lower Critical - going low".to_string(),
        ]
    );
}

#[test]
fn names_come_from_sensor_records() {
    let data = compact_record(7, 0x01, 0x09, b"Inlet");
    let record = Record::parse(&data).unwrap();
    let names = sensor_names(&vec![record]);
    assert_eq!(names.get((0x01, 9)).map(String::as_str), Some("Inlet"));
    assert!(names.get((0x02, 9)).is_none());
}

fn compact_record(id: u16, ty: u8, number: u8, name: &[u8]) -> Vec<u8> {
    let mut body = vec![0u8; 26];
    body[0] = 0x20;
    body[2] = number;
    body[7] = ty;
    body[8] = 0x6F;
    body.push(0xC0 | name.len() as u8);
    body.extend_from_slice(name);
    let mut data = vec![id as u8, (id >> 8) as u8, 0x51, 0x02, body.len() as u8];
    data.extend_from_slice(&body);
    data
}

#[test]
fn dumps_oem_bytes() {
    assert_eq!(oem_dump(&[0x41, 0x00, 0x7E]), "41 00 7E  |A.~|");
}

#[test]
fn strips_dim_escapes() {
    assert_eq!(strip("\x1b[2mabc\x1b[0m d"), "abc d");
    assert_eq!(strip("plain"), "plain");
}
