//! Sensor health and the sweep over the sensors.

use ipmicfg::cli::{SensorState, SensorsArgs};
use ipmicfg::cmd::sensor_run::{print_counts, sensor_count, SensorRun, SensorSweep};
use ipmicfg::cmd::sensors::{
    classify_threshold_bits, contains_case_insensitive, discrete_description,
    discrete_state_status, event_code_value, has_unknown_semantics, is_threshold, matches_state,
    matches_text, raw_reading_of, raw_thresholds_of, read_analog, read_discrete, read_thresholds,
    sensor_request, worst, Counts,
};
use ipmicfg::conn::{Recipient, Response};
use ipmicfg::dialog::{Action, Event};
use ipmicfg::sdr::{EventReadingTypeCodes, Record, SensorKey};
use ipmicfg::ui::Status;

fn reply(data: &[u8]) -> Result<Response, String> {
    Ok(Response { cc: 0, data: data.to_vec() })
}

fn all() -> SensorsArgs {
    SensorsArgs {
        types: vec![],
        name: vec![],
        state: vec![],
        all: false,
        thresholds: false,
        watch: None,
        verbose: false,
    }
}

fn framed(id: u16, ty: u8, body: &[u8]) -> Vec<u8> {
    let mut data = vec![id as u8, (id >> 8) as u8, 0x51, ty, body.len() as u8];
    data.extend_from_slice(body);
    data
}

/// A temperature sensor that reads degrees C, one per count.
fn full_record(id: u16, number: u8, event_code: u8, units: u8, name: &[u8]) -> Vec<u8> {
    let mut body = vec![0u8; 42];
    body[0] = 0x20;
    body[2] = number;
    body[7] = 0x01;
    body[8] = event_code;
    body[15] = units;
    body[16] = 0x01;
    body[19] = 1; // M = 1
    body.push(0xC0 | name.len() as u8);
    body.extend_from_slice(name);
    framed(id, 0x01, &body)
}

fn compact_record(id: u16, ty: u8, number: u8, event_code: u8, name: &[u8]) -> Vec<u8> {
    let mut body = vec![0u8; 26];
    body[0] = 0x20;
    body[2] = number;
    body[7] = ty;
    body[8] = event_code;
    body.push(0xC0 | name.len() as u8);
    body.extend_from_slice(name);
    framed(id, 0x02, &body)
}

#[test]
fn classifies_discrete_descriptions() {
    assert_eq!(discrete_state_status("Power supply failure"), Status::Crit);
    assert_eq!(discrete_state_status("Predictive failure"), Status::Warn);
    assert_eq!(discrete_state_status("Redundancy degraded"), Status::Warn);
    assert_eq!(discrete_state_status("Device Present"), Status::Okay);
    assert_eq!(discrete_state_status("vendor state"), Status::Warn);
}

#[test]
fn worst_status_uses_health_order() {
    assert_eq!(worst(Status::Okay, Status::Warn), Status::Warn);
    assert_eq!(worst(Status::Unknown, Status::Crit), Status::Crit);
    assert_eq!(worst(Status::Warn, Status::Unknown), Status::Warn);
}

#[test]
fn worst_status_does_not_depend_on_order() {
    let all = [Status::Okay, Status::Warn, Status::Crit, Status::Unknown];
    for a in all {
        for b in all {
            assert_eq!(worst(a, b), worst(b, a));
            for c in all {
                assert_eq!(worst(worst(a, b), c), worst(a, worst(b, c)));
            }
        }
    }
}

#[test]
fn threshold_bits_include_lower_critical() {
    assert_eq!(classify_threshold_bits(0b0000_0010), Status::Crit);
    assert_eq!(classify_threshold_bits(0b0000_1000), Status::Warn);
    assert_eq!(classify_threshold_bits(0), Status::Okay);
}

#[test]
fn classifies_records_by_event_reading_type() {
    assert!(is_threshold(&EventReadingTypeCodes::Threshold));
    assert!(!is_threshold(&EventReadingTypeCodes::SensorSpecific));
    assert!(!is_threshold(&EventReadingTypeCodes::Oem(0x70)));
    assert!(has_unknown_semantics(EventReadingTypeCodes::Oem(0x70)));
}

#[test]
fn event_codes_have_their_bytes() {
    assert_eq!(event_code_value(EventReadingTypeCodes::Unspecified), 0);
    assert_eq!(event_code_value(EventReadingTypeCodes::SensorSpecific), 0x6F);
    assert_eq!(event_code_value(EventReadingTypeCodes::DiscreteGeneric(9)), 9);
    assert_eq!(event_code_value(EventReadingTypeCodes::Reserved(0x40)), 0x40);
}

#[test]
fn asks_the_owner_of_a_sensor() {
    let key = SensorKey { owner_id: 0x2C, owner_channel: 7, owner_lun: 1, sensor_number: 9 };
    let request = sensor_request(&key, 0x2D);
    assert_eq!((request.netfn, request.cmd), (0x04, 0x2D));
    assert_eq!(request.data, [9]);
    assert_eq!(
        request.recipient,
        Recipient::BmcOrIpmb { address: 0x2C, channel: 7, lun: 1 }
    );
}

#[test]
fn reads_analog_sensors() {
    let good = reply(&[0x2A, 0xC0, 0x00]);
    assert_eq!(raw_reading_of(&good), Some(0x2A));
    assert_eq!(
        read_analog(&good, Some("42.00 °C".to_string())),
        Ok(("42.00 °C".to_string(), Status::Okay))
    );
    assert_eq!(
        read_analog(&reply(&[0x2A, 0xC0, 0x02]), None),
        Ok(("raw 0x2A".to_string(), Status::Crit))
    );
    let unavailable = reply(&[0x2A, 0xE0, 0x02]);
    assert_eq!(raw_reading_of(&unavailable), None);
    assert_eq!(
        read_analog(&unavailable, None),
        Ok(("n/a".to_string(), Status::Unknown))
    );
    assert_eq!(read_analog(&reply(&[1]), None), Err("short response".to_string()));
    assert_eq!(
        read_analog(&Ok(Response { cc: 0xCB, data: vec![] }), None),
        Err("completion code 0xCB".to_string())
    );
    assert_eq!(
        read_analog(&Err("timeout".to_string()), None),
        Err("sensor command failed: timeout".to_string())
    );
}

#[test]
fn reads_discrete_sensors() {
    // Power supply: presence detected and failure detected.
    let both = reply(&[0, 0xC0, 0x03, 0x80]);
    let (status, text) =
        read_discrete(&both, 0x08, EventReadingTypeCodes::SensorSpecific).unwrap();
    assert_eq!(status, Status::Crit);
    assert_eq!(
        text,
        "Presence detected, Power Supply Failure detected (raw 0x0003)"
    );
    assert_eq!(
        read_discrete(&reply(&[0, 0xC0]), 0x08, EventReadingTypeCodes::SensorSpecific),
        Ok((Status::Okay, "none (raw 0x0000)".to_string()))
    );
    assert_eq!(
        read_discrete(&reply(&[0, 0xE0, 1, 0]), 0x08, EventReadingTypeCodes::SensorSpecific),
        Ok((Status::Unknown, "state unavailable".to_string()))
    );
}

#[test]
fn vendor_states_are_neutral() {
    assert_eq!(
        read_discrete(&reply(&[0, 0xC0, 0x04, 0x01]), 0xC0, EventReadingTypeCodes::Oem(0x70)),
        Ok((
            Status::Unknown,
            "vendor/unspecified state (raw 0x0104)".to_string()
        ))
    );
}

#[test]
fn states_without_text_show_their_offset() {
    assert_eq!(
        discrete_description(0x01, EventReadingTypeCodes::SensorSpecific, 14),
        "offset 14"
    );
    assert_eq!(
        discrete_description(0x09, EventReadingTypeCodes::SensorSpecific, 0),
        "Power off / power down initiated"
    );
}

#[test]
fn reads_thresholds() {
    let data = reply(&[0b01_0010, 1, 2, 3, 4, 5, 6]);
    assert_eq!(raw_thresholds_of(&data), Some(vec![1, 2, 3, 4, 5, 6]));
    let shown: Vec<Option<String>> = (1..=6).map(|n| Some(format!("{n} V"))).collect();
    assert_eq!(read_thresholds(&data, &shown), Ok("LC=2 V  UC=5 V".to_string()));
    assert_eq!(
        read_thresholds(&reply(&[0, 1, 2, 3, 4, 5, 6]), &shown),
        Ok("none configured".to_string())
    );
    assert_eq!(
        read_thresholds(&reply(&[0]), &shown),
        Err("short response".to_string())
    );
}

#[test]
fn filters_by_type_name_and_state() {
    let mut args = all();
    assert!(matches_text(&args, "Fan", "FAN 1"));
    args.types = vec!["temp".to_string(), "fan".to_string()];
    args.name = vec!["cpu".to_string()];
    assert!(matches_text(&args, "Temperature", "CPU1 Temp"));
    assert!(!matches_text(&args, "Temperature", "Inlet"));
    assert!(!matches_text(&args, "Voltage", "CPU1 Vcore"));
    assert!(contains_case_insensitive("PSU", "su"));
    assert!(matches_state(&args, Status::Unknown));
    args.state = vec![SensorState::Critical];
    assert!(matches_state(&args, Status::Crit));
    assert!(!matches_state(&args, Status::Okay));
}

#[test]
fn counts_add_up() {
    let mut counts = Counts::default();
    counts.tally(Status::Okay);
    counts.tally(Status::Crit);
    counts.tally(Status::Crit);
    counts.tally(Status::Unknown);
    assert_eq!(counts.total(), 4);
    assert_eq!(print_counts(counts, false), "  OK    1   WARN  0   CRIT  2    --   1");
}

#[test]
fn sweeps_sensors_and_reports() {
    let records = vec![
        Record::parse(&full_record(1, 1, 0x01, 0x00, b"Inlet")).unwrap(),
        Record::parse(&compact_record(2, 0x08, 2, 0x6F, b"PSU1")).unwrap(),
    ];
    assert_eq!(sensor_count(&records), 2);
    let mut args = all();
    args.all = true;
    let sweep = SensorSweep::new(&args, records);
    assert_eq!(sweep.request(&args).unwrap().data, [1]);
    let (sweep, notes) = sweep.advance(&args, false, reply(&[25, 0xC0, 0x00]));
    assert!(notes.is_empty());
    assert_eq!(sweep.request(&args).unwrap().data, [2]);
    let (sweep, _) = sweep.advance(&args, false, reply(&[0, 0xC0, 0x01, 0x80]));
    assert!(sweep.request(&args).is_none());
    assert_eq!(sweep.counts().total(), 2);
    let lines = sweep.report(&args, false);
    assert_eq!(lines[1], "Sensors");
    assert!(lines[4].starts_with("  Temperature  Inlet"));
    assert!(lines[4].contains("25"));
    assert_eq!(lines[6], "Discrete sensors");
    assert_eq!(
        lines[9],
        "  Power Supply  PSU1    WARN   Presence detected (raw 0x0001)"
    );
}

#[test]
fn a_sensor_without_analog_format_is_shown_raw() {
    let records = vec![Record::parse(&full_record(1, 1, 0x01, 0xC0, b"X")).unwrap()];
    let args = all();
    let sweep = SensorSweep::new(&args, records);
    let (sweep, _) = sweep.advance(&args, false, reply(&[0x1F, 0xC0, 0x00]));
    let lines = sweep.report(&args, false);
    assert!(lines[4].contains("raw 0x1F"));
}

#[test]
fn thresholds_are_read_after_the_reading() {
    let records = vec![Record::parse(&full_record(1, 1, 0x01, 0x00, b"Inlet")).unwrap()];
    let mut args = all();
    args.thresholds = true;
    args.verbose = true;
    let sweep = SensorSweep::new(&args, records);
    assert_eq!(
        sweep.announced(&args, false),
        vec!["debug: reading threshold sensor Temperature / Inlet"]
    );
    let (sweep, _) = sweep.advance(&args, false, reply(&[25, 0xC0, 0x00]));
    assert_eq!(sweep.request(&args).unwrap().cmd, 0x27);
    let (sweep, notes) = sweep.advance(&args, false, reply(&[1]));
    assert_eq!(notes, vec!["warning: Inlet thresholds: short response"]);
    assert!(sweep.report(&args, false)[4].ends_with("n/a"));
}

#[test]
fn converted_values_are_shown_as_given() {
    let records = vec![Record::parse(&full_record(1, 1, 0x01, 0x00, b"Inlet")).unwrap()];
    let args = all();
    let sweep = SensorSweep::new(&args, records);
    let shown = vec![Some("25.00 C".to_string()), None, None, None, None, None];
    let (sweep, _) = sweep.advance_with(&args, false, reply(&[25, 0xC0, 0x08]), shown);
    let lines = sweep.report(&args, false);
    assert_eq!(lines[4], "  Temperature  Inlet   25.00 C  WARN");
}

#[test]
fn unreadable_sensors_are_counted_as_unknown() {
    let records = vec![Record::parse(&compact_record(2, 0x08, 2, 0x6F, b"PSU1")).unwrap()];
    let mut args = all();
    args.verbose = true;
    let sweep = SensorSweep::new(&args, records);
    let (sweep, notes) = sweep.advance(&args, false, Err("timeout".to_string()));
    assert_eq!(notes, vec!["warning: PSU1: sensor command failed: timeout"]);
    assert_eq!(sweep.counts().unknown, 1);
    assert!(sweep
        .report(&args, false)
        .contains(&"  (1 discrete sensors hidden; use --all to show)".to_string()));
}

#[test]
fn runs_the_whole_command() {
    let mut args = all();
    args.watch = Some(5);
    let (run, output) = SensorRun::new(args, false, true);
    assert_eq!(output.err, vec!["Reading SDR repository..."]);
    // One record, then the end of the repository.
    let mut data = vec![0xFF, 0xFF];
    data.extend_from_slice(&compact_record(1, 0x08, 2, 0x6F, b"PSU1"));
    let (run, output) = run.advance(Event::Reply(reply(&data)));
    assert_eq!(
        output.err,
        vec!["Reading 1 sensors (individual BMC timeouts may delay completion)..."]
    );
    let (run, output) = run.advance(Event::Reply(reply(&[0, 0xC0])));
    assert_eq!(
        output.out.last().unwrap(),
        "  refreshing every 5s; press Ctrl-C to stop"
    );
    assert!(matches!(run.action(), Action::Pause { seconds: 5, millis: 0 }));
    let (run, _) = run.advance(Event::Elapsed);
    assert!(matches!(run.action(), Action::Send(_)));
}

#[test]
fn each_threshold_is_converted_from_its_own_value() {
    let records = vec![Record::parse(&full_record(1, 1, 0x01, 0x00, b"Inlet")).unwrap()];
    let mut args = all();
    args.thresholds = true;
    let sweep = SensorSweep::new(&args, records);
    let (sweep, _) = sweep.advance(&args, false, reply(&[25, 0xC0, 0x00]));
    let (sweep, _) = sweep.advance(&args, false, reply(&[0x3F, 11, 12, 13, 14, 15, 16]));
    let line = sweep.report(&args, false)[4].clone();
    let parts = ["LNC=11", "LC=12", "LNR=13", "UNC=14", "UC=15", "UNR=16"];
    assert!(parts.iter().all(|part| line.contains(part)), "{line}");
}
