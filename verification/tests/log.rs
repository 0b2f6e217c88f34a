//! The conversations about the System Event Log, and the overview.

use ipmicfg::cli::SelArgs;
use ipmicfg::cmd::sel_edit::{SelClear, SelDelete};
use ipmicfg::cmd::sel_list::SelList;
use ipmicfg::cmd::sel_walk::{OemDecode, SelScan};
use ipmicfg::cmd::status::StatusRun;
use ipmicfg::conn::Response;
use ipmicfg::dialog::{Action, DeviceId, ErasureProgress, Event, SelInfo};
use ipmicfg::event::Entry;

fn reply(cc: u8, data: &[u8]) -> Result<Response, String> {
    Ok(Response { cc, data: data.to_vec() })
}

fn framed(id: u16, ty: u8, body: &[u8]) -> Vec<u8> {
    let mut data = vec![id as u8, (id >> 8) as u8, 0x51, ty, body.len() as u8];
    data.extend_from_slice(body);
    data
}

/// A Get SEL Entry response: a threshold event that went past lower critical.
fn entry(next: u16, id: u16, sensor_type: u8, event_type: u8) -> Vec<u8> {
    let mut data = vec![next as u8, (next >> 8) as u8];
    let mut raw = [0u8; 16];
    raw[0] = id as u8;
    raw[1] = (id >> 8) as u8;
    raw[2] = 0x02;
    raw[3..7].copy_from_slice(&1_700_000_000u32.to_le_bytes());
    raw[10] = sensor_type;
    raw[11] = 1;
    raw[12] = event_type;
    raw[13] = 0x02;
    raw[14] = 0xFF;
    raw[15] = 0xFF;
    data.extend_from_slice(&raw);
    data
}

fn info(entries: u16) -> SelInfo {
    SelInfo {
        version_maj: 1,
        version_min: 5,
        entries,
        bytes_free: 100,
        overflow: false,
        reserve_supported: true,
        delete_supported: true,
    }
}

fn device(manufacturer_id: u32) -> DeviceId {
    DeviceId {
        device_id: 0x20,
        device_revision: 1,
        major_fw_revision: 1,
        minor_fw_revision: 2,
        major_version: 2,
        minor_version: 0,
        manufacturer_id,
        product_id: 1,
        device_available: true,
        chassis_support: true,
        bridge_support: false,
        fru_inventory_support: false,
        sel_device_support: true,
        sdr_repository_support: false,
        sensor_device_support: true,
    }
}

fn args() -> SelArgs {
    SelArgs {
        action: None,
        raw: false,
        since: None,
        until: None,
        sensor: None,
        severity: None,
        limit: None,
        follow: false,
        no_oem_decode: false,
    }
}

fn finish(action: Action) -> Result<(), String> {
    match action {
        Action::Finish(result) => result,
        other => panic!("expected the end, got {other:?}"),
    }
}

#[test]
fn walks_the_log() {
    let scan = SelScan::new();
    assert_eq!(scan.request().unwrap().data, [0, 0, 0, 0, 0, 0xFF]);
    let scan = scan.advance(reply(0, &entry(2, 1, 1, 1)));
    assert_eq!(scan.request().unwrap().data, [0, 0, 2, 0, 0, 0xFF]);
    let scan = scan.advance(reply(0, &entry(0xFFFF, 2, 1, 1)));
    assert!(scan.request().is_none());
    assert_eq!(scan.into_entries().len(), 2);
}

#[test]
fn wire_selectors_follow_the_standard_layout() {
    let mut data = entry(0xFFFF, 1, 0x0F, 0x6F);
    // C2: a sensor-specific extension in byte 2, nothing in byte 3.
    data[15] = 0xC2;
    data[16] = 0x13;
    let entries = SelScan::new().advance(reply(0, &data)).into_entries();
    assert_eq!(
        ipmicfg::cmd::sel::entry_description(&entries[0]),
        "Starting operating system boot process"
    );
}

#[test]
fn log_errors_are_reported() {
    let error = |scan: SelScan| scan.error().unwrap();
    assert_eq!(
        error(SelScan::new().advance(Err("timeout".to_string()))),
        "Get SEL Entry 0x0000 failed: timeout"
    );
    assert_eq!(
        error(SelScan::new().advance(reply(0xCB, &[]))),
        "Get SEL Entry 0x0000: completion code 0xCB"
    );
    assert_eq!(
        error(SelScan::new().advance(reply(0, &[1, 2]))),
        "Get SEL Entry 0x0000: short response (2 bytes)"
    );
    let mut unknown = entry(2, 1, 1, 1);
    unknown[4] = 0x07;
    assert_eq!(
        error(SelScan::new().advance(reply(0, &unknown))),
        "Get SEL Entry 0x0000: invalid record: UnknownRecordType(7)"
    );
    let scan = SelScan::new()
        .advance(reply(0, &entry(5, 1, 1, 1)))
        .advance(reply(0, &entry(5, 5, 1, 1)));
    assert_eq!(error(scan), "SEL pagination loop detected at record 0x0005");
}

fn oem_entries() -> Vec<Entry> {
    SelScan::new()
        .advance(reply(0, &entry(2, 1, 0xC0, 0x6F)))
        .advance(reply(0, &entry(3, 2, 0x01, 0x01)))
        .advance(reply(0, &entry(0xFFFF, 3, 0xC0, 0x6F)))
        .into_entries()
}

fn long_text(id: u16, text: &[u8]) -> Vec<u8> {
    let mut data = vec![0x80, 0x28, 0, 0, 0, id as u8, (id >> 8) as u8, 2, 0, 0, 0, 0, 0];
    data.push(text.len() as u8);
    data.extend_from_slice(text);
    data.push(0);
    data
}

#[test]
fn translates_only_oem_entries() {
    let decode = OemDecode::new(&oem_entries(), true);
    assert_eq!(decode.request().unwrap().data[4..6], [1, 0]);
    let decode = decode.advance(reply(0, &long_text(1, b"first")));
    assert_eq!(decode.request().unwrap().data[4..6], [3, 0]);
    // Once translation has worked, a bad record hides only itself.
    let decode = decode.advance(reply(0xFF, &[]));
    assert!(decode.request().is_none());
    let decoded = decode.into_decoded();
    assert_eq!(decoded.get(1).map(|e| e.text.as_str()), Some("first"));
    assert!(decoded.get(3).is_none());
}

#[test]
fn a_refused_first_translation_is_the_only_probe() {
    let decode = OemDecode::new(&oem_entries(), true).advance(reply(0xC1, &[]));
    assert!(decode.request().is_none());
    assert!(OemDecode::new(&oem_entries(), false).request().is_none());
}

#[test]
fn lists_and_follows() {
    let mut follow = args();
    follow.follow = true;
    let list = match SelList::new(follow, false) {
        Ok(list) => list,
        Err(e) => panic!("{e}"),
    };
    let mut last = vec![0xFF, 0xFF];
    last.extend_from_slice(&framed(1, 0xC0, &[]));
    let (list, _) = list.advance(Event::Reply(reply(0, &last)));
    assert!(matches!(list.action(), Action::GetSelInfo));
    let (list, _) = list.advance(Event::SelInfo(Ok(info(1))));
    let (list, _) = list.advance(Event::Reply(reply(0, &entry(0xFFFF, 1, 1, 1))));
    assert!(matches!(list.action(), Action::GetDeviceId));
    let (list, lines) = list.advance(Event::DeviceId(Ok(device(0x157))));
    assert_eq!(lines[1], "System Event Log (1 entries)");
    assert_eq!(lines.last().unwrap(), "  following SEL; press Ctrl-C to stop");
    assert!(matches!(list.action(), Action::Pause { seconds: 2, millis: 0 }));
    // Nothing new.
    let (list, _) = list.advance(Event::Elapsed);
    let (list, _) = list.advance(Event::SelInfo(Ok(info(1))));
    let (list, lines) = list.advance(Event::Reply(reply(0, &entry(0xFFFF, 1, 1, 1))));
    assert!(lines.is_empty());
    // One more entry.
    let (list, _) = list.advance(Event::Elapsed);
    let (list, _) = list.advance(Event::SelInfo(Ok(info(2))));
    let (list, _) = list.advance(Event::Reply(reply(0, &entry(2, 1, 1, 1))));
    let (list, lines) = list.advance(Event::Reply(reply(0, &entry(0xFFFF, 2, 1, 1))));
    assert_eq!(lines[1], "New SEL entries");
    assert!(lines.iter().any(|line| line.contains("0x0002")));
    assert!(lines.iter().all(|line| !line.contains("0x0001")));
    // The log was cleared.
    let (list, _) = list.advance(Event::Elapsed);
    let (list, _) = list.advance(Event::SelInfo(Ok(info(1))));
    let (list, lines) = list.advance(Event::Reply(reply(0, &entry(0xFFFF, 1, 1, 1))));
    assert!(lines.iter().any(|line| line.contains("0x0001")));
    let (list, _) = list.advance(Event::Elapsed);
    let (list, _) = list.advance(Event::SelInfo(Err("lost".to_string())));
    assert_eq!(
        finish(list.action()),
        Err("Get SEL Info failed while following: lost".to_string())
    );
}

#[test]
fn fujitsu_controllers_translate_unless_told_not_to() {
    let run = |no_oem_decode| {
        let mut args = args();
        args.no_oem_decode = no_oem_decode;
        let list = match SelList::new(args, false) {
            Ok(list) => list,
            Err(e) => panic!("{e}"),
        };
        let mut last = vec![0xFF, 0xFF];
        last.extend_from_slice(&framed(1, 0xC0, &[]));
        let (list, _) = list.advance(Event::Reply(reply(0, &last)));
        let (list, _) = list.advance(Event::SelInfo(Ok(info(1))));
        let (list, _) = list.advance(Event::Reply(reply(0, &entry(0xFFFF, 1, 0xC0, 0x6F))));
        list.advance(Event::DeviceId(Ok(device(0x2880))))
    };
    let (list, _) = run(false);
    assert!(matches!(list.action(), Action::Send(r) if r.cmd == 0xF5));
    let (list, lines) = list.advance(Event::Reply(reply(0, &long_text(1, b"Fan 3 lost"))));
    assert!(lines.iter().any(|line| line.ends_with("Fan 3 lost")));
    assert_eq!(finish(list.action()), Ok(()));
    let (list, _) = run(true);
    assert_eq!(finish(list.action()), Ok(()));
}

#[test]
fn time_ranges_are_checked_first() {
    let mut range = args();
    range.since = Some("2024-01-01T00:00:00Z".to_string());
    range.until = Some("1700000000".to_string());
    assert!(matches!(
        SelList::new(range, false),
        Err(e) if e == "--since must not be later than --until"
    ));
    let mut bad = args();
    bad.until = Some("tomorrow".to_string());
    assert!(SelList::new(bad, false).is_err());
}

#[test]
fn clears_with_fresh_reservations() {
    let (clear, _) = SelClear::new(false).advance(Event::SelInfo(Ok(info(7))), false);
    assert!(matches!(clear.action(), Action::Confirm(p) if p == "Erase all 7 SEL entries?"));
    let (clear, _) = clear.advance(Event::Answer(true), false);
    assert!(matches!(clear.action(), Action::ReserveSel));
    let (clear, _) = clear.advance(Event::Reserved(Ok(1)), false);
    assert!(matches!(
        clear.action(),
        Action::ClearSel { initiate: true, reservation: Some(1) }
    ));
    let (clear, _) = clear.advance(Event::Erasure(Ok(ErasureProgress::InProgress)), false);
    assert!(matches!(clear.action(), Action::Pause { seconds: 0, millis: 150 }));
    let (clear, _) = clear.advance(Event::Elapsed, false);
    assert!(matches!(clear.action(), Action::ReserveSel));
    let (clear, _) = clear.advance(Event::Reserved(Ok(2)), false);
    assert!(matches!(
        clear.action(),
        Action::ClearSel { initiate: false, reservation: Some(2) }
    ));
    let (clear, lines) = clear.advance(Event::Erasure(Ok(ErasureProgress::Completed)), false);
    assert_eq!(lines, vec!["SEL cleared."]);
    assert_eq!(finish(clear.action()), Ok(()));
}

#[test]
fn clearing_without_reservations() {
    let mut plain = info(7);
    plain.reserve_supported = false;
    let (clear, _) = SelClear::new(true).advance(Event::SelInfo(Ok(plain)), false);
    assert!(matches!(
        clear.action(),
        Action::ClearSel { initiate: true, reservation: None }
    ));
    let (clear, _) = clear.advance(Event::Erasure(Err("no".to_string())), false);
    assert_eq!(finish(clear.action()), Err("Clear SEL failed: no".to_string()));
    let (declined, _) = SelClear::new(false).advance(Event::SelInfo(Ok(info(1))), false);
    let (declined, lines) = declined.advance(Event::Answer(false), false);
    assert_eq!(lines, vec!["Aborted."]);
    assert_eq!(finish(declined.action()), Ok(()));
}

#[test]
fn deletes_one_entry() {
    let delete = match SelDelete::new(0x003A, false) {
        Ok(delete) => delete,
        Err(e) => panic!("{e}"),
    };
    let (delete, _) = delete.advance(Event::SelInfo(Ok(info(1))), false);
    assert!(matches!(delete.action(), Action::Confirm(p) if p == "Delete SEL entry 0x003A?"));
    let (delete, _) = delete.advance(Event::Answer(true), false);
    let (delete, _) = delete.advance(Event::Reserved(Ok(0x0102)), false);
    assert!(matches!(
        delete.action(),
        Action::Send(r) if r.cmd == 0x46 && r.data == [0x02, 0x01, 0x3A, 0x00]
    ));
    let (delete, lines) = delete.advance(Event::Reply(reply(0, &[])), false);
    assert_eq!(lines, vec!["OK: entry 0x003A deleted"]);
    assert_eq!(finish(delete.action()), Ok(()));
    assert!(SelDelete::new(0, true).is_err());
    assert!(SelDelete::new(0xFFFF, true).is_err());
}

#[test]
fn deleting_needs_support() {
    let delete = match SelDelete::new(1, true) {
        Ok(delete) => delete,
        Err(e) => panic!("{e}"),
    };
    let mut plain = info(1);
    plain.delete_supported = false;
    let (delete, _) = delete.advance(Event::SelInfo(Ok(plain)), false);
    assert_eq!(
        finish(delete.action()),
        Err("this BMC does not advertise per-entry SEL deletion".to_string())
    );
}

#[test]
fn the_overview_keeps_partial_results() {
    let (run, lines) = StatusRun::new(false);
    assert_eq!(lines[1], "System Overview");
    let (run, lines) = run.advance(Event::Reply(Err("timeout".to_string())));
    assert_eq!(
        lines,
        vec!["  Power                   unavailable (Get Chassis Status failed: timeout)"]
    );
    let (run, lines) = run.advance(Event::DeviceId(Ok(device(0x0B))));
    assert_eq!(
        lines,
        vec![
            "  Manufacturer            HP (0x00000B)",
            "  Product ID              0x0001",
            "  BMC firmware            1.02",
            "  IPMI version            2.0",
            "  Device available        yes",
            "",
            "Capabilities",
            "────────────",
            "  Sensors, SEL, Chassis",
            "",
            "Monitoring Health",
            "─────────────────",
        ]
    );
    let (run, lines) = run.advance(Event::Reply(reply(0xC1, &[])));
    assert_eq!(
        lines,
        vec!["  Sensors                 unavailable (Get SDR 0x0000 failed: completion code 0xC1)"]
    );
    let (run, _) = run.advance(Event::SelInfo(Ok(info(1))));
    let (run, lines) = run.advance(Event::Reply(reply(0, &entry(0xFFFF, 1, 1, 1))));
    assert_eq!(
        lines,
        vec![
            "  SEL                     1 entries, 1 critical",
            "  Recent critical         0x0001: Lower Critical - going low",
            "",
        ]
    );
    assert_eq!(finish(run.action()), Ok(()));
}

#[test]
fn the_overview_counts_sensors() {
    let (run, _) = StatusRun::new(false);
    let (run, _) = run.advance(Event::Reply(reply(0, &[0x01, 0, 0])));
    let (run, _) = run.advance(Event::DeviceId(Err("gone".to_string())));
    let mut body = vec![0u8; 26];
    body[2] = 2;
    body[7] = 0x08;
    body[8] = 0x6F;
    body.push(0xC0);
    let mut data = vec![0xFF, 0xFF];
    data.extend_from_slice(&framed(1, 0x02, &body));
    let (run, _) = run.advance(Event::Reply(reply(0, &data)));
    let (run, lines) = run.advance(Event::Reply(reply(0, &[0, 0xC0, 0x02, 0])));
    assert_eq!(
        lines,
        vec!["  Sensors                 0 OK, 0 WARN, 1 CRIT, 0 unknown"]
    );
    let (run, lines) = run.advance(Event::SelInfo(Ok(info(0))));
    assert_eq!(lines, vec!["  SEL                     0 entries, 0 critical", ""]);
    assert_eq!(finish(run.action()), Ok(()));
}
