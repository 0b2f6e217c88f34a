//! Boot overrides, power, identify, BMC maintenance, and raw requests.

use ipmicfg::cli::{BootAction, BootArgs, BootDevice, IdentifyAction, IdentifyArgs, PowerAction, PowerArgs, RawArgs};
use ipmicfg::cmd::boot::{boot_selector_name, device_name, device_selector, encode_flags};
use ipmicfg::cmd::raw::{ascii_bytes, hex_bytes};
use ipmicfg::cmd::simple::{Simple, SimpleCommand};
use ipmicfg::cmd::{boot, identify, power};
use ipmicfg::cmd::{chassis_status, confirmed, manufacturer_name, restore_policy_name};
use ipmicfg::conn::Response;
use ipmicfg::dialog::{Action, Event, SelInfo, Step};

fn reply(cc: u8, data: &[u8]) -> Event {
    Event::Reply(Ok(Response { cc, data: data.to_vec() }))
}

fn sent(step: &Step) -> (u8, u8, Vec<u8>) {
    match &step.action {
        Action::Send(request) => (request.netfn, request.cmd, request.data.clone()),
        other => panic!("expected a request, got {other:?}"),
    }
}

fn result(step: &Step) -> Result<(), String> {
    match &step.action {
        Action::Finish(result) => result.clone(),
        other => panic!("expected the end, got {other:?}"),
    }
}

#[test]
fn standard_boot_selectors() {
    assert_eq!(device_selector(BootDevice::Pxe), 1);
    assert_eq!(device_selector(BootDevice::Disk), 2);
    assert_eq!(device_selector(BootDevice::Optical), 5);
    assert_eq!(device_selector(BootDevice::Bios), 6);
    assert_eq!(
        encode_flags(Some(BootDevice::Pxe), true, true),
        [0xE0, 0x04, 0, 0, 0]
    );
    assert_eq!(encode_flags(None, false, false), [0; 5]);
}

#[test]
fn boot_overrides_are_shown_again() {
    for device in [BootDevice::Pxe, BootDevice::Disk, BootDevice::Optical, BootDevice::Bios] {
        assert_eq!(boot_selector_name(device_selector(device)), device_name(device));
        let mut data = vec![1, 5];
        data.extend_from_slice(&encode_flags(Some(device), false, true));
        let (run, step) = Simple::new(SimpleCommand::Boot(BootAction::Show), false);
        assert_eq!(sent(&step), (0x00, 0x09, vec![5, 0, 0]));
        let (_, step) = run.advance(reply(0, &data));
        assert_eq!(
            step.lines[3..],
            [
                "  Parameter           available".to_string(),
                "  Active              yes".to_string(),
                format!("  Device              {}", device_name(device)),
                "  Scope               next boot only".to_string(),
                "  Boot type           UEFI".to_string(),
                String::new(),
            ]
        );
    }
}

#[test]
fn only_persistent_overrides_ask() {
    let action = |persistent, yes| BootAction::Override {
        boot_device: BootDevice::Disk,
        persistent,
        uefi: false,
        yes,
    };
    let (run, step) = Simple::new(SimpleCommand::Boot(action(false, false)), false);
    assert_eq!(sent(&step), (0x00, 0x08, vec![5, 0x80, 0x08, 0, 0, 0]));
    let (_, step) = run.advance(reply(0, &[]));
    assert_eq!(step.lines, vec!["OK: default disk boot override set for the next boot"]);
    let (run, step) = Simple::new(SimpleCommand::Boot(action(true, false)), false);
    assert!(matches!(
        &step.action,
        Action::Confirm(p) if p == "Persistently request default disk as the BIOS boot device?"
    ));
    let (run, step) = run.advance(Event::Answer(true));
    assert_eq!(sent(&step).2[1], 0xC0);
    let (_, step) = run.advance(reply(0xD5, &[]));
    assert_eq!(
        result(&step),
        Err("Set System Boot Options: completion code 0xD5".to_string())
    );
    let (run, _) = Simple::new(SimpleCommand::Boot(BootAction::Clear), false);
    let (_, step) = run.advance(reply(0, &[]));
    assert_eq!(step.lines, vec!["OK: boot override cleared"]);
    let (run, _) = Simple::new(SimpleCommand::Boot(BootAction::Show), false);
    let (_, step) = run.advance(reply(0, &[1, 5, 0]));
    assert_eq!(
        result(&step),
        Err("Get System Boot Options returned a short boot-flags response".to_string())
    );
    assert!(matches!(boot::begin(&BootArgs { action: None }).action, Action::Send(_)));
}

#[test]
fn disruptive_power_actions_always_ask() {
    for (action, code) in [
        (PowerAction::Off, 0u8),
        (PowerAction::Cycle, 2),
        (PowerAction::Reset, 3),
        (PowerAction::Diag, 4),
    ] {
        let (run, step) = Simple::new(SimpleCommand::Power(action), false);
        assert!(matches!(&step.action, Action::Confirm(_)));
        assert!(run.accepts(&Event::Answer(false)));
        assert!(!run.accepts(&reply(0, &[])));
        let (_, step) = run.advance(Event::Answer(true));
        assert_eq!(sent(&step), (0x00, 0x02, vec![code]));
    }
    let (run, step) = Simple::new(SimpleCommand::Power(PowerAction::Off), false);
    assert!(matches!(
        &step.action,
        Action::Confirm(p) if p == "This will power off (hard) the host. Continue?"
    ));
    let (_, step) = run.advance(Event::Answer(false));
    assert_eq!(step.lines, vec!["Aborted."]);
    assert_eq!(result(&step), Ok(()));
    let (run, step) = Simple::new(SimpleCommand::Power(PowerAction::On), false);
    assert_eq!(sent(&step), (0x00, 0x02, vec![1]));
    let (_, step) = run.advance(reply(0, &[]));
    assert_eq!(step.lines, vec!["OK: power on"]);
    let (run, _) = Simple::new(SimpleCommand::Power(PowerAction::Soft), false);
    let (_, step) = run.advance(reply(0xD6, &[]));
    assert_eq!(
        result(&step),
        Err("Chassis Control rejected: completion code 0xD6".to_string())
    );
    assert!(matches!(power::begin(&PowerArgs { action: None }).action, Action::Send(_)));
}

#[test]
fn shows_the_power_state() {
    let (run, step) = Simple::new(SimpleCommand::Power(PowerAction::Status), false);
    assert_eq!(sent(&step), (0x00, 0x01, vec![]));
    let (_, step) = run.advance(reply(0, &[0x29, 0, 0x09]));
    assert_eq!(
        step.lines[3..],
        [
            "  State               ON",
            "  Restore policy      previous state",
            "  Power fault         yes",
            "  Cooling fault       yes",
            "  Chassis intrusion   detected",
            "",
        ]
    );
}

#[test]
fn missing_chassis_bytes_count_as_zero() {
    let status = chassis_status(Ok(Response { cc: 0, data: vec![] })).unwrap();
    assert!(!status.power_on && !status.intrusion);
    assert_eq!(status.restore_policy, 0);
    assert_eq!(
        chassis_status(Ok(Response { cc: 0xC1, data: vec![] })),
        Err("Get Chassis Status: completion code 0xC1".to_string())
    );
    assert_eq!(
        chassis_status(Err("timeout".to_string())),
        Err("Get Chassis Status failed: timeout".to_string())
    );
    assert_eq!(restore_policy_name(2), "always on");
    assert_eq!(restore_policy_name(3), "unknown");
    assert_eq!(manufacturer_name(0x000157), Some("Intel"));
    assert_eq!(manufacturer_name(0x000158), None);
}

#[test]
fn identifies_and_falls_back() {
    let (run, step) = Simple::new(SimpleCommand::Identify(IdentifyAction::Force), false);
    assert_eq!(sent(&step), (0x00, 0x04, vec![0, 1]));
    let (run, step) = run.advance(reply(0xC7, &[]));
    assert_eq!(sent(&step), (0x00, 0x04, vec![0xFF]));
    let (_, step) = run.advance(reply(0, &[]));
    assert_eq!(
        step.lines,
        vec!["note: BMC does not support force-on; blinking for 255 seconds instead"]
    );
    let (run, _) = Simple::new(SimpleCommand::Identify(IdentifyAction::On { seconds: 60 }), false);
    let (_, step) = run.advance(reply(0, &[]));
    assert_eq!(step.lines, vec!["OK: identify LED blinking for 60 seconds"]);
    let (run, step) = Simple::new(SimpleCommand::Identify(IdentifyAction::On { seconds: 0 }), false);
    assert_eq!(sent(&step).2, vec![0]);
    let (_, step) = run.advance(reply(0xC7, &[]));
    assert_eq!(
        result(&step),
        Err("Chassis Identify rejected: completion code 0xC7".to_string())
    );
    assert_eq!(sent(&identify::begin(&IdentifyArgs { action: None })).2, vec![15]);
}

#[test]
fn resets_the_bmc() {
    let (run, step) = Simple::new(SimpleCommand::Reset { warm: false, yes: false }, false);
    assert!(matches!(
        &step.action,
        Action::Confirm(p) if p == "This will cold-reset the BMC. The host keeps running, but the \
            BMC goes offline for a minute or two. Continue?"
    ));
    let (run, step) = run.advance(Event::Answer(true));
    assert_eq!(sent(&step), (0x06, 0x02, vec![]));
    let (_, step) = run.advance(Event::Reply(Err("timeout".to_string())));
    assert_eq!(
        step.lines,
        vec!["note: no response (timeout); the BMC most likely reset before replying"]
    );
    assert_eq!(result(&step), Ok(()));
    let (run, step) = Simple::new(SimpleCommand::Reset { warm: true, yes: true }, false);
    assert_eq!(sent(&step), (0x06, 0x03, vec![]));
    let (_, step) = run.advance(reply(0xC1, &[]));
    assert_eq!(
        result(&step),
        Err("warm reset rejected: completion code 0xC1".to_string())
    );
}

#[test]
fn reports_the_self_test() {
    let test = |data: &[u8]| {
        let (run, _) = Simple::new(SimpleCommand::Selftest, false);
        run.advance(reply(0, data)).1
    };
    assert_eq!(test(&[0x55]).lines, vec!["OK: self test passed"]);
    assert_eq!(test(&[0x56]).lines, vec!["self test not implemented on this BMC"]);
    let bad = test(&[0x57, 0b1000_0010]);
    assert_eq!(
        bad.lines,
        vec![
            "FAIL: self test found problems:",
            "  - cannot access SDR repository",
            "  - controller operational firmware corrupted",
        ]
    );
    assert_eq!(result(&bad), Err("BMC self test failed".to_string()));
    assert_eq!(
        result(&test(&[0x58, 0x12])),
        Err("self test: fatal hardware error (device-specific code 0x12)".to_string())
    );
    assert_eq!(
        result(&test(&[])),
        Err("self test: device-specific failure (0x00 0x00)".to_string())
    );
}

#[test]
fn formats_empty_and_nonempty_hex() {
    assert_eq!(hex_bytes(&[]), "(empty)");
    assert_eq!(hex_bytes(&[0x00, 0x2E, 0xF5]), "00 2E F5");
}

#[test]
fn renders_nonprinting_ascii_as_dots() {
    assert_eq!(ascii_bytes(&[b'A', 0, b' ', 0xFF]), "A. .");
}

#[test]
fn raw_requests_are_guarded() {
    let args = |yes| RawArgs { netfn: 0x2E, command: 0xF5, data: vec![0x80], yes };
    let (run, step) = Simple::new(SimpleCommand::Raw(args(false)), false);
    assert!(matches!(
        &step.action,
        Action::Confirm(p) if p == "Send raw IPMI request netfn 0x2E, command 0xF5? Arbitrary \
            commands may change BMC state."
    ));
    let (_, step) = run.advance(Event::Answer(false));
    assert_eq!(result(&step), Err("cancelled".to_string()));
    let (run, step) = Simple::new(SimpleCommand::Raw(args(true)), false);
    assert_eq!(step.lines[5], "  Request data      80");
    assert_eq!(sent(&step), (0x2E, 0xF5, vec![0x80]));
    let (_, step) = run.advance(reply(0xC1, b"Hi\0"));
    assert_eq!(
        step.lines[3..],
        [
            "  Completion code   0xC1",
            "  Response data     48 69 00",
            "  ASCII             Hi.",
            "",
        ]
    );
    assert_eq!(
        result(&step),
        Err("raw command returned completion code 0xC1".to_string())
    );
}

#[test]
fn only_y_and_yes_confirm() {
    assert!(confirmed("y\n"));
    assert!(confirmed("  YES \r\n"));
    assert!(!confirmed(""));
    assert!(!confirmed("yep"));
}

#[test]
fn summarizes_the_log() {
    let info = SelInfo {
        version_maj: 5,
        version_min: 1,
        entries: 12,
        bytes_free: 4096,
        overflow: true,
        reserve_supported: true,
        delete_supported: false,
    };
    let (run, step) = Simple::new(SimpleCommand::SelInfo, false);
    assert!(matches!(step.action, Action::GetSelInfo));
    let (_, step) = run.advance(Event::SelInfo(Ok(info)));
    assert_eq!(
        step.lines[3..],
        [
            "  Version         5.1",
            "  Entries         12",
            "  Free space      4096 bytes",
            "  Overflow        yes — events were lost",
            "",
        ]
    );
}
