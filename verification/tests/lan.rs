//! LAN configuration.

use ipmicfg::cli::{LanSetArgs, LanShowArgs};
use ipmicfg::cmd::lan::{
    channel, encode_vlan, fetch_vlan, fetch_vlan_priority, ipv6_status, parse_ip_source, parse_ipv4,
    parse_mac, plan_changes, render_parameter, render_status, LanConfigParameter,
};
use ipmicfg::cmd::lan_run::{ensure_lan_channel, LanShow};
use ipmicfg::cmd::lan_set::LanSet;
use ipmicfg::dialog::{Action, ChannelMediumType, Event};

fn nothing() -> LanSetArgs {
    LanSetArgs {
        channel: 1,
        source: None,
        ip: None,
        netmask: None,
        gateway: None,
        gateway_mac: None,
        vlan_id: None,
        vlan_priority: None,
        yes: false,
    }
}

fn finish(action: Action) -> Result<(), String> {
    match action {
        Action::Finish(result) => result,
        other => panic!("unexpected {other:?}"),
    }
}

#[test]
fn parses_mac_addresses() {
    assert_eq!(
        parse_mac("00:11:22:AA:BB:CC").unwrap(),
        [0, 0x11, 0x22, 0xAA, 0xBB, 0xCC]
    );
    assert!(parse_mac("00:11:22").is_err());
}

#[test]
fn parses_ipv4_addresses() {
    assert_eq!(parse_ipv4("192.0.2.1", "--ip").unwrap(), [192, 0, 2, 1]);
    assert!(parse_ipv4("999.1.1.1", "--ip").is_err());
}

#[test]
fn encodes_vlan_id_and_enable_bit() {
    assert_eq!(encode_vlan(100), [100, 0x80]);
    assert_eq!(encode_vlan(0x0ABC), [0xBC, 0x8A]);
    assert_eq!(encode_vlan(0), [0, 0]);
}

#[test]
fn written_vlan_ids_are_shown_again() {
    for id in [1u16, 100, 0xABC, 4094] {
        assert_eq!(fetch_vlan(&encode_vlan(id)), Some(id.to_string()));
    }
    assert_eq!(fetch_vlan(&encode_vlan(0)), Some("disabled".to_string()));
    assert_eq!(fetch_vlan(&[1]), None);
    assert_eq!(fetch_vlan_priority(&[0x0B]), Some("3".to_string()));
    assert_eq!(fetch_vlan_priority(&[]), None);
}

#[test]
fn address_errors_name_their_option() {
    assert_eq!(
        parse_ipv4("10.0.0", "--netmask"),
        Err("invalid --netmask '10.0.0'".to_string())
    );
    for bad in ["", "1.2.3.4.5", "01.2.3.4", "1.2.3.", "+1.2.3.4", "1.2.3.256", "a.b.c.d"] {
        assert!(parse_ipv4(bad, "--ip").is_err(), "{bad}");
    }
    assert_eq!(parse_ipv4("0.0.0.0", "--ip"), Ok([0, 0, 0, 0]));
    assert_eq!(
        parse_mac("00-11-22-33-44-55"),
        Ok([0, 0x11, 0x22, 0x33, 0x44, 0x55])
    );
    for bad in ["00:11:22:33:44:GG", "00:11:22:33:44:55:66", "00:11:22:33:44:100", ""] {
        assert!(parse_mac(bad).is_err(), "{bad}");
    }
    assert_eq!(parse_ip_source("DHCP"), Some(2));
    assert_eq!(parse_ip_source("static"), Some(1));
    assert_eq!(parse_ip_source("bios"), None);
}

#[test]
fn channels_are_validated() {
    assert_eq!(channel(15), Ok(15));
    assert_eq!(channel(12), Err("invalid channel number 12".to_string()));
    assert_eq!(channel(16), Err("invalid channel number 16".to_string()));
    assert_eq!(ensure_lan_channel(1, Ok(ChannelMediumType::Lan802_3)), Ok(()));
    assert_eq!(
        ensure_lan_channel(2, Ok(ChannelMediumType::Other)),
        Err("channel 2 is not a LAN channel".to_string())
    );
    assert_eq!(
        ensure_lan_channel(2, Err("NoResponse".to_string())),
        Err("Get Channel Info for channel 2 failed: NoResponse".to_string())
    );
}

#[test]
fn shows_parameters() {
    let show = |parameter, data: &[u8]| render_parameter(parameter, data);
    assert_eq!(
        show(LanConfigParameter::IpAddress, &[10, 0, 0, 5]),
        Some("10.0.0.5".to_string())
    );
    assert_eq!(
        show(LanConfigParameter::SubnetMask, &[255, 255, 0, 0]),
        Some("255.255.0.0".to_string())
    );
    assert_eq!(
        show(LanConfigParameter::DefaultGatewayAddress, &[10, 0, 0, 1]),
        Some("10.0.0.1".to_string())
    );
    assert_eq!(show(LanConfigParameter::IpAddress, &[10, 0, 0]), None);
    assert_eq!(show(LanConfigParameter::IpAddress, &[]), None);
    assert_eq!(
        show(LanConfigParameter::MacAddress, &[0, 0x11, 0x22, 0xAA, 0xBB, 0xCC]),
        Some("00:11:22:AA:BB:CC".to_string())
    );
    assert_eq!(
        show(LanConfigParameter::DefaultGatewayMacAddress, &[0; 6]),
        Some("00:00:00:00:00:00".to_string())
    );
    assert_eq!(
        show(LanConfigParameter::IpAddressSource, &[0x12]),
        Some("DHCP".to_string())
    );
    assert_eq!(
        show(LanConfigParameter::IpAddressSource, &[0x0B]),
        Some("Reserved (0x0B)".to_string())
    );
    assert_eq!(
        show(LanConfigParameter::Ipv6Ipv4AddressingEnables, &[2]),
        Some("IPv6/IPv4 simultaneous".to_string())
    );
    assert_eq!(
        show(LanConfigParameter::Ipv6Ipv4Support, &[0b011]),
        Some("IPv4; IPv6-only yes, dual-stack yes, IPv6 alerts no".to_string())
    );
    let mut address = vec![0u8, 0x81];
    address.extend_from_slice(&[0x20, 0x01, 0x0d, 0xb8, 0, 0, 0, 0, 0, 0, 0, 0, 0, 0, 0, 1]);
    address.extend_from_slice(&[64, 2]);
    assert_eq!(
        show(LanConfigParameter::Ipv6StaticAddresses, &address),
        Some("2001:db8::1/64 (enabled yes, source 1, status 0x02)".to_string())
    );
    assert_eq!(
        show(LanConfigParameter::Ipv6DynamicAddress, &address),
        Some("2001:db8::1/64 (source 1, status 0x02)".to_string())
    );
    assert_eq!(show(LanConfigParameter::Ipv6DynamicAddress, &address[..19]), None);
    let status = ipv6_status(&[2, 3, 0b01]).unwrap();
    assert_eq!(
        render_status(&status),
        "2 static, 3 dynamic; SLAAC no, DHCPv6 yes"
    );
    assert_eq!(ipv6_status(&[2, 3]), None);
}

#[test]
fn plans_changes_in_order() {
    let mut args = nothing();
    args.source = Some("Static".to_string());
    args.ip = Some("10.0.0.5".to_string());
    args.netmask = Some("255.255.255.0".to_string());
    args.gateway = Some("10.0.0.1".to_string());
    args.gateway_mac = Some("00:11:22:33:44:55".to_string());
    args.vlan_id = Some(0);
    args.vlan_priority = Some(3);
    let planned: Vec<(u8, Vec<u8>, String)> = plan_changes(&args)
        .unwrap_or_default()
        .into_iter()
        .map(|c| (c.parameter.value(), c.data, c.description))
        .collect();
    assert_eq!(
        planned,
        vec![
            (4, vec![1], "address source = Static".to_string()),
            (3, vec![10, 0, 0, 5], "ip = 10.0.0.5".to_string()),
            (6, vec![255, 255, 255, 0], "netmask = 255.255.255.0".to_string()),
            (12, vec![10, 0, 0, 1], "gateway = 10.0.0.1".to_string()),
            (
                13,
                vec![0, 0x11, 0x22, 0x33, 0x44, 0x55],
                "gateway MAC = 00:11:22:33:44:55".to_string()
            ),
            (20, vec![0, 0], "VLAN disabled".to_string()),
            (21, vec![3], "VLAN priority = 3".to_string()),
        ]
    );
}

#[test]
fn plan_errors_are_reported() {
    assert!(matches!(
        plan_changes(&nothing()),
        Err(e) if e == "nothing to set; pass a LAN setting option"
    ));
    let mut args = nothing();
    args.source = Some("magic".to_string());
    assert!(matches!(
        plan_changes(&args),
        Err(e) if e == "invalid --source 'magic' (use static or dhcp)"
    ));
}

#[test]
fn sets_and_verifies_in_a_transaction() {
    let mut args = nothing();
    args.ip = Some("10.0.0.5".to_string());
    let set = LanSet::new(args, false).unwrap();
    assert!(matches!(set.action(), Action::GetChannelInfo { channel: 1 }));
    let (set, lines) = set.advance(Event::ChannelInfo(Ok(ChannelMediumType::Lan802_3)));
    assert_eq!(lines, vec!["About to set on channel 1:", "  - ip = 10.0.0.5"]);
    assert!(matches!(set.action(), Action::Confirm(p) if p == "Apply these changes?"));
    let (set, _) = set.advance(Event::Answer(true));
    assert!(matches!(
        set.action(),
        Action::SetLanParameter { channel: 1, parameter: 0, data } if data == [1]
    ));
    let (set, _) = set.advance(Event::LanWritten(Ok(())));
    assert!(matches!(
        set.action(),
        Action::SetLanParameter { channel: 1, parameter: 3, data } if data == [10, 0, 0, 5]
    ));
    let (set, lines) = set.advance(Event::LanWritten(Ok(())));
    assert_eq!(lines, vec!["  set ip = 10.0.0.5"]);
    assert!(matches!(set.action(), Action::SetLanParameter { data, .. } if data == [2]));
    // A refused commit is no error.
    let (set, _) = set.advance(Event::LanWritten(Err("no".to_string())));
    assert!(matches!(set.action(), Action::SetLanParameter { data, .. } if data == [0]));
    let (set, _) = set.advance(Event::LanWritten(Ok(())));
    assert!(matches!(
        set.action(),
        Action::GetLanParameter { channel: 1, parameter: 3, selector: 0 }
    ));
    let (set, lines) = set.advance(Event::LanParameter(Ok(vec![10, 0, 0, 5])));
    assert_eq!(
        lines,
        vec![
            "  verified ip = 10.0.0.5",
            "OK: LAN configuration applied and verified",
        ]
    );
    assert_eq!(finish(set.action()), Ok(()));
}

#[test]
fn a_failed_write_still_releases_the_transaction() {
    let mut args = nothing();
    args.vlan_id = Some(5);
    args.vlan_priority = Some(1);
    args.yes = true;
    let set = LanSet::new(args, false).unwrap();
    let (set, _) = set.advance(Event::ChannelInfo(Ok(ChannelMediumType::OtherLan)));
    let (set, _) = set.advance(Event::LanWritten(Ok(())));
    let (set, lines) = set.advance(Event::LanWritten(Err("denied".to_string())));
    assert_eq!(lines, vec!["  fail VLAN ID = 5: denied"]);
    let (set, _) = set.advance(Event::LanWritten(Ok(())));
    // No commit, but the release.
    assert!(matches!(set.action(), Action::SetLanParameter { data, .. } if data == [0]));
    let (set, _) = set.advance(Event::LanWritten(Err("stuck".to_string())));
    let (set, _) = set.advance(Event::LanParameter(Ok(vec![7])));
    assert_eq!(
        finish(set.action()),
        Err("VLAN ID = 5; could not release Set In Progress: stuck; verification mismatch for \
             VLAN priority = 1: expected 01, got 07"
            .to_string())
    );
}

#[test]
fn settings_are_not_written_unasked() {
    let mut args = nothing();
    args.vlan_id = Some(5);
    let set = LanSet::new(args, false).unwrap();
    let (set, _) = set.advance(Event::ChannelInfo(Ok(ChannelMediumType::Lan802_3)));
    let (set, lines) = set.advance(Event::Answer(false));
    assert_eq!(lines, vec!["Aborted."]);
    assert_eq!(finish(set.action()), Ok(()));
}

#[test]
fn a_missing_transaction_marker_is_noted() {
    let mut args = nothing();
    args.vlan_id = Some(5);
    args.yes = true;
    let (set, _) = LanSet::new(args, false)
        .unwrap()
        .advance(Event::ChannelInfo(Ok(ChannelMediumType::Lan802_3)));
    let (set, lines) = set.advance(Event::LanWritten(Err("unsupported".to_string())));
    assert_eq!(lines, vec!["  note: transaction marker unavailable: unsupported"]);
    let (set, _) = set.advance(Event::LanWritten(Ok(())));
    assert!(matches!(set.action(), Action::GetLanParameter { .. }));
    let (set, _) = set.advance(Event::LanParameter(Err("gone".to_string())));
    assert_eq!(finish(set.action()), Err("could not verify VLAN ID = 5".to_string()));
}

#[test]
fn shows_one_channel() {
    let show = LanShow::new(LanShowArgs { channel: Some(1) }, false).unwrap();
    let (mut show, lines) = show.advance(Event::ChannelInfo(Ok(ChannelMediumType::Lan802_3)));
    assert_eq!(lines[1], "LAN channel 1");
    let mut printed = Vec::new();
    let mut asked = Vec::new();
    while let Action::GetLanParameter { parameter, selector, .. } = show.action() {
        asked.push((parameter, selector));
        let data = match parameter {
            3 => Ok(vec![10, 0, 0, 5]),
            55 => Ok(vec![1, 0, 3]),
            56 => Err("empty".to_string()),
            _ => Err("none".to_string()),
        };
        let (next, lines) = show.advance(Event::LanParameter(data));
        printed.extend(lines);
        show = next;
    }
    assert_eq!(
        asked,
        vec![
            (4, 0),
            (3, 0),
            (6, 0),
            (12, 0),
            (13, 0),
            (5, 0),
            (20, 0),
            (21, 0),
            (50, 0),
            (51, 0),
            (55, 0),
            (56, 0),
        ]
    );
    assert_eq!(printed[0], "  Address source      n/a");
    assert_eq!(printed[1], "  IP address          10.0.0.5");
    assert_eq!(
        printed.last().unwrap(),
        "  IPv6 capabilities   1 static, 0 dynamic; SLAAC yes, DHCPv6 yes"
    );
    assert_eq!(finish(show.action()), Ok(()));
}

#[test]
fn passes_over_channels_that_are_no_lan() {
    let mut show = LanShow::new(LanShowArgs { channel: None }, false).unwrap();
    let mut probed = Vec::new();
    let mut printed = Vec::new();
    while let Action::GetChannelInfo { channel } = show.action() {
        probed.push(channel);
        let (next, lines) = show.advance(Event::ChannelInfo(Ok(ChannelMediumType::Other)));
        printed.extend(lines);
        show = next;
    }
    assert_eq!(probed, vec![0, 1, 2, 3, 4, 5, 6, 7, 8, 9, 10, 11, 14, 15]);
    assert_eq!(printed, vec!["  no LAN channels detected", ""]);
    assert!(LanShow::new(LanShowArgs { channel: Some(13) }, false).is_err());
}

#[test]
fn addresses_read_back() {
    for address in [[0, 0, 0, 0], [10, 0, 0, 5], [192, 168, 100, 255]] {
        let shown = render_parameter(LanConfigParameter::IpAddress, &address).unwrap();
        assert_eq!(parse_ipv4(&shown, "--ip"), Ok(address));
    }
    for address in [[0; 6], [0x00, 0x1B, 0x21, 0xAB, 0xCD, 0xFF]] {
        let shown = render_parameter(LanConfigParameter::MacAddress, &address).unwrap();
        assert_eq!(parse_mac(&shown), Ok(address));
    }
}
