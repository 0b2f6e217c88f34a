//! Arguments, targets and text helpers.

use std::time::Duration;

use ipmicfg::calendar::civil_from_days;
use ipmicfg::cli::{
    parse_byte, parse_positive_usize, parse_u16, parse_user_id, with_default_port, BootAction,
    BootArgs, Command, ConnOpts, IdentifyAction, IdentifyArgs, LanArgs, LanShowArgs, PowerAction,
    PowerArgs, UserAction, UserArgs,
};
use ipmicfg::clock::{format_timestamp, read_time};
use ipmicfg::cmd::dispatch::{dispatch, Job};
use ipmicfg::cmd::sel::id_string;
use ipmicfg::cmd::simple::SimpleCommand;
use ipmicfg::conn::Target;
use ipmicfg::number::{parse_i64, parse_unsigned};
use ipmicfg::text::{
    contains_text, dec_text, hex_text, join, lower_text, remove_text, trim, trim_end,
};
use ipmicfg::ui::{
    bold, color_enabled, cyan, dim, green, header, kv, red, yellow, Align, Cell,
    Status, Table,
};

fn opts(host: Option<&str>) -> ConnOpts {
    ConnOpts {
        host: host.map(str::to_string),
        device: "/dev/ipmi0".to_string(),
        timeout_ms: 2000,
    }
}

#[test]
fn resolves_targets() {
    assert!(matches!(opts(None).target(), Ok(Target::Device(path)) if path == "/dev/ipmi0"));
    let Ok(Target::Lan { address, username, password }) = opts(Some("root:ca:vin@10.0.0.5")).target()
    else {
        panic!("expected a LAN target");
    };
    assert_eq!(
        (address.as_str(), username.as_str(), password.as_str()),
        ("10.0.0.5:623", "root", "ca:vin")
    );
    assert_eq!(opts(None).timeout(), Duration::from_millis(2000));
}

#[test]
fn target_errors_are_reported() {
    let error = |host| match opts(Some(host)).target() {
        Err(e) => e,
        Ok(_) => panic!("expected an error"),
    };
    assert_eq!(
        error("10.0.0.5"),
        "invalid --host: expected `user:password@host[:port]`"
    );
    assert_eq!(
        error("root@10.0.0.5"),
        "invalid --host: missing password (expected `user:password@host`)"
    );
    assert_eq!(error("root:pw@"), "invalid --host: empty address");
}

#[test]
fn adds_the_default_port_once() {
    for (address, expected) in [
        ("10.0.0.5", "10.0.0.5:623"),
        ("10.0.0.5:624", "10.0.0.5:624"),
        ("[::1]", "[::1]:623"),
        ("[::1]:624", "[::1]:624"),
        ("fe80::1", "fe80::1:623"),
    ] {
        assert_eq!(with_default_port(address), expected);
    }
    for address in ["bmc", "bmc:1", "[::1]", "[::1]:9"] {
        let once = with_default_port(address);
        assert_eq!(with_default_port(&once), once);
    }
}

#[test]
fn reads_argument_values() {
    assert_eq!(parse_u16("0x003A"), Ok(0x3A));
    assert_eq!(parse_u16("0Xffff"), Ok(0xFFFF));
    assert_eq!(parse_u16("58"), Ok(58));
    assert_eq!(parse_u16("65536"), Err("invalid record ID '65536'".to_string()));
    assert!(parse_u16("0x").is_err());
    assert!(parse_u16("0x+").is_err());
    assert_eq!(parse_byte("0x2e"), Ok(0x2E));
    assert_eq!(parse_byte("46"), Ok(46));
    assert_eq!(parse_byte("256"), Err("invalid byte '256'".to_string()));
    assert_eq!(parse_positive_usize("20"), Ok(20));
    assert_eq!(
        parse_positive_usize("0"),
        Err("value must be greater than zero".to_string())
    );
    assert_eq!(
        parse_positive_usize("-1"),
        Err("invalid positive integer '-1'".to_string())
    );
    assert_eq!(parse_user_id("63"), Ok(63));
    assert_eq!(parse_user_id("64"), Err("user ID must be between 1 and 63".to_string()));
    assert_eq!(parse_user_id("x"), Err("invalid user ID 'x'".to_string()));
}

#[test]
fn reads_numbers_like_the_standard_library() {
    for text in ["", "+", "-", "0", "+0", "-0", "007", "12a", "18446744073709551615",
                 "18446744073709551616", "-9223372036854775809", "++1", " 1"] {
        assert_eq!(parse_unsigned(text, false, u64::MAX), text.parse::<u64>().ok(), "{text}");
        assert_eq!(parse_i64(text), text.parse::<i64>().ok(), "{text}");
        assert_eq!(
            parse_unsigned(text, true, u64::MAX),
            u64::from_str_radix(text, 16).ok(),
            "{text}"
        );
    }
}

#[test]
fn renders_numbers_like_the_standard_library() {
    for n in [0u64, 1, 9, 10, 255, 256, 4095, 65535, u64::MAX] {
        assert_eq!(dec_text(n), n.to_string());
        assert_eq!(hex_text(n, 4), format!("{n:04X}"));
    }
}

#[test]
fn scans_text_like_the_standard_library() {
    for text in ["", " a b ", "\t\u{A0}x\u{3000}\n", "nothing", "\u{85}"] {
        assert_eq!(trim(text), text.trim());
        assert_eq!(trim_end(text), text.trim_end());
        assert_eq!(lower_text(text), text.to_ascii_lowercase());
        assert_eq!(remove_text(text, "a"), text.replace('a', ""));
    }
    assert_eq!(lower_text("ÄBC"), "Äbc");
    assert!(contains_text("haystack", "sta"));
    assert!(contains_text("x", ""));
    assert!(!contains_text("sta", "stack"));
    assert_eq!(join(&vec!["a".to_string(), "b".to_string()], ", "), "a, b");
    assert_eq!(remove_text("aaa", "aa"), "aaa".replace("aa", ""));
}

#[test]
fn days_have_dates() {
    assert_eq!(civil_from_days(0), (1970, 1, 1));
    assert_eq!(civil_from_days(-1), (1969, 12, 31));
    assert_eq!(civil_from_days(9496), (1996, 1, 1));
    assert_eq!(civil_from_days(11016), (2000, 2, 29));
    assert_eq!(civil_from_days(-719468), (0, 3, 1));
    assert_eq!(civil_from_days(-719469), (0, 2, 29));
}

#[test]
fn formats_timestamps() {
    assert_eq!(format_timestamp(1_700_000_000), "2023-11-14T22:13:20Z");
    assert_eq!(format_timestamp(0), "1970-01-01T00:00:00Z");
    assert_eq!(format_timestamp(u32::MAX), "2106-02-07T06:28:15Z");
}

#[test]
fn colors_only_when_enabled() {
    assert_eq!(bold("x", false), "x");
    assert_eq!(bold("x", true), "\x1b[1mx\x1b[0m");
    assert_eq!(dim("x", true), "\x1b[2mx\x1b[0m");
    assert_eq!(red("x", true), "\x1b[31mx\x1b[0m");
    assert_eq!(green("x", true), "\x1b[32mx\x1b[0m");
    assert_eq!(yellow("x", true), "\x1b[33mx\x1b[0m");
    assert_eq!(cyan("x", true), "\x1b[36mx\x1b[0m");
    assert!(color_enabled(false, false, true));
    assert!(!color_enabled(true, false, true));
    assert!(!color_enabled(false, true, true));
    assert!(!color_enabled(false, false, false));
    assert_eq!(Status::Okay.badge(false), "OK  ");
    assert_eq!(Status::Unknown.badge(true), "\x1b[2m -- \x1b[0m");
}

#[test]
fn pads_headers_and_pairs() {
    assert_eq!(header("Power", false), vec!["", "Power", "────────"]);
    assert_eq!(kv("Key", "value", 6, false), "  Key     value");
    assert_eq!(kv("LongKey", "value", 3, false), "  LongKey  value");
}

#[test]
fn aligns_tables_by_visible_width() {
    let mut table = Table::new(&["ID", "NAME"], &[Align::Right]);
    assert!(table.is_empty());
    table.row(vec![Cell::new("1"), Cell::colored("é", "\x1b[1mé\x1b[0m"), Cell::new("extra")]);
    table.row(vec![Cell::new("100")]);
    assert!(!table.is_empty());
    assert_eq!(
        table.lines(false),
        vec!["   ID  NAME", "    1  \x1b[1mé\x1b[0m", "  100"]
    );
}

#[test]
fn commands_have_default_actions() {
    let power = Command::Power(PowerArgs { action: None });
    assert!(matches!(
        dispatch(power),
        Job::Simple(SimpleCommand::Power(PowerAction::Status))
    ));
    let boot = Command::Boot(BootArgs { action: None });
    assert!(matches!(dispatch(boot), Job::Simple(SimpleCommand::Boot(BootAction::Show))));
    let blink = Command::Identify(IdentifyArgs { action: None });
    assert!(matches!(
        dispatch(blink),
        Job::Simple(SimpleCommand::Identify(IdentifyAction::On { seconds: 15 }))
    ));
    let lan = Command::Lan(LanArgs { action: None });
    assert!(matches!(dispatch(lan), Job::ShowLan(LanShowArgs { channel: None })));
    let disable = UserAction::Disable { user_id: 3, yes: true };
    assert!(matches!(
        dispatch(Command::User(UserArgs { action: disable })),
        Job::Simple(SimpleCommand::Enable { user_id: 3, enabled: false, yes: true })
    ));
}

#[test]
fn shown_ids_read_back() {
    for id in [0u16, 1, 0x3A, 0xFFF, 0xFFFE, 0xFFFF] {
        assert_eq!(parse_u16(&id_string(id)), Ok(id));
    }
}

#[test]
fn unix_times_read_back() {
    for time in [0, 1, -1, 1_700_000_000, i64::MAX, i64::MIN] {
        assert_eq!(read_time(&time.to_string()), Some(time));
    }
    for time in [0u32, 1_700_000_000, u32::MAX] {
        assert_eq!(read_time(&format_timestamp(time)), Some(time as i64));
    }
    assert_eq!(read_time("2023-11-14T23:13:20+01:00"), Some(1_700_000_000));
    assert_eq!(read_time("9223372036854775808"), None);
    assert_eq!(read_time("yesterday"), None);
}
