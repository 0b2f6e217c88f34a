//! BMC users.

use ipmicfg::cli::UserPrivilege;
use ipmicfg::cmd::simple::{Simple, SimpleCommand};
use ipmicfg::cmd::user::{
    padded_16, password_from_file, password_from_prompts, privilege_name, privilege_value,
    validate_channel, Access,
};
use ipmicfg::cmd::user_list::UserList;
use ipmicfg::conn::Response;
use ipmicfg::dialog::{Action, Event, Step};

fn reply(cc: u8, data: &[u8]) -> Event {
    Event::Reply(Ok(Response { cc, data: data.to_vec() }))
}

fn sent(step: &Step) -> (u8, u8, Vec<u8>) {
    match &step.action {
        Action::Send(request) => (request.netfn, request.cmd, request.data.clone()),
        other => panic!("expected a request, got {other:?}"),
    }
}

fn failure(step: &Step) -> String {
    match &step.action {
        Action::Finish(Err(e)) => e.clone(),
        other => panic!("expected a failure, got {other:?}"),
    }
}

#[test]
fn pads_passwords_without_exposing_extra_data() {
    let value = padded_16(b"secret");
    assert_eq!(&value[..6], b"secret");
    assert!(value[6..].iter().all(|byte| *byte == 0));
}

#[test]
fn maps_privileges_to_ipmi_values() {
    assert_eq!(privilege_value(UserPrivilege::Administrator), 4);
    assert_eq!(privilege_value(UserPrivilege::NoAccess), 15);
}

#[test]
fn parses_user_access_bitfields() {
    let access = Access::parse(&[16, 4, 2, 0x34]).unwrap();
    assert_eq!(access.max_users, 16);
    assert!(access.link_auth);
    assert!(access.ipmi_messaging);
    assert_eq!(access.privilege, 4);
}

#[test]
fn long_values_are_cut_at_sixteen() {
    assert_eq!(&padded_16(b"0123456789abcdefXYZ"), b"0123456789abcdef");
}

#[test]
fn names_privileges_and_channels() {
    assert_eq!(privilege_name(5), "OEM");
    assert_eq!(privilege_name(9), "Reserved/unknown");
    assert_eq!(validate_channel(14), Ok(()));
    assert_eq!(validate_channel(13), Err("invalid IPMI channel 13".to_string()));
}

#[test]
fn enables_after_consent() {
    let command = SimpleCommand::Enable { user_id: 3, enabled: true, yes: false };
    let (run, step) = Simple::new(command, false);
    assert!(matches!(&step.action, Action::Confirm(p) if p == "enable BMC user ID 3?"));
    let (run, step) = run.advance(Event::Answer(true));
    assert_eq!(sent(&step), (0x06, 0x47, vec![3, 1]));
    let (_, step) = run.advance(reply(0, &[]));
    assert_eq!(step.lines, vec!["OK: user 3 enabled"]);

    let command = SimpleCommand::Enable { user_id: 3, enabled: false, yes: true };
    let (run, step) = Simple::new(command, false);
    assert_eq!(sent(&step), (0x06, 0x47, vec![3, 0]));
    let (_, step) = run.advance(Event::Reply(Err("lost".to_string())));
    assert_eq!(failure(&step), "Set User Password (disable) failed: lost");
}

#[test]
fn a_privilege_keeps_the_other_access_flags() {
    let command = SimpleCommand::Privilege {
        user_id: 3,
        level: UserPrivilege::Operator,
        channel: 1,
        yes: true,
    };
    let (run, step) = Simple::new(command, false);
    assert_eq!(sent(&step), (0x06, 0x44, vec![1, 3]));
    let (run, step) = run.advance(reply(0, &[16, 4, 2, 0x74]));
    assert_eq!(sent(&step), (0x06, 0x43, vec![0xF1, 3, 3]));
    let (_, step) = run.advance(reply(0, &[]));
    assert_eq!(step.lines, vec!["OK: user privilege updated"]);
}

#[test]
fn privilege_errors_are_reported() {
    let command = |channel| SimpleCommand::Privilege {
        user_id: 3,
        level: UserPrivilege::User,
        channel,
        yes: false,
    };
    let (_, step) = Simple::new(command(12), false);
    assert_eq!(failure(&step), "invalid IPMI channel 12");
    let (run, step) = Simple::new(command(1), false);
    assert!(matches!(
        &step.action,
        Action::Confirm(p) if p == "Set user 3 privilege on channel 1 to User?"
    ));
    let (run, _) = run.advance(Event::Answer(true));
    let (_, step) = run.advance(reply(0, &[1, 2]));
    assert_eq!(failure(&step), "Get User Access returned a short response");
}

#[test]
fn renames_users() {
    let command = |user_id, name: &str, yes| SimpleCommand::Name {
        user_id,
        name: name.to_string(),
        yes,
    };
    let (run, step) = Simple::new(command(3, "ops", true), false);
    let (netfn, cmd, data) = sent(&step);
    assert_eq!((netfn, cmd, data.len()), (0x06, 0x45, 17));
    assert_eq!(&data[..5], &[3, b'o', b'p', b's', 0]);
    let (_, step) = run.advance(reply(0, &[]));
    assert_eq!(step.lines, vec!["OK: username updated"]);

    let (_, step) = Simple::new(command(1, "root", true), false);
    assert_eq!(failure(&step), "user ID 1 has a fixed null username");
    for bad in ["seventeen letters", "naïve", "a\0b"] {
        let (_, step) = Simple::new(command(2, bad, true), false);
        assert_eq!(
            failure(&step),
            "username must be 1-16 ASCII characters without NUL bytes"
        );
    }
    let (_, step) = Simple::new(command(2, "", true), false);
    assert_eq!(failure(&step), "username must not be empty");
    let (run, step) = Simple::new(command(2, "ops", false), false);
    assert!(matches!(
        &step.action,
        Action::Confirm(p) if p == "Rename BMC user ID 2 to 'ops'?"
    ));
    let (_, step) = run.advance(Event::Answer(false));
    assert_eq!(step.lines, vec!["Aborted."]);
}

#[test]
fn rotates_passwords() {
    let (run, step) = Simple::new(SimpleCommand::Password { user_id: 3, yes: true }, false);
    assert!(matches!(step.action, Action::ReadPassword));
    let (run, step) = run.advance(Event::Password(Ok("hunter2".to_string())));
    let (_, cmd, data) = sent(&step);
    assert_eq!((cmd, data.len()), (0x47, 18));
    assert_eq!(&data[..3], &[3, 2, b'h']);
    let (_, step) = run.advance(reply(0x80, &[]));
    assert_eq!(failure(&step), "Set User Password: completion code 0x80");

    for bad in ["", "seventeen letters", "pässword"] {
        let (run, _) = Simple::new(SimpleCommand::Password { user_id: 3, yes: true }, false);
        let (_, step) = run.advance(Event::Password(Ok(bad.to_string())));
        assert_eq!(failure(&step), "password must be 1-16 ASCII characters");
    }
    assert_eq!(password_from_file("secret\r\n\n"), "secret");
    assert_eq!(password_from_prompts("a", "a"), Ok("a".to_string()));
    assert_eq!(
        password_from_prompts("a", "b"),
        Err("passwords do not match".to_string())
    );
}

#[test]
fn lists_users() {
    let list = UserList::new(1, false).unwrap();
    let (list, _) = list.advance(reply(0, &[2, 1, 1, 0x14]));
    let (list, _) = list.advance(reply(0, &[2, 1, 1, 0x0F]));
    let (list, _) = list.advance(reply(0, &[0u8; 16]));
    let (list, _) = list.advance(reply(0, &[2, 1, 1, 0x34]));
    let mut name = b"admin".to_vec();
    name.resize(16, 0);
    let (list, lines) = list.advance(reply(0, &name));
    assert_eq!(
        lines,
        vec![
            "",
            "BMC Users — channel 1",
            "─────────────────────",
            "  ID  NAME         ENABLED  IPMI  LINK  PRIVILEGE      NAME TYPE   ",
            "   1  <null user>  no       no    no    No access      fixed",
            "   2  admin        yes      yes   yes   Administrator  configurable",
            "  Maximum users       2",
            "  Enabled users       1",
            "",
        ]
    );
    assert!(matches!(list.action(), Action::Finish(Ok(()))));
    assert!(UserList::new(12, false).is_err());
}

#[test]
fn unreadable_names_do_not_end_the_list() {
    let list = UserList::new(1, false).unwrap();
    let (list, _) = list.advance(reply(0, &[1, 1, 0, 0x14]));
    let (list, _) = list.advance(reply(0, &[1, 1, 0, 0x14]));
    let (_, lines) = list.advance(reply(0xCC, &[]));
    assert!(lines[4].contains("<unavailable>"));
}
