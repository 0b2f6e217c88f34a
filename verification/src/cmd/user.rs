//! BMC user discovery and guarded account administration.

use vstd::prelude::*;

use crate::cli::UserPrivilege;
use crate::conn::{
    bmc_request, check, checked, concat2, concat3, reply_view, request_to_bmc, Reply, Request,
    RequestView, ResponseView, NETFN_APP,
};
use crate::dialog::{
    aborted, aborted_step, done, done_with, failed, failed_step, outcome_view, quiet_step, quietly,
    Action, ActionView, Step, StepView,
};
use crate::text::{
    chars_of, dec, dec_text, find_byte, find_char, first_index, lossy, lossy_text, same_text,
    text_of, Chars,
};
use crate::ui::{green, greened};

verus! {

pub const CMD_SET_USER_ACCESS: u8 = 0x43;

pub const CMD_GET_USER_ACCESS: u8 = 0x44;

pub const CMD_SET_USER_NAME: u8 = 0x45;

pub const CMD_GET_USER_NAME: u8 = 0x46;

pub const CMD_SET_USER_PASSWORD: u8 = 0x47;

// ---------------------------------------------------------------------
// Access
// ---------------------------------------------------------------------

/// What a controller says of a user's access on a channel.
#[derive(Clone, Copy, Debug, PartialEq, Eq, Structural)]
pub struct Access {
    pub max_users: u8,
    pub enabled_users: u8,
    pub fixed_names: u8,
    pub callback_only: bool,
    pub link_auth: bool,
    pub ipmi_messaging: bool,
    pub privilege: u8,
}

impl Access {
    /// The access in the data of a Get User Access response.
    pub open spec fn of(data: Seq<u8>) -> Option<Access> {
        if data.len() < 4 {
            None
        } else {
            Some(
                Access {
                    max_users: data[0] & 0x3F,
                    enabled_users: data[1] & 0x3F,
                    fixed_names: data[2] & 0x3F,
                    callback_only: data[3] & 0x40 != 0,
                    link_auth: data[3] & 0x20 != 0,
                    ipmi_messaging: data[3] & 0x10 != 0,
                    privilege: data[3] & 0x0F,
                },
            )
        }
    }

    pub fn parse(data: &[u8]) -> (r: Option<Access>)
        ensures
            r == Access::of(data@),
    {
        if data.len() < 4 {
            return None;
        }
        Some(
            Access {
                max_users: data[0] & 0x3F,
                enabled_users: data[1] & 0x3F,
                fixed_names: data[2] & 0x3F,
                callback_only: data[3] & 0x40 != 0,
                link_auth: data[3] & 0x20 != 0,
                ipmi_messaging: data[3] & 0x10 != 0,
                privilege: data[3] & 0x0F,
            },
        )
    }
}

/// The value of a privilege level.
pub open spec fn privilege_number(level: UserPrivilege) -> u8 {
    match level {
        UserPrivilege::Callback => 0x01,
        UserPrivilege::User => 0x02,
        UserPrivilege::Operator => 0x03,
        UserPrivilege::Administrator => 0x04,
        UserPrivilege::Oem => 0x05,
        UserPrivilege::NoAccess => 0x0F,
    }
}

pub fn privilege_value(level: UserPrivilege) -> (v: u8)
    ensures
        v == privilege_number(level),
{
    match level {
        UserPrivilege::Callback => 0x01,
        UserPrivilege::User => 0x02,
        UserPrivilege::Operator => 0x03,
        UserPrivilege::Administrator => 0x04,
        UserPrivilege::Oem => 0x05,
        UserPrivilege::NoAccess => 0x0F,
    }
}

/// The name of a privilege value.
pub open spec fn privilege_text(value: u8) -> Chars {
    if value == 0x01 {
        "Callback"@
    } else if value == 0x02 {
        "User"@
    } else if value == 0x03 {
        "Operator"@
    } else if value == 0x04 {
        "Administrator"@
    } else if value == 0x05 {
        "OEM"@
    } else if value == 0x0F {
        "No access"@
    } else {
        "Reserved/unknown"@
    }
}

pub fn privilege_name(value: u8) -> (s: &'static str)
    ensures
        s@ == privilege_text(value),
{
    match value {
        0x01 => "Callback",
        0x02 => "User",
        0x03 => "Operator",
        0x04 => "Administrator",
        0x05 => "OEM",
        0x0F => "No access",
        _ => "Reserved/unknown",
    }
}

/// Privilege values fit the four bits in which they are read back, and different
/// levels have different values.
pub proof fn law_privileges_are_distinct(a: UserPrivilege, b: UserPrivilege)
    ensures
        privilege_number(a) & 0x0F == privilege_number(a),
        privilege_number(a) == privilege_number(b) ==> a == b,
{
    assert(1u8 & 0x0F == 1 && 2u8 & 0x0F == 2 && 3u8 & 0x0F == 3 && 4u8 & 0x0F == 4 && 5u8 & 0x0F
        == 5 && 0x0Fu8 & 0x0F == 0x0F) by (bit_vector);
}

/// Whether a channel number is valid, or why not.
pub open spec fn channel_verdict(channel: u8) -> Result<(), Chars> {
    if crate::sdr::is_channel(channel as int) {
        Ok(())
    } else {
        Err("invalid IPMI channel "@ + dec(channel as nat))
    }
}

pub fn validate_channel(channel: u8) -> (r: Result<(), String>)
    ensures
        outcome_view(r) == channel_verdict(channel),
{
    if channel <= 0x0B || channel == 0x0E || channel == 0x0F {
        Ok(())
    } else {
        Err(concat2("invalid IPMI channel ", dec_text(channel as u64).as_str()))
    }
}

/// A Get User Access request.
pub open spec fn access_request_view(channel: u8, user_id: u8) -> RequestView {
    bmc_request(NETFN_APP, CMD_GET_USER_ACCESS, seq![channel & 0x0F, user_id])
}

pub fn access_request(channel: u8, user_id: u8) -> (r: Request)
    ensures
        r@ == access_request_view(channel, user_id),
{
    let data = vec![channel & 0x0F, user_id];
    proof {
        assert(data@ =~= seq![channel & 0x0F, user_id]);
    }
    request_to_bmc(NETFN_APP, CMD_GET_USER_ACCESS, data)
}

/// What a Get User Access reply says.
pub open spec fn access_of(user_id: u8, reply: Result<ResponseView, Chars>) -> Result<
    Access,
    Chars,
> {
    match reply {
        Err(e) => Err(
            "Get User Access for user "@ + dec(user_id as nat) + " failed: "@ + e,
        ),
        Ok(response) => match checked(response.cc, "Get User Access"@) {
            Err(e) => Err(e),
            Ok(_) => match Access::of(response.data) {
                Some(access) => Ok(access),
                None => Err("Get User Access returned a short response"@),
            },
        },
    }
}

/// Decodes a Get User Access reply.
pub fn get_access(user_id: u8, reply: Reply) -> (r: Result<Access, String>)
    ensures
        outcome_view(r) == access_of(user_id, reply_view(reply)),
{
    match reply {
        Err(e) => {
            let mut text = concat3(
                "Get User Access for user ",
                dec_text(user_id as u64).as_str(),
                " failed: ",
            );
            text.append(e.as_str());
            Err(text)
        }
        Ok(response) => match check(response.cc, "Get User Access") {
            Err(e) => Err(e),
            Ok(_) => match Access::parse(response.data.as_slice()) {
                Some(access) => Ok(access),
                None => Err("Get User Access returned a short response".to_owned()),
            },
        },
    }
}

/// What a Get User Name reply says: the bytes before the first NUL, as text.
pub open spec fn name_of(user_id: u8, reply: Result<ResponseView, Chars>) -> Result<Chars, Chars> {
    match reply {
        Err(e) => Err("Get User Name for user "@ + dec(user_id as nat) + " failed: "@ + e),
        Ok(response) => match checked(response.cc, "Get User Name"@) {
            Err(e) => Err(e),
            Ok(_) => Ok(lossy(response.data.take(first_index(response.data, 0)))),
        },
    }
}

/// Decodes a Get User Name reply.
pub fn get_name(user_id: u8, reply: Reply) -> (r: Result<String, String>)
    ensures
        match r {
            Ok(name) => name_of(user_id, reply_view(reply)) == Ok::<Chars, Chars>(name@),
            Err(e) => name_of(user_id, reply_view(reply)) == Err::<Chars, Chars>(e@),
        },
{
    match reply {
        Err(e) => {
            let mut text = concat3(
                "Get User Name for user ",
                dec_text(user_id as u64).as_str(),
                " failed: ",
            );
            text.append(e.as_str());
            Err(text)
        }
        Ok(response) => match check(response.cc, "Get User Name") {
            Err(e) => Err(e),
            Ok(_) => {
                let end: usize = find_byte(response.data.as_slice(), 0);
                let bytes = crate::bytes::copy_range(response.data.as_slice(), 0, end);
                proof {
                    assert(bytes@ =~= response.data@.take(end as int));
                }
                Ok(lossy_text(bytes.as_slice()))
            }
        },
    }
}

// ---------------------------------------------------------------------
// `user enable` and `user disable`
// ---------------------------------------------------------------------

pub open spec fn verb_of(enabled: bool) -> Chars {
    if enabled {
        "enable"@
    } else {
        "disable"@
    }
}

fn verb(enabled: bool) -> (s: &'static str)
    ensures
        s@ == verb_of(enabled),
{
    if enabled {
        "enable"
    } else {
        "disable"
    }
}

pub open spec fn enable_sending(user_id: u8, enabled: bool) -> StepView {
    quietly(
        ActionView::Send(
            bmc_request(
                NETFN_APP,
                CMD_SET_USER_PASSWORD,
                seq![
                    user_id,
                    (if enabled {
                        0x01u8
                    } else {
                        0x00
                    }),
                ],
            ),
        ),
    )
}

fn enable_send(user_id: u8, enabled: bool) -> (s: Step)
    ensures
        s@ == enable_sending(user_id, enabled),
{
    let operation: u8 = if enabled {
        0x01
    } else {
        0x00
    };
    let data = vec![user_id, operation];
    proof {
        assert(data@ =~= enable_sending(user_id, enabled).action->Send_0.data);
    }
    quiet_step(Action::Send(request_to_bmc(NETFN_APP, CMD_SET_USER_PASSWORD, data)))
}

/// Begins enabling or disabling a user: confirmed first unless `--yes` is given.
pub fn enable(user_id: u8, enabled: bool, yes: bool) -> (s: Step)
    ensures
        s@ == if yes {
            enable_sending(user_id, enabled)
        } else {
            quietly(
                ActionView::Confirm(
                    verb_of(enabled) + " BMC user ID "@ + dec(user_id as nat) + "?"@,
                ),
            )
        },
{
    if yes {
        enable_send(user_id, enabled)
    } else {
        let mut prompt = concat3(
            verb(enabled),
            " BMC user ID ",
            dec_text(user_id as u64).as_str(),
        );
        prompt.append("?");
        quiet_step(Action::Confirm(prompt))
    }
}

/// Goes on after the question.
pub fn enable_answered(user_id: u8, enabled: bool, yes: bool) -> (s: Step)
    ensures
        s@ == if yes {
            enable_sending(user_id, enabled)
        } else {
            aborted()
        },
{
    if yes {
        enable_send(user_id, enabled)
    } else {
        aborted_step()
    }
}

/// Concludes with the reply.
pub fn enable_replied(user_id: u8, enabled: bool, reply: Reply, color: bool) -> (s: Step)
    ensures
        s@ == match reply_view(reply) {
            Err(e) => failed("Set User Password ("@ + verb_of(enabled) + ") failed: "@ + e),
            Ok(response) => match checked(response.cc, "Set User Password"@) {
                Err(e) => failed(e),
                Ok(_) => done(
                    seq![
                        greened("OK:"@, color) + " user "@ + dec(user_id as nat) + " "@ + verb_of(
                            enabled,
                        ) + "d"@,
                    ],
                ),
            },
        },
{
    match reply {
        Err(e) => {
            let mut text = concat3("Set User Password (", verb(enabled), ") failed: ");
            text.append(e.as_str());
            failed_step(text)
        }
        Ok(response) => match check(response.cc, "Set User Password") {
            Err(e) => failed_step(e),
            Ok(_) => {
                let mut line = concat3(
                    green("OK:", color).as_str(),
                    " user ",
                    dec_text(user_id as u64).as_str(),
                );
                line.append(" ");
                line.append(verb(enabled));
                line.append("d");
                done_with(line)
            }
        },
    }
}

// ---------------------------------------------------------------------
// `user privilege`
// ---------------------------------------------------------------------

/// The first byte of a Set User Access request: the user's other access flags
/// stay as they are.
pub open spec fn access_flags(current: Access, channel: u8) -> u8 {
    0x80 | (if current.callback_only {
        0x40
    } else {
        0u8
    }) | (if current.link_auth {
        0x20
    } else {
        0u8
    }) | (if current.ipmi_messaging {
        0x10
    } else {
        0u8
    }) | (channel & 0x0F)
}

fn flags_of(current: &Access, channel: u8) -> (b: u8)
    ensures
        b == access_flags(*current, channel),
{
    0x80 | (if current.callback_only {
        0x40
    } else {
        0u8
    }) | (if current.link_auth {
        0x20
    } else {
        0u8
    }) | (if current.ipmi_messaging {
        0x10
    } else {
        0u8
    }) | (channel & 0x0F)
}

/// Setting a privilege keeps the user's other access: the flags that are written
/// are the ones that were read, on the channel that was asked for.
pub proof fn law_privilege_keeps_access(current: Access, channel: u8)
    ensures
        access_flags(current, channel) & 0x40 != 0 <==> current.callback_only,
        access_flags(current, channel) & 0x20 != 0 <==> current.link_auth,
        access_flags(current, channel) & 0x10 != 0 <==> current.ipmi_messaging,
        access_flags(current, channel) & 0x0F == channel & 0x0F,
        access_flags(current, channel) & 0x80 != 0,
{
    let c: u8 = if current.callback_only {
        0x40
    } else {
        0
    };
    let l: u8 = if current.link_auth {
        0x20
    } else {
        0
    };
    let m: u8 = if current.ipmi_messaging {
        0x10
    } else {
        0
    };
    let f = access_flags(current, channel);
    assert(f == 0x80 | c | l | m | (channel & 0x0F));
    assert(f & 0x40 == c && f & 0x20 == l && f & 0x10 == m && f & 0x0F == channel & 0x0F && f & 0x80
        == 0x80) by (bit_vector)
        requires
            f == 0x80 | c | l | m | (channel & 0x0F),
            c == 0 || c == 0x40,
            l == 0 || l == 0x20,
            m == 0 || m == 0x10,
    ;
}

pub open spec fn privilege_question(user_id: u8, level: UserPrivilege, channel: u8) -> Chars {
    "Set user "@ + dec(user_id as nat) + " privilege on channel "@ + dec(channel as nat) + " to "@
        + privilege_text(privilege_number(level)) + "?"@
}

/// Begins setting a privilege: confirmed first unless `--yes` is given; then the
/// current access is read.
pub fn privilege(user_id: u8, level: UserPrivilege, channel: u8, yes: bool) -> (s: Step)
    ensures
        s@ == match channel_verdict(channel) {
            Err(e) => failed(e),
            Ok(_) => if yes {
                quietly(ActionView::Send(access_request_view(channel, user_id)))
            } else {
                quietly(ActionView::Confirm(privilege_question(user_id, level, channel)))
            },
        },
{
    if let Err(e) = validate_channel(channel) {
        return failed_step(e);
    }
    if yes {
        quiet_step(Action::Send(access_request(channel, user_id)))
    } else {
        let mut prompt = concat3(
            "Set user ",
            dec_text(user_id as u64).as_str(),
            " privilege on channel ",
        );
        prompt.append(dec_text(channel as u64).as_str());
        prompt.append(" to ");
        prompt.append(privilege_name(privilege_value(level)));
        prompt.append("?");
        quiet_step(Action::Confirm(prompt))
    }
}

/// Goes on after the question.
pub fn privilege_answered(user_id: u8, channel: u8, yes: bool) -> (s: Step)
    ensures
        s@ == if yes {
            quietly(ActionView::Send(access_request_view(channel, user_id)))
        } else {
            aborted()
        },
{
    if yes {
        quiet_step(Action::Send(access_request(channel, user_id)))
    } else {
        aborted_step()
    }
}

/// Goes on with the current access: only the privilege is changed.
pub fn privilege_known(user_id: u8, level: UserPrivilege, channel: u8, reply: Reply) -> (s: Step)
    ensures
        s@ == match access_of(user_id, reply_view(reply)) {
            Err(e) => failed(e),
            Ok(current) => quietly(
                ActionView::Send(
                    bmc_request(
                        NETFN_APP,
                        CMD_SET_USER_ACCESS,
                        seq![access_flags(current, channel), user_id, privilege_number(level)],
                    ),
                ),
            ),
        },
{
    match get_access(user_id, reply) {
        Err(e) => failed_step(e),
        Ok(current) => {
            let data = vec![flags_of(&current, channel), user_id, privilege_value(level)];
            proof {
                assert(data@ =~= seq![
                    access_flags(current, channel),
                    user_id,
                    privilege_number(level),
                ]);
            }
            quiet_step(Action::Send(request_to_bmc(NETFN_APP, CMD_SET_USER_ACCESS, data)))
        }
    }
}

/// Concludes with the reply to the change.
pub fn privilege_replied(reply: Reply, color: bool) -> (s: Step)
    ensures
        s@ == concluded(
            reply_view(reply),
            "Set User Access"@,
            greened("OK:"@, color) + " user privilege updated"@,
        ),
{
    conclude(
        reply,
        "Set User Access",
        concat2(green("OK:", color).as_str(), " user privilege updated"),
    )
}

/// A request with the given name succeeded, or not.
pub open spec fn concluded(
    reply: Result<ResponseView, Chars>,
    operation: Chars,
    line: Chars,
) -> StepView {
    match reply {
        Err(e) => failed(operation + " failed: "@ + e),
        Ok(response) => match checked(response.cc, operation) {
            Err(e) => failed(e),
            Ok(_) => done(seq![line]),
        },
    }
}

pub fn conclude(reply: Reply, operation: &str, line: String) -> (s: Step)
    ensures
        s@ == concluded(reply_view(reply), operation@, line@),
{
    match reply {
        Err(e) => failed_step(concat3(operation, " failed: ", e.as_str())),
        Ok(response) => match check(response.cc, operation) {
            Err(e) => failed_step(e),
            Ok(_) => done_with(line),
        },
    }
}

// ---------------------------------------------------------------------
// `user name` and `user password`
// ---------------------------------------------------------------------

/// Sixteen bytes: the given ones, as far as they fit, then zeros.
pub open spec fn padded(value: Seq<u8>) -> Seq<u8> {
    Seq::new(
        16,
        |i: int|
            if i < value.len() {
                value[i]
            } else {
                0
            },
    )
}

pub fn padded_16(value: &[u8]) -> (r: [u8; 16])
    ensures
        r@ == padded(value@),
{
    let mut r = [0u8; 16];
    let mut i: usize = 0;
    while i < 16 && i < value.len()
        invariant
            i <= 16,
            i <= value@.len(),
            forall|k: int| 0 <= k < i ==> r@[k] == value@[k],
            forall|k: int| i <= k < 16 ==> r@[k] == 0,
        decreases 16 - i,
    {
        r[i] = value[i];
        i = i + 1;
    }
    proof {
        assert(r@ =~= padded(value@));
    }
    r
}

/// A name that was padded is read back: the bytes before the first NUL are the
/// ones that were given, for up to sixteen of them without NUL.
pub proof fn law_padded_text_reads_back(value: Seq<u8>)
    requires
        value.len() <= 16,
        forall|i: int| 0 <= i < value.len() ==> value[i] != 0,
    ensures
        padded(value).take(first_index(padded(value), 0)) == value,
{
    crate::text::lemma_first_index(padded(value), 0, value.len() as int);
    assert(padded(value).take(value.len() as int) =~= value);
}

/// Whether every character is ASCII.
pub open spec fn all_ascii(s: Chars) -> bool {
    forall|i: int| 0 <= i < s.len() ==> (#[trigger] s[i] as u32) < 128
}

/// ASCII characters as bytes.
pub open spec fn ascii_bytes_of(s: Chars) -> Seq<u8> {
    Seq::new(s.len(), |i: int| (s[i] as u32) as u8)
}

fn to_ascii(s: &str) -> (r: Option<Vec<u8>>)
    ensures
        match r {
            Some(bytes) => all_ascii(s@) && bytes@ == ascii_bytes_of(s@),
            None => !all_ascii(s@),
        },
{
    let chars = chars_of(s);
    let mut bytes: Vec<u8> = Vec::new();
    let mut i: usize = 0;
    proof {
        assert(bytes@ =~= ascii_bytes_of(s@.take(0)));
    }
    while i < chars.len()
        invariant
            i <= chars.len(),
            chars@ == s@,
            forall|k: int| 0 <= k < i ==> (#[trigger] s@[k] as u32) < 128,
            bytes@ == ascii_bytes_of(s@.take(i as int)),
        decreases chars.len() - i,
    {
        let n: u32 = chars[i] as u32;
        if n >= 128 {
            proof {
                assert(!((s@[i as int] as u32) < 128));
            }
            return None;
        }
        bytes.push(n as u8);
        proof {
            assert(bytes@ =~= ascii_bytes_of(s@.take(i + 1)));
        }
        i = i + 1;
    }
    proof {
        assert(s@.take(s@.len() as int) =~= s@);
    }
    Some(bytes)
}

/// Whether a name can be given to a user, or why not.
pub open spec fn name_verdict(user_id: u8, name: Chars) -> Result<(), Chars> {
    if user_id == 1 {
        Err("user ID 1 has a fixed null username"@)
    } else if !all_ascii(name) || name.contains('\0') || name.len() > 16 {
        Err("username must be 1-16 ASCII characters without NUL bytes"@)
    } else if name.len() == 0 {
        Err("username must not be empty"@)
    } else {
        Ok(())
    }
}

pub open spec fn name_sending(user_id: u8, name: Chars) -> StepView {
    quietly(
        ActionView::Send(
            bmc_request(
                NETFN_APP,
                CMD_SET_USER_NAME,
                seq![user_id] + padded(ascii_bytes_of(name)),
            ),
        ),
    )
}

/// The bytes of a valid name.
fn name_bytes(user_id: u8, name: &str) -> (r: Result<Vec<u8>, String>)
    ensures
        match r {
            Ok(bytes) => name_verdict(user_id, name@) is Ok && bytes@ == ascii_bytes_of(name@),
            Err(e) => name_verdict(user_id, name@) == Err::<(), Chars>(e@),
        },
{
    if user_id == 1 {
        return Err("user ID 1 has a fixed null username".to_owned());
    }
    let bytes = match to_ascii(name) {
        Some(bytes) => bytes,
        None => {
            return Err("username must be 1-16 ASCII characters without NUL bytes".to_owned());
        }
    };
    let chars = chars_of(name);
    let nul: usize = find_char(chars.as_slice(), '\0');
    proof {
        if nul == name@.len() && name@.contains('\0') {
            let i = choose|i: int| 0 <= i < name@.len() && name@[i] == '\0';
            lemma_first_is_least(name@, '\0', i);
        }
    }
    if nul < chars.len() || bytes.len() > 16 {
        return Err("username must be 1-16 ASCII characters without NUL bytes".to_owned());
    }
    if bytes.len() == 0 {
        return Err("username must not be empty".to_owned());
    }
    Ok(bytes)
}

proof fn lemma_first_is_least(s: Chars, x: char, i: int)
    requires
        0 <= i < s.len(),
        s[i] == x,
    ensures
        first_index(s, x) <= i,
    decreases s.len(),
{
    if s[0] != x {
        lemma_first_is_least(s.drop_first(), x, i - 1);
    }
}

fn name_send(user_id: u8, bytes: &Vec<u8>) -> (s: Step)
    ensures
        s@ == quietly(
            ActionView::Send(
                bmc_request(NETFN_APP, CMD_SET_USER_NAME, seq![user_id] + padded(bytes@)),
            ),
        ),
{
    let field = padded_16(bytes.as_slice());
    let mut data = vec![user_id];
    push_field(&mut data, &field);
    proof {
        assert(data@ =~= seq![user_id] + padded(bytes@));
    }
    quiet_step(Action::Send(request_to_bmc(NETFN_APP, CMD_SET_USER_NAME, data)))
}

fn push_field(data: &mut Vec<u8>, field: &[u8; 16])
    ensures
        final(data)@ == old(data)@ + field@,
{
    let ghost before = data@;
    let mut i: usize = 0;
    proof {
        assert(data@ =~= before + field@.take(0));
    }
    while i < 16
        invariant
            i <= 16,
            data@ == before + field@.take(i as int),
        decreases 16 - i,
    {
        data.push(field[i]);
        proof {
            assert(data@ =~= before + field@.take(i + 1));
        }
        i = i + 1;
    }
    proof {
        assert(field@.take(16) =~= field@);
    }
}

/// Begins renaming a user: an invalid name is rejected; a valid one is confirmed
/// first unless `--yes` is given.
pub fn set_name(user_id: u8, name: &str, yes: bool) -> (s: Step)
    ensures
        s@ == match name_verdict(user_id, name@) {
            Err(e) => failed(e),
            Ok(_) => if yes {
                name_sending(user_id, name@)
            } else {
                quietly(
                    ActionView::Confirm(
                        "Rename BMC user ID "@ + dec(user_id as nat) + " to '"@ + name@ + "'?"@,
                    ),
                )
            },
        },
{
    match name_bytes(user_id, name) {
        Err(e) => failed_step(e),
        Ok(bytes) => {
            if yes {
                name_send(user_id, &bytes)
            } else {
                let mut prompt = concat3(
                    "Rename BMC user ID ",
                    dec_text(user_id as u64).as_str(),
                    " to '",
                );
                prompt.append(name);
                prompt.append("'?");
                quiet_step(Action::Confirm(prompt))
            }
        }
    }
}

/// Goes on after the question.
pub fn name_answered(user_id: u8, name: &str, yes: bool) -> (s: Step)
    ensures
        s@ == if !yes {
            aborted()
        } else {
            match name_verdict(user_id, name@) {
                Err(e) => failed(e),
                Ok(_) => name_sending(user_id, name@),
            }
        },
{
    if !yes {
        return aborted_step();
    }
    match name_bytes(user_id, name) {
        Err(e) => failed_step(e),
        Ok(bytes) => name_send(user_id, &bytes),
    }
}

/// Concludes with the reply.
pub fn name_replied(reply: Reply, color: bool) -> (s: Step)
    ensures
        s@ == concluded(
            reply_view(reply),
            "Set User Name"@,
            greened("OK:"@, color) + " username updated"@,
        ),
{
    conclude(
        reply,
        "Set User Name",
        concat2(green("OK:", color).as_str(), " username updated"),
    )
}

/// Begins rotating a password: confirmed first unless `--yes` is given.
pub fn password(user_id: u8, yes: bool) -> (s: Step)
    ensures
        s@ == if yes {
            quietly(ActionView::ReadPassword)
        } else {
            quietly(
                ActionView::Confirm(
                    "Rotate the password for BMC user ID "@ + dec(user_id as nat) + "?"@,
                ),
            )
        },
{
    if yes {
        quiet_step(Action::ReadPassword)
    } else {
        quiet_step(
            Action::Confirm(
                concat3(
                    "Rotate the password for BMC user ID ",
                    dec_text(user_id as u64).as_str(),
                    "?",
                ),
            ),
        )
    }
}

/// Goes on after the question.
pub fn password_answered(yes: bool) -> (s: Step)
    ensures
        s@ == if yes {
            quietly(ActionView::ReadPassword)
        } else {
            aborted()
        },
{
    if yes {
        quiet_step(Action::ReadPassword)
    } else {
        aborted_step()
    }
}

/// A text without the line ends at its end.
pub open spec fn without_line_end(s: Chars) -> Chars
    decreases s.len(),
{
    if s.len() > 0 && (s.last() == '\r' || s.last() == '\n') {
        without_line_end(s.drop_last())
    } else {
        s
    }
}

/// The password in the text of a password file: without the line ends at its
/// end.
pub fn password_from_file(text: &str) -> (s: String)
    ensures
        s@ == without_line_end(text@),
{
    let mut chars = chars_of(text);
    while chars.len() > 0 && (chars[chars.len() - 1] == '\r' || chars[chars.len() - 1] == '\n')
        invariant
            without_line_end(chars@) == without_line_end(text@),
        decreases chars.len(),
    {
        let ghost before = chars@;
        chars.pop();
        proof {
            assert(chars@ =~= before.drop_last());
        }
    }
    text_of(chars.as_slice())
}

/// The password that was typed twice, if it was the same.
pub open spec fn typed_twice(first: Chars, second: Chars) -> Option<Chars> {
    if first == second {
        Some(first)
    } else {
        None
    }
}

/// The password that was typed twice.
pub fn password_from_prompts(first: &str, second: &str) -> (r: Result<String, String>)
    ensures
        match r {
            Ok(s) => typed_twice(first@, second@) == Some(s@),
            Err(_) => typed_twice(first@, second@) is None,
        },
        match r {
            Ok(s) => first@ == second@ && s@ == first@,
            Err(e) => first@ != second@ && e@ == "passwords do not match"@,
        },
{
    if same_text(first, second) {
        Ok(first.to_owned())
    } else {
        Err("passwords do not match".to_owned())
    }
}

/// Whether a password has the broadly compatible form: 1 to 16 ASCII
/// characters.
pub open spec fn is_password(s: Chars) -> bool {
    1 <= s.len() <= 16 && all_ascii(s)
}

pub open spec fn password_sending(user_id: u8, password: Chars) -> StepView {
    quietly(
        ActionView::Send(
            bmc_request(
                NETFN_APP,
                CMD_SET_USER_PASSWORD,
                seq![user_id, 0x02u8] + padded(ascii_bytes_of(password)),
            ),
        ),
    )
}

/// Goes on with the password.
pub fn password_given(user_id: u8, password: Result<String, String>) -> (s: Step)
    ensures
        s@ == match password {
            Err(e) => failed(e@),
            Ok(password) => if is_password(password@) {
                password_sending(user_id, password@)
            } else {
                failed("password must be 1-16 ASCII characters"@)
            },
        },
{
    let password = match password {
        Err(e) => {
            return failed_step(e);
        }
        Ok(password) => password,
    };
    match to_ascii(password.as_str()) {
        Some(bytes) => {
            if bytes.len() >= 1 && bytes.len() <= 16 {
                let field = padded_16(bytes.as_slice());
                let mut data = vec![user_id, 0x02];
                push_field(&mut data, &field);
                proof {
                    assert(data@ =~= seq![user_id, 0x02u8] + padded(bytes@));
                }
                return quiet_step(
                    Action::Send(request_to_bmc(NETFN_APP, CMD_SET_USER_PASSWORD, data)),
                );
            }
        }
        None => {}
    }
    failed_step("password must be 1-16 ASCII characters".to_owned())
}

/// Concludes with the reply.
pub fn password_replied(reply: Reply, color: bool) -> (s: Step)
    ensures
        s@ == concluded(
            reply_view(reply),
            "Set User Password"@,
            greened("OK:"@, color) + " password updated"@,
        ),
{
    conclude(
        reply,
        "Set User Password",
        concat2(green("OK:", color).as_str(), " password updated"),
    )
}

} // verus!
