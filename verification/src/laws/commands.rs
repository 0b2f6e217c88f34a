//! The commands of a few steps: power, boot, identify, the BMC itself, raw
//! requests and users.

use vstd::prelude::*;

use crate::cli::{BootAction, BootDevice, IdentifyAction, PowerAction, RawArgs, UserPrivilege};
use crate::cmd::bmc::{fault_lines, fault_text};
use crate::cmd::boot::{flags_of, selector_text};
use crate::cmd::simple::{answered_step, replied_step, secret_step, start_step, SimpleCommand};
use crate::cmd::user::{access_of, all_ascii, ascii_bytes_of, padded, privilege_text};
use crate::cmd::user_list::{user_row, UsersPhaseView, UsersView};
use crate::cmd::{chassis_status_of, means_yes, policy_name};
use crate::conn::{RequestView, ResponseView};
use crate::dialog::ActionView;
use crate::laws::{answer, bit, byte, lemma_bits, lemma_mask_bit, picked, to_bmc};
use crate::text::Chars;

verus! {

/// What a command sends once the user has agreed: at once if it does not ask,
/// after the answer if it does.
pub open spec fn sent(command: SimpleCommand, color: bool) -> Option<RequestView> {
    let first = start_step(command, color).action;
    let then = if first is Confirm {
        answered_step(command, true, color).action
    } else {
        first
    };
    match then {
        ActionView::Send(request) => Some(request),
        _ => None,
    }
}

/// Whether a command asks before it sends anything.
pub open spec fn asks(command: SimpleCommand, color: bool) -> bool {
    start_step(command, color).action is Confirm
}

/// Chassis Control (network function 0, command 2) takes one byte: 0 powers
/// down, 1 powers up, 2 cycles, 3 resets, 4 pulses a diagnostic interrupt and 5
/// asks for a soft shutdown. Each action sends its own.
pub proof fn law_power_control_bytes(action: PowerAction, other: PowerAction, color: bool)
    ensures
        action == PowerAction::Off ==> sent(SimpleCommand::Power(action), color) == Some(
            to_bmc(0, 2, seq![0u8]),
        ),
        action == PowerAction::On ==> sent(SimpleCommand::Power(action), color) == Some(
            to_bmc(0, 2, seq![1u8]),
        ),
        action == PowerAction::Cycle ==> sent(SimpleCommand::Power(action), color) == Some(
            to_bmc(0, 2, seq![2u8]),
        ),
        action == PowerAction::Reset ==> sent(SimpleCommand::Power(action), color) == Some(
            to_bmc(0, 2, seq![3u8]),
        ),
        action == PowerAction::Diag ==> sent(SimpleCommand::Power(action), color) == Some(
            to_bmc(0, 2, seq![4u8]),
        ),
        action == PowerAction::Soft ==> sent(SimpleCommand::Power(action), color) == Some(
            to_bmc(0, 2, seq![5u8]),
        ),
        action == PowerAction::Status ==> sent(SimpleCommand::Power(action), color) == Some(
            to_bmc(0, 1, seq![]),
        ),
        sent(SimpleCommand::Power(action), color) == sent(SimpleCommand::Power(other), color)
            ==> action == other,
{
    let a = sent(SimpleCommand::Power(action), color)->0.data;
    let b = sent(SimpleCommand::Power(other), color)->0.data;
    assert(a.len() > 0 && b.len() > 0 ==> (a == b ==> a[0] == b[0]));
}

/// A control byte that cuts, cycles or interrupts the host is never sent before
/// the question was answered with yes; only powering up and the soft request
/// go out unasked.
pub proof fn law_disruptive_bytes_wait_for_consent(action: PowerAction, color: bool)
    ensures
        match start_step(SimpleCommand::Power(action), color).action {
            ActionView::Send(request) => request == to_bmc(0, 1, seq![]) || request == to_bmc(
                0,
                2,
                seq![1u8],
            ) || request == to_bmc(0, 2, seq![5u8]),
            ActionView::Confirm(question) => !(answered_step(
                SimpleCommand::Power(action),
                false,
                color,
            ).action is Send),
            _ => false,
        },
{
}

/// The controller's own answer decides: an action is reported as done exactly
/// when the completion code is zero.
pub proof fn law_power_reports_the_reply(action: PowerAction, response: ResponseView, color: bool)
    requires
        action != PowerAction::Status,
    ensures
        match replied_step(SimpleCommand::Power(action), Ok(response), color).action {
            ActionView::Finish(r) => r is Ok <==> response.cc == 0,
            _ => false,
        },
{
}

/// Get Chassis Status: bit 0 of the first byte is the power, bit 1 an overload,
/// bit 3 a fault, bits 5 and 6 the restore policy (0 off, 1 previous, 2 on); bit
/// 0 of the third byte is an intrusion and bit 3 a cooling fault. Missing bytes
/// count as zero.
pub proof fn law_chassis_status_bits(data: Seq<u8>)
    ensures
        ({
            let b0 = byte(data, 0);
            let b2 = byte(data, 2);
            let cs = chassis_status_of(answer(data))->Ok_0;
            &&& chassis_status_of(answer(data)) is Ok
            &&& cs.power_on == bit(b0, 0)
            &&& cs.power_overload == bit(b0, 1)
            &&& cs.power_fault == bit(b0, 3)
            &&& cs.intrusion == bit(b2, 0)
            &&& cs.cooling_fault == bit(b2, 3)
            &&& !bit(b0, 5) && !bit(b0, 6) ==> policy_name(cs.restore_policy) == "always off"@
            &&& bit(b0, 5) && !bit(b0, 6) ==> policy_name(cs.restore_policy) == "previous state"@
            &&& !bit(b0, 5) && bit(b0, 6) ==> policy_name(cs.restore_policy) == "always on"@
            &&& bit(b0, 5) && bit(b0, 6) ==> policy_name(cs.restore_policy) == "unknown"@
        }),
{
    let b0 = byte(data, 0);
    let b2 = byte(data, 2);
    lemma_bits(b0);
    lemma_bits(b2);
    assert({
        &&& (b0 & 0x20 == 0 && b0 & 0x40 == 0 ==> (b0 >> 5) & 3 == 0)
        &&& (b0 & 0x20 != 0 && b0 & 0x40 == 0 ==> (b0 >> 5) & 3 == 1)
        &&& (b0 & 0x20 == 0 && b0 & 0x40 != 0 ==> (b0 >> 5) & 3 == 2)
        &&& (b0 & 0x20 != 0 && b0 & 0x40 != 0 ==> (b0 >> 5) & 3 == 3)
    }) by (bit_vector);
}

/// Resetting the BMC uses the App commands 2 (cold) and 3 (warm), and the self
/// test command 4.
pub proof fn law_bmc_requests(warm: bool, yes: bool, color: bool)
    ensures
        sent(SimpleCommand::Reset { warm, yes }, color) == Some(
            to_bmc(
                6,
                if warm {
                    3
                } else {
                    2
                },
                seq![],
            ),
        ),
        asks(SimpleCommand::Reset { warm, yes }, color) == !yes,
        sent(SimpleCommand::Selftest, color) == Some(to_bmc(6, 4, seq![])),
{
}

/// What each bit of the self test detail says.
pub open spec fn self_test_faults() -> Seq<Chars> {
    seq![
        "  - cannot access SEL device"@,
        "  - cannot access SDR repository"@,
        "  - cannot access BMC FRU device"@,
        "  - IPMB signal lines do not respond"@,
        "  - SDR repository is empty"@,
        "  - internal use area of BMC FRU corrupted"@,
        "  - controller update (boot block) firmware corrupted"@,
        "  - controller operational firmware corrupted"@,
    ]
}

proof fn lemma_fault_lines(detail: u8, n: int)
    requires
        0 <= n <= 8,
    ensures
        fault_lines(detail, n) == picked(detail, self_test_faults(), n),
    decreases n,
{
    if n > 0 {
        lemma_fault_lines(detail, n - 1);
        lemma_mask_bit(detail, (n - 1) as u8);
        reveal_strlit("  - ");
        reveal_strlit("cannot access SEL device");
        reveal_strlit("  - cannot access SEL device");
        reveal_strlit("cannot access SDR repository");
        reveal_strlit("  - cannot access SDR repository");
        reveal_strlit("cannot access BMC FRU device");
        reveal_strlit("  - cannot access BMC FRU device");
        reveal_strlit("IPMB signal lines do not respond");
        reveal_strlit("  - IPMB signal lines do not respond");
        reveal_strlit("SDR repository is empty");
        reveal_strlit("  - SDR repository is empty");
        reveal_strlit("internal use area of BMC FRU corrupted");
        reveal_strlit("  - internal use area of BMC FRU corrupted");
        reveal_strlit("controller update (boot block) firmware corrupted");
        reveal_strlit("  - controller update (boot block) firmware corrupted");
        reveal_strlit("controller operational firmware corrupted");
        reveal_strlit("  - controller operational firmware corrupted");
        assert("  - "@ + fault_text(n - 1) =~= self_test_faults()[n - 1]);
    }
}

/// The self test passes with 0x55 and is not implemented with 0x56; every other
/// result is a failure. With 0x57 the lines behind the heading are those of the
/// set bits of the detail, lowest first.
pub proof fn law_self_test_results(result: u8, detail: u8, rest: Seq<u8>, color: bool)
    ensures
        ({
            let step = replied_step(SimpleCommand::Selftest, answer(seq![result, detail] + rest), color);
            &&& step.action is Finish
            &&& step.action->Finish_0 is Ok <==> result == 0x55 || result == 0x56
            &&& result == 0x55 || result == 0x56 ==> step.lines.len() == 1
            &&& result == 0x57 ==> step.lines.len() > 0 && step.lines.skip(1) == picked(
                detail,
                self_test_faults(),
                8,
            )
        }),
{
    lemma_fault_lines(detail, 8);
    let step = replied_step(SimpleCommand::Selftest, answer(seq![result, detail] + rest), color);
    if result == 0x57 {
        assert(step.lines.skip(1) =~= fault_lines(detail, 8));
    }
}

/// Chassis Identify (network function 0, command 4) takes the seconds; 0 turns
/// the light off. Forcing it on adds a second byte 1, and a controller that
/// does not know that byte (0xC7) is asked for its longest blink instead.
pub proof fn law_identify_requests(seconds: u8, color: bool)
    ensures
        sent(SimpleCommand::Identify(IdentifyAction::On { seconds }), color) == Some(
            to_bmc(0, 4, seq![seconds]),
        ),
        sent(SimpleCommand::Identify(IdentifyAction::Off), color) == Some(
            to_bmc(0, 4, seq![0u8]),
        ),
        sent(SimpleCommand::Identify(IdentifyAction::Force), color) == Some(
            to_bmc(0, 4, seq![0u8, 1u8]),
        ),
        replied_step(
            SimpleCommand::Identify(IdentifyAction::Force),
            Ok(ResponseView { cc: 0xC7, data: seq![] }),
            color,
        ).action == ActionView::Send(to_bmc(0, 4, seq![255u8])),
        replied_step(
            SimpleCommand::Identify(IdentifyAction::On { seconds }),
            Ok(ResponseView { cc: 0xC7, data: seq![] }),
            color,
        ).action is Finish,
{
}

/// A raw request goes out exactly as it was given, to the network function and
/// command that were given.
pub proof fn law_raw_sends_what_was_given(args: RawArgs, color: bool)
    ensures
        sent(SimpleCommand::Raw(args), color) == Some(to_bmc(args.netfn, args.command, args.data@)),
        asks(SimpleCommand::Raw(args), color) == !args.yes,
{
}

/// The code by which the boot flags select a device: 1 PXE, 2 disk, 5 CD/DVD, 6
/// the BIOS setup.
pub open spec fn boot_code(device: BootDevice) -> u8 {
    match device {
        BootDevice::Pxe => 1,
        BootDevice::Disk => 2,
        BootDevice::Optical => 5,
        BootDevice::Bios => 6,
    }
}

/// Set System Boot Options (network function 0, command 8) writes parameter 5:
/// in its first byte bit 7 makes the override valid, bit 6 persistent and bit 5
/// EFI; bits 2 to 5 of the second select the device. Clearing writes zeros, and
/// showing reads the same parameter (command 9).
pub proof fn law_boot_requests(device: BootDevice, persistent: bool, uefi: bool, yes: bool, color: bool)
    ensures
        ({
            let set = BootAction::Override { boot_device: device, persistent, uefi, yes };
            let request = sent(SimpleCommand::Boot(set), color)->0;
            &&& sent(SimpleCommand::Boot(set), color) is Some
            &&& request == to_bmc(0, 8, request.data)
            &&& request.data.len() == 6
            &&& request.data[0] == 5
            &&& request.data[1] == 0x80 + (if persistent {
                0x40int
            } else {
                0
            }) + (if uefi {
                0x20int
            } else {
                0
            })
            &&& request.data[2] == 4 * boot_code(device)
            &&& request.data[3] == 0 && request.data[4] == 0 && request.data[5] == 0
            &&& asks(SimpleCommand::Boot(set), color) == (persistent && !yes)
        }),
        sent(SimpleCommand::Boot(BootAction::Clear), color) == Some(
            to_bmc(0, 8, seq![5u8, 0, 0, 0, 0, 0]),
        ),
        sent(SimpleCommand::Boot(BootAction::Show), color) == Some(
            to_bmc(0, 9, seq![5u8, 0, 0]),
        ),
{
    let cleared = sent(SimpleCommand::Boot(BootAction::Clear), color)->0;
    assert(cleared.data =~= seq![5u8, 0, 0, 0, 0, 0]);
    let set = BootAction::Override { boot_device: device, persistent, uefi, yes };
    let request = sent(SimpleCommand::Boot(set), color)->0;
    assert(request.data.len() == 6);
}

/// Boot flags are read by the same layout: bit 7 of the second byte locks the
/// parameter, bits 7, 6 and 5 of the third are valid, persistent and EFI, and
/// bits 2 to 5 of the fourth the device, which is shown by the name of its code.
pub proof fn law_boot_flags_bits(b0: u8, b1: u8, b2: u8, b3: u8, rest: Seq<u8>)
    ensures
        ({
            let flags = flags_of(seq![b0, b1, b2, b3] + rest);
            &&& flags.available == !bit(b1, 7)
            &&& flags.active == bit(b2, 7)
            &&& flags.persistent == bit(b2, 6)
            &&& flags.uefi == bit(b2, 5)
            &&& flags.selector == (b3 / 4) % 16
        }),
        selector_text(0) == "default/no override"@,
        selector_text(1) == "PXE/network"@,
        selector_text(2) == "default disk"@,
        selector_text(3) == "default disk (safe mode)"@,
        selector_text(4) == "diagnostic partition"@,
        selector_text(5) == "CD/DVD"@,
        selector_text(6) == "BIOS setup"@,
        selector_text(15) == "removable media"@,
{
    lemma_bits(b1);
    lemma_bits(b2);
    assert((b3 >> 2) & 0x0F == (b3 / 4) % 16) by (bit_vector);
}

/// The standard code of a privilege level: the rights grow from callback (1)
/// over user, operator and administrator to OEM (5); 15 is no access.
pub open spec fn standard_code(level: UserPrivilege) -> u8 {
    match level {
        UserPrivilege::Callback => 1,
        UserPrivilege::User => 2,
        UserPrivilege::Operator => 3,
        UserPrivilege::Administrator => 4,
        UserPrivilege::Oem => 5,
        UserPrivilege::NoAccess => 15,
    }
}

/// The name of a privilege level.
pub open spec fn level_name(level: UserPrivilege) -> Chars {
    match level {
        UserPrivilege::Callback => "Callback"@,
        UserPrivilege::User => "User"@,
        UserPrivilege::Operator => "Operator"@,
        UserPrivilege::Administrator => "Administrator"@,
        UserPrivilege::Oem => "OEM"@,
        UserPrivilege::NoAccess => "No access"@,
    }
}

/// Changing a privilege reads the user's access (App command 0x44) and writes it
/// back (0x43) with the standard code of the level and nothing else changed: the
/// first byte enables the change (bit 7), repeats the three access bits that
/// were read (bits 6, 5 and 4) and names the channel.
pub proof fn law_privilege_writes_the_standard_code(
    user_id: u8,
    level: UserPrivilege,
    channel: u8,
    yes: bool,
    color: bool,
    b0: u8,
    b1: u8,
    b2: u8,
    b3: u8,
    rest: Seq<u8>,
)
    requires
        channel <= 15 && channel != 12 && channel != 13,
    ensures
        ({
            let command = SimpleCommand::Privilege { user_id, level, channel, yes };
            let write = replied_step(command, answer(seq![b0, b1, b2, b3] + rest), color).action;
            let data = write->Send_0.data;
            &&& sent(command, color) == Some(to_bmc(6, 0x44, seq![channel, user_id]))
            &&& asks(command, color) == !yes
            &&& write == ActionView::Send(to_bmc(6, 0x43, data))
            &&& data.len() == 3
            &&& bit(data[0], 7)
            &&& bit(data[0], 6) == bit(b3, 6)
            &&& bit(data[0], 5) == bit(b3, 5)
            &&& bit(data[0], 4) == bit(b3, 4)
            &&& data[0] % 16 == channel
            &&& data[1] == user_id
            &&& data[2] == standard_code(level)
        }),
{
    let command = SimpleCommand::Privilege { user_id, level, channel, yes };
    assert(channel & 0x0F == channel) by (bit_vector)
        requires
            channel <= 15,
    ;
    let c: u8 = if b3 & 0x40 != 0 {
        0x40
    } else {
        0
    };
    let l: u8 = if b3 & 0x20 != 0 {
        0x20
    } else {
        0
    };
    let m: u8 = if b3 & 0x10 != 0 {
        0x10
    } else {
        0
    };
    let f: u8 = 0x80 | c | l | m | (channel & 0x0F);
    assert(f & 0x80 != 0 && f & 0x40 == c && f & 0x20 == l && f & 0x10 == m && f % 16 == channel)
        by (bit_vector)
        requires
            channel <= 15,
            f == 0x80 | c | l | m | (channel & 0x0F),
            c == 0 || c == 0x40,
            l == 0 || l == 0x20,
            m == 0 || m == 0x10,
    ;
    lemma_bits(f);
    lemma_bits(b3);
    let write = replied_step(command, answer(seq![b0, b1, b2, b3] + rest), color).action;
    assert(write->Send_0.data[0] == f);
}

/// A user's access is shown by the standard codes: the name shown for the code
/// of a level is that of the level, and the bits 6, 5 and 4 are callback only,
/// link authentication and IPMI messaging. The counts have six bits.
pub proof fn law_access_is_shown_by_the_standard_codes(
    level: UserPrivilege,
    id: u8,
    name: Chars,
    fixed: u8,
    b0: u8,
    b1: u8,
    b2: u8,
    b3: u8,
    rest: Seq<u8>,
)
    ensures
        privilege_text(standard_code(level)) == level_name(level),
        ({
            let access = access_of(id, answer(seq![b0, b1, b2, b3] + rest))->Ok_0;
            let row = user_row(id, name, access, fixed);
            let yes_no = |b: bool|
                if b {
                    "yes"@
                } else {
                    "no"@
                };
            &&& access_of(id, answer(seq![b0, b1, b2, b3] + rest)) is Ok
            &&& access.max_users == b0 % 64
            &&& access.enabled_users == b1 % 64
            &&& access.fixed_names == b2 % 64
            &&& access.callback_only == bit(b3, 6)
            &&& access.link_auth == bit(b3, 5)
            &&& access.ipmi_messaging == bit(b3, 4)
            &&& access.privilege == b3 % 16
            &&& row.len() == 7
            &&& name.len() > 0 ==> row[1].plain == name
            &&& row[2].plain == yes_no(bit(b3, 5) || bit(b3, 4))
            &&& row[3].plain == yes_no(bit(b3, 4))
            &&& row[4].plain == yes_no(bit(b3, 5))
            &&& b3 % 16 == standard_code(level) ==> row[5].plain == level_name(level)
            &&& row[6].plain == if id <= fixed {
                "fixed"@
            } else {
                "configurable"@
            }
        }),
{
    lemma_bits(b3);
    assert(b0 & 0x3F == b0 % 64 && b1 & 0x3F == b1 % 64 && b2 & 0x3F == b2 % 64 && b3 & 0x0F == b3
        % 16) by (bit_vector);
}

/// Enabling and disabling a user is Set User Password (App command 0x47) with
/// operation 1 or 0.
pub proof fn law_enable_requests(user_id: u8, enabled: bool, yes: bool, color: bool)
    ensures
        sent(SimpleCommand::Enable { user_id, enabled, yes }, color) == Some(
            to_bmc(
                6,
                0x47,
                seq![
                    user_id,
                    (if enabled {
                        1u8
                    } else {
                        0
                    }),
                ],
            ),
        ),
        asks(SimpleCommand::Enable { user_id, enabled, yes }, color) == !yes,
{
}

proof fn lemma_ascii(s: Chars)
    ensures
        all_ascii(s) <==> forall|k: int| 0 <= k < s.len() ==> (#[trigger] s[k]) <= '\x7f',
        all_ascii(s) ==> forall|k: int|
            0 <= k < s.len() ==> (#[trigger] ascii_bytes_of(s)[k]) as char == s[k],
{
    assert forall|k: int| 0 <= k < s.len() implies ((#[trigger] s[k]) <= '\x7f') == ((s[k] as u32)
        < 128) by {
        lemma_ascii_char(s[k]);
    }
    if all_ascii(s) {
        assert forall|k: int| 0 <= k < s.len() implies (#[trigger] ascii_bytes_of(s)[k]) as char
            == s[k] by {
            assert((s[k] as u32) < 128);
            lemma_ascii_char(s[k]);
        }
    }
}

proof fn lemma_ascii_char(c: char)
    ensures
        (c <= '\x7f') == ((c as u32) < 128),
        (c as u32) < 128 ==> ((c as u32) as u8) as char == c,
{
}

/// A password is written by operation 2 of the same command, padded with zeros
/// to sixteen bytes, byte for byte as it was given. Only passwords of 1 to 16
/// ASCII characters are written.
pub proof fn law_password_is_written_as_given(user_id: u8, yes: bool, password: Chars, i: int)
    ensures
        ({
            let step = secret_step(SimpleCommand::Password { user_id, yes }, Ok(password)).action;
            let data = step->Send_0.data;
            let ascii = forall|k: int| 0 <= k < password.len() ==> (#[trigger] password[k]) <= '\x7f';
            &&& step is Send <==> 1 <= password.len() <= 16 && ascii
            &&& step is Send ==> step == ActionView::Send(to_bmc(6, 0x47, data)) && data.len() == 18
                && data[0] == user_id && data[1] == 2
            &&& step is Send && 0 <= i < 16 ==> data[2 + i] as char == (if i < password.len() {
                password[i]
            } else {
                '\0'
            })
        }),
{
    let step = secret_step(SimpleCommand::Password { user_id, yes }, Ok(password)).action;
    let data = step->Send_0.data;
    lemma_ascii(password);
    if step is Send && 0 <= i < 16 {
        assert(data[2 + i] == padded(ascii_bytes_of(password))[i]);
    }
}

/// A name is written by Set User Name (App command 0x45), padded with zeros to
/// sixteen bytes, byte for byte as it was given; names that are empty, too long
/// or not ASCII, and the fixed name of user 1, are refused.
pub proof fn law_name_is_written_as_given(command: SimpleCommand, color: bool, i: int)
    requires
        command is Name,
    ensures
        ({
            let id = command->Name_user_id;
            let name = command->name@;
            let request = sent(command, color);
            let data = request->0.data;
            let ascii = forall|k: int| 0 <= k < name.len() ==> (#[trigger] name[k]) <= '\x7f';
            &&& request is Some <==> id != 1 && 1 <= name.len() <= 16 && ascii && !name.contains(
                '\0',
            )
            &&& request is Some ==> request == Some(to_bmc(6, 0x45, data)) && data.len() == 17
                && data[0] == id
            &&& request is Some && 0 <= i < 16 ==> data[1 + i] as char == (if i < name.len() {
                name[i]
            } else {
                '\0'
            })
            &&& request is Some ==> asks(command, color) == !command->Name_yes
        }),
{
    let name = command->name@;
    let data = sent(command, color)->0.data;
    lemma_ascii(name);
    if sent(command, color) is Some && 0 <= i < 16 {
        assert(data[1 + i] == padded(ascii_bytes_of(name))[i]);
    }
}

/// The users of a channel are asked for one by one, from 1 to the maximum: the
/// access of each (App command 0x44) and its name (0x46).
pub proof fn law_users_are_asked_for_in_turn(u: UsersView, id: u8, access: crate::cmd::user::Access)
    requires
        u.channel <= 15,
    ensures
        u.at(UsersPhaseView::First).action() == ActionView::Send(
            to_bmc(6, 0x44, seq![u.channel, 1u8]),
        ),
        u.at(UsersPhaseView::Access(id)).action() == ActionView::Send(
            to_bmc(6, 0x44, seq![u.channel, id]),
        ),
        u.at(UsersPhaseView::Name(id, access)).action() == ActionView::Send(
            to_bmc(6, 0x46, seq![id]),
        ),
        id < 255 ==> u.moved_to(id + 1).users.phase == (if id < u.limits.0 {
            UsersPhaseView::Access((id + 1) as u8)
        } else {
            UsersPhaseView::Finished
        }),
{
    let c = u.channel;
    assert(c & 0x0F == c) by (bit_vector)
        requires
            c <= 15,
    ;
}

proof fn lemma_lower(c: char, small: char, large: char)
    requires
        crate::text::lower_char(c) == small,
        'a' <= small <= 'z',
        small as int == large as int + 32,
    ensures
        c == small || c == large,
{
    if 'A' <= c <= 'Z' {
        assert(c as u8 + 32 == small as int);
        assert(c as int == large as int);
    }
}

/// Only `y` and `yes`, in any case and with blanks around them, mean yes.
pub proof fn law_what_means_yes(line: Chars)
    ensures
        means_yes(line) <==> ({
            let word = crate::text::trimmed(line);
            ||| word.len() == 1 && (word[0] == 'y' || word[0] == 'Y')
            ||| word.len() == 3 && (word[0] == 'y' || word[0] == 'Y') && (word[1] == 'e' || word[1]
                == 'E') && (word[2] == 's' || word[2] == 'S')
        }),
{
    let word = crate::text::trimmed(line);
    let low = crate::text::lower(word);
    reveal_strlit("y");
    reveal_strlit("yes");
    if word.len() == 1 && (word[0] == 'y' || word[0] == 'Y') {
        assert(low =~= "y"@);
    }
    if word.len() == 3 && (word[0] == 'y' || word[0] == 'Y') && (word[1] == 'e' || word[1] == 'E')
        && (word[2] == 's' || word[2] == 'S') {
        assert(low =~= "yes"@);
    }
    assert(low.len() == word.len());
    if low == "y"@ {
        assert(low.len() == 1);
        assert(low[0] == 'y' && low[0] == crate::text::lower_char(word[0]));
        lemma_lower(word[0], 'y', 'Y');
    }
    if low == "yes"@ {
        assert(low.len() == 3);
        assert(low[0] == 'y' && low[1] == 'e' && low[2] == 's');
        assert(low[0] == crate::text::lower_char(word[0]) && low[1] == crate::text::lower_char(
            word[1],
        ) && low[2] == crate::text::lower_char(word[2]));
        lemma_lower(word[0], 'y', 'Y');
        lemma_lower(word[1], 'e', 'E');
        lemma_lower(word[2], 's', 'S');
    }
}

} // verus!
