//! `power` — query and control chassis power via Chassis Control (cmd 0x02).

use vstd::prelude::*;

use crate::cli::{PowerAction, PowerArgs};
use crate::cmd::{
    chassis_status, chassis_status_of, chassis_status_request, policy_name, restore_policy_name,
    ChassisStatus, CMD_GET_CHASSIS_STATUS, NETFN_CHASSIS,
};
use crate::conn::{
    bmc_request, completion, completion_text, concat2, concat3, reply_view, request_to_bmc, Reply,
    RequestView,
};
use crate::dialog::{
    aborted, aborted_step, done, done_step, done_with, failed, failed_step, quiet_step, quietly,
    Action, ActionView, Step, StepView,
};
use crate::text::{push_text, texts, Chars};
use crate::ui::{
    green, greened, header, header_lines, kv, kv_line, red, reddened, yellow, yellowed,
};

verus! {

pub const CMD_CHASSIS_CONTROL: u8 = 0x02;

/// The control byte of an action, its name, and whether it disrupts the host.
pub open spec fn control_of(action: PowerAction) -> (u8, Chars, bool) {
    match action {
        PowerAction::On => (0x01, "power on"@, false),
        PowerAction::Off => (0x00, "power off (hard)"@, true),
        PowerAction::Cycle => (0x02, "power cycle"@, true),
        PowerAction::Reset => (0x03, "hard reset"@, true),
        PowerAction::Diag => (0x04, "pulse diagnostic interrupt"@, true),
        PowerAction::Soft => (0x05, "request soft shutdown"@, false),
        PowerAction::Status => (0xFF, "status"@, false),
    }
}

fn control(action: PowerAction) -> (r: (u8, &'static str, bool))
    ensures
        (r.0, r.1@, r.2) == control_of(action),
{
    match action {
        PowerAction::On => (0x01, "power on", false),
        PowerAction::Off => (0x00, "power off (hard)", true),
        PowerAction::Cycle => (0x02, "power cycle", true),
        PowerAction::Reset => (0x03, "hard reset", true),
        PowerAction::Diag => (0x04, "pulse diagnostic interrupt", true),
        PowerAction::Soft => (0x05, "request soft shutdown", false),
        PowerAction::Status => (0xFF, "status", false),
    }
}

/// What an action is when none is given.
pub open spec fn power_action(args: PowerArgs) -> PowerAction {
    match args.action {
        Some(action) => action,
        None => PowerAction::Status,
    }
}

/// A Chassis Control request.
pub open spec fn control_request(action: PowerAction) -> RequestView {
    bmc_request(NETFN_CHASSIS, CMD_CHASSIS_CONTROL, seq![control_of(action).0])
}

/// The step that begins an action: a disruptive one is always confirmed.
pub open spec fn power_start(action: PowerAction) -> StepView {
    let (code, verb, disruptive) = control_of(action);
    if action == PowerAction::Status {
        quietly(ActionView::Send(bmc_request(NETFN_CHASSIS, CMD_GET_CHASSIS_STATUS, seq![])))
    } else if disruptive {
        quietly(ActionView::Confirm("This will "@ + verb + " the host. Continue?"@))
    } else {
        quietly(ActionView::Send(control_request(action)))
    }
}

fn control_step(action: PowerAction) -> (s: Step)
    ensures
        s@ == quietly(ActionView::Send(control_request(action))),
{
    let (code, _verb, _disruptive) = control(action);
    let data = vec![code];
    proof {
        assert(data@ =~= seq![control_of(action).0]);
    }
    quiet_step(Action::Send(request_to_bmc(NETFN_CHASSIS, CMD_CHASSIS_CONTROL, data)))
}

/// Begins the command.
pub fn begin(args: &PowerArgs) -> (s: Step)
    ensures
        s@ == power_start(power_action(*args)),
{
    let action = match args.action {
        Some(action) => action,
        None => PowerAction::Status,
    };
    if action == PowerAction::Status {
        return quiet_step(Action::Send(chassis_status_request()));
    }
    let (_code, verb, disruptive) = control(action);
    if disruptive {
        quiet_step(Action::Confirm(concat3("This will ", verb, " the host. Continue?")))
    } else {
        control_step(action)
    }
}

/// Goes on after the question.
pub fn answered(action: PowerAction, yes: bool) -> (s: Step)
    ensures
        s@ == if yes {
            quietly(ActionView::Send(control_request(action)))
        } else {
            aborted()
        },
{
    if yes {
        control_step(action)
    } else {
        aborted_step()
    }
}

/// Concludes a control action.
pub fn replied(action: PowerAction, reply: Reply, color: bool) -> (s: Step)
    ensures
        s@ == match reply_view(reply) {
            Err(e) => failed("Chassis Control failed: "@ + e),
            Ok(response) => if response.cc != 0 {
                failed("Chassis Control rejected: "@ + completion(response.cc))
            } else {
                done(seq![greened("OK:"@, color) + " "@ + control_of(action).1])
            },
        },
{
    match reply {
        Err(e) => failed_step(concat2("Chassis Control failed: ", e.as_str())),
        Ok(response) => {
            if response.cc != 0 {
                return failed_step(
                    concat2("Chassis Control rejected: ", completion_text(response.cc).as_str()),
                );
            }
            let (_code, verb, _disruptive) = control(action);
            done_with(concat3(green("OK:", color).as_str(), " ", verb))
        }
    }
}

/// The lines, and one more for a condition that holds.
pub open spec fn with_line(lines: Seq<Chars>, holds: bool, line: Chars) -> Seq<Chars> {
    if holds {
        lines.push(line)
    } else {
        lines
    }
}

/// How the power state is shown.
pub open spec fn power_text(on: bool, color: bool) -> Chars {
    if on {
        greened("ON"@, color)
    } else {
        reddened("OFF"@, color)
    }
}

pub fn power_state(on: bool, color: bool) -> (s: String)
    ensures
        s@ == power_text(on, color),
{
    if on {
        green("ON", color)
    } else {
        red("OFF", color)
    }
}

/// The lines, and one for each fault that the chassis reports.
pub open spec fn with_faults(lines: Seq<Chars>, cs: ChassisStatus, width: nat, color: bool) -> Seq<
    Chars,
> {
    let bad = reddened("yes"@, color);
    let l = with_line(lines, cs.power_fault, kv_line("Power fault"@, bad, width, color));
    let l = with_line(l, cs.power_overload, kv_line("Power overload"@, bad, width, color));
    let l = with_line(l, cs.cooling_fault, kv_line("Cooling fault"@, bad, width, color));
    with_line(
        l,
        cs.intrusion,
        kv_line("Chassis intrusion"@, yellowed("detected"@, color), width, color),
    )
}

/// Adds a line for each fault that the chassis reports.
pub fn push_faults(lines: &mut Vec<String>, cs: &ChassisStatus, width: usize, color: bool)
    ensures
        texts(final(lines)@) == with_faults(texts(old(lines)@), *cs, width as nat, color),
{
    let bad = red("yes", color);
    if cs.power_fault {
        push_text(lines, kv("Power fault", bad.as_str(), width, color));
    }
    if cs.power_overload {
        push_text(lines, kv("Power overload", bad.as_str(), width, color));
    }
    if cs.cooling_fault {
        push_text(lines, kv("Cooling fault", bad.as_str(), width, color));
    }
    if cs.intrusion {
        push_text(
            lines,
            kv("Chassis intrusion", yellow("detected", color).as_str(), width, color),
        );
    }
}

/// What is shown of the chassis status.
pub open spec fn power_lines(cs: ChassisStatus, color: bool) -> Seq<Chars> {
    with_faults(
        header_lines("Power"@, color).push(
            kv_line("State"@, power_text(cs.power_on, color), 18, color),
        ).push(kv_line("Restore policy"@, policy_name(cs.restore_policy), 18, color)),
        cs,
        18,
        color,
    ).push(seq![])
}

/// Shows the power state.
pub fn show_status(reply: Reply, color: bool) -> (s: Step)
    ensures
        s@ == match chassis_status_of(reply_view(reply)) {
            Err(e) => failed(e),
            Ok(cs) => done(power_lines(cs, color)),
        },
{
    match chassis_status(reply) {
        Err(e) => failed_step(e),
        Ok(cs) => {
            let mut lines = header("Power", color);
            push_text(
                &mut lines,
                kv("State", power_state(cs.power_on, color).as_str(), 18, color),
            );
            push_text(
                &mut lines,
                kv("Restore policy", restore_policy_name(cs.restore_policy), 18, color),
            );
            push_faults(&mut lines, &cs, 18, color);
            push_text(&mut lines, String::new());
            proof {
                assert(texts(lines@) =~= power_lines(cs, color));
            }
            done_step(lines)
        }
    }
}

/// Disruptive actions always ask: hard power-off, cycle, reset and the
/// diagnostic interrupt send nothing before the question is answered.
pub proof fn law_disruptive_actions_ask(action: PowerAction)
    ensures
        action == PowerAction::Off || action == PowerAction::Cycle || action == PowerAction::Reset
            || action == PowerAction::Diag <==> power_start(action).action is Confirm,
{
}

} // verus!
