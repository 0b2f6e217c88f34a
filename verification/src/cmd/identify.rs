//! `identify` — blink the chassis identify LED via Chassis Identify (cmd 0x04).

use vstd::prelude::*;

use crate::cli::{IdentifyAction, IdentifyArgs};
use crate::cmd::NETFN_CHASSIS;
use crate::conn::{
    bmc_request, completion, completion_text, concat2, concat3, reply_view, request_to_bmc, Reply,
    ResponseView,
};
use crate::dialog::{
    done, done_with, failed, failed_step, quiet_step, quietly, Action, ActionView, Step, StepView,
};
use crate::text::{dec, dec_text, Chars};
use crate::ui::{green, greened, yellow, yellowed};

verus! {

pub const CMD_CHASSIS_IDENTIFY: u8 = 0x04;

pub const CC_INVALID_DATA_LENGTH: u8 = 0xC7;

/// What an action is when none is given.
pub open spec fn identify_action(args: IdentifyArgs) -> IdentifyAction {
    match args.action {
        Some(action) => action,
        None => IdentifyAction::On { seconds: 15 },
    }
}

/// The data of the first request of an action. The "force on" byte is an IPMI
/// 2.0 addition.
pub open spec fn identify_data(action: IdentifyAction) -> Seq<u8> {
    match action {
        IdentifyAction::On { seconds } => seq![seconds],
        IdentifyAction::Off => seq![0x00u8],
        IdentifyAction::Force => seq![0x00u8, 0x01],
    }
}

pub open spec fn identify_sending(data: Seq<u8>) -> StepView {
    quietly(ActionView::Send(bmc_request(NETFN_CHASSIS, CMD_CHASSIS_IDENTIFY, data)))
}

fn send(data: Vec<u8>) -> (s: Step)
    ensures
        s@ == identify_sending(data@),
{
    quiet_step(Action::Send(request_to_bmc(NETFN_CHASSIS, CMD_CHASSIS_IDENTIFY, data)))
}

/// Begins the command.
pub fn begin(args: &IdentifyArgs) -> (s: Step)
    ensures
        s@ == identify_sending(identify_data(identify_action(*args))),
{
    let action = match args.action {
        Some(action) => action,
        None => IdentifyAction::On { seconds: 15 },
    };
    let data: Vec<u8> = match action {
        IdentifyAction::On { seconds } => vec![seconds],
        IdentifyAction::Off => vec![0x00],
        IdentifyAction::Force => vec![0x00, 0x01],
    };
    proof {
        assert(data@ =~= identify_data(action));
    }
    send(data)
}

/// The completion code of a reply, if it is zero or not; or why there is none.
pub open spec fn identify_result(reply: Result<ResponseView, Chars>) -> Result<(), Chars> {
    match reply {
        Err(e) => Err("Chassis Identify failed: "@ + e),
        Ok(response) => if response.cc != 0 {
            Err("Chassis Identify rejected: "@ + completion(response.cc))
        } else {
            Ok(())
        },
    }
}

fn check(reply: &Reply) -> (r: Result<(), String>)
    ensures
        crate::dialog::outcome_view(r) == identify_result(reply_view(*reply)),
{
    match reply {
        Err(e) => Err(concat2("Chassis Identify failed: ", e.as_str())),
        Ok(response) => {
            if response.cc != 0 {
                Err(concat2("Chassis Identify rejected: ", completion_text(response.cc).as_str()))
            } else {
                Ok(())
            }
        }
    }
}

/// What is printed when an action succeeds.
pub open spec fn identify_line(action: IdentifyAction, color: bool) -> Chars {
    match action {
        IdentifyAction::Off => greened("OK:"@, color) + " identify LED off"@,
        IdentifyAction::On { seconds } => if seconds == 0 {
            greened("OK:"@, color) + " identify LED off"@
        } else {
            greened("OK:"@, color) + " identify LED blinking for "@ + dec(seconds as nat)
                + " seconds"@
        },
        IdentifyAction::Force => greened("OK:"@, color) + " identify LED on until `identify off`"@,
    }
}

/// What follows the reply to the first request. Older BMCs reject the two-byte
/// form of force-on, and then the longest timed blink is asked for.
pub open spec fn identify_next(
    action: IdentifyAction,
    reply: Result<ResponseView, Chars>,
    color: bool,
) -> StepView {
    if action == IdentifyAction::Force && reply is Ok && reply->Ok_0.cc == CC_INVALID_DATA_LENGTH {
        identify_sending(seq![0xFFu8])
    } else {
        match identify_result(reply) {
            Err(e) => failed(e),
            Ok(_) => done(seq![identify_line(action, color)]),
        }
    }
}

/// Goes on with the reply to the first request.
pub fn replied(action: IdentifyAction, reply: Reply, color: bool) -> (s: Step)
    ensures
        s@ == identify_next(action, reply_view(reply), color),
{
    if action == IdentifyAction::Force {
        if let Ok(response) = &reply {
            if response.cc == CC_INVALID_DATA_LENGTH {
                let data: Vec<u8> = vec![0xFF];
                proof {
                    assert(data@ =~= seq![0xFFu8]);
                }
                return send(data);
            }
        }
    }
    if let Err(e) = check(&reply) {
        return failed_step(e);
    }
    let ok = green("OK:", color);
    let line = match action {
        IdentifyAction::Off => concat2(ok.as_str(), " identify LED off"),
        IdentifyAction::On { seconds } => {
            if seconds == 0 {
                concat2(ok.as_str(), " identify LED off")
            } else {
                let mut line = concat3(
                    ok.as_str(),
                    " identify LED blinking for ",
                    dec_text(seconds as u64).as_str(),
                );
                line.append(" seconds");
                line
            }
        }
        IdentifyAction::Force => concat2(ok.as_str(), " identify LED on until `identify off`"),
    };
    done_with(line)
}

/// Concludes the fallback of force-on.
pub fn fallback_replied(reply: Reply, color: bool) -> (s: Step)
    ensures
        s@ == match identify_result(reply_view(reply)) {
            Err(e) => failed(e),
            Ok(_) => done(
                seq![
                    yellowed("note:"@, color)
                        + " BMC does not support force-on; blinking for 255 seconds instead"@,
                ],
            ),
        },
{
    if let Err(e) = check(&reply) {
        return failed_step(e);
    }
    done_with(
        concat2(
            yellow("note:", color).as_str(),
            " BMC does not support force-on; blinking for 255 seconds instead",
        ),
    )
}

} // verus!
