//! The commands of one or two exchanges, as one conversation: an optional
//! question, a request, and what its reply leads to.

use vstd::prelude::*;

use crate::cli::{
    BootAction, BootArgs, IdentifyAction, IdentifyArgs, PowerAction, PowerArgs, RawArgs,
    UserPrivilege,
};
use crate::cmd::bmc::{self, reset_kind, reset_sending, selftest_step};
use crate::cmd::boot::{
    self, boot_start, flag_lines, flags_of, override_line, set_request_view,
};
use crate::cmd::identify::{self, identify_data, identify_next, identify_result, identify_sending};
use crate::cmd::power::{self, control_of, control_request, power_lines, power_start};
use crate::cmd::raw::{self, raw_question, raw_response_lines, raw_sending};
use crate::cmd::sel_edit::{self, info_lines};
use crate::cmd::user::{
    self, access_flags, access_of, access_request_view, channel_verdict, concluded, enable_sending,
    is_password, name_sending, name_verdict, password_sending, privilege_number,
    privilege_question, verb_of, CMD_SET_USER_ACCESS,
};
use crate::cmd::chassis_status_of;
use crate::conn::{
    bmc_request, checked, completion, reply_view, Reply, ResponseView, NETFN_APP,
};
use crate::dialog::{
    aborted, done, failed, failed_after, failed_step, quiet_step, quietly, Action, ActionView,
    Event, EventView, SelInfo, Step, StepView,
};
use crate::bytes::byte_or_zero;
use crate::text::{dec, Chars};
use crate::ui::{greened, yellowed};

verus! {

/// A command of one or two exchanges.
pub enum SimpleCommand {
    Power(PowerAction),
    Boot(BootAction),
    Identify(IdentifyAction),
    Reset { warm: bool, yes: bool },
    Selftest,
    Raw(RawArgs),
    Enable { user_id: u8, enabled: bool, yes: bool },
    Privilege { user_id: u8, level: UserPrivilege, channel: u8, yes: bool },
    Name { user_id: u8, name: String, yes: bool },
    Password { user_id: u8, yes: bool },
    SelInfo,
}

/// What a command is waiting for.
#[derive(Clone, Copy, Debug, PartialEq, Eq, Structural)]
pub enum Stage {
    /// The answer to its question.
    Question,
    /// The reply to its first request.
    FirstReply,
    /// The reply to its second request.
    SecondReply,
    /// A password.
    Secret,
    /// The summary of the log.
    Info,
    /// Nothing: it is over.
    Over,
}

/// The stage after a step; a request that follows a reply is the second one.
pub open spec fn stage_of(step: StepView, replied: bool) -> Stage {
    match step.action {
        ActionView::Confirm(_) => Stage::Question,
        ActionView::Send(_) => if replied {
            Stage::SecondReply
        } else {
            Stage::FirstReply
        },
        ActionView::ReadPassword => Stage::Secret,
        ActionView::GetSelInfo => Stage::Info,
        _ => Stage::Over,
    }
}

fn stage(step: &Step, replied: bool) -> (s: Stage)
    ensures
        s == stage_of(step@, replied),
{
    match &step.action {
        Action::Confirm(_) => Stage::Question,
        Action::Send(_) => {
            if replied {
                Stage::SecondReply
            } else {
                Stage::FirstReply
            }
        }
        Action::ReadPassword => Stage::Secret,
        Action::GetSelInfo => Stage::Info,
        _ => Stage::Over,
    }
}

/// The step that begins a command.
pub open spec fn start_step(command: SimpleCommand, color: bool) -> StepView {
    match command {
        SimpleCommand::Power(action) => power_start(action),
        SimpleCommand::Boot(action) => boot_start(action),
        SimpleCommand::Identify(action) => identify_sending(identify_data(action)),
        SimpleCommand::Reset { warm, yes } => if yes {
            reset_sending(warm)
        } else {
            quietly(
                ActionView::Confirm(
                    "This will "@ + reset_kind(warm)
                        + "-reset the BMC. The host keeps running, but the BMC goes offline for a minute or two. Continue?"@,
                ),
            )
        },
        SimpleCommand::Selftest => quietly(
            ActionView::Send(bmc_request(NETFN_APP, bmc::CMD_GET_SELF_TEST_RESULTS, seq![])),
        ),
        SimpleCommand::Raw(args) => if args.yes {
            raw_sending(args.netfn, args.command, args.data@, color)
        } else {
            quietly(ActionView::Confirm(raw_question(args.netfn, args.command)))
        },
        SimpleCommand::Enable { user_id, enabled, yes } => if yes {
            enable_sending(user_id, enabled)
        } else {
            quietly(
                ActionView::Confirm(
                    verb_of(enabled) + " BMC user ID "@ + dec(user_id as nat) + "?"@,
                ),
            )
        },
        SimpleCommand::Privilege { user_id, level, channel, yes } => match channel_verdict(
            channel,
        ) {
            Err(e) => failed(e),
            Ok(_) => if yes {
                quietly(ActionView::Send(access_request_view(channel, user_id)))
            } else {
                quietly(ActionView::Confirm(privilege_question(user_id, level, channel)))
            },
        },
        SimpleCommand::Name { user_id, name, yes } => match name_verdict(user_id, name@) {
            Err(e) => failed(e),
            Ok(_) => if yes {
                name_sending(user_id, name@)
            } else {
                quietly(
                    ActionView::Confirm(
                        "Rename BMC user ID "@ + dec(user_id as nat) + " to '"@ + name@ + "'?"@,
                    ),
                )
            },
        },
        SimpleCommand::Password { user_id, yes } => if yes {
            quietly(ActionView::ReadPassword)
        } else {
            quietly(
                ActionView::Confirm(
                    "Rotate the password for BMC user ID "@ + dec(user_id as nat) + "?"@,
                ),
            )
        },
        SimpleCommand::SelInfo => quietly(ActionView::GetSelInfo),
    }
}

/// The step that follows the answer yes.
pub open spec fn consented_step(command: SimpleCommand, color: bool) -> StepView {
    match command {
        SimpleCommand::Power(action) => quietly(ActionView::Send(control_request(action))),
        SimpleCommand::Boot(BootAction::Override { boot_device, persistent, uefi, .. }) => quietly(
            ActionView::Send(set_request_view(Some(boot_device), persistent, uefi)),
        ),
        SimpleCommand::Reset { warm, .. } => reset_sending(warm),
        SimpleCommand::Raw(args) => raw_sending(args.netfn, args.command, args.data@, color),
        SimpleCommand::Enable { user_id, enabled, .. } => enable_sending(user_id, enabled),
        SimpleCommand::Privilege { user_id, channel, .. } => quietly(
            ActionView::Send(access_request_view(channel, user_id)),
        ),
        SimpleCommand::Name { user_id, name, .. } => match name_verdict(user_id, name@) {
            Err(e) => failed(e),
            Ok(_) => name_sending(user_id, name@),
        },
        SimpleCommand::Password { .. } => quietly(ActionView::ReadPassword),
        _ => aborted(),
    }
}

/// The step that follows an answer. Declining a raw request is an error; any
/// other command ends quietly with nothing done.
pub open spec fn answered_step(command: SimpleCommand, yes: bool, color: bool) -> StepView {
    if yes {
        consented_step(command, color)
    } else if command is Raw {
        failed("cancelled"@)
    } else {
        aborted()
    }
}

/// The step that follows the reply to the first request.
pub open spec fn replied_step(
    command: SimpleCommand,
    reply: Result<ResponseView, Chars>,
    color: bool,
) -> StepView {
    match command {
        SimpleCommand::Power(action) => if action == PowerAction::Status {
            match chassis_status_of(reply) {
                Err(e) => failed(e),
                Ok(cs) => done(power_lines(cs, color)),
            }
        } else {
            match reply {
                Err(e) => failed("Chassis Control failed: "@ + e),
                Ok(response) => if response.cc != 0 {
                    failed("Chassis Control rejected: "@ + completion(response.cc))
                } else {
                    done(seq![greened("OK:"@, color) + " "@ + control_of(action).1])
                },
            }
        },
        SimpleCommand::Boot(BootAction::Show) => match reply {
            Err(e) => failed("Get System Boot Options failed: "@ + e),
            Ok(response) => match checked(response.cc, "Get System Boot Options"@) {
                Err(e) => failed(e),
                Ok(_) => if response.data.len() < 7 {
                    failed("Get System Boot Options returned a short boot-flags response"@)
                } else {
                    done(flag_lines(flags_of(response.data), color))
                },
            },
        },
        SimpleCommand::Boot(BootAction::Clear) => concluded(
            reply,
            "Set System Boot Options"@,
            override_line(None, false, color),
        ),
        SimpleCommand::Boot(BootAction::Override { boot_device, persistent, .. }) => concluded(
            reply,
            "Set System Boot Options"@,
            override_line(Some(boot_device), persistent, color),
        ),
        SimpleCommand::Identify(action) => identify_next(action, reply, color),
        SimpleCommand::Reset { warm, .. } => match reply {
            Ok(response) => if response.cc == 0 {
                done(
                    seq![
                        greened("OK:"@, color) + " "@ + reset_kind(warm)
                            + " reset issued; BMC is restarting"@,
                    ],
                )
            } else {
                failed(reset_kind(warm) + " reset rejected: "@ + completion(response.cc))
            },
            Err(e) => done(
                seq![
                    yellowed("note:"@, color) + " no response ("@ + e
                        + "); the BMC most likely reset before replying"@,
                ],
            ),
        },
        SimpleCommand::Selftest => match reply {
            Err(e) => failed("Get Self Test Results failed: "@ + e),
            Ok(response) => match checked(response.cc, "Get Self Test Results"@) {
                Err(e) => failed(e),
                Ok(_) => selftest_step(
                    byte_or_zero(response.data, 0),
                    byte_or_zero(response.data, 1),
                    color,
                ),
            },
        },
        SimpleCommand::Raw(_) => match reply {
            Err(e) => failed("raw IPMI request failed: "@ + e),
            Ok(response) => if response.cc == 0 {
                done(raw_response_lines(response, color))
            } else {
                failed_after(
                    raw_response_lines(response, color),
                    "raw command returned "@ + completion(response.cc),
                )
            },
        },
        SimpleCommand::Enable { user_id, enabled, .. } => match reply {
            Err(e) => failed("Set User Password ("@ + verb_of(enabled) + ") failed: "@ + e),
            Ok(response) => match checked(response.cc, "Set User Password"@) {
                Err(e) => failed(e),
                Ok(_) => done(
                    seq![
                        greened("OK:"@, color) + " user "@ + dec(user_id as nat) + " "@ + verb_of(
                            enabled,
                        ) + "d"@,
                    ],
                ),
            },
        },
        SimpleCommand::Privilege { user_id, level, channel, .. } => match access_of(
            user_id,
            reply,
        ) {
            Err(e) => failed(e),
            Ok(current) => quietly(
                ActionView::Send(
                    bmc_request(
                        NETFN_APP,
                        CMD_SET_USER_ACCESS,
                        seq![access_flags(current, channel), user_id, privilege_number(level)],
                    ),
                ),
            ),
        },
        SimpleCommand::Name { .. } => concluded(
            reply,
            "Set User Name"@,
            greened("OK:"@, color) + " username updated"@,
        ),
        SimpleCommand::Password { .. } => concluded(
            reply,
            "Set User Password"@,
            greened("OK:"@, color) + " password updated"@,
        ),
        SimpleCommand::SelInfo => aborted(),
    }
}

/// The step that follows the reply to the second request: the change of a
/// privilege, or the fallback of a forced identify.
pub open spec fn second_step(
    command: SimpleCommand,
    reply: Result<ResponseView, Chars>,
    color: bool,
) -> StepView {
    match command {
        SimpleCommand::Identify(_) => match identify_result(reply) {
            Err(e) => failed(e),
            Ok(_) => done(
                seq![
                    yellowed("note:"@, color)
                        + " BMC does not support force-on; blinking for 255 seconds instead"@,
                ],
            ),
        },
        _ => concluded(
            reply,
            "Set User Access"@,
            greened("OK:"@, color) + " user privilege updated"@,
        ),
    }
}

/// The step that follows a password.
pub open spec fn secret_step(command: SimpleCommand, password: Result<Chars, Chars>) -> StepView {
    match (command, password) {
        (SimpleCommand::Password { user_id, .. }, Ok(password)) => if is_password(password) {
            password_sending(user_id, password)
        } else {
            failed("password must be 1-16 ASCII characters"@)
        },
        (_, Err(e)) => failed(e),
        _ => aborted(),
    }
}

/// A command under way.
pub struct Simple {
    command: SimpleCommand,
    color: bool,
    stage: Stage,
}

/// A command under way.
pub ghost struct SimpleView {
    pub command: SimpleCommand,
    pub color: bool,
    pub stage: Stage,
}

impl View for Simple {
    type V = SimpleView;

    closed spec fn view(&self) -> SimpleView {
        SimpleView { command: self.command, color: self.color, stage: self.stage }
    }
}

impl SimpleView {
    /// Whether an event answers what the command is waiting for.
    pub open spec fn accepts(self, event: EventView) -> bool {
        match self.stage {
            Stage::Question => event is Answer,
            Stage::FirstReply => event is Reply,
            Stage::SecondReply => event is Reply,
            Stage::Secret => event is Password,
            Stage::Info => event is SelInfo,
            Stage::Over => false,
        }
    }

    /// The step that follows an event.
    pub open spec fn next_step(self, event: EventView) -> StepView {
        match (self.stage, event) {
            (Stage::Question, EventView::Answer(yes)) => answered_step(
                self.command,
                yes,
                self.color,
            ),
            (Stage::FirstReply, EventView::Reply(r)) => replied_step(self.command, r, self.color),
            (Stage::SecondReply, EventView::Reply(r)) => second_step(self.command, r, self.color),
            (Stage::Secret, EventView::Password(r)) => secret_step(self.command, r),
            (Stage::Info, EventView::SelInfo(r)) => match r {
                Err(e) => failed("Get SEL Info failed: "@ + e),
                Ok(info) => done(info_lines(info, self.color)),
            },
            _ => aborted(),
        }
    }

    /// The command after a step.
    pub open spec fn after(self, step: StepView, replied: bool) -> SimpleView {
        SimpleView { stage: stage_of(step, replied), ..self }
    }
}

/// Nothing lockout-prone or destructive happens unasked: a command whose first
/// step is a question sends nothing unless the answer is yes.
pub proof fn law_declined_commands_do_nothing(s: SimpleView)
    requires
        s.stage == Stage::Question,
    ensures
        s.next_step(EventView::Answer(false)).action is Finish,
        !(s.next_step(EventView::Answer(false)).action is Send),
{
}

/// Which commands ask: disruptive power actions always; BMC resets, raw
/// requests, persistent boot overrides and changes of users unless `--yes` is
/// given; and nothing else.
pub proof fn law_which_commands_ask(command: SimpleCommand, color: bool)
    ensures
        start_step(command, color).action is Confirm ==> match command {
            SimpleCommand::Power(action) => action == PowerAction::Off || action
                == PowerAction::Cycle || action == PowerAction::Reset || action
                == PowerAction::Diag,
            SimpleCommand::Boot(action) => match action {
                BootAction::Override { persistent, yes, .. } => persistent && !yes,
                _ => false,
            },
            SimpleCommand::Reset { yes, .. } => !yes,
            SimpleCommand::Raw(args) => !args.yes,
            SimpleCommand::Enable { yes, .. } => !yes,
            SimpleCommand::Privilege { yes, .. } => !yes,
            SimpleCommand::Name { yes, .. } => !yes,
            SimpleCommand::Password { yes, .. } => !yes,
            _ => false,
        },
        start_step(command, color).action is Send ==> match command {
            SimpleCommand::Power(action) => action == PowerAction::Status || action
                == PowerAction::On || action == PowerAction::Soft,
            SimpleCommand::Boot(action) => match action {
                BootAction::Override { persistent, yes, .. } => !persistent || yes,
                _ => true,
            },
            SimpleCommand::Reset { yes, .. } => yes,
            SimpleCommand::Raw(args) => args.yes,
            SimpleCommand::Enable { yes, .. } => yes,
            SimpleCommand::Privilege { yes, .. } => yes,
            SimpleCommand::Name { yes, .. } => yes,
            SimpleCommand::Password { .. } => false,
            _ => true,
        },
{
}

impl Simple {
    /// Begins a command.
    pub fn new(command: SimpleCommand, color: bool) -> (r: (Simple, Step))
        ensures
            r.1@ == start_step(command, color),
            r.0@ == (SimpleView { command, color, stage: Stage::Over }).after(
                start_step(command, color),
                false,
            ),
    {
        let step = match &command {
            SimpleCommand::Power(action) => power::begin(&PowerArgs { action: Some(*action) }),
            SimpleCommand::Boot(action) => boot::begin(&BootArgs { action: Some(*action) }),
            SimpleCommand::Identify(action) => identify::begin(
                &IdentifyArgs { action: Some(*action) },
            ),
            SimpleCommand::Reset { warm, yes } => bmc::reset(*warm, *yes),
            SimpleCommand::Selftest => bmc::selftest(),
            SimpleCommand::Raw(args) => raw::begin(args, color),
            SimpleCommand::Enable { user_id, enabled, yes } => user::enable(
                *user_id,
                *enabled,
                *yes,
            ),
            SimpleCommand::Privilege { user_id, level, channel, yes } => user::privilege(
                *user_id,
                *level,
                *channel,
                *yes,
            ),
            SimpleCommand::Name { user_id, name, yes } => user::set_name(
                *user_id,
                name.as_str(),
                *yes,
            ),
            SimpleCommand::Password { user_id, yes } => user::password(*user_id, *yes),
            SimpleCommand::SelInfo => quiet_step(Action::GetSelInfo),
        };
        let stage = stage(&step, false);
        (Simple { command, color, stage }, step)
    }

    /// Whether an event answers what the command is waiting for.
    pub fn accepts(&self, event: &Event) -> (r: bool)
        ensures
            r == self@.accepts(event@),
    {
        match (self.stage, event) {
            (Stage::Question, Event::Answer(_)) => true,
            (Stage::FirstReply, Event::Reply(_)) => true,
            (Stage::SecondReply, Event::Reply(_)) => true,
            (Stage::Secret, Event::Password(_)) => true,
            (Stage::Info, Event::SelInfo(_)) => true,
            _ => false,
        }
    }

    fn answered(&self, yes: bool) -> (s: Step)
        ensures
            s@ == answered_step(self@.command, yes, self@.color),
    {
        match &self.command {
            SimpleCommand::Power(action) => power::answered(*action, yes),
            SimpleCommand::Boot(BootAction::Override { boot_device, persistent, uefi, .. }) =>
                boot::answered(*boot_device, *persistent, *uefi, yes),
            SimpleCommand::Reset { warm, .. } => bmc::reset_answered(*warm, yes),
            SimpleCommand::Raw(args) => raw::answered(args, yes, self.color),
            SimpleCommand::Enable { user_id, enabled, .. } => user::enable_answered(
                *user_id,
                *enabled,
                yes,
            ),
            SimpleCommand::Privilege { user_id, channel, .. } => user::privilege_answered(
                *user_id,
                *channel,
                yes,
            ),
            SimpleCommand::Name { user_id, name, .. } => user::name_answered(
                *user_id,
                name.as_str(),
                yes,
            ),
            SimpleCommand::Password { .. } => user::password_answered(yes),
            _ => crate::dialog::aborted_step(),
        }
    }

    fn replied(&self, reply: Reply) -> (s: Step)
        ensures
            s@ == replied_step(self@.command, reply_view(reply), self@.color),
    {
        let color = self.color;
        match &self.command {
            SimpleCommand::Power(action) => {
                if *action == PowerAction::Status {
                    power::show_status(reply, color)
                } else {
                    power::replied(*action, reply, color)
                }
            }
            SimpleCommand::Boot(BootAction::Show) => boot::show(reply, color),
            SimpleCommand::Boot(BootAction::Clear) => boot::set_flags(None, false, reply, color),
            SimpleCommand::Boot(BootAction::Override { boot_device, persistent, .. }) =>
                boot::set_flags(Some(*boot_device), *persistent, reply, color),
            SimpleCommand::Identify(action) => identify::replied(*action, reply, color),
            SimpleCommand::Reset { warm, .. } => bmc::reset_replied(*warm, reply, color),
            SimpleCommand::Selftest => bmc::selftest_replied(reply, color),
            SimpleCommand::Raw(_) => raw::replied(reply, color),
            SimpleCommand::Enable { user_id, enabled, .. } => user::enable_replied(
                *user_id,
                *enabled,
                reply,
                color,
            ),
            SimpleCommand::Privilege { user_id, level, channel, .. } => user::privilege_known(
                *user_id,
                *level,
                *channel,
                reply,
            ),
            SimpleCommand::Name { .. } => user::name_replied(reply, color),
            SimpleCommand::Password { .. } => user::password_replied(reply, color),
            SimpleCommand::SelInfo => crate::dialog::aborted_step(),
        }
    }

    fn replied_again(&self, reply: Reply) -> (s: Step)
        ensures
            s@ == second_step(self@.command, reply_view(reply), self@.color),
    {
        match &self.command {
            SimpleCommand::Identify(_) => identify::fallback_replied(reply, self.color),
            _ => user::privilege_replied(reply, self.color),
        }
    }

    /// Goes on with the event that answers what the command is waiting for.
    pub fn advance(self, event: Event) -> (r: (Simple, Step))
        requires
            self@.accepts(event@),
        ensures
            r.1@ == self@.next_step(event@),
            r.0@ == self@.after(r.1@, event is Reply),
    {
        let replied = matches!(&event, Event::Reply(_));
        let step = match (self.stage, event) {
            (Stage::Question, Event::Answer(yes)) => self.answered(yes),
            (Stage::FirstReply, Event::Reply(reply)) => self.replied(reply),
            (Stage::SecondReply, Event::Reply(reply)) => self.replied_again(reply),
            (Stage::Secret, Event::Password(password)) => match &self.command {
                SimpleCommand::Password { user_id, .. } => user::password_given(
                    *user_id,
                    password,
                ),
                _ => match password {
                    Err(e) => failed_step(e),
                    Ok(_) => crate::dialog::aborted_step(),
                },
            },
            (Stage::Info, Event::SelInfo(info)) => sel_edit::info(info, self.color),
            _ => crate::dialog::aborted_step(),
        };
        let stage = stage(&step, replied);
        (Simple { command: self.command, color: self.color, stage }, step)
    }
}

} // verus!
