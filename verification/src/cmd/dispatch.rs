//! Which conversation a command line asks for.

use vstd::prelude::*;

use crate::cli::{
    BmcAction, BootAction, Command, IdentifyAction, InventoryArgs, LanAction, LanSetArgs,
    LanShowArgs, PowerAction, SelAction, SelArgs, SensorsArgs, UserAction,
};
use crate::cmd::boot::boot_action;
use crate::cmd::identify::identify_action;
use crate::cmd::power::power_action;
use crate::cmd::simple::SimpleCommand;

verus! {

/// A conversation with the BMC.
pub enum Job {
    Overview,
    Sensors(SensorsArgs),
    ListLog(SelArgs),
    ClearLog { yes: bool },
    DeleteEntry { record_id: u16, yes: bool },
    TranslateEntries { record_ids: Vec<u16>, debug: bool },
    Inventory(InventoryArgs),
    ShowLan(LanShowArgs),
    ConfigureLan(LanSetArgs),
    ListUsers { channel: u8 },
    Simple(SimpleCommand),
}

/// The job of a `sel` command line; listing when nothing is said.
pub open spec fn log_job(args: SelArgs) -> Job {
    match args.action {
        None | Some(SelAction::List) => Job::ListLog(args),
        Some(SelAction::Info) => Job::Simple(SimpleCommand::SelInfo),
        Some(SelAction::Clear { yes }) => Job::ClearLog { yes },
        Some(SelAction::Delete { record_id, yes }) => Job::DeleteEntry { record_id, yes },
        Some(SelAction::Decode { record_ids, debug }) => Job::TranslateEntries {
            record_ids,
            debug,
        },
    }
}

/// The job of a `user` command line.
pub open spec fn user_job(action: UserAction) -> Job {
    match action {
        UserAction::List { channel } => Job::ListUsers { channel },
        UserAction::Enable { user_id, yes } => Job::Simple(
            SimpleCommand::Enable { user_id, enabled: true, yes },
        ),
        UserAction::Disable { user_id, yes } => Job::Simple(
            SimpleCommand::Enable { user_id, enabled: false, yes },
        ),
        UserAction::Privilege { user_id, level, channel, yes } => Job::Simple(
            SimpleCommand::Privilege { user_id, level, channel, yes },
        ),
        UserAction::Name { user_id, name, yes } => Job::Simple(
            SimpleCommand::Name { user_id, name, yes },
        ),
        UserAction::Password { user_id, password_file: _, yes } => Job::Simple(
            SimpleCommand::Password { user_id, yes },
        ),
    }
}

/// The job of a command line. Where no action is given, `lan` shows every
/// channel, `boot` the override, `power` the state, and `identify` blinks for
/// 15 seconds.
pub open spec fn job_of(command: Command) -> Job {
    match command {
        Command::Status => Job::Overview,
        Command::Sensors(args) => Job::Sensors(args),
        Command::Sel(args) => log_job(args),
        Command::Inventory(args) => Job::Inventory(args),
        Command::Lan(args) => match args.action {
            None => Job::ShowLan(LanShowArgs { channel: None }),
            Some(LanAction::Show(show)) => Job::ShowLan(show),
            Some(LanAction::Configure(set)) => Job::ConfigureLan(set),
        },
        Command::Boot(args) => Job::Simple(SimpleCommand::Boot(boot_action(args))),
        Command::User(args) => user_job(args.action),
        Command::Power(args) => Job::Simple(SimpleCommand::Power(power_action(args))),
        Command::Identify(args) => Job::Simple(SimpleCommand::Identify(identify_action(args))),
        Command::Bmc(args) => Job::Simple(
            match args.action {
                BmcAction::Reset { warm, yes } => SimpleCommand::Reset { warm, yes },
                BmcAction::Selftest => SimpleCommand::Selftest,
            },
        ),
        Command::Raw(args) => Job::Simple(SimpleCommand::Raw(args)),
    }
}

fn dispatch_log(args: SelArgs) -> (job: Job)
    ensures
        job == log_job(args),
{
    match &args.action {
        None | Some(SelAction::List) => {
            return Job::ListLog(args);
        }
        _ => {}
    }
    match args.action {
        Some(SelAction::Clear { yes }) => Job::ClearLog { yes },
        Some(SelAction::Delete { record_id, yes }) => Job::DeleteEntry { record_id, yes },
        Some(SelAction::Decode { record_ids, debug }) => Job::TranslateEntries {
            record_ids,
            debug,
        },
        _ => Job::Simple(SimpleCommand::SelInfo),
    }
}

fn dispatch_user(action: UserAction) -> (job: Job)
    ensures
        job == user_job(action),
{
    match action {
        UserAction::List { channel } => Job::ListUsers { channel },
        UserAction::Enable { user_id, yes } => Job::Simple(
            SimpleCommand::Enable { user_id, enabled: true, yes },
        ),
        UserAction::Disable { user_id, yes } => Job::Simple(
            SimpleCommand::Enable { user_id, enabled: false, yes },
        ),
        UserAction::Privilege { user_id, level, channel, yes } => Job::Simple(
            SimpleCommand::Privilege { user_id, level, channel, yes },
        ),
        UserAction::Name { user_id, name, yes } => Job::Simple(
            SimpleCommand::Name { user_id, name, yes },
        ),
        UserAction::Password { user_id, password_file: _, yes } => Job::Simple(
            SimpleCommand::Password { user_id, yes },
        ),
    }
}

/// Picks the job of a command line.
pub fn dispatch(command: Command) -> (job: Job)
    ensures
        job == job_of(command),
{
    match command {
        Command::Status => Job::Overview,
        Command::Sensors(args) => Job::Sensors(args),
        Command::Sel(args) => dispatch_log(args),
        Command::Inventory(args) => Job::Inventory(args),
        Command::Lan(args) => match args.action {
            None => Job::ShowLan(LanShowArgs { channel: None }),
            Some(LanAction::Show(show)) => Job::ShowLan(show),
            Some(LanAction::Configure(set)) => Job::ConfigureLan(set),
        },
        Command::Boot(args) => {
            let action = match args.action {
                Some(action) => action,
                None => BootAction::Show,
            };
            Job::Simple(SimpleCommand::Boot(action))
        }
        Command::User(args) => dispatch_user(args.action),
        Command::Power(args) => {
            let action = match args.action {
                Some(action) => action,
                None => PowerAction::Status,
            };
            Job::Simple(SimpleCommand::Power(action))
        }
        Command::Identify(args) => {
            let action = match args.action {
                Some(action) => action,
                None => IdentifyAction::On { seconds: 15 },
            };
            Job::Simple(SimpleCommand::Identify(action))
        }
        Command::Bmc(args) => match args.action {
            BmcAction::Reset { warm, yes } => Job::Simple(SimpleCommand::Reset { warm, yes }),
            BmcAction::Selftest => Job::Simple(SimpleCommand::Selftest),
        },
        Command::Raw(args) => Job::Simple(SimpleCommand::Raw(args)),
    }
}

} // verus!
