//! What a command asks of its surroundings, and what comes back.
//!
//! A command is advanced in steps. A step says which lines to print and which
//! action to perform next; the result of the action is handed to the command as
//! an event, which gives the next step.

use vstd::prelude::*;

use crate::conn::{reply_view, Reply, Request, RequestView, ResponseView};
use crate::text::{push_text, texts, Chars};

verus! {

/// The identity of a management controller.
#[derive(Clone, Copy, Debug, PartialEq, Eq, Structural)]
pub struct DeviceId {
    pub device_id: u8,
    pub device_revision: u8,
    pub major_fw_revision: u8,
    pub minor_fw_revision: u8,
    pub major_version: u8,
    pub minor_version: u8,
    pub manufacturer_id: u32,
    pub product_id: u16,
    pub device_available: bool,
    pub chassis_support: bool,
    pub bridge_support: bool,
    pub fru_inventory_support: bool,
    pub sel_device_support: bool,
    pub sdr_repository_support: bool,
    pub sensor_device_support: bool,
}

/// A summary of the System Event Log.
#[derive(Clone, Copy, Debug, PartialEq, Eq, Structural)]
pub struct SelInfo {
    pub version_maj: u8,
    pub version_min: u8,
    pub entries: u16,
    pub bytes_free: u16,
    pub overflow: bool,
    /// Whether the log can be reserved.
    pub reserve_supported: bool,
    /// Whether single entries can be deleted.
    pub delete_supported: bool,
}

/// How far an erasure of the log has come.
#[derive(Clone, Copy, Debug, PartialEq, Eq, Structural)]
pub enum ErasureProgress {
    InProgress,
    Completed,
}

/// The medium of a channel.
#[derive(Clone, Copy, Debug, PartialEq, Eq, Structural)]
pub enum ChannelMediumType {
    Lan802_3,
    OtherLan,
    Other,
}

/// What a command waits for.
#[derive(Debug)]
pub enum Action {
    /// A raw request.
    Send(Request),
    GetDeviceId,
    GetSelInfo,
    ReserveSel,
    /// Clear SEL: start erasing, or ask how far it has come.
    ClearSel { initiate: bool, reservation: Option<u16> },
    GetChannelInfo { channel: u8 },
    GetLanParameter { channel: u8, parameter: u8, selector: u8 },
    SetLanParameter { channel: u8, parameter: u8, data: Vec<u8> },
    /// A yes/no question to the user.
    Confirm(String),
    /// A pause.
    Pause { seconds: u64, millis: u64 },
    /// A new password, from the file that the user named or from a prompt.
    ReadPassword,
    /// Bytes to write to the file that the user named.
    Export(Vec<u8>),
    /// The command is over.
    Finish(Result<(), String>),
    /// The command cannot go on: a sensor data record cannot be decoded.
    Abort,
}

/// What a command waits for, with texts and bytes as sequences.
pub ghost enum ActionView {
    Send(RequestView),
    GetDeviceId,
    GetSelInfo,
    ReserveSel,
    ClearSel { initiate: bool, reservation: Option<u16> },
    GetChannelInfo { channel: u8 },
    GetLanParameter { channel: u8, parameter: u8, selector: u8 },
    SetLanParameter { channel: u8, parameter: u8, data: Seq<u8> },
    Confirm(Chars),
    Pause { seconds: u64, millis: u64 },
    ReadPassword,
    Export(Seq<u8>),
    Finish(Result<(), Chars>),
    Abort,
}

/// What a result says.
pub open spec fn outcome_view<T>(r: Result<T, String>) -> Result<T, Chars> {
    match r {
        Ok(value) => Ok(value),
        Err(e) => Err(e@),
    }
}

impl View for Action {
    type V = ActionView;

    open spec fn view(&self) -> ActionView {
        match *self {
            Action::Send(request) => ActionView::Send(request@),
            Action::GetDeviceId => ActionView::GetDeviceId,
            Action::GetSelInfo => ActionView::GetSelInfo,
            Action::ReserveSel => ActionView::ReserveSel,
            Action::ClearSel { initiate, reservation } => ActionView::ClearSel {
                initiate,
                reservation,
            },
            Action::GetChannelInfo { channel } => ActionView::GetChannelInfo { channel },
            Action::GetLanParameter { channel, parameter, selector } =>
                ActionView::GetLanParameter { channel, parameter, selector },
            Action::SetLanParameter { channel, parameter, data } => ActionView::SetLanParameter {
                channel,
                parameter,
                data: data@,
            },
            Action::Confirm(prompt) => ActionView::Confirm(prompt@),
            Action::Pause { seconds, millis } => ActionView::Pause { seconds, millis },
            Action::ReadPassword => ActionView::ReadPassword,
            Action::Export(data) => ActionView::Export(data@),
            Action::Finish(result) => ActionView::Finish(outcome_view(result)),
            Action::Abort => ActionView::Abort,
        }
    }
}

/// What came back for an action.
#[derive(Debug)]
pub enum Event {
    Reply(Reply),
    DeviceId(Result<DeviceId, String>),
    SelInfo(Result<SelInfo, String>),
    Reserved(Result<u16, String>),
    Erasure(Result<ErasureProgress, String>),
    ChannelInfo(Result<ChannelMediumType, String>),
    LanParameter(Result<Vec<u8>, String>),
    LanWritten(Result<(), String>),
    Answer(bool),
    Password(Result<String, String>),
    Exported(Result<(), String>),
    /// A pause is over.
    Elapsed,
}

/// What came back for an action, with texts and bytes as sequences.
pub ghost enum EventView {
    Reply(Result<ResponseView, Chars>),
    DeviceId(Result<DeviceId, Chars>),
    SelInfo(Result<SelInfo, Chars>),
    Reserved(Result<u16, Chars>),
    Erasure(Result<ErasureProgress, Chars>),
    ChannelInfo(Result<ChannelMediumType, Chars>),
    LanParameter(Result<Seq<u8>, Chars>),
    LanWritten(Result<(), Chars>),
    Answer(bool),
    Password(Result<Chars, Chars>),
    Exported(Result<(), Chars>),
    Elapsed,
}

impl View for Event {
    type V = EventView;

    open spec fn view(&self) -> EventView {
        match *self {
            Event::Reply(reply) => EventView::Reply(reply_view(reply)),
            Event::DeviceId(r) => EventView::DeviceId(outcome_view(r)),
            Event::SelInfo(r) => EventView::SelInfo(outcome_view(r)),
            Event::Reserved(r) => EventView::Reserved(outcome_view(r)),
            Event::Erasure(r) => EventView::Erasure(outcome_view(r)),
            Event::ChannelInfo(r) => EventView::ChannelInfo(outcome_view(r)),
            Event::LanParameter(r) => EventView::LanParameter(
                match r {
                    Ok(data) => Ok(data@),
                    Err(e) => Err(e@),
                },
            ),
            Event::LanWritten(r) => EventView::LanWritten(outcome_view(r)),
            Event::Answer(yes) => EventView::Answer(yes),
            Event::Password(r) => EventView::Password(
                match r {
                    Ok(s) => Ok(s@),
                    Err(e) => Err(e@),
                },
            ),
            Event::Exported(r) => EventView::Exported(outcome_view(r)),
            Event::Elapsed => EventView::Elapsed,
        }
    }
}

/// Lines for the standard output and lines for the diagnostic output.
#[derive(Debug)]
pub struct Output {
    pub out: Vec<String>,
    pub err: Vec<String>,
}

/// Lines for the standard output and lines for the diagnostic output.
pub ghost struct OutputView {
    pub out: Seq<Chars>,
    pub err: Seq<Chars>,
}

impl View for Output {
    type V = OutputView;

    open spec fn view(&self) -> OutputView {
        OutputView { out: texts(self.out@), err: texts(self.err@) }
    }
}

/// Nothing to print.
pub open spec fn silence() -> OutputView {
    OutputView { out: seq![], err: seq![] }
}

/// No lines.
pub fn no_lines() -> (lines: Vec<String>)
    ensures
        texts(lines@) == Seq::<Chars>::empty(),
{
    let lines: Vec<String> = Vec::new();
    proof {
        assert(texts(lines@) =~= seq![]);
    }
    lines
}

/// Lines to print, then an action to perform.
#[derive(Debug)]
pub struct Step {
    pub lines: Vec<String>,
    pub action: Action,
}

/// Lines to print, then an action to perform.
pub ghost struct StepView {
    pub lines: Seq<Chars>,
    pub action: ActionView,
}

impl View for Step {
    type V = StepView;

    open spec fn view(&self) -> StepView {
        StepView { lines: texts(self.lines@), action: self.action@ }
    }
}

/// Print `lines`, then perform `action`.
pub open spec fn step(lines: Seq<Chars>, action: ActionView) -> StepView {
    StepView { lines, action }
}

/// Print nothing, then perform `action`.
pub open spec fn quietly(action: ActionView) -> StepView {
    StepView { lines: seq![], action }
}

/// Print `lines` and end well.
pub open spec fn done(lines: Seq<Chars>) -> StepView {
    StepView { lines, action: ActionView::Finish(Ok(())) }
}

/// Print `lines` and end with an error.
pub open spec fn failed_after(lines: Seq<Chars>, e: Chars) -> StepView {
    StepView { lines, action: ActionView::Finish(Err(e)) }
}

/// End with an error.
pub open spec fn failed(e: Chars) -> StepView {
    failed_after(seq![], e)
}

/// The user declined: nothing was sent.
pub open spec fn aborted() -> StepView {
    done(seq!["Aborted."@])
}

/// Print nothing, then perform `action`.
pub fn quiet_step(action: Action) -> (s: Step)
    ensures
        s@ == quietly(action@),
{
    let s = Step { lines: Vec::new(), action };
    proof {
        assert(s@.lines =~= seq![]);
    }
    s
}

pub fn done_step(lines: Vec<String>) -> (s: Step)
    ensures
        s@ == done(texts(lines@)),
{
    Step { lines, action: Action::Finish(Ok(())) }
}

/// Print one line and end well.
pub fn done_with(line: String) -> (s: Step)
    ensures
        s@ == done(seq![line@]),
{
    let mut lines: Vec<String> = Vec::new();
    push_text(&mut lines, line);
    proof {
        assert(texts(lines@) =~= seq![line@]);
    }
    done_step(lines)
}

pub fn failed_step(e: String) -> (s: Step)
    ensures
        s@ == failed(e@),
{
    quiet_step(Action::Finish(Err(e)))
}

pub fn aborted_step() -> (s: Step)
    ensures
        s@ == aborted(),
{
    done_with("Aborted.".to_owned())
}

} // verus!
