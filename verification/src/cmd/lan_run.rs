//! `lan show` — the conversation that reads the settings of LAN channels.

use vstd::prelude::*;

use crate::cli::LanShowArgs;
use crate::cmd::lan::{
    channel, ipv6_status, parameter_text, render_parameter, render_status, status_of, status_text,
    Ipv6Status, LanConfigParameter,
};
use crate::conn::{concat2, concat3};
use crate::dialog::{
    no_lines, outcome_view, Action, ActionView, ChannelMediumType, Event, EventView,
};
use crate::sdr::is_channel;
use crate::text::{dec, dec_text, push_text, texts, Chars};
use crate::ui::{dim, dimmed, header, header_lines, indent, indented, kv, kv_line};

verus! {

// ---------------------------------------------------------------------
// Channels
// ---------------------------------------------------------------------

/// Whether a channel carries LAN traffic, or why not.
pub open spec fn lan_channel(number: u8, info: Result<ChannelMediumType, Chars>) -> Result<
    (),
    Chars,
> {
    match info {
        Err(e) => Err(
            "Get Channel Info for channel "@ + dec(number as nat) + " failed: "@ + e,
        ),
        Ok(ChannelMediumType::Lan802_3) => Ok(()),
        Ok(ChannelMediumType::OtherLan) => Ok(()),
        Ok(ChannelMediumType::Other) => Err(
            "channel "@ + dec(number as nat) + " is not a LAN channel"@,
        ),
    }
}

pub fn ensure_lan_channel(number: u8, info: Result<ChannelMediumType, String>) -> (r: Result<
    (),
    String,
>)
    ensures
        outcome_view(r) == lan_channel(number, outcome_view(info)),
{
    match info {
        Err(e) => {
            let mut text = concat3(
                "Get Channel Info for channel ",
                dec_text(number as u64).as_str(),
                " failed: ",
            );
            text.append(e.as_str());
            Err(text)
        }
        Ok(ChannelMediumType::Lan802_3) => Ok(()),
        Ok(ChannelMediumType::OtherLan) => Ok(()),
        Ok(ChannelMediumType::Other) => Err(
            concat3("channel ", dec_text(number as u64).as_str(), " is not a LAN channel"),
        ),
    }
}

// ---------------------------------------------------------------------
// `lan show`
// ---------------------------------------------------------------------

/// The parameter that is shown in line `i`.
pub open spec fn shown_parameter(i: int) -> LanConfigParameter {
    if i == 0 {
        LanConfigParameter::IpAddressSource
    } else if i == 1 {
        LanConfigParameter::IpAddress
    } else if i == 2 {
        LanConfigParameter::SubnetMask
    } else if i == 3 {
        LanConfigParameter::DefaultGatewayAddress
    } else if i == 4 {
        LanConfigParameter::DefaultGatewayMacAddress
    } else if i == 5 {
        LanConfigParameter::MacAddress
    } else if i == 6 {
        LanConfigParameter::VlanId
    } else if i == 7 {
        LanConfigParameter::VlanPriority
    } else if i == 8 {
        LanConfigParameter::Ipv6Ipv4Support
    } else {
        LanConfigParameter::Ipv6Ipv4AddressingEnables
    }
}

/// The label of line `i`.
pub open spec fn shown_label(i: int) -> Chars {
    if i == 0 {
        "Address source"@
    } else if i == 1 {
        "IP address"@
    } else if i == 2 {
        "Subnet mask"@
    } else if i == 3 {
        "Gateway"@
    } else if i == 4 {
        "Gateway MAC"@
    } else if i == 5 {
        "BMC MAC"@
    } else if i == 6 {
        "VLAN"@
    } else if i == 7 {
        "VLAN priority"@
    } else if i == 8 {
        "IP versions"@
    } else {
        "IPv6 mode"@
    }
}

fn shown_at(i: usize) -> (r: (LanConfigParameter, &'static str))
    ensures
        r.0 == shown_parameter(i as int),
        r.1@ == shown_label(i as int),
{
    match i {
        0 => (LanConfigParameter::IpAddressSource, "Address source"),
        1 => (LanConfigParameter::IpAddress, "IP address"),
        2 => (LanConfigParameter::SubnetMask, "Subnet mask"),
        3 => (LanConfigParameter::DefaultGatewayAddress, "Gateway"),
        4 => (LanConfigParameter::DefaultGatewayMacAddress, "Gateway MAC"),
        5 => (LanConfigParameter::MacAddress, "BMC MAC"),
        6 => (LanConfigParameter::VlanId, "VLAN"),
        7 => (LanConfigParameter::VlanPriority, "VLAN priority"),
        8 => (LanConfigParameter::Ipv6Ipv4Support, "IP versions"),
        _ => (LanConfigParameter::Ipv6Ipv4AddressingEnables, "IPv6 mode"),
    }
}

/// What a reply says of a parameter; nothing when it could not be read.
pub open spec fn fetched(parameter: LanConfigParameter, reply: Result<Seq<u8>, Chars>) -> Option<
    Chars,
> {
    match reply {
        Ok(data) => parameter_text(parameter, data),
        Err(_) => None,
    }
}

/// The data of a parameter reply.
pub open spec fn data_view(reply: Result<Vec<u8>, String>) -> Result<Seq<u8>, Chars> {
    match reply {
        Ok(data) => Ok(data@),
        Err(e) => Err(e@),
    }
}

/// Shows a parameter reply.
pub fn fetch(parameter: LanConfigParameter, reply: &Result<Vec<u8>, String>) -> (r: Option<String>)
    ensures
        match r {
            Some(s) => fetched(parameter, data_view(*reply)) == Some(s@),
            None => fetched(parameter, data_view(*reply)) is None,
        },
{
    match reply {
        Ok(data) => render_parameter(parameter, data.as_slice()),
        Err(_) => None,
    }
}

/// A line with a value, or `n/a` where there is none.
pub open spec fn kv_or_na(key: Chars, value: Option<Chars>, color: bool) -> Chars {
    kv_line(
        key,
        match value {
            Some(value) => value,
            None => dimmed("n/a"@, color),
        },
        18,
        color,
    )
}

pub fn kv_opt(key: &str, value: Option<String>, color: bool) -> (line: String)
    ensures
        line@ == kv_or_na(
            key@,
            match value {
                Some(v) => Some(v@),
                None => None,
            },
            color,
        ),
{
    match value {
        Some(value) => kv(key, value.as_str(), 18, color),
        None => kv(key, dim("n/a", color).as_str(), 18, color),
    }
}

/// At most this many addresses of a kind are shown.
pub const MAX_SHOWN_ADDRESSES: u8 = 16;

pub open spec fn shown_count(most: u8) -> int {
    if most < MAX_SHOWN_ADDRESSES {
        most as int
    } else {
        MAX_SHOWN_ADDRESSES as int
    }
}

/// What is being asked of a channel.
#[derive(Clone, Copy, Debug, PartialEq, Eq, Structural)]
pub enum ChannelQuery {
    /// The parameter of line `n`.
    Plain(usize),
    /// The IPv6 capabilities.
    Status,
    /// A static IPv6 address.
    Static(Ipv6Status, u8),
    /// A dynamic IPv6 address.
    Dynamic(Ipv6Status, u8),
    /// Nothing more.
    Done,
}

impl ChannelQuery {
    /// The static address `k`, or what follows the static addresses.
    pub open spec fn static_from(status: Ipv6Status, k: int) -> ChannelQuery {
        if k < shown_count(status.static_address_max) {
            ChannelQuery::Static(status, k as u8)
        } else {
            Self::dynamic_from(status, 0)
        }
    }

    /// The dynamic address `k`, or the end.
    pub open spec fn dynamic_from(status: Ipv6Status, k: int) -> ChannelQuery {
        if k < shown_count(status.dynamic_address_max) {
            ChannelQuery::Dynamic(status, k as u8)
        } else {
            ChannelQuery::Done
        }
    }

    /// The query after a reply: the plain parameters in order, the IPv6
    /// capabilities, and where there are any the IPv6 addresses.
    pub open spec fn next(self, reply: Result<Seq<u8>, Chars>) -> ChannelQuery {
        match self {
            ChannelQuery::Plain(i) => if i < 9 {
                ChannelQuery::Plain((i + 1) as usize)
            } else {
                ChannelQuery::Status
            },
            ChannelQuery::Status => match reply {
                Ok(data) => match status_of(data) {
                    Some(status) => Self::static_from(status, 0),
                    None => ChannelQuery::Done,
                },
                Err(_) => ChannelQuery::Done,
            },
            ChannelQuery::Static(status, k) => Self::static_from(status, k + 1),
            ChannelQuery::Dynamic(status, k) => Self::dynamic_from(status, k + 1),
            ChannelQuery::Done => ChannelQuery::Done,
        }
    }

    /// What is printed when a reply arrives. An address that cannot be read is
    /// left out.
    pub open spec fn shown(self, reply: Result<Seq<u8>, Chars>, color: bool) -> Seq<Chars> {
        match self {
            ChannelQuery::Plain(i) => seq![
                kv_or_na(
                    shown_label(i as int),
                    fetched(shown_parameter(i as int), reply),
                    color,
                ),
            ],
            ChannelQuery::Status => match reply {
                Ok(data) => match status_of(data) {
                    Some(status) => seq![
                        kv_line("IPv6 capabilities"@, status_text(status), 18, color),
                    ],
                    None => seq![],
                },
                Err(_) => seq![],
            },
            ChannelQuery::Static(_, k) => match fetched(
                LanConfigParameter::Ipv6StaticAddresses,
                reply,
            ) {
                Some(value) => seq![
                    kv_line("IPv6 static "@ + dec(k as nat), value, 18, color),
                ],
                None => seq![],
            },
            ChannelQuery::Dynamic(_, k) => match fetched(
                LanConfigParameter::Ipv6DynamicAddress,
                reply,
            ) {
                Some(value) => seq![
                    kv_line("IPv6 dynamic "@ + dec(k as nat), value, 18, color),
                ],
                None => seq![],
            },
            ChannelQuery::Done => seq![],
        }
    }

    /// The parameter and selector that is asked for.
    pub open spec fn asked(self) -> (LanConfigParameter, u8) {
        match self {
            ChannelQuery::Plain(i) => (shown_parameter(i as int), 0),
            ChannelQuery::Status => (LanConfigParameter::Ipv6Status, 0),
            ChannelQuery::Static(_, k) => (LanConfigParameter::Ipv6StaticAddresses, k),
            ChannelQuery::Dynamic(_, k) => (LanConfigParameter::Ipv6DynamicAddress, k),
            ChannelQuery::Done => (LanConfigParameter::SetInProgress, 0),
        }
    }

    fn static_query(status: Ipv6Status, k: u8) -> (q: ChannelQuery)
        ensures
            q == Self::static_from(status, k as int),
    {
        if k < status.static_address_max && k < MAX_SHOWN_ADDRESSES {
            ChannelQuery::Static(status, k)
        } else {
            Self::dynamic_query(status, 0)
        }
    }

    fn dynamic_query(status: Ipv6Status, k: u8) -> (q: ChannelQuery)
        ensures
            q == Self::dynamic_from(status, k as int),
    {
        if k < status.dynamic_address_max && k < MAX_SHOWN_ADDRESSES {
            ChannelQuery::Dynamic(status, k)
        } else {
            ChannelQuery::Done
        }
    }

    /// What holds of every query: addresses are numbered below the limit.
    pub open spec fn wf(self) -> bool {
        match self {
            ChannelQuery::Static(status, k) => k < shown_count(status.static_address_max),
            ChannelQuery::Dynamic(status, k) => k < shown_count(status.dynamic_address_max),
            _ => true,
        }
    }

    /// How many queries can follow at most.
    pub open spec fn left(self) -> int {
        match self {
            ChannelQuery::Plain(i) => 100 + (if i < 9 {
                9 - i
            } else {
                0
            }),
            ChannelQuery::Status => 60,
            ChannelQuery::Static(_, k) => 50 - k,
            ChannelQuery::Dynamic(_, k) => 20 - k,
            ChannelQuery::Done => 0,
        }
    }

    /// Goes on after a reply, and says what is printed.
    pub fn advance(self, reply: Result<Vec<u8>, String>, color: bool) -> (r: (
        ChannelQuery,
        Vec<String>,
    ))
        requires
            self.wf(),
        ensures
            r.0 == self.next(data_view(reply)),
            r.0.wf(),
            texts(r.1@) == self.shown(data_view(reply), color),
    {
        let mut lines = no_lines();
        let next = match self {
            ChannelQuery::Plain(i) => {
                let (parameter, label) = shown_at(i);
                push_text(&mut lines, kv_opt(label, fetch(parameter, &reply), color));
                if i < 9 {
                    ChannelQuery::Plain(i + 1)
                } else {
                    ChannelQuery::Status
                }
            }
            ChannelQuery::Status => {
                let status = match &reply {
                    Ok(data) => ipv6_status(data.as_slice()),
                    Err(_) => None,
                };
                match status {
                    Some(status) => {
                        push_text(
                            &mut lines,
                            kv("IPv6 capabilities", render_status(&status).as_str(), 18, color),
                        );
                        Self::static_query(status, 0)
                    }
                    None => ChannelQuery::Done,
                }
            }
            ChannelQuery::Static(status, k) => {
                if let Some(value) = fetch(LanConfigParameter::Ipv6StaticAddresses, &reply) {
                    let label = concat2("IPv6 static ", dec_text(k as u64).as_str());
                    push_text(&mut lines, kv(label.as_str(), value.as_str(), 18, color));
                }
                Self::static_query(status, k + 1)
            }
            ChannelQuery::Dynamic(status, k) => {
                if let Some(value) = fetch(LanConfigParameter::Ipv6DynamicAddress, &reply) {
                    let label = concat2("IPv6 dynamic ", dec_text(k as u64).as_str());
                    push_text(&mut lines, kv(label.as_str(), value.as_str(), 18, color));
                }
                Self::dynamic_query(status, k + 1)
            }
            ChannelQuery::Done => ChannelQuery::Done,
        };
        proof {
            assert(texts(lines@) =~= self.shown(data_view(reply), color));
        }
        (next, lines)
    }

    /// The parameter and selector that is asked for.
    pub fn parameter(&self) -> (r: (u8, u8))
        ensures
            r.0 == self.asked().0.number(),
            r.1 == self.asked().1,
    {
        match *self {
            ChannelQuery::Plain(i) => (shown_at(i).0.value(), 0),
            ChannelQuery::Status => (LanConfigParameter::Ipv6Status.value(), 0),
            ChannelQuery::Static(_, k) => (LanConfigParameter::Ipv6StaticAddresses.value(), k),
            ChannelQuery::Dynamic(_, k) => (LanConfigParameter::Ipv6DynamicAddress.value(), k),
            ChannelQuery::Done => (LanConfigParameter::SetInProgress.value(), 0),
        }
    }
}

/// Showing a channel ends: every reply leaves fewer queries to make, whatever
/// the controller answers.
pub proof fn law_channel_queries_end(q: ChannelQuery, reply: Result<Seq<u8>, Chars>)
    requires
        q.wf(),
        q != ChannelQuery::Done,
    ensures
        q.next(reply).wf(),
        0 <= q.next(reply).left() < q.left(),
{
}

enum ShowPhase {
    Info,
    Query(ChannelQuery),
    Finished,
    Failed(String),
}

/// Shows one channel, or every LAN channel.
pub struct LanShow {
    selected: bool,
    color: bool,
    channel: u8,
    found: bool,
    phase: ShowPhase,
}

/// What the command is waiting for.
pub ghost enum ShowPhaseView {
    /// Whether the channel carries LAN traffic.
    Info,
    /// A parameter of the channel.
    Query(ChannelQuery),
    Finished,
    Failed(Chars),
}

/// How far the command has come; `selected` says that only one channel is
/// shown, `found` that one was.
pub ghost struct ShowView {
    pub selected: bool,
    pub color: bool,
    pub channel: u8,
    pub found: bool,
    pub phase: ShowPhaseView,
}

impl View for LanShow {
    type V = ShowView;

    closed spec fn view(&self) -> ShowView {
        ShowView {
            selected: self.selected,
            color: self.color,
            channel: self.channel,
            found: self.found,
            phase: match self.phase {
                ShowPhase::Info => ShowPhaseView::Info,
                ShowPhase::Query(q) => ShowPhaseView::Query(q),
                ShowPhase::Finished => ShowPhaseView::Finished,
                ShowPhase::Failed(e) => ShowPhaseView::Failed(e@),
            },
        }
    }
}

/// A state and the lines that are printed on the way to it.
pub ghost struct ChannelShown {
    pub show: ShowView,
    pub lines: Seq<Chars>,
}

impl ShowView {
    pub open spec fn start(args: LanShowArgs, color: bool) -> ShowView {
        ShowView {
            selected: args.channel is Some,
            color,
            channel: match args.channel {
                Some(c) => c,
                None => 0,
            },
            found: false,
            phase: ShowPhaseView::Info,
        }
    }

    pub open spec fn at(self, phase: ShowPhaseView) -> ShowView {
        ShowView { phase, ..self }
    }

    /// Having printed some lines, goes on to the channel after this one; 12 and
    /// 13 are no channels. A selected channel is the only one.
    pub open spec fn onward(self, lines: Seq<Chars>) -> ChannelShown {
        if self.selected {
            ChannelShown { show: self.at(ShowPhaseView::Finished), lines }
        } else if self.channel >= 0x0F {
            ChannelShown {
                show: self.at(ShowPhaseView::Finished),
                lines: (if self.found {
                    lines
                } else {
                    lines.push(indented(dimmed("no LAN channels detected"@, self.color)))
                }).push(seq![]),
            }
        } else {
            let next = if self.channel == 0x0B {
                0x0E
            } else {
                (self.channel + 1) as u8
            };
            ChannelShown {
                show: ShowView { channel: next, phase: ShowPhaseView::Info, ..self },
                lines,
            }
        }
    }

    /// Whether the channel is shown. One that is selected must be a LAN
    /// channel; among all, the others are passed over.
    pub open spec fn after_info(self, info: Result<ChannelMediumType, Chars>) -> ChannelShown {
        match lan_channel(self.channel, info) {
            Ok(_) => ChannelShown {
                show: ShowView {
                    found: true,
                    phase: ShowPhaseView::Query(ChannelQuery::Plain(0)),
                    ..self
                },
                lines: header_lines("LAN channel "@ + dec(self.channel as nat), self.color),
            },
            Err(e) => if self.selected {
                ChannelShown { show: self.at(ShowPhaseView::Failed(e)), lines: seq![] }
            } else {
                self.onward(seq![])
            },
        }
    }

    pub open spec fn after_query(self, q: ChannelQuery, reply: Result<Seq<u8>, Chars>) -> ChannelShown {
        let lines = q.shown(reply, self.color);
        let next = q.next(reply);
        if next == ChannelQuery::Done {
            self.onward(lines)
        } else {
            ChannelShown { show: self.at(ShowPhaseView::Query(next)), lines }
        }
    }

    /// The command after an event, and what is printed. An event that does not
    /// answer the current action changes nothing.
    pub open spec fn next(self, event: EventView) -> ChannelShown {
        match (self.phase, event) {
            (ShowPhaseView::Info, EventView::ChannelInfo(r)) => self.after_info(r),
            (ShowPhaseView::Query(q), EventView::LanParameter(r)) => self.after_query(q, r),
            _ => ChannelShown { show: self, lines: seq![] },
        }
    }

    /// The action whose event the command is waiting for.
    pub open spec fn action(self) -> ActionView {
        match self.phase {
            ShowPhaseView::Info => ActionView::GetChannelInfo { channel: self.channel },
            ShowPhaseView::Query(q) => ActionView::GetLanParameter {
                channel: self.channel,
                parameter: q.asked().0.number(),
                selector: q.asked().1,
            },
            ShowPhaseView::Finished => ActionView::Finish(Ok(())),
            ShowPhaseView::Failed(e) => ActionView::Finish(Err(e)),
        }
    }

    pub open spec fn wf(self) -> bool {
        &&& is_channel(self.channel as int)
        &&& match self.phase {
            ShowPhaseView::Query(q) => q.wf() && q != ChannelQuery::Done,
            _ => true,
        }
    }
}

impl LanShow {
    /// Begins the command, or says that the selected channel does not exist.
    pub fn new(args: LanShowArgs, color: bool) -> (r: Result<LanShow, String>)
        ensures
            match r {
                Ok(show) => show@ == ShowView::start(args, color) && show@.wf(),
                Err(e) => args.channel is Some && !is_channel(args.channel->0 as int) && e@
                    == "invalid channel number "@ + dec(args.channel->0 as nat),
            },
            r is Err <==> args.channel is Some && !is_channel(args.channel->0 as int),
    {
        let first: u8 = match args.channel {
            Some(c) => match channel(c) {
                Ok(c) => c,
                Err(e) => {
                    return Err(e);
                }
            },
            None => 0,
        };
        Ok(
            LanShow {
                selected: args.channel.is_some(),
                color,
                channel: first,
                found: false,
                phase: ShowPhase::Info,
            },
        )
    }

    /// The action whose event the command is waiting for.
    pub fn action(&self) -> (a: Action)
        ensures
            a@ == self@.action(),
    {
        match &self.phase {
            ShowPhase::Info => Action::GetChannelInfo { channel: self.channel },
            ShowPhase::Query(q) => {
                let (parameter, selector) = q.parameter();
                Action::GetLanParameter { channel: self.channel, parameter, selector }
            }
            ShowPhase::Finished => Action::Finish(Ok(())),
            ShowPhase::Failed(e) => Action::Finish(Err(e.clone())),
        }
    }

    fn onward(self, lines: Vec<String>) -> (r: (LanShow, Vec<String>))
        requires
            is_channel(self@.channel as int),
        ensures
            (ChannelShown { show: r.0@, lines: texts(r.1@) }) == self@.onward(texts(lines@)),
            r.0@.wf(),
    {
        let mut show = self;
        let mut lines = lines;
        if show.selected {
            show.phase = ShowPhase::Finished;
        } else if show.channel >= 0x0F {
            if !show.found {
                push_text(
                    &mut lines,
                    indent(dim("no LAN channels detected", show.color).as_str()),
                );
            }
            push_text(&mut lines, String::new());
            show.phase = ShowPhase::Finished;
        } else {
            show.channel = if show.channel == 0x0B {
                0x0E
            } else {
                show.channel + 1
            };
            show.phase = ShowPhase::Info;
        }
        (show, lines)
    }

    /// Advances the command with an event, and says what is printed.
    pub fn advance(self, event: Event) -> (r: (LanShow, Vec<String>))
        requires
            self@.wf(),
        ensures
            (ChannelShown { show: r.0@, lines: texts(r.1@) }) == self@.next(event@),
            r.0@.wf(),
    {
        let LanShow { selected, color, channel, found, phase } = self;
        match (phase, event) {
            (ShowPhase::Info, Event::ChannelInfo(info)) => {
                match ensure_lan_channel(channel, info) {
                    Ok(_) => {
                        let title = concat2("LAN channel ", dec_text(channel as u64).as_str());
                        let show = LanShow {
                            selected,
                            color,
                            channel,
                            found: true,
                            phase: ShowPhase::Query(ChannelQuery::Plain(0)),
                        };
                        (show, header(title.as_str(), color))
                    }
                    Err(e) => {
                        if selected {
                            let show = LanShow {
                                selected,
                                color,
                                channel,
                                found,
                                phase: ShowPhase::Failed(e),
                            };
                            (show, no_lines())
                        } else {
                            let show = LanShow {
                                selected,
                                color,
                                channel,
                                found,
                                phase: ShowPhase::Info,
                            };
                            show.onward(no_lines())
                        }
                    }
                }
            }
            (ShowPhase::Query(q), Event::LanParameter(reply)) => {
                let (next, lines) = q.advance(reply, color);
                if next == ChannelQuery::Done {
                    let show = LanShow {
                        selected,
                        color,
                        channel,
                        found,
                        phase: ShowPhase::Info,
                    };
                    show.onward(lines)
                } else {
                    let show = LanShow {
                        selected,
                        color,
                        channel,
                        found,
                        phase: ShowPhase::Query(next),
                    };
                    (show, lines)
                }
            }
            (phase, _) => (LanShow { selected, color, channel, found, phase }, no_lines()),
        }
    }
}

} // verus!
