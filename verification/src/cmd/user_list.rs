//! `user list` — the users of a channel and their access.

use vstd::prelude::*;

use crate::cmd::user::{
    access_of, access_request, access_request_view, channel_verdict, get_access, get_name, name_of,
    privilege_name, privilege_text, validate_channel, Access, CMD_GET_USER_NAME,
};
use crate::cmd::{yes_no, yes_no_of};
use crate::conn::{bmc_request, concat2, reply_view, request_to_bmc, Reply, ResponseView, NETFN_APP};
use crate::dialog::{no_lines, Action, ActionView, Event, EventView};
use crate::text::{append_texts, dec, dec_text, push_text, texts, Chars};
use crate::ui::{
    cells, empty_table, header, header_lines, kv, kv_line, plain_cell, Align, Cell, CellView, Table,
    TableView,
};

verus! {

/// The empty table of users.
pub open spec fn user_table() -> TableView {
    empty_table(
        seq![
            "ID"@,
            "NAME"@,
            "ENABLED"@,
            "IPMI"@,
            "LINK"@,
            "PRIVILEGE"@,
            "NAME TYPE"@,
        ],
        seq![
            Align::Right,
            Align::Left,
            Align::Left,
            Align::Left,
            Align::Left,
            Align::Left,
            Align::Left,
        ],
    )
}

/// How a user's name is shown.
pub open spec fn shown_name(id: u8, name: Chars) -> Chars {
    if id == 1 && name.len() == 0 {
        "<null user>"@
    } else if name.len() == 0 {
        "<empty>"@
    } else {
        name
    }
}

/// The row of a user. The first names of a controller are fixed.
pub open spec fn user_row(id: u8, name: Chars, access: Access, fixed_names: u8) -> Seq<CellView> {
    seq![
        plain_cell(dec(id as nat)),
        plain_cell(shown_name(id, name)),
        plain_cell(yes_no_of(access.link_auth || access.ipmi_messaging)),
        plain_cell(yes_no_of(access.ipmi_messaging)),
        plain_cell(yes_no_of(access.link_auth)),
        plain_cell(privilege_text(access.privilege)),
        plain_cell(
            if id <= fixed_names {
                "fixed"@
            } else {
                "configurable"@
            },
        ),
    ]
}

fn push_user(table: &mut Table, id: u8, name: &str, access: &Access, fixed_names: u8)
    ensures
        final(table)@ == old(table)@.with_row(user_row(id, name@, *access, fixed_names)),
{
    let shown = if id == 1 && name.is_empty() {
        "<null user>"
    } else if name.is_empty() {
        "<empty>"
    } else {
        name
    };
    let kind = if id <= fixed_names {
        "fixed"
    } else {
        "configurable"
    };
    let row = vec![
        Cell::new(dec_text(id as u64).as_str()),
        Cell::new(shown),
        Cell::new(yes_no(access.link_auth || access.ipmi_messaging)),
        Cell::new(yes_no(access.ipmi_messaging)),
        Cell::new(yes_no(access.link_auth)),
        Cell::new(privilege_name(access.privilege)),
        Cell::new(kind),
    ];
    proof {
        assert(cells(row@) =~= user_row(id, name@, *access, fixed_names));
    }
    table.row(row);
}

enum UsersPhase {
    First,
    Access(u8),
    Name(u8, Access),
    Finished,
    Failed(String),
}

/// Lists the users of a channel.
pub struct UserList {
    channel: u8,
    color: bool,
    limits: (u8, u8, u8),
    table: Table,
    phase: UsersPhase,
}

/// What the command is waiting for.
pub ghost enum UsersPhaseView {
    /// The access of user 1, which also says how many users there are.
    First,
    /// The access of a user.
    Access(u8),
    /// The name of a user whose access is known.
    Name(u8, Access),
    Finished,
    Failed(Chars),
}

/// How far the command has come; `limits` are the numbers of possible users, of
/// enabled users and of fixed names.
pub ghost struct UsersView {
    pub channel: u8,
    pub color: bool,
    pub limits: (u8, u8, u8),
    pub table: TableView,
    pub phase: UsersPhaseView,
}

impl View for UserList {
    type V = UsersView;

    closed spec fn view(&self) -> UsersView {
        UsersView {
            channel: self.channel,
            color: self.color,
            limits: self.limits,
            table: self.table@,
            phase: match self.phase {
                UsersPhase::First => UsersPhaseView::First,
                UsersPhase::Access(id) => UsersPhaseView::Access(id),
                UsersPhase::Name(id, access) => UsersPhaseView::Name(id, access),
                UsersPhase::Finished => UsersPhaseView::Finished,
                UsersPhase::Failed(e) => UsersPhaseView::Failed(e@),
            },
        }
    }
}

/// A state and the lines that are printed on the way to it.
pub ghost struct UsersShown {
    pub users: UsersView,
    pub lines: Seq<Chars>,
}

impl UsersView {
    pub open spec fn start(channel: u8, color: bool) -> UsersView {
        UsersView {
            channel,
            color,
            limits: (0, 0, 0),
            table: user_table(),
            phase: UsersPhaseView::First,
        }
    }

    pub open spec fn at(self, phase: UsersPhaseView) -> UsersView {
        UsersView { phase, ..self }
    }

    pub open spec fn silently(self, phase: UsersPhaseView) -> UsersShown {
        UsersShown { users: self.at(phase), lines: seq![] }
    }

    /// The report on all users.
    pub open spec fn report(self) -> Seq<Chars> {
        (header_lines("BMC Users — channel "@ + dec(self.channel as nat), self.color)
            + self.table.lines(self.color)).push(
            kv_line("Maximum users"@, dec(self.limits.0 as nat), 18, self.color),
        ).push(
            kv_line("Enabled users"@, dec(self.limits.1 as nat), 18, self.color),
        ).push(seq![])
    }

    /// Goes on to a user ID; after the last one the report is printed.
    pub open spec fn moved_to(self, id: int) -> UsersShown {
        if id <= self.limits.0 {
            self.silently(UsersPhaseView::Access(id as u8))
        } else {
            UsersShown { users: self.at(UsersPhaseView::Finished), lines: self.report() }
        }
    }

    /// The command after an event, and what is printed. A user's access must be
    /// readable; a name that is not is shown as unavailable.
    pub open spec fn next(self, event: EventView) -> UsersShown {
        match (self.phase, event) {
            (UsersPhaseView::First, EventView::Reply(r)) => match access_of(1, r) {
                Err(e) => self.silently(UsersPhaseView::Failed(e)),
                Ok(first) => UsersView {
                    limits: (first.max_users, first.enabled_users, first.fixed_names),
                    ..self
                }.moved_to(1),
            },
            (UsersPhaseView::Access(id), EventView::Reply(r)) => match access_of(id, r) {
                Err(e) => self.silently(UsersPhaseView::Failed(e)),
                Ok(access) => self.silently(UsersPhaseView::Name(id, access)),
            },
            (UsersPhaseView::Name(id, access), EventView::Reply(r)) => {
                let name = match name_of(id, r) {
                    Ok(name) => name,
                    Err(_) => "<unavailable>"@,
                };
                UsersView {
                    table: self.table.with_row(user_row(id, name, access, self.limits.2)),
                    ..self
                }.moved_to(id + 1)
            },
            _ => self.silently(self.phase),
        }
    }

    /// The action whose event the command is waiting for.
    pub open spec fn action(self) -> ActionView {
        match self.phase {
            UsersPhaseView::First => ActionView::Send(access_request_view(self.channel, 1)),
            UsersPhaseView::Access(id) => ActionView::Send(access_request_view(self.channel, id)),
            UsersPhaseView::Name(id, _) => ActionView::Send(
                bmc_request(NETFN_APP, CMD_GET_USER_NAME, seq![id]),
            ),
            UsersPhaseView::Finished => ActionView::Finish(Ok(())),
            UsersPhaseView::Failed(e) => ActionView::Finish(Err(e)),
        }
    }

    /// What holds of every run: the users before the current one are listed, in
    /// order, one row each.
    pub open spec fn wf(self) -> bool {
        &&& self.limits.0 <= 63
        &&& match self.phase {
            UsersPhaseView::First => self.table.rows.len() == 0,
            UsersPhaseView::Access(id) => 1 <= id <= self.limits.0 && self.table.rows.len() == id
                - 1,
            UsersPhaseView::Name(id, _) => 1 <= id <= self.limits.0 && self.table.rows.len() == id
                - 1,
            UsersPhaseView::Finished => self.table.rows.len() == self.limits.0,
            UsersPhaseView::Failed(_) => true,
        }
    }
}

impl UserList {
    /// Begins the command, or says that the channel is invalid.
    pub fn new(channel: u8, color: bool) -> (r: Result<UserList, String>)
        ensures
            match r {
                Ok(list) => channel_verdict(channel) is Ok && list@ == UsersView::start(
                    channel,
                    color,
                ) && list@.wf(),
                Err(e) => channel_verdict(channel) == Err::<(), Chars>(e@),
            },
    {
        if let Err(e) = validate_channel(channel) {
            return Err(e);
        }
        let table = Table::new(
            &["ID", "NAME", "ENABLED", "IPMI", "LINK", "PRIVILEGE", "NAME TYPE"],
            &[
                Align::Right,
                Align::Left,
                Align::Left,
                Align::Left,
                Align::Left,
                Align::Left,
                Align::Left,
            ],
        );
        proof {
            assert(table@.headers =~= user_table().headers);
            assert(table@.aligns =~= user_table().aligns);
        }
        Ok(UserList { channel, color, limits: (0, 0, 0), table, phase: UsersPhase::First })
    }

    /// The action whose event the command is waiting for.
    pub fn action(&self) -> (a: Action)
        ensures
            a@ == self@.action(),
    {
        match &self.phase {
            UsersPhase::First => Action::Send(access_request(self.channel, 1)),
            UsersPhase::Access(id) => Action::Send(access_request(self.channel, *id)),
            UsersPhase::Name(id, _) => {
                let data = vec![*id];
                proof {
                    assert(data@ =~= seq![*id]);
                }
                Action::Send(request_to_bmc(NETFN_APP, CMD_GET_USER_NAME, data))
            }
            UsersPhase::Finished => Action::Finish(Ok(())),
            UsersPhase::Failed(e) => Action::Finish(Err(e.clone())),
        }
    }

    fn fail(self, e: String) -> (r: (UserList, Vec<String>))
        requires
            self@.wf(),
        ensures
            (UsersShown { users: r.0@, lines: texts(r.1@) }) == self@.silently(
                UsersPhaseView::Failed(e@),
            ),
            r.0@.wf(),
    {
        let mut list = self;
        list.phase = UsersPhase::Failed(e);
        (list, no_lines())
    }

    fn move_to(self, id: u8) -> (r: (UserList, Vec<String>))
        requires
            1 <= id <= 64,
            self@.limits.0 <= 63,
            self@.table.rows.len() == id - 1,
            id - 1 <= self@.limits.0,
        ensures
            (UsersShown { users: r.0@, lines: texts(r.1@) }) == self@.moved_to(id as int),
            r.0@.wf(),
    {
        let mut list = self;
        if id <= list.limits.0 {
            list.phase = UsersPhase::Access(id);
            return (list, no_lines());
        }
        let title = concat2("BMC Users — channel ", dec_text(list.channel as u64).as_str());
        let mut lines = header(title.as_str(), list.color);
        append_texts(&mut lines, list.table.lines(list.color));
        push_text(
            &mut lines,
            kv("Maximum users", dec_text(list.limits.0 as u64).as_str(), 18, list.color),
        );
        push_text(
            &mut lines,
            kv("Enabled users", dec_text(list.limits.1 as u64).as_str(), 18, list.color),
        );
        push_text(&mut lines, String::new());
        list.phase = UsersPhase::Finished;
        proof {
            assert(texts(lines@) =~= self@.report());
        }
        (list, lines)
    }

    /// Advances the command with an event, and says what is printed.
    pub fn advance(self, event: Event) -> (r: (UserList, Vec<String>))
        requires
            self@.wf(),
        ensures
            (UsersShown { users: r.0@, lines: texts(r.1@) }) == self@.next(event@),
            r.0@.wf(),
    {
        match (&self.phase, event) {
            (UsersPhase::First, Event::Reply(reply)) => match get_access(1, reply) {
                Err(e) => self.fail(e),
                Ok(first) => {
                    let mut list = self;
                    list.limits = (first.max_users, first.enabled_users, first.fixed_names);
                    proof {
                        lemma_six_bits(reply_view(reply));
                    }
                    list.move_to(1)
                }
            },
            (UsersPhase::Access(id), Event::Reply(reply)) => {
                let id: u8 = *id;
                match get_access(id, reply) {
                    Err(e) => self.fail(e),
                    Ok(access) => {
                        let mut list = self;
                        list.phase = UsersPhase::Name(id, access);
                        (list, no_lines())
                    }
                }
            }
            (UsersPhase::Name(id, access), Event::Reply(reply)) => {
                let id: u8 = *id;
                let access = *access;
                let name = match get_name(id, reply) {
                    Ok(name) => name,
                    Err(_) => "<unavailable>".to_owned(),
                };
                let mut list = self;
                let fixed: u8 = list.limits.2;
                push_user(&mut list.table, id, name.as_str(), &access, fixed);
                list.move_to(id + 1)
            }
            _ => (self, no_lines()),
        }
    }
}

proof fn lemma_six_bits(reply: Result<ResponseView, Chars>)
    ensures
        access_of(1, reply) is Ok ==> access_of(1, reply)->Ok_0.max_users <= 63,
{
    if access_of(1, reply) is Ok {
        let b = reply->Ok_0.data[0];
        assert(b & 0x3F <= 63) by (bit_vector);
    }
}

} // verus!
