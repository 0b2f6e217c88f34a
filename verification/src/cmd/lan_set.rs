//! `lan set` — changing settings in a transaction, and verifying them.

use vstd::prelude::*;

use crate::bytes::copy_range;
use crate::cli::LanSetArgs;
use crate::cmd::lan::{
    channel, change_views, plan_changes, planned, Change, ChangeView, LanConfigParameter,
};
use crate::cmd::lan_run::{data_view, ensure_lan_channel, lan_channel};
use crate::conn::{concat2, concat3};
use crate::dialog::{
    no_lines, outcome_view, Action, ActionView, ChannelMediumType, Event, EventView,
};
use crate::sdr::is_channel;
use crate::text::{
    dec, dec_text, hex_dump, hex_dump_text, join, joined, push_text, texts, Chars,
};
use crate::ui::{green, greened, red, reddened, yellow, yellowed};

verus! {

enum SetPhase {
    Info,
    Ask,
    Begin,
    Write(usize),
    Commit,
    Release,
    Verify(usize),
    Finished,
    Failed(String),
}

/// Changes the settings of a channel: marks the transaction, writes each
/// setting, commits and releases, then reads every written setting back.
pub struct LanSet {
    args: LanSetArgs,
    color: bool,
    changes: Vec<Change>,
    begun: bool,
    applied: Vec<usize>,
    failures: Vec<String>,
    phase: SetPhase,
}

/// What the command is waiting for.
pub ghost enum SetPhaseView {
    /// Whether the channel carries LAN traffic.
    Info,
    /// The user's consent.
    Ask,
    /// Set In Progress: set in progress.
    Begin,
    /// The write of a change.
    Write(int),
    /// Set In Progress: commit write.
    Commit,
    /// Set In Progress: set complete.
    Release,
    /// The value of an applied change.
    Verify(int),
    Finished,
    Failed(Chars),
}

/// How far the command has come: whether the transaction was marked, which
/// changes were applied, and what went wrong.
pub ghost struct LanSetView {
    pub args: LanSetArgs,
    pub color: bool,
    pub changes: Seq<ChangeView>,
    pub begun: bool,
    pub applied: Seq<int>,
    pub failures: Seq<Chars>,
    pub phase: SetPhaseView,
}

pub open spec fn indices(v: Seq<usize>) -> Seq<int> {
    Seq::new(v.len(), |i: int| v[i] as int)
}

impl View for LanSet {
    type V = LanSetView;

    closed spec fn view(&self) -> LanSetView {
        LanSetView {
            args: self.args,
            color: self.color,
            changes: change_views(self.changes@),
            begun: self.begun,
            applied: indices(self.applied@),
            failures: texts(self.failures@),
            phase: match self.phase {
                SetPhase::Info => SetPhaseView::Info,
                SetPhase::Ask => SetPhaseView::Ask,
                SetPhase::Begin => SetPhaseView::Begin,
                SetPhase::Write(k) => SetPhaseView::Write(k as int),
                SetPhase::Commit => SetPhaseView::Commit,
                SetPhase::Release => SetPhaseView::Release,
                SetPhase::Verify(j) => SetPhaseView::Verify(j as int),
                SetPhase::Finished => SetPhaseView::Finished,
                SetPhase::Failed(e) => SetPhaseView::Failed(e@),
            },
        }
    }
}

/// A state and the lines that are printed on the way to it.
pub ghost struct Setting {
    pub set: LanSetView,
    pub lines: Seq<Chars>,
}

/// One line for each change.
pub open spec fn change_lines(changes: Seq<ChangeView>) -> Seq<Chars> {
    Seq::new(changes.len(), |i: int| "  - "@ + changes[i].description)
}

impl LanSetView {
    pub open spec fn start(args: LanSetArgs, color: bool) -> LanSetView {
        LanSetView {
            args,
            color,
            changes: seq![],
            begun: false,
            applied: seq![],
            failures: seq![],
            phase: SetPhaseView::Info,
        }
    }

    pub open spec fn at(self, phase: SetPhaseView) -> LanSetView {
        LanSetView { phase, ..self }
    }

    pub open spec fn failing(self, e: Chars) -> LanSetView {
        LanSetView { failures: self.failures.push(e), ..self }
    }

    /// The settings are announced; without `--yes` the user is asked.
    pub open spec fn after_info(self, info: Result<ChannelMediumType, Chars>) -> Setting {
        match lan_channel(self.args.channel, info) {
            Err(e) => Setting { set: self.at(SetPhaseView::Failed(e)), lines: seq![] },
            Ok(_) => match planned(self.args) {
                Err(e) => Setting { set: self.at(SetPhaseView::Failed(e)), lines: seq![] },
                Ok(changes) => Setting {
                    set: LanSetView { changes, ..self }.at(
                        if self.args.yes {
                            SetPhaseView::Begin
                        } else {
                            SetPhaseView::Ask
                        },
                    ),
                    lines: seq![
                        "About to set on channel "@ + dec(self.args.channel as nat) + ":"@,
                    ] + change_lines(changes),
                },
            },
        }
    }

    /// Goes on to the change at `k`; after the last one to the end of the
    /// transaction: a commit only when every write succeeded, and a release
    /// whenever the transaction was marked.
    pub open spec fn writing(self, k: int) -> LanSetView {
        if k < self.changes.len() {
            self.at(SetPhaseView::Write(k))
        } else if self.begun && self.failures.len() == 0 {
            self.at(SetPhaseView::Commit)
        } else if self.begun {
            self.at(SetPhaseView::Release)
        } else {
            self.verifying(0)
        }
    }

    /// Goes on to the applied change at `j`; after the last one to the result.
    pub open spec fn verifying(self, j: int) -> LanSetView {
        if j < self.applied.len() {
            self.at(SetPhaseView::Verify(j))
        } else if self.failures.len() == 0 {
            self.at(SetPhaseView::Finished)
        } else {
            self.at(SetPhaseView::Failed(joined(self.failures, "; "@)))
        }
    }

    /// What is printed when the command ends well.
    pub open spec fn closing(self) -> Seq<Chars> {
        if self.phase is Finished {
            seq![greened("OK:"@, self.color) + " LAN configuration applied and verified"@]
        } else {
            seq![]
        }
    }

    /// A state, the lines printed on the way, and what ends the command.
    pub open spec fn saying(self, lines: Seq<Chars>) -> Setting {
        Setting { set: self, lines: lines + self.closing() }
    }

    /// The transaction is marked, or cannot be; the writes follow either way.
    pub open spec fn after_begin(self, result: Result<(), Chars>) -> Setting {
        match result {
            Ok(_) => LanSetView { begun: true, ..self }.writing(0).saying(seq![]),
            Err(e) => self.writing(0).saying(
                seq![
                    "  "@ + yellowed("note:"@, self.color) + " transaction marker unavailable: "@
                        + e,
                ],
            ),
        }
    }

    pub open spec fn after_write(self, k: int, result: Result<(), Chars>) -> Setting {
        let description = self.changes[k].description;
        match result {
            Ok(_) => LanSetView { applied: self.applied.push(k), ..self }.writing(k + 1).saying(
                seq!["  "@ + greened("set"@, self.color) + " "@ + description],
            ),
            Err(e) => self.failing(description).writing(k + 1).saying(
                seq!["  "@ + reddened("fail"@, self.color) + " "@ + description + ": "@ + e],
            ),
        }
    }

    pub open spec fn after_release(self, result: Result<(), Chars>) -> Setting {
        match result {
            Ok(_) => self.verifying(0).saying(seq![]),
            Err(e) => self.failing("could not release Set In Progress: "@ + e).verifying(
                0,
            ).saying(seq![]),
        }
    }

    /// A value that was read back starts with the bytes that were written, or
    /// the change failed.
    pub open spec fn after_verify(self, j: int, reply: Result<Seq<u8>, Chars>) -> Setting {
        let change = self.changes[self.applied[j]];
        match reply {
            Ok(actual) => if change.data.is_prefix_of(actual) {
                self.verifying(j + 1).saying(
                    seq!["  "@ + greened("verified"@, self.color) + " "@ + change.description],
                )
            } else {
                self.failing(
                    "verification mismatch for "@ + change.description + ": expected "@ + hex_dump(
                        change.data,
                    ) + ", got "@ + hex_dump(actual),
                ).verifying(j + 1).saying(seq![])
            },
            Err(_) => self.failing("could not verify "@ + change.description).verifying(
                j + 1,
            ).saying(seq![]),
        }
    }

    /// The command after an event, and what is printed. An event that does not
    /// answer the current action changes nothing.
    pub open spec fn next(self, event: EventView) -> Setting {
        match (self.phase, event) {
            (SetPhaseView::Info, EventView::ChannelInfo(r)) => self.after_info(r),
            (SetPhaseView::Ask, EventView::Answer(yes)) => if yes {
                Setting { set: self.at(SetPhaseView::Begin), lines: seq![] }
            } else {
                Setting { set: self.at(SetPhaseView::Finished), lines: seq!["Aborted."@] }
            },
            (SetPhaseView::Begin, EventView::LanWritten(r)) => self.after_begin(r),
            (SetPhaseView::Write(k), EventView::LanWritten(r)) => self.after_write(k, r),
            (SetPhaseView::Commit, EventView::LanWritten(_)) => Setting {
                set: self.at(SetPhaseView::Release),
                lines: seq![],
            },
            (SetPhaseView::Release, EventView::LanWritten(r)) => self.after_release(r),
            (SetPhaseView::Verify(j), EventView::LanParameter(r)) => self.after_verify(j, r),
            _ => Setting { set: self, lines: seq![] },
        }
    }

    /// A write of the Set In Progress parameter.
    pub open spec fn marker(self, value: u8) -> ActionView {
        ActionView::SetLanParameter {
            channel: self.args.channel,
            parameter: LanConfigParameter::SetInProgress.number(),
            data: seq![value],
        }
    }

    /// The action whose event the command is waiting for.
    pub open spec fn action(self) -> ActionView {
        match self.phase {
            SetPhaseView::Info => ActionView::GetChannelInfo { channel: self.args.channel },
            SetPhaseView::Ask => ActionView::Confirm("Apply these changes?"@),
            SetPhaseView::Begin => self.marker(0x01),
            SetPhaseView::Write(k) => ActionView::SetLanParameter {
                channel: self.args.channel,
                parameter: self.changes[k].parameter.number(),
                data: self.changes[k].data,
            },
            SetPhaseView::Commit => self.marker(0x02),
            SetPhaseView::Release => self.marker(0x00),
            SetPhaseView::Verify(j) => ActionView::GetLanParameter {
                channel: self.args.channel,
                parameter: self.changes[self.applied[j]].parameter.number(),
                selector: 0,
            },
            SetPhaseView::Finished => ActionView::Finish(Ok(())),
            SetPhaseView::Failed(e) => ActionView::Finish(Err(e)),
        }
    }

    /// What holds of every run: applied changes are changes; while writes go on
    /// every change before the current one was applied or failed; and a commit
    /// follows only writes that all succeeded.
    pub open spec fn wf(self) -> bool {
        &&& self.changes.len() <= usize::MAX
        &&& self.applied.len() <= self.changes.len()
        &&& forall|i: int|
            0 <= i < self.applied.len() ==> 0 <= (#[trigger] self.applied[i]) < self.changes.len()
        &&& match self.phase {
            SetPhaseView::Info | SetPhaseView::Ask | SetPhaseView::Begin => !self.begun
                && self.applied.len() == 0 && self.failures.len() == 0,
            SetPhaseView::Write(k) => 0 <= k < self.changes.len() && self.applied.len()
                + self.failures.len() == k,
            SetPhaseView::Commit => self.begun && self.failures.len() == 0 && self.applied.len()
                == self.changes.len(),
            SetPhaseView::Release => self.begun && self.applied.len() + self.failures.len()
                == self.changes.len(),
            SetPhaseView::Verify(j) => 0 <= j < self.applied.len() && self.applied.len()
                + self.failures.len() >= self.changes.len(),
            _ => true,
        }
    }
}

/// A transaction that was marked is always released: after the last write, even
/// when writes failed, the release follows directly or after the commit.
pub proof fn law_transaction_is_released(s: LanSetView, event: EventView)
    requires
        s.wf(),
        s.begun,
        s.phase is Write || s.phase is Commit,
    ensures
        ({
            let n = s.next(event).set;
            &&& n.begun
            &&& n.phase is Write || n.phase is Commit || n.phase is Release
            &&& s.phase is Commit && event is LanWritten ==> n.phase is Release
        }),
{
}

/// Nothing is written unasked: without `--yes` the question comes before any
/// write, and only the answer yes leads to one.
pub proof fn law_set_asks_first(s: LanSetView, event: EventView)
    requires
        s.wf(),
        !s.args.yes,
        s.phase is Info || s.phase is Ask,
    ensures
        s.next(event).set.phase is Begin ==> s.phase is Ask && event == EventView::Answer(true),
        !(s.next(event).set.phase is Write),
{
}

/// The command succeeds after writing only if nothing failed, and when it does,
/// the last value read back starts with the bytes that were written.
pub proof fn law_success_is_verified(s: LanSetView, event: EventView)
    requires
        s.wf(),
        s.phase is Verify,
        s.next(event).set.phase is Finished,
    ensures
        s.failures.len() == 0,
        s.applied.len() == s.changes.len(),
        event is LanParameter,
        event->LanParameter_0 is Ok,
        s.changes[s.applied[s.phase->Verify_0]].data.is_prefix_of(event->LanParameter_0->Ok_0),
{
}

fn starts_with(actual: &Vec<u8>, expected: &Vec<u8>) -> (r: bool)
    ensures
        r == expected@.is_prefix_of(actual@),
{
    if expected.len() > actual.len() {
        return false;
    }
    let mut i: usize = 0;
    while i < expected.len()
        invariant
            i <= expected.len() <= actual.len(),
            forall|k: int| 0 <= k < i ==> expected@[k] == actual@[k],
        decreases expected.len() - i,
    {
        if expected[i] != actual[i] {
            proof {
                assert(expected@[i as int] != actual@.subrange(0, expected@.len() as int)[i as int]);
            }
            return false;
        }
        i = i + 1;
    }
    proof {
        assert(expected@ =~= actual@.subrange(0, expected@.len() as int));
    }
    true
}

impl LanSet {
    /// Begins the command, or says that the channel does not exist.
    pub fn new(args: LanSetArgs, color: bool) -> (r: Result<LanSet, String>)
        ensures
            match r {
                Ok(set) => is_channel(args.channel as int) && set@ == LanSetView::start(args, color)
                    && set@.wf(),
                Err(e) => !is_channel(args.channel as int) && e@ == "invalid channel number "@
                    + dec(args.channel as nat),
            },
    {
        if let Err(e) = channel(args.channel) {
            return Err(e);
        }
        let set = LanSet {
            args,
            color,
            changes: Vec::new(),
            begun: false,
            applied: Vec::new(),
            failures: Vec::new(),
            phase: SetPhase::Info,
        };
        proof {
            assert(set@.changes =~= seq![]);
            assert(set@.applied =~= seq![]);
            assert(set@.failures =~= seq![]);
        }
        Ok(set)
    }

    fn marker(&self, value: u8) -> (a: Action)
        ensures
            a@ == self@.marker(value),
    {
        let data = vec![value];
        proof {
            assert(data@ =~= seq![value]);
        }
        Action::SetLanParameter {
            channel: self.args.channel,
            parameter: LanConfigParameter::SetInProgress.value(),
            data,
        }
    }

    /// The action whose event the command is waiting for.
    pub fn action(&self) -> (a: Action)
        requires
            self@.wf(),
        ensures
            a@ == self@.action(),
    {
        match &self.phase {
            SetPhase::Info => Action::GetChannelInfo { channel: self.args.channel },
            SetPhase::Ask => Action::Confirm("Apply these changes?".to_owned()),
            SetPhase::Begin => self.marker(0x01),
            SetPhase::Write(k) => {
                let change = &self.changes[*k];
                let data = copy_range(change.data.as_slice(), 0, change.data.len());
                proof {
                    assert(data@ =~= change.data@);
                }
                Action::SetLanParameter {
                    channel: self.args.channel,
                    parameter: change.parameter.value(),
                    data,
                }
            }
            SetPhase::Commit => self.marker(0x02),
            SetPhase::Release => self.marker(0x00),
            SetPhase::Verify(j) => {
                let k: usize = self.applied[*j];
                proof {
                    assert(self@.applied[*j as int] == k);
                }
                Action::GetLanParameter {
                    channel: self.args.channel,
                    parameter: self.changes[k].parameter.value(),
                    selector: 0,
                }
            }
            SetPhase::Finished => Action::Finish(Ok(())),
            SetPhase::Failed(e) => Action::Finish(Err(e.clone())),
        }
    }

    fn verifying(self, j: usize) -> (set: LanSet)
        requires
            j <= self@.applied.len() <= self@.changes.len() <= usize::MAX,
            forall|i: int|
                0 <= i < self@.applied.len() ==> 0 <= (#[trigger] self@.applied[i])
                    < self@.changes.len(),
            self@.applied.len() + self@.failures.len() >= self@.changes.len(),
        ensures
            set@ == self@.verifying(j as int),
            set@.wf(),
    {
        let mut set = self;
        if j < set.applied.len() {
            set.phase = SetPhase::Verify(j);
        } else if set.failures.len() == 0 {
            set.phase = SetPhase::Finished;
        } else {
            set.phase = SetPhase::Failed(join(&set.failures, "; "));
        }
        set
    }

    fn writing(self, k: usize) -> (set: LanSet)
        requires
            k <= self@.changes.len() <= usize::MAX,
            self@.applied.len() + self@.failures.len() == k,
            forall|i: int|
                0 <= i < self@.applied.len() ==> 0 <= (#[trigger] self@.applied[i])
                    < self@.changes.len(),
        ensures
            set@ == self@.writing(k as int),
            set@.wf(),
    {
        let mut set = self;
        if k < set.changes.len() {
            set.phase = SetPhase::Write(k);
            set
        } else if set.begun && set.failures.len() == 0 {
            set.phase = SetPhase::Commit;
            set
        } else if set.begun {
            set.phase = SetPhase::Release;
            set
        } else {
            set.verifying(0)
        }
    }

    fn saying(self, lines: Vec<String>) -> (r: (LanSet, Vec<String>))
        requires
            self@.wf(),
        ensures
            (Setting { set: r.0@, lines: texts(r.1@) }) == self@.saying(texts(lines@)),
            r.0@.wf(),
    {
        let mut lines = lines;
        let ghost before = texts(lines@);
        if matches!(&self.phase, SetPhase::Finished) {
            push_text(
                &mut lines,
                concat2(
                    green("OK:", self.color).as_str(),
                    " LAN configuration applied and verified",
                ),
            );
        }
        proof {
            assert(texts(lines@) =~= before + self@.closing());
        }
        (self, lines)
    }

    fn after_info(self, info: Result<ChannelMediumType, String>) -> (r: (LanSet, Vec<String>))
        requires
            self@.wf(),
            self@.phase is Info,
        ensures
            (Setting { set: r.0@, lines: texts(r.1@) }) == self@.after_info(outcome_view(info)),
            r.0@.wf(),
    {
        let mut set = self;
        if let Err(e) = ensure_lan_channel(set.args.channel, info) {
            set.phase = SetPhase::Failed(e);
            return (set, no_lines());
        }
        match plan_changes(&set.args) {
            Err(e) => {
                set.phase = SetPhase::Failed(e);
                (set, no_lines())
            }
            Ok(changes) => {
                let mut lines = no_lines();
                push_text(
                    &mut lines,
                    concat3(
                        "About to set on channel ",
                        dec_text(set.args.channel as u64).as_str(),
                        ":",
                    ),
                );
                let ghost head = texts(lines@);
                let ghost views = change_views(changes@);
                let mut i: usize = 0;
                let count: usize = changes.len();
                proof {
                    assert(texts(lines@) =~= head + change_lines(views).take(0));
                    assert(head =~= seq![
                        "About to set on channel "@ + dec(self@.args.channel as nat) + ":"@,
                    ]);
                }
                while i < count
                    invariant
                        count == changes@.len(),
                        i <= count,
                        views == change_views(changes@),
                        texts(lines@) == head + change_lines(views).take(i as int),
                    decreases count - i,
                {
                    push_text(&mut lines, concat2("  - ", changes[i].description.as_str()));
                    proof {
                        assert(texts(lines@) =~= head + change_lines(views).take(i + 1));
                    }
                    i = i + 1;
                }
                proof {
                    assert(change_lines(views).take(views.len() as int) =~= change_lines(views));
                }
                set.changes = changes;
                set.phase = if set.args.yes {
                    SetPhase::Begin
                } else {
                    SetPhase::Ask
                };
                (set, lines)
            }
        }
    }

    fn after_begin(self, result: Result<(), String>) -> (r: (LanSet, Vec<String>))
        requires
            self@.wf(),
            self@.phase is Begin,
        ensures
            (Setting { set: r.0@, lines: texts(r.1@) }) == self@.after_begin(outcome_view(result)),
            r.0@.wf(),
    {
        let mut set = self;
        let mut lines = no_lines();
        match result {
            Ok(_) => {
                set.begun = true;
            }
            Err(e) => {
                let mut line = concat3(
                    "  ",
                    yellow("note:", set.color).as_str(),
                    " transaction marker unavailable: ",
                );
                line.append(e.as_str());
                push_text(&mut lines, line);
                proof {
                    assert(texts(lines@) =~= seq![line@]);
                }
            }
        }
        set.writing(0).saying(lines)
    }

    fn after_write(self, k: usize, result: Result<(), String>) -> (r: (LanSet, Vec<String>))
        requires
            self@.wf(),
            self@.phase == SetPhaseView::Write(k as int),
        ensures
            (Setting { set: r.0@, lines: texts(r.1@) }) == self@.after_write(
                k as int,
                outcome_view(result),
            ),
            r.0@.wf(),
    {
        let mut set = self;
        let description = set.changes[k].description.clone();
        let mut lines = no_lines();
        match result {
            Ok(_) => {
                let mut line = concat3("  ", green("set", set.color).as_str(), " ");
                line.append(description.as_str());
                push_text(&mut lines, line);
                set.applied.push(k);
                proof {
                    assert(texts(lines@) =~= seq![line@]);
                    assert(set@.applied =~= self@.applied.push(k as int));
                }
            }
            Err(e) => {
                let mut line = concat3("  ", red("fail", set.color).as_str(), " ");
                line.append(description.as_str());
                line.append(": ");
                line.append(e.as_str());
                push_text(&mut lines, line);
                push_text(&mut set.failures, description);
                proof {
                    assert(texts(lines@) =~= seq![line@]);
                }
            }
        }
        set.writing(k + 1).saying(lines)
    }

    fn after_release(self, result: Result<(), String>) -> (r: (LanSet, Vec<String>))
        requires
            self@.wf(),
            self@.phase is Release,
        ensures
            (Setting { set: r.0@, lines: texts(r.1@) }) == self@.after_release(
                outcome_view(result),
            ),
            r.0@.wf(),
    {
        let mut set = self;
        if let Err(e) = result {
            push_text(
                &mut set.failures,
                concat2("could not release Set In Progress: ", e.as_str()),
            );
        }
        set.verifying(0).saying(no_lines())
    }

    fn after_verify(self, j: usize, reply: Result<Vec<u8>, String>) -> (r: (LanSet, Vec<String>))
        requires
            self@.wf(),
            self@.phase == SetPhaseView::Verify(j as int),
        ensures
            (Setting { set: r.0@, lines: texts(r.1@) }) == self@.after_verify(
                j as int,
                data_view(reply),
            ),
            r.0@.wf(),
    {
        let mut set = self;
        let mut lines = no_lines();
        let k: usize = set.applied[j];
        proof {
            assert(self@.applied[j as int] == k);
        }
        let change = &set.changes[k];
        match reply {
            Ok(actual) => {
                if starts_with(&actual, &change.data) {
                    let mut line = concat3("  ", green("verified", set.color).as_str(), " ");
                    line.append(change.description.as_str());
                    push_text(&mut lines, line);
                    proof {
                        assert(texts(lines@) =~= seq![line@]);
                    }
                } else {
                    let mut e = concat3(
                        "verification mismatch for ",
                        change.description.as_str(),
                        ": expected ",
                    );
                    e.append(hex_dump_text(change.data.as_slice()).as_str());
                    e.append(", got ");
                    e.append(hex_dump_text(actual.as_slice()).as_str());
                    push_text(&mut set.failures, e);
                }
            }
            Err(_) => {
                let e = concat2("could not verify ", change.description.as_str());
                push_text(&mut set.failures, e);
            }
        }
        set.verifying(j + 1).saying(lines)
    }

    /// Advances the command with an event, and says what is printed.
    pub fn advance(self, event: Event) -> (r: (LanSet, Vec<String>))
        requires
            self@.wf(),
        ensures
            (Setting { set: r.0@, lines: texts(r.1@) }) == self@.next(event@),
            r.0@.wf(),
    {
        match (&self.phase, event) {
            (SetPhase::Info, Event::ChannelInfo(info)) => self.after_info(info),
            (SetPhase::Ask, Event::Answer(yes)) => {
                let mut set = self;
                let mut lines = no_lines();
                if yes {
                    set.phase = SetPhase::Begin;
                } else {
                    push_text(&mut lines, "Aborted.".to_owned());
                    set.phase = SetPhase::Finished;
                }
                proof {
                    assert(texts(lines@) =~= self@.next(event@).lines);
                }
                (set, lines)
            }
            (SetPhase::Begin, Event::LanWritten(result)) => self.after_begin(result),
            (SetPhase::Write(k), Event::LanWritten(result)) => {
                let k: usize = *k;
                self.after_write(k, result)
            }
            (SetPhase::Commit, Event::LanWritten(_)) => {
                let mut set = self;
                set.phase = SetPhase::Release;
                (set, no_lines())
            }
            (SetPhase::Release, Event::LanWritten(result)) => self.after_release(result),
            (SetPhase::Verify(j), Event::LanParameter(reply)) => {
                let j: usize = *j;
                self.after_verify(j, reply)
            }
            _ => (self, no_lines()),
        }
    }
}

} // verus!
