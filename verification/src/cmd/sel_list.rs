//! `sel list` — listing the log and following it.

use std::collections::HashSet;

use vstd::prelude::*;

use crate::cli::SelArgs;
use crate::clock::time_of;
use crate::cmd::fujitsu::{is_fujitsu, is_fujitsu_manufacturer, DecodedView};
use crate::cmd::sel::{
    decoded_map, entry_id, names_of, option_text, parse_time, print_entries, sensor_names,
    OemDecodedEntries, RenderContext, RenderView, SensorNames,
};
use crate::cmd::sel_walk::{OemDecode, OemDecodeView, SelScan, SelScanView, WalkPhaseView};
use crate::conn::{concat2, ScanPhaseView, ScanView, SdrScan};
use crate::dialog::{no_lines, Action, ActionView, DeviceId, Event, EventView, SelInfo};
use crate::event::{entry_views, Entry, EntryView};
use crate::text::{push_text, texts, Chars};
use crate::ui::{dim, dimmed, indent, indented};

verus! {

/// How long to wait between two looks at the log, in seconds.
pub const FOLLOW_INTERVAL: u64 = 2;

/// What is fixed once it is known: the arguments, the names of the sensors, and
/// what the controller's manufacturer implies.
pub struct ListSetup {
    args: SelArgs,
    color: bool,
    since: Option<i64>,
    until: Option<i64>,
    names: SensorNames,
    manufacturer_id: Option<u32>,
    decode: bool,
}

/// The setup, with names as a map.
pub ghost struct SetupView {
    pub args: SelArgs,
    pub color: bool,
    pub since: Option<i64>,
    pub until: Option<i64>,
    pub names: Map<(u8, u8), Chars>,
    pub manufacturer_id: Option<u32>,
    pub decode: bool,
}

impl View for ListSetup {
    type V = SetupView;

    closed spec fn view(&self) -> SetupView {
        SetupView {
            args: self.args,
            color: self.color,
            since: self.since,
            until: self.until,
            names: self.names@,
            manufacturer_id: self.manufacturer_id,
            decode: self.decode,
        }
    }
}

impl SetupView {
    /// How entries are shown, given the firmware's translations.
    pub open spec fn render(self, decoded: Map<u16, DecodedView>) -> RenderView {
        RenderView {
            decoded,
            manufacturer_id: self.manufacturer_id,
            raw: self.args.raw,
            sensor: option_text(self.args.sensor),
            severity: self.args.severity,
            limit: self.args.limit,
            names: self.names,
            since: self.since,
            until: self.until,
            color: self.color,
        }
    }
}

impl ListSetup {
    fn listing(
        &self,
        entries: Vec<Entry>,
        decoded: &OemDecodedEntries,
        totals: Option<(u16, bool)>,
    ) -> (lines: Vec<String>)
        ensures
            texts(lines@) == self@.render(decoded_map(decoded@)).listing(
                entry_views(entries@),
                totals,
            ),
    {
        let render = RenderContext {
            decoded,
            manufacturer_id: self.manufacturer_id,
            args: &self.args,
            names: &self.names,
            since: self.since,
            until: self.until,
            color: self.color,
        };
        print_entries(entries, &render, totals)
    }
}

/// What a time argument stands for: nothing when it is absent.
pub open spec fn time_argument(arg: Option<String>) -> Option<int> {
    match arg {
        Some(text) => time_of(text@),
        None => None,
    }
}

/// Whether a time argument is absent or stands for a time.
pub open spec fn time_is_valid(arg: Option<String>) -> bool {
    arg is Some ==> time_of(arg->0@) is Some
}

/// Why the arguments are rejected, if they are: a time that cannot be read, or
/// a range that ends before it starts.
pub open spec fn argument_error(args: SelArgs) -> Option<Chars> {
    if !time_is_valid(args.since) {
        Some(bad_time(args.since->0@))
    } else if !time_is_valid(args.until) {
        Some(bad_time(args.until->0@))
    } else if args.since is Some && args.until is Some && time_argument(args.since)->0
        > time_argument(args.until)->0 {
        Some("--since must not be later than --until"@)
    } else {
        None
    }
}

pub open spec fn bad_time(value: Chars) -> Chars {
    "invalid time '"@ + value + "'; use RFC 3339 or a Unix timestamp"@
}

/// The IDs of entries.
pub open spec fn ids_of(entries: Seq<EntryView>) -> Seq<u16> {
    Seq::new(entries.len(), |i: int| entries[i].id())
}

/// What is known once entries were looked at: their IDs too.
pub open spec fn learnt(known: Set<u16>, entries: Seq<EntryView>) -> Set<u16> {
    known.union(ids_of(entries).to_set())
}

/// The entries whose IDs are neither known nor those of an earlier entry.
pub open spec fn fresh(known: Set<u16>, entries: Seq<EntryView>) -> Seq<EntryView>
    decreases entries.len(),
{
    if entries.len() == 0 {
        seq![]
    } else {
        let before = fresh(known, entries.drop_last());
        if learnt(known, entries.drop_last()).contains(entries.last().id()) {
            before
        } else {
            before.push(entries.last())
        }
    }
}

proof fn lemma_learnt(known: Set<u16>, entries: Seq<EntryView>, i: int)
    requires
        0 <= i < entries.len(),
    ensures
        learnt(known, entries.take(0)) == known,
        entries.take(i + 1).drop_last() == entries.take(i),
        learnt(known, entries.take(i + 1)) == learnt(known, entries.take(i)).insert(
            entries[i].id(),
        ),
{
    let shorter = ids_of(entries.take(i));
    let longer = ids_of(entries.take(i + 1));
    assert(entries.take(i + 1).drop_last() =~= entries.take(i));
    assert(longer =~= shorter.push(entries[i].id()));
    assert forall|x: u16| longer.contains(x) == (shorter.contains(x) || x == entries[i].id()) by {
        if shorter.contains(x) {
            let k = choose|k: int| 0 <= k < shorter.len() && shorter[k] == x;
            assert(longer[k] == x);
        }
        assert(longer[i] == entries[i].id());
    }
    assert(learnt(known, entries.take(0)) =~= known);
    assert(learnt(known, entries.take(i + 1)) =~= learnt(known, entries.take(i)).insert(
        entries[i].id(),
    ));
}

/// Splits off the entries whose IDs are not known yet, and learns their IDs.
fn take_fresh(known: HashSet<u16>, entries: Vec<Entry>) -> (r: (HashSet<u16>, Vec<Entry>))
    ensures
        entry_views(r.1@) == fresh(known@, entry_views(entries@)),
        r.0@ == learnt(known@, entry_views(entries@)),
{
    let ghost start = known@;
    let ghost views = entry_views(entries@);
    let mut known = known;
    let mut kept: Vec<Entry> = Vec::new();
    proof {
        assert(views.take(0) =~= seq![]);
        assert(entry_views(kept@) =~= seq![]);
        assert(learnt(start, views.take(0)) =~= start);
    }
    for entry in it: entries
        invariant
            views == entry_views(it.seq()),
            entry_views(kept@) == fresh(start, views.take(it.index() as int)),
            known@ == learnt(start, views.take(it.index() as int)),
    {
        let ghost i = it.index() as int;
        proof {
            lemma_learnt(start, views, i);
            assert(views.take(i + 1).last() == entry@);
            assert(views[i] == entry@);
        }
        if known.insert(entry_id(&entry)) {
            let ghost before = kept@;
            kept.push(entry);
            proof {
                assert(entry_views(kept@) =~= entry_views(before).push(entry@));
            }
        }
    }
    proof {
        assert(views.take(views.len() as int) =~= views);
    }
    (known, kept)
}

/// Collects the IDs of entries.
fn known_ids(entries: &Vec<Entry>) -> (known: HashSet<u16>)
    ensures
        known@ == ids_of(entry_views(entries@)).to_set(),
{
    let ghost views = entry_views(entries@);
    let ghost none = Set::<u16>::empty();
    let mut known: HashSet<u16> = HashSet::new();
    let mut i: usize = 0;
    proof {
        assert(learnt(none, views.take(0)) =~= none);
    }
    while i < entries.len()
        invariant
            i <= entries.len(),
            views == entry_views(entries@),
            known@ == learnt(none, views.take(i as int)),
        decreases entries.len() - i,
    {
        proof {
            lemma_learnt(none, views, i as int);
        }
        known.insert(entry_id(&entries[i]));
        i = i + 1;
    }
    proof {
        assert(views.take(views.len() as int) =~= views);
        assert(learnt(none, views) =~= ids_of(views).to_set());
    }
    known
}

enum ListPhase {
    Names(SdrScan),
    Info,
    Entries(SelScan),
    Device,
    Decode(OemDecode),
    Pause,
    FollowInfo,
    FollowEntries(SelScan),
    FollowDecode(OemDecode),
    Finished,
    Failed(String),
    Undecodable,
}

/// Lists the log, and with `--follow` goes on listing what is added.
pub struct SelList {
    setup: ListSetup,
    totals: (u16, bool),
    known: HashSet<u16>,
    entries: Vec<Entry>,
    phase: ListPhase,
}

/// What the listing is waiting for.
pub ghost enum ListPhaseView {
    /// The sensor data records, for the sensors' names.
    Names(ScanView),
    /// The totals of the log.
    Info,
    /// The entries of the log.
    Entries(SelScanView),
    /// The identity of the controller.
    Device,
    /// The firmware's translations of the entries.
    Decode(OemDecodeView),
    /// The next look at the log.
    Pause,
    FollowInfo,
    FollowEntries(SelScanView),
    FollowDecode(OemDecodeView),
    Finished,
    Failed(Chars),
    Undecodable,
}

/// How far the listing has come: the entries that wait to be shown, and the IDs
/// of those that were.
pub ghost struct ListView {
    pub setup: SetupView,
    pub totals: (u16, bool),
    pub known: Set<u16>,
    pub entries: Seq<EntryView>,
    pub phase: ListPhaseView,
}

impl View for SelList {
    type V = ListView;

    closed spec fn view(&self) -> ListView {
        ListView {
            setup: self.setup@,
            totals: self.totals,
            known: self.known@,
            entries: entry_views(self.entries@),
            phase: match self.phase {
                ListPhase::Names(scan) => ListPhaseView::Names(scan@),
                ListPhase::Info => ListPhaseView::Info,
                ListPhase::Entries(scan) => ListPhaseView::Entries(scan@),
                ListPhase::Device => ListPhaseView::Device,
                ListPhase::Decode(d) => ListPhaseView::Decode(d@),
                ListPhase::Pause => ListPhaseView::Pause,
                ListPhase::FollowInfo => ListPhaseView::FollowInfo,
                ListPhase::FollowEntries(scan) => ListPhaseView::FollowEntries(scan@),
                ListPhase::FollowDecode(d) => ListPhaseView::FollowDecode(d@),
                ListPhase::Finished => ListPhaseView::Finished,
                ListPhase::Failed(e) => ListPhaseView::Failed(e@),
                ListPhase::Undecodable => ListPhaseView::Undecodable,
            },
        }
    }
}

/// A state and the lines that are printed on the way to it.
pub ghost struct Listed {
    pub list: ListView,
    pub lines: Seq<Chars>,
}

impl ListView {
    pub open spec fn start(args: SelArgs, color: bool) -> ListView {
        ListView {
            setup: SetupView {
                args,
                color,
                since: match time_argument(args.since) {
                    Some(t) => Some(t as i64),
                    None => None,
                },
                until: match time_argument(args.until) {
                    Some(t) => Some(t as i64),
                    None => None,
                },
                names: Map::empty(),
                manufacturer_id: None,
                decode: false,
            },
            totals: (0, false),
            known: Set::empty(),
            entries: seq![],
            phase: ListPhaseView::Names(ScanView::start()),
        }
    }

    pub open spec fn at(self, phase: ListPhaseView) -> ListView {
        ListView { phase, ..self }
    }

    /// Goes to a phase without printing anything.
    pub open spec fn silently(self, phase: ListPhaseView) -> Listed {
        Listed { list: self.at(phase), lines: seq![] }
    }

    /// The sensors' names are known, or the repository cannot be read.
    pub open spec fn after_names(self, scan: ScanView) -> Listed {
        match scan.phase {
            ScanPhaseView::Complete => ListView {
                setup: SetupView { names: names_of(scan.records), ..self.setup },
                ..self
            }.silently(ListPhaseView::Info),
            ScanPhaseView::Failed(e) => self.silently(ListPhaseView::Failed(e)),
            ScanPhaseView::Undecodable => self.silently(ListPhaseView::Undecodable),
            _ => self.silently(ListPhaseView::Names(scan)),
        }
    }

    /// The totals are known. An empty log is not read.
    pub open spec fn after_info(self, info: Result<SelInfo, Chars>) -> Listed {
        match info {
            Err(e) => self.silently(ListPhaseView::Failed("Get SEL Info failed: "@ + e)),
            Ok(info) => ListView { totals: (info.entries, info.overflow), ..self }.silently(
                if info.entries == 0 {
                    ListPhaseView::Device
                } else {
                    ListPhaseView::Entries(SelScanView::start())
                },
            ),
        }
    }

    /// The entries are known, or cannot be read.
    pub open spec fn after_entries(self, scan: SelScanView) -> Listed {
        match scan.phase {
            WalkPhaseView::Complete => ListView { entries: scan.entries, ..self }.silently(
                ListPhaseView::Device,
            ),
            WalkPhaseView::Failed(e) => self.silently(ListPhaseView::Failed(e)),
            WalkPhaseView::Waiting => self.silently(ListPhaseView::Entries(scan)),
        }
    }

    /// The controller's identity is known, or not: without it nothing is
    /// translated. A Fujitsu controller translates OEM entries unless the user
    /// opted out.
    pub open spec fn after_device(self, device: Result<DeviceId, Chars>) -> Listed {
        let id = match device {
            Ok(device) => Some(device.manufacturer_id),
            Err(_) => None,
        };
        let decode = !self.setup.args.no_oem_decode && id is Some && is_fujitsu(id->0);
        ListView {
            setup: SetupView { manufacturer_id: id, decode, ..self.setup },
            ..self
        }.after_decode(OemDecodeView::start(self.entries, decode))
    }

    /// Once the translations are complete the log is listed; with `--follow`
    /// the listing goes on.
    pub open spec fn after_decode(self, d: OemDecodeView) -> Listed {
        if !d.is_over() {
            self.silently(ListPhaseView::Decode(d))
        } else {
            let lines = self.setup.render(d.decoded).listing(self.entries, Some(self.totals));
            let shown = ListView {
                known: ids_of(self.entries).to_set(),
                entries: seq![],
                ..self
            };
            if self.setup.args.follow {
                Listed {
                    list: shown.at(ListPhaseView::Pause),
                    lines: lines.push(
                        indented(dimmed("following SEL; press Ctrl-C to stop"@, self.setup.color)),
                    ),
                }
            } else {
                Listed { list: shown.at(ListPhaseView::Finished), lines }
            }
        }
    }

    pub open spec fn after_follow_info(self, info: Result<SelInfo, Chars>) -> Listed {
        match info {
            Err(e) => self.silently(
                ListPhaseView::Failed("Get SEL Info failed while following: "@ + e),
            ),
            Ok(info) => if info.entries == 0 {
                self.with_current(seq![])
            } else {
                self.silently(ListPhaseView::FollowEntries(SelScanView::start()))
            },
        }
    }

    pub open spec fn after_follow_entries(self, scan: SelScanView) -> Listed {
        match scan.phase {
            WalkPhaseView::Complete => self.with_current(scan.entries),
            WalkPhaseView::Failed(e) => self.silently(ListPhaseView::Failed(e)),
            WalkPhaseView::Waiting => self.silently(ListPhaseView::FollowEntries(scan)),
        }
    }

    /// The log was read again. A log that became shorter was cleared, and
    /// everything in it is new.
    pub open spec fn with_current(self, current: Seq<EntryView>) -> Listed {
        let known = if current.len() < self.known.len() {
            Set::empty()
        } else {
            self.known
        };
        let new = fresh(known, current);
        let list = ListView { known: learnt(known, current), entries: new, ..self };
        if new.len() == 0 {
            list.silently(ListPhaseView::Pause)
        } else {
            list.after_follow_decode(OemDecodeView::start(new, self.setup.decode))
        }
    }

    pub open spec fn after_follow_decode(self, d: OemDecodeView) -> Listed {
        if !d.is_over() {
            self.silently(ListPhaseView::FollowDecode(d))
        } else {
            Listed {
                list: ListView { entries: seq![], ..self }.at(ListPhaseView::Pause),
                lines: self.setup.render(d.decoded).listing(self.entries, None),
            }
        }
    }

    /// The listing after an event, and what is printed. An event that does not
    /// answer the current action changes nothing.
    pub open spec fn next(self, event: EventView) -> Listed {
        match (self.phase, event) {
            (ListPhaseView::Names(scan), EventView::Reply(r)) => self.after_names(scan.next(r)),
            (ListPhaseView::Info, EventView::SelInfo(r)) => self.after_info(r),
            (ListPhaseView::Entries(scan), EventView::Reply(r)) => self.after_entries(
                scan.next(r),
            ),
            (ListPhaseView::Device, EventView::DeviceId(r)) => self.after_device(r),
            (ListPhaseView::Decode(d), EventView::Reply(r)) => self.after_decode(d.next(r)),
            (ListPhaseView::Pause, EventView::Elapsed) => self.silently(ListPhaseView::FollowInfo),
            (ListPhaseView::FollowInfo, EventView::SelInfo(r)) => self.after_follow_info(r),
            (ListPhaseView::FollowEntries(scan), EventView::Reply(r)) => self.after_follow_entries(
                scan.next(r),
            ),
            (ListPhaseView::FollowDecode(d), EventView::Reply(r)) => self.after_follow_decode(
                d.next(r),
            ),
            _ => self.silently(self.phase),
        }
    }

    /// The action whose event the listing is waiting for.
    pub open spec fn action(self) -> ActionView {
        match self.phase {
            ListPhaseView::Names(scan) => ActionView::Send(scan.request()->0),
            ListPhaseView::Info => ActionView::GetSelInfo,
            ListPhaseView::Entries(scan) => ActionView::Send(scan.request()->0),
            ListPhaseView::Device => ActionView::GetDeviceId,
            ListPhaseView::Decode(d) => ActionView::Send(d.fetch.request()->0),
            ListPhaseView::Pause => ActionView::Pause { seconds: FOLLOW_INTERVAL, millis: 0 },
            ListPhaseView::FollowInfo => ActionView::GetSelInfo,
            ListPhaseView::FollowEntries(scan) => ActionView::Send(scan.request()->0),
            ListPhaseView::FollowDecode(d) => ActionView::Send(d.fetch.request()->0),
            ListPhaseView::Finished => ActionView::Finish(Ok(())),
            ListPhaseView::Failed(e) => ActionView::Finish(Err(e)),
            ListPhaseView::Undecodable => ActionView::Abort,
        }
    }

    /// Whether no translation is asked for, now or while following.
    pub open spec fn is_local(self) -> bool {
        !self.setup.decode && !(self.phase is Decode) && !(self.phase is FollowDecode)
    }

    /// What holds of every listing: the walks are well formed and not over.
    pub open spec fn wf(self) -> bool {
        &&& self.known.finite()
        &&& match self.phase {
            ListPhaseView::Names(scan) => scan.wf() && scan.is_waiting(),
            ListPhaseView::Entries(scan) => scan.wf() && scan.phase is Waiting,
            ListPhaseView::Decode(d) => d.wf() && !d.is_over(),
            ListPhaseView::FollowEntries(scan) => scan.wf() && scan.phase is Waiting,
            ListPhaseView::FollowDecode(d) => d.wf() && !d.is_over(),
            _ => true,
        }
    }
}

/// Following shows every entry once: an entry that is listed as new has an ID
/// that was not known, no two of them have the same ID, every ID that was not
/// known is listed, and afterwards every ID in the log is known.
pub proof fn law_new_entries_are_new(known: Set<u16>, entries: Seq<EntryView>)
    ensures
        ids_of(fresh(known, entries)).no_duplicates(),
        forall|id: u16| #[trigger]
            ids_of(fresh(known, entries)).contains(id) <==> ids_of(entries).contains(id)
                && !known.contains(id),
        forall|i: int|
            0 <= i < entries.len() ==> learnt(known, entries).contains((#[trigger] entries[i]).id()),
    decreases entries.len(),
{
    let new = ids_of(fresh(known, entries));
    if entries.len() > 0 {
        let shorter = entries.drop_last();
        let id = entries.last().id();
        let before = ids_of(fresh(known, shorter));
        law_new_entries_are_new(known, shorter);
        assert(ids_of(entries) =~= ids_of(shorter).push(id));
        let all = ids_of(entries);
        assert forall|x: u16| all.contains(x) == (ids_of(shorter).contains(x) || x == id) by {
            if ids_of(shorter).contains(x) {
                let k = choose|k: int| 0 <= k < ids_of(shorter).len() && ids_of(shorter)[k] == x;
                assert(all[k] == x);
            }
            assert(all[all.len() - 1] == id);
        }
        if learnt(known, shorter).contains(id) {
            assert(new == before);
        } else {
            assert(new =~= before.push(id));
            assert(!before.contains(id));
            assert forall|x: u16| new.contains(x) == (before.contains(x) || x == id) by {
                if before.contains(x) {
                    let k = choose|k: int| 0 <= k < before.len() && before[k] == x;
                    assert(new[k] == x);
                }
                assert(new[new.len() - 1] == id);
            }
        }
    } else {
        assert(new =~= seq![]);
        assert(ids_of(entries) =~= seq![]);
    }
    assert forall|i: int| 0 <= i < entries.len() implies learnt(known, entries).contains(
        (#[trigger] entries[i]).id(),
    ) by {
        assert(ids_of(entries)[i] == entries[i].id());
    }
}

/// With `--no-oem-decode` the firmware is never asked for a translation: a
/// listing starts without one and goes on without one, whatever happens.
pub proof fn law_opting_out_stays_local(
    args: SelArgs,
    color: bool,
    s: ListView,
    event: EventView,
)
    requires
        s.is_local(),
        s.setup.args.no_oem_decode,
    ensures
        ListView::start(args, color).is_local(),
        s.next(event).list.is_local(),
        s.next(event).list.setup.args == s.setup.args,
{
}

impl SelList {
    /// Begins the listing, or says why the arguments are rejected.
    pub fn new(args: SelArgs, color: bool) -> (r: Result<SelList, String>)
        ensures
            match r {
                Ok(list) => argument_error(args) is None && list@ == ListView::start(args, color)
                    && list@.wf(),
                Err(e) => argument_error(args) == Some(e@),
            },
    {
        let since: Option<i64> = match &args.since {
            None => None,
            Some(text) => match parse_time(text.as_str()) {
                Ok(t) => Some(t),
                Err(e) => {
                    return Err(e);
                }
            },
        };
        let until: Option<i64> = match &args.until {
            None => None,
            Some(text) => match parse_time(text.as_str()) {
                Ok(t) => Some(t),
                Err(e) => {
                    return Err(e);
                }
            },
        };
        if let (Some(start), Some(end)) = (since, until) {
            if start > end {
                return Err("--since must not be later than --until".to_owned());
            }
        }
        let scan = SdrScan::new();
        proof {
            assert(ScanView::start().is_waiting());
        }
        let list = SelList {
            setup: ListSetup {
                args,
                color,
                since,
                until,
                names: SensorNames::new(),
                manufacturer_id: None,
                decode: false,
            },
            totals: (0, false),
            known: HashSet::new(),
            entries: Vec::new(),
            phase: ListPhase::Names(scan),
        };
        proof {
            assert(list@.entries =~= seq![]);
        }
        Ok(list)
    }

    /// The action whose event the listing is waiting for.
    pub fn action(&self) -> (a: Action)
        requires
            self@.wf(),
        ensures
            a@ == self@.action(),
    {
        match &self.phase {
            ListPhase::Names(scan) => match scan.request() {
                Some(request) => Action::Send(request),
                None => Action::Abort,
            },
            ListPhase::Info => Action::GetSelInfo,
            ListPhase::Entries(scan) => match scan.request() {
                Some(request) => Action::Send(request),
                None => Action::Abort,
            },
            ListPhase::Device => Action::GetDeviceId,
            ListPhase::Decode(d) => match d.request() {
                Some(request) => Action::Send(request),
                None => Action::Abort,
            },
            ListPhase::Pause => Action::Pause { seconds: FOLLOW_INTERVAL, millis: 0 },
            ListPhase::FollowInfo => Action::GetSelInfo,
            ListPhase::FollowEntries(scan) => match scan.request() {
                Some(request) => Action::Send(request),
                None => Action::Abort,
            },
            ListPhase::FollowDecode(d) => match d.request() {
                Some(request) => Action::Send(request),
                None => Action::Abort,
            },
            ListPhase::Finished => Action::Finish(Ok(())),
            ListPhase::Failed(e) => Action::Finish(Err(e.clone())),
            ListPhase::Undecodable => Action::Abort,
        }
    }

    fn after_names(self, scan: SdrScan) -> (r: (SelList, Vec<String>))
        requires
            self@.wf(),
            scan@.wf(),
        ensures
            (Listed { list: r.0@, lines: texts(r.1@) }) == self@.after_names(scan@),
            r.0@.wf(),
    {
        let mut list = self;
        if let Some(e) = scan.error() {
            list.phase = ListPhase::Failed(e);
        } else if scan.is_undecodable() {
            list.phase = ListPhase::Undecodable;
        } else if scan.request().is_some() {
            list.phase = ListPhase::Names(scan);
        } else {
            let records = scan.into_records();
            list.setup.names = sensor_names(&records);
            list.phase = ListPhase::Info;
        }
        (list, no_lines())
    }

    fn after_info(self, info: Result<SelInfo, String>) -> (r: (SelList, Vec<String>))
        requires
            self@.wf(),
        ensures
            (Listed { list: r.0@, lines: texts(r.1@) }) == self@.after_info(
                crate::dialog::outcome_view(info),
            ),
            r.0@.wf(),
    {
        let mut list = self;
        match info {
            Err(e) => {
                list.phase = ListPhase::Failed(concat2("Get SEL Info failed: ", e.as_str()));
            }
            Ok(info) => {
                list.totals = (info.entries, info.overflow);
                list.phase = if info.entries == 0 {
                    ListPhase::Device
                } else {
                    ListPhase::Entries(SelScan::new())
                };
            }
        }
        (list, no_lines())
    }

    fn after_entries(self, scan: SelScan) -> (r: (SelList, Vec<String>))
        requires
            self@.wf(),
            scan@.wf(),
        ensures
            (Listed { list: r.0@, lines: texts(r.1@) }) == self@.after_entries(scan@),
            r.0@.wf(),
    {
        let mut list = self;
        if let Some(e) = scan.error() {
            list.phase = ListPhase::Failed(e);
        } else if scan.request().is_some() {
            list.phase = ListPhase::Entries(scan);
        } else {
            list.entries = scan.into_entries();
            list.phase = ListPhase::Device;
        }
        (list, no_lines())
    }

    fn after_device(self, device: Result<DeviceId, String>) -> (r: (SelList, Vec<String>))
        requires
            self@.wf(),
        ensures
            (Listed { list: r.0@, lines: texts(r.1@) }) == self@.after_device(
                crate::dialog::outcome_view(device),
            ),
            r.0@.wf(),
    {
        let mut list = self;
        let id: Option<u32> = match device {
            Ok(device) => Some(device.manufacturer_id),
            Err(_) => None,
        };
        let fujitsu = match id {
            Some(id) => is_fujitsu_manufacturer(id),
            None => false,
        };
        let decode = !list.setup.args.no_oem_decode && fujitsu;
        list.setup.manufacturer_id = id;
        list.setup.decode = decode;
        let d = OemDecode::new(&list.entries, decode);
        list.phase = ListPhase::Device;
        list.after_decode(d)
    }

    fn after_decode(self, d: OemDecode) -> (r: (SelList, Vec<String>))
        requires
            self@.wf(),
            d@.wf(),
        ensures
            (Listed { list: r.0@, lines: texts(r.1@) }) == self@.after_decode(d@),
            r.0@.wf(),
    {
        let mut list = self;
        if d.request().is_some() {
            list.phase = ListPhase::Decode(d);
            return (list, no_lines());
        }
        let decoded = d.into_decoded();
        let SelList { setup, totals, known: _, entries, phase: _ } = list;
        let known = known_ids(&entries);
        let mut lines = setup.listing(entries, &decoded, Some(totals));
        let follow = setup.args.follow;
        if follow {
            push_text(
                &mut lines,
                indent(dim("following SEL; press Ctrl-C to stop", setup.color).as_str()),
            );
        }
        let list = SelList {
            setup,
            totals,
            known,
            entries: Vec::new(),
            phase: if follow {
                ListPhase::Pause
            } else {
                ListPhase::Finished
            },
        };
        proof {
            assert(list@.entries =~= seq![]);
        }
        (list, lines)
    }

    fn with_current(self, current: Vec<Entry>) -> (r: (SelList, Vec<String>))
        requires
            self@.wf(),
        ensures
            (Listed { list: r.0@, lines: texts(r.1@) }) == self@.with_current(
                entry_views(current@),
            ),
            r.0@.wf(),
    {
        let SelList { setup, totals, known, entries: _, phase: _ } = self;
        let known: HashSet<u16> = if current.len() < known.len() {
            HashSet::new()
        } else {
            known
        };
        let (known, new) = take_fresh(known, current);
        let none_new = new.len() == 0;
        let d = OemDecode::new(&new, setup.decode);
        let list = SelList { setup, totals, known, entries: new, phase: ListPhase::Pause };
        proof {
            let v = entry_views(current@);
            let k = if v.len() < self@.known.len() {
                Set::empty()
            } else {
                self@.known
            };
            let next = ListView { known: learnt(k, v), entries: fresh(k, v), ..self@ };
            assert(list@ == next.at(ListPhaseView::Pause));
        }
        if none_new {
            (list, no_lines())
        } else {
            list.after_follow_decode(d)
        }
    }

    fn after_follow_decode(self, d: OemDecode) -> (r: (SelList, Vec<String>))
        requires
            self@.wf(),
            d@.wf(),
        ensures
            (Listed { list: r.0@, lines: texts(r.1@) }) == self@.after_follow_decode(d@),
            r.0@.wf(),
    {
        let mut list = self;
        if d.request().is_some() {
            list.phase = ListPhase::FollowDecode(d);
            return (list, no_lines());
        }
        let decoded = d.into_decoded();
        let SelList { setup, totals, known, entries, phase: _ } = list;
        let lines = setup.listing(entries, &decoded, None);
        let list = SelList { setup, totals, known, entries: Vec::new(), phase: ListPhase::Pause };
        proof {
            assert(list@.entries =~= seq![]);
        }
        (list, lines)
    }

    fn after_follow_info(self, info: Result<SelInfo, String>) -> (r: (SelList, Vec<String>))
        requires
            self@.wf(),
        ensures
            (Listed { list: r.0@, lines: texts(r.1@) }) == self@.after_follow_info(
                crate::dialog::outcome_view(info),
            ),
            r.0@.wf(),
    {
        match info {
            Err(e) => {
                let mut list = self;
                list.phase = ListPhase::Failed(
                    concat2("Get SEL Info failed while following: ", e.as_str()),
                );
                (list, no_lines())
            }
            Ok(info) => {
                if info.entries == 0 {
                    let none: Vec<Entry> = Vec::new();
                    proof {
                        assert(entry_views(none@) =~= seq![]);
                    }
                    self.with_current(none)
                } else {
                    let mut list = self;
                    list.phase = ListPhase::FollowEntries(SelScan::new());
                    (list, no_lines())
                }
            }
        }
    }

    fn after_follow_entries(self, scan: SelScan) -> (r: (SelList, Vec<String>))
        requires
            self@.wf(),
            scan@.wf(),
        ensures
            (Listed { list: r.0@, lines: texts(r.1@) }) == self@.after_follow_entries(scan@),
            r.0@.wf(),
    {
        let mut list = self;
        if let Some(e) = scan.error() {
            list.phase = ListPhase::Failed(e);
            (list, no_lines())
        } else if scan.request().is_some() {
            list.phase = ListPhase::FollowEntries(scan);
            (list, no_lines())
        } else {
            list.with_current(scan.into_entries())
        }
    }

    /// Advances the listing with an event, and says what is printed.
    pub fn advance(self, event: Event) -> (r: (SelList, Vec<String>))
        requires
            self@.wf(),
        ensures
            (Listed { list: r.0@, lines: texts(r.1@) }) == self@.next(event@),
            r.0@.wf(),
    {
        let SelList { setup, totals, known, entries, phase } = self;
        match (phase, event) {
            (ListPhase::Names(scan), Event::Reply(reply)) => {
                let list = SelList { setup, totals, known, entries, phase: ListPhase::Info };
                list.after_names(scan.advance(reply))
            }
            (ListPhase::Info, Event::SelInfo(info)) => {
                let list = SelList { setup, totals, known, entries, phase: ListPhase::Info };
                list.after_info(info)
            }
            (ListPhase::Entries(scan), Event::Reply(reply)) => {
                let list = SelList { setup, totals, known, entries, phase: ListPhase::Info };
                list.after_entries(scan.advance(reply))
            }
            (ListPhase::Device, Event::DeviceId(device)) => {
                let list = SelList { setup, totals, known, entries, phase: ListPhase::Info };
                list.after_device(device)
            }
            (ListPhase::Decode(d), Event::Reply(reply)) => {
                let list = SelList { setup, totals, known, entries, phase: ListPhase::Info };
                list.after_decode(d.advance(reply))
            }
            (ListPhase::Pause, Event::Elapsed) => {
                let list = SelList { setup, totals, known, entries, phase: ListPhase::FollowInfo };
                (list, no_lines())
            }
            (ListPhase::FollowInfo, Event::SelInfo(info)) => {
                let list = SelList { setup, totals, known, entries, phase: ListPhase::Info };
                list.after_follow_info(info)
            }
            (ListPhase::FollowEntries(scan), Event::Reply(reply)) => {
                let list = SelList { setup, totals, known, entries, phase: ListPhase::Info };
                list.after_follow_entries(scan.advance(reply))
            }
            (ListPhase::FollowDecode(d), Event::Reply(reply)) => {
                let list = SelList { setup, totals, known, entries, phase: ListPhase::Info };
                list.after_follow_decode(d.advance(reply))
            }
            (phase, _) => (SelList { setup, totals, known, entries, phase }, no_lines()),
        }
    }
}

} // verus!
