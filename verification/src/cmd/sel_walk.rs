//! `sel` — reading the log, and asking the firmware to translate OEM entries.

use std::collections::HashSet;

use vstd::prelude::*;

use crate::bytes::{
    high_byte, law_le16_round_trip, le16, low_byte, u16_high, u16_le, u16_low,
};
use crate::cmd::fujitsu::{DecodedView, LongText, LongTextView, TextPhaseView};
use crate::cmd::sel::{
    decoded_map, entry_id, should_decode_oem, wants_oem_decoding, OemDecodedEntries,
};
use crate::conn::{
    bmc_request, completion, completion_text, concat2, concat3, reply_view, request_to_bmc, Reply,
    Request, RequestView, ResponseView, NETFN_STORAGE,
};
use crate::event::{
    entry_of, entry_views, normalized_event_data, swap_event_data_selectors, swapped,
    wire_event_data, Entry, EntryView,
};
use crate::text::{dec, dec_text, hex, hex_text, Chars};

verus! {

pub const CMD_GET_SEL_ENTRY: u8 = 0x43;

// ---------------------------------------------------------------------
// Reading the log
// ---------------------------------------------------------------------

/// The data of a Get SEL Entry request for a whole record, without a
/// reservation.
pub open spec fn get_entry_data(record_id: u16) -> Seq<u8> {
    seq![0u8, 0, low_byte(record_id), high_byte(record_id), 0, 0xFF]
}

fn get_entry_request(record_id: u16) -> (r: Request)
    ensures
        r@ == bmc_request(NETFN_STORAGE, CMD_GET_SEL_ENTRY, get_entry_data(record_id)),
{
    let data = vec![0u8, 0, u16_low(record_id), u16_high(record_id), 0, 0xFF];
    proof {
        assert(data@ =~= get_entry_data(record_id));
    }
    request_to_bmc(NETFN_STORAGE, CMD_GET_SEL_ENTRY, data)
}

/// A record with its event data normalized, if it is a system event.
pub open spec fn normalized(raw: Seq<u8>) -> Seq<u8> {
    if raw[2] == 0x02 {
        raw.update(13, swapped(raw[13]))
    } else {
        raw
    }
}

/// What a record that came off the wire says, or why it cannot be decoded.
pub open spec fn entry_on_wire(raw: Seq<u8>) -> Result<EntryView, Chars> {
    entry_of(normalized(raw), normalized_event_data(normalized(raw).subrange(13, 16)))
}

/// IPMI 2.0 section 29.7 assigns bits 7:6 of the first event data byte to the
/// second byte and bits 5:4 to the third. Reading a system event follows it.
pub proof fn law_events_follow_the_wire_layout(raw: Seq<u8>)
    requires
        raw.len() == 16,
        raw[2] == 0x02,
    ensures
        entry_on_wire(raw) == entry_of(raw, wire_event_data(raw.subrange(13, 16))),
{
    let n = normalized(raw);
    crate::event::law_normalizing_keeps_meaning(raw[13], raw[14], raw[15]);
    assert(n.subrange(13, 16) =~= seq![swapped(raw[13]), raw[14], raw[15]]);
    assert(raw.subrange(13, 16) =~= seq![raw[13], raw[14], raw[15]]);
}

enum WalkPhase {
    Waiting,
    Complete,
    Failed(String),
}

/// Reads every entry of the log, following the next-record IDs and rejecting a
/// loop.
pub struct SelScan {
    entries: Vec<Entry>,
    seen: HashSet<u16>,
    record_id: u16,
    phase: WalkPhase,
}

/// What the walk is waiting for.
pub ghost enum WalkPhaseView {
    Waiting,
    Complete,
    Failed(Chars),
}

/// How far the walk has come: the entries read, the IDs followed, and the
/// record being read. ID 0 selects the first record.
pub ghost struct SelScanView {
    pub entries: Seq<EntryView>,
    pub seen: Set<u16>,
    pub record_id: u16,
    pub phase: WalkPhaseView,
}

impl View for SelScan {
    type V = SelScanView;

    closed spec fn view(&self) -> SelScanView {
        SelScanView {
            entries: entry_views(self.entries@),
            seen: self.seen@,
            record_id: self.record_id,
            phase: match self.phase {
                WalkPhase::Waiting => WalkPhaseView::Waiting,
                WalkPhase::Complete => WalkPhaseView::Complete,
                WalkPhase::Failed(e) => WalkPhaseView::Failed(e@),
            },
        }
    }
}

/// `Get SEL Entry 0x....` followed by what is said of it.
pub open spec fn of_entry(record_id: u16, tail: Chars) -> Chars {
    "Get SEL Entry 0x"@ + hex(record_id as nat, 4) + tail
}

fn of_entry_text(record_id: u16, tail: &str) -> (s: String)
    ensures
        s@ == of_entry(record_id, tail@),
{
    concat3("Get SEL Entry 0x", hex_text(record_id as u64, 4).as_str(), tail)
}

impl SelScanView {
    pub open spec fn start() -> SelScanView {
        SelScanView {
            entries: seq![],
            seen: Set::empty(),
            record_id: 0,
            phase: WalkPhaseView::Waiting,
        }
    }

    pub open spec fn failed(self, e: Chars) -> SelScanView {
        SelScanView { phase: WalkPhaseView::Failed(e), ..self }
    }

    /// The walk after an entry: over at ID 0xFFFF, failed at an ID that was
    /// followed before.
    pub open spec fn with_entry(self, entry: EntryView, next: u16) -> SelScanView {
        let read = SelScanView { entries: self.entries.push(entry), ..self };
        if next == 0xFFFF {
            SelScanView { phase: WalkPhaseView::Complete, ..read }
        } else if self.seen.contains(next) {
            read.failed("SEL pagination loop detected at record 0x"@ + hex(next as nat, 4))
        } else {
            SelScanView { seen: self.seen.insert(next), record_id: next, ..read }
        }
    }

    /// The walk after a reply. A walk that is over stays as it is.
    pub open spec fn next(self, reply: Result<ResponseView, Chars>) -> SelScanView {
        if !(self.phase is Waiting) {
            self
        } else {
            match reply {
                Err(e) => self.failed(of_entry(self.record_id, " failed: "@ + e)),
                Ok(response) => if response.cc != 0 {
                    self.failed(of_entry(self.record_id, ": "@ + completion(response.cc)))
                } else if response.data.len() < 18 {
                    self.failed(
                        of_entry(
                            self.record_id,
                            ": short response ("@ + dec(response.data.len()) + " bytes)"@,
                        ),
                    )
                } else {
                    match entry_on_wire(response.data.subrange(2, 18)) {
                        Err(e) => self.failed(of_entry(self.record_id, ": invalid record: "@ + e)),
                        Ok(entry) => self.with_entry(
                            entry,
                            le16(response.data[0], response.data[1]),
                        ),
                    }
                },
            }
        }
    }

    /// The request whose reply the walk is waiting for.
    pub open spec fn request(self) -> Option<RequestView> {
        if self.phase is Waiting {
            Some(bmc_request(NETFN_STORAGE, CMD_GET_SEL_ENTRY, get_entry_data(self.record_id)))
        } else {
            None
        }
    }

    /// What holds of every walk: while it goes on there is one entry for every ID
    /// followed, so no ID was followed twice.
    pub open spec fn wf(self) -> bool {
        &&& self.seen.finite()
        &&& !self.seen.contains(0xFFFFu16)
        &&& self.phase is Waiting ==> self.seen.len() == self.entries.len()
    }
}

impl SelScan {
    /// Begins the walk at the first record.
    pub fn new() -> (scan: SelScan)
        ensures
            scan@ == SelScanView::start(),
            scan@.wf(),
    {
        let scan = SelScan {
            entries: Vec::new(),
            seen: HashSet::new(),
            record_id: 0,
            phase: WalkPhase::Waiting,
        };
        proof {
            assert(scan@.entries =~= seq![]);
        }
        scan
    }

    /// The request whose reply the walk is waiting for; none once it is over.
    pub fn request(&self) -> (r: Option<Request>)
        ensures
            match r {
                Some(request) => self@.request() == Some(request@),
                None => self@.request() is None,
            },
    {
        match &self.phase {
            WalkPhase::Waiting => Some(get_entry_request(self.record_id)),
            _ => None,
        }
    }

    /// Why the walk failed, if it did.
    pub fn error(&self) -> (r: Option<String>)
        ensures
            match r {
                Some(e) => self@.phase == WalkPhaseView::Failed(e@),
                None => !(self@.phase is Failed),
            },
    {
        match &self.phase {
            WalkPhase::Failed(e) => Some(e.clone()),
            _ => None,
        }
    }

    /// The entries read so far.
    pub fn into_entries(self) -> (entries: Vec<Entry>)
        ensures
            entry_views(entries@) == self@.entries,
    {
        self.entries
    }

    fn fail(self, tail: &str) -> (scan: SelScan)
        requires
            self@.wf(),
        ensures
            scan@ == self@.failed(of_entry(self@.record_id, tail@)),
            scan@.wf(),
    {
        let mut scan = self;
        scan.phase = WalkPhase::Failed(of_entry_text(scan.record_id, tail));
        scan
    }

    /// Advances the walk with the reply to its request.
    pub fn advance(self, reply: Reply) -> (scan: SelScan)
        requires
            self@.wf(),
        ensures
            scan@ == self@.next(reply_view(reply)),
            scan@.wf(),
    {
        if !matches!(&self.phase, WalkPhase::Waiting) {
            return self;
        }
        let response = match reply {
            Err(e) => {
                return self.fail(concat2(" failed: ", e.as_str()).as_str());
            }
            Ok(response) => response,
        };
        if response.cc != 0 {
            return self.fail(concat2(": ", completion_text(response.cc).as_str()).as_str());
        }
        if response.data.len() < 18 {
            let text = concat3(
                ": short response (",
                dec_text(response.data.len() as u64).as_str(),
                " bytes)",
            );
            return self.fail(text.as_str());
        }
        let data = &response.data;
        let next: u16 = u16_le(data[0], data[1]);
        let first: u8 = if data[4] == 0x02 {
            swap_event_data_selectors(data[15])
        } else {
            data[15]
        };
        let raw = [
            data[2],
            data[3],
            data[4],
            data[5],
            data[6],
            data[7],
            data[8],
            data[9],
            data[10],
            data[11],
            data[12],
            data[13],
            data[14],
            first,
            data[16],
            data[17],
        ];
        proof {
            assert(raw@ =~= normalized(data@.subrange(2, 18)));
        }
        match Entry::parse(&raw) {
            Err(e) => self.fail(concat2(": invalid record: ", e.as_str()).as_str()),
            Ok(entry) => {
                let mut scan = self;
                scan.entries.push(entry);
                proof {
                    assert(scan@.entries =~= self@.entries.push(entry@));
                }
                if next == 0xFFFF {
                    scan.phase = WalkPhase::Complete;
                } else if scan.seen.contains(&next) {
                    scan.phase = WalkPhase::Failed(
                        concat2(
                            "SEL pagination loop detected at record 0x",
                            hex_text(next as u64, 4).as_str(),
                        ),
                    );
                } else {
                    scan.seen.insert(next);
                    scan.record_id = next;
                }
                scan
            }
        }
    }
}

/// The walk ends: every reply either ends it or follows an ID that was not
/// followed before, of which there are at most 65535.
pub proof fn law_sel_walk_ends(s: SelScanView, reply: Result<ResponseView, Chars>)
    requires
        s.wf(),
        s.phase is Waiting,
    ensures
        SelScanView::start().wf(),
        s.next(reply).wf(),
        s.seen.len() <= 0xFFFF,
        s.next(reply).phase is Waiting ==> s.next(reply).seen.len() == s.seen.len() + 1,
{
    crate::conn::lemma_distinct_ids(s.seen.insert(0xFFFFu16));
}

/// The entry at `k`, as a controller that holds these entries answers: behind
/// the last one stands the ID 0xFFFF.
pub open spec fn entry_answer(ids: Seq<u16>, raw: Seq<Seq<u8>>, k: int) -> ResponseView {
    let next = if k + 1 < ids.len() {
        ids[k + 1]
    } else {
        0xFFFF
    };
    ResponseView { cc: 0, data: seq![low_byte(next), high_byte(next)] + raw[k] }
}

/// The walk after `k` such answers.
pub open spec fn walked(ids: Seq<u16>, raw: Seq<Seq<u8>>, k: int) -> SelScanView
    decreases k,
{
    if k <= 0 {
        SelScanView::start()
    } else {
        walked(ids, raw, k - 1).next(Ok(entry_answer(ids, raw, k - 1)))
    }
}

/// Whether a log is sound: its IDs are distinct and not 0xFFFF, and every entry
/// decodes.
pub open spec fn is_log(ids: Seq<u16>, raw: Seq<Seq<u8>>) -> bool {
    &&& 0 < ids.len() == raw.len()
    &&& ids.no_duplicates()
    &&& forall|i: int|
        0 <= i < ids.len() ==> ids[i] != 0xFFFF && (#[trigger] raw[i]).len() == 16
            && entry_on_wire(raw[i]) is Ok
}

/// What the first `k` entries of a log say.
pub open spec fn decoded_entries(raw: Seq<Seq<u8>>, k: int) -> Seq<EntryView> {
    Seq::new(k as nat, |i: int| entry_on_wire(raw[i])->Ok_0)
}

proof fn lemma_answered(s: SelScanView, raw: Seq<u8>, next: u16, entry: EntryView)
    requires
        s.phase is Waiting,
        raw.len() == 16,
        entry_on_wire(raw) == Ok::<EntryView, Chars>(entry),
    ensures
        s.next(
            Ok(ResponseView { cc: 0, data: seq![low_byte(next), high_byte(next)] + raw }),
        ) == s.with_entry(entry, next),
{
    let data = seq![low_byte(next), high_byte(next)] + raw;
    law_le16_round_trip(next, 0, 0);
    assert(data.subrange(2, 18) =~= raw);
    assert(data[0] == low_byte(next) && data[1] == high_byte(next));
}

proof fn lemma_walked(ids: Seq<u16>, raw: Seq<Seq<u8>>, k: int)
    requires
        is_log(ids, raw),
        0 <= k <= ids.len(),
    ensures
        ({
            let w = walked(ids, raw, k);
            &&& w.entries == decoded_entries(raw, k)
            &&& k < ids.len() ==> w.phase is Waiting && w.seen == ids.subrange(1, k + 1).to_set()
            &&& k == ids.len() ==> w.phase is Complete
        }),
    decreases k,
{
    if k == 0 {
        assert(ids.subrange(1, 1) =~= seq![]);
        assert(walked(ids, raw, 0).seen =~= ids.subrange(1, 1).to_set());
        assert(walked(ids, raw, 0).entries =~= decoded_entries(raw, 0));
    } else {
        lemma_walked(ids, raw, k - 1);
        let before = walked(ids, raw, k - 1);
        let next = if k < ids.len() {
            ids[k]
        } else {
            0xFFFF
        };
        assert(raw[k - 1].len() == 16);
        lemma_answered(before, raw[k - 1], next, entry_on_wire(raw[k - 1])->Ok_0);
        assert(decoded_entries(raw, k) =~= decoded_entries(raw, k - 1).push(
            entry_on_wire(raw[k - 1])->Ok_0,
        ));
        if k < ids.len() {
            assert(raw[k].len() == 16);
            let followed = ids.subrange(1, k);
            let longer = ids.subrange(1, k + 1);
            assert(!followed.contains(next)) by {
                if followed.contains(next) {
                    let i = choose|i: int| 0 <= i < followed.len() && followed[i] == next;
                    assert(ids[i + 1] == ids[k]);
                }
            }
            assert forall|x: u16| longer.contains(x) == (followed.contains(x) || x == next) by {
                if followed.contains(x) {
                    let i = choose|i: int| 0 <= i < followed.len() && followed[i] == x;
                    assert(longer[i] == x);
                }
                assert(longer[k - 1] == next);
            }
            assert(followed.to_set().insert(next) =~= longer.to_set());
        }
    }
}

/// The walk collects the log: when a controller answers every request with the
/// entry, the walk ends and holds every entry, in order.
pub proof fn law_log_is_collected(ids: Seq<u16>, raw: Seq<Seq<u8>>)
    requires
        is_log(ids, raw),
    ensures
        walked(ids, raw, ids.len() as int).phase is Complete,
        walked(ids, raw, ids.len() as int).entries == decoded_entries(raw, raw.len() as int),
{
    lemma_walked(ids, raw, ids.len() as int);
}

// ---------------------------------------------------------------------
// Translating OEM entries
// ---------------------------------------------------------------------

/// The IDs of the entries that are worth asking the firmware about, in order.
pub open spec fn oem_ids(entries: Seq<EntryView>) -> Seq<u16>
    decreases entries.len(),
{
    if entries.len() == 0 {
        seq![]
    } else {
        let before = oem_ids(entries.drop_last());
        if wants_oem_decoding(entries.last()) {
            before.push(entries.last().id())
        } else {
            before
        }
    }
}

fn oem_record_ids(entries: &Vec<Entry>) -> (ids: Vec<u16>)
    ensures
        ids@ == oem_ids(entry_views(entries@)),
{
    let ghost views = entry_views(entries@);
    let mut ids: Vec<u16> = Vec::new();
    let mut i: usize = 0;
    proof {
        assert(views.take(0) =~= seq![]);
    }
    while i < entries.len()
        invariant
            i <= entries.len(),
            views == entry_views(entries@),
            ids@ == oem_ids(views.take(i as int)),
        decreases entries.len() - i,
    {
        proof {
            assert(views.take(i + 1).drop_last() =~= views.take(i as int));
            assert(views.take(i + 1).last() == entries@[i as int]@);
        }
        if should_decode_oem(&entries[i]) {
            ids.push(entry_id(&entries[i]));
        }
        i = i + 1;
    }
    proof {
        assert(views.take(views.len() as int) =~= views);
    }
    ids
}

/// Asks the firmware to translate the OEM entries of a list.
///
/// A Fujitsu-branded controller without F5 43 support incurs only one failed
/// probe. Once decoding has worked, an isolated bad record falls back to the
/// generic rendering without hiding later records.
pub struct OemDecode {
    ids: Vec<u16>,
    index: usize,
    had_success: bool,
    fetch: LongText,
    decoded: OemDecodedEntries,
}

/// How far the translation has come: the entry being fetched is the one at
/// `index`.
pub ghost struct OemDecodeView {
    pub ids: Seq<u16>,
    pub index: int,
    pub had_success: bool,
    pub fetch: LongTextView,
    pub decoded: Map<u16, DecodedView>,
}

impl View for OemDecode {
    type V = OemDecodeView;

    closed spec fn view(&self) -> OemDecodeView {
        OemDecodeView {
            ids: self.ids@,
            index: self.index as int,
            had_success: self.had_success,
            fetch: self.fetch@,
            decoded: decoded_map(self.decoded@),
        }
    }
}

/// The ID at `index`, or zero past the end.
pub open spec fn id_at(ids: Seq<u16>, index: int) -> u16 {
    if 0 <= index < ids.len() {
        ids[index]
    } else {
        0
    }
}

impl OemDecodeView {
    /// Before the first request; nothing is asked when translation is off.
    pub open spec fn start(entries: Seq<EntryView>, enabled: bool) -> OemDecodeView {
        let ids = if enabled {
            oem_ids(entries)
        } else {
            seq![]
        };
        OemDecodeView {
            ids,
            index: 0,
            had_success: false,
            fetch: LongTextView::start(id_at(ids, 0), false),
            decoded: Map::empty(),
        }
    }

    pub open spec fn is_over(self) -> bool {
        self.index >= self.ids.len()
    }

    /// Goes on to the entry at `index`.
    pub open spec fn moved_to(self, index: int) -> OemDecodeView {
        OemDecodeView {
            index,
            fetch: LongTextView::start(id_at(self.ids, index), false),
            ..self
        }
    }

    /// The translation after a reply.
    pub open spec fn next(self, reply: Result<ResponseView, Chars>) -> OemDecodeView {
        let fetch = self.fetch.next(reply);
        if self.is_over() {
            self
        } else {
            match fetch.phase {
                TextPhaseView::Waiting => OemDecodeView { fetch, ..self },
                TextPhaseView::Done => OemDecodeView {
                    had_success: true,
                    decoded: self.decoded.insert(self.ids[self.index], fetch.decoded()),
                    ..self
                }.moved_to(self.index + 1),
                TextPhaseView::Failed(_) => if self.had_success {
                    self.moved_to(self.index + 1)
                } else {
                    self.moved_to(self.ids.len() as int)
                },
            }
        }
    }

    pub open spec fn wf(self) -> bool {
        &&& 0 <= self.index <= self.ids.len()
        &&& self.fetch.wf()
        &&& !self.is_over() ==> self.fetch.phase is Waiting
        &&& self.decoded.dom().finite()
        &&& !self.had_success ==> self.decoded == Map::<u16, DecodedView>::empty()
    }
}

impl OemDecode {
    pub fn new(entries: &Vec<Entry>, enabled: bool) -> (d: OemDecode)
        ensures
            d@ == OemDecodeView::start(entry_views(entries@), enabled),
            d@.wf(),
    {
        let ids: Vec<u16> = if enabled {
            oem_record_ids(entries)
        } else {
            Vec::new()
        };
        let first: u16 = if ids.len() > 0 {
            ids[0]
        } else {
            0
        };
        let d = OemDecode {
            ids,
            index: 0,
            had_success: false,
            fetch: LongText::new(first, false),
            decoded: OemDecodedEntries::new(),
        };
        proof {
            assert(d@.ids =~= OemDecodeView::start(entry_views(entries@), enabled).ids);
            assert(d@.decoded =~= Map::<u16, DecodedView>::empty());
        }
        d
    }

    /// The request whose reply the translation is waiting for; none once it is
    /// over.
    pub fn request(&self) -> (r: Option<Request>)
        requires
            self@.wf(),
        ensures
            match r {
                Some(request) => !self@.is_over() && self@.fetch.request() == Some(request@),
                None => self@.is_over(),
            },
    {
        if self.index >= self.ids.len() {
            None
        } else {
            self.fetch.request()
        }
    }

    /// The translated entries.
    pub fn into_decoded(self) -> (decoded: OemDecodedEntries)
        ensures
            decoded_map(decoded@) == self@.decoded,
    {
        self.decoded
    }

    /// Advances the translation with the reply to its request.
    pub fn advance(self, reply: Reply) -> (d: OemDecode)
        requires
            self@.wf(),
        ensures
            d@ == self@.next(reply_view(reply)),
            d@.wf(),
    {
        let OemDecode { ids, index, had_success, fetch, decoded } = self;
        if index >= ids.len() {
            return OemDecode { ids, index, had_success, fetch, decoded };
        }
        let (fetch, _shown) = fetch.advance(reply);
        let mut decoded = decoded;
        let mut had_success: bool = had_success;
        let ghost before = decoded_map(decoded@);
        let next: usize = match fetch.finish() {
            Some(entry) => {
                decoded.insert(ids[index], entry);
                proof {
                    assert(decoded_map(decoded@) =~= before.insert(ids@[index as int], entry@));
                }
                had_success = true;
                index + 1
            }
            None => {
                if fetch.error().is_none() {
                    return OemDecode { ids, index, had_success, fetch, decoded };
                }
                if had_success {
                    index + 1
                } else {
                    ids.len()
                }
            }
        };
        let id: u16 = if next < ids.len() {
            ids[next]
        } else {
            0
        };
        OemDecode { ids, index: next, had_success, fetch: LongText::new(id, false), decoded }
    }
}

/// A controller that does not know the command is asked once: as long as
/// nothing was translated, a failed fetch ends the translation, and afterwards
/// only its own entry is skipped.
pub proof fn law_one_failed_probe(s: OemDecodeView, reply: Result<ResponseView, Chars>)
    requires
        s.wf(),
        !s.is_over(),
        s.fetch.next(reply).phase is Failed,
    ensures
        s.next(reply).decoded == s.decoded,
        !s.had_success ==> s.next(reply).is_over(),
        s.had_success ==> s.next(reply).index == s.index + 1,
{
}

} // verus!
