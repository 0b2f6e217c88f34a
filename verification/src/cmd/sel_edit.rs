//! `sel info`, `sel clear` and `sel delete`.

use vstd::prelude::*;

use crate::bytes::{high_byte, low_byte, u16_high, u16_low};
use crate::cmd::sel::{id_string, id_text};
use crate::conn::{
    bmc_request, completion, completion_text, concat2, concat3, request_to_bmc, NETFN_STORAGE,
};
use crate::dialog::{
    done, done_step, failed, failed_step, outcome_view, Action, ActionView, ErasureProgress, Event,
    EventView, SelInfo, Step,
};
use crate::text::{dec, dec_text, push_text, texts, Chars};
use crate::ui::{green, greened, header, header_lines, kv, kv_line, red, reddened};

verus! {

pub const CMD_DELETE_SEL_ENTRY: u8 = 0x46;

/// How long to wait between two looks at an erasure, in milliseconds.
pub const ERASE_POLL_MS: u64 = 150;

// ---------------------------------------------------------------------
// `sel info`
// ---------------------------------------------------------------------

/// The summary of the log.
pub open spec fn info_lines(info: SelInfo, color: bool) -> Seq<Chars> {
    let lines = header_lines("SEL Information"@, color).push(
        kv_line(
            "Version"@,
            dec(info.version_maj as nat) + "."@ + dec(info.version_min as nat),
            14,
            color,
        ),
    ).push(kv_line("Entries"@, dec(info.entries as nat), 14, color)).push(
        kv_line("Free space"@, dec(info.bytes_free as nat) + " bytes"@, 14, color),
    );
    if info.overflow {
        lines.push(
            kv_line("Overflow"@, reddened("yes — events were lost"@, color), 14, color),
        ).push(seq![])
    } else {
        lines.push(seq![])
    }
}

/// Shows the summary of the log.
pub fn info(reply: Result<SelInfo, String>, color: bool) -> (s: Step)
    ensures
        s@ == match outcome_view(reply) {
            Err(e) => failed("Get SEL Info failed: "@ + e),
            Ok(info) => done(info_lines(info, color)),
        },
{
    let info = match reply {
        Err(e) => {
            return failed_step(concat2("Get SEL Info failed: ", e.as_str()));
        }
        Ok(info) => info,
    };
    let mut lines = header("SEL Information", color);
    let version = concat3(
        dec_text(info.version_maj as u64).as_str(),
        ".",
        dec_text(info.version_min as u64).as_str(),
    );
    push_text(&mut lines, kv("Version", version.as_str(), 14, color));
    push_text(&mut lines, kv("Entries", dec_text(info.entries as u64).as_str(), 14, color));
    let free = concat2(dec_text(info.bytes_free as u64).as_str(), " bytes");
    push_text(&mut lines, kv("Free space", free.as_str(), 14, color));
    if info.overflow {
        let lost = red("yes — events were lost", color);
        push_text(&mut lines, kv("Overflow", lost.as_str(), 14, color));
    }
    push_text(&mut lines, String::new());
    proof {
        assert(texts(lines@) =~= info_lines(info, color));
    }
    done_step(lines)
}

// ---------------------------------------------------------------------
// `sel clear`
// ---------------------------------------------------------------------

enum ClearPhase {
    Info,
    Ask(u16),
    Reserve,
    Initiate(Option<u16>),
    Pause,
    ReserveStatus,
    Status(Option<u16>),
    Finished,
    Failed(String),
}

/// Erases the log.
///
/// There is no capability bit for Clear SEL: it is mandatory for any SEL
/// device. The command takes a reservation; where the device has no reservation
/// mechanism, none is valid (IPMI 2.0 section 31.9). Starting the erasure
/// cancels the reservation used for it, so every look at its progress uses a
/// fresh one.
pub struct SelClear {
    yes: bool,
    reserve: bool,
    phase: ClearPhase,
}

/// What the erasure is waiting for.
pub ghost enum ClearPhaseView {
    Info,
    Ask(u16),
    Reserve,
    Initiate(Option<u16>),
    Pause,
    ReserveStatus,
    Status(Option<u16>),
    Finished,
    Failed(Chars),
}

/// How far the erasure has come; `reserve` says whether the log can be
/// reserved.
pub ghost struct ClearView {
    pub yes: bool,
    pub reserve: bool,
    pub phase: ClearPhaseView,
}

impl View for SelClear {
    type V = ClearView;

    closed spec fn view(&self) -> ClearView {
        ClearView {
            yes: self.yes,
            reserve: self.reserve,
            phase: match self.phase {
                ClearPhase::Info => ClearPhaseView::Info,
                ClearPhase::Ask(entries) => ClearPhaseView::Ask(entries),
                ClearPhase::Reserve => ClearPhaseView::Reserve,
                ClearPhase::Initiate(r) => ClearPhaseView::Initiate(r),
                ClearPhase::Pause => ClearPhaseView::Pause,
                ClearPhase::ReserveStatus => ClearPhaseView::ReserveStatus,
                ClearPhase::Status(r) => ClearPhaseView::Status(r),
                ClearPhase::Finished => ClearPhaseView::Finished,
                ClearPhase::Failed(e) => ClearPhaseView::Failed(e@),
            },
        }
    }
}

impl ClearView {
    pub open spec fn start(yes: bool) -> ClearView {
        ClearView { yes, reserve: false, phase: ClearPhaseView::Info }
    }

    pub open spec fn at(self, phase: ClearPhaseView) -> ClearView {
        ClearView { phase, ..self }
    }

    /// Reserves the log where it can be reserved, otherwise starts erasing.
    pub open spec fn erasing(self) -> ClearView {
        if self.reserve {
            self.at(ClearPhaseView::Reserve)
        } else {
            self.at(ClearPhaseView::Initiate(None))
        }
    }

    pub open spec fn after_info(self, info: Result<SelInfo, Chars>) -> ClearView {
        match info {
            Err(e) => self.at(ClearPhaseView::Failed("Get SEL Info failed: "@ + e)),
            Ok(info) => {
                let known = ClearView { reserve: info.reserve_supported, ..self };
                if self.yes {
                    known.erasing()
                } else {
                    known.at(ClearPhaseView::Ask(info.entries))
                }
            },
        }
    }

    pub open spec fn after_progress(
        self,
        progress: Result<ErasureProgress, Chars>,
        what: Chars,
    ) -> ClearView {
        match progress {
            Err(e) => self.at(ClearPhaseView::Failed(what + " failed: "@ + e)),
            Ok(ErasureProgress::InProgress) => self.at(ClearPhaseView::Pause),
            Ok(ErasureProgress::Completed) => self.at(ClearPhaseView::Finished),
        }
    }

    /// The erasure after an event. An event that does not answer the current
    /// action changes nothing.
    pub open spec fn next(self, event: EventView) -> ClearView {
        match (self.phase, event) {
            (ClearPhaseView::Info, EventView::SelInfo(r)) => self.after_info(r),
            (ClearPhaseView::Ask(_), EventView::Answer(yes)) => if yes {
                self.erasing()
            } else {
                self.at(ClearPhaseView::Finished)
            },
            (ClearPhaseView::Reserve, EventView::Reserved(r)) => match r {
                Err(e) => self.at(ClearPhaseView::Failed("Reserve SEL failed: "@ + e)),
                Ok(id) => self.at(ClearPhaseView::Initiate(Some(id))),
            },
            (ClearPhaseView::Initiate(_), EventView::Erasure(r)) => self.after_progress(
                r,
                "Clear SEL"@,
            ),
            (ClearPhaseView::Pause, EventView::Elapsed) => if self.reserve {
                self.at(ClearPhaseView::ReserveStatus)
            } else {
                self.at(ClearPhaseView::Status(None))
            },
            (ClearPhaseView::ReserveStatus, EventView::Reserved(r)) => match r {
                Err(e) => self.at(ClearPhaseView::Failed("Reserve SEL for status failed: "@ + e)),
                Ok(id) => self.at(ClearPhaseView::Status(Some(id))),
            },
            (ClearPhaseView::Status(_), EventView::Erasure(r)) => self.after_progress(
                r,
                "Clear SEL status"@,
            ),
            _ => self,
        }
    }

    /// What is printed when an event arrives.
    pub open spec fn shown(self, event: EventView, color: bool) -> Seq<Chars> {
        match (self.phase, event) {
            (ClearPhaseView::Ask(_), EventView::Answer(yes)) if !yes => seq!["Aborted."@],
            (ClearPhaseView::Initiate(_), EventView::Erasure(Ok(ErasureProgress::Completed))) =>
                seq![greened("SEL cleared."@, color)],
            (ClearPhaseView::Status(_), EventView::Erasure(Ok(ErasureProgress::Completed))) =>
                seq![greened("SEL cleared."@, color)],
            _ => seq![],
        }
    }

    /// The action whose event the erasure is waiting for.
    pub open spec fn action(self) -> ActionView {
        match self.phase {
            ClearPhaseView::Info => ActionView::GetSelInfo,
            ClearPhaseView::Ask(entries) => ActionView::Confirm(
                "Erase all "@ + dec(entries as nat) + " SEL entries?"@,
            ),
            ClearPhaseView::Reserve => ActionView::ReserveSel,
            ClearPhaseView::Initiate(reservation) => ActionView::ClearSel {
                initiate: true,
                reservation,
            },
            ClearPhaseView::Pause => ActionView::Pause { seconds: 0, millis: ERASE_POLL_MS },
            ClearPhaseView::ReserveStatus => ActionView::ReserveSel,
            ClearPhaseView::Status(reservation) => ActionView::ClearSel {
                initiate: false,
                reservation,
            },
            ClearPhaseView::Finished => ActionView::Finish(Ok(())),
            ClearPhaseView::Failed(e) => ActionView::Finish(Err(e)),
        }
    }
}

impl SelClear {
    pub fn new(yes: bool) -> (c: SelClear)
        ensures
            c@ == ClearView::start(yes),
    {
        SelClear { yes, reserve: false, phase: ClearPhase::Info }
    }

    /// The action whose event the erasure is waiting for.
    pub fn action(&self) -> (a: Action)
        ensures
            a@ == self@.action(),
    {
        match &self.phase {
            ClearPhase::Info => Action::GetSelInfo,
            ClearPhase::Ask(entries) => Action::Confirm(
                concat3("Erase all ", dec_text(*entries as u64).as_str(), " SEL entries?"),
            ),
            ClearPhase::Reserve => Action::ReserveSel,
            ClearPhase::Initiate(reservation) => Action::ClearSel {
                initiate: true,
                reservation: *reservation,
            },
            ClearPhase::Pause => Action::Pause { seconds: 0, millis: ERASE_POLL_MS },
            ClearPhase::ReserveStatus => Action::ReserveSel,
            ClearPhase::Status(reservation) => Action::ClearSel {
                initiate: false,
                reservation: *reservation,
            },
            ClearPhase::Finished => Action::Finish(Ok(())),
            ClearPhase::Failed(e) => Action::Finish(Err(e.clone())),
        }
    }

    fn at(self, phase: ClearPhase) -> (c: SelClear)
        ensures
            c@ == self@.at(c@.phase),
            c.phase == phase,
    {
        SelClear { yes: self.yes, reserve: self.reserve, phase }
    }

    fn erasing(self) -> (c: SelClear)
        ensures
            c@ == self@.erasing(),
    {
        if self.reserve {
            self.at(ClearPhase::Reserve)
        } else {
            self.at(ClearPhase::Initiate(None))
        }
    }

    fn after_progress(self, progress: Result<ErasureProgress, String>, what: &str) -> (c: SelClear)
        ensures
            c@ == self@.after_progress(outcome_view(progress), what@),
    {
        match progress {
            Err(e) => self.at(ClearPhase::Failed(concat3(what, " failed: ", e.as_str()))),
            Ok(ErasureProgress::InProgress) => self.at(ClearPhase::Pause),
            Ok(ErasureProgress::Completed) => self.at(ClearPhase::Finished),
        }
    }

    /// Advances the erasure with an event, and says what is printed.
    pub fn advance(self, event: Event, color: bool) -> (r: (SelClear, Vec<String>))
        ensures
            r.0@ == self@.next(event@),
            texts(r.1@) == self@.shown(event@, color),
    {
        let mut lines: Vec<String> = Vec::new();
        match (&self.phase, &event) {
            (ClearPhase::Ask(_), Event::Answer(yes)) => {
                if !*yes {
                    push_text(&mut lines, "Aborted.".to_owned());
                }
            }
            (ClearPhase::Initiate(_), Event::Erasure(Ok(ErasureProgress::Completed))) => {
                push_text(&mut lines, green("SEL cleared.", color));
            }
            (ClearPhase::Status(_), Event::Erasure(Ok(ErasureProgress::Completed))) => {
                push_text(&mut lines, green("SEL cleared.", color));
            }
            _ => {}
        }
        proof {
            assert(texts(lines@) =~= self@.shown(event@, color));
        }
        let SelClear { yes, reserve, phase } = self;
        let here = SelClear { yes, reserve, phase: ClearPhase::Info };
        let next = match (phase, event) {
            (ClearPhase::Info, Event::SelInfo(info)) => match info {
                Err(e) => here.at(
                    ClearPhase::Failed(concat2("Get SEL Info failed: ", e.as_str())),
                ),
                Ok(info) => {
                    let known = SelClear {
                        yes,
                        reserve: info.reserve_supported,
                        phase: ClearPhase::Info,
                    };
                    if yes {
                        known.erasing()
                    } else {
                        known.at(ClearPhase::Ask(info.entries))
                    }
                }
            },
            (ClearPhase::Ask(_), Event::Answer(confirmed)) => {
                if confirmed {
                    here.erasing()
                } else {
                    here.at(ClearPhase::Finished)
                }
            }
            (ClearPhase::Reserve, Event::Reserved(r)) => match r {
                Err(e) => here.at(
                    ClearPhase::Failed(concat2("Reserve SEL failed: ", e.as_str())),
                ),
                Ok(id) => here.at(ClearPhase::Initiate(Some(id))),
            },
            (ClearPhase::Initiate(_), Event::Erasure(r)) => here.after_progress(r, "Clear SEL"),
            (ClearPhase::Pause, Event::Elapsed) => {
                if reserve {
                    here.at(ClearPhase::ReserveStatus)
                } else {
                    here.at(ClearPhase::Status(None))
                }
            }
            (ClearPhase::ReserveStatus, Event::Reserved(r)) => match r {
                Err(e) => here.at(
                    ClearPhase::Failed(concat2("Reserve SEL for status failed: ", e.as_str())),
                ),
                Ok(id) => here.at(ClearPhase::Status(Some(id))),
            },
            (ClearPhase::Status(_), Event::Erasure(r)) => here.after_progress(
                r,
                "Clear SEL status",
            ),
            (phase, _) => SelClear { yes, reserve, phase },
        };
        (next, lines)
    }
}

/// Nothing is erased unasked: without `--yes` the question comes before any
/// reservation or erasure, and only the answer yes leads to one.
pub proof fn law_clear_asks_first(s: ClearView, event: EventView)
    requires
        !s.yes,
        s.phase is Info || s.phase is Ask,
    ensures
        ({
            let n = s.next(event);
            n.phase is Reserve || n.phase is Initiate ==> s.phase is Ask && event
                == EventView::Answer(true)
        }),
{
}

/// Where the log can be reserved, every look at the progress of an erasure uses
/// a reservation of its own, taken after the look before it.
pub proof fn law_progress_uses_fresh_reservation(s: ClearView, event: EventView)
    requires
        s.reserve,
        !(s.phase is Status),
        s.next(event).phase is Status,
    ensures
        s.phase is ReserveStatus,
        event is Reserved,
        event->Reserved_0 is Ok,
        s.next(event).action() == (ActionView::ClearSel {
            initiate: false,
            reservation: Some(event->Reserved_0->Ok_0),
        }),
{
}

// ---------------------------------------------------------------------
// `sel delete`
// ---------------------------------------------------------------------

enum DeletePhase {
    Info,
    Ask,
    Reserve,
    Send(u16),
    Finished,
    Failed(String),
}

/// Deletes one entry of the log, where the BMC supports it.
pub struct SelDelete {
    record_id: u16,
    yes: bool,
    reserve: bool,
    phase: DeletePhase,
}

/// What the deletion is waiting for.
pub ghost enum DeletePhaseView {
    Info,
    Ask,
    Reserve,
    Send(u16),
    Finished,
    Failed(Chars),
}

/// How far the deletion has come; `reserve` says whether the log can be
/// reserved.
pub ghost struct DeleteView {
    pub record_id: u16,
    pub yes: bool,
    pub reserve: bool,
    pub phase: DeletePhaseView,
}

impl View for SelDelete {
    type V = DeleteView;

    closed spec fn view(&self) -> DeleteView {
        DeleteView {
            record_id: self.record_id,
            yes: self.yes,
            reserve: self.reserve,
            phase: match self.phase {
                DeletePhase::Info => DeletePhaseView::Info,
                DeletePhase::Ask => DeletePhaseView::Ask,
                DeletePhase::Reserve => DeletePhaseView::Reserve,
                DeletePhase::Send(r) => DeletePhaseView::Send(r),
                DeletePhase::Finished => DeletePhaseView::Finished,
                DeletePhase::Failed(e) => DeletePhaseView::Failed(e@),
            },
        }
    }
}

impl DeleteView {
    pub open spec fn start(record_id: u16, yes: bool) -> DeleteView {
        DeleteView { record_id, yes, reserve: false, phase: DeletePhaseView::Info }
    }

    pub open spec fn at(self, phase: DeletePhaseView) -> DeleteView {
        DeleteView { phase, ..self }
    }

    /// Reserves the log where it can be reserved, otherwise deletes without a
    /// reservation.
    pub open spec fn deleting(self) -> DeleteView {
        if self.reserve {
            self.at(DeletePhaseView::Reserve)
        } else {
            self.at(DeletePhaseView::Send(0))
        }
    }

    /// The deletion after an event. An event that does not answer the current
    /// action changes nothing.
    pub open spec fn next(self, event: EventView) -> DeleteView {
        match (self.phase, event) {
            (DeletePhaseView::Info, EventView::SelInfo(r)) => match r {
                Err(e) => self.at(DeletePhaseView::Failed("Get SEL Info failed: "@ + e)),
                Ok(info) => if !info.delete_supported {
                    self.at(
                        DeletePhaseView::Failed(
                            "this BMC does not advertise per-entry SEL deletion"@,
                        ),
                    )
                } else {
                    let known = DeleteView { reserve: info.reserve_supported, ..self };
                    if self.yes {
                        known.deleting()
                    } else {
                        known.at(DeletePhaseView::Ask)
                    }
                },
            },
            (DeletePhaseView::Ask, EventView::Answer(yes)) => if yes {
                self.deleting()
            } else {
                self.at(DeletePhaseView::Finished)
            },
            (DeletePhaseView::Reserve, EventView::Reserved(r)) => match r {
                Err(e) => self.at(DeletePhaseView::Failed("Reserve SEL failed: "@ + e)),
                Ok(id) => self.at(DeletePhaseView::Send(id)),
            },
            (DeletePhaseView::Send(_), EventView::Reply(r)) => match r {
                Err(e) => self.at(DeletePhaseView::Failed("Delete SEL Entry failed: "@ + e)),
                Ok(response) => if response.cc != 0 {
                    self.at(
                        DeletePhaseView::Failed(
                            "Delete SEL Entry rejected: "@ + completion(response.cc),
                        ),
                    )
                } else {
                    self.at(DeletePhaseView::Finished)
                },
            },
            _ => self,
        }
    }

    /// What is printed when an event arrives.
    pub open spec fn shown(self, event: EventView, color: bool) -> Seq<Chars> {
        match (self.phase, event) {
            (DeletePhaseView::Ask, EventView::Answer(yes)) if !yes => seq!["Aborted."@],
            (DeletePhaseView::Send(_), EventView::Reply(Ok(response))) if response.cc == 0 => seq![
                greened("OK:"@, color) + " entry "@ + id_text(self.record_id) + " deleted"@,
            ],
            _ => seq![],
        }
    }

    /// The action whose event the deletion is waiting for.
    pub open spec fn action(self) -> ActionView {
        match self.phase {
            DeletePhaseView::Info => ActionView::GetSelInfo,
            DeletePhaseView::Ask => ActionView::Confirm(
                "Delete SEL entry "@ + id_text(self.record_id) + "?"@,
            ),
            DeletePhaseView::Reserve => ActionView::ReserveSel,
            DeletePhaseView::Send(reservation) => ActionView::Send(
                bmc_request(
                    NETFN_STORAGE,
                    CMD_DELETE_SEL_ENTRY,
                    seq![
                        low_byte(reservation),
                        high_byte(reservation),
                        low_byte(self.record_id),
                        high_byte(self.record_id),
                    ],
                ),
            ),
            DeletePhaseView::Finished => ActionView::Finish(Ok(())),
            DeletePhaseView::Failed(e) => ActionView::Finish(Err(e)),
        }
    }
}

/// Whether a record ID names an entry: 0x0000 and 0xFFFF select the first and
/// the last one.
pub open spec fn names_an_entry(record_id: u16) -> bool {
    !(record_id == 0 || record_id == 0xFFFF)
}

impl SelDelete {
    /// Begins the deletion. The IDs 0x0000 and 0xFFFF are selectors and name no
    /// entry.
    pub fn new(record_id: u16, yes: bool) -> (r: Result<SelDelete, String>)
        ensures
            r is Ok <==> names_an_entry(record_id),
            match r {
                Ok(d) => record_id != 0 && record_id != 0xFFFF && d@ == DeleteView::start(
                    record_id,
                    yes,
                ),
                Err(e) => (record_id == 0 || record_id == 0xFFFF) && e@
                    == "record ID must be between 0x0001 and 0xFFFE (FIRST/LAST are selectors)"@,
            },
    {
        if record_id == 0 || record_id == 0xFFFF {
            return Err(
                "record ID must be between 0x0001 and 0xFFFE (FIRST/LAST are selectors)".to_owned(),
            );
        }
        Ok(SelDelete { record_id, yes, reserve: false, phase: DeletePhase::Info })
    }

    /// The action whose event the deletion is waiting for.
    pub fn action(&self) -> (a: Action)
        ensures
            a@ == self@.action(),
    {
        match &self.phase {
            DeletePhase::Info => Action::GetSelInfo,
            DeletePhase::Ask => Action::Confirm(
                concat3("Delete SEL entry ", id_string(self.record_id).as_str(), "?"),
            ),
            DeletePhase::Reserve => Action::ReserveSel,
            DeletePhase::Send(reservation) => {
                let data = vec![
                    u16_low(*reservation),
                    u16_high(*reservation),
                    u16_low(self.record_id),
                    u16_high(self.record_id),
                ];
                proof {
                    assert(data@ =~= self@.action()->Send_0.data);
                }
                Action::Send(request_to_bmc(NETFN_STORAGE, CMD_DELETE_SEL_ENTRY, data))
            }
            DeletePhase::Finished => Action::Finish(Ok(())),
            DeletePhase::Failed(e) => Action::Finish(Err(e.clone())),
        }
    }

    fn at(self, phase: DeletePhase) -> (d: SelDelete)
        ensures
            d@ == self@.at(d@.phase),
            d.phase == phase,
    {
        SelDelete { record_id: self.record_id, yes: self.yes, reserve: self.reserve, phase }
    }

    fn deleting(self) -> (d: SelDelete)
        ensures
            d@ == self@.deleting(),
    {
        if self.reserve {
            self.at(DeletePhase::Reserve)
        } else {
            self.at(DeletePhase::Send(0))
        }
    }

    /// Advances the deletion with an event, and says what is printed.
    pub fn advance(self, event: Event, color: bool) -> (r: (SelDelete, Vec<String>))
        ensures
            r.0@ == self@.next(event@),
            texts(r.1@) == self@.shown(event@, color),
    {
        let mut lines: Vec<String> = Vec::new();
        match (&self.phase, &event) {
            (DeletePhase::Ask, Event::Answer(yes)) => {
                if !*yes {
                    push_text(&mut lines, "Aborted.".to_owned());
                }
            }
            (DeletePhase::Send(_), Event::Reply(Ok(response))) => {
                if response.cc == 0 {
                    let mut line = concat3(
                        green("OK:", color).as_str(),
                        " entry ",
                        id_string(self.record_id).as_str(),
                    );
                    line.append(" deleted");
                    push_text(&mut lines, line);
                }
            }
            _ => {}
        }
        proof {
            assert(texts(lines@) =~= self@.shown(event@, color));
        }
        let SelDelete { record_id, yes, reserve, phase } = self;
        let here = SelDelete { record_id, yes, reserve, phase: DeletePhase::Info };
        let next = match (phase, event) {
            (DeletePhase::Info, Event::SelInfo(info)) => match info {
                Err(e) => here.at(
                    DeletePhase::Failed(concat2("Get SEL Info failed: ", e.as_str())),
                ),
                Ok(info) => {
                    if !info.delete_supported {
                        here.at(
                            DeletePhase::Failed(
                                "this BMC does not advertise per-entry SEL deletion".to_owned(),
                            ),
                        )
                    } else {
                        let known = SelDelete {
                            record_id,
                            yes,
                            reserve: info.reserve_supported,
                            phase: DeletePhase::Info,
                        };
                        if yes {
                            known.deleting()
                        } else {
                            known.at(DeletePhase::Ask)
                        }
                    }
                }
            },
            (DeletePhase::Ask, Event::Answer(confirmed)) => {
                if confirmed {
                    here.deleting()
                } else {
                    here.at(DeletePhase::Finished)
                }
            }
            (DeletePhase::Reserve, Event::Reserved(r)) => match r {
                Err(e) => here.at(
                    DeletePhase::Failed(concat2("Reserve SEL failed: ", e.as_str())),
                ),
                Ok(id) => here.at(DeletePhase::Send(id)),
            },
            (DeletePhase::Send(_), Event::Reply(reply)) => match reply {
                Err(e) => here.at(
                    DeletePhase::Failed(concat2("Delete SEL Entry failed: ", e.as_str())),
                ),
                Ok(response) => {
                    if response.cc != 0 {
                        here.at(
                            DeletePhase::Failed(
                                concat2(
                                    "Delete SEL Entry rejected: ",
                                    completion_text(response.cc).as_str(),
                                ),
                            ),
                        )
                    } else {
                        here.at(DeletePhase::Finished)
                    }
                }
            },
            (phase, _) => SelDelete { record_id, yes, reserve, phase },
        };
        (next, lines)
    }
}

/// Nothing is deleted unasked, and nothing on a BMC that does not support it:
/// the first request of a deletion follows support and, without `--yes`, the
/// answer yes.
pub proof fn law_delete_asks_first(s: DeleteView, event: EventView)
    requires
        s.phase is Info || s.phase is Ask,
    ensures
        ({
            let n = s.next(event);
            n.phase is Reserve || n.phase is Send ==> (s.phase is Ask && event
                == EventView::Answer(true)) || (s.phase is Info && s.yes && event is SelInfo
                && event->SelInfo_0 is Ok && event->SelInfo_0->Ok_0.delete_supported)
        }),
        s.phase is Info && s.next(event).phase is Ask ==> event is SelInfo && event->SelInfo_0 is Ok
            && event->SelInfo_0->Ok_0.delete_supported,
{
}

} // verus!
