//! Fujitsu iRMC OEM protocol helpers.
//!
//! Covers `F5 43 - Get SEL entry long text` from the iRMC S4 "Concepts and
//! Interfaces" guide. This asks the controller firmware to translate its own
//! vendor events instead of maintaining an incomplete table of OEM event bytes
//! in the client.

use vstd::prelude::*;

use crate::bytes::{
    copy_range, high_byte, le16, le32, low_byte, u16_high, u16_le, u16_low, u32_le,
};
use crate::clock::{format_timestamp, rfc3339};
use crate::cmd::raw::{hex_bytes, hex_form};
use crate::cmd::{yes_no, yes_no_of};
use crate::conn::{
    bmc_request, completion, completion_text, concat2, concat3, reply_view, request_to_bmc, Reply,
    Request, RequestView, ResponseView,
};
use crate::dialog::{
    done_step, failed_after, outcome_view, step, Action, ActionView, Step, StepView,
};
use crate::text::{
    append_texts, dec, dec_text, find_byte, first_index, hex, hex_text, lemma_first_index, lossy,
    lossy_text, push_text, texts, Chars,
};
use crate::ui::{
    cells, colored_cell, dim, dimmed, green, greened, header, header_lines, plain_cell, red,
    reddened, yellow, yellowed, Align, Cell, CellView, Table, TableView,
};

verus! {

pub const NETFN_OEM_GROUP: u8 = 0x2E;

pub const CMD_IRMC: u8 = 0xF5;

pub const GET_SEL_ENTRY_LONG_TEXT: u8 = 0x43;

/// Documented maximum on Pilot-1 designs. It also keeps pagination exercised
/// and avoids assuming that every local IPMI driver accepts a 100-byte chunk.
pub const MAX_CHUNK_LEN: u8 = 56;

pub const RESPONSE_HEADER_LEN: usize = 14;

/// Whether a manufacturer ID is one of Fujitsu's: the enterprise number that
/// the iRMC commands carry, or one that is listed under a Fujitsu name.
pub open spec fn is_fujitsu(id: u32) -> bool {
    id == 0x2880 || id == 0x0E || id == 0x137
}

pub fn is_fujitsu_manufacturer(id: u32) -> (r: bool)
    ensures
        r == is_fujitsu(id),
{
    id == 0x2880 || id == 0x0E || id == 0x137
}

/// How severe the firmware rates an event.
#[derive(Clone, Copy, Debug, PartialEq, Eq, Structural)]
pub enum Severity {
    Informational,
    Minor,
    Major,
    Critical,
    Unknown,
}

impl Severity {
    /// The severity in bits 4 to 6 of a severity byte.
    pub open spec fn of_byte(value: u8) -> Severity {
        let level = (value >> 4) & 0x07;
        if level == 0 {
            Severity::Informational
        } else if level == 1 {
            Severity::Minor
        } else if level == 2 {
            Severity::Major
        } else if level == 3 {
            Severity::Critical
        } else {
            Severity::Unknown
        }
    }

    pub fn from_byte(value: u8) -> (s: Severity)
        ensures
            s == Severity::of_byte(value),
    {
        match (value >> 4) & 0x07 {
            0 => Severity::Informational,
            1 => Severity::Minor,
            2 => Severity::Major,
            3 => Severity::Critical,
            _ => Severity::Unknown,
        }
    }

    /// The name of a severity.
    pub open spec fn name(self) -> Chars {
        match self {
            Severity::Informational => "informational"@,
            Severity::Minor => "minor"@,
            Severity::Major => "major"@,
            Severity::Critical => "critical"@,
            Severity::Unknown => "unknown"@,
        }
    }

    /// The colored name of a severity.
    pub open spec fn colored_name(self, color: bool) -> Chars {
        match self {
            Severity::Informational => greened(self.name(), color),
            Severity::Minor => yellowed(self.name(), color),
            Severity::Major => reddened(self.name(), color),
            Severity::Critical => reddened(self.name(), color),
            Severity::Unknown => dimmed(self.name(), color),
        }
    }

    /// The plain and the colored name of a severity.
    pub fn label(self, color: bool) -> (r: (&'static str, String))
        ensures
            r.0@ == self.name(),
            r.1@ == self.colored_name(color),
    {
        match self {
            Severity::Informational => ("informational", green("informational", color)),
            Severity::Minor => ("minor", yellow("minor", color)),
            Severity::Major => ("major", red("major", color)),
            Severity::Critical => ("critical", red("critical", color)),
            Severity::Unknown => ("unknown", dim("unknown", color)),
        }
    }
}

/// One response: what the firmware says of the entry, and a piece of its text.
#[derive(Debug)]
pub struct ResponseChunk {
    pub next_record_id: u16,
    pub actual_record_id: u16,
    pub record_type: u8,
    pub timestamp: u32,
    pub severity_byte: u8,
    pub total_text_len: u8,
    pub text: Vec<u8>,
}

/// One response, with its text as a sequence.
pub ghost struct ChunkView {
    pub next_record_id: u16,
    pub actual_record_id: u16,
    pub record_type: u8,
    pub timestamp: u32,
    pub severity_byte: u8,
    pub total_text_len: u8,
    pub text: Seq<u8>,
}

impl View for ResponseChunk {
    type V = ChunkView;

    open spec fn view(&self) -> ChunkView {
        ChunkView {
            next_record_id: self.next_record_id,
            actual_record_id: self.actual_record_id,
            record_type: self.record_type,
            timestamp: self.timestamp,
            severity_byte: self.severity_byte,
            total_text_len: self.total_text_len,
            text: self.text@,
        }
    }
}

/// An entry as the firmware translates it.
pub struct DecodedSelEntry {
    pub record_id: u16,
    pub record_type: u8,
    pub timestamp: u32,
    pub severity: Severity,
    pub css: bool,
    pub text: String,
}

/// A translated entry, with its text as characters.
pub ghost struct DecodedView {
    pub record_id: u16,
    pub record_type: u8,
    pub timestamp: u32,
    pub severity: Severity,
    pub css: bool,
    pub text: Chars,
}

impl View for DecodedSelEntry {
    type V = DecodedView;

    open spec fn view(&self) -> DecodedView {
        DecodedView {
            record_id: self.record_id,
            record_type: self.record_type,
            timestamp: self.timestamp,
            severity: self.severity,
            css: self.css,
            text: self.text@,
        }
    }
}

// ---------------------------------------------------------------------
// One exchange
// ---------------------------------------------------------------------

/// The data of a Get SEL entry long text request.
pub open spec fn long_text_data(record_id: u16, offset: u8, max_size: u8) -> Seq<u8> {
    seq![
        0x80u8,
        0x28,
        0x00,
        GET_SEL_ENTRY_LONG_TEXT,
        low_byte(record_id),
        high_byte(record_id),
        offset,
        max_size,
    ]
}

pub fn long_text_request(record_id: u16, offset: u8, max_size: u8) -> (data: Vec<u8>)
    ensures
        data@ == long_text_data(record_id, offset, max_size),
{
    let mut data: Vec<u8> = Vec::new();
    data.push(0x80);
    data.push(0x28);
    data.push(0x00);
    data.push(GET_SEL_ENTRY_LONG_TEXT);
    data.push(u16_low(record_id));
    data.push(u16_high(record_id));
    data.push(offset);
    data.push(max_size);
    proof {
        assert(data@ =~= long_text_data(record_id, offset, max_size));
    }
    data
}

/// The chunk in the data of a response, or why there is none.
pub open spec fn chunk_of(data: Seq<u8>) -> Result<ChunkView, Chars> {
    if data.len() < 15 {
        Err(
            "short response: expected at least 15 data bytes, received "@ + dec(data.len()),
        )
    } else if data.take(3) != seq![0x80u8, 0x28, 0x00] {
        Err(
            "unexpected enterprise ID: expected 80 28 00, received "@ + hex_form(data.take(3)),
        )
    } else if first_index(data.skip(14), 0) == data.len() - 14 {
        Err("response text is missing its NUL terminator"@)
    } else {
        Ok(
            ChunkView {
                next_record_id: le16(data[3], data[4]),
                actual_record_id: le16(data[5], data[6]),
                record_type: data[7],
                timestamp: le32(data[8], data[9], data[10], data[11]),
                severity_byte: data[12],
                total_text_len: data[13],
                text: data.subrange(14, 14 + first_index(data.skip(14), 0)),
            },
        )
    }
}

pub fn parse_long_text_response(data: &[u8]) -> (r: Result<ResponseChunk, String>)
    ensures
        match r {
            Ok(chunk) => chunk_of(data@) == Ok::<ChunkView, Chars>(chunk@),
            Err(e) => chunk_of(data@) == Err::<ChunkView, Chars>(e@),
        },
{
    if data.len() < RESPONSE_HEADER_LEN + 1 {
        return Err(
            concat2(
                "short response: expected at least 15 data bytes, received ",
                dec_text(data.len() as u64).as_str(),
            ),
        );
    }
    let iana = copy_range(data, 0, 3);
    proof {
        assert(iana@ =~= data@.take(3));
        let fujitsu = seq![0x80u8, 0x28, 0x00];
        if data@[0] == 0x80 && data@[1] == 0x28 && data@[2] == 0x00 {
            assert(data@.take(3) =~= fujitsu);
        } else if data@.take(3) == fujitsu {
            assert(data@[0] == fujitsu[0] && data@[1] == fujitsu[1] && data@[2] == fujitsu[2]);
        }
    }
    if data[0] != 0x80 || data[1] != 0x28 || data[2] != 0x00 {
        return Err(
            concat2(
                "unexpected enterprise ID: expected 80 28 00, received ",
                hex_bytes(iana.as_slice()).as_str(),
            ),
        );
    }
    let encoded = copy_range(data, RESPONSE_HEADER_LEN, data.len());
    proof {
        assert(encoded@ =~= data@.skip(14));
    }
    let terminator: usize = find_byte(encoded.as_slice(), 0);
    if terminator == encoded.len() {
        return Err("response text is missing its NUL terminator".to_owned());
    }
    let text = copy_range(encoded.as_slice(), 0, terminator);
    proof {
        assert(text@ =~= data@.subrange(14, 14 + terminator));
    }
    Ok(
        ResponseChunk {
            next_record_id: u16_le(data[3], data[4]),
            actual_record_id: u16_le(data[5], data[6]),
            record_type: data[7],
            timestamp: u32_le(data[8], data[9], data[10], data[11]),
            severity_byte: data[12],
            total_text_len: data[13],
            text,
        },
    )
}

/// Two chunks say the same of their entry.
pub open spec fn same_metadata(a: ChunkView, b: ChunkView) -> bool {
    a.total_text_len == b.total_text_len && a.actual_record_id == b.actual_record_id
        && a.record_type == b.record_type && a.timestamp == b.timestamp && a.severity_byte
        == b.severity_byte
}

/// Whether a chunk may follow `accumulated_len` bytes of text, or why not.
pub open spec fn chunk_verdict(
    chunk: ChunkView,
    first: Option<ChunkView>,
    requested_id: u16,
    requested_size: u8,
    accumulated_len: nat,
) -> Result<(), Chars> {
    if requested_id != 0x0000 && requested_id != 0xFFFF && chunk.actual_record_id != requested_id {
        Err(
            "controller returned record 0x"@ + hex(chunk.actual_record_id as nat, 4)
                + " for requested record 0x"@ + hex(requested_id as nat, 4),
        )
    } else if chunk.text.len() > requested_size {
        Err(
            "controller returned "@ + dec(chunk.text.len()) + " text bytes after at most "@ + dec(
                requested_size as nat,
            ) + " were requested"@,
        )
    } else if accumulated_len + chunk.text.len() > chunk.total_text_len {
        Err("controller returned more text than its declared total length"@)
    } else if first is Some && !same_metadata(chunk, first->0) {
        Err("controller changed SEL metadata during pagination"@)
    } else {
        Ok(())
    }
}

pub open spec fn chunk_view(chunk: Option<&ResponseChunk>) -> Option<ChunkView> {
    match chunk {
        Some(chunk) => Some(chunk@),
        None => None,
    }
}

pub fn validate_chunk(
    chunk: &ResponseChunk,
    first: Option<&ResponseChunk>,
    requested_id: u16,
    requested_size: u8,
    accumulated_len: usize,
) -> (r: Result<(), String>)
    ensures
        outcome_view(r) == chunk_verdict(
            chunk@,
            chunk_view(first),
            requested_id,
            requested_size,
            accumulated_len as nat,
        ),
{
    if requested_id != 0x0000 && requested_id != 0xFFFF && chunk.actual_record_id != requested_id {
        let mut e = concat3(
            "controller returned record 0x",
            hex_text(chunk.actual_record_id as u64, 4).as_str(),
            " for requested record 0x",
        );
        e.append(hex_text(requested_id as u64, 4).as_str());
        return Err(e);
    }
    if chunk.text.len() > requested_size as usize {
        let mut e = concat3(
            "controller returned ",
            dec_text(chunk.text.len() as u64).as_str(),
            " text bytes after at most ",
        );
        e.append(dec_text(requested_size as u64).as_str());
        e.append(" were requested");
        return Err(e);
    }
    let total: usize = chunk.total_text_len as usize;
    if accumulated_len > total || chunk.text.len() > total - accumulated_len {
        return Err("controller returned more text than its declared total length".to_owned());
    }
    if let Some(first) = first {
        if chunk.total_text_len != first.total_text_len || chunk.actual_record_id
            != first.actual_record_id || chunk.record_type != first.record_type || chunk.timestamp
            != first.timestamp || chunk.severity_byte != first.severity_byte {
            return Err("controller changed SEL metadata during pagination".to_owned());
        }
    }
    Ok(())
}

// ---------------------------------------------------------------------
// The text of one entry
// ---------------------------------------------------------------------

enum TextPhase {
    Waiting,
    Done,
    Failed(String),
}

/// Fetches the text of one entry, piece by piece.
pub struct LongText {
    record_id: u16,
    debug: bool,
    text: Vec<u8>,
    first: Option<ResponseChunk>,
    phase: TextPhase,
}

/// What the fetch is waiting for.
pub ghost enum TextPhaseView {
    Waiting,
    Done,
    Failed(Chars),
}

/// How far the fetch has come: the text so far, and the first response.
pub ghost struct LongTextView {
    pub record_id: u16,
    pub debug: bool,
    pub text: Seq<u8>,
    pub first: Option<ChunkView>,
    pub phase: TextPhaseView,
}

impl View for LongText {
    type V = LongTextView;

    closed spec fn view(&self) -> LongTextView {
        LongTextView {
            record_id: self.record_id,
            debug: self.debug,
            text: self.text@,
            first: match self.first {
                Some(chunk) => Some(chunk@),
                None => None,
            },
            phase: match self.phase {
                TextPhase::Waiting => TextPhaseView::Waiting,
                TextPhase::Done => TextPhaseView::Done,
                TextPhase::Failed(e) => TextPhaseView::Failed(e@),
            },
        }
    }
}

/// What a completion code other than zero may mean.
pub open spec fn cc_hint(cc: u8) -> Chars {
    if cc == 0xC1 {
        " (command not supported by this BMC)"@
    } else if cc == 0xC7 {
        " (invalid request length)"@
    } else if cc == 0xD4 {
        " (administrator privilege may be required)"@
    } else {
        ""@
    }
}

impl LongTextView {
    pub open spec fn start(record_id: u16, debug: bool) -> LongTextView {
        LongTextView {
            record_id,
            debug,
            text: seq![],
            first: None,
            phase: TextPhaseView::Waiting,
        }
    }

    /// How much text is asked for next: what is left, but no more than a chunk.
    pub open spec fn requested(self) -> u8 {
        match self.first {
            None => MAX_CHUNK_LEN,
            Some(first) => {
                let left = first.total_text_len - self.text.len();
                if left < MAX_CHUNK_LEN {
                    left as u8
                } else {
                    MAX_CHUNK_LEN
                }
            },
        }
    }

    pub open spec fn request_data(self) -> Seq<u8> {
        long_text_data(self.record_id, self.text.len() as u8, self.requested())
    }

    /// The request whose reply the fetch is waiting for.
    pub open spec fn request(self) -> Option<RequestView> {
        if self.phase is Waiting {
            Some(bmc_request(NETFN_OEM_GROUP, CMD_IRMC, self.request_data()))
        } else {
            None
        }
    }

    /// The request, as the debug output shows it.
    pub open spec fn request_line(self) -> Chars {
        "  request  netfn=0x2E cmd=0xF5 data="@ + hex_form(self.request_data())
    }

    pub open spec fn failed(self, e: Chars) -> LongTextView {
        LongTextView { phase: TextPhaseView::Failed(e), ..self }
    }

    /// The fetch after a chunk that may follow.
    pub open spec fn with_chunk(self, chunk: ChunkView) -> LongTextView {
        LongTextView {
            text: self.text + chunk.text,
            first: if self.first is Some {
                self.first
            } else {
                Some(chunk)
            },
            phase: if self.text.len() + chunk.text.len() >= chunk.total_text_len {
                TextPhaseView::Done
            } else {
                TextPhaseView::Waiting
            },
            ..self
        }
    }

    /// The fetch after a reply. A fetch that is over stays as it is.
    pub open spec fn next(self, reply: Result<ResponseView, Chars>) -> LongTextView {
        if !(self.phase is Waiting) {
            self
        } else {
            match reply {
                Err(e) => self.failed("transport error: "@ + e),
                Ok(response) => if response.cc != 0 {
                    self.failed(completion(response.cc) + cc_hint(response.cc))
                } else {
                    match chunk_of(response.data) {
                        Err(e) => self.failed(e),
                        Ok(chunk) => match chunk_verdict(
                            chunk,
                            self.first,
                            self.record_id,
                            self.requested(),
                            self.text.len(),
                        ) {
                            Err(e) => self.failed(e),
                            Ok(_) => if chunk.text.len() == 0 && self.text.len()
                                < chunk.total_text_len {
                                self.failed(
                                    "controller returned an empty text chunk before completion"@,
                                )
                            } else {
                                self.with_chunk(chunk)
                            },
                        },
                    }
                },
            }
        }
    }

    /// What the debug output shows when a reply arrives: the response, and the
    /// next request if there is one.
    pub open spec fn shown(self, reply: Result<ResponseView, Chars>) -> Seq<Chars> {
        match reply {
            Ok(response) if self.debug && self.phase is Waiting => {
                let line = "  response cc=0x"@ + hex(response.cc as nat, 2) + " data="@ + hex_form(
                    response.data,
                );
                let after = self.next(reply);
                if after.phase is Waiting {
                    seq![line, after.request_line()]
                } else {
                    seq![line]
                }
            },
            _ => seq![],
        }
    }

    /// The translated entry, once the text is complete.
    pub open spec fn decoded(self) -> DecodedView {
        let first = self.first->0;
        DecodedView {
            record_id: first.actual_record_id,
            record_type: first.record_type,
            timestamp: first.timestamp,
            severity: Severity::of_byte(first.severity_byte),
            css: first.severity_byte & 0x80 != 0,
            text: lossy(self.text),
        }
    }

    /// What holds of every fetch: the text never exceeds its declared length,
    /// is shorter while the fetch goes on, and has that length at the end; and
    /// the entry is the one that was asked for.
    pub open spec fn wf(self) -> bool {
        &&& match self.first {
            None => self.text.len() == 0,
            Some(first) => self.text.len() <= first.total_text_len && (self.record_id == 0
                || self.record_id == 0xFFFF || first.actual_record_id == self.record_id),
        }
        &&& self.phase is Done ==> self.first is Some && self.text.len()
            == self.first->0.total_text_len
        &&& self.phase is Waiting && self.first is Some ==> 0 < self.text.len()
            < self.first->0.total_text_len
    }
}

impl LongText {
    pub fn new(record_id: u16, debug: bool) -> (fetch: LongText)
        ensures
            fetch@ == LongTextView::start(record_id, debug),
            fetch@.wf(),
    {
        let fetch = LongText {
            record_id,
            debug,
            text: Vec::new(),
            first: None,
            phase: TextPhase::Waiting,
        };
        proof {
            assert(fetch@.text =~= seq![]);
        }
        fetch
    }

    fn requested(&self) -> (n: u8)
        requires
            self@.wf(),
        ensures
            n == self@.requested(),
    {
        match &self.first {
            None => MAX_CHUNK_LEN,
            Some(first) => {
                let left: usize = first.total_text_len as usize - self.text.len();
                if left < MAX_CHUNK_LEN as usize {
                    left as u8
                } else {
                    MAX_CHUNK_LEN
                }
            }
        }
    }

    fn request_data(&self) -> (data: Vec<u8>)
        requires
            self@.wf(),
        ensures
            data@ == self@.request_data(),
    {
        long_text_request(self.record_id, self.text.len() as u8, self.requested())
    }

    /// The request whose reply the fetch is waiting for; none once it is over.
    pub fn request(&self) -> (r: Option<Request>)
        requires
            self@.wf(),
        ensures
            match r {
                Some(request) => self@.request() == Some(request@),
                None => self@.request() is None,
            },
    {
        match &self.phase {
            TextPhase::Waiting => Some(
                request_to_bmc(NETFN_OEM_GROUP, CMD_IRMC, self.request_data()),
            ),
            _ => None,
        }
    }

    /// The request, as the debug output shows it.
    pub fn request_line(&self) -> (line: String)
        requires
            self@.wf(),
        ensures
            line@ == self@.request_line(),
    {
        concat2(
            "  request  netfn=0x2E cmd=0xF5 data=",
            hex_bytes(self.request_data().as_slice()).as_str(),
        )
    }

    /// Why the fetch failed, if it did.
    pub fn error(&self) -> (r: Option<String>)
        ensures
            match r {
                Some(e) => self@.phase == TextPhaseView::Failed(e@),
                None => !(self@.phase is Failed),
            },
    {
        match &self.phase {
            TextPhase::Failed(e) => Some(e.clone()),
            _ => None,
        }
    }

    /// The translated entry, once the text is complete.
    pub fn finish(&self) -> (r: Option<DecodedSelEntry>)
        requires
            self@.wf(),
        ensures
            match r {
                Some(entry) => self@.phase is Done && entry@ == self@.decoded(),
                None => !(self@.phase is Done),
            },
    {
        match (&self.phase, &self.first) {
            (TextPhase::Done, Some(first)) => Some(
                DecodedSelEntry {
                    record_id: first.actual_record_id,
                    record_type: first.record_type,
                    timestamp: first.timestamp,
                    severity: Severity::from_byte(first.severity_byte),
                    css: first.severity_byte & 0x80 != 0,
                    text: lossy_text(self.text.as_slice()),
                },
            ),
            _ => None,
        }
    }

    fn fail(self, e: String) -> (fetch: LongText)
        requires
            self@.wf(),
        ensures
            fetch@ == self@.failed(e@),
            fetch@.wf(),
    {
        let mut fetch = self;
        fetch.phase = TextPhase::Failed(e);
        fetch
    }

    fn step(self, reply: Reply) -> (fetch: LongText)
        requires
            self@.wf(),
        ensures
            fetch@ == self@.next(reply_view(reply)),
            fetch@.wf(),
    {
        if !matches!(&self.phase, TextPhase::Waiting) {
            return self;
        }
        let response = match reply {
            Err(e) => {
                return self.fail(concat2("transport error: ", e.as_str()));
            }
            Ok(response) => response,
        };
        if response.cc != 0 {
            let detail = match response.cc {
                0xC1 => " (command not supported by this BMC)",
                0xC7 => " (invalid request length)",
                0xD4 => " (administrator privilege may be required)",
                _ => "",
            };
            return self.fail(concat2(completion_text(response.cc).as_str(), detail));
        }
        let chunk = match parse_long_text_response(response.data.as_slice()) {
            Err(e) => {
                return self.fail(e);
            }
            Ok(chunk) => chunk,
        };
        let requested: u8 = self.requested();
        match validate_chunk(
            &chunk,
            self.first.as_ref(),
            self.record_id,
            requested,
            self.text.len(),
        ) {
            Err(e) => {
                return self.fail(e);
            }
            Ok(_) => {}
        }
        if chunk.text.len() == 0 && self.text.len() < chunk.total_text_len as usize {
            return self.fail(
                "controller returned an empty text chunk before completion".to_owned(),
            );
        }
        let mut fetch = self;
        let total: usize = chunk.total_text_len as usize;
        let mut more = copy_range(chunk.text.as_slice(), 0, chunk.text.len());
        proof {
            assert(more@ =~= chunk.text@);
        }
        fetch.text.append(&mut more);
        if fetch.first.is_none() {
            fetch.first = Some(chunk);
        }
        if fetch.text.len() >= total {
            fetch.phase = TextPhase::Done;
        }
        fetch
    }

    /// Advances the fetch with the reply to its request, and says what the
    /// debug output shows of it.
    pub fn advance(self, reply: Reply) -> (r: (LongText, Vec<String>))
        requires
            self@.wf(),
        ensures
            r.0@ == self@.next(reply_view(reply)),
            r.0@.wf(),
            texts(r.1@) == self@.shown(reply_view(reply)),
    {
        let mut lines: Vec<String> = Vec::new();
        let debug = self.debug && matches!(&self.phase, TextPhase::Waiting);
        let response_line = match &reply {
            Ok(response) => {
                let mut line = concat3(
                    "  response cc=0x",
                    hex_text(response.cc as u64, 2).as_str(),
                    " data=",
                );
                line.append(hex_bytes(response.data.as_slice()).as_str());
                Some(line)
            }
            Err(_) => None,
        };
        let fetch = self.step(reply);
        match response_line {
            Some(line) => {
                if debug {
                    push_text(&mut lines, line);
                    if matches!(&fetch.phase, TextPhase::Waiting) {
                        push_text(&mut lines, fetch.request_line());
                    }
                }
            }
            None => {}
        }
        proof {
            assert(texts(lines@) =~= self@.shown(reply_view(reply)));
        }
        (fetch, lines)
    }
}

/// The fetch ends: every reply that does not end it brings more text, of which
/// there are at most 255 bytes.
pub proof fn law_long_text_ends(s: LongTextView, reply: Result<ResponseView, Chars>)
    requires
        s.wf(),
        s.phase is Waiting,
    ensures
        s.text.len() <= 255,
        s.next(reply).phase is Waiting ==> s.next(reply).text.len() > s.text.len(),
        s.next(reply).wf(),
{
}

/// The fetch never mixes entries: once a first response has come, every later
/// one that is kept says the same of its entry, and the text only grows at its
/// end.
pub proof fn law_long_text_keeps_entry(s: LongTextView, reply: Result<ResponseView, Chars>)
    requires
        s.wf(),
        s.first is Some,
    ensures
        s.next(reply).first == s.first,
        s.text.is_prefix_of(s.next(reply).text),
        !(s.next(reply).phase is Failed) && s.phase is Waiting ==> reply is Ok && chunk_of(
            reply->Ok_0.data,
        ) is Ok && same_metadata(chunk_of(reply->Ok_0.data)->Ok_0, s.first->0),
{
}

/// Whether `header` starts every response about the entry that `s` fetches, if
/// its text is `text`: it carries the enterprise number, the length of the text
/// and the entry's ID, and agrees with the first response.
pub open spec fn heads(header: Seq<u8>, s: LongTextView, text: Seq<u8>) -> bool {
    &&& header.len() == RESPONSE_HEADER_LEN
    &&& header.take(3) == seq![0x80u8, 0x28, 0x00]
    &&& header[13] == text.len()
    &&& s.record_id == 0 || s.record_id == 0xFFFF || le16(header[5], header[6]) == s.record_id
    &&& s.first is Some ==> s.first->0.total_text_len == header[13]
        && s.first->0.actual_record_id == le16(header[5], header[6]) && s.first->0.record_type
        == header[7] && s.first->0.timestamp == le32(header[8], header[9], header[10], header[11])
        && s.first->0.severity_byte == header[12]
}

/// Pieces assemble: when the controller answers a request at offset `n` of a
/// text with `k` of the text's own bytes, no more than were requested, what is
/// kept is a longer prefix of the text; and with its last byte the fetch is
/// done and the entry shows the whole text.
pub proof fn law_long_text_assembles(
    s: LongTextView,
    header: Seq<u8>,
    text: Seq<u8>,
    n: int,
    k: int,
)
    requires
        s.wf(),
        s.phase is Waiting,
        s.text == text.take(n),
        0 <= n < n + k <= text.len() <= 255,
        k <= s.requested(),
        !text.contains(0u8),
        heads(header, s, text),
    ensures
        ({
            let piece = ResponseView {
                cc: 0,
                data: header + text.subrange(n, n + k) + seq![0u8],
            };
            let after = s.next(Ok(piece));
            &&& after.text == text.take(n + k)
            &&& n + k < text.len() ==> after.phase is Waiting && heads(header, after, text)
            &&& n + k == text.len() ==> after.phase is Done && after.decoded().text == lossy(text)
        }),
{
    let bytes = text.subrange(n, n + k);
    let data = header + bytes + seq![0u8];
    let tail = data.skip(14);
    assert(tail =~= bytes + seq![0u8]);
    assert(data.take(3) =~= header.take(3));
    assert forall|j: int| 0 <= j < k implies tail[j] != 0 by {
        assert(tail[j] == text[n + j]);
    }
    lemma_first_index(tail, 0u8, k);
    assert(data.subrange(14, 14 + k) =~= bytes);
    assert(text.take(n) + bytes =~= text.take(n + k));
    if n + k == text.len() {
        assert(text.take(n + k) =~= text);
    }
}

/// How a controller that translates an entry to `text` answers: with the text's
/// bytes from where the fetch stands, `portion` of them, but at least one, if
/// there are any, and no more than were requested.
pub open spec fn text_answer(
    s: LongTextView,
    header: Seq<u8>,
    text: Seq<u8>,
    portion: nat,
) -> ResponseView {
    let at = s.text.len() as int;
    let left = text.len() - at;
    let most = if left < s.requested() {
        left
    } else {
        s.requested() as int
    };
    let served = if portion > most {
        most
    } else if portion == 0 && most > 0 {
        1
    } else {
        portion as int
    };
    ResponseView { cc: 0, data: header + text.subrange(at, at + served) + seq![0u8] }
}

/// The fetch after `n` such answers, of which the one at `i` has `portions(i)`
/// bytes of text.
pub open spec fn fetched_in_portions(
    s: LongTextView,
    header: Seq<u8>,
    text: Seq<u8>,
    portions: spec_fn(nat) -> nat,
    n: nat,
) -> LongTextView
    decreases n,
{
    if n == 0 {
        s
    } else {
        let before = fetched_in_portions(s, header, text, portions, (n - 1) as nat);
        before.next(Ok(text_answer(before, header, text, portions((n - 1) as nat))))
    }
}

/// Whether a fetch holds the beginning of a text, and all of it once it is over.
pub open spec fn holds_text(s: LongTextView, header: Seq<u8>, text: Seq<u8>) -> bool {
    &&& s.wf()
    &&& heads(header, s, text)
    &&& s.text.len() <= text.len()
    &&& s.text == text.take(s.text.len() as int)
    &&& s.phase is Done ==> s.text.len() == text.len()
    &&& !(s.phase is Failed)
}

proof fn lemma_text_served(s: LongTextView, header: Seq<u8>, text: Seq<u8>, portion: nat)
    requires
        holds_text(s, header, text),
        s.phase is Waiting,
        text.len() <= 255,
        !text.contains(0u8),
    ensures
        ({
            let after = s.next(Ok(text_answer(s, header, text, portion)));
            &&& holds_text(after, header, text)
            &&& after.phase is Waiting ==> s.text.len() < after.text.len() < text.len()
        }),
{
    let answer = text_answer(s, header, text, portion);
    let at = s.text.len() as int;
    let served = answer.data.len() - 15;
    law_long_text_ends(s, Ok(answer));
    if text.len() > 0 {
        if s.first is Some {
            assert(at < text.len());
        }
        law_long_text_assembles(s, header, text, at, served);
    } else {
        let data = header + text.subrange(0, 0) + seq![0u8];
        let tail = data.skip(14);
        assert(tail =~= seq![0u8]);
        assert(data.take(3) =~= header.take(3));
        lemma_first_index(tail, 0u8, 0);
        assert(data.subrange(14, 14) =~= seq![]);
        assert(s.text + Seq::<u8>::empty() =~= text);
        assert(text.take(0) =~= text);
    }
}

proof fn lemma_fetched_in_portions(
    s: LongTextView,
    header: Seq<u8>,
    text: Seq<u8>,
    portions: spec_fn(nat) -> nat,
    n: nat,
)
    requires
        holds_text(s, header, text),
        text.len() <= 255,
        !text.contains(0u8),
    ensures
        ({
            let end = fetched_in_portions(s, header, text, portions, n);
            &&& holds_text(end, header, text)
            &&& end.phase is Waiting ==> n <= end.text.len() && (n > 0 ==> end.text.len()
                < text.len())
        }),
    decreases n,
{
    if n > 0 {
        let m = (n - 1) as nat;
        let before = fetched_in_portions(s, header, text, portions, m);
        lemma_fetched_in_portions(s, header, text, portions, m);
        if before.phase is Waiting {
            lemma_text_served(before, header, text, portions(m));
        }
    }
}

/// A text is fetched however it is served: when a controller answers every
/// request with the text's own bytes, in pieces of any size, the fetch ends and
/// the entry has the whole text and what the responses say of it.
pub proof fn law_long_text_is_fetched_in_portions(
    record_id: u16,
    debug: bool,
    header: Seq<u8>,
    text: Seq<u8>,
    portions: spec_fn(nat) -> nat,
    n: nat,
)
    requires
        heads(header, LongTextView::start(record_id, debug), text),
        text.len() <= 255,
        !text.contains(0u8),
        n > text.len(),
    ensures
        ({
            let end = fetched_in_portions(
                LongTextView::start(record_id, debug),
                header,
                text,
                portions,
                n,
            );
            &&& end.phase is Done
            &&& end.decoded() == (DecodedView {
                record_id: le16(header[5], header[6]),
                record_type: header[7],
                timestamp: le32(header[8], header[9], header[10], header[11]),
                severity: Severity::of_byte(header[12]),
                css: header[12] & 0x80 != 0,
                text: lossy(text),
            })
        }),
{
    let s = LongTextView::start(record_id, debug);
    assert(text.take(0) =~= seq![]);
    lemma_fetched_in_portions(s, header, text, portions, n);
    assert(text.take(text.len() as int) =~= text);
}

// ---------------------------------------------------------------------
// `sel decode`
// ---------------------------------------------------------------------

/// The row of a translated entry.
pub open spec fn decoded_row(e: DecodedView, color: bool) -> Seq<CellView> {
    seq![
        plain_cell("0x"@ + hex(e.record_id as nat, 4)),
        plain_cell(rfc3339(e.timestamp as int)),
        colored_cell(e.severity.name(), e.severity.colored_name(color)),
        plain_cell(yes_no_of(e.css)),
        plain_cell("0x"@ + hex(e.record_type as nat, 2)),
        plain_cell(e.text),
    ]
}

/// The table of translated entries.
pub open spec fn decoded_table(entries: Seq<DecodedView>, color: bool) -> TableView {
    TableView {
        headers: seq!["ID"@, "TIMESTAMP"@, "SEVERITY"@, "CSS"@, "TYPE"@, "EVENT"@],
        aligns: seq![Align::Right, Align::Left, Align::Left, Align::Left, Align::Right, Align::Left],
        rows: Seq::new(entries.len(), |i: int| decoded_row(entries[i], color)),
    }
}

/// The report on translated entries.
pub open spec fn decoded_report(entries: Seq<DecodedView>, color: bool) -> Seq<Chars> {
    (header_lines("Fujitsu iRMC SEL Text"@, color) + decoded_table(entries, color).lines(
        color,
    )).push(seq![])
}

/// What a list of translated entries says.
pub open spec fn decoded_views(entries: Seq<DecodedSelEntry>) -> Seq<DecodedView> {
    Seq::new(entries.len(), |i: int| entries[i]@)
}

fn report(entries: &Vec<DecodedSelEntry>, color: bool) -> (lines: Vec<String>)
    ensures
        texts(lines@) == decoded_report(decoded_views(entries@), color),
{
    let ghost views = decoded_views(entries@);
    let mut table = Table::new(
        &["ID", "TIMESTAMP", "SEVERITY", "CSS", "TYPE", "EVENT"],
        &[Align::Right, Align::Left, Align::Left, Align::Left, Align::Right, Align::Left],
    );
    proof {
        assert(table@.headers =~= decoded_table(views, color).headers);
        assert(table@.aligns =~= decoded_table(views, color).aligns);
        assert(table@.rows =~= decoded_table(views, color).rows.take(0));
    }
    let mut i: usize = 0;
    while i < entries.len()
        invariant
            i <= entries.len(),
            views == decoded_views(entries@),
            table@.headers == decoded_table(views, color).headers,
            table@.aligns == decoded_table(views, color).aligns,
            table@.rows == decoded_table(views, color).rows.take(i as int),
        decreases entries.len() - i,
    {
        let entry = &entries[i];
        let (severity, rendered) = entry.severity.label(color);
        let row = vec![
            Cell::new(concat2("0x", hex_text(entry.record_id as u64, 4).as_str()).as_str()),
            Cell::new(format_timestamp(entry.timestamp).as_str()),
            Cell::colored(severity, rendered.as_str()),
            Cell::new(yes_no(entry.css)),
            Cell::new(concat2("0x", hex_text(entry.record_type as u64, 2).as_str()).as_str()),
            Cell::new(entry.text.as_str()),
        ];
        proof {
            assert(cells(row@) =~= decoded_row(views[i as int], color));
        }
        table.row(row);
        proof {
            assert(table@.rows =~= decoded_table(views, color).rows.take(i + 1));
        }
        i = i + 1;
    }
    proof {
        assert(table@.rows =~= decoded_table(views, color).rows);
    }
    let mut lines = header("Fujitsu iRMC SEL Text", color);
    append_texts(&mut lines, table.lines(color));
    push_text(&mut lines, String::new());
    proof {
        assert(texts(lines@) =~= decoded_report(views, color));
    }
    lines
}

/// Translates the given entries one after another and reports them together.
pub struct DecodeSel {
    ids: Vec<u16>,
    index: usize,
    debug: bool,
    fetch: LongText,
    decoded: Vec<DecodedSelEntry>,
}

/// How far the translation has come: the entry being fetched is the one at
/// `index`.
pub ghost struct DecodeSelView {
    pub ids: Seq<u16>,
    pub index: int,
    pub debug: bool,
    pub fetch: LongTextView,
    pub decoded: Seq<DecodedView>,
}

impl View for DecodeSel {
    type V = DecodeSelView;

    closed spec fn view(&self) -> DecodeSelView {
        DecodeSelView {
            ids: self.ids@,
            index: self.index as int,
            debug: self.debug,
            fetch: self.fetch@,
            decoded: decoded_views(self.decoded@),
        }
    }
}

impl DecodeSelView {
    pub open spec fn start(ids: Seq<u16>, debug: bool) -> DecodeSelView {
        DecodeSelView {
            ids,
            index: 0,
            debug,
            fetch: LongTextView::start(
                if ids.len() > 0 {
                    ids[0]
                } else {
                    0
                },
                debug,
            ),
            decoded: seq![],
        }
    }

    pub open spec fn wf(self) -> bool {
        &&& self.fetch.wf()
        &&& 0 <= self.index <= self.ids.len()
        &&& self.decoded.len() == self.index
        &&& self.index < self.ids.len() ==> !(self.fetch.phase is Done)
    }

    /// The translation after a reply.
    pub open spec fn next(self, reply: Result<ResponseView, Chars>) -> DecodeSelView {
        let fetch = self.fetch.next(reply);
        if self.index >= self.ids.len() {
            self
        } else if fetch.phase is Done {
            DecodeSelView {
                index: self.index + 1,
                fetch: LongTextView::start(
                    if self.index + 1 < self.ids.len() {
                        self.ids[self.index + 1]
                    } else {
                        0
                    },
                    self.debug,
                ),
                decoded: self.decoded.push(fetch.decoded()),
                ..self
            }
        } else {
            DecodeSelView { fetch, ..self }
        }
    }

    /// What the translation waits for: the next piece of text; at the end the
    /// report is printed, and a failed fetch is an error.
    pub open spec fn current(self, color: bool) -> StepView {
        if self.index >= self.ids.len() {
            step(decoded_report(self.decoded, color), ActionView::Finish(Ok(())))
        } else {
            match self.fetch.phase {
                TextPhaseView::Failed(e) => failed_after(
                    seq![],
                    "Fujitsu SEL decode for record 0x"@ + hex(self.ids[self.index] as nat, 4)
                        + " failed: "@ + e,
                ),
                _ => step(
                    if self.debug && self.fetch.first is None {
                        seq![self.fetch.request_line()]
                    } else {
                        seq![]
                    },
                    ActionView::Send(self.fetch.request()->0),
                ),
            }
        }
    }
}

impl DecodeSel {
    pub fn new(ids: Vec<u16>, debug: bool) -> (d: DecodeSel)
        ensures
            d@ == DecodeSelView::start(ids@, debug),
            d@.wf(),
    {
        let first: u16 = if ids.len() > 0 {
            ids[0]
        } else {
            0
        };
        let d = DecodeSel {
            ids,
            index: 0,
            debug,
            fetch: LongText::new(first, debug),
            decoded: Vec::new(),
        };
        proof {
            assert(d@.decoded =~= seq![]);
        }
        d
    }

    /// What the translation waits for. The first request for an entry is shown
    /// here in debug mode, later ones with the response before them.
    pub fn current(&self, color: bool) -> (s: Step)
        requires
            self@.wf(),
        ensures
            s@ == self@.current(color),
    {
        if self.index >= self.ids.len() {
            return done_step(report(&self.decoded, color));
        }
        match self.fetch.error() {
            Some(e) => {
                let mut text = concat3(
                    "Fujitsu SEL decode for record 0x",
                    hex_text(self.ids[self.index] as u64, 4).as_str(),
                    " failed: ",
                );
                text.append(e.as_str());
                crate::dialog::failed_step(text)
            }
            None => {
                let mut lines: Vec<String> = Vec::new();
                if self.debug && self.fetch.first.is_none() {
                    push_text(&mut lines, self.fetch.request_line());
                }
                proof {
                    assert(texts(lines@) =~= self@.current(color).lines);
                }
                match self.fetch.request() {
                    Some(request) => Step { lines, action: Action::Send(request) },
                    None => Step { lines, action: Action::Abort },
                }
            }
        }
    }

    /// Advances the translation with the reply to its request, and says what
    /// the debug output shows of it.
    pub fn advance(self, reply: Reply) -> (r: (DecodeSel, Vec<String>))
        requires
            self@.wf(),
        ensures
            r.0@ == self@.next(reply_view(reply)),
            r.0@.wf(),
            texts(r.1@) == if self@.index < self@.ids.len() {
                self@.fetch.shown(reply_view(reply))
            } else {
                seq![]
            },
    {
        let DecodeSel { ids, index, debug, fetch, decoded } = self;
        if index >= ids.len() {
            let lines: Vec<String> = Vec::new();
            proof {
                assert(texts(lines@) =~= seq![]);
            }
            return (DecodeSel { ids, index, debug, fetch, decoded }, lines);
        }
        let (fetch, lines) = fetch.advance(reply);
        match fetch.finish() {
            None => (DecodeSel { ids, index, debug, fetch, decoded }, lines),
            Some(entry) => {
                let mut decoded = decoded;
                decoded.push(entry);
                proof {
                    assert(decoded_views(decoded@) =~= self@.decoded.push(entry@));
                }
                let index: usize = index + 1;
                let id: u16 = if index < ids.len() {
                    ids[index]
                } else {
                    0
                };
                (DecodeSel { ids, index, debug, fetch: LongText::new(id, debug), decoded }, lines)
            }
        }
    }
}

} // verus!
