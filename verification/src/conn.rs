//! Requests and replies, and the walk over the SDR repository.

use std::collections::HashSet;

use vstd::prelude::*;

use crate::bytes::{copy_range, high_byte, le16, low_byte, u16_high, u16_le, u16_low};
use crate::sdr::{
    all_wf, is_decodable, record_of, record_views, undecodable, well_framed, Record, RecordView,
};
use crate::text::{dec, dec_text, hex, hex_text, Chars};

verus! {

/// The network functions that the commands use.
pub const NETFN_SENSOR_EVENT: u8 = 0x04;

pub const NETFN_APP: u8 = 0x06;

pub const NETFN_STORAGE: u8 = 0x0A;

pub const CMD_RESERVE_SDR_REPOSITORY: u8 = 0x22;

pub const CMD_GET_SDR: u8 = 0x23;

pub const CC_CANNOT_RETURN_REQUESTED_BYTES: u8 = 0xCA;

pub const SDR_HEADER_LEN: usize = 5;

pub const INITIAL_SDR_CHUNK_SIZE: usize = 32;

/// How the user asked us to reach the BMC.
pub enum Target {
    /// Local kernel device, e.g. `/dev/ipmi0`.
    Device(String),
    /// Remote LAN session.
    Lan { address: String, username: String, password: String },
}

/// Whom a request is addressed to.
#[derive(Clone, Copy, Debug, PartialEq, Eq, Structural)]
pub enum Recipient {
    /// The BMC itself, logical unit 0.
    Bmc,
    /// The BMC or another controller on the IPMB.
    BmcOrIpmb { address: u8, channel: u8, lun: u8 },
}

/// A request to a controller.
#[derive(Debug)]
pub struct Request {
    pub netfn: u8,
    pub cmd: u8,
    pub data: Vec<u8>,
    pub recipient: Recipient,
}

/// What a request asks.
pub ghost struct RequestView {
    pub netfn: u8,
    pub cmd: u8,
    pub data: Seq<u8>,
    pub recipient: Recipient,
}

impl View for Request {
    type V = RequestView;

    open spec fn view(&self) -> RequestView {
        RequestView {
            netfn: self.netfn,
            cmd: self.cmd,
            data: self.data@,
            recipient: self.recipient,
        }
    }
}

/// A request to the BMC.
pub open spec fn bmc_request(netfn: u8, cmd: u8, data: Seq<u8>) -> RequestView {
    RequestView { netfn, cmd, data, recipient: Recipient::Bmc }
}

/// A request to the BMC (logical unit 0).
pub fn request_to_bmc(netfn: u8, cmd: u8, data: Vec<u8>) -> (r: Request)
    ensures
        r@ == bmc_request(netfn, cmd, data@),
{
    Request { netfn, cmd, data, recipient: Recipient::Bmc }
}

/// A controller's response: a completion code and data.
#[derive(Debug)]
pub struct Response {
    pub cc: u8,
    pub data: Vec<u8>,
}

/// What a response says.
pub ghost struct ResponseView {
    pub cc: u8,
    pub data: Seq<u8>,
}

impl View for Response {
    type V = ResponseView;

    open spec fn view(&self) -> ResponseView {
        ResponseView { cc: self.cc, data: self.data@ }
    }
}

/// What came back for a request: a response, or why there was none.
pub type Reply = Result<Response, String>;

/// What a reply says.
pub open spec fn reply_view(reply: Reply) -> Result<ResponseView, Chars> {
    match reply {
        Ok(response) => Ok(response@),
        Err(e) => Err(e@),
    }
}

/// How a completion code is reported.
pub open spec fn completion(cc: u8) -> Chars {
    "completion code 0x"@ + hex(cc as nat, 2)
}

pub fn completion_text(cc: u8) -> (s: String)
    ensures
        s@ == completion(cc),
{
    let mut s = String::from_str("completion code 0x");
    s.append(hex_text(cc as u64, 2).as_str());
    s
}

/// `first` followed by `second`.
pub fn concat2(first: &str, second: &str) -> (s: String)
    ensures
        s@ == first@ + second@,
{
    let mut s = String::from_str(first);
    s.append(second);
    s
}

/// `first`, `second` and `third` one after another.
pub fn concat3(first: &str, second: &str, third: &str) -> (s: String)
    ensures
        s@ == first@ + second@ + third@,
{
    let mut s = String::from_str(first);
    s.append(second);
    s.append(third);
    s
}

/// An error unless the completion code is zero.
pub open spec fn checked(cc: u8, operation: Chars) -> Result<(), Chars> {
    if cc == 0 {
        Ok(())
    } else {
        Err(operation + ": "@ + completion(cc))
    }
}

pub fn check(cc: u8, operation: &str) -> (r: Result<(), String>)
    ensures
        match r {
            Ok(_) => checked(cc, operation@) is Ok,
            Err(e) => checked(cc, operation@) == Err::<(), Chars>(e@),
        },
{
    if cc == 0 {
        Ok(())
    } else {
        Err(concat3(operation, ": ", completion_text(cc).as_str()))
    }
}

// ---------------------------------------------------------------------
// Get SDR
// ---------------------------------------------------------------------

/// The data of a Get SDR request.
pub open spec fn sdr_request_data(reservation: u16, record_id: u16, offset: u8, count: u8) -> Seq<
    u8,
> {
    seq![
        low_byte(reservation),
        high_byte(reservation),
        low_byte(record_id),
        high_byte(record_id),
        offset,
        count,
    ]
}

pub fn sdr_request(reservation: u16, record_id: u16, offset: u8, count: u8) -> (request: Vec<u8>)
    ensures
        request@ == sdr_request_data(reservation, record_id, offset, count),
{
    let mut request: Vec<u8> = Vec::new();
    request.push(u16_low(reservation));
    request.push(u16_high(reservation));
    request.push(u16_low(record_id));
    request.push(u16_high(record_id));
    request.push(offset);
    request.push(count);
    proof {
        assert(request@ =~= sdr_request_data(reservation, record_id, offset, count));
    }
    request
}

/// A piece of a record and the ID of the record after it.
#[derive(Debug)]
pub struct SdrRead {
    pub next_id: u16,
    pub data: Vec<u8>,
}

/// `Get SDR 0x....` followed by what is said of it.
pub open spec fn of_sdr(record_id: u16, tail: Chars) -> Chars {
    "Get SDR 0x"@ + hex(record_id as nat, 4) + tail
}

fn of_sdr_text(record_id: u16, tail: &str) -> (s: String)
    ensures
        s@ == of_sdr(record_id, tail@),
{
    concat3("Get SDR 0x", hex_text(record_id as u64, 4).as_str(), tail)
}

/// The next record's ID and the record data in the data of a Get SDR response.
pub open spec fn sdr_response(record_id: u16, response: Seq<u8>) -> Result<(u16, Seq<u8>), Chars> {
    if response.len() < 2 {
        Err(of_sdr(record_id, " returned a short response"@))
    } else {
        Ok((le16(response[0], response[1]), response.skip(2)))
    }
}

pub fn parse_sdr_response(record_id: u16, response: &[u8]) -> (r: Result<SdrRead, String>)
    ensures
        match r {
            Ok(read) => sdr_response(record_id, response@) == Ok::<(u16, Seq<u8>), Chars>(
                (read.next_id, read.data@),
            ),
            Err(e) => sdr_response(record_id, response@) == Err::<(u16, Seq<u8>), Chars>(e@),
        },
{
    if response.len() < 2 {
        return Err(of_sdr_text(record_id, " returned a short response"));
    }
    let data = copy_range(response, 2, response.len());
    proof {
        assert(data@ =~= response@.skip(2));
    }
    Ok(SdrRead { next_id: u16_le(response[0], response[1]), data })
}

/// Whether a record with ID `actual` answers a request for `requested`: ID 0
/// selects the first record, whatever its ID.
pub open spec fn sdr_id_answers(requested: u16, actual: u16) -> bool {
    requested == 0 || requested == actual
}

pub fn sdr_record_id_matches(requested: u16, actual: u16) -> (r: bool)
    ensures
        r == sdr_id_answers(requested, actual),
{
    requested == 0 || requested == actual
}

// ---------------------------------------------------------------------
// The walk over the repository
// ---------------------------------------------------------------------

/// A reservation, and the largest piece that is asked for under it.
#[derive(Clone, Copy, Debug, PartialEq, Eq, Structural)]
pub struct ChunkedSdrRead {
    pub reservation: u16,
    pub chunk_size: usize,
}

/// What the walk is waiting for.
enum ScanPhase {
    Full,
    Reserve,
    Header,
    Body { next_id: u16, total: usize, data: Vec<u8>, requested: usize },
    Complete,
    Failed(String),
    Undecodable,
}

/// Collects the SDR repository while rejecting repeated record IDs.
///
/// Normally each record is requested in one operation. Some BMCs (notably Cisco
/// CIMC) reject the conventional `bytes to read = 0xFF` request with completion
/// code 0xCA. Only in that case, the repository is reserved and the rest of the
/// walk uses bounded reads.
pub struct SdrScan {
    records: Vec<Record>,
    seen: HashSet<u16>,
    record_id: u16,
    chunked: Option<ChunkedSdrRead>,
    phase: ScanPhase,
}

/// What the walk is waiting for.
pub ghost enum ScanPhaseView {
    /// The reply to a request for the whole record.
    Full,
    /// The reply to a reservation.
    Reserve,
    /// The reply to a request for the record's header.
    Header,
    /// The reply to a request for more of the record.
    Body { next_id: u16, total: nat, data: Seq<u8>, requested: nat },
    /// Nothing: every record was read.
    Complete,
    /// Nothing: the walk failed.
    Failed(Chars),
    /// Nothing: a record came that cannot be handed to the decoder.
    Undecodable,
}

/// How far the walk has come: the records read, the IDs requested, the record
/// being read, and the reservation once there is one.
pub ghost struct ScanView {
    pub records: Seq<RecordView>,
    pub seen: Set<u16>,
    pub record_id: u16,
    pub chunked: Option<ChunkedSdrRead>,
    pub phase: ScanPhaseView,
}

impl View for SdrScan {
    type V = ScanView;

    closed spec fn view(&self) -> ScanView {
        ScanView {
            records: record_views(self.records@),
            seen: self.seen@,
            record_id: self.record_id,
            chunked: self.chunked,
            phase: match self.phase {
                ScanPhase::Full => ScanPhaseView::Full,
                ScanPhase::Reserve => ScanPhaseView::Reserve,
                ScanPhase::Header => ScanPhaseView::Header,
                ScanPhase::Body { next_id, total, data, requested } => ScanPhaseView::Body {
                    next_id,
                    total: total as nat,
                    data: data@,
                    requested: requested as nat,
                },
                ScanPhase::Complete => ScanPhaseView::Complete,
                ScanPhase::Failed(e) => ScanPhaseView::Failed(e@),
                ScanPhase::Undecodable => ScanPhaseView::Undecodable,
            },
        }
    }
}

/// The IDs under which records were requested: the first one by the selector 0,
/// each other one by its own ID.
pub open spec fn ids_requested(records: Seq<RecordView>) -> Seq<u16> {
    Seq::new(
        records.len(),
        |i: int|
            if i == 0 {
                0
            } else {
                records[i].id
            },
    )
}

/// With one more ID in a list there is one more in its set.
proof fn lemma_one_more(ids: Seq<u16>, id: u16)
    ensures
        ids.push(id).to_set() == ids.to_set().insert(id),
        ids.no_duplicates() && !ids.contains(id) ==> ids.push(id).no_duplicates(),
{
    let longer = ids.push(id);
    assert forall|x: u16| longer.contains(x) == (ids.contains(x) || x == id) by {
        if ids.contains(x) {
            let i = choose|i: int| 0 <= i < ids.len() && ids[i] == x;
            assert(longer[i] == x);
        }
        assert(longer[ids.len() as int] == id);
    }
    assert(longer.to_set() =~= ids.to_set().insert(id));
}

/// A record that answers its request adds the ID that was requested.
proof fn lemma_answered(s: ScanView, record: RecordView)
    requires
        s.wf(),
        s.is_waiting(),
        sdr_id_answers(s.record_id, record.id),
    ensures
        ids_requested(s.records.push(record)) == ids_requested(s.records).push(s.record_id),
        ids_requested(s.records.push(record)).no_duplicates(),
        ids_requested(s.records.push(record)).to_set() == s.seen,
{
    if s.records.len() > 0 {
        assert(ids_requested(s.records)[0] == 0);
    }
    assert(ids_requested(s.records.push(record)) =~= ids_requested(s.records).push(s.record_id));
    lemma_one_more(ids_requested(s.records), s.record_id);
}

impl ScanView {
    /// The walk before its first request.
    pub open spec fn start() -> ScanView {
        ScanView {
            records: seq![],
            seen: Set::empty(),
            record_id: 0,
            chunked: None,
            phase: ScanPhaseView::Full,
        }.reading(0)
    }

    pub open spec fn failed(self, e: Chars) -> ScanView {
        ScanView { phase: ScanPhaseView::Failed(e), ..self }
    }

    /// The walk about to read record `id`: over at ID 0xFFFF, failed at an ID
    /// that was read before.
    pub open spec fn reading(self, id: u16) -> ScanView {
        let here = ScanView { record_id: id, ..self };
        if id == 0xFFFF {
            ScanView { phase: ScanPhaseView::Complete, ..here }
        } else if self.seen.contains(id) {
            here.failed("SDR repository cycle detected at record 0x"@ + hex(id as nat, 4))
        } else {
            ScanView {
                seen: self.seen.insert(id),
                phase: if self.chunked is Some {
                    ScanPhaseView::Header
                } else {
                    ScanPhaseView::Full
                },
                ..here
            }
        }
    }

    /// The walk after the bytes of the current record are complete.
    pub open spec fn with_record(self, next_id: u16, data: Seq<u8>) -> ScanView {
        if undecodable(data) {
            ScanView { phase: ScanPhaseView::Undecodable, ..self }
        } else {
            match record_of(data) {
                Err(e) => self.failed(
                    "failed to parse SDR record 0x"@ + hex(self.record_id as nat, 4) + ": "@ + e,
                ),
                Ok(record) => if sdr_id_answers(self.record_id, record.id) {
                    ScanView { records: self.records.push(record), ..self }.reading(next_id)
                } else {
                    self.failed(
                        "SDR record ID mismatch: requested 0x"@ + hex(self.record_id as nat, 4)
                            + ", received 0x"@ + hex(record.id as nat, 4),
                    )
                },
            }
        }
    }

    /// `Get SDR 0x.... at offset N failed: ...`.
    pub open spec fn failed_at(self, offset: nat, e: Chars) -> ScanView {
        self.failed(of_sdr(self.record_id, " at offset "@ + dec(offset) + " failed: "@ + e))
    }

    /// The walk with the given bytes of the current record: complete, or
    /// waiting for as many more as a piece may hold.
    pub open spec fn with_bytes(self, next_id: u16, total: nat, data: Seq<u8>) -> ScanView {
        if data.len() >= total {
            self.with_record(next_id, data.take(total as int))
        } else {
            let left = (total - data.len()) as nat;
            let most = self.chunked->0.chunk_size as nat;
            ScanView {
                phase: ScanPhaseView::Body {
                    next_id,
                    total,
                    data,
                    requested: if left < most {
                        left
                    } else {
                        most
                    },
                },
                ..self
            }
        }
    }

    /// The walk after the reply to a request for the whole record.
    pub open spec fn after_full(self, reply: Result<ResponseView, Chars>) -> ScanView {
        match reply {
            Err(e) => self.failed(of_sdr(self.record_id, " failed: "@ + e)),
            Ok(response) => if response.cc == CC_CANNOT_RETURN_REQUESTED_BYTES {
                ScanView { phase: ScanPhaseView::Reserve, ..self }
            } else if response.cc != 0 {
                self.failed(of_sdr(self.record_id, " failed: "@ + completion(response.cc)))
            } else {
                match sdr_response(self.record_id, response.data) {
                    Err(e) => self.failed(e),
                    Ok((next_id, data)) => self.with_record(next_id, data),
                }
            },
        }
    }

    /// The walk after the reply to a reservation.
    pub open spec fn after_reserve(self, reply: Result<ResponseView, Chars>) -> ScanView {
        match reply {
            Err(e) => self.failed("Reserve SDR Repository failed: "@ + e),
            Ok(response) => if response.cc != 0 {
                self.failed("Reserve SDR Repository failed: "@ + completion(response.cc))
            } else if response.data.len() < 2 {
                self.failed("Reserve SDR Repository returned a short response"@)
            } else {
                ScanView {
                    chunked: Some(
                        ChunkedSdrRead {
                            reservation: le16(response.data[0], response.data[1]),
                            chunk_size: INITIAL_SDR_CHUNK_SIZE,
                        },
                    ),
                    phase: ScanPhaseView::Header,
                    ..self
                }
            },
        }
    }

    /// The walk after the reply to a request for the record's header.
    pub open spec fn after_header(self, reply: Result<ResponseView, Chars>) -> ScanView {
        match reply {
            Err(e) => self.failed_at(0, e),
            Ok(response) => if response.cc != 0 {
                self.failed_at(0, completion(response.cc))
            } else {
                match sdr_response(self.record_id, response.data) {
                    Err(e) => self.failed(e),
                    Ok((next_id, data)) => if data.len() != SDR_HEADER_LEN {
                        self.failed(
                            of_sdr(
                                self.record_id,
                                " returned "@ + dec(data.len()) + " header bytes, expected 5"@,
                            ),
                        )
                    } else {
                        self.with_bytes(next_id, (SDR_HEADER_LEN + data[4]) as nat, data)
                    },
                }
            },
        }
    }

    /// The walk after the reply to a request for more of the record.
    pub open spec fn after_body(
        self,
        next_id: u16,
        total: nat,
        data: Seq<u8>,
        requested: nat,
        reply: Result<ResponseView, Chars>,
    ) -> ScanView {
        match reply {
            Err(e) => self.failed_at(data.len(), e),
            Ok(response) => if response.cc == CC_CANNOT_RETURN_REQUESTED_BYTES && requested > 1 {
                let smaller = requested / 2;
                let state = self.chunked->0;
                ScanView {
                    chunked: Some(
                        ChunkedSdrRead {
                            reservation: state.reservation,
                            chunk_size: if state.chunk_size as nat <= smaller {
                                state.chunk_size
                            } else {
                                smaller as usize
                            },
                        },
                    ),
                    phase: ScanPhaseView::Body { next_id, total, data, requested: smaller },
                    ..self
                }
            } else if response.cc != 0 {
                self.failed_at(data.len(), completion(response.cc))
            } else {
                match sdr_response(self.record_id, response.data) {
                    Err(e) => self.failed(e),
                    Ok((next, more)) => if next != next_id {
                        self.failed(
                            "SDR repository changed while reading record 0x"@ + hex(
                                self.record_id as nat,
                                4,
                            ),
                        )
                    } else if more.len() == 0 {
                        self.failed(
                            of_sdr(self.record_id, " returned no data at offset "@ + dec(data.len())),
                        )
                    } else {
                        self.with_bytes(next_id, total, data + more)
                    },
                }
            },
        }
    }

    /// The walk after a reply. A walk that is over stays as it is.
    pub open spec fn next(self, reply: Result<ResponseView, Chars>) -> ScanView {
        match self.phase {
            ScanPhaseView::Full => self.after_full(reply),
            ScanPhaseView::Reserve => self.after_reserve(reply),
            ScanPhaseView::Header => self.after_header(reply),
            ScanPhaseView::Body { next_id, total, data, requested } => self.after_body(
                next_id,
                total,
                data,
                requested,
                reply,
            ),
            _ => self,
        }
    }

    /// The request whose reply the walk is waiting for.
    pub open spec fn request(self) -> Option<RequestView> {
        match self.phase {
            ScanPhaseView::Full => Some(
                bmc_request(
                    NETFN_STORAGE,
                    CMD_GET_SDR,
                    sdr_request_data(0, self.record_id, 0, 0xFF),
                ),
            ),
            ScanPhaseView::Reserve => Some(
                bmc_request(NETFN_STORAGE, CMD_RESERVE_SDR_REPOSITORY, seq![]),
            ),
            ScanPhaseView::Header => Some(
                bmc_request(
                    NETFN_STORAGE,
                    CMD_GET_SDR,
                    sdr_request_data(
                        self.chunked->0.reservation,
                        self.record_id,
                        0,
                        SDR_HEADER_LEN as u8,
                    ),
                ),
            ),
            ScanPhaseView::Body { next_id, total, data, requested } => Some(
                bmc_request(
                    NETFN_STORAGE,
                    CMD_GET_SDR,
                    sdr_request_data(
                        self.chunked->0.reservation,
                        self.record_id,
                        (data.len() % 256) as u8,
                        requested as u8,
                    ),
                ),
            ),
            _ => None,
        }
    }

    /// What holds between two records: the IDs under which the records were
    /// requested are distinct and were seen, the records decode again, and
    /// pieces are neither empty nor larger than the first piece size.
    pub open spec fn sound(self) -> bool {
        &&& all_wf(self.records)
        &&& self.seen.finite()
        &&& ids_requested(self.records).no_duplicates()
        &&& ids_requested(self.records).to_set().subset_of(self.seen)
        &&& self.chunked is Some ==> 1 <= self.chunked->0.chunk_size <= INITIAL_SDR_CHUNK_SIZE
    }

    /// Whether the walk is waiting for a reply.
    pub open spec fn is_waiting(self) -> bool {
        !(self.phase is Complete) && !(self.phase is Failed) && !(self.phase is Undecodable)
    }

    /// What holds of every walk: besides the above, the record being read was not
    /// read before and the first one is requested as 0, nothing else was
    /// requested, pieces are only asked for under a reservation, and at the end
    /// there is one record for every ID that was requested.
    pub open spec fn wf(self) -> bool {
        &&& self.sound()
        &&& self.phase is Complete ==> self.seen == ids_requested(self.records).to_set()
        &&& self.is_waiting() ==> {
            &&& !ids_requested(self.records).contains(self.record_id)
            &&& self.seen == ids_requested(self.records).to_set().insert(self.record_id)
            &&& self.records.len() == 0 ==> self.record_id == 0
        }
        &&& match self.phase {
            ScanPhaseView::Header => self.chunked is Some,
            ScanPhaseView::Body { next_id, total, data, requested } => {
                &&& self.chunked is Some
                &&& SDR_HEADER_LEN <= data.len() < total <= SDR_HEADER_LEN + 255
                &&& 1 <= requested <= INITIAL_SDR_CHUNK_SIZE
                &&& requested <= total - data.len()
            },
            _ => true,
        }
    }

    /// How many replies the walk can still take at most, as a bound that every
    /// reply lowers.
    pub open spec fn rank(self) -> int {
        let later = (0x10000 - self.seen.len()) * 20000;
        match self.phase {
            ScanPhaseView::Full => later + 19999,
            ScanPhaseView::Reserve => later + 19998,
            ScanPhaseView::Header => later + 19997,
            ScanPhaseView::Body { next_id, total, data, requested } => later + (total - data.len())
                * 64 + requested,
            _ => -1,
        }
    }
}

impl SdrScan {
    /// Begins the walk at the first record.
    pub fn new() -> (scan: SdrScan)
        ensures
            scan@ == ScanView::start(),
            scan@.wf(),
    {
        let scan = SdrScan {
            records: Vec::new(),
            seen: HashSet::new(),
            record_id: 0,
            chunked: None,
            phase: ScanPhase::Full,
        };
        proof {
            assert(scan@.records =~= seq![]);
            assert(ids_requested(scan@.records) =~= seq![]);
            assert(scan@.seen =~= ids_requested(scan@.records).to_set());
        }
        scan.reading(0)
    }

    /// The request whose reply the walk is waiting for; none once it is over.
    pub fn request(&self) -> (r: Option<Request>)
        requires
            self@.wf(),
        ensures
            match r {
                Some(request) => self@.request() == Some(request@),
                None => self@.request() is None,
            },
    {
        let reservation: u16 = match &self.chunked {
            Some(state) => state.reservation,
            None => 0,
        };
        match &self.phase {
            ScanPhase::Full => Some(
                request_to_bmc(NETFN_STORAGE, CMD_GET_SDR, sdr_request(0, self.record_id, 0, 0xFF)),
            ),
            ScanPhase::Reserve => {
                let data: Vec<u8> = Vec::new();
                Some(request_to_bmc(NETFN_STORAGE, CMD_RESERVE_SDR_REPOSITORY, data))
            }
            ScanPhase::Header => Some(
                request_to_bmc(
                    NETFN_STORAGE,
                    CMD_GET_SDR,
                    sdr_request(reservation, self.record_id, 0, SDR_HEADER_LEN as u8),
                ),
            ),
            ScanPhase::Body { next_id: _, total: _, data, requested } => Some(
                request_to_bmc(
                    NETFN_STORAGE,
                    CMD_GET_SDR,
                    sdr_request(
                        reservation,
                        self.record_id,
                        (data.len() % 256) as u8,
                        *requested as u8,
                    ),
                ),
            ),
            _ => None,
        }
    }

    /// Why the walk failed, if it did.
    pub fn error(&self) -> (r: Option<String>)
        ensures
            match r {
                Some(e) => self@.phase == ScanPhaseView::Failed(e@),
                None => !(self@.phase is Failed),
            },
    {
        match &self.phase {
            ScanPhase::Failed(e) => Some(e.clone()),
            _ => None,
        }
    }

    /// Whether the walk stopped at a record that cannot be decoded.
    pub fn is_undecodable(&self) -> (r: bool)
        ensures
            r == (self@.phase is Undecodable),
    {
        matches!(&self.phase, ScanPhase::Undecodable)
    }

    /// The records read so far.
    pub fn into_records(self) -> (records: Vec<Record>)
        ensures
            record_views(records@) == self@.records,
    {
        self.records
    }

    fn fail(self, e: String) -> (scan: SdrScan)
        requires
            self@.wf(),
        ensures
            scan@ == self@.failed(e@),
            scan@.wf(),
    {
        let mut scan = self;
        scan.phase = ScanPhase::Failed(e);
        scan
    }

    fn fail_at(self, offset: usize, e: &str) -> (scan: SdrScan)
        requires
            self@.wf(),
        ensures
            scan@ == self@.failed_at(offset as nat, e@),
            scan@.wf(),
    {
        let mut tail = concat3(" at offset ", dec_text(offset as u64).as_str(), " failed: ");
        tail.append(e);
        let text = of_sdr_text(self.record_id, tail.as_str());
        self.fail(text)
    }

    fn reading(self, id: u16) -> (scan: SdrScan)
        requires
            self@.sound(),
            self@.seen == ids_requested(self@.records).to_set(),
            self@.records.len() == 0 ==> id == 0,
        ensures
            scan@ == self@.reading(id),
            scan@.wf(),
    {
        let mut scan = self;
        scan.record_id = id;
        if id == 0xFFFF {
            scan.phase = ScanPhase::Complete;
            scan
        } else if scan.seen.contains(&id) {
            let text = concat2(
                "SDR repository cycle detected at record 0x",
                hex_text(id as u64, 4).as_str(),
            );
            scan.phase = ScanPhase::Failed(text);
            scan
        } else {
            scan.seen.insert(id);
            scan.phase = if scan.chunked.is_some() {
                ScanPhase::Header
            } else {
                ScanPhase::Full
            };
            scan
        }
    }

    fn with_record(self, next_id: u16, data: Vec<u8>) -> (scan: SdrScan)
        requires
            self@.wf(),
            self@.is_waiting(),
        ensures
            scan@ == self@.with_record(next_id, data@),
            scan@.wf(),
    {
        let mut scan = self;
        if !is_decodable(data.as_slice()) {
            scan.phase = ScanPhase::Undecodable;
            return scan;
        }
        let id_text = hex_text(scan.record_id as u64, 4);
        match Record::parse(data.as_slice()) {
            Err(e) => {
                let mut text = concat3("failed to parse SDR record 0x", id_text.as_str(), ": ");
                text.append(e.as_str());
                scan.fail(text)
            }
            Ok(record) => {
                if sdr_record_id_matches(scan.record_id, record.id) {
                    scan.records.push(record);
                    proof {
                        assert(scan@.records =~= self@.records.push(record@));
                        lemma_answered(self@, record@);
                    }
                    scan.reading(next_id)
                } else {
                    let mut text = concat3(
                        "SDR record ID mismatch: requested 0x",
                        id_text.as_str(),
                        ", received 0x",
                    );
                    text.append(hex_text(record.id as u64, 4).as_str());
                    scan.fail(text)
                }
            }
        }
    }

    fn with_bytes(self, next_id: u16, total: usize, data: Vec<u8>) -> (scan: SdrScan)
        requires
            self@.wf(),
            self@.is_waiting(),
            self@.chunked is Some,
            SDR_HEADER_LEN <= data@.len(),
            total <= SDR_HEADER_LEN + 255,
        ensures
            scan@ == self@.with_bytes(next_id, total as nat, data@),
            scan@.wf(),
    {
        if data.len() >= total {
            let whole = copy_range(data.as_slice(), 0, total);
            proof {
                assert(whole@ =~= data@.take(total as int));
            }
            return self.with_record(next_id, whole);
        }
        let left: usize = total - data.len();
        let mut scan = self;
        let most: usize = match &scan.chunked {
            Some(state) => state.chunk_size,
            None => 0,
        };
        let requested: usize = if left < most {
            left
        } else {
            most
        };
        scan.phase = ScanPhase::Body { next_id, total, data, requested };
        scan
    }

    fn after_full(self, reply: Reply) -> (scan: SdrScan)
        requires
            self@.wf(),
            self@.is_waiting(),
        ensures
            scan@ == self@.after_full(reply_view(reply)),
            scan@.wf(),
    {
        let id: u16 = self.record_id;
        match reply {
            Err(e) => {
                let text = of_sdr_text(id, concat2(" failed: ", e.as_str()).as_str());
                self.fail(text)
            }
            Ok(response) => {
                if response.cc == CC_CANNOT_RETURN_REQUESTED_BYTES {
                    let mut scan = self;
                    scan.phase = ScanPhase::Reserve;
                    scan
                } else if response.cc != 0 {
                    let tail = concat2(" failed: ", completion_text(response.cc).as_str());
                    self.fail(of_sdr_text(id, tail.as_str()))
                } else {
                    match parse_sdr_response(id, response.data.as_slice()) {
                        Err(e) => self.fail(e),
                        Ok(read) => self.with_record(read.next_id, read.data),
                    }
                }
            }
        }
    }

    fn after_reserve(self, reply: Reply) -> (scan: SdrScan)
        requires
            self@.wf(),
            self@.is_waiting(),
        ensures
            scan@ == self@.after_reserve(reply_view(reply)),
            scan@.wf(),
    {
        match reply {
            Err(e) => self.fail(concat2("Reserve SDR Repository failed: ", e.as_str())),
            Ok(response) => {
                if response.cc != 0 {
                    self.fail(
                        concat2(
                            "Reserve SDR Repository failed: ",
                            completion_text(response.cc).as_str(),
                        ),
                    )
                } else if response.data.len() < 2 {
                    self.fail("Reserve SDR Repository returned a short response".to_owned())
                } else {
                    let mut scan = self;
                    scan.chunked = Some(
                        ChunkedSdrRead {
                            reservation: u16_le(response.data[0], response.data[1]),
                            chunk_size: INITIAL_SDR_CHUNK_SIZE,
                        },
                    );
                    scan.phase = ScanPhase::Header;
                    scan
                }
            }
        }
    }

    fn after_header(self, reply: Reply) -> (scan: SdrScan)
        requires
            self@.wf(),
            self@.is_waiting(),
            self@.chunked is Some,
        ensures
            scan@ == self@.after_header(reply_view(reply)),
            scan@.wf(),
    {
        let id: u16 = self.record_id;
        match reply {
            Err(e) => self.fail_at(0, e.as_str()),
            Ok(response) => {
                if response.cc != 0 {
                    return self.fail_at(0, completion_text(response.cc).as_str());
                }
                match parse_sdr_response(id, response.data.as_slice()) {
                    Err(e) => self.fail(e),
                    Ok(read) => {
                        if read.data.len() != SDR_HEADER_LEN {
                            let tail = concat3(
                                " returned ",
                                dec_text(read.data.len() as u64).as_str(),
                                " header bytes, expected 5",
                            );
                            self.fail(of_sdr_text(id, tail.as_str()))
                        } else {
                            let total: usize = SDR_HEADER_LEN + read.data[4] as usize;
                            self.with_bytes(read.next_id, total, read.data)
                        }
                    }
                }
            }
        }
    }

    fn after_body(
        self,
        next_id: u16,
        total: usize,
        data: Vec<u8>,
        requested: usize,
        reply: Reply,
    ) -> (scan: SdrScan)
        requires
            self@.wf(),
            self@.is_waiting(),
            self@.chunked is Some,
            SDR_HEADER_LEN <= data@.len() < total <= SDR_HEADER_LEN + 255,
            1 <= requested <= INITIAL_SDR_CHUNK_SIZE,
            requested <= total - data@.len(),
        ensures
            scan@ == self@.after_body(
                next_id,
                total as nat,
                data@,
                requested as nat,
                reply_view(reply),
            ),
            scan@.wf(),
    {
        let id: u16 = self.record_id;
        match reply {
            Err(e) => self.fail_at(data.len(), e.as_str()),
            Ok(response) => {
                if response.cc == CC_CANNOT_RETURN_REQUESTED_BYTES && requested > 1 {
                    let smaller: usize = requested / 2;
                    let mut scan = self;
                    scan.chunked = match scan.chunked {
                        Some(state) => Some(
                            ChunkedSdrRead {
                                reservation: state.reservation,
                                chunk_size: if state.chunk_size <= smaller {
                                    state.chunk_size
                                } else {
                                    smaller
                                },
                            },
                        ),
                        None => None,
                    };
                    scan.phase = ScanPhase::Body { next_id, total, data, requested: smaller };
                    return scan;
                }
                if response.cc != 0 {
                    return self.fail_at(data.len(), completion_text(response.cc).as_str());
                }
                match parse_sdr_response(id, response.data.as_slice()) {
                    Err(e) => self.fail(e),
                    Ok(read) => {
                        if read.next_id != next_id {
                            self.fail(
                                concat2(
                                    "SDR repository changed while reading record 0x",
                                    hex_text(id as u64, 4).as_str(),
                                ),
                            )
                        } else if read.data.len() == 0 {
                            let tail = concat2(
                                " returned no data at offset ",
                                dec_text(data.len() as u64).as_str(),
                            );
                            self.fail(of_sdr_text(id, tail.as_str()))
                        } else {
                            let mut whole = data;
                            let mut more = read.data;
                            whole.append(&mut more);
                            self.with_bytes(next_id, total, whole)
                        }
                    }
                }
            }
        }
    }

    /// Advances the walk with the reply to its request.
    pub fn advance(self, reply: Reply) -> (scan: SdrScan)
        requires
            self@.wf(),
        ensures
            scan@ == self@.next(reply_view(reply)),
            scan@.wf(),
    {
        let SdrScan { records, seen, record_id, chunked, phase } = self;
        match phase {
            ScanPhase::Full => {
                let scan = SdrScan { records, seen, record_id, chunked, phase: ScanPhase::Full };
                scan.after_full(reply)
            }
            ScanPhase::Reserve => {
                let scan = SdrScan { records, seen, record_id, chunked, phase: ScanPhase::Reserve };
                scan.after_reserve(reply)
            }
            ScanPhase::Header => {
                let scan = SdrScan { records, seen, record_id, chunked, phase: ScanPhase::Header };
                scan.after_header(reply)
            }
            ScanPhase::Body { next_id, total, data, requested } => {
                let scan = SdrScan { records, seen, record_id, chunked, phase: ScanPhase::Full };
                scan.after_body(next_id, total, data, requested, reply)
            }
            over => SdrScan { records, seen, record_id, chunked, phase: over },
        }
    }
}

// ---------------------------------------------------------------------
// Laws of the walk
// ---------------------------------------------------------------------

/// There are no more record IDs in a set than there are IDs.
pub proof fn lemma_distinct_ids(ids: Set<u16>)
    requires
        ids.finite(),
    ensures
        ids.len() <= 0x10000,
{
    let worth = |id: u16| id as int;
    let range = vstd::set_lib::set_int_range(0, 0x10000);
    vstd::set_lib::lemma_int_range(0, 0x10000);
    vstd::set_lib::lemma_map_size(ids, ids.map(worth), worth);
    assert(ids.map(worth).subset_of(range));
    vstd::set_lib::lemma_len_subset(ids.map(worth), range);
}

/// The walk ends: every reply lowers a bound on the replies that it can still
/// take, whatever the controller answers.
pub proof fn law_scan_ends(s: ScanView, reply: Result<ResponseView, Chars>)
    requires
        s.wf(),
        s.is_waiting(),
    ensures
        s.rank() >= 0,
        s.next(reply).rank() < s.rank(),
{
    let n = s.next(reply);
    lemma_distinct_ids(s.seen);
    law_scan_stays_sound(s, reply);
    lemma_distinct_ids(n.seen);
}

proof fn lemma_starts_sound()
    ensures
        ScanView::start().wf(),
{
    let none = ids_requested(seq![]);
    assert(none =~= seq![]);
    assert(ScanView::start().seen =~= none.to_set().insert(0));
}

/// Every state that the walk reaches is well formed: whatever the controller
/// answers, no ID is requested twice and every record answers its request.
pub proof fn law_scan_stays_sound(s: ScanView, reply: Result<ResponseView, Chars>)
    requires
        s.wf(),
    ensures
        ScanView::start().wf(),
        s.next(reply).wf(),
{
    lemma_starts_sound();
    let n = s.next(reply);
    if s.is_waiting() && n.records.len() > s.records.len() {
        lemma_answered(s, n.records.last());
    }
}

/// Pieces assemble: when the controller answers a request at offset `n` of a
/// record with the record's own bytes from there on, what is kept is a longer
/// prefix of the record; and when those are all, the record is accepted exactly
/// as if it had been read in one operation.
pub proof fn law_pieces_assemble(
    s: ScanView,
    record: Seq<u8>,
    next_id: u16,
    n: int,
    k: int,
    requested: nat,
)
    requires
        0 <= n < n + k <= record.len(),
        s.phase == (ScanPhaseView::Body {
            next_id,
            total: record.len(),
            data: record.take(n),
            requested,
        }),
    ensures
        ({
            let piece = ResponseView {
                cc: 0,
                data: seq![low_byte(next_id), high_byte(next_id)] + record.subrange(n, n + k),
            };
            let whole = ResponseView {
                cc: 0,
                data: seq![low_byte(next_id), high_byte(next_id)] + record,
            };
            let s1 = s.next(Ok(piece));
            &&& n + k < record.len() ==> s1.phase is Body && s1.phase->data == record.take(n + k)
            &&& n + k == record.len() ==> s1 == s.after_full(Ok(whole))
        }),
{
    let next = seq![low_byte(next_id), high_byte(next_id)];
    let bytes = next + record.subrange(n, n + k);
    assert(bytes.skip(2) =~= record.subrange(n, n + k));
    assert(record.take(n) + record.subrange(n, n + k) =~= record.take(n + k));
    assert((next + record).skip(2) =~= record);
    assert(bytes[0] == low_byte(next_id) && bytes[1] == high_byte(next_id));
    assert((next + record)[0] == low_byte(next_id) && (next + record)[1] == high_byte(next_id));
    crate::bytes::law_le16_round_trip(next_id, 0, 0);
    if n + k == record.len() {
        assert(record.take(n + k) =~= record);
        assert(record.take(record.len() as int) =~= record);
    }
}

/// The ID under which the record at `k` of a repository is requested: the first
/// one by the selector 0, and 0xFFFF stands behind the last one.
pub open spec fn requested_id(ids: Seq<u16>, k: int) -> u16 {
    if k >= ids.len() {
        0xFFFF
    } else if k <= 0 {
        0
    } else {
        ids[k]
    }
}

/// The whole record at `k`, as a controller that holds these records answers.
pub open spec fn whole_answer(ids: Seq<u16>, records: Seq<Seq<u8>>, k: int) -> ResponseView {
    let next = requested_id(ids, k + 1);
    ResponseView { cc: 0, data: seq![low_byte(next), high_byte(next)] + records[k] }
}

/// The walk after `k` such answers.
pub open spec fn walked(ids: Seq<u16>, records: Seq<Seq<u8>>, k: int) -> ScanView
    decreases k,
{
    if k <= 0 {
        ScanView::start()
    } else {
        walked(ids, records, k - 1).next(Ok(whole_answer(ids, records, k - 1)))
    }
}

/// Whether a repository is sound: its IDs are distinct and no selectors, and
/// every record decodes to one with its ID.
pub open spec fn is_repository(ids: Seq<u16>, records: Seq<Seq<u8>>) -> bool {
    &&& 0 < ids.len() == records.len()
    &&& ids.no_duplicates()
    &&& forall|i: int|
        0 <= i < ids.len() ==> ids[i] != 0 && ids[i] != 0xFFFF && !undecodable(
            #[trigger] records[i],
        ) && record_of(records[i]) is Ok && record_of(records[i])->Ok_0.id == ids[i]
}

/// What the first `k` records of a repository say.
pub open spec fn decoded_records(records: Seq<Seq<u8>>, k: int) -> Seq<RecordView> {
    Seq::new(k as nat, |i: int| record_of(records[i])->Ok_0)
}

proof fn lemma_walked(ids: Seq<u16>, records: Seq<Seq<u8>>, k: int)
    requires
        is_repository(ids, records),
        0 <= k <= ids.len(),
    ensures
        ({
            let w = walked(ids, records, k);
            &&& w.chunked is None
            &&& w.records == decoded_records(records, k)
            &&& w.record_id == requested_id(ids, k)
            &&& k < ids.len() ==> w.phase is Full && w.seen == Seq::new(
                (k + 1) as nat,
                |i: int| requested_id(ids, i),
            ).to_set()
            &&& k == ids.len() ==> w.phase is Complete
        }),
    decreases k,
{
    if k == 0 {
        let w = walked(ids, records, 0);
        let first = Seq::new(1, |i: int| requested_id(ids, i));
        assert(first[0] == 0);
        assert(w.seen =~= first.to_set());
        assert(w.records =~= decoded_records(records, 0));
    } else {
        lemma_walked(ids, records, k - 1);
        let before = walked(ids, records, k - 1);
        let record = records[k - 1];
        let next = requested_id(ids, k);
        let answer = whole_answer(ids, records, k - 1);
        crate::bytes::law_le16_round_trip(next, 0, 0);
        assert(answer.data[0] == low_byte(next) && answer.data[1] == high_byte(next));
        assert(answer.data.skip(2) =~= record);
        assert(!undecodable(record));
        assert(decoded_records(records, k) =~= decoded_records(records, k - 1).push(
            record_of(record)->Ok_0,
        ));
        if k < ids.len() {
            assert(!undecodable(records[k]));
            let requested = Seq::new(k as nat, |i: int| requested_id(ids, i));
            assert(!requested.contains(next)) by {
                if requested.contains(next) {
                    let i = choose|i: int| 0 <= i < requested.len() && requested[i] == next;
                    assert(requested[i] == requested_id(ids, i));
                }
            }
            lemma_one_more(requested, next);
            assert(requested.push(next) =~= Seq::new(
                (k + 1) as nat,
                |i: int| requested_id(ids, i),
            ));
        }
    }
}

/// The walk collects the repository: when a controller answers every request
/// with the whole record, the walk ends and holds every record, in order.
pub proof fn law_repository_is_collected(ids: Seq<u16>, records: Seq<Seq<u8>>)
    requires
        is_repository(ids, records),
    ensures
        walked(ids, records, ids.len() as int).phase is Complete,
        walked(ids, records, ids.len() as int).records == decoded_records(
            records,
            records.len() as int,
        ),
{
    lemma_walked(ids, records, ids.len() as int);
}

/// How a controller that holds these records answers the request of the walk
/// `s`. It serves the record's own bytes from where the walk stands, and
/// `portion` says how much of them: with 0 it cannot return so many bytes at
/// once, unless a single one was requested; otherwise it returns that many, but
/// no more than were requested, and a whole record where that was requested.
pub open spec fn portion_answer(
    ids: Seq<u16>,
    records: Seq<Seq<u8>>,
    reservation: u16,
    s: ScanView,
    portion: nat,
) -> ResponseView {
    let k = s.records.len() as int;
    let next = requested_id(ids, k + 1);
    let refusal = ResponseView { cc: CC_CANNOT_RETURN_REQUESTED_BYTES, data: seq![] };
    match s.phase {
        ScanPhaseView::Full => if portion == 0 {
            refusal
        } else {
            whole_answer(ids, records, k)
        },
        ScanPhaseView::Reserve => ResponseView {
            cc: 0,
            data: seq![low_byte(reservation), high_byte(reservation)],
        },
        ScanPhaseView::Header => ResponseView {
            cc: 0,
            data: seq![low_byte(next), high_byte(next)] + records[k].take(SDR_HEADER_LEN as int),
        },
        ScanPhaseView::Body { next_id, total, data, requested } => if portion == 0 && requested > 1 {
            refusal
        } else {
            let served = if portion == 0 {
                1
            } else if portion < requested {
                portion
            } else {
                requested
            };
            ResponseView {
                cc: 0,
                data: seq![low_byte(next), high_byte(next)] + records[k].subrange(
                    data.len() as int,
                    (data.len() + served) as int,
                ),
            }
        },
        _ => ResponseView { cc: 0, data: seq![] },
    }
}

/// The walk after `n` such answers, of which the one at `i` serves `portions(i)`.
pub open spec fn walked_in_portions(
    ids: Seq<u16>,
    records: Seq<Seq<u8>>,
    reservation: u16,
    portions: spec_fn(nat) -> nat,
    n: nat,
) -> ScanView
    decreases n,
{
    if n == 0 {
        ScanView::start()
    } else {
        let before = walked_in_portions(ids, records, reservation, portions, (n - 1) as nat);
        before.next(
            Ok(portion_answer(ids, records, reservation, before, portions((n - 1) as nat))),
        )
    }
}

/// Whether a walk has read the first records of a repository and nothing else,
/// and is reading the next one.
pub open spec fn is_on_track(ids: Seq<u16>, records: Seq<Seq<u8>>, s: ScanView) -> bool {
    let k = s.records.len() as int;
    &&& s.wf()
    &&& k <= ids.len()
    &&& s.records == decoded_records(records, k)
    &&& s.record_id == requested_id(ids, k)
    &&& k == ids.len() ==> s.phase is Complete
    &&& k < ids.len() ==> s.is_waiting()
    &&& match s.phase {
        ScanPhaseView::Body { next_id, total, data, requested } => {
            &&& next_id == requested_id(ids, k + 1)
            &&& total == records[k].len()
            &&& data == records[k].take(data.len() as int)
        },
        _ => true,
    }
}

/// With the bytes of its record a walk that is on track goes on to the next one.
proof fn lemma_record_read(ids: Seq<u16>, records: Seq<Seq<u8>>, s: ScanView)
    requires
        is_repository(ids, records),
        is_on_track(ids, records, s),
        s.is_waiting(),
    ensures
        ({
            let k = s.records.len() as int;
            let n = s.with_record(requested_id(ids, k + 1), records[k]);
            &&& k < ids.len()
            &&& n.records == decoded_records(records, k + 1)
            &&& n.record_id == requested_id(ids, k + 1)
            &&& k + 1 == ids.len() ==> n.phase is Complete
            &&& k + 1 < ids.len() ==> n.phase is Full || n.phase is Header
        }),
{
    let k = s.records.len() as int;
    let next = requested_id(ids, k + 1);
    assert(!undecodable(records[k]));
    assert(decoded_records(records, k + 1) =~= decoded_records(records, k).push(
        record_of(records[k])->Ok_0,
    ));
    if k + 1 < ids.len() {
        assert(!undecodable(records[k + 1]));
        let requested = ids_requested(s.records);
        assert(!requested.contains(next)) by {
            if requested.contains(next) {
                let i = choose|i: int| 0 <= i < requested.len() && requested[i] == next;
                assert(!undecodable(records[i]));
                assert(i != 0 ==> requested[i] == ids[i]);
            }
        }
        assert(!s.seen.contains(next));
    }
}

/// The bytes behind the next record's ID in a reply.
proof fn lemma_reply_bytes(record_id: u16, next: u16, bytes: Seq<u8>)
    ensures
        sdr_response(record_id, seq![low_byte(next), high_byte(next)] + bytes) == Ok::<
            (u16, Seq<u8>),
            Chars,
        >((next, bytes)),
{
    let data = seq![low_byte(next), high_byte(next)] + bytes;
    crate::bytes::law_le16_round_trip(next, 0, 0);
    assert(data[0] == low_byte(next) && data[1] == high_byte(next));
    assert(data.skip(2) =~= bytes);
}

proof fn lemma_stays_on_track(
    ids: Seq<u16>,
    records: Seq<Seq<u8>>,
    reservation: u16,
    s: ScanView,
    portion: nat,
)
    requires
        is_repository(ids, records),
        forall|i: int| 0 <= i < records.len() ==> well_framed(#[trigger] records[i]),
        is_on_track(ids, records, s),
        s.is_waiting(),
    ensures
        is_on_track(
            ids,
            records,
            s.next(Ok(portion_answer(ids, records, reservation, s, portion))),
        ),
{
    let k = s.records.len() as int;
    let next = requested_id(ids, k + 1);
    let answer = portion_answer(ids, records, reservation, s, portion);
    let n = s.next(Ok(answer));
    law_scan_stays_sound(s, Ok(answer));
    lemma_record_read(ids, records, s);
    let record = records[k];
    assert(well_framed(record));
    match s.phase {
        ScanPhaseView::Full => {
            lemma_reply_bytes(s.record_id, next, record);
        },
        ScanPhaseView::Header => {
            let header = record.take(5);
            lemma_reply_bytes(s.record_id, next, header);
            assert(header[4] == record[4]);
            if record.len() == 5 {
                assert(header.take(5) =~= record);
            }
        },
        ScanPhaseView::Body { next_id, total, data, requested } => {
            if !(portion == 0 && requested > 1) {
                let at = data.len() as int;
                let served = if portion == 0 {
                    1
                } else if portion < requested {
                    portion as int
                } else {
                    requested as int
                };
                let more = record.subrange(at, at + served);
                lemma_reply_bytes(s.record_id, next, more);
                assert(data + more =~= record.take(at + served));
                if at + served == record.len() {
                    assert(record.take(at + served) =~= record);
                    assert(record.take(total as int) =~= record);
                }
            }
        },
        _ => {},
    }
}

proof fn lemma_starts_on_track(ids: Seq<u16>, records: Seq<Seq<u8>>)
    requires
        is_repository(ids, records),
    ensures
        is_on_track(ids, records, ScanView::start()),
{
    lemma_starts_sound();
    assert(ScanView::start().records =~= decoded_records(records, 0));
}

/// An answer lowers the bound on the answers that a walk can still take.
proof fn lemma_portion_read(
    ids: Seq<u16>,
    records: Seq<Seq<u8>>,
    reservation: u16,
    s: ScanView,
    portion: nat,
)
    requires
        is_repository(ids, records),
        forall|i: int| 0 <= i < records.len() ==> well_framed(#[trigger] records[i]),
        is_on_track(ids, records, s),
    ensures
        ({
            let n = s.next(Ok(portion_answer(ids, records, reservation, s, portion)));
            &&& is_on_track(ids, records, n)
            &&& n.is_waiting() ==> s.is_waiting() && n.rank() < s.rank()
        }),
{
    let answer = portion_answer(ids, records, reservation, s, portion);
    if s.is_waiting() {
        lemma_stays_on_track(ids, records, reservation, s, portion);
        law_scan_ends(s, Ok(answer));
    } else {
        assert(s.next(Ok(answer)) == s);
    }
}

proof fn lemma_walked_in_portions(
    ids: Seq<u16>,
    records: Seq<Seq<u8>>,
    reservation: u16,
    portions: spec_fn(nat) -> nat,
    n: nat,
)
    requires
        is_repository(ids, records),
        forall|i: int| 0 <= i < records.len() ==> well_framed(#[trigger] records[i]),
    ensures
        ({
            let s = walked_in_portions(ids, records, reservation, portions, n);
            &&& is_on_track(ids, records, s)
            &&& s.is_waiting() ==> s.rank() + n <= ScanView::start().rank()
        }),
    decreases n,
{
    if n == 0 {
        lemma_starts_on_track(ids, records);
    } else {
        let m = (n - 1) as nat;
        let before = walked_in_portions(ids, records, reservation, portions, m);
        lemma_walked_in_portions(ids, records, reservation, portions, m);
        lemma_portion_read(ids, records, reservation, before, portions(m));
    }
}

/// The walk collects the repository however it is served: whether a controller
/// returns whole records or cannot return so many bytes at once, refuses
/// pieces that are still too large, or returns less than was requested, as long
/// as it serves the records' own bytes the walk ends and holds every record, in
/// order. The records are well framed, as every record that decodes is.
pub proof fn law_repository_is_collected_in_portions(
    ids: Seq<u16>,
    records: Seq<Seq<u8>>,
    reservation: u16,
    portions: spec_fn(nat) -> nat,
    n: nat,
)
    requires
        is_repository(ids, records),
        forall|i: int| 0 <= i < records.len() ==> well_framed(#[trigger] records[i]),
        n > ScanView::start().rank(),
    ensures
        ({
            let end = walked_in_portions(ids, records, reservation, portions, n);
            &&& end.phase is Complete
            &&& end.records == decoded_records(records, records.len() as int)
        }),
{
    let end = walked_in_portions(ids, records, reservation, portions, n);
    lemma_walked_in_portions(ids, records, reservation, portions, n);
    if end.is_waiting() {
        law_scan_ends(end, Err(seq![]));
    }
}

} // verus!
