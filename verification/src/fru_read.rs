//! The conversations that read a FRU device: the whole image, or only the
//! standard areas that its header references.

use vstd::prelude::*;

use crate::bytes::{copy_range, le16, u16_le};
use crate::conn::{
    check, checked, completion, completion_text, concat2, concat3, reply_view, Recipient, Reply,
    Request, RequestView, ResponseView, NETFN_STORAGE,
};
use crate::fru::{
    fru_of, parse_image, Fru, FruView, CMD_GET_FRU_AREA_INFO, CMD_READ_FRU_DATA, FRU_CHUNK,
};
use crate::text::{dec, dec_text, Chars};

verus! {

/// Where a FRU device that is not the BMC's own is reached.
#[derive(Clone, Copy, Debug, PartialEq, Eq, Structural)]
pub struct FruTarget {
    pub address: u8,
    pub channel: u8,
    pub lun: u8,
}

/// Whom a request about a FRU device is addressed to.
pub open spec fn recipient_of(target: Option<FruTarget>) -> Recipient {
    match target {
        Some(t) => Recipient::BmcOrIpmb { address: t.address, channel: t.channel, lun: t.lun },
        None => Recipient::Bmc,
    }
}

pub open spec fn fru_request(target: Option<FruTarget>, command: u8, data: Seq<u8>) -> RequestView {
    RequestView { netfn: NETFN_STORAGE, cmd: command, data, recipient: recipient_of(target) }
}

fn send(target: Option<FruTarget>, command: u8, data: Vec<u8>) -> (r: Request)
    ensures
        r@ == fru_request(target, command, data@),
{
    let recipient = match target {
        Some(t) => Recipient::BmcOrIpmb { address: t.address, channel: t.channel, lun: t.lun },
        None => Recipient::Bmc,
    };
    Request { netfn: NETFN_STORAGE, cmd: command, data, recipient }
}

// ---------------------------------------------------------------------
// Area size
// ---------------------------------------------------------------------

/// The size of a FRU area in bytes and its access unit in bytes, as a Get FRU
/// Inventory Area Info reply gives them.
pub open spec fn area_info_of(reply: Result<ResponseView, Chars>) -> Result<(nat, nat), Chars> {
    match reply {
        Err(e) => Err("Get FRU Area Info failed: "@ + e),
        Ok(response) => match checked(response.cc, "Get FRU Area Info"@) {
            Err(e) => Err(e),
            Ok(_) => if response.data.len() < 2 {
                Err("Get FRU Area Info: short response"@)
            } else {
                Ok(
                    (
                        le16(response.data[0], response.data[1]) as nat,
                        if response.data.len() > 2 && response.data[2] & 0x01 != 0 {
                            2
                        } else {
                            1
                        },
                    ),
                )
            },
        },
    }
}

/// Decodes a Get FRU Inventory Area Info reply.
pub fn area_size(reply: Reply) -> (r: Result<(usize, usize), String>)
    ensures
        match r {
            Ok((size, unit)) => area_info_of(reply_view(reply)) == Ok::<(nat, nat), Chars>(
                (size as nat, unit as nat),
            ) && size <= 0xFFFF && 1 <= unit <= 2,
            Err(e) => area_info_of(reply_view(reply)) == Err::<(nat, nat), Chars>(e@),
        },
{
    match reply {
        Err(e) => Err(concat2("Get FRU Area Info failed: ", e.as_str())),
        Ok(response) => {
            if let Err(e) = check(response.cc, "Get FRU Area Info") {
                return Err(e);
            }
            let data = &response.data;
            if data.len() < 2 {
                return Err("Get FRU Area Info: short response".to_owned());
            }
            let unit: usize = if data.len() > 2 && data[2] & 0x01 != 0 {
                2
            } else {
                1
            };
            Ok((u16_le(data[0], data[1]) as usize, unit))
        }
    }
}

// ---------------------------------------------------------------------
// A range of bytes
// ---------------------------------------------------------------------

enum RangePhase {
    Waiting,
    Done,
    Failed(String),
}

/// Reads a byte range from a FRU area in bounded chunks.
pub struct RangeRead {
    fru_id: u8,
    target: Option<FruTarget>,
    start: usize,
    length: usize,
    unit: usize,
    out: Vec<u8>,
    phase: RangePhase,
}

/// What the read is waiting for.
pub ghost enum RangePhaseView {
    Waiting,
    Done,
    Failed(Chars),
}

/// How far the read has come: `out` holds the bytes from `start` on.
pub ghost struct RangeView {
    pub fru_id: u8,
    pub target: Option<FruTarget>,
    pub start: nat,
    pub length: nat,
    pub unit: nat,
    pub out: Seq<u8>,
    pub phase: RangePhaseView,
}

impl View for RangeRead {
    type V = RangeView;

    closed spec fn view(&self) -> RangeView {
        RangeView {
            fru_id: self.fru_id,
            target: self.target,
            start: self.start as nat,
            length: self.length as nat,
            unit: self.unit as nat,
            out: self.out@,
            phase: match self.phase {
                RangePhase::Waiting => RangePhaseView::Waiting,
                RangePhase::Done => RangePhaseView::Done,
                RangePhase::Failed(e) => RangePhaseView::Failed(e@),
            },
        }
    }
}

/// The bytes in a Read FRU Data response: as many as it says, as far as they
/// are there.
pub open spec fn returned_bytes(data: Seq<u8>) -> Seq<u8> {
    if data.len() == 0 {
        seq![]
    } else if data[0] < data.len() - 1 {
        data.subrange(1, 1 + data[0])
    } else {
        data.skip(1)
    }
}

impl RangeView {
    pub open spec fn start(
        fru_id: u8,
        target: Option<FruTarget>,
        start: nat,
        length: nat,
        unit: nat,
    ) -> RangeView {
        RangeView {
            fru_id,
            target,
            start,
            length,
            unit,
            out: seq![],
            phase: if length == 0 {
                RangePhaseView::Done
            } else {
                RangePhaseView::Waiting
            },
        }
    }

    /// The offset of the next byte.
    pub open spec fn offset(self) -> nat {
        self.start + self.out.len()
    }

    /// The request whose reply the read is waiting for. Offsets count access
    /// units, in 16 bits.
    pub open spec fn request(self) -> Option<RequestView> {
        if self.phase is Waiting {
            let left = self.length - self.out.len();
            let at = (self.offset() / self.unit) % 0x10000;
            Some(
                fru_request(
                    self.target,
                    CMD_READ_FRU_DATA,
                    seq![
                        self.fru_id,
                        (at % 256) as u8,
                        (at / 256) as u8,
                        (if left < FRU_CHUNK {
                            left as u8
                        } else {
                            FRU_CHUNK as u8
                        }),
                    ],
                ),
            )
        } else {
            None
        }
    }

    pub open spec fn failed(self, e: Chars) -> RangeView {
        RangeView { phase: RangePhaseView::Failed(e), ..self }
    }

    /// The read after a reply: over when the range is complete or no more bytes
    /// come. A read that is over stays as it is.
    pub open spec fn next(self, reply: Result<ResponseView, Chars>) -> RangeView {
        if !(self.phase is Waiting) {
            self
        } else {
            match reply {
                Err(e) => self.failed(
                    "Read FRU Data failed at offset "@ + dec(self.offset()) + ": "@ + e,
                ),
                Ok(response) => if response.cc != 0 {
                    self.failed(
                        "Read FRU Data at offset "@ + dec(self.offset()) + ": "@ + completion(
                            response.cc,
                        ),
                    )
                } else {
                    let bytes = returned_bytes(response.data);
                    RangeView {
                        out: self.out + bytes,
                        phase: if bytes.len() == 0 || self.out.len() + bytes.len() >= self.length {
                            RangePhaseView::Done
                        } else {
                            RangePhaseView::Waiting
                        },
                        ..self
                    }
                },
            }
        }
    }

    pub open spec fn wf(self) -> bool {
        &&& 1 <= self.unit <= 2
        &&& self.start <= 0xFFFF
        &&& self.length <= 0xFFFF
        &&& self.phase is Waiting ==> self.out.len() < self.length
        &&& self.phase is Done || self.phase is Failed ==> self.out.len() <= self.length + 255
    }
}

impl RangeRead {
    pub fn new(
        fru_id: u8,
        target: Option<FruTarget>,
        start: usize,
        length: usize,
        unit: usize,
    ) -> (r: RangeRead)
        requires
            1 <= unit <= 2,
            start <= 0xFFFF,
            length <= 0xFFFF,
        ensures
            r@ == RangeView::start(fru_id, target, start as nat, length as nat, unit as nat),
            r@.wf(),
    {
        let r = RangeRead {
            fru_id,
            target,
            start,
            length,
            unit,
            out: Vec::new(),
            phase: if length == 0 {
                RangePhase::Done
            } else {
                RangePhase::Waiting
            },
        };
        proof {
            assert(r@.out =~= seq![]);
        }
        r
    }

    /// The request whose reply the read is waiting for; none once it is over.
    pub fn request(&self) -> (r: Option<Request>)
        requires
            self@.wf(),
        ensures
            match r {
                Some(request) => self@.request() == Some(request@),
                None => self@.request() is None,
            },
    {
        match &self.phase {
            RangePhase::Waiting => {
                let left: usize = self.length - self.out.len();
                let at: usize = ((self.start + self.out.len()) / self.unit) % 0x10000;
                let want: u8 = if left < FRU_CHUNK {
                    left as u8
                } else {
                    FRU_CHUNK as u8
                };
                let data = vec![self.fru_id, (at % 256) as u8, (at / 256) as u8, want];
                proof {
                    assert(data@ =~= self@.request()->0.data);
                }
                Some(send(self.target, CMD_READ_FRU_DATA, data))
            }
            _ => None,
        }
    }

    /// Why the read failed, if it did.
    pub fn error(&self) -> (r: Option<String>)
        ensures
            match r {
                Some(e) => self@.phase == RangePhaseView::Failed(e@),
                None => !(self@.phase is Failed),
            },
    {
        match &self.phase {
            RangePhase::Failed(e) => Some(e.clone()),
            _ => None,
        }
    }

    /// The bytes read.
    pub fn into_bytes(self) -> (out: Vec<u8>)
        ensures
            out@ == self@.out,
    {
        self.out
    }

    /// Advances the read with the reply to its request.
    pub fn advance(self, reply: Reply) -> (r: RangeRead)
        requires
            self@.wf(),
        ensures
            r@ == self@.next(reply_view(reply)),
            r@.wf(),
    {
        if !matches!(&self.phase, RangePhase::Waiting) {
            return self;
        }
        let mut r = self;
        let offset = dec_text((r.start + r.out.len()) as u64);
        match reply {
            Err(e) => {
                let mut text = concat3("Read FRU Data failed at offset ", offset.as_str(), ": ");
                text.append(e.as_str());
                r.phase = RangePhase::Failed(text);
            }
            Ok(response) => {
                if response.cc != 0 {
                    let mut text = concat3("Read FRU Data at offset ", offset.as_str(), ": ");
                    text.append(completion_text(response.cc).as_str());
                    r.phase = RangePhase::Failed(text);
                    return r;
                }
                let data = &response.data;
                let mut bytes: Vec<u8> = if data.len() == 0 {
                    Vec::new()
                } else if (data[0] as usize) < data.len() - 1 {
                    copy_range(data.as_slice(), 1, 1 + data[0] as usize)
                } else {
                    copy_range(data.as_slice(), 1, data.len())
                };
                proof {
                    assert(bytes@ =~= returned_bytes(data@));
                }
                let none = bytes.len() == 0;
                r.out.append(&mut bytes);
                if none || r.out.len() >= r.length {
                    r.phase = RangePhase::Done;
                }
            }
        }
        r
    }
}

/// The read ends: every reply that does not end it brings at least one byte of
/// the range.
pub proof fn law_range_read_ends(s: RangeView, reply: Result<ResponseView, Chars>)
    requires
        s.wf(),
        s.phase is Waiting,
    ensures
        s.next(reply).wf(),
        s.next(reply).phase is Waiting ==> s.out.len() < s.next(reply).out.len() < s.length,
{
}

/// A read gives back what the device holds: as long as the device answers with
/// its bytes from the requested offset on, what was read is the stretch of the
/// device's contents that starts where the range does.
pub proof fn law_range_holds_device_bytes(s: RangeView, device: Seq<u8>, n: nat)
    requires
        s.phase is Waiting,
        s.offset() + n <= device.len(),
        n <= 255,
        s.out == device.subrange(s.start as int, s.offset() as int),
    ensures
        ({
            let at = s.offset() as int;
            let reply = ResponseView { cc: 0, data: seq![n as u8] + device.subrange(at, at + n) };
            let after = s.next(Ok(reply));
            &&& after.out == device.subrange(s.start as int, after.offset() as int)
            &&& after.offset() == at + n
        }),
{
    let at = s.offset() as int;
    let data = seq![n as u8] + device.subrange(at, at + n);
    assert(data.skip(1) =~= device.subrange(at, at + n));
    assert(returned_bytes(data) =~= device.subrange(at, at + n));
    let after = s.next(Ok(ResponseView { cc: 0, data }));
    assert(after.out =~= device.subrange(s.start as int, at + n));
}

/// How a device that holds these bytes answers a read: with its bytes from the
/// offset that the read has reached, `portion` of them, but at least one and no
/// more than were requested.
pub open spec fn device_answer(s: RangeView, device: Seq<u8>, portion: nat) -> ResponseView {
    let at = s.offset() as int;
    let left = s.length - s.out.len();
    let requested = if left < FRU_CHUNK {
        left
    } else {
        FRU_CHUNK as int
    };
    let served = if portion == 0 {
        1
    } else if portion < requested {
        portion as int
    } else {
        requested
    };
    ResponseView { cc: 0, data: seq![served as u8] + device.subrange(at, at + served) }
}

/// The read after `n` such answers, of which the one at `i` has `portions(i)`
/// bytes.
pub open spec fn read_in_portions(
    s: RangeView,
    device: Seq<u8>,
    portions: spec_fn(nat) -> nat,
    n: nat,
) -> RangeView
    decreases n,
{
    if n == 0 {
        s
    } else {
        let before = read_in_portions(s, device, portions, (n - 1) as nat);
        before.next(Ok(device_answer(before, device, portions((n - 1) as nat))))
    }
}

/// Whether a read holds the device's bytes so far, and all of its range once it
/// is over.
pub open spec fn holds_range(r: RangeView, s: RangeView, device: Seq<u8>) -> bool {
    &&& r.start == s.start && r.length == s.length
    &&& r.out.len() <= s.length
    &&& r.out == device.subrange(s.start as int, r.offset() as int)
    &&& r.phase is Waiting ==> r.out.len() < s.length
    &&& r.phase is Done ==> r.out.len() == s.length
    &&& !(r.phase is Failed)
}

proof fn lemma_read_in_portions(
    s: RangeView,
    device: Seq<u8>,
    portions: spec_fn(nat) -> nat,
    n: nat,
)
    requires
        holds_range(s, s, device),
        s.start + s.length <= device.len(),
    ensures
        holds_range(read_in_portions(s, device, portions, n), s, device),
        read_in_portions(s, device, portions, n).phase is Waiting ==> n <= read_in_portions(
            s,
            device,
            portions,
            n,
        ).out.len(),
    decreases n,
{
    if n > 0 {
        let m = (n - 1) as nat;
        lemma_read_in_portions(s, device, portions, m);
        let before = read_in_portions(s, device, portions, m);
        if before.phase is Waiting {
            let answer = device_answer(before, device, portions(m));
            let served = (answer.data.len() - 1) as nat;
            law_range_holds_device_bytes(before, device, served);
        }
    }
}

/// A range is read however it is served: when a device answers every request
/// with its bytes from the requested offset on, in pieces of any size, the read
/// ends and holds exactly the range.
pub proof fn law_range_is_read_in_portions(
    fru_id: u8,
    target: Option<FruTarget>,
    start: nat,
    length: nat,
    unit: nat,
    device: Seq<u8>,
    portions: spec_fn(nat) -> nat,
    n: nat,
)
    requires
        start + length <= device.len(),
        n >= length,
    ensures
        ({
            let s = RangeView::start(fru_id, target, start, length, unit);
            let end = read_in_portions(s, device, portions, n);
            &&& end.phase is Done
            &&& end.out == device.subrange(start as int, (start + length) as int)
        }),
{
    let s = RangeView::start(fru_id, target, start, length, unit);
    assert(device.subrange(start as int, start as int) =~= seq![]);
    lemma_read_in_portions(s, device, portions, n);
}

// ---------------------------------------------------------------------
// The whole image
// ---------------------------------------------------------------------

enum RawPhase {
    Area,
    Range(RangeRead),
    Failed(String),
}

/// Reads the whole image of a FRU device.
pub struct RawRead {
    fru_id: u8,
    target: Option<FruTarget>,
    phase: RawPhase,
}

/// What the read is waiting for.
pub ghost enum RawPhaseView {
    /// The size of the area.
    Area,
    /// The bytes; complete once the range is.
    Range(RangeView),
    Failed(Chars),
}

pub ghost struct RawView {
    pub fru_id: u8,
    pub target: Option<FruTarget>,
    pub phase: RawPhaseView,
}

impl View for RawRead {
    type V = RawView;

    closed spec fn view(&self) -> RawView {
        RawView {
            fru_id: self.fru_id,
            target: self.target,
            phase: match self.phase {
                RawPhase::Area => RawPhaseView::Area,
                RawPhase::Range(range) => RawPhaseView::Range(range@),
                RawPhase::Failed(e) => RawPhaseView::Failed(e@),
            },
        }
    }
}

impl RawView {
    pub open spec fn start(fru_id: u8, target: Option<FruTarget>) -> RawView {
        RawView { fru_id, target, phase: RawPhaseView::Area }
    }

    pub open spec fn at(self, phase: RawPhaseView) -> RawView {
        RawView { phase, ..self }
    }

    /// The read after a reply. A read that is over stays as it is.
    pub open spec fn next(self, reply: Result<ResponseView, Chars>) -> RawView {
        match self.phase {
            RawPhaseView::Area => match area_info_of(reply) {
                Err(e) => self.at(RawPhaseView::Failed(e)),
                Ok((size, unit)) => if size == 0 {
                    self.at(RawPhaseView::Failed("FRU area reports zero size"@))
                } else {
                    self.at(
                        RawPhaseView::Range(
                            RangeView::start(self.fru_id, self.target, 0, size, unit),
                        ),
                    )
                },
            },
            RawPhaseView::Range(range) => {
                let after = range.next(reply);
                match after.phase {
                    RangePhaseView::Failed(e) => self.at(RawPhaseView::Failed(e)),
                    _ => self.at(RawPhaseView::Range(after)),
                }
            },
            RawPhaseView::Failed(_) => self,
        }
    }

    /// The request whose reply the read is waiting for.
    pub open spec fn request(self) -> Option<RequestView> {
        match self.phase {
            RawPhaseView::Area => Some(
                fru_request(self.target, CMD_GET_FRU_AREA_INFO, seq![self.fru_id]),
            ),
            RawPhaseView::Range(range) => range.request(),
            RawPhaseView::Failed(_) => None,
        }
    }

    /// The image, once it is complete, or why there is none.
    pub open spec fn result(self) -> Option<Result<Seq<u8>, Chars>> {
        match self.phase {
            RawPhaseView::Area => None,
            RawPhaseView::Range(range) => if range.phase is Done {
                Some(Ok(range.out))
            } else {
                None
            },
            RawPhaseView::Failed(e) => Some(Err(e)),
        }
    }

    pub open spec fn wf(self) -> bool {
        match self.phase {
            RawPhaseView::Range(range) => range.wf() && !(range.phase is Failed),
            _ => true,
        }
    }
}

impl RawRead {
    pub fn new(fru_id: u8, target: Option<FruTarget>) -> (r: RawRead)
        ensures
            r@ == RawView::start(fru_id, target),
            r@.wf(),
    {
        RawRead { fru_id, target, phase: RawPhase::Area }
    }

    /// The request whose reply the read is waiting for; none once it is over.
    pub fn request(&self) -> (r: Option<Request>)
        requires
            self@.wf(),
        ensures
            match r {
                Some(request) => self@.request() == Some(request@),
                None => self@.request() is None && self@.result() is Some,
            },
    {
        match &self.phase {
            RawPhase::Area => {
                let data = vec![self.fru_id];
                proof {
                    assert(data@ =~= seq![self.fru_id]);
                }
                Some(send(self.target, CMD_GET_FRU_AREA_INFO, data))
            }
            RawPhase::Range(range) => range.request(),
            RawPhase::Failed(_) => None,
        }
    }

    /// The image once the read is over, or why there is none.
    pub fn finish(self) -> (r: Result<Vec<u8>, String>)
        requires
            self@.request() is None,
            self@.wf(),
        ensures
            match r {
                Ok(image) => self@.result() == Some(Ok::<Seq<u8>, Chars>(image@)),
                Err(e) => self@.result() == Some(Err::<Seq<u8>, Chars>(e@)),
            },
    {
        match self.phase {
            RawPhase::Area => Err(String::new()),
            RawPhase::Range(range) => Ok(range.into_bytes()),
            RawPhase::Failed(e) => Err(e),
        }
    }

    /// Advances the read with the reply to its request.
    pub fn advance(self, reply: Reply) -> (r: RawRead)
        requires
            self@.wf(),
        ensures
            r@ == self@.next(reply_view(reply)),
            r@.wf(),
    {
        let RawRead { fru_id, target, phase } = self;
        let phase = match phase {
            RawPhase::Area => match area_size(reply) {
                Err(e) => RawPhase::Failed(e),
                Ok((size, unit)) => {
                    if size == 0 {
                        RawPhase::Failed("FRU area reports zero size".to_owned())
                    } else {
                        RawPhase::Range(RangeRead::new(fru_id, target, 0, size, unit))
                    }
                }
            },
            RawPhase::Range(range) => {
                let after = range.advance(reply);
                match after.error() {
                    Some(e) => RawPhase::Failed(e),
                    None => RawPhase::Range(after),
                }
            }
            RawPhase::Failed(e) => RawPhase::Failed(e),
        };
        RawRead { fru_id, target, phase }
    }
}

// ---------------------------------------------------------------------
// The standard areas
// ---------------------------------------------------------------------

/// Whether an area offset is usable: the area is there, and its first two bytes
/// lie inside the device.
pub open spec fn usable_offset(offset: int, size: nat) -> bool {
    offset != 0 && offset + 2 <= size
}

/// The offsets, and one more if it is usable.
pub open spec fn with_offset(offsets: Seq<int>, offset: int, size: nat) -> Seq<int> {
    if usable_offset(offset, size) {
        offsets.push(offset)
    } else {
        offsets
    }
}

/// The offsets of the chassis, board and product areas that the header
/// references, in that order.
pub open spec fn area_offsets(header: Seq<u8>, size: nat) -> Seq<int> {
    if header.len() < 8 || header[0] != 0x01 {
        seq![]
    } else {
        let chassis = with_offset(seq![], header[2] * 8, size);
        let board = with_offset(chassis, header[3] * 8, size);
        with_offset(board, header[4] * 8, size)
    }
}

/// Offsets as numbers.
pub open spec fn offset_views(v: Seq<usize>) -> Seq<int> {
    Seq::new(v.len(), |i: int| v[i] as int)
}

fn push_offset(offsets: &mut Vec<usize>, offset: usize, size: usize)
    requires
        offset <= 0x7FF,
    ensures
        offset_views(final(offsets)@) == with_offset(
            offset_views(old(offsets)@),
            offset as int,
            size as nat,
        ),
{
    if offset != 0 && offset + 2 <= size {
        offsets.push(offset);
        proof {
            assert(offset_views(offsets@) =~= offset_views(old(offsets)@).push(offset as int));
        }
    }
}

pub fn standard_area_offsets(header: &[u8], size: usize) -> (offsets: Vec<usize>)
    ensures
        offset_views(offsets@) == area_offsets(header@, size as nat),
{
    let mut offsets: Vec<usize> = Vec::new();
    proof {
        assert(offset_views(offsets@) =~= seq![]);
    }
    if header.len() < 8 || header[0] != 0x01 {
        return offsets;
    }
    push_offset(&mut offsets, header[2] as usize * 8, size);
    push_offset(&mut offsets, header[3] as usize * 8, size);
    push_offset(&mut offsets, header[4] as usize * 8, size);
    offsets
}

/// The sequence `image` with `bytes` laid over it at `offset`.
pub open spec fn overlaid(image: Seq<u8>, offset: int, bytes: Seq<u8>) -> Seq<u8> {
    Seq::new(
        image.len(),
        |i: int|
            if offset <= i < offset + bytes.len() {
                bytes[i - offset]
            } else {
                image[i]
            },
    )
}

fn overlay(image: &mut Vec<u8>, offset: usize, bytes: &Vec<u8>, most: usize)
    requires
        offset + most <= old(image)@.len(),
    ensures
        final(image)@ == overlaid(
            old(image)@,
            offset as int,
            if bytes@.len() > most {
                bytes@.take(most as int)
            } else {
                bytes@
            },
        ),
{
    let n: usize = if bytes.len() > most {
        most
    } else {
        bytes.len()
    };
    let len: usize = image.len();
    let ghost before = image@;
    let ghost put = bytes@.take(n as int);
    let mut i: usize = 0;
    proof {
        assert(image@ =~= overlaid(before, offset as int, put.take(0)));
    }
    while i < n
        invariant
            i <= n <= bytes@.len(),
            offset + n <= before.len() == len,
            put == bytes@.take(n as int),
            image@ == overlaid(before, offset as int, put.take(i as int)),
        decreases n - i,
    {
        image.set(offset + i, bytes[i]);
        proof {
            assert(image@ =~= overlaid(before, offset as int, put.take(i + 1)));
        }
        i = i + 1;
    }
    proof {
        assert(put.take(n as int) =~= put);
        if bytes@.len() <= most {
            assert(put =~= bytes@);
        }
    }
}

enum AreaPhase {
    Area,
    Header(RangeRead),
    Prefix(RangeRead),
    Body(RangeRead, usize),
    Done,
    Failed(String),
}

/// Reads only the standard FRU areas referenced by the common header.
///
/// Vendor FRUs can expose very large raw address spaces while keeping their
/// standard product/board/chassis data in a few short areas. Inventory display
/// does not download the unused space; raw export deliberately still does.
pub struct DecodedRead {
    fru_id: u8,
    target: Option<FruTarget>,
    size: usize,
    unit: usize,
    image: Vec<u8>,
    offsets: Vec<usize>,
    index: usize,
    phase: AreaPhase,
}

/// What the read is waiting for.
pub ghost enum AreaPhaseView {
    /// The size of the device.
    Area,
    /// The common header.
    Header(RangeView),
    /// The first two bytes of an area.
    Prefix(RangeView),
    /// An area of the given length.
    Body(RangeView, nat),
    Done,
    Failed(Chars),
}

/// How far the read has come: the image so far, with zeros for what was not
/// read; the areas to read; and which of them is being read.
pub ghost struct AreasView {
    pub fru_id: u8,
    pub target: Option<FruTarget>,
    pub size: nat,
    pub unit: nat,
    pub image: Seq<u8>,
    pub offsets: Seq<int>,
    pub index: int,
    pub phase: AreaPhaseView,
}

impl View for DecodedRead {
    type V = AreasView;

    closed spec fn view(&self) -> AreasView {
        AreasView {
            fru_id: self.fru_id,
            target: self.target,
            size: self.size as nat,
            unit: self.unit as nat,
            image: self.image@,
            offsets: offset_views(self.offsets@),
            index: self.index as int,
            phase: match self.phase {
                AreaPhase::Area => AreaPhaseView::Area,
                AreaPhase::Header(range) => AreaPhaseView::Header(range@),
                AreaPhase::Prefix(range) => AreaPhaseView::Prefix(range@),
                AreaPhase::Body(range, length) => AreaPhaseView::Body(range@, length as nat),
                AreaPhase::Done => AreaPhaseView::Done,
                AreaPhase::Failed(e) => AreaPhaseView::Failed(e@),
            },
        }
    }
}

/// An image of zeros that starts with the given header.
pub open spec fn blank_image(header: Seq<u8>, size: nat) -> Seq<u8> {
    overlaid(Seq::new(size, |i: int| 0u8), 0, header.take(8))
}

impl AreasView {
    pub open spec fn start(fru_id: u8, target: Option<FruTarget>) -> AreasView {
        AreasView {
            fru_id,
            target,
            size: 0,
            unit: 1,
            image: seq![],
            offsets: seq![],
            index: 0,
            phase: AreaPhaseView::Area,
        }
    }

    pub open spec fn at(self, phase: AreaPhaseView) -> AreasView {
        AreasView { phase, ..self }
    }

    pub open spec fn range(self, start: nat, length: nat) -> RangeView {
        RangeView::start(self.fru_id, self.target, start, length, self.unit)
    }

    /// Goes on to the area at `index`; done when there are no more.
    pub open spec fn area(self, index: int) -> AreasView {
        let here = AreasView { index, ..self };
        if index < self.offsets.len() {
            here.at(AreaPhaseView::Prefix(self.range(self.offsets[index] as nat, 2)))
        } else {
            here.at(AreaPhaseView::Done)
        }
    }

    pub open spec fn after_area(self, reply: Result<ResponseView, Chars>) -> AreasView {
        match area_info_of(reply) {
            Err(e) => self.at(AreaPhaseView::Failed(e)),
            Ok((size, unit)) => {
                let known = AreasView { size, unit, ..self };
                if size < 8 {
                    known.at(
                        AreaPhaseView::Failed(
                            "FRU area is too small ("@ + dec(size) + " bytes)"@,
                        ),
                    )
                } else {
                    known.at(AreaPhaseView::Header(known.range(0, 8)))
                }
            },
        }
    }

    /// The header is known. Without a version 1 header nothing else is read.
    pub open spec fn after_header(self, header: Seq<u8>) -> AreasView {
        if header.len() < 8 || header[0] != 0x01 {
            self.at(AreaPhaseView::Done)
        } else {
            AreasView {
                image: blank_image(header, self.size),
                offsets: area_offsets(header, self.size),
                ..self
            }.area(0)
        }
    }

    /// The start of an area is known. An area that states no length, or one
    /// that does not fit, is not read.
    pub open spec fn after_prefix(self, prefix: Seq<u8>) -> AreasView {
        let offset = self.offsets[self.index];
        let length = prefix[1] * 8;
        if prefix.len() < 2 || length < 8 || offset + length > self.size {
            self.area(self.index + 1)
        } else {
            self.at(
                AreaPhaseView::Body(self.range(offset as nat, length as nat), length as nat),
            )
        }
    }

    /// An area is known.
    pub open spec fn after_body(self, bytes: Seq<u8>, length: nat) -> AreasView {
        AreasView {
            image: overlaid(
                self.image,
                self.offsets[self.index],
                if bytes.len() > length {
                    bytes.take(length as int)
                } else {
                    bytes
                },
            ),
            ..self
        }.area(self.index + 1)
    }

    /// The read after a reply. A read that is over stays as it is.
    pub open spec fn next(self, reply: Result<ResponseView, Chars>) -> AreasView {
        match self.phase {
            AreaPhaseView::Area => self.after_area(reply),
            AreaPhaseView::Header(range) => {
                let after = range.next(reply);
                match after.phase {
                    RangePhaseView::Failed(e) => self.at(AreaPhaseView::Failed(e)),
                    RangePhaseView::Waiting => self.at(AreaPhaseView::Header(after)),
                    RangePhaseView::Done => self.after_header(after.out),
                }
            },
            AreaPhaseView::Prefix(range) => {
                let after = range.next(reply);
                match after.phase {
                    RangePhaseView::Failed(e) => self.at(AreaPhaseView::Failed(e)),
                    RangePhaseView::Waiting => self.at(AreaPhaseView::Prefix(after)),
                    RangePhaseView::Done => self.after_prefix(after.out),
                }
            },
            AreaPhaseView::Body(range, length) => {
                let after = range.next(reply);
                match after.phase {
                    RangePhaseView::Failed(e) => self.at(AreaPhaseView::Failed(e)),
                    RangePhaseView::Waiting => self.at(AreaPhaseView::Body(after, length)),
                    RangePhaseView::Done => self.after_body(after.out, length),
                }
            },
            _ => self,
        }
    }

    /// The request whose reply the read is waiting for.
    pub open spec fn request(self) -> Option<RequestView> {
        match self.phase {
            AreaPhaseView::Area => Some(
                fru_request(self.target, CMD_GET_FRU_AREA_INFO, seq![self.fru_id]),
            ),
            AreaPhaseView::Header(range) => range.request(),
            AreaPhaseView::Prefix(range) => range.request(),
            AreaPhaseView::Body(range, _) => range.request(),
            _ => None,
        }
    }

    /// The fields once the read is over, or why there are none.
    pub open spec fn result(self, color: bool) -> Option<Result<FruView, Chars>> {
        match self.phase {
            AreaPhaseView::Done => Some(Ok(fru_of(self.image, color))),
            AreaPhaseView::Failed(e) => Some(Err(e)),
            _ => None,
        }
    }

    /// What holds of every read: the areas lie inside the device, and so does
    /// the image.
    pub open spec fn wf(self) -> bool {
        &&& self.size <= 0xFFFF
        &&& 1 <= self.unit <= 2
        &&& 0 <= self.index <= self.offsets.len() <= 3
        &&& forall|i: int|
            0 <= i < self.offsets.len() ==> 0 < (#[trigger] self.offsets[i]) <= 0x7FF
                && self.offsets[i] + 2 <= self.size
        &&& match self.phase {
            AreaPhaseView::Area => self.offsets.len() == 0,
            AreaPhaseView::Header(range) => range.wf() && range.phase is Waiting && self.size >= 8,
            AreaPhaseView::Prefix(range) => range.wf() && range.phase is Waiting && self.index
                < self.offsets.len() && self.image.len() == self.size,
            AreaPhaseView::Body(range, length) => range.wf() && range.phase is Waiting && self.index
                < self.offsets.len() && self.image.len() == self.size && self.offsets[self.index]
                + length <= self.size,
            _ => true,
        }
    }
}

impl DecodedRead {
    pub fn new(fru_id: u8, target: Option<FruTarget>) -> (r: DecodedRead)
        ensures
            r@ == AreasView::start(fru_id, target),
            r@.wf(),
    {
        let r = DecodedRead {
            fru_id,
            target,
            size: 0,
            unit: 1,
            image: Vec::new(),
            offsets: Vec::new(),
            index: 0,
            phase: AreaPhase::Area,
        };
        proof {
            assert(r@.offsets =~= seq![]);
            assert(r@.image =~= seq![]);
        }
        r
    }

    /// The request whose reply the read is waiting for; none once it is over.
    pub fn request(&self) -> (r: Option<Request>)
        requires
            self@.wf(),
        ensures
            match r {
                Some(request) => self@.request() == Some(request@),
                None => self@.request() is None && (self@.phase is Done || self@.phase is Failed),
            },
    {
        match &self.phase {
            AreaPhase::Area => {
                let data = vec![self.fru_id];
                proof {
                    assert(data@ =~= seq![self.fru_id]);
                }
                Some(send(self.target, CMD_GET_FRU_AREA_INFO, data))
            }
            AreaPhase::Header(range) => range.request(),
            AreaPhase::Prefix(range) => range.request(),
            AreaPhase::Body(range, _) => range.request(),
            _ => None,
        }
    }

    /// The fields once the read is over, or why there are none.
    pub fn finish(self, color: bool) -> (r: Result<Fru, String>)
        requires
            self@.request() is None,
            self@.wf(),
        ensures
            match r {
                Ok(fru) => self@.result(color) == Some(Ok::<FruView, Chars>(fru@)),
                Err(e) => self@.result(color) == Some(Err::<FruView, Chars>(e@)),
            },
    {
        match self.phase {
            AreaPhase::Failed(e) => Err(e),
            _ => Ok(parse_image(self.image.as_slice(), color)),
        }
    }

    fn area(self, index: usize) -> (r: DecodedRead)
        requires
            self@.wf(),
            index <= self@.offsets.len(),
            self@.image.len() == self@.size,
        ensures
            r@ == self@.area(index as int),
            r@.wf(),
    {
        let mut r = self;
        r.index = index;
        if index < r.offsets.len() {
            let offset: usize = r.offsets[index];
            proof {
                assert(self@.offsets[index as int] == offset);
            }
            r.phase = AreaPhase::Prefix(RangeRead::new(r.fru_id, r.target, offset, 2, r.unit));
        } else {
            r.phase = AreaPhase::Done;
        }
        r
    }

    fn after_area(self, reply: Reply) -> (r: DecodedRead)
        requires
            self@.wf(),
            self@.offsets.len() == 0,
        ensures
            r@ == self@.after_area(reply_view(reply)),
            r@.wf(),
    {
        let mut r = self;
        match area_size(reply) {
            Err(e) => {
                r.phase = AreaPhase::Failed(e);
            }
            Ok((size, unit)) => {
                r.size = size;
                r.unit = unit;
                if size < 8 {
                    let text = concat3(
                        "FRU area is too small (",
                        dec_text(size as u64).as_str(),
                        " bytes)",
                    );
                    r.phase = AreaPhase::Failed(text);
                } else {
                    r.phase = AreaPhase::Header(RangeRead::new(r.fru_id, r.target, 0, 8, unit));
                }
            }
        }
        r
    }

    fn after_header(self, header: Vec<u8>) -> (r: DecodedRead)
        requires
            self@.wf(),
            self@.size >= 8,
        ensures
            r@ == self@.after_header(header@),
            r@.wf(),
    {
        let mut r = self;
        if header.len() < 8 || header[0] != 0x01 {
            r.phase = AreaPhase::Done;
            return r;
        }
        let mut image: Vec<u8> = Vec::new();
        while image.len() < r.size
            invariant
                image@.len() <= r.size,
                image@ == Seq::new(image@.len(), |i: int| 0u8),
            decreases r.size - image.len(),
        {
            image.push(0);
            proof {
                assert(image@ =~= Seq::new(image@.len(), |i: int| 0u8));
            }
        }
        overlay(&mut image, 0, &header, 8);
        proof {
            if header@.len() == 8 {
                assert(header@.take(8) =~= header@);
            }
        }
        r.image = image;
        r.offsets = standard_area_offsets(header.as_slice(), r.size);
        r.index = 0;
        r.phase = AreaPhase::Done;
        proof {
            assert forall|i: int| 0 <= i < r@.offsets.len() implies 0 < (#[trigger] r@.offsets[i])
                <= 0x7FF && r@.offsets[i] + 2 <= r@.size by {
                lemma_area_offsets(header@, r@.size, i);
            }
        }
        r.area(0)
    }

    fn after_prefix(self, prefix: Vec<u8>) -> (r: DecodedRead)
        requires
            self@.wf(),
            self@.index < self@.offsets.len(),
            self@.image.len() == self@.size,
        ensures
            r@ == self@.after_prefix(prefix@),
            r@.wf(),
    {
        let index: usize = self.index;
        let offset: usize = self.offsets[index];
        proof {
            assert(self@.offsets[index as int] == offset);
        }
        if prefix.len() < 2 {
            return self.area(index + 1);
        }
        let length: usize = prefix[1] as usize * 8;
        if length < 8 || offset + length > self.size {
            return self.area(index + 1);
        }
        let mut r = self;
        r.phase = AreaPhase::Body(
            RangeRead::new(r.fru_id, r.target, offset, length, r.unit),
            length,
        );
        r
    }

    fn after_body(self, bytes: Vec<u8>, length: usize) -> (r: DecodedRead)
        requires
            self@.wf(),
            self@.index < self@.offsets.len(),
            self@.image.len() == self@.size,
            self@.offsets[self@.index] + length <= self@.size,
        ensures
            r@ == self@.after_body(bytes@, length as nat),
            r@.wf(),
    {
        let mut r = self;
        let index: usize = r.index;
        let offset: usize = r.offsets[index];
        proof {
            assert(self@.offsets[index as int] == offset);
        }
        overlay(&mut r.image, offset, &bytes, length);
        r.area(index + 1)
    }

    /// Advances the read with the reply to its request.
    pub fn advance(self, reply: Reply) -> (r: DecodedRead)
        requires
            self@.wf(),
        ensures
            r@ == self@.next(reply_view(reply)),
            r@.wf(),
    {
        let DecodedRead { fru_id, target, size, unit, image, offsets, index, phase } = self;
        match phase {
            AreaPhase::Area => {
                let here = DecodedRead {
                    fru_id,
                    target,
                    size,
                    unit,
                    image,
                    offsets,
                    index,
                    phase: AreaPhase::Area,
                };
                here.after_area(reply)
            }
            AreaPhase::Header(range) => {
                let after = range.advance(reply);
                let mut here = DecodedRead {
                    fru_id,
                    target,
                    size,
                    unit,
                    image,
                    offsets,
                    index,
                    phase: AreaPhase::Done,
                };
                if let Some(e) = after.error() {
                    here.phase = AreaPhase::Failed(e);
                    here
                } else if after.request().is_some() {
                    here.phase = AreaPhase::Header(after);
                    here
                } else {
                    here.after_header(after.into_bytes())
                }
            }
            AreaPhase::Prefix(range) => {
                let after = range.advance(reply);
                let mut here = DecodedRead {
                    fru_id,
                    target,
                    size,
                    unit,
                    image,
                    offsets,
                    index,
                    phase: AreaPhase::Done,
                };
                if let Some(e) = after.error() {
                    here.phase = AreaPhase::Failed(e);
                    here
                } else if after.request().is_some() {
                    here.phase = AreaPhase::Prefix(after);
                    here
                } else {
                    here.after_prefix(after.into_bytes())
                }
            }
            AreaPhase::Body(range, length) => {
                let after = range.advance(reply);
                let mut here = DecodedRead {
                    fru_id,
                    target,
                    size,
                    unit,
                    image,
                    offsets,
                    index,
                    phase: AreaPhase::Done,
                };
                if let Some(e) = after.error() {
                    here.phase = AreaPhase::Failed(e);
                    here
                } else if after.request().is_some() {
                    here.phase = AreaPhase::Body(after, length);
                    here
                } else {
                    here.after_body(after.into_bytes(), length)
                }
            }
            over => DecodedRead { fru_id, target, size, unit, image, offsets, index, phase: over },
        }
    }
}

proof fn lemma_area_offsets(header: Seq<u8>, size: nat, i: int)
    requires
        0 <= i < area_offsets(header, size).len(),
    ensures
        0 < area_offsets(header, size)[i] <= 0x7FF,
        area_offsets(header, size)[i] + 2 <= size,
{
}

} // verus!
