//! `sensors` — what sensor replies mean: analog and discrete sensor health.

use vstd::prelude::*;

use crate::bytes::{byte_at, byte_or_zero, le16, u16_le};
use crate::cli::{SensorState, SensorsArgs};
use crate::cmd::sel::{description, entry_description};
use crate::conn::{
    completion, completion_text, concat2, concat3, reply_view, Recipient, Reply, Request,
    RequestView, ResponseView, NETFN_SENSOR_EVENT,
};
use crate::event::{Entry, EntryView, EventData, EventData2Type, EventData3Type, EventDirection};
use crate::sdr::{EventReadingTypeCodes, SensorKey};
use crate::text::{
    contains, contains_any, contains_any_text, contains_text, dec, dec_text, hex, hex_text, join,
    joined, lower, lower_text, push_text, slice_texts, texts, Chars,
};
use crate::ui::{
    dim, dimmed, green, greened, red, reddened, yellow, yellowed, Status,
};

verus! {

pub const CMD_GET_SENSOR_READING: u8 = 0x2D;

pub const CMD_GET_SENSOR_THRESHOLDS: u8 = 0x27;

// ---------------------------------------------------------------------
// Health
// ---------------------------------------------------------------------

/// The health that threshold status bits stand for. Bits 0 to 5 are lower
/// non-critical, critical and non-recoverable, then upper non-critical,
/// critical and non-recoverable.
pub open spec fn threshold_status(bits: u8) -> Status {
    if bits & 0x36 != 0 {
        Status::Crit
    } else if bits & 0x09 != 0 {
        Status::Warn
    } else {
        Status::Okay
    }
}

pub fn classify_threshold_bits(bits: u8) -> (s: Status)
    ensures
        s == threshold_status(bits),
{
    if bits & 0b0011_0110 != 0 {
        Status::Crit
    } else if bits & 0b0000_1001 != 0 {
        Status::Warn
    } else {
        Status::Okay
    }
}

/// How bad a status is.
pub open spec fn rank(status: Status) -> int {
    match status {
        Status::Okay => 0,
        Status::Unknown => 1,
        Status::Warn => 2,
        Status::Crit => 3,
    }
}

/// The worse of two statuses.
pub open spec fn worse(left: Status, right: Status) -> Status {
    if rank(right) > rank(left) {
        right
    } else {
        left
    }
}

pub fn worst(left: Status, right: Status) -> (s: Status)
    ensures
        s == worse(left, right),
{
    if rank_of(right) > rank_of(left) {
        right
    } else {
        left
    }
}

fn rank_of(status: Status) -> (r: u8)
    ensures
        r == rank(status),
{
    match status {
        Status::Okay => 0,
        Status::Unknown => 1,
        Status::Warn => 2,
        Status::Crit => 3,
    }
}

/// The worse of several statuses does not depend on their order or grouping,
/// and is at least as bad as each.
pub proof fn law_worst_is_a_maximum(a: Status, b: Status, c: Status)
    ensures
        worse(a, b) == worse(b, a),
        worse(worse(a, b), c) == worse(a, worse(b, c)),
        worse(a, a) == a,
        worse(Status::Okay, a) == a,
        rank(worse(a, b)) >= rank(a) && rank(worse(a, b)) >= rank(b),
{
}

pub open spec fn warn_words() -> Seq<Chars> {
    seq!["predictive failure"@, "warning"@, "degraded"@, "not present"@, "absent"@]
}

pub open spec fn crit_words() -> Seq<Chars> {
    seq![
        "failure"@,
        "failed"@,
        "fault"@,
        "critical"@,
        "non-recoverable"@,
        "nonrecoverable"@,
        "lost"@,
        "unavailable"@,
        "thermal trip"@,
        "limit exceeded"@,
        "uncorrectable"@,
    ]
}

pub open spec fn okay_words() -> Seq<Chars> {
    seq!["present"@, "enabled"@, "fully redundant"@, "power on"@, "running"@]
}

/// The health that an asserted state stands for, by its description.
pub open spec fn state_status(text: Chars) -> Status {
    let t = lower(text);
    if contains_any(t, warn_words()) {
        Status::Warn
    } else if contains_any(t, crit_words()) {
        Status::Crit
    } else if contains_any(t, okay_words()) {
        Status::Okay
    } else {
        Status::Warn
    }
}

pub fn discrete_state_status(description: &str) -> (s: Status)
    ensures
        s == state_status(description@),
{
    let value = lower_text(description);
    let warn = ["predictive failure", "warning", "degraded", "not present", "absent"];
    let crit = [
        "failure",
        "failed",
        "fault",
        "critical",
        "non-recoverable",
        "nonrecoverable",
        "lost",
        "unavailable",
        "thermal trip",
        "limit exceeded",
        "uncorrectable",
    ];
    let okay = ["present", "enabled", "fully redundant", "power on", "running"];
    proof {
        assert(slice_texts(warn@) =~= warn_words());
        assert(slice_texts(crit@) =~= crit_words());
        assert(slice_texts(okay@) =~= okay_words());
    }
    if contains_any_text(value.as_str(), warn.as_slice()) {
        Status::Warn
    } else if contains_any_text(value.as_str(), crit.as_slice()) {
        Status::Crit
    } else if contains_any_text(value.as_str(), okay.as_slice()) {
        Status::Okay
    } else {
        Status::Warn
    }
}

/// The text in the color of a status.
pub open spec fn colorized(text: Chars, status: Status, color: bool) -> Chars {
    match status {
        Status::Okay => greened(text, color),
        Status::Warn => yellowed(text, color),
        Status::Crit => reddened(text, color),
        Status::Unknown => dimmed(text, color),
    }
}

pub fn colorize(text: &str, status: Status, color: bool) -> (s: String)
    ensures
        s@ == colorized(text@, status, color),
{
    match status {
        Status::Okay => green(text, color),
        Status::Warn => yellow(text, color),
        Status::Crit => red(text, color),
        Status::Unknown => dim(text, color),
    }
}

/// The plain text of a status badge.
pub open spec fn label_of(status: Status) -> Chars {
    match status {
        Status::Okay => "OK  "@,
        Status::Warn => "WARN"@,
        Status::Crit => "CRIT"@,
        Status::Unknown => " -- "@,
    }
}

pub fn state_label(status: Status) -> (s: &'static str)
    ensures
        s@ == label_of(status),
{
    match status {
        Status::Okay => "OK  ",
        Status::Warn => "WARN",
        Status::Crit => "CRIT",
        Status::Unknown => " -- ",
    }
}

/// How many sensors have each status.
#[derive(Clone, Copy, Debug, PartialEq, Eq, Structural)]
pub struct Counts {
    pub ok: usize,
    pub warn: usize,
    pub crit: usize,
    pub unknown: usize,
}

impl Default for Counts {
    fn default() -> (c: Counts)
        ensures
            c == (Counts { ok: 0, warn: 0, crit: 0, unknown: 0 }),
    {
        Counts { ok: 0, warn: 0, crit: 0, unknown: 0 }
    }
}

impl Counts {
    /// How many sensors were counted.
    pub open spec fn sum(self) -> int {
        self.ok + self.warn + self.crit + self.unknown
    }

    /// The counts with one more sensor of the given status.
    pub open spec fn with(self, status: Status) -> Counts {
        match status {
            Status::Okay => Counts { ok: (self.ok + 1) as usize, ..self },
            Status::Warn => Counts { warn: (self.warn + 1) as usize, ..self },
            Status::Crit => Counts { crit: (self.crit + 1) as usize, ..self },
            Status::Unknown => Counts { unknown: (self.unknown + 1) as usize, ..self },
        }
    }

    pub fn tally(&mut self, status: Status)
        requires
            old(self).sum() < usize::MAX,
        ensures
            *final(self) == old(self).with(status),
            final(self).sum() == old(self).sum() + 1,
    {
        match status {
            Status::Okay => {
                self.ok = self.ok + 1;
            }
            Status::Warn => {
                self.warn = self.warn + 1;
            }
            Status::Crit => {
                self.crit = self.crit + 1;
            }
            Status::Unknown => {
                self.unknown = self.unknown + 1;
            }
        }
    }

    pub fn total(self) -> (n: usize)
        requires
            self.sum() <= usize::MAX,
        ensures
            n == self.sum(),
    {
        self.ok + self.warn + self.crit + self.unknown
    }
}

// ---------------------------------------------------------------------
// Selecting sensors
// ---------------------------------------------------------------------

/// `pattern` occurs in `value`, whatever their case.
pub open spec fn contains_folded(value: Chars, pattern: Chars) -> bool {
    contains(lower(value), lower(pattern))
}

pub fn contains_case_insensitive(value: &str, pattern: &str) -> (r: bool)
    ensures
        r == contains_folded(value@, pattern@),
{
    contains_text(lower_text(value).as_str(), lower_text(pattern).as_str())
}

/// Every value passes an empty list of patterns, and otherwise one that
/// contains one of them.
pub open spec fn passes(patterns: Seq<Chars>, value: Chars) -> bool {
    patterns.len() == 0 || exists|i: int|
        0 <= i < patterns.len() && contains_folded(value, #[trigger] patterns[i])
}

fn passes_any(patterns: &Vec<String>, value: &str) -> (r: bool)
    ensures
        r == passes(texts(patterns@), value@),
{
    if patterns.len() == 0 {
        return true;
    }
    let mut i: usize = 0;
    while i < patterns.len()
        invariant
            i <= patterns.len(),
            forall|j: int| 0 <= j < i ==> !contains_folded(value@, #[trigger] texts(patterns@)[j]),
        decreases patterns.len() - i,
    {
        if contains_case_insensitive(value, patterns[i].as_str()) {
            proof {
                assert(contains_folded(value@, texts(patterns@)[i as int]));
            }
            return true;
        }
        i = i + 1;
    }
    false
}

/// Whether a sensor is asked for by type and name.
pub open spec fn text_matches(args: SensorsArgs, kind_name: Chars, name: Chars) -> bool {
    passes(texts(args.types@), kind_name) && passes(texts(args.name@), name)
}

pub fn matches_text(args: &SensorsArgs, kind_name: &str, name: &str) -> (r: bool)
    ensures
        r == text_matches(*args, kind_name@, name@),
{
    passes_any(&args.types, kind_name) && passes_any(&args.name, name)
}

/// Whether a state to select by is the given status.
pub open spec fn state_is(wanted: SensorState, status: Status) -> bool {
    match wanted {
        SensorState::Okay => status == Status::Okay,
        SensorState::Warn => status == Status::Warn,
        SensorState::Critical => status == Status::Crit,
        SensorState::Unknown => status == Status::Unknown,
    }
}

/// Whether a sensor is asked for by its health.
pub open spec fn state_matches(args: SensorsArgs, status: Status) -> bool {
    args.state@.len() == 0 || exists|i: int|
        0 <= i < args.state@.len() && state_is(#[trigger] args.state@[i], status)
}

pub fn matches_state(args: &SensorsArgs, status: Status) -> (r: bool)
    ensures
        r == state_matches(*args, status),
{
    if args.state.len() == 0 {
        return true;
    }
    let mut i: usize = 0;
    while i < args.state.len()
        invariant
            i <= args.state.len(),
            forall|j: int| 0 <= j < i ==> !state_is(#[trigger] args.state@[j], status),
        decreases args.state.len() - i,
    {
        let same = match args.state[i] {
            SensorState::Okay => status == Status::Okay,
            SensorState::Warn => status == Status::Warn,
            SensorState::Critical => status == Status::Crit,
            SensorState::Unknown => status == Status::Unknown,
        };
        if same {
            proof {
                assert(state_is(args.state@[i as int], status));
            }
            return true;
        }
        i = i + 1;
    }
    false
}

/// Without filters every sensor is asked for, whatever its health.
pub proof fn law_no_filter_keeps_sensors(
    args: SensorsArgs,
    kind_name: Chars,
    name: Chars,
    status: Status,
)
    requires
        args.types@.len() == 0,
        args.name@.len() == 0,
        args.state@.len() == 0,
    ensures
        text_matches(args, kind_name, name),
        state_matches(args, status),
{
}

// ---------------------------------------------------------------------
// Event codes
// ---------------------------------------------------------------------

/// The code byte of an event/reading type.
pub open spec fn code_value(code: EventReadingTypeCodes) -> u8 {
    match code {
        EventReadingTypeCodes::Unspecified => 0x00,
        EventReadingTypeCodes::Threshold => 0x01,
        EventReadingTypeCodes::DiscreteGeneric(value) => value,
        EventReadingTypeCodes::SensorSpecific => 0x6F,
        EventReadingTypeCodes::Oem(value) => value,
        EventReadingTypeCodes::Reserved(value) => value,
    }
}

pub fn event_code_value(code: EventReadingTypeCodes) -> (v: u8)
    ensures
        v == code_value(code),
{
    match code {
        EventReadingTypeCodes::Unspecified => 0x00,
        EventReadingTypeCodes::Threshold => 0x01,
        EventReadingTypeCodes::DiscreteGeneric(value) => value,
        EventReadingTypeCodes::SensorSpecific => 0x6F,
        EventReadingTypeCodes::Oem(value) => value,
        EventReadingTypeCodes::Reserved(value) => value,
    }
}

/// A code byte and the event/reading type it stands for determine each other.
pub proof fn law_codes_round_trip(value: u8)
    ensures
        code_value(crate::sdr::codes_of(value)) == value,
{
}

pub fn is_threshold(code: &EventReadingTypeCodes) -> (r: bool)
    ensures
        r == (*code == EventReadingTypeCodes::Threshold),
{
    matches!(code, EventReadingTypeCodes::Threshold)
}

/// Whether nobody but the vendor knows what the states of a type mean.
pub open spec fn is_opaque_code(code: EventReadingTypeCodes) -> bool {
    code is Unspecified || code is Oem || code is Reserved
}

pub fn has_unknown_semantics(code: EventReadingTypeCodes) -> (r: bool)
    ensures
        r == is_opaque_code(code),
{
    match code {
        EventReadingTypeCodes::Unspecified => true,
        EventReadingTypeCodes::Oem(_) => true,
        EventReadingTypeCodes::Reserved(_) => true,
        _ => false,
    }
}

// ---------------------------------------------------------------------
// Requests and replies
// ---------------------------------------------------------------------

/// A request about a sensor, to the controller that owns it.
pub open spec fn sensor_request_view(key: SensorKey, command: u8) -> RequestView {
    RequestView {
        netfn: NETFN_SENSOR_EVENT,
        cmd: command,
        data: seq![key.sensor_number],
        recipient: Recipient::BmcOrIpmb {
            address: key.owner_id,
            channel: key.owner_channel,
            lun: key.owner_lun,
        },
    }
}

pub fn sensor_request(key: &SensorKey, command: u8) -> (r: Request)
    ensures
        r@ == sensor_request_view(*key, command),
{
    let data = vec![key.sensor_number];
    proof {
        assert(data@ =~= seq![key.sensor_number]);
    }
    Request {
        netfn: NETFN_SENSOR_EVENT,
        cmd: command,
        data,
        recipient: Recipient::BmcOrIpmb {
            address: key.owner_id,
            channel: key.owner_channel,
            lun: key.owner_lun,
        },
    }
}

/// The data of a reply about a sensor that is at least `least` bytes long, or
/// why there is none.
pub open spec fn sensor_data(reply: Result<ResponseView, Chars>, least: nat) -> Result<
    Seq<u8>,
    Chars,
> {
    match reply {
        Err(e) => Err("sensor command failed: "@ + e),
        Ok(response) => if response.cc != 0 {
            Err(completion(response.cc))
        } else if response.data.len() < least {
            Err("short response"@)
        } else {
            Ok(response.data)
        },
    }
}

fn take_sensor_data(reply: &Reply, least: usize) -> (r: Result<&Vec<u8>, String>)
    ensures
        match r {
            Ok(data) => sensor_data(reply_view(*reply), least as nat) == Ok::<Seq<u8>, Chars>(
                data@,
            ),
            Err(e) => sensor_data(reply_view(*reply), least as nat) == Err::<Seq<u8>, Chars>(e@),
        },
{
    match reply {
        Err(e) => Err(concat2("sensor command failed: ", e.as_str())),
        Ok(response) => {
            if response.cc != 0 {
                Err(completion_text(response.cc))
            } else if response.data.len() < least {
                Err("short response".to_owned())
            } else {
                Ok(&response.data)
            }
        }
    }
}

/// The raw reading in a Get Sensor Reading reply, if there is one.
pub open spec fn raw_reading(reply: Result<ResponseView, Chars>) -> Option<u8> {
    match sensor_data(reply, 2) {
        Ok(data) if data[1] & 0x20 == 0 => Some(data[0]),
        _ => None,
    }
}

pub fn raw_reading_of(reply: &Reply) -> (r: Option<u8>)
    ensures
        r == raw_reading(reply_view(*reply)),
{
    match take_sensor_data(reply, 2) {
        Ok(data) => {
            if data[1] & 0x20 == 0 {
                Some(data[0])
            } else {
                None
            }
        }
        Err(_) => None,
    }
}

/// What a Get Sensor Reading reply says of an analog sensor, given the
/// converted reading: its text and its health, by the threshold status bits.
/// An unavailable reading is unknown; one that does not convert is shown raw.
pub open spec fn analog_of(reply: Result<ResponseView, Chars>, shown: Option<Chars>) -> Result<
    (Chars, Status),
    Chars,
> {
    match sensor_data(reply, 2) {
        Err(e) => Err(e),
        Ok(data) => if data[1] & 0x20 != 0 {
            Ok(("n/a"@, Status::Unknown))
        } else {
            Ok(
                (
                    match shown {
                        Some(text) => text,
                        None => "raw 0x"@ + hex(data[0] as nat, 2),
                    },
                    threshold_status(byte_or_zero(data, 2)),
                ),
            )
        },
    }
}

/// What an optional text says.
pub open spec fn shown_view(shown: Option<String>) -> Option<Chars> {
    match shown {
        Some(text) => Some(text@),
        None => None,
    }
}

/// Decodes a Get Sensor Reading reply for an analog sensor, given the converted
/// reading.
pub fn read_analog(reply: &Reply, shown: Option<String>) -> (r: Result<(String, Status), String>)
    ensures
        match r {
            Ok((text, status)) => analog_of(reply_view(*reply), shown_view(shown)) == Ok::<
                (Chars, Status),
                Chars,
            >((text@, status)),
            Err(e) => analog_of(reply_view(*reply), shown_view(shown)) == Err::<
                (Chars, Status),
                Chars,
            >(e@),
        },
{
    match take_sensor_data(reply, 2) {
        Err(e) => Err(e),
        Ok(data) => {
            if data[1] & 0x20 != 0 {
                return Ok(("n/a".to_owned(), Status::Unknown));
            }
            let status = classify_threshold_bits(byte_at(data.as_slice(), 2));
            let text = match shown {
                Some(text) => text,
                None => concat2("raw 0x", hex_text(data[0] as u64, 2).as_str()),
            };
            Ok((text, status))
        }
    }
}

/// The event that a discrete state amounts to.
pub open spec fn state_event(ty: u8, code: EventReadingTypeCodes, offset: u8) -> EntryView {
    EntryView::System {
        record_id: 1,
        timestamp: "Unknown"@,
        sensor_type: ty,
        sensor_number: 0,
        event_direction: EventDirection::Assert,
        event_type: code_value(code),
        event_data: EventData {
            offset: offset & 0x0F,
            data2_type: EventData2Type::Unspecified,
            data3_type: EventData3Type::Unspecified,
        },
    }
}

/// The text of a discrete state: that of its event, or its offset.
pub open spec fn state_text(ty: u8, code: EventReadingTypeCodes, offset: u8) -> Chars {
    let text = description(state_event(ty, code, offset));
    if text.len() == 0 {
        "offset "@ + dec(offset as nat)
    } else {
        text
    }
}

pub fn discrete_description(sensor_type: u8, event_code: EventReadingTypeCodes, offset: u8) -> (s:
    String)
    ensures
        s@ == state_text(sensor_type, event_code, offset),
{
    let bytes = [offset, 0xFF, 0xFF];
    let entry = Entry::System {
        record_id: 1,
        timestamp: "Unknown".to_owned(),
        sensor_type,
        sensor_number: 0,
        event_direction: EventDirection::Assert,
        event_type: event_code_value(event_code),
        event_data: EventData::parse(&bytes),
    };
    let text = entry_description(&entry);
    if text.as_str().is_empty() {
        concat2("offset ", dec_text(offset as u64).as_str())
    } else {
        text
    }
}

/// Whether state `offset` is asserted in a state mask.
pub open spec fn is_asserted(mask: u16, offset: u16) -> bool {
    mask & (1u16 << offset) != 0
}

/// The texts of the asserted states below `n`, lowest first.
pub open spec fn asserted_texts(ty: u8, code: EventReadingTypeCodes, mask: u16, n: int) -> Seq<
    Chars,
>
    decreases n,
{
    if n <= 0 {
        seq![]
    } else {
        let before = asserted_texts(ty, code, mask, n - 1);
        if is_asserted(mask, (n - 1) as u16) {
            before.push(state_text(ty, code, (n - 1) as u8))
        } else {
            before
        }
    }
}

/// The worst health among states with the given texts.
pub open spec fn worst_of(states: Seq<Chars>) -> Status
    decreases states.len(),
{
    if states.len() == 0 {
        Status::Okay
    } else {
        worse(worst_of(states.drop_last()), state_status(states.last()))
    }
}

/// The state mask in a reading: 15 bits, missing bytes as zero.
pub open spec fn state_mask(data: Seq<u8>) -> u16 {
    le16(byte_or_zero(data, 2), byte_or_zero(data, 3) & 0x7F)
}

/// What a Get Sensor Reading reply says of a discrete sensor: its health and
/// its asserted states. States that only the vendor knows are neither good nor
/// bad; the raw mask stays visible.
pub open spec fn discrete_of(
    reply: Result<ResponseView, Chars>,
    ty: u8,
    code: EventReadingTypeCodes,
) -> Result<(Status, Chars), Chars> {
    match sensor_data(reply, 2) {
        Err(e) => Err(e),
        Ok(data) => {
            let mask = state_mask(data);
            let raw = hex(mask as nat, 4);
            if data[1] & 0x20 != 0 {
                Ok((Status::Unknown, "state unavailable"@))
            } else if mask == 0 {
                Ok((Status::Okay, "none (raw 0x0000)"@))
            } else if is_opaque_code(code) {
                Ok((Status::Unknown, "vendor/unspecified state (raw 0x"@ + raw + ")"@))
            } else {
                let states = asserted_texts(ty, code, mask, 15);
                Ok((worst_of(states), joined(states, ", "@) + " (raw 0x"@ + raw + ")"@))
            }
        },
    }
}

/// Decodes a Get Sensor Reading reply for a discrete sensor.
pub fn read_discrete(reply: &Reply, ty: u8, event_code: EventReadingTypeCodes) -> (r: Result<
    (Status, String),
    String,
>)
    ensures
        match r {
            Ok((status, text)) => discrete_of(reply_view(*reply), ty, event_code) == Ok::<
                (Status, Chars),
                Chars,
            >((status, text@)),
            Err(e) => discrete_of(reply_view(*reply), ty, event_code) == Err::<
                (Status, Chars),
                Chars,
            >(e@),
        },
{
    let data = match take_sensor_data(reply, 2) {
        Err(e) => {
            return Err(e);
        }
        Ok(data) => data,
    };
    if data[1] & 0x20 != 0 {
        return Ok((Status::Unknown, "state unavailable".to_owned()));
    }
    let mask: u16 = u16_le(byte_at(data.as_slice(), 2), byte_at(data.as_slice(), 3) & 0x7F);
    if mask == 0 {
        return Ok((Status::Okay, "none (raw 0x0000)".to_owned()));
    }
    let raw = hex_text(mask as u64, 4);
    if has_unknown_semantics(event_code) {
        return Ok(
            (
                Status::Unknown,
                concat3("vendor/unspecified state (raw 0x", raw.as_str(), ")"),
            ),
        );
    }
    let mut states: Vec<String> = Vec::new();
    let mut status = Status::Okay;
    let mut offset: u16 = 0;
    proof {
        assert(texts(states@) =~= seq![]);
    }
    while offset < 15
        invariant
            offset <= 15,
            texts(states@) == asserted_texts(ty, event_code, mask, offset as int),
            status == worst_of(texts(states@)),
        decreases 15 - offset,
    {
        if mask & (1u16 << offset) != 0 {
            let text = discrete_description(ty, event_code, offset as u8);
            status = worst(status, discrete_state_status(text.as_str()));
            let ghost before = texts(states@);
            push_text(&mut states, text);
            proof {
                assert(texts(states@).drop_last() =~= before);
            }
        }
        offset = offset + 1;
    }
    let mut text = join(&states, ", ");
    text.append(" (raw 0x");
    text.append(raw.as_str());
    text.append(")");
    Ok((status, text))
}

/// A state with unknown semantics is never shown as a failure: the health of an
/// asserted OEM, reserved or unspecified state is unknown.
pub proof fn law_vendor_states_are_not_failures(
    data: Seq<u8>,
    ty: u8,
    code: EventReadingTypeCodes,
)
    requires
        is_opaque_code(code),
    ensures
        discrete_of(Ok(ResponseView { cc: 0, data }), ty, code) is Ok ==> {
            let (status, text) = discrete_of(Ok(ResponseView { cc: 0, data }), ty, code)->Ok_0;
            status == Status::Unknown || (status == Status::Okay && state_mask(data) == 0)
        },
{
}

/// The label of threshold `i`.
pub open spec fn threshold_label(i: int) -> Chars {
    if i == 0 {
        "LNC"@
    } else if i == 1 {
        "LC"@
    } else if i == 2 {
        "LNR"@
    } else if i == 3 {
        "UNC"@
    } else if i == 4 {
        "UC"@
    } else {
        "UNR"@
    }
}

/// The configured thresholds below `n` that convert, as `label=value`.
pub open spec fn threshold_parts(mask: u8, shown: Seq<Option<Chars>>, n: int) -> Seq<Chars>
    decreases n,
{
    if n <= 0 {
        seq![]
    } else {
        let before = threshold_parts(mask, shown, n - 1);
        match shown[n - 1] {
            Some(value) if mask & (1u8 << ((n - 1) as u8)) != 0 => before.push(
                threshold_label(n - 1) + "="@ + value,
            ),
            _ => before,
        }
    }
}

/// What a Get Sensor Thresholds reply says, given the six converted values.
pub open spec fn thresholds_of(
    reply: Result<ResponseView, Chars>,
    shown: Seq<Option<Chars>>,
) -> Result<Chars, Chars> {
    match sensor_data(reply, 7) {
        Err(e) => Err(e),
        Ok(data) => {
            let parts = threshold_parts(data[0], shown, 6);
            Ok(
                if parts.len() == 0 {
                    "none configured"@
                } else {
                    joined(parts, "  "@)
                },
            )
        },
    }
}

/// What a list of optional texts says.
pub open spec fn shown_views(shown: Seq<Option<String>>) -> Seq<Option<Chars>> {
    Seq::new(shown.len(), |i: int| shown_view(shown[i]))
}

/// The six raw threshold values in a Get Sensor Thresholds reply.
pub open spec fn raw_thresholds(reply: Result<ResponseView, Chars>) -> Option<Seq<u8>> {
    match sensor_data(reply, 7) {
        Ok(data) => Some(data.subrange(1, 7)),
        Err(_) => None,
    }
}

pub fn raw_thresholds_of(reply: &Reply) -> (r: Option<Vec<u8>>)
    ensures
        match r {
            Some(raw) => raw_thresholds(reply_view(*reply)) == Some(raw@) && raw@.len() == 6,
            None => raw_thresholds(reply_view(*reply)) is None,
        },
{
    match take_sensor_data(reply, 7) {
        Ok(data) => Some(crate::bytes::copy_range(data.as_slice(), 1, 7)),
        Err(_) => None,
    }
}

/// Decodes a Get Sensor Thresholds reply, given the six converted values.
pub fn read_thresholds(reply: &Reply, shown: &Vec<Option<String>>) -> (r: Result<String, String>)
    requires
        shown@.len() == 6,
    ensures
        outcome_text(r) == thresholds_of(reply_view(*reply), shown_views(shown@)),
{
    let data = match take_sensor_data(reply, 7) {
        Err(e) => {
            return Err(e);
        }
        Ok(data) => data,
    };
    let mask: u8 = data[0];
    let labels = ["LNC", "LC", "LNR", "UNC", "UC", "UNR"];
    let mut parts: Vec<String> = Vec::new();
    let mut i: usize = 0;
    proof {
        assert(texts(parts@) =~= seq![]);
    }
    while i < 6
        invariant
            i <= 6,
            shown@.len() == 6,
            labels@.len() == 6,
            forall|k: int| 0 <= k < 6 ==> (#[trigger] labels@[k])@ == threshold_label(k),
            texts(parts@) == threshold_parts(mask, shown_views(shown@), i as int),
        decreases 6 - i,
    {
        let bit: u8 = i as u8;
        if mask & (1u8 << bit) != 0 {
            match &shown[i] {
                Some(value) => {
                    push_text(&mut parts, concat3(labels[i], "=", value.as_str()));
                }
                None => {}
            }
        }
        i = i + 1;
    }
    if parts.len() == 0 {
        Ok("none configured".to_owned())
    } else {
        Ok(join(&parts, "  "))
    }
}

/// What a result with a text says.
pub open spec fn outcome_text(r: Result<String, String>) -> Result<Chars, Chars> {
    match r {
        Ok(s) => Ok(s@),
        Err(e) => Err(e@),
    }
}

} // verus!
