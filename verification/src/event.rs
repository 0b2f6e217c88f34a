//! System Event Log records.
//!
//! The record layouts and the event texts are those of `ipmi-rs`; this module
//! holds the parts of a record that the commands read, and the calls that
//! obtain them.

use vstd::prelude::*;

use ipmi_rs::storage::sdr::decode_event;
use ipmi_rs::storage::sdr::EventData as ParsedEventData;
use ipmi_rs::storage::sdr::EventData2Type as ParsedData2;
use ipmi_rs::storage::sdr::EventData3Type as ParsedData3;
use ipmi_rs::storage::sdr::SensorType;
use ipmi_rs::storage::sel::Entry as ParsedEntry;
use ipmi_rs::storage::sel::EventDirection as ParsedDirection;

use crate::bytes::{le16, le32};
use crate::clock::rfc3339;
use crate::sdr::is_channel;
use crate::text::{dec, dec_text, hex, hex_text, Chars};

verus! {

/// What the second event data byte holds.
#[derive(Clone, Copy, Debug, PartialEq, Eq, Structural)]
pub enum EventData2Type {
    Unspecified,
    TriggerReading(u8),
    OemCode(u8),
    SensorSpecific(u8),
}

/// What the third event data byte holds.
#[derive(Clone, Copy, Debug, PartialEq, Eq, Structural)]
pub enum EventData3Type {
    Unspecified,
    TriggerThreshold(u8),
    OemCode(u8),
    SensorSpecific(u8),
}

/// The event data of a system event.
#[derive(Clone, Copy, Debug, PartialEq, Eq, Structural)]
pub struct EventData {
    pub offset: u8,
    pub data2_type: EventData2Type,
    pub data3_type: EventData3Type,
}

/// Whether an event came about or went away.
#[derive(Clone, Copy, Debug, PartialEq, Eq, Structural)]
pub enum EventDirection {
    Assert,
    Deassert,
}

/// A record of the System Event Log. A timestamp is kept in displayed form.
#[allow(inconsistent_fields)]
#[derive(Clone, Debug)]
pub enum Entry {
    System {
        record_id: u16,
        timestamp: String,
        sensor_type: u8,
        sensor_number: u8,
        event_direction: EventDirection,
        event_type: u8,
        event_data: EventData,
    },
    OemTimestamped {
        record_id: u16,
        ty: u8,
        timestamp: String,
        manufacturer_id: u32,
        data: [u8; 6],
    },
    OemNotTimestamped { record_id: u16, ty: u8, data: [u8; 13] },
}

/// A record, with texts and bytes as sequences.
pub ghost enum EntryView {
    System {
        record_id: u16,
        timestamp: Chars,
        sensor_type: u8,
        sensor_number: u8,
        event_direction: EventDirection,
        event_type: u8,
        event_data: EventData,
    },
    OemTimestamped {
        record_id: u16,
        ty: u8,
        timestamp: Chars,
        manufacturer_id: u32,
        data: Seq<u8>,
    },
    OemNotTimestamped { record_id: u16, ty: u8, data: Seq<u8> },
}

impl View for Entry {
    type V = EntryView;

    open spec fn view(&self) -> EntryView {
        match *self {
            Entry::System {
                record_id,
                timestamp,
                sensor_type,
                sensor_number,
                event_direction,
                event_type,
                event_data,
            } => EntryView::System {
                record_id,
                timestamp: timestamp@,
                sensor_type,
                sensor_number,
                event_direction,
                event_type,
                event_data,
            },
            Entry::OemTimestamped { record_id, ty, timestamp, manufacturer_id, data } =>
                EntryView::OemTimestamped {
                record_id,
                ty,
                timestamp: timestamp@,
                manufacturer_id,
                data: data@,
            },
            Entry::OemNotTimestamped { record_id, ty, data } => EntryView::OemNotTimestamped {
                record_id,
                ty,
                data: data@,
            },
        }
    }
}

impl EntryView {
    /// The record's ID.
    pub open spec fn id(self) -> u16 {
        match self {
            EntryView::System { record_id, .. } => record_id,
            EntryView::OemTimestamped { record_id, .. } => record_id,
            EntryView::OemNotTimestamped { record_id, .. } => record_id,
        }
    }
}

/// What a list of records says.
pub open spec fn entry_views(entries: Seq<Entry>) -> Seq<EntryView> {
    Seq::new(entries.len(), |i: int| entries[i]@)
}

// ---------------------------------------------------------------------
// Event data
// ---------------------------------------------------------------------

/// What the second byte holds, by its selector; 0xFF never holds anything.
pub open spec fn data2_of(selector: u8, value: u8) -> EventData2Type {
    if value == 0xFF {
        EventData2Type::Unspecified
    } else if selector == 1 {
        EventData2Type::TriggerReading(value)
    } else if selector == 2 {
        EventData2Type::OemCode(value)
    } else if selector == 3 {
        EventData2Type::SensorSpecific(value)
    } else {
        EventData2Type::Unspecified
    }
}

/// What the third byte holds, by its selector; 0xFF never holds anything.
pub open spec fn data3_of(selector: u8, value: u8) -> EventData3Type {
    if value == 0xFF {
        EventData3Type::Unspecified
    } else if selector == 1 {
        EventData3Type::TriggerThreshold(value)
    } else if selector == 2 {
        EventData3Type::OemCode(value)
    } else if selector == 3 {
        EventData3Type::SensorSpecific(value)
    } else {
        EventData3Type::Unspecified
    }
}

/// Event data as IPMI 2.0 section 29.7 lays it out: bits 7:6 of the first byte
/// select what the second holds, bits 5:4 what the third holds.
pub open spec fn wire_event_data(data: Seq<u8>) -> EventData {
    EventData {
        offset: data[0] & 0x0F,
        data2_type: data2_of((data[0] >> 6) & 3, data[1]),
        data3_type: data3_of((data[0] >> 4) & 3, data[2]),
    }
}

/// Event data in normalized form: bits 5:4 of the first byte select what the
/// second holds, bits 7:6 what the third holds.
pub open spec fn normalized_event_data(data: Seq<u8>) -> EventData {
    EventData {
        offset: data[0] & 0x0F,
        data2_type: data2_of((data[0] >> 4) & 3, data[1]),
        data3_type: data3_of((data[0] >> 6) & 3, data[2]),
    }
}

/// The first event data byte with its two selectors exchanged.
pub open spec fn swapped(value: u8) -> u8 {
    (value & 0x0F) | ((value & 0xC0) >> 2) | ((value & 0x30) << 2)
}

/// Exchanges the selectors of the first event data byte, which turns the wire
/// order into the normalized one and back. The event offset is intact.
pub fn swap_event_data_selectors(value: u8) -> (r: u8)
    ensures
        r == swapped(value),
{
    (value & 0x0F) | ((value & 0xC0) >> 2) | ((value & 0x30) << 2)
}

proof fn lemma_swapped(b: u8)
    ensures
        swapped(b) & 0x0F == b & 0x0F,
        (swapped(b) >> 6) & 3 == (b >> 4) & 3,
        (swapped(b) >> 4) & 3 == (b >> 6) & 3,
        swapped(swapped(b)) == b,
{
    let s = swapped(b);
    assert(s == (b & 0x0F) | ((b & 0xC0) >> 2) | ((b & 0x30) << 2));
    assert(s & 0x0F == b & 0x0F) by (bit_vector)
        requires
            s == (b & 0x0F) | ((b & 0xC0) >> 2) | ((b & 0x30) << 2),
    ;
    assert((s >> 6) & 3 == (b >> 4) & 3) by (bit_vector)
        requires
            s == (b & 0x0F) | ((b & 0xC0) >> 2) | ((b & 0x30) << 2),
    ;
    assert((s >> 4) & 3 == (b >> 6) & 3) by (bit_vector)
        requires
            s == (b & 0x0F) | ((b & 0xC0) >> 2) | ((b & 0x30) << 2),
    ;
    assert((s & 0x0F) | ((s & 0xC0) >> 2) | ((s & 0x30) << 2) == b) by (bit_vector)
        requires
            s == (b & 0x0F) | ((b & 0xC0) >> 2) | ((b & 0x30) << 2),
    ;
}

/// Exchanging the selectors twice changes nothing.
pub proof fn law_swap_is_its_own_inverse(value: u8)
    ensures
        swapped(swapped(value)) == value,
{
    lemma_swapped(value);
}

/// Normalizing keeps the meaning: event data whose first byte was normalized
/// says what the bytes on the wire say.
pub proof fn law_normalizing_keeps_meaning(b0: u8, b1: u8, b2: u8)
    ensures
        normalized_event_data(seq![swapped(b0), b1, b2]) == wire_event_data(seq![b0, b1, b2]),
        wire_event_data(seq![swapped(b0), b1, b2]) == normalized_event_data(seq![b0, b1, b2]),
{
    lemma_swapped(b0);
}

/// `ipmi_rs::storage::sdr::EventData::parse`: decodes the three event data
/// bytes as they stand on the wire.
#[verifier::external_body]
fn parse_wire_event_data(data: &[u8; 3]) -> (r: EventData)
    ensures
        r == wire_event_data(data@),
{
    let parsed = ParsedEventData::parse(data);
    let data2_type = match parsed.data2_type {
        ParsedData2::Unspecified => EventData2Type::Unspecified,
        ParsedData2::TriggerReading(value) => EventData2Type::TriggerReading(value.get()),
        ParsedData2::OemCode(value) => EventData2Type::OemCode(value.get()),
        ParsedData2::SensorSpecific(value) => EventData2Type::SensorSpecific(value.get()),
    };
    let data3_type = match parsed.data3_type {
        ParsedData3::Unspecified => EventData3Type::Unspecified,
        ParsedData3::TriggerThreshold(value) => EventData3Type::TriggerThreshold(value.get()),
        ParsedData3::OemCode(value) => EventData3Type::OemCode(value.get()),
        ParsedData3::SensorSpecific(value) => EventData3Type::SensorSpecific(value.get()),
    };
    EventData { offset: parsed.offset, data2_type, data3_type }
}

impl EventData {
    /// Decodes event data in normalized form.
    pub fn parse(data: &[u8; 3]) -> (r: EventData)
        ensures
            r == normalized_event_data(data@),
    {
        let wire = [swap_event_data_selectors(data[0]), data[1], data[2]];
        proof {
            lemma_swapped(data[0]);
        }
        parse_wire_event_data(&wire)
    }

    /// What is shown of the second byte.
    pub open spec fn data2_text(self) -> Option<Chars> {
        match self.data2_type {
            EventData2Type::Unspecified => None,
            EventData2Type::TriggerReading(value) => Some("reading="@ + dec(value as nat)),
            EventData2Type::OemCode(value) => Some("oem2=0x"@ + hex(value as nat, 2)),
            EventData2Type::SensorSpecific(value) => Some("ext2=0x"@ + hex(value as nat, 2)),
        }
    }

    /// What is shown of the third byte.
    pub open spec fn data3_text(self) -> Option<Chars> {
        match self.data3_type {
            EventData3Type::Unspecified => None,
            EventData3Type::TriggerThreshold(value) => Some("threshold="@ + dec(value as nat)),
            EventData3Type::OemCode(value) => Some("oem3=0x"@ + hex(value as nat, 2)),
            EventData3Type::SensorSpecific(value) => Some("ext3=0x"@ + hex(value as nat, 2)),
        }
    }

    /// What is shown of the second and third byte.
    pub open spec fn spec_text(self) -> Chars {
        match (self.data2_text(), self.data3_text()) {
            (Some(a), Some(b)) => a + ", "@ + b,
            (Some(a), None) => a,
            (None, Some(b)) => b,
            (None, None) => ""@,
        }
    }

    /// Renders the second and third byte; empty when neither holds anything.
    pub fn text(&self) -> (s: String)
        ensures
            s@ == self.spec_text(),
    {
        let second = match self.data2_type {
            EventData2Type::Unspecified => None,
            EventData2Type::TriggerReading(value) => Some(
                crate::conn::concat2("reading=", dec_text(value as u64).as_str()),
            ),
            EventData2Type::OemCode(value) => Some(
                crate::conn::concat2("oem2=0x", hex_text(value as u64, 2).as_str()),
            ),
            EventData2Type::SensorSpecific(value) => Some(
                crate::conn::concat2("ext2=0x", hex_text(value as u64, 2).as_str()),
            ),
        };
        let third = match self.data3_type {
            EventData3Type::Unspecified => None,
            EventData3Type::TriggerThreshold(value) => Some(
                crate::conn::concat2("threshold=", dec_text(value as u64).as_str()),
            ),
            EventData3Type::OemCode(value) => Some(
                crate::conn::concat2("oem3=0x", hex_text(value as u64, 2).as_str()),
            ),
            EventData3Type::SensorSpecific(value) => Some(
                crate::conn::concat2("ext3=0x", hex_text(value as u64, 2).as_str()),
            ),
        };
        match (second, third) {
            (Some(a), Some(b)) => crate::conn::concat3(a.as_str(), ", ", b.as_str()),
            (Some(a), None) => a,
            (None, Some(b)) => b,
            (None, None) => "".to_owned(),
        }
    }
}

// ---------------------------------------------------------------------
// Records
// ---------------------------------------------------------------------

/// The displayed form of a record's timestamp.
pub open spec fn timestamp_text(seconds: u32) -> Chars {
    if seconds == 0 {
        "Unknown"@
    } else {
        rfc3339(seconds as int)
    }
}

/// What a record says, given its event data; or why it cannot be decoded.
pub open spec fn entry_of(raw: Seq<u8>, event_data: EventData) -> Result<EntryView, Chars> {
    let seconds = le32(raw[3], raw[4], raw[5], raw[6]);
    if raw.len() < 16 {
        Err("NotEnoughData"@)
    } else if raw[2] == 0x02 {
        if is_channel((raw[8] / 16) as int) {
            Ok(
                EntryView::System {
                    record_id: le16(raw[0], raw[1]),
                    timestamp: timestamp_text(seconds),
                    sensor_type: raw[10],
                    sensor_number: raw[11],
                    event_direction: if raw[12] & 0x80 == 0x80 {
                        EventDirection::Deassert
                    } else {
                        EventDirection::Assert
                    },
                    event_type: raw[12] & 0x7F,
                    event_data,
                },
            )
        } else {
            Err("InvalidChannel("@ + dec((raw[8] / 16) as nat) + ")"@)
        }
    } else if 0xC0 <= raw[2] <= 0xDF {
        Ok(
            EntryView::OemTimestamped {
                record_id: le16(raw[0], raw[1]),
                ty: raw[2],
                timestamp: timestamp_text(seconds),
                manufacturer_id: le32(raw[7], raw[8], raw[9], 0),
                data: raw.subrange(10, 16),
            },
        )
    } else if 0xE0 <= raw[2] {
        Ok(
            EntryView::OemNotTimestamped {
                record_id: le16(raw[0], raw[1]),
                ty: raw[2],
                data: raw.subrange(3, 16),
            },
        )
    } else {
        Err("UnknownRecordType("@ + dec(raw[2] as nat) + ")"@)
    }
}

/// `ipmi_rs::storage::sel::Entry::parse`: decodes a record. The event data is
/// passed through to a system event; the timestamp is displayed, zero as
/// `Unknown`; the error is the debug form of the parser's error.
#[verifier::external_body]
fn parse_entry(raw: &[u8], event_data: EventData) -> (r: Result<Entry, String>)
    ensures
        match r {
            Ok(entry) => entry_of(raw@, event_data) == Ok::<EntryView, Chars>(entry@),
            Err(e) => entry_of(raw@, event_data) == Err::<EntryView, Chars>(e@),
        },
{
    match ParsedEntry::parse(raw).map_err(|error| format!("{error:?}"))? {
        ParsedEntry::System { record_id, timestamp, sensor_type, sensor_number, event_direction, event_type, .. } => {
            let (record_id, timestamp) = (record_id.value(), timestamp.to_string());
            let event_direction = match event_direction {
                ParsedDirection::Assert => EventDirection::Assert,
                ParsedDirection::Deassert => EventDirection::Deassert,
            };
            Ok(Entry::System { record_id, timestamp, sensor_type, sensor_number, event_direction, event_type, event_data })
        }
        ParsedEntry::OemTimestamped { record_id, ty, timestamp, manufacturer_id, data } =>
            Ok(Entry::OemTimestamped { record_id: record_id.value(), ty, timestamp: timestamp.to_string(), manufacturer_id, data }),
        ParsedEntry::OemNotTimestamped { record_id, ty, data } =>
            Ok(Entry::OemNotTimestamped { record_id: record_id.value(), ty, data }),
    }
}

impl Entry {
    /// Decodes a record whose event data is in normalized form.
    pub fn parse(raw: &[u8; 16]) -> (r: Result<Entry, String>)
        ensures
            match r {
                Ok(entry) => entry_of(raw@, normalized_event_data(raw@.subrange(13, 16))) == Ok::<
                    EntryView,
                    Chars,
                >(entry@),
                Err(e) => entry_of(raw@, normalized_event_data(raw@.subrange(13, 16))) == Err::<
                    EntryView,
                    Chars,
                >(e@),
            },
    {
        let tail = [raw[13], raw[14], raw[15]];
        let event_data = EventData::parse(&tail);
        proof {
            assert(tail@ =~= raw@.subrange(13, 16));
        }
        parse_entry(raw.as_slice(), event_data)
    }
}

/// The text that describes an event, by event type, sensor type and offset.
pub uninterp spec fn event_text(event_type: u8, sensor_type: u8, offset: u8) -> Seq<char>;

/// `ipmi_rs::storage::sdr::decode_event`: the text that describes an event. The
/// text is named; event types that are neither generic (1 to 12) nor
/// sensor-specific (0x6F) have none.
#[verifier::external_body]
pub(crate) fn describe_event(event_type: u8, sensor_type: u8, offset: u8) -> (s: String)
    ensures
        s@ == event_text(event_type, sensor_type, offset),
        !(1 <= event_type & 0x7F <= 0x0C) && event_type & 0x7F != 0x6F ==> s@.len() == 0,
{
    std::fmt::from_fn(|f| decode_event(f, event_type, SensorType::from(sensor_type), offset))
        .to_string()
}

} // verus!
