//! `sel` — System Event Log: what entries mean and how they are shown.

use vstd::prelude::*;

use crate::assoc::Assoc;
use crate::bytes::{copy_range, law_le16_round_trip, le16, u16_le};
use crate::cli::SelSeverity;
use crate::clock::{read_time, rfc3339, time_of};
use crate::cmd::fujitsu::{DecodedSelEntry, DecodedView, Severity};
use crate::conn::{concat2, concat3};
use crate::event::{
    describe_event, entry_views, event_text, Entry, EntryView, EventData, EventData2Type,
    EventData3Type, EventDirection,
};
use crate::sdr::{
    record_views, sensor_type_name, sensor_type_text, ContentsView, Record, RecordContents,
    RecordView, SensorView,
};
use crate::text::{
    append_texts, ascii_gutter, ascii_gutter_text, contains, contains_any, contains_any_text,
    contains_text, dec, dec_text, hex, hex_dump, hex_dump_text, hex_text, lower, lower_text,
    printable, push_text, remove_text, same_text, slice_texts, texts, without, Chars,
};
use crate::ui::{
    cells, colored_cell, cyan, cyaned, dim, dimmed, green, greened, header, header_lines, indent,
    indented, plain_cell, red, reddened, yellow, yellowed, Align, Cell, CellView, Table, TableView,
};

verus! {

// ---------------------------------------------------------------------
// Descriptions
// ---------------------------------------------------------------------

/// The text for a power-unit event "power off / power down": these come in
/// asserted/deasserted pairs during an ordinary restart.
pub open spec fn power_transition(e: EntryView) -> Option<Chars> {
    match e {
        EntryView::System { sensor_type, event_direction, event_type, event_data, .. } => if sensor_type
            == 0x09 && event_type == 0x6F && event_data.offset == 0x00 {
            Some(
                match event_direction {
                    EventDirection::Assert => "Power off / power down initiated"@,
                    EventDirection::Deassert => "Power off / power down condition cleared"@,
                },
            )
        } else {
            None
        },
        _ => None,
    }
}

pub fn power_unit_transition_description(entry: &Entry) -> (r: Option<String>)
    ensures
        match r {
            Some(s) => power_transition(entry@) == Some(s@),
            None => power_transition(entry@) is None,
        },
{
    match entry {
        Entry::System { sensor_type, event_direction, event_type, event_data, .. } => {
            if *sensor_type != 0x09 || *event_type != 0x6F || event_data.offset != 0x00 {
                return None;
            }
            match event_direction {
                EventDirection::Assert => Some("Power off / power down initiated".to_owned()),
                EventDirection::Deassert => Some(
                    "Power off / power down condition cleared".to_owned(),
                ),
            }
        }
        _ => None,
    }
}

/// The text for a firmware progress code (IPMI 2.0, System Firmware Progress
/// extension codes).
pub open spec fn progress_text(code: u8) -> Chars {
    match code {
        0x00 => "Firmware progress checkpoint (detail not supplied by firmware)"@,
        0x01 => "Memory initialization"@,
        0x02 => "Hard-disk initialization"@,
        0x03 => "Secondary processor initialization"@,
        0x04 => "User authentication"@,
        0x05 => "User-initiated system setup"@,
        0x06 => "USB resource configuration"@,
        0x07 => "PCI resource configuration"@,
        0x08 => "Option ROM initialization"@,
        0x09 => "Video initialization"@,
        0x0A => "Cache initialization"@,
        0x0B => "SMBus initialization"@,
        0x0C => "Keyboard controller initialization"@,
        0x0D => "Embedded controller initialization"@,
        0x0E => "Docking station attachment"@,
        0x0F => "Enabling docking station"@,
        0x10 => "Docking station ejection"@,
        0x11 => "Disabling docking station"@,
        0x12 => "Calling operating system wake-up vector"@,
        0x13 => "Starting operating system boot process"@,
        0x14 => "Baseboard or motherboard initialization"@,
        0x16 => "Floppy initialization"@,
        0x17 => "Keyboard test"@,
        0x18 => "Pointing device test"@,
        0x19 => "Primary processor initialization"@,
        _ => "System firmware progress code 0x"@ + hex(code as nat, 2),
    }
}

/// The text for a system firmware progress event.
pub open spec fn firmware_progress(e: EntryView) -> Option<Chars> {
    match e {
        EntryView::System { sensor_type, event_type, event_data, .. } => if sensor_type == 0x0F
            && event_type == 0x6F && event_data.offset == 0x02 {
            Some(
                match event_data.data2_type {
                    EventData2Type::SensorSpecific(code) => progress_text(code),
                    _ => progress_text(0),
                },
            )
        } else {
            None
        },
        _ => None,
    }
}

pub fn system_firmware_progress_description(entry: &Entry) -> (r: Option<String>)
    ensures
        match r {
            Some(s) => firmware_progress(entry@) == Some(s@),
            None => firmware_progress(entry@) is None,
        },
{
    let code: u8 = match entry {
        Entry::System { sensor_type, event_type, event_data, .. } => {
            if *sensor_type != 0x0F || *event_type != 0x6F || event_data.offset != 0x02 {
                return None;
            }
            match event_data.data2_type {
                EventData2Type::SensorSpecific(value) => value,
                _ => {
                    return Some(
                        "Firmware progress checkpoint (detail not supplied by firmware)".to_owned(),
                    );
                }
            }
        }
        _ => {
            return None;
        }
    };
    let detail = match code {
        0x00 => "Firmware progress checkpoint (detail not supplied by firmware)",
        0x01 => "Memory initialization",
        0x02 => "Hard-disk initialization",
        0x03 => "Secondary processor initialization",
        0x04 => "User authentication",
        0x05 => "User-initiated system setup",
        0x06 => "USB resource configuration",
        0x07 => "PCI resource configuration",
        0x08 => "Option ROM initialization",
        0x09 => "Video initialization",
        0x0A => "Cache initialization",
        0x0B => "SMBus initialization",
        0x0C => "Keyboard controller initialization",
        0x0D => "Embedded controller initialization",
        0x0E => "Docking station attachment",
        0x0F => "Enabling docking station",
        0x10 => "Docking station ejection",
        0x11 => "Disabling docking station",
        0x12 => "Calling operating system wake-up vector",
        0x13 => "Starting operating system boot process",
        0x14 => "Baseboard or motherboard initialization",
        0x16 => "Floppy initialization",
        0x17 => "Keyboard test",
        0x18 => "Pointing device test",
        0x19 => "Primary processor initialization",
        _ => {
            return Some(
                concat2("System firmware progress code 0x", hex_text(code as u64, 2).as_str()),
            );
        }
    };
    Some(detail.to_owned())
}

/// The text that describes an entry, given the generic text of its event:
/// power-unit transitions and firmware progress have texts of their own, and
/// OEM records have none.
pub open spec fn described(e: EntryView, generic: Chars) -> Chars {
    match power_transition(e) {
        Some(s) => s,
        None => match firmware_progress(e) {
            Some(s) => s,
            None => match e {
                EntryView::System { .. } => generic,
                _ => ""@,
            },
        },
    }
}

/// The generic text of an entry's event.
pub open spec fn generic_text(e: EntryView) -> Chars {
    match e {
        EntryView::System { sensor_type, event_type, event_data, .. } => event_text(
            event_type,
            sensor_type,
            event_data.offset,
        ),
        _ => ""@,
    }
}

/// The text that describes an entry.
pub open spec fn description(e: EntryView) -> Chars {
    described(e, generic_text(e))
}

/// Describes an entry, given the generic text of its event.
pub fn describe_entry(entry: &Entry, generic: &str) -> (s: String)
    ensures
        s@ == described(entry@, generic@),
{
    if let Some(text) = power_unit_transition_description(entry) {
        return text;
    }
    if let Some(text) = system_firmware_progress_description(entry) {
        return text;
    }
    match entry {
        Entry::System { .. } => generic.to_owned(),
        _ => "".to_owned(),
    }
}

fn generic_description(entry: &Entry) -> (s: String)
    ensures
        s@ == generic_text(entry@),
{
    match entry {
        Entry::System { sensor_type, event_type, event_data, .. } => describe_event(
            *event_type,
            *sensor_type,
            event_data.offset,
        ),
        _ => "".to_owned(),
    }
}

/// Describes an entry; empty when there is no text for it.
pub fn entry_description(entry: &Entry) -> (s: String)
    ensures
        s@ == description(entry@),
{
    describe_entry(entry, generic_description(entry).as_str())
}

/// The kind of an event type.
pub open spec fn kind_name(event_type: u8) -> Chars {
    if event_type == 0x01 {
        "threshold"@
    } else if 0x02 <= event_type <= 0x0C {
        "generic discrete"@
    } else if event_type == 0x6F {
        "sensor-specific"@
    } else if 0x70 <= event_type <= 0x7F {
        "OEM"@
    } else {
        "unknown"@
    }
}

/// The name of a direction.
pub open spec fn direction_name(direction: EventDirection) -> Chars {
    match direction {
        EventDirection::Assert => "asserted"@,
        EventDirection::Deassert => "deasserted"@,
    }
}

/// What is shown of an entry that `text` describes: the text, or, when it is
/// empty, the raw fields.
pub open spec fn displayed(e: EntryView, text: Chars) -> Chars {
    if text.len() > 0 {
        text
    } else {
        match e {
            EntryView::System { event_direction, event_type, event_data, .. } => {
                let head = direction_name(event_direction) + " "@ + kind_name(event_type)
                    + " event (type 0x"@ + hex(event_type as nat, 2) + ", offset 0x"@ + hex(
                    event_data.offset as nat,
                    2,
                );
                if event_data.spec_text().len() == 0 {
                    head + ")"@
                } else {
                    head + "; "@ + event_data.spec_text() + ")"@
                }
            },
            _ => "undecoded OEM record"@,
        }
    }
}

/// What is shown of an entry.
pub open spec fn display_description(e: EntryView) -> Chars {
    displayed(e, description(e))
}

/// Shows an entry that `text` describes.
pub fn display_described(entry: &Entry, text: &str) -> (s: String)
    ensures
        s@ == displayed(entry@, text@),
{
    if !text.is_empty() {
        return text.to_owned();
    }
    match entry {
        Entry::System { event_direction, event_type, event_data, .. } => {
            let direction = match event_direction {
                EventDirection::Assert => "asserted",
                EventDirection::Deassert => "deasserted",
            };
            let event_type: u8 = *event_type;
            let kind = if event_type == 0x01 {
                "threshold"
            } else if 0x02 <= event_type && event_type <= 0x0C {
                "generic discrete"
            } else if event_type == 0x6F {
                "sensor-specific"
            } else if 0x70 <= event_type && event_type <= 0x7F {
                "OEM"
            } else {
                "unknown"
            };
            let extra = event_data.text();
            let mut s = concat3(direction, " ", kind);
            s.append(" event (type 0x");
            s.append(hex_text(event_type as u64, 2).as_str());
            s.append(", offset 0x");
            s.append(hex_text(event_data.offset as u64, 2).as_str());
            if extra.as_str().is_empty() {
                s.append(")");
            } else {
                s.append("; ");
                s.append(extra.as_str());
                s.append(")");
            }
            s
        }
        _ => "undecoded OEM record".to_owned(),
    }
}

/// Shows an entry: its description, or its raw fields when it has none.
pub fn display_entry_description(entry: &Entry) -> (s: String)
    ensures
        s@ == display_description(entry@),
{
    display_described(entry, entry_description(entry).as_str())
}

// ---------------------------------------------------------------------
// Severity
// ---------------------------------------------------------------------

pub open spec fn critical_words() -> Seq<Chars> {
    seq![
        "failure"@,
        "failed"@,
        "fault"@,
        "critical"@,
        "non-recoverable"@,
        "lost"@,
        "thermal trip"@,
        "uncorrectable"@,
        "limit exceeded"@,
        "softlockup"@,
        "hung task"@,
        "kernel panic"@,
        "fatal"@,
    ]
}

pub open spec fn normal_words() -> Seq<Chars> {
    seq![
        "present"@,
        "enabled"@,
        "fully redundant"@,
        "power on"@,
        "running"@,
        "recovered"@,
        "restored"@,
    ]
}

pub open spec fn warning_words() -> Seq<Chars> {
    seq!["warning"@, "degraded"@, "predictive"@]
}

/// The severity that a description suggests, whatever its case: words of
/// failure come before words of health, and those before words of warning.
pub open spec fn severity_of_text(text: Chars) -> Option<SelSeverity> {
    let t = lower(text);
    if contains_any(t, critical_words()) {
        Some(SelSeverity::Critical)
    } else if contains_any(t, normal_words()) {
        Some(SelSeverity::Normal)
    } else if contains_any(t, warning_words()) {
        Some(SelSeverity::Warning)
    } else {
        None
    }
}

pub fn severity_from_description(description: &str) -> (r: Option<SelSeverity>)
    ensures
        r == severity_of_text(description@),
{
    let text = lower_text(description);
    let critical = [
        "failure",
        "failed",
        "fault",
        "critical",
        "non-recoverable",
        "lost",
        "thermal trip",
        "uncorrectable",
        "limit exceeded",
        "softlockup",
        "hung task",
        "kernel panic",
        "fatal",
    ];
    let normal = [
        "present",
        "enabled",
        "fully redundant",
        "power on",
        "running",
        "recovered",
        "restored",
    ];
    let warning = ["warning", "degraded", "predictive"];
    proof {
        assert(slice_texts(critical@) =~= critical_words());
        assert(slice_texts(normal@) =~= normal_words());
        assert(slice_texts(warning@) =~= warning_words());
    }
    if contains_any_text(text.as_str(), critical.as_slice()) {
        Some(SelSeverity::Critical)
    } else if contains_any_text(text.as_str(), normal.as_slice()) {
        Some(SelSeverity::Normal)
    } else if contains_any_text(text.as_str(), warning.as_slice()) {
        Some(SelSeverity::Warning)
    } else {
        None
    }
}

/// The severity of an entry that `text` describes. Records carry no severity,
/// so it is inferred: a deasserted event is normal; firmware progress and power
/// transitions are informational; a threshold event goes by which threshold was
/// crossed; anything else by its description, and an event without one is
/// unknown.
pub open spec fn severity_given(e: EntryView, text: Chars) -> SelSeverity {
    match e {
        EntryView::System { sensor_type, event_direction, event_type, event_data, .. } => {
            let offset = event_data.offset;
            if event_direction == EventDirection::Deassert {
                SelSeverity::Normal
            } else if sensor_type == 0x0F && event_type == 0x6F {
                if offset == 2 {
                    SelSeverity::Normal
                } else if offset <= 1 {
                    SelSeverity::Critical
                } else {
                    SelSeverity::Unknown
                }
            } else if sensor_type == 0x09 && event_type == 0x6F && offset == 0 {
                SelSeverity::Normal
            } else if event_type == 0x01 {
                if offset == 0 || offset == 1 || offset == 6 || offset == 7 {
                    SelSeverity::Warning
                } else if offset <= 11 {
                    SelSeverity::Critical
                } else {
                    SelSeverity::Unknown
                }
            } else if text.len() == 0 {
                SelSeverity::Unknown
            } else {
                match severity_of_text(lower(text)) {
                    Some(severity) => severity,
                    None => SelSeverity::Warning,
                }
            }
        },
        _ => SelSeverity::Unknown,
    }
}

/// The severity of an entry.
pub open spec fn severity(e: EntryView) -> SelSeverity {
    severity_given(e, description(e))
}

/// Infers the severity of an entry that `text` describes.
pub fn severity_of_described(entry: &Entry, text: &str) -> (r: SelSeverity)
    ensures
        r == severity_given(entry@, text@),
{
    match entry {
        Entry::System { sensor_type, event_direction, event_type, event_data, .. } => {
            let offset: u8 = event_data.offset;
            if *event_direction == EventDirection::Deassert {
                return SelSeverity::Normal;
            }
            if *sensor_type == 0x0F && *event_type == 0x6F {
                return if offset == 2 {
                    SelSeverity::Normal
                } else if offset <= 1 {
                    SelSeverity::Critical
                } else {
                    SelSeverity::Unknown
                };
            }
            if *sensor_type == 0x09 && *event_type == 0x6F && offset == 0 {
                return SelSeverity::Normal;
            }
            if *event_type == 0x01 {
                return if offset == 0 || offset == 1 || offset == 6 || offset == 7 {
                    SelSeverity::Warning
                } else if offset <= 11 {
                    SelSeverity::Critical
                } else {
                    SelSeverity::Unknown
                };
            }
            if text.is_empty() {
                return SelSeverity::Unknown;
            }
            match severity_from_description(lower_text(text).as_str()) {
                Some(severity) => severity,
                None => SelSeverity::Warning,
            }
        }
        _ => SelSeverity::Unknown,
    }
}

/// Infer severity because SEL records do not contain a standard severity field.
pub fn entry_severity(entry: &Entry) -> (r: SelSeverity)
    ensures
        r == severity(entry@),
{
    severity_of_described(entry, entry_description(entry).as_str())
}

/// A deasserted event is never a problem, and a record that is no system event
/// has no known severity, whatever describes them.
pub proof fn law_cleared_events_are_normal(e: EntryView, text: Chars)
    ensures
        e is System && e->event_direction == EventDirection::Deassert ==> severity_given(e, text)
            == SelSeverity::Normal,
        !(e is System) ==> severity_given(e, text) == SelSeverity::Unknown,
{
}

/// Severity is not guessed: an asserted event without a description that is no
/// threshold event, firmware progress or power transition is unknown, and is
/// shown by its raw fields.
pub proof fn law_undescribed_events_are_unknown(e: EntryView)
    requires
        e is System,
        e->event_direction == EventDirection::Assert,
        e->event_type != 0x01,
        !(e->System_sensor_type == 0x0F && e->event_type == 0x6F),
        !(e->System_sensor_type == 0x09 && e->event_type == 0x6F && e->event_data.offset == 0),
    ensures
        severity_given(e, seq![]) == SelSeverity::Unknown,
        displayed(e, seq![]).len() > 0,
{
    reveal_strlit(" event (type 0x");
}

// ---------------------------------------------------------------------
// Sensor names and translated entries
// ---------------------------------------------------------------------

/// Names of sensors, by sensor type and number.
pub struct SensorNames {
    names: Assoc<String>,
}

impl View for SensorNames {
    type V = Map<(u8, u8), Chars>;

    closed spec fn view(&self) -> Map<(u8, u8), Chars> {
        Map::new(
            |key: (u8, u8)| self.names@.dom().contains(le16(key.0, key.1)),
            |key: (u8, u8)| self.names@[le16(key.0, key.1)]@,
        )
    }
}

impl SensorNames {
    pub fn new() -> (names: SensorNames)
        ensures
            names@ == Map::<(u8, u8), Chars>::empty(),
    {
        let names = SensorNames { names: Assoc::new() };
        proof {
            assert(names@ =~= Map::<(u8, u8), Chars>::empty());
        }
        names
    }

    /// Names the sensor with the given type and number.
    pub fn insert(&mut self, key: (u8, u8), name: String)
        ensures
            final(self)@ == old(self)@.insert(key, name@),
    {
        self.names.insert(u16_le(key.0, key.1), name);
        proof {
            assert forall|k: (u8, u8)| le16(k.0, k.1) == le16(key.0, key.1) implies k == key by {
                law_le16_round_trip(0, k.0, k.1);
                law_le16_round_trip(0, key.0, key.1);
            }
            assert(self@ =~= old(self)@.insert(key, name@));
        }
    }

    pub fn get(&self, key: (u8, u8)) -> (r: Option<&String>)
        ensures
            match r {
                Some(name) => self@.dom().contains(key) && self@[key] == name@,
                None => !self@.dom().contains(key),
            },
    {
        self.names.get(u16_le(key.0, key.1))
    }
}

/// The sensor that a record describes, if it is a sensor record.
pub open spec fn sensor_in(record: RecordView) -> Option<SensorView> {
    match record.contents {
        ContentsView::FullSensor { sensor, .. } => Some(sensor),
        ContentsView::CompactSensor(sensor) => Some(sensor),
        ContentsView::EventOnlySensor(sensor) => Some(sensor),
        _ => None,
    }
}

/// The names that the sensor records of a repository give; of two records for
/// one type and number the later one counts.
pub open spec fn names_of(records: Seq<RecordView>) -> Map<(u8, u8), Chars>
    decreases records.len(),
{
    if records.len() == 0 {
        Map::empty()
    } else {
        let before = names_of(records.drop_last());
        match sensor_in(records.last()) {
            Some(sensor) => before.insert((sensor.ty, sensor.key.sensor_number), sensor.name),
            None => before,
        }
    }
}

/// Collects the names that the sensor records of a repository give.
pub fn sensor_names(records: &Vec<Record>) -> (names: SensorNames)
    ensures
        names@ == names_of(record_views(records@)),
{
    let mut names = SensorNames::new();
    let mut i: usize = 0;
    let ghost views = record_views(records@);
    proof {
        assert(views.take(0) =~= seq![]);
    }
    while i < records.len()
        invariant
            i <= records.len(),
            views == record_views(records@),
            names@ == names_of(views.take(i as int)),
        decreases records.len() - i,
    {
        proof {
            assert(views.take(i + 1).drop_last() =~= views.take(i as int));
            assert(views.take(i + 1).last() == records@[i as int]@);
        }
        match &records[i].contents {
            RecordContents::FullSensor { sensor, .. } => {
                names.insert((sensor.ty, sensor.key.sensor_number), sensor.name.clone());
            }
            RecordContents::CompactSensor(sensor) => {
                names.insert((sensor.ty, sensor.key.sensor_number), sensor.name.clone());
            }
            RecordContents::EventOnlySensor(sensor) => {
                names.insert((sensor.ty, sensor.key.sensor_number), sensor.name.clone());
            }
            _ => {}
        }
        i = i + 1;
    }
    proof {
        assert(views.take(views.len() as int) =~= views);
    }
    names
}

/// Entries that the firmware translated, by record ID.
pub type OemDecodedEntries = Assoc<DecodedSelEntry>;

/// What translated entries say.
pub open spec fn decoded_map(decoded: Map<u16, DecodedSelEntry>) -> Map<u16, DecodedView> {
    Map::new(|id: u16| decoded.dom().contains(id), |id: u16| decoded[id]@)
}

// ---------------------------------------------------------------------
// Single entries
// ---------------------------------------------------------------------

/// The ID of an entry.
pub fn entry_id(entry: &Entry) -> (id: u16)
    ensures
        id == entry@.id(),
{
    match entry {
        Entry::System { record_id, .. } => *record_id,
        Entry::OemTimestamped { record_id, .. } => *record_id,
        Entry::OemNotTimestamped { record_id, .. } => *record_id,
    }
}

/// The displayed timestamp of an entry that has one.
pub open spec fn stamp(e: EntryView) -> Option<Chars> {
    match e {
        EntryView::System { timestamp, .. } => Some(timestamp),
        EntryView::OemTimestamped { timestamp, .. } => Some(timestamp),
        EntryView::OemNotTimestamped { .. } => None,
    }
}

/// The Unix time of an entry, if it has a known one.
pub open spec fn entry_time(e: EntryView) -> Option<int> {
    match stamp(e) {
        Some(text) if text != "Unknown"@ => time_of(text),
        _ => None,
    }
}

/// The Unix time of an entry. For a record that was stamped with a time other
/// than zero this is that time.
pub fn entry_timestamp(entry: &Entry) -> (r: Option<i64>)
    ensures
        match r {
            Some(t) => entry_time(entry@) == Some(t as int),
            None => entry_time(entry@) is None,
        },
        forall|t: u32|
            stamp(entry@) == Some(#[trigger] rfc3339(t as int)) ==> r == Some(t as i64),
{
    let text = match entry {
        Entry::System { timestamp, .. } => timestamp,
        Entry::OemTimestamped { timestamp, .. } => timestamp,
        Entry::OemNotTimestamped { .. } => {
            return None;
        }
    };
    proof {
        assert forall|t: u32| text@ == #[trigger] rfc3339(t as int) implies text@ != "Unknown"@ by {
            crate::clock::lemma_rfc3339_shape(t);
            reveal_strlit("Unknown");
        }
    }
    if same_text(text.as_str(), "Unknown") {
        None
    } else {
        read_time(text.as_str())
    }
}

/// Reads a `--since` or `--until` time.
pub fn parse_time(value: &str) -> (r: Result<i64, String>)
    ensures
        match r {
            Ok(t) => time_of(value@) == Some(t as int),
            Err(e) => time_of(value@) is None && e@ == "invalid time '"@ + value@
                + "'; use RFC 3339 or a Unix timestamp"@,
        },
        forall|t: u32| value@ == #[trigger] rfc3339(t as int) ==> r == Ok::<i64, String>(t as i64),
{
    match read_time(value) {
        Some(t) => Ok(t),
        None => Err(concat3("invalid time '", value, "'; use RFC 3339 or a Unix timestamp")),
    }
}

/// How the sensor of an entry is shown.
pub open spec fn sensor_label(e: EntryView, names: Map<(u8, u8), Chars>) -> Chars {
    match e {
        EntryView::System { sensor_type, sensor_number, .. } => {
            let plain = sensor_type_name(sensor_type) + " #"@ + dec(sensor_number as nat);
            if names.dom().contains((sensor_type, sensor_number)) {
                names[(sensor_type, sensor_number)] + " ("@ + plain + ")"@
            } else {
                plain
            }
        },
        EntryView::OemTimestamped { ty, .. } => "OEM 0x"@ + hex(ty as nat, 2),
        EntryView::OemNotTimestamped { ty, .. } => "OEM 0x"@ + hex(ty as nat, 2),
    }
}

/// Shows the sensor of an entry: its name if the repository has one, its type
/// and its number.
pub fn entry_sensor(entry: &Entry, names: &SensorNames) -> (s: String)
    ensures
        s@ == sensor_label(entry@, names@),
{
    match entry {
        Entry::System { sensor_type, sensor_number, .. } => {
            let plain = concat3(
                sensor_type_text(*sensor_type).as_str(),
                " #",
                dec_text(*sensor_number as u64).as_str(),
            );
            match names.get((*sensor_type, *sensor_number)) {
                Some(name) => {
                    let mut s = concat3(name.as_str(), " (", plain.as_str());
                    s.append(")");
                    s
                }
                None => plain,
            }
        }
        Entry::OemTimestamped { ty, .. } => concat2("OEM 0x", hex_text(*ty as u64, 2).as_str()),
        Entry::OemNotTimestamped { ty, .. } => concat2(
            "OEM 0x",
            hex_text(*ty as u64, 2).as_str(),
        ),
    }
}

/// Whether an entry is worth asking the firmware about: only records whose
/// sensor or event type is in an OEM-defined range. Standard records have local
/// descriptions already.
pub open spec fn wants_oem_decoding(e: EntryView) -> bool {
    match e {
        EntryView::System { sensor_type, event_type, .. } => sensor_type >= 0xC0 || event_type
            >= 0x70,
        _ => false,
    }
}

pub fn should_decode_oem(entry: &Entry) -> (r: bool)
    ensures
        r == wants_oem_decoding(entry@),
{
    match entry {
        Entry::System { sensor_type, event_type, .. } => *sensor_type >= 0xC0 || *event_type >= 0x70,
        _ => false,
    }
}

/// Whether a manufacturer ID is one of Dell's.
pub open spec fn is_dell(manufacturer_id: Option<u32>) -> bool {
    manufacturer_id == Some(0x000028u32) || manufacturer_id == Some(0x0002A2u32)
}

/// The diagnostic bytes of a Dell companion record.
pub open spec fn dell_suffix(data: EventData) -> Chars {
    match (data.data2_type, data.data3_type) {
        (EventData2Type::OemCode(a), EventData3Type::OemCode(b)) => "; data "@ + hex(a as nat, 2)
            + " "@ + hex(b as nat, 2),
        (EventData2Type::OemCode(a), _) => "; data "@ + hex(a as nat, 2),
        _ => ""@,
    }
}

/// The text of a Dell OEM diagnostic companion record. Dell calls this
/// combination "Err Reg Pointer / OEM Diagnostic data": an informational
/// companion record used by service tooling, not the Link Tuning event that
/// shares sensor type 0xC1 with event type 0x6F.
pub open spec fn dell_diagnostic(e: EntryView, manufacturer_id: Option<u32>) -> Option<Chars> {
    match e {
        EntryView::System { sensor_type, event_type, event_data, .. } => if is_dell(manufacturer_id)
            && sensor_type == 0xC1 && event_type == 0x72 && event_data.offset == 0x02 {
            Some(
                "Dell OEM diagnostic data (additional context for hardware failure"@ + dell_suffix(
                    event_data,
                ) + ")"@,
            )
        } else {
            None
        },
        _ => None,
    }
}

pub fn dell_oem_diagnostic_description(entry: &Entry, manufacturer_id: Option<u32>) -> (r: Option<
    String,
>)
    ensures
        match r {
            Some(s) => dell_diagnostic(entry@, manufacturer_id) == Some(s@),
            None => dell_diagnostic(entry@, manufacturer_id) is None,
        },
{
    let dell = match manufacturer_id {
        Some(id) => id == 0x000028 || id == 0x0002A2,
        None => false,
    };
    if !dell {
        return None;
    }
    match entry {
        Entry::System { sensor_type, event_type, event_data, .. } => {
            if *sensor_type != 0xC1 || *event_type != 0x72 || event_data.offset != 0x02 {
                return None;
            }
            let suffix = match (event_data.data2_type, event_data.data3_type) {
                (EventData2Type::OemCode(a), EventData3Type::OemCode(b)) => {
                    let mut s = concat3("; data ", hex_text(a as u64, 2).as_str(), " ");
                    s.append(hex_text(b as u64, 2).as_str());
                    s
                }
                (EventData2Type::OemCode(a), _) => concat2(
                    "; data ",
                    hex_text(a as u64, 2).as_str(),
                ),
                _ => "".to_owned(),
            };
            Some(
                concat3(
                    "Dell OEM diagnostic data (additional context for hardware failure",
                    suffix.as_str(),
                    ")",
                ),
            )
        }
        _ => None,
    }
}

/// The severity that the firmware's rating stands for.
pub open spec fn rated(severity: Severity) -> SelSeverity {
    match severity {
        Severity::Informational => SelSeverity::Normal,
        Severity::Minor => SelSeverity::Warning,
        Severity::Major => SelSeverity::Critical,
        Severity::Critical => SelSeverity::Critical,
        Severity::Unknown => SelSeverity::Unknown,
    }
}

/// The severity that is shown: the firmware's rating where it translated the
/// entry, normal for a Dell companion record, otherwise the inferred one.
pub open spec fn shown_severity(
    e: EntryView,
    decoded: Map<u16, DecodedView>,
    manufacturer_id: Option<u32>,
) -> SelSeverity {
    if decoded.dom().contains(e.id()) {
        rated(decoded[e.id()].severity)
    } else if dell_diagnostic(e, manufacturer_id) is Some {
        SelSeverity::Normal
    } else {
        severity(e)
    }
}

pub fn displayed_severity(
    entry: &Entry,
    decoded: &OemDecodedEntries,
    manufacturer_id: Option<u32>,
) -> (r: SelSeverity)
    ensures
        r == shown_severity(entry@, decoded_map(decoded@), manufacturer_id),
{
    match decoded.get(entry_id(entry)) {
        Some(oem) => match oem.severity {
            Severity::Informational => SelSeverity::Normal,
            Severity::Minor => SelSeverity::Warning,
            Severity::Major => SelSeverity::Critical,
            Severity::Critical => SelSeverity::Critical,
            Severity::Unknown => SelSeverity::Unknown,
        },
        None => {
            if dell_oem_diagnostic_description(entry, manufacturer_id).is_some() {
                SelSeverity::Normal
            } else {
                entry_severity(entry)
            }
        }
    }
}

// ---------------------------------------------------------------------
// Selecting entries
// ---------------------------------------------------------------------

/// How a list of entries is selected and shown.
pub struct RenderContext<'a> {
    pub decoded: &'a OemDecodedEntries,
    pub manufacturer_id: Option<u32>,
    pub args: &'a crate::cli::SelArgs,
    pub names: &'a SensorNames,
    pub since: Option<i64>,
    pub until: Option<i64>,
    pub color: bool,
}

/// How a list of entries is selected and shown, with texts as characters. Of the
/// arguments these are the ones that a listing depends on; the texts of the
/// times have become `since` and `until`.
pub ghost struct RenderView {
    pub decoded: Map<u16, DecodedView>,
    pub manufacturer_id: Option<u32>,
    pub raw: bool,
    pub sensor: Option<Chars>,
    pub severity: Option<SelSeverity>,
    pub limit: Option<usize>,
    pub names: Map<(u8, u8), Chars>,
    pub since: Option<i64>,
    pub until: Option<i64>,
    pub color: bool,
}

/// What an optional text says.
pub open spec fn option_text(s: Option<String>) -> Option<Chars> {
    match s {
        Some(s) => Some(s@),
        None => None,
    }
}

impl<'a> View for RenderContext<'a> {
    type V = RenderView;

    open spec fn view(&self) -> RenderView {
        RenderView {
            decoded: decoded_map(self.decoded@),
            manufacturer_id: self.manufacturer_id,
            raw: self.args.raw,
            sensor: option_text(self.args.sensor),
            severity: self.args.severity,
            limit: self.args.limit,
            names: self.names@,
            since: self.since,
            until: self.until,
            color: self.color,
        }
    }
}

impl RenderView {
    /// Whether an entry lies in the asked time range. Without a range every
    /// entry does; with one, an entry without a known time does not.
    pub open spec fn in_time(self, e: EntryView) -> bool {
        (self.since is None && self.until is None) || match entry_time(e) {
            None => false,
            Some(t) => (self.since is Some ==> t >= self.since->0) && (self.until is Some ==> t
                <= self.until->0),
        }
    }

    /// The text in which a sensor pattern is looked for: the sensor's label,
    /// the firmware's translation, and the Dell companion text.
    pub open spec fn haystack(self, e: EntryView) -> Chars {
        let label = sensor_label(e, self.names);
        let with_oem = if self.decoded.dom().contains(e.id()) {
            label + " "@ + self.decoded[e.id()].text
        } else {
            label
        };
        match dell_diagnostic(e, self.manufacturer_id) {
            Some(dell) => with_oem + " "@ + dell,
            None => with_oem,
        }
    }

    /// Whether an entry is asked for: by time, by sensor pattern (whatever its
    /// case) and by severity.
    pub open spec fn selects(self, e: EntryView) -> bool {
        &&& self.in_time(e)
        &&& self.sensor is Some ==> contains(lower(self.haystack(e)), lower(self.sensor->0))
        &&& self.severity is Some ==> shown_severity(e, self.decoded, self.manufacturer_id)
            == self.severity->0
    }

    /// The entries that are asked for, in their order.
    pub open spec fn selected(self, entries: Seq<EntryView>) -> Seq<EntryView>
        decreases entries.len(),
    {
        if entries.len() == 0 {
            seq![]
        } else {
            let before = self.selected(entries.drop_last());
            if self.selects(entries.last()) {
                before.push(entries.last())
            } else {
                before
            }
        }
    }

    /// The newest of the selected entries, as many as the limit allows.
    pub open spec fn limited(self, entries: Seq<EntryView>) -> Seq<EntryView> {
        let found = self.selected(entries);
        match self.limit {
            Some(limit) if found.len() > limit => found.skip(found.len() - limit),
            _ => found,
        }
    }
}

/// Whether an entry is asked for.
pub fn matches_entry(entry: &Entry, render: &RenderContext) -> (r: bool)
    ensures
        r == render@.selects(entry@),
{
    if render.since.is_some() || render.until.is_some() {
        let time: i64 = match entry_timestamp(entry) {
            Some(t) => t,
            None => {
                return false;
            }
        };
        if let Some(since) = render.since {
            if time < since {
                return false;
            }
        }
        if let Some(until) = render.until {
            if time > until {
                return false;
            }
        }
    }
    if let Some(pattern) = &render.args.sensor {
        let mut haystack = entry_sensor(entry, render.names);
        if let Some(oem) = render.decoded.get(entry_id(entry)) {
            haystack.append(" ");
            haystack.append(oem.text.as_str());
        }
        if let Some(dell) = dell_oem_diagnostic_description(entry, render.manufacturer_id) {
            haystack.append(" ");
            haystack.append(dell.as_str());
        }
        if !contains_text(
            lower_text(haystack.as_str()).as_str(),
            lower_text(pattern.as_str()).as_str(),
        ) {
            return false;
        }
    }
    match render.args.severity {
        Some(wanted) => displayed_severity(entry, render.decoded, render.manufacturer_id) == wanted,
        None => true,
    }
}

/// Keeps the entries that are asked for, the newest ones up to the limit.
pub fn select_entries(entries: Vec<Entry>, render: &RenderContext) -> (kept: Vec<Entry>)
    ensures
        entry_views(kept@) == render@.limited(entry_views(entries@)),
{
    let ghost views = entry_views(entries@);
    let mut kept: Vec<Entry> = Vec::new();
    proof {
        assert(views.take(0) =~= seq![]);
        assert(entry_views(kept@) =~= seq![]);
    }
    for entry in it: entries
        invariant
            views == entry_views(it.seq()),
            entry_views(kept@) == render@.selected(views.take(it.index() as int)),
    {
        let ghost i = it.index() as int;
        proof {
            assert(views.take(i + 1).drop_last() =~= views.take(i));
            assert(views.take(i + 1).last() == entry@);
        }
        if matches_entry(&entry, render) {
            let ghost before = kept@;
            kept.push(entry);
            proof {
                assert(entry_views(kept@) =~= entry_views(before).push(entry@));
            }
        }
    }
    proof {
        assert(views.take(views.len() as int) =~= views);
    }
    if let Some(limit) = render.args.limit {
        if kept.len() > limit {
            let from: usize = kept.len() - limit;
            let ghost all = kept@;
            let newest = kept.split_off(from);
            proof {
                assert(entry_views(newest@) =~= entry_views(all).skip(from as int));
            }
            return newest;
        }
    }
    kept
}

/// With no filter every entry is selected.
pub proof fn law_no_filter_keeps_all(r: RenderView, entries: Seq<EntryView>)
    requires
        r.since is None,
        r.until is None,
        r.sensor is None,
        r.severity is None,
    ensures
        r.selected(entries) == entries,
    decreases entries.len(),
{
    if entries.len() > 0 {
        law_no_filter_keeps_all(r, entries.drop_last());
        assert(entries.drop_last().push(entries.last()) =~= entries);
    } else {
        assert(entries =~= seq![]);
    }
}

/// Filters and limit never invent an entry: at most the limit is shown, and
/// each shown entry is one of the given and is asked for.
pub proof fn law_shown_entries_are_selected(r: RenderView, entries: Seq<EntryView>, i: int)
    requires
        0 <= i < r.limited(entries).len(),
    ensures
        entries.contains(r.limited(entries)[i]),
        r.selects(r.limited(entries)[i]),
        r.limit is Some ==> r.limited(entries).len() <= r.limit->0,
{
    let found = r.selected(entries);
    let j = if r.limit is Some && found.len() > r.limit->0 {
        i + found.len() - r.limit->0
    } else {
        i
    };
    lemma_selected(r, entries, j);
}

proof fn lemma_selected(r: RenderView, entries: Seq<EntryView>, j: int)
    requires
        0 <= j < r.selected(entries).len(),
    ensures
        entries.contains(r.selected(entries)[j]),
        r.selects(r.selected(entries)[j]),
    decreases entries.len(),
{
    let before = r.selected(entries.drop_last());
    if j < before.len() {
        lemma_selected(r, entries.drop_last(), j);
        let e = before[j];
        let k = choose|k: int| 0 <= k < entries.drop_last().len() && entries.drop_last()[k] == e;
        assert(entries[k] == e);
    } else {
        assert(entries.last() == entries[entries.len() - 1]);
    }
}

// ---------------------------------------------------------------------
// OEM records
// ---------------------------------------------------------------------

/// Raw OEM bytes as `hex  |ascii|`.
pub open spec fn dump_of(data: Seq<u8>) -> Chars {
    hex_dump(data) + "  |"@ + ascii_gutter(data) + "|"@
}

/// Render raw OEM SEL bytes as `hex  |ascii|`.
///
/// IPMI defines no structure for OEM record payloads (record types
/// 0xC0–0xFF), so the bytes are vendor-specific and can't be decoded
/// generically. Dumping hex alongside a printable-ASCII gutter is the most
/// useful vendor-agnostic view: many BMCs pack short text (e.g. panic context
/// appended to an OS critical-stop event) into these records.
pub fn oem_dump(data: &[u8]) -> (s: String)
    ensures
        s@ == dump_of(data@),
{
    let mut s = concat3(
        hex_dump_text(data).as_str(),
        "  |",
        ascii_gutter_text(data).as_str(),
    );
    s.append("|");
    s
}

/// A run of consecutive non-timestamped OEM records reassembled into text.
pub struct OemText {
    pub first_id: u16,
    pub ty: u8,
    pub count: usize,
    pub text: String,
}

/// A reassembled run, with its text as characters.
pub ghost struct OemTextView {
    pub first_id: u16,
    pub ty: u8,
    pub count: int,
    pub text: Chars,
}

impl View for OemText {
    type V = OemTextView;

    open spec fn view(&self) -> OemTextView {
        OemTextView {
            first_id: self.first_id,
            ty: self.ty,
            count: self.count as int,
            text: self.text@,
        }
    }
}

/// Whether an entry is part `k` of a message with the given type and tag.
pub open spec fn is_part(e: EntryView, ty: u8, tag: u8, k: int) -> bool {
    match e {
        EntryView::OemNotTimestamped { ty: t, data, .. } => t == ty && data[0] == tag && data[1]
            == k,
        _ => false,
    }
}

/// How many entries from part `k` on continue a message without a gap.
pub open spec fn parts_from(entries: Seq<EntryView>, ty: u8, tag: u8, k: int) -> int
    decreases entries.len() - k,
{
    if 0 <= k < entries.len() && is_part(entries[k], ty, tag, k) {
        1 + parts_from(entries, ty, tag, k + 1)
    } else {
        0
    }
}

/// The text bytes of the first `n` parts of a message.
pub open spec fn part_bytes(entries: Seq<EntryView>, n: int) -> Seq<u8>
    decreases n,
{
    if n <= 0 {
        seq![]
    } else {
        part_bytes(entries, n - 1) + entries[n - 1]->OemNotTimestamped_data.skip(2)
    }
}

/// Bytes without the zeros at their end.
pub open spec fn unpadded(bytes: Seq<u8>) -> Seq<u8>
    decreases bytes.len(),
{
    if bytes.len() > 0 && bytes.last() == 0 {
        unpadded(bytes.drop_last())
    } else {
        bytes
    }
}

pub open spec fn all_printable(bytes: Seq<u8>) -> bool {
    forall|i: int| 0 <= i < bytes.len() ==> printable(#[trigger] bytes[i])
}

/// Bytes as characters.
pub open spec fn byte_chars(bytes: Seq<u8>) -> Chars {
    Seq::new(bytes.len(), |i: int| bytes[i] as char)
}

/// The multi-part message that starts a list of entries, if there is one whose
/// bytes are text.
pub open spec fn text_group(entries: Seq<EntryView>) -> Option<OemTextView> {
    if entries.len() == 0 {
        None
    } else {
        match entries[0] {
            EntryView::OemNotTimestamped { record_id, ty, data } => {
                let count = parts_from(entries, ty, data[0], 0);
                let bytes = unpadded(part_bytes(entries, count));
                if data[1] == 0 && bytes.len() > 0 && all_printable(bytes) {
                    Some(OemTextView { first_id: record_id, ty, count, text: byte_chars(bytes) })
                } else {
                    None
                }
            },
            _ => None,
        }
    }
}

proof fn lemma_parts(entries: Seq<EntryView>, ty: u8, tag: u8, k: int, n: int)
    requires
        0 <= k <= n <= entries.len(),
        forall|j: int| k <= j < n ==> is_part(#[trigger] entries[j], ty, tag, j),
        n < entries.len() ==> !is_part(entries[n], ty, tag, n),
    ensures
        parts_from(entries, ty, tag, k) == n - k,
    decreases n - k,
{
    if k < n {
        assert(is_part(entries[k], ty, tag, k));
        lemma_parts(entries, ty, tag, k + 1, n);
    }
}

proof fn lemma_parts_bound(entries: Seq<EntryView>, ty: u8, tag: u8, k: int)
    requires
        0 <= k <= entries.len(),
    ensures
        0 <= parts_from(entries, ty, tag, k) <= entries.len() - k,
    decreases entries.len() - k,
{
    if k < entries.len() {
        lemma_parts_bound(entries, ty, tag, k + 1);
    }
}

/// A reassembled message stands for at least one entry and for no more than
/// there are, and its text is printable and not empty.
pub proof fn law_text_groups_are_text(entries: Seq<EntryView>)
    requires
        text_group(entries) is Some,
    ensures
        1 <= text_group(entries)->0.count <= entries.len(),
        text_group(entries)->0.text.len() > 0,
        forall|i: int|
            0 <= i < text_group(entries)->0.text.len() ==> ' ' <= (
            #[trigger] text_group(entries)->0.text[i]) <= '~',
{
    match entries[0] {
        EntryView::OemNotTimestamped { record_id, ty, data } => {
            assert(is_part(entries[0], ty, data[0], 0));
            lemma_parts_bound(entries, ty, data[0], 1);
            let bytes = unpadded(part_bytes(entries, parts_from(entries, ty, data[0], 0)));
            let text = text_group(entries)->0.text;
            assert forall|i: int| 0 <= i < text.len() implies ' ' <= (#[trigger] text[i]) <= '~' by {
                assert(printable(bytes[i]));
            }
        },
        _ => {},
    }
}

/// Detect a multi-part OEM text message at the start of `entries`.
///
/// The shape (inferred, not standardized): each non-timestamped OEM record carries a
/// constant tag in byte 0, a chunk sequence number in byte 1 (starting at 0 and
/// incrementing), and up to 11 ASCII text bytes in bytes 2..13, NUL-padded in
/// the final chunk. A run is only collapsed when it parses cleanly into
/// printable text; anything else falls back to the per-record hex dump.
pub fn oem_text_group(entries: &[Entry]) -> (r: Option<OemText>)
    ensures
        match r {
            Some(group) => text_group(entry_views(entries@)) == Some(group@),
            None => text_group(entry_views(entries@)) is None,
        },
{
    let ghost views = entry_views(entries@);
    if entries.len() == 0 {
        return None;
    }
    let (first_id, tag, ty) = match &entries[0] {
        Entry::OemNotTimestamped { record_id, ty, data } => {
            if data[1] != 0 {
                return None;
            }
            (*record_id, data[0], *ty)
        }
        _ => {
            return None;
        }
    };
    let mut bytes: Vec<u8> = Vec::new();
    let mut count: usize = 0;
    let mut open: bool = true;
    proof {
        assert(bytes@ =~= part_bytes(views, 0));
    }
    while open && count < entries.len()
        invariant
            count <= entries.len(),
            views == entry_views(entries@),
            forall|j: int| 0 <= j < count ==> is_part(#[trigger] views[j], ty, tag, j),
            bytes@ == part_bytes(views, count as int),
            !open ==> count < entries.len() && !is_part(views[count as int], ty, tag, count as int),
        decreases entries.len() - count, (if open { 1int } else { 0 }),
    {
        match &entries[count] {
            Entry::OemNotTimestamped { ty: t, data, .. } => {
                if *t == ty && data[0] == tag && data[1] as usize == count {
                    proof {
                        assert(is_part(views[count as int], ty, tag, count as int));
                    }
                    let mut more = copy_range(data.as_slice(), 2, 13);
                    proof {
                        assert(more@ =~= views[count as int]->OemNotTimestamped_data.skip(2));
                    }
                    bytes.append(&mut more);
                    count = count + 1;
                } else {
                    open = false;
                }
            }
            _ => {
                open = false;
            }
        }
    }
    proof {
        lemma_parts(views, ty, tag, 0, count as int);
    }
    let ghost all = bytes@;
    while bytes.len() > 0 && bytes[bytes.len() - 1] == 0
        invariant
            unpadded(bytes@) == unpadded(all),
        decreases bytes.len(),
    {
        let ghost before = bytes@;
        bytes.pop();
        proof {
            assert(bytes@ =~= before.drop_last());
        }
    }
    if bytes.len() == 0 {
        return None;
    }
    let mut text = String::new();
    let mut i: usize = 0;
    proof {
        assert(text@ =~= byte_chars(bytes@.take(0)));
    }
    while i < bytes.len()
        invariant
            i <= bytes.len(),
            bytes@ == unpadded(all),
            all == part_bytes(views, count as int),
            count == parts_from(views, ty, tag, 0),
            views.len() > 0,
            views[0] is OemNotTimestamped,
            views[0]->OemNotTimestamped_ty == ty,
            views[0]->OemNotTimestamped_data[0] == tag,
            views == entry_views(entries@),
            forall|j: int| 0 <= j < i ==> printable(#[trigger] bytes@[j]),
            text@ == byte_chars(bytes@.take(i as int)),
        decreases bytes.len() - i,
    {
        let b: u8 = bytes[i];
        if b < 0x20 || b >= 0x7F {
            proof {
                assert(!printable(bytes@[i as int]));
            }
            return None;
        }
        text.push(b as char);
        proof {
            assert(text@ =~= byte_chars(bytes@.take(i + 1)));
        }
        i = i + 1;
    }
    proof {
        assert(bytes@.take(bytes@.len() as int) =~= bytes@);
    }
    Some(OemText { first_id, ty, count, text })
}

// ---------------------------------------------------------------------
// The table of entries
// ---------------------------------------------------------------------

/// The name of a severity.
pub open spec fn severity_name(severity: SelSeverity) -> Chars {
    match severity {
        SelSeverity::Normal => "normal"@,
        SelSeverity::Warning => "warning"@,
        SelSeverity::Critical => "critical"@,
        SelSeverity::Unknown => "unknown"@,
    }
}

/// The colored name of a severity.
pub open spec fn severity_colored(severity: SelSeverity, color: bool) -> Chars {
    match severity {
        SelSeverity::Normal => greened("normal"@, color),
        SelSeverity::Warning => yellowed("warning"@, color),
        SelSeverity::Critical => reddened("critical"@, color),
        SelSeverity::Unknown => dimmed("unknown"@, color),
    }
}

/// The plain and the colored name of a severity.
pub fn severity_label(severity: SelSeverity, color: bool) -> (r: (&'static str, String))
    ensures
        r.0@ == severity_name(severity),
        r.1@ == severity_colored(severity, color),
{
    match severity {
        SelSeverity::Normal => ("normal", green("normal", color)),
        SelSeverity::Warning => ("warning", yellow("warning", color)),
        SelSeverity::Critical => ("critical", red("critical", color)),
        SelSeverity::Unknown => ("unknown", dim("unknown", color)),
    }
}

/// A record ID as `0x` and four digits.
pub open spec fn id_text(id: u16) -> Chars {
    "0x"@ + hex(id as nat, 4)
}

pub fn id_string(id: u16) -> (s: String)
    ensures
        s@ == id_text(id),
{
    concat2("0x", hex_text(id as u64, 4).as_str())
}

/// `s` without the escapes that dim text.
pub open spec fn stripped(s: Chars) -> Chars {
    without(without(s, "\x1b[2m"@), "\x1b[0m"@)
}

/// Best-effort removal of the trailing reset escape so the plain-width estimate
/// for colored cells stays close to reality. Width over-estimates are harmless.
pub fn strip(s: &str) -> (r: String)
    ensures
        r@ == stripped(s@),
{
    remove_text(remove_text(s, "\x1b[2m").as_str(), "\x1b[0m")
}

impl RenderView {
    /// What the event column shows of a system event: the firmware's
    /// translation, the Dell companion text, or the local description.
    pub open spec fn event_column(self, e: EntryView) -> Chars {
        if self.decoded.dom().contains(e.id()) {
            let oem = self.decoded[e.id()];
            if oem.css {
                oem.text + " (CSS component)"@
            } else {
                oem.text
            }
        } else {
            match dell_diagnostic(e, self.manufacturer_id) {
                Some(text) => text,
                None => display_description(e),
            }
        }
    }

    /// The cell that shows a severity.
    pub open spec fn severity_cell(self, severity: SelSeverity) -> CellView {
        colored_cell(severity_name(severity), severity_colored(severity, self.color))
    }

    /// The row of an entry.
    pub open spec fn entry_row(self, e: EntryView) -> Seq<CellView> {
        match e {
            EntryView::System { timestamp, .. } => seq![
                plain_cell(id_text(e.id())),
                plain_cell(timestamp),
                self.severity_cell(shown_severity(e, self.decoded, self.manufacturer_id)),
                plain_cell(sensor_label(e, self.names)),
                colored_cell(stripped(self.event_column(e)), self.event_column(e)),
            ],
            EntryView::OemTimestamped { ty, timestamp, manufacturer_id, data, .. } => seq![
                plain_cell(id_text(e.id())),
                plain_cell(timestamp),
                self.severity_cell(severity(e)),
                plain_cell("OEM 0x"@ + hex(ty as nat, 2)),
                plain_cell("mfg 0x"@ + hex(manufacturer_id as nat, 6) + "  "@ + dump_of(data)),
            ],
            EntryView::OemNotTimestamped { ty, data, .. } => seq![
                plain_cell(id_text(e.id())),
                colored_cell("—"@, dimmed("—"@, self.color)),
                self.severity_cell(severity(e)),
                plain_cell("OEM 0x"@ + hex(ty as nat, 2)),
                plain_cell(dump_of(data)),
            ],
        }
    }

    /// The row of a reassembled message.
    pub open spec fn group_row(self, group: OemTextView) -> Seq<CellView> {
        let label = "OEM 0x"@ + hex(group.ty as nat, 2);
        let text = "\""@ + group.text + "\""@;
        seq![
            plain_cell(id_text(group.first_id)),
            colored_cell("—"@, dimmed("—"@, self.color)),
            self.severity_cell(
                match severity_of_text(group.text) {
                    Some(severity) => severity,
                    None => SelSeverity::Unknown,
                },
            ),
            plain_cell(
                if group.count > 1 {
                    label + " ×"@ + dec(group.count as nat)
                } else {
                    label
                },
            ),
            colored_cell(text, cyaned(text, self.color)),
        ]
    }

    /// How many entries the next row stands for.
    pub open spec fn row_span(self, entries: Seq<EntryView>) -> int {
        match text_group(entries) {
            Some(group) if !self.raw && 1 <= group.count <= entries.len() => group.count,
            _ => 1,
        }
    }

    /// The next row: a reassembled message unless raw records are asked for,
    /// otherwise the first entry.
    pub open spec fn next_row(self, entries: Seq<EntryView>) -> Seq<CellView> {
        match text_group(entries) {
            Some(group) if !self.raw => self.group_row(group),
            _ => self.entry_row(entries[0]),
        }
    }

    /// The rows of a list of entries.
    pub open spec fn rows(self, entries: Seq<EntryView>) -> Seq<Seq<CellView>>
        decreases entries.len(),
    {
        if entries.len() == 0 {
            seq![]
        } else {
            seq![self.next_row(entries)] + self.rows(entries.skip(self.row_span(entries)))
        }
    }

    /// The table of a list of entries.
    pub open spec fn table(self, entries: Seq<EntryView>) -> TableView {
        TableView {
            headers: seq!["ID"@, "TIMESTAMP"@, "SEVERITY"@, "SENSOR"@, "EVENT"@],
            aligns: seq![Align::Right, Align::Left, Align::Left, Align::Left, Align::Left],
            rows: self.rows(entries),
        }
    }

    /// The heading: with the totals of the log for a first listing, without
    /// them for entries that were added since.
    pub open spec fn heading(self, totals: Option<(u16, bool)>) -> Seq<Chars> {
        match totals {
            Some((total, overflow)) => {
                let lines = header_lines(
                    "System Event Log ("@ + dec(total as nat) + " entries)"@,
                    self.color,
                );
                if overflow {
                    lines.push(
                        indented(
                            reddened("! SEL overflow flag set — some events were lost"@, self.color),
                        ),
                    )
                } else {
                    lines
                }
            },
            None => header_lines("New SEL entries"@, self.color),
        }
    }

    /// What is printed of a list of entries.
    pub open spec fn listing(self, entries: Seq<EntryView>, totals: Option<(u16, bool)>) -> Seq<
        Chars,
    > {
        let shown = self.limited(entries);
        if shown.len() == 0 {
            self.heading(totals).push(indented(dimmed("no entries matched"@, self.color))).push(
                seq![],
            )
        } else {
            (self.heading(totals) + self.table(shown).lines(self.color)).push(seq![])
        }
    }
}

/// The cells of an entry's row.
fn entry_cells(entry: &Entry, render: &RenderContext) -> (row: Vec<Cell>)
    ensures
        cells(row@) == render@.entry_row(entry@),
{
    let color = render.color;
    let id = id_string(entry_id(entry));
    match entry {
        Entry::System { timestamp, .. } => {
            let sensor = entry_sensor(entry, render.names);
            let text = match render.decoded.get(entry_id(entry)) {
                Some(oem) => {
                    if oem.css {
                        concat2(oem.text.as_str(), " (CSS component)")
                    } else {
                        oem.text.clone()
                    }
                }
                None => match dell_oem_diagnostic_description(entry, render.manufacturer_id) {
                    Some(text) => text,
                    None => display_entry_description(entry),
                },
            };
            let (severity, rendered) = severity_label(
                displayed_severity(entry, render.decoded, render.manufacturer_id),
                color,
            );
            let row = vec![
                Cell::new(id.as_str()),
                Cell::new(timestamp.as_str()),
                Cell::colored(severity, rendered.as_str()),
                Cell::new(sensor.as_str()),
                Cell::colored(strip(text.as_str()).as_str(), text.as_str()),
            ];
            proof {
                assert(cells(row@) =~= render@.entry_row(entry@));
            }
            row
        }
        Entry::OemTimestamped { ty, timestamp, manufacturer_id, data, .. } => {
            let (severity, rendered) = severity_label(entry_severity(entry), color);
            let mut text = concat3("mfg 0x", hex_text(*manufacturer_id as u64, 6).as_str(), "  ");
            text.append(oem_dump(data.as_slice()).as_str());
            let row = vec![
                Cell::new(id.as_str()),
                Cell::new(timestamp.as_str()),
                Cell::colored(severity, rendered.as_str()),
                Cell::new(concat2("OEM 0x", hex_text(*ty as u64, 2).as_str()).as_str()),
                Cell::new(text.as_str()),
            ];
            proof {
                assert(cells(row@) =~= render@.entry_row(entry@));
            }
            row
        }
        Entry::OemNotTimestamped { ty, data, .. } => {
            let (severity, rendered) = severity_label(entry_severity(entry), color);
            let row = vec![
                Cell::new(id.as_str()),
                Cell::colored("—", dim("—", color).as_str()),
                Cell::colored(severity, rendered.as_str()),
                Cell::new(concat2("OEM 0x", hex_text(*ty as u64, 2).as_str()).as_str()),
                Cell::new(oem_dump(data.as_slice()).as_str()),
            ];
            proof {
                assert(cells(row@) =~= render@.entry_row(entry@));
            }
            row
        }
    }
}

/// Adds the row of an entry to a table.
pub fn push_entry(table: &mut Table, entry: &Entry, render: &RenderContext)
    ensures
        final(table)@ == old(table)@.with_row(render@.entry_row(entry@)),
{
    table.row(entry_cells(entry, render));
}

fn push_group(table: &mut Table, group: &OemText, render: &RenderContext)
    ensures
        final(table)@ == old(table)@.with_row(render@.group_row(group@)),
{
    let color = render.color;
    let mut label = concat2("OEM 0x", hex_text(group.ty as u64, 2).as_str());
    if group.count > 1 {
        label.append(" ×");
        label.append(dec_text(group.count as u64).as_str());
    }
    let text = concat3("\"", group.text.as_str(), "\"");
    let inferred = match severity_from_description(group.text.as_str()) {
        Some(severity) => severity,
        None => SelSeverity::Unknown,
    };
    let (severity, rendered) = severity_label(inferred, color);
    let row = vec![
        Cell::new(id_string(group.first_id).as_str()),
        Cell::colored("—", dim("—", color).as_str()),
        Cell::colored(severity, rendered.as_str()),
        Cell::new(label.as_str()),
        Cell::colored(text.as_str(), cyan(text.as_str(), color).as_str()),
    ];
    proof {
        assert(cells(row@) =~= render@.group_row(group@));
    }
    table.row(row);
}

/// Renders a list of entries: those that are asked for, newest last, with runs
/// of multi-part OEM text collapsed into one row unless raw records are asked
/// for.
pub fn print_entries(entries: Vec<Entry>, render: &RenderContext, heading: Option<(u16, bool)>) -> (lines:
    Vec<String>)
    ensures
        texts(lines@) == render@.listing(entry_views(entries@), heading),
{
    let color = render.color;
    let mut lines = match heading {
        Some((total, overflow)) => {
            let title = concat3("System Event Log (", dec_text(total as u64).as_str(), " entries)");
            let mut lines = header(title.as_str(), color);
            if overflow {
                push_text(
                    &mut lines,
                    indent(
                        red("! SEL overflow flag set — some events were lost", color).as_str(),
                    ),
                );
            }
            lines
        }
        None => header("New SEL entries", color),
    };
    let kept = select_entries(entries, render);
    let ghost shown = entry_views(kept@);
    if kept.len() == 0 {
        push_text(&mut lines, indent(dim("no entries matched", color).as_str()));
        push_text(&mut lines, String::new());
        proof {
            assert(texts(lines@) =~= render@.listing(entry_views(entries@), heading));
        }
        return lines;
    }
    let mut table = Table::new(
        &["ID", "TIMESTAMP", "SEVERITY", "SENSOR", "EVENT"],
        &[Align::Right, Align::Left, Align::Left, Align::Left, Align::Left],
    );
    let mut i: usize = 0;
    proof {
        let want = render@.table(shown);
        assert(table@.headers =~= want.headers);
        assert(table@.aligns =~= want.aligns);
        assert(shown.skip(0) =~= shown);
        assert(table@.rows + render@.rows(shown) =~= want.rows);
    }
    while i < kept.len()
        invariant
            i <= kept.len(),
            shown == entry_views(kept@),
            table@.headers == render@.table(shown).headers,
            table@.aligns == render@.table(shown).aligns,
            table@.rows + render@.rows(shown.skip(i as int)) == render@.table(shown).rows,
        decreases kept.len() - i,
    {
        let rest = vstd::slice::slice_subrange(kept.as_slice(), i, kept.len());
        let ghost left = shown.skip(i as int);
        let ghost before = table@.rows;
        proof {
            assert(entry_views(rest@) =~= left);
            assert(left[0] == shown[i as int]);
        }
        let group = if render.args.raw {
            None
        } else {
            oem_text_group(rest)
        };
        match group {
            Some(group) => {
                proof {
                    law_text_groups_are_text(left);
                }
                push_group(&mut table, &group, render);
                i = i + group.count;
            }
            None => {
                push_entry(&mut table, &kept[i], render);
                i = i + 1;
            }
        }
        proof {
            let span = render@.row_span(left);
            assert(left.skip(span) =~= shown.skip(i as int));
            assert(table@.rows == before.push(render@.next_row(left)));
            assert(before + (seq![render@.next_row(left)] + render@.rows(left.skip(span)))
                =~= table@.rows + render@.rows(left.skip(span)));
        }
    }
    proof {
        assert(shown.skip(i as int) =~= seq![]);
        assert(table@.rows =~= render@.table(shown).rows);
        assert(table@ == render@.table(shown));
    }
    append_texts(&mut lines, table.lines(color));
    push_text(&mut lines, String::new());
    proof {
        assert(texts(lines@) =~= render@.listing(entry_views(entries@), heading));
    }
    lines
}

// ---------------------------------------------------------------------
// Summary
// ---------------------------------------------------------------------

/// A compact health summary of the log.
pub struct HealthSummary {
    pub entries: u16,
    pub overflow: bool,
    pub critical: usize,
    pub recent_critical: Vec<String>,
}

/// A health summary, with texts as characters.
pub ghost struct HealthView {
    pub entries: u16,
    pub overflow: bool,
    pub critical: nat,
    pub recent_critical: Seq<Chars>,
}

impl View for HealthSummary {
    type V = HealthView;

    open spec fn view(&self) -> HealthView {
        HealthView {
            entries: self.entries,
            overflow: self.overflow,
            critical: self.critical as nat,
            recent_critical: texts(self.recent_critical@),
        }
    }
}

/// One line for each critical entry, in their order.
pub open spec fn critical_lines(entries: Seq<EntryView>) -> Seq<Chars>
    decreases entries.len(),
{
    if entries.len() == 0 {
        seq![]
    } else {
        let before = critical_lines(entries.drop_last());
        let e = entries.last();
        if severity(e) == SelSeverity::Critical {
            before.push(id_text(e.id()) + ": "@ + display_description(e))
        } else {
            before
        }
    }
}

/// The last `n` of a list, or all of it if it is shorter.
pub open spec fn newest(lines: Seq<Chars>, n: nat) -> Seq<Chars> {
    if lines.len() > n {
        lines.skip(lines.len() - n)
    } else {
        lines
    }
}

/// Summarizes the log: how many critical entries there are, and the newest of
/// them, oldest first.
pub fn health_summary(
    total: u16,
    overflow: bool,
    entries: &Vec<Entry>,
    recent_limit: usize,
) -> (r: HealthSummary)
    ensures
        r@ == (HealthView {
            entries: total,
            overflow,
            critical: critical_lines(entry_views(entries@)).len(),
            recent_critical: newest(critical_lines(entry_views(entries@)), recent_limit as nat),
        }),
{
    let ghost views = entry_views(entries@);
    let mut critical: Vec<String> = Vec::new();
    let mut i: usize = 0;
    proof {
        assert(views.take(0) =~= seq![]);
        assert(texts(critical@) =~= seq![]);
    }
    while i < entries.len()
        invariant
            i <= entries.len(),
            views == entry_views(entries@),
            texts(critical@) == critical_lines(views.take(i as int)),
        decreases entries.len() - i,
    {
        proof {
            assert(views.take(i + 1).drop_last() =~= views.take(i as int));
            assert(views.take(i + 1).last() == entries@[i as int]@);
        }
        if entry_severity(&entries[i]) == SelSeverity::Critical {
            let line = concat3(
                id_string(entry_id(&entries[i])).as_str(),
                ": ",
                display_entry_description(&entries[i]).as_str(),
            );
            push_text(&mut critical, line);
        }
        i = i + 1;
    }
    proof {
        assert(views.take(views.len() as int) =~= views);
    }
    let count: usize = critical.len();
    let ghost all = critical@;
    let recent = if count > recent_limit {
        let newest = critical.split_off(count - recent_limit);
        proof {
            assert(texts(newest@) =~= texts(all).skip(count - recent_limit));
        }
        newest
    } else {
        critical
    };
    HealthSummary { entries: total, overflow, critical: count, recent_critical: recent }
}

} // verus!
