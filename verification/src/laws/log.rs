//! The System Event Log: what entries mean, which are shown, and how the log is
//! read and edited.

use vstd::prelude::*;

use crate::cli::SelSeverity;
use crate::cmd::fujitsu::{is_fujitsu, DecodedView, LongTextView, Severity};
use crate::cmd::sel::{
    critical_lines, dell_diagnostic, described, display_description, dump_of, entry_time, newest,
    part_bytes, parts_from, sensor_label, severity, severity_given, severity_name,
    severity_of_text, shown_severity, text_group, unpadded, RenderView,
};
use crate::cmd::sel_edit::{ClearPhaseView, ClearView, DeletePhaseView, DeleteView};
use crate::cmd::sel_list::{ListPhaseView, ListView};
use crate::cmd::sel_walk::SelScanView;
use crate::dialog::{ActionView, ErasureProgress, EventView, SelInfo};
use crate::event::{
    entry_of, wire_event_data, EntryView, EventData, EventData2Type, EventData3Type,
    EventDirection,
};
use crate::laws::health::says;
use crate::laws::to_bmc;
use crate::text::{contains, hex, lower, Chars};

verus! {

// ---------------------------------------------------------------------
// Severity
// ---------------------------------------------------------------------

/// Threshold events come in pairs, going low and going high, for the lower
/// non-critical, critical and non-recoverable threshold and then for the upper
/// ones. An asserted one is a warning for a non-critical threshold and critical
/// for the others, whatever describes it; other offsets are unknown. So an event
/// at a lower threshold is as severe as the one at the upper threshold of the
/// same kind, six offsets on.
pub proof fn law_threshold_event_severity(e: EntryView, text: Chars)
    requires
        e is System,
        e->event_type == 0x01,
        e->event_direction == EventDirection::Assert,
    ensures
        ({
            let threshold = e->event_data.offset / 2;
            let s = severity_given(e, text);
            &&& s == severity(e)
            &&& s == SelSeverity::Warning <==> threshold == 0 || threshold == 3
            &&& s == SelSeverity::Critical <==> threshold == 1 || threshold == 2 || threshold == 4
                || threshold == 5
            &&& s == SelSeverity::Unknown <==> threshold >= 6
        }),
{
}

/// Whether a text speaks of a failure.
pub open spec fn speaks_of_failure(text: Chars) -> bool {
    says(text, "failure"@) || says(text, "failed"@) || says(text, "fault"@) || says(
        text,
        "critical"@,
    ) || says(text, "non-recoverable"@) || says(text, "lost"@) || says(text, "thermal trip"@)
        || says(text, "uncorrectable"@) || says(text, "limit exceeded"@) || says(
        text,
        "softlockup"@,
    ) || says(text, "hung task"@) || says(text, "kernel panic"@) || says(text, "fatal"@)
}

/// Whether a text speaks of health.
pub open spec fn speaks_of_health(text: Chars) -> bool {
    says(text, "present"@) || says(text, "enabled"@) || says(text, "fully redundant"@) || says(
        text,
        "power on"@,
    ) || says(text, "running"@) || says(text, "recovered"@) || says(text, "restored"@)
}

/// Whether a text warns.
pub open spec fn warns(text: Chars) -> bool {
    says(text, "warning"@) || says(text, "degraded"@) || says(text, "predictive"@)
}

/// What a text suggests: a failure before anything else, then health, then a
/// warning, and otherwise nothing.
pub proof fn law_severity_of_texts(text: Chars)
    ensures
        severity_of_text(text) == Some(SelSeverity::Critical) <==> speaks_of_failure(text),
        severity_of_text(text) == Some(SelSeverity::Normal) <==> speaks_of_health(text)
            && !speaks_of_failure(text),
        severity_of_text(text) == Some(SelSeverity::Warning) <==> warns(text)
            && !speaks_of_failure(text) && !speaks_of_health(text),
        severity_of_text(text) is None <==> !warns(text) && !speaks_of_failure(text)
            && !speaks_of_health(text),
{
    let t = lower(text);
    let c = crate::cmd::sel::critical_words();
    let n = crate::cmd::sel::normal_words();
    let w = crate::cmd::sel::warning_words();
    assert(crate::text::contains_any(t, c) == speaks_of_failure(text)) by {
        assert(c[0] == "failure"@ && c[1] == "failed"@ && c[2] == "fault"@ && c[3] == "critical"@
            && c[4] == "non-recoverable"@ && c[5] == "lost"@ && c[6] == "thermal trip"@ && c[7]
            == "uncorrectable"@ && c[8] == "limit exceeded"@ && c[9] == "softlockup"@ && c[10]
            == "hung task"@ && c[11] == "kernel panic"@ && c[12] == "fatal"@);
    }
    assert(crate::text::contains_any(t, n) == speaks_of_health(text)) by {
        assert(n[0] == "present"@ && n[1] == "enabled"@ && n[2] == "fully redundant"@ && n[3]
            == "power on"@ && n[4] == "running"@ && n[5] == "recovered"@ && n[6] == "restored"@);
    }
    assert(crate::text::contains_any(t, w) == warns(text)) by {
        assert(w[0] == "warning"@ && w[1] == "degraded"@ && w[2] == "predictive"@);
    }
}

proof fn lemma_lower_twice(text: Chars)
    ensures
        lower(lower(text)) == lower(text),
{
    assert forall|i: int| 0 <= i < text.len() implies lower(lower(text))[i] == lower(text)[i] by {
        lemma_lower_char(text[i]);
    }
    assert(lower(lower(text)) =~= lower(text));
}

proof fn lemma_lower_char(c: char)
    ensures
        crate::text::lower_char(crate::text::lower_char(c)) == crate::text::lower_char(c),
{
}

/// Whether an event is an ordinary state transition of the power unit, or speaks
/// of the progress or failure of the system firmware.
pub open spec fn is_power_down(e: EntryView) -> bool {
    e->System_sensor_type == 0x09 && e->event_type == 0x6F && e->event_data.offset == 0
}

/// Whether an event is one of the system firmware.
pub open spec fn is_firmware_event(e: EntryView) -> bool {
    e->System_sensor_type == 0x0F && e->event_type == 0x6F
}

/// The severity of an asserted event that is no threshold event: powering down
/// and firmware progress (offset 2) are normal, a firmware error or hang (0, 1)
/// is critical; otherwise its description decides, a described event that
/// suggests nothing is a warning, and an event without a description is
/// unknown.
pub proof fn law_event_severity(e: EntryView, text: Chars)
    requires
        e is System,
        e->event_type != 0x01,
        e->event_direction == EventDirection::Assert,
    ensures
        ({
            let s = severity_given(e, text);
            let offset = e->event_data.offset;
            &&& is_power_down(e) ==> s == SelSeverity::Normal
            &&& is_firmware_event(e) && offset == 2 ==> s == SelSeverity::Normal
            &&& is_firmware_event(e) && offset <= 1 ==> s == SelSeverity::Critical
            &&& is_firmware_event(e) && offset > 2 ==> s == SelSeverity::Unknown
            &&& !is_power_down(e) && !is_firmware_event(e) ==> {
                &&& text.len() == 0 ==> s == SelSeverity::Unknown
                &&& text.len() > 0 ==> (s == SelSeverity::Critical <==> speaks_of_failure(text))
                &&& text.len() > 0 ==> (s == SelSeverity::Normal <==> speaks_of_health(text)
                    && !speaks_of_failure(text))
                &&& text.len() > 0 ==> s != SelSeverity::Unknown
            }
        }),
{
    law_severity_of_texts(lower(text));
    lemma_lower_twice(text);
}

/// The severity that the firmware gives in bits 4 to 6 of its severity byte (0
/// informational, 1 minor, 2 major, 3 critical) is what is shown of an entry
/// that it translated: normal, warning, critical and critical.
pub proof fn law_firmware_rating(
    e: EntryView,
    decoded: Map<u16, DecodedView>,
    manufacturer_id: Option<u32>,
    byte: u8,
)
    requires
        decoded.dom().contains(e.id()),
        decoded[e.id()].severity == Severity::of_byte(byte),
    ensures
        ({
            let s = shown_severity(e, decoded, manufacturer_id);
            let level = (byte / 16) % 8;
            &&& s == SelSeverity::Normal <==> level == 0
            &&& s == SelSeverity::Warning <==> level == 1
            &&& s == SelSeverity::Critical <==> level == 2 || level == 3
            &&& s == SelSeverity::Unknown <==> level >= 4
        }),
{
    assert((byte >> 4) & 0x07 == (byte / 16) % 8) by (bit_vector);
}

/// Severities are shown by their names.
pub proof fn law_severity_names()
    ensures
        severity_name(SelSeverity::Normal) == "normal"@,
        severity_name(SelSeverity::Warning) == "warning"@,
        severity_name(SelSeverity::Critical) == "critical"@,
        severity_name(SelSeverity::Unknown) == "unknown"@,
        Severity::Informational.name() == "informational"@,
        Severity::Minor.name() == "minor"@,
        Severity::Major.name() == "major"@,
        Severity::Critical.name() == "critical"@,
        Severity::Unknown.name() == "unknown"@,
{
}

// ---------------------------------------------------------------------
// Descriptions
// ---------------------------------------------------------------------

/// The texts of the standard firmware progress codes, by code.
pub open spec fn progress_stages() -> Seq<Chars> {
    seq![
        "Firmware progress checkpoint (detail not supplied by firmware)"@,
        "Memory initialization"@,
        "Hard-disk initialization"@,
        "Secondary processor initialization"@,
        "User authentication"@,
        "User-initiated system setup"@,
        "USB resource configuration"@,
        "PCI resource configuration"@,
        "Option ROM initialization"@,
        "Video initialization"@,
        "Cache initialization"@,
        "SMBus initialization"@,
        "Keyboard controller initialization"@,
        "Embedded controller initialization"@,
        "Docking station attachment"@,
        "Enabling docking station"@,
        "Docking station ejection"@,
        "Disabling docking station"@,
        "Calling operating system wake-up vector"@,
        "Starting operating system boot process"@,
        "Baseboard or motherboard initialization"@,
    ]
}

/// A firmware progress event is described by the extension code in its second
/// data byte, and as a checkpoint without one; a power-down event by whether it
/// began or ended; every other system event by its generic text, and an OEM
/// record not at all.
pub proof fn law_descriptions(e: EntryView, generic: Chars)
    ensures
        e is System && is_firmware_event(e) && e->event_data.offset == 2 ==> {
            let d = described(e, generic);
            match e->event_data.data2_type {
                EventData2Type::SensorSpecific(code) => {
                    &&& code <= 0x14 ==> d == progress_stages()[code as int]
                    &&& code == 0x16 ==> d == "Floppy initialization"@
                    &&& code == 0x17 ==> d == "Keyboard test"@
                    &&& code == 0x18 ==> d == "Pointing device test"@
                    &&& code == 0x19 ==> d == "Primary processor initialization"@
                    &&& code == 0x15 || code > 0x19 ==> d == "System firmware progress code 0x"@
                        + hex(code as nat, 2)
                },
                _ => d == progress_stages()[0],
            }
        },
        e is System && is_power_down(e) ==> described(e, generic) == if e->event_direction
            == EventDirection::Assert {
            "Power off / power down initiated"@
        } else {
            "Power off / power down condition cleared"@
        },
        e is System && !is_power_down(e) && !(is_firmware_event(e) && e->event_data.offset == 2)
            ==> described(e, generic) == generic,
        !(e is System) ==> described(e, generic) == ""@,
{
}

/// Event data: bits 7 and 6 of the first byte say what the second holds, bits 5
/// and 4 what the third holds (1 a reading or threshold, 2 an OEM code, 3 a
/// sensor-specific code), unless that is 0xFF; the lower four bits are the
/// offset.
pub proof fn law_event_data_layout(b0: u8, b1: u8, b2: u8)
    ensures
        ({
            let d = wire_event_data(seq![b0, b1, b2]);
            &&& d.offset == b0 % 16
            &&& b1 == 0xFF || b0 / 64 == 0 ==> d.data2_type == EventData2Type::Unspecified
            &&& b1 != 0xFF && b0 / 64 == 1 ==> d.data2_type == EventData2Type::TriggerReading(b1)
            &&& b1 != 0xFF && b0 / 64 == 2 ==> d.data2_type == EventData2Type::OemCode(b1)
            &&& b1 != 0xFF && b0 / 64 == 3 ==> d.data2_type == EventData2Type::SensorSpecific(b1)
            &&& b2 == 0xFF || (b0 / 16) % 4 == 0 ==> d.data3_type == EventData3Type::Unspecified
            &&& b2 != 0xFF && (b0 / 16) % 4 == 1 ==> d.data3_type
                == EventData3Type::TriggerThreshold(b2)
            &&& b2 != 0xFF && (b0 / 16) % 4 == 2 ==> d.data3_type == EventData3Type::OemCode(b2)
            &&& b2 != 0xFF && (b0 / 16) % 4 == 3 ==> d.data3_type
                == EventData3Type::SensorSpecific(b2)
        }),
{
    assert(b0 & 0x0F == b0 % 16 && (b0 >> 6) & 3 == b0 / 64 && (b0 >> 4) & 3 == (b0 / 16) % 4)
        by (bit_vector);
}

/// A system event record: the type of the sensor stands in byte 10, its number
/// in byte 11, the event type in the lower seven bits of byte 12 and the
/// direction in its highest, set for a condition that ended.
pub proof fn law_system_event_layout(raw: Seq<u8>, data: EventData)
    requires
        raw.len() == 16,
        raw[2] == 0x02,
        raw[8] < 0xC0,
    ensures
        ({
            let e = entry_of(raw, data)->Ok_0;
            &&& entry_of(raw, data) is Ok
            &&& e is System
            &&& e.id() == raw[0] + 256 * raw[1]
            &&& e->System_sensor_type == raw[10]
            &&& e->sensor_number == raw[11]
            &&& e->event_type == raw[12] % 128
            &&& e->event_direction == EventDirection::Deassert <==> raw[12] >= 128
            &&& e->event_data == data
        }),
{
    let b = raw[12];
    assert(b & 0x7F == b % 128 && ((b & 0x80 == 0x80) == (b >= 128))) by (bit_vector);
}

/// Dell's diagnostic companion records are recognized by manufacturer (0x28 or
/// 0x2A2), sensor type 0xC1, event type 0x72 and offset 2, and by nothing less.
pub proof fn law_dell_companions(e: EntryView, manufacturer_id: Option<u32>)
    ensures
        dell_diagnostic(e, manufacturer_id) is Some <==> (manufacturer_id == Some(0x28u32)
            || manufacturer_id == Some(0x2A2u32)) && e is System && e->System_sensor_type == 0xC1
            && e->event_type == 0x72 && e->event_data.offset == 2,
{
}

// ---------------------------------------------------------------------
// Selecting and listing
// ---------------------------------------------------------------------

/// A time range keeps the entries from its start to its end, both included, and
/// none whose time is unknown.
pub proof fn law_time_range(r: RenderView, e: EntryView, t: int)
    requires
        entry_time(e) == Some(t),
        r.sensor is None,
        r.severity is None,
    ensures
        r.selects(e) <==> (match r.since {
            Some(since) => since <= t,
            None => true,
        }) && (match r.until {
            Some(until) => t <= until,
            None => true,
        }),
{
}

/// An entry whose time is not known lies in no time range.
pub proof fn law_unknown_times_are_in_no_range(r: RenderView, e: EntryView)
    requires
        entry_time(e) is None,
        r.since is Some || r.until is Some,
    ensures
        !r.selects(e),
{
}

/// Selecting by severity keeps the entries that are shown with it.
pub proof fn law_severity_filter(r: RenderView, e: EntryView)
    requires
        r.since is None,
        r.until is None,
        r.sensor is None,
        r.severity is Some,
    ensures
        r.selects(e) <==> shown_severity(e, r.decoded, r.manufacturer_id) == r.severity->0,
{
}

/// Selecting by sensor keeps the entries whose sensor label contains the
/// pattern, in any case; a translated entry also by its text.
pub proof fn law_sensor_filter(r: RenderView, e: EntryView)
    requires
        r.since is None,
        r.until is None,
        r.severity is None,
        r.sensor is Some,
        dell_diagnostic(e, r.manufacturer_id) is None,
    ensures
        !r.decoded.dom().contains(e.id()) ==> (r.selects(e) <==> contains(
            lower(sensor_label(e, r.names)),
            lower(r.sensor->0),
        )),
        r.decoded.dom().contains(e.id()) ==> (r.selects(e) <==> contains(
            lower(sensor_label(e, r.names) + " "@ + r.decoded[e.id()].text),
            lower(r.sensor->0),
        )),
{
}

/// The limit keeps the newest: what is shown is the end of what was selected,
/// as long as the limit allows.
pub proof fn law_limit_keeps_the_newest(r: RenderView, entries: Seq<EntryView>)
    ensures
        ({
            let all = r.selected(entries);
            let shown = r.limited(entries);
            &&& r.limit is None || all.len() <= r.limit->0 ==> shown == all
            &&& r.limit is Some && all.len() > r.limit->0 ==> shown.len() == r.limit->0
                && forall|i: int|
                0 <= i < shown.len() ==> #[trigger] shown[i] == all[all.len() - shown.len() + i]
        }),
{
}

/// Selecting goes entry by entry and keeps their order: an entry is appended
/// when it is asked for and left out when it is not.
pub proof fn law_selection_keeps_order(r: RenderView, entries: Seq<EntryView>, e: EntryView)
    ensures
        r.selected(seq![]) == Seq::<EntryView>::empty(),
        r.selected(entries.push(e)) == if r.selects(e) {
            r.selected(entries).push(e)
        } else {
            r.selected(entries)
        },
{
    assert(entries.push(e).drop_last() =~= entries);
}

/// The row of a system event: its ID, its time, the severity that is shown, its
/// sensor, and the firmware's text where it translated the entry.
pub proof fn law_event_row(r: RenderView, e: EntryView)
    requires
        e is System,
    ensures
        ({
            let row = r.entry_row(e);
            &&& row.len() == 5
            &&& row[0].plain == "0x"@ + hex(e.id() as nat, 4)
            &&& row[1].plain == e->System_timestamp
            &&& row[2].plain == severity_name(shown_severity(e, r.decoded, r.manufacturer_id))
            &&& row[3].plain == sensor_label(e, r.names)
            &&& r.decoded.dom().contains(e.id()) && !r.decoded[e.id()].css ==> row[4].rendered
                == r.decoded[e.id()].text
            &&& r.decoded.dom().contains(e.id()) && r.decoded[e.id()].css ==> row[4].rendered
                == r.decoded[e.id()].text + " (CSS component)"@
            &&& !r.decoded.dom().contains(e.id()) && dell_diagnostic(e, r.manufacturer_id) is None
                ==> row[4].rendered == display_description(e)
        }),
{
}

/// The rows of OEM records: their ID, their time if they have one, their type,
/// the manufacturer, and their bytes.
pub proof fn law_oem_rows(r: RenderView, e: EntryView)
    requires
        !(e is System),
    ensures
        ({
            let row = r.entry_row(e);
            &&& row.len() == 5
            &&& row[0].plain == "0x"@ + hex(e.id() as nat, 4)
            &&& row[2].plain == "unknown"@
            &&& e is OemTimestamped ==> row[1].plain == e->OemTimestamped_timestamp && row[3].plain
                == "OEM 0x"@ + hex(e->OemTimestamped_ty as nat, 2) && row[4].plain == "mfg 0x"@
                + hex(e->manufacturer_id as nat, 6) + "  "@ + dump_of(e->OemTimestamped_data)
            &&& e is OemNotTimestamped ==> row[1].plain == "—"@ && row[3].plain == "OEM 0x"@ + hex(
                e->OemNotTimestamped_ty as nat,
                2,
            ) && row[4].plain == dump_of(e->OemNotTimestamped_data)
        }),
{
}

/// The summary counts the critical entries and shows the newest of them, in
/// their order, each by ID and description.
pub proof fn law_critical_entries_are_summed_up(entries: Seq<EntryView>, e: EntryView, n: nat)
    ensures
        critical_lines(seq![]).len() == 0,
        severity(e) == SelSeverity::Critical ==> critical_lines(entries.push(e)) == critical_lines(
            entries,
        ).push("0x"@ + hex(e.id() as nat, 4) + ": "@ + display_description(e)),
        severity(e) != SelSeverity::Critical ==> critical_lines(entries.push(e)) == critical_lines(
            entries,
        ),
        ({
            let all = critical_lines(entries);
            let shown = newest(all, n);
            &&& all.len() <= n ==> shown == all
            &&& all.len() > n ==> shown.len() == n && forall|i: int|
                0 <= i < n ==> #[trigger] shown[i] == all[all.len() - n + i]
        }),
{
    assert(entries.push(e).drop_last() =~= entries);
}

// ---------------------------------------------------------------------
// Multi-part texts
// ---------------------------------------------------------------------

/// A text cut into OEM records: record `k` carries the tag, its number, and the
/// eleven bytes of the text at `11 * k`, with zeros behind the end.
pub open spec fn text_parts(id: u16, ty: u8, tag: u8, text: Seq<u8>, count: nat) -> Seq<EntryView> {
    Seq::new(
        count,
        |k: int|
            EntryView::OemNotTimestamped {
                record_id: id,
                ty,
                data: seq![tag, k as u8] + Seq::new(
                    11,
                    |i: int|
                        if 11 * k + i < text.len() {
                            text[11 * k + i]
                        } else {
                            0
                        },
                ),
            },
    )
}

/// Bytes with zeros behind their end.
pub open spec fn zero_filled(text: Seq<u8>, n: nat) -> Seq<u8> {
    Seq::new(
        n,
        |i: int|
            if i < text.len() {
                text[i]
            } else {
                0
            },
    )
}

proof fn lemma_part_bytes(id: u16, ty: u8, tag: u8, text: Seq<u8>, count: nat, n: int)
    requires
        0 <= n <= count,
    ensures
        part_bytes(text_parts(id, ty, tag, text, count), n) == zero_filled(text, (11 * n) as nat),
    decreases n,
{
    let parts = text_parts(id, ty, tag, text, count);
    if n > 0 {
        lemma_part_bytes(id, ty, tag, text, count, n - 1);
        assert(part_bytes(parts, n) =~= zero_filled(text, (11 * n) as nat));
    } else {
        assert(part_bytes(parts, 0) =~= zero_filled(text, 0));
    }
}

proof fn lemma_unpadded(text: Seq<u8>, n: nat)
    requires
        text.len() <= n,
        text.len() > 0 ==> text.last() != 0,
    ensures
        unpadded(zero_filled(text, n)) == text,
    decreases n,
{
    let s = zero_filled(text, n);
    if n > text.len() {
        assert(s.drop_last() =~= zero_filled(text, (n - 1) as nat));
        lemma_unpadded(text, (n - 1) as nat);
    } else {
        assert(s =~= text);
    }
}

proof fn lemma_all_parts(id: u16, ty: u8, tag: u8, text: Seq<u8>, count: nat, k: int)
    requires
        0 <= k <= count <= 256,
    ensures
        parts_from(text_parts(id, ty, tag, text, count), ty, tag, k) == count - k,
    decreases count - k,
{
    if k < count {
        lemma_all_parts(id, ty, tag, text, count, k + 1);
    }
}

/// A text that was cut into OEM records is put together again: printable text
/// of any length comes back as it was, as one row that stands for all records.
pub proof fn law_cut_texts_are_put_together(id: u16, ty: u8, tag: u8, text: Seq<u8>, count: nat)
    requires
        0 < text.len(),
        11 * (count - 1) < text.len() <= 11 * count,
        count <= 256,
        forall|i: int| 0 <= i < text.len() ==> 0x20 <= (#[trigger] text[i]) <= 0x7E,
    ensures
        ({
            let group = text_group(text_parts(id, ty, tag, text, count));
            &&& group is Some
            &&& group->0.first_id == id
            &&& group->0.ty == ty
            &&& group->0.count == count
            &&& group->0.text.len() == text.len()
            &&& forall|i: int|
                0 <= i < text.len() ==> #[trigger] group->0.text[i] == text[i] as char
        }),
{
    let parts = text_parts(id, ty, tag, text, count);
    lemma_part_bytes(id, ty, tag, text, count, count as int);
    lemma_unpadded(text, 11 * count);
    lemma_all_parts(id, ty, tag, text, count, 0);
    assert(parts[0]->OemNotTimestamped_data[0] == tag);
    assert(parts[0]->OemNotTimestamped_data[1] == 0);
    assert(crate::cmd::sel::all_printable(text));
}

// ---------------------------------------------------------------------
// Reading and editing
// ---------------------------------------------------------------------

/// An entry is read by Get SEL Entry (Storage, network function 0x0A, command
/// 0x43) without a reservation, whole, by its ID.
pub proof fn law_entry_requests(s: SelScanView)
    requires
        s.phase is Waiting,
    ensures
        s.request() == Some(
            to_bmc(
                0x0A,
                0x43,
                seq![0u8, 0, (s.record_id % 256) as u8, (s.record_id / 256) as u8, 0, 0xFF],
            ),
        ),
{
}

/// An entry is deleted by Delete SEL Entry (0x46) under the reservation that was
/// taken, and it is the entry that was named.
pub proof fn law_delete_requests(s: DeleteView, reservation: u16)
    ensures
        s.at(DeletePhaseView::Send(reservation)).action() == ActionView::Send(
            to_bmc(
                0x0A,
                0x46,
                seq![
                    (reservation % 256) as u8,
                    (reservation / 256) as u8,
                    (s.record_id % 256) as u8,
                    (s.record_id / 256) as u8,
                ],
            ),
        ),
        s.at(DeletePhaseView::Reserve).next(EventView::Reserved(Ok(reservation))) == s.at(
            DeletePhaseView::Send(reservation),
        ),
        s.at(DeletePhaseView::Ask).next(EventView::Answer(false)).action() == ActionView::Finish(
            Ok(()),
        ),
{
}

/// Clearing goes through its steps: the totals, the question unless it was
/// waived, a reservation where the controller has them, the erasure under that
/// reservation, and looks at its progress every 150 ms until it is complete.
pub proof fn law_clearing_steps(s: ClearView, info: SelInfo, id: u16)
    ensures
        s.at(ClearPhaseView::Info).action() == ActionView::GetSelInfo,
        ({
            let known = s.at(ClearPhaseView::Info).next(EventView::SelInfo(Ok(info)));
            let agreed = if s.yes {
                known
            } else {
                known.next(EventView::Answer(true))
            };
            &&& !s.yes ==> known.action() is Confirm
            &&& info.reserve_supported ==> agreed.action() == ActionView::ReserveSel
                && agreed.next(EventView::Reserved(Ok(id))).action() == (ActionView::ClearSel {
                initiate: true,
                reservation: Some(id),
            })
            &&& !info.reserve_supported ==> agreed.action() == (ActionView::ClearSel {
                initiate: true,
                reservation: None,
            })
        }),
        s.at(ClearPhaseView::Initiate(Some(id))).next(
            EventView::Erasure(Ok(ErasureProgress::InProgress)),
        ).action() == (ActionView::Pause { seconds: 0, millis: 150 }),
        s.at(ClearPhaseView::Status(Some(id))).next(
            EventView::Erasure(Ok(ErasureProgress::InProgress)),
        ).action() == (ActionView::Pause { seconds: 0, millis: 150 }),
        s.at(ClearPhaseView::Initiate(Some(id))).next(
            EventView::Erasure(Ok(ErasureProgress::Completed)),
        ).action() == ActionView::Finish(Ok(())),
        s.at(ClearPhaseView::Status(Some(id))).next(
            EventView::Erasure(Ok(ErasureProgress::Completed)),
        ).action() == ActionView::Finish(Ok(())),
{
}

/// Following looks at the log every two seconds.
pub proof fn law_following_interval(s: ListView)
    ensures
        s.at(ListPhaseView::Pause).action() == (ActionView::Pause { seconds: 2, millis: 0 }),
        s.at(ListPhaseView::Pause).next(EventView::Elapsed).list.action()
            == ActionView::GetSelInfo,
{
}

/// Fujitsu's translation: command 0xF5 of network function 0x2E, with the
/// enterprise number 0x2880 and function 0x43, the entry, the offset that the
/// fetch has reached and at most 56 bytes. Only records in an OEM-defined range
/// are translated, and only by a controller of Fujitsu's.
pub proof fn law_translation_requests(s: LongTextView, e: EntryView)
    requires
        s.wf(),
        s.phase is Waiting,
    ensures
        s.request() == Some(
            to_bmc(
                0x2E,
                0xF5,
                seq![
                    0x80u8,
                    0x28,
                    0x00,
                    0x43,
                    (s.record_id % 256) as u8,
                    (s.record_id / 256) as u8,
                    s.text.len() as u8,
                    s.requested(),
                ],
            ),
        ),
        s.first is None ==> s.requested() == 56,
        s.first is Some ==> s.requested() <= 56 && (s.requested() < 56 ==> s.requested()
            == s.first->0.total_text_len - s.text.len()),
        is_fujitsu(0x2880),
        crate::cmd::sel::wants_oem_decoding(e) <==> e is System && (e->System_sensor_type >= 0xC0
            || e->event_type >= 0x70),
{
}

} // verus!
