//! What the records of a system hold, and how what was read is used.

use vstd::prelude::*;

use crate::cli::{BootAction, SelArgs};
use crate::clock::{rfc3339, time_of};
use crate::cmd::fujitsu::cc_hint;
use crate::cmd::inventory::LocatedView;
use crate::cmd::inventory_run::{
    other_row, selection, with_explicit, InventoryPhaseView, InventoryView,
};
use crate::cmd::sel::{
    description, names_of, severity_name, severity_of_text, text_group, RenderView,
};
use crate::cmd::sel_edit::names_an_entry;
use crate::cmd::sel_list::{argument_error, ListView};
use crate::cmd::sel_walk::OemDecodeView;
use crate::cmd::sensors::state_text;
use crate::cmd::simple::{replied_step, SimpleCommand};
use crate::cmd::status::{chassis_lines, StatusView};
use crate::cmd::user::{name_of, typed_twice, without_line_end};
use crate::cmd::ChassisStatus;
use crate::dialog::{ActionView, DeviceId};
use crate::event::{entry_of, EntryView, EventData, EventData2Type, EventData3Type, EventDirection};
use crate::fru::{bcd_plus, field_at, six_bit};
use crate::laws::{answer, bit, lemma_bits};
use crate::sdr::{codes_of, contents_of, ContentsView, RecordKind, RecordView, SensorView};
use crate::text::{dec, hex, hex_dump, lossy, trimmed, Chars};
use crate::ui::{header_lines, is_colored, kv_line};

verus! {

// ---------------------------------------------------------------------
// Records of the repository
// ---------------------------------------------------------------------

/// The ranges of the event/reading type codes.
pub proof fn law_reading_types(code: u8)
    ensures
        codes_of(code) is Unspecified <==> code == 0,
        codes_of(code) is Threshold <==> code == 1,
        codes_of(code) is DiscreteGeneric <==> 2 <= code <= 12,
        codes_of(code) is SensorSpecific <==> code == 0x6F,
        codes_of(code) is Oem <==> 0x70 <= code <= 0x7F,
        codes_of(code) is Reserved <==> 13 <= code < 0x6F || code > 0x7F,
{
}

/// A state of a sensor is described as the event that reports it is: with the
/// sensor's type and reading type, and the number of the state as offset; one
/// without a description by its number.
pub proof fn law_states_are_described_as_events(ty: u8, code: u8, n: u8, e: EntryView)
    requires
        n < 15,
        e is System,
        e->System_sensor_type == ty,
        e->event_type == code,
        e->event_direction == EventDirection::Assert,
        e->event_data == (EventData {
            offset: n,
            data2_type: EventData2Type::Unspecified,
            data3_type: EventData3Type::Unspecified,
        }),
    ensures
        state_text(ty, codes_of(code), n) == if description(e).len() > 0 {
            description(e)
        } else {
            "offset "@ + dec(n as nat)
        },
{
    assert(n & 0x0F == n) by (bit_vector)
        requires
            n < 15,
    ;
}

/// The sensor that a record holds.
pub open spec fn sensor(contents: ContentsView) -> Option<SensorView> {
    match contents {
        ContentsView::FullSensor { sensor, .. } => Some(sensor),
        ContentsView::CompactSensor(sensor) => Some(sensor),
        ContentsView::EventOnlySensor(sensor) => Some(sensor),
        _ => None,
    }
}

/// Where a sensor record keeps its fields: the owner in the sixth byte, channel
/// and LUN in the seventh, the number in the eighth; the type and the reading
/// type in the thirteenth and fourteenth, or, for a sensor that only sends
/// events, in the eleventh and twelfth.
pub proof fn law_sensor_record_layout(data: Seq<u8>, kind: RecordKind)
    requires
        kind == RecordKind::FullSensor && data[3] == 1 || kind == RecordKind::CompactSensor
            && data[3] == 2 || kind == RecordKind::EventOnlySensor && data[3] == 3,
    ensures
        ({
            let found = sensor(contents_of(data, kind));
            let s = found->0;
            let at: int = if data[3] == 3 {
                10
            } else {
                12
            };
            &&& found is Some
            &&& s.key.owner_id == data[5]
            &&& s.key.owner_channel == data[6] / 16
            &&& s.key.owner_lun == data[6] % 4
            &&& s.key.sensor_number == data[7]
            &&& s.ty == data[at]
            &&& s.event_code == codes_of(data[at + 1])
        }),
{
}

/// A sensor is known by its type and its number, and by the last name that the
/// repository has for them. Records that hold no sensor name none.
pub proof fn law_sensor_names(records: Seq<RecordView>, record: RecordView, ty: u8, number: u8)
    ensures
        names_of(seq![]) == Map::<(u8, u8), Chars>::empty(),
        ({
            let before = names_of(records);
            let after = names_of(records.push(record));
            let s = sensor(record.contents);
            if s is Some && s->0.ty == ty && s->0.key.sensor_number == number {
                after.dom().contains((ty, number)) && after[(ty, number)] == s->0.name
            } else {
                &&& after.dom().contains((ty, number)) == before.dom().contains((ty, number))
                &&& before.dom().contains((ty, number)) ==> after[(ty, number)] == before[(
                    ty,
                    number,
                )]
            }
        }),
{
    assert(records.push(record).drop_last() =~= records);
}

/// The records that are listed beside the devices: management controllers and
/// generic devices, by name.
pub proof fn law_other_devices(record: RecordView)
    ensures
        match record.contents {
            ContentsView::McDeviceLocator(name) => other_row(record) is Some && other_row(
                record,
            )->0[0].plain == "Mgmt controller"@ && other_row(record)->0[2].plain == name,
            ContentsView::GenericDeviceLocator(name) => other_row(record) is Some && other_row(
                record,
            )->0[0].plain == "Device"@ && other_row(record)->0[2].plain == name,
            _ => other_row(record) is None,
        },
{
}

// ---------------------------------------------------------------------
// Inventory
// ---------------------------------------------------------------------

/// The two highest bits of a field's first byte say how its text is written: 0
/// in bytes, 1 in BCD plus, 2 in six bits, 3 in Latin-1. What is read is trimmed,
/// and a blank text counts as none.
pub proof fn law_field_types(area: Seq<u8>, idx: int)
    requires
        0 <= idx < area.len(),
        area[idx] != 0xC1,
        0 < area[idx] % 64,
        idx + 1 + area[idx] % 64 <= area.len(),
    ensures
        ({
            let bytes = area.subrange(idx + 1, idx + 1 + area[idx] % 64);
            let kind = area[idx] / 64;
            let text = trimmed(
                if kind == 0 {
                    hex_dump(bytes)
                } else if kind == 1 {
                    bcd_plus(bytes)
                } else if kind == 2 {
                    six_bit(bytes)
                } else {
                    Seq::new(bytes.len(), |i: int| bytes[i] as char)
                },
            );
            field_at(area, idx).0 == if text.len() == 0 {
                None
            } else {
                Some(text)
            }
        }),
{
    let b = area[idx];
    assert((b >> 6) & 3 == b / 64 && b & 0x3F == b % 64) by (bit_vector);
}

/// With an ID only that device is read, also if the repository does not list
/// it; without one every device is, in order. The image of a device is exported
/// only where one device is selected.
pub proof fn law_devices_to_read(frus: Seq<LocatedView>, id: u8, k: int)
    requires
        0 <= k < frus.len(),
    ensures
        selection(frus, None).len() == frus.len(),
        selection(frus, None)[k] == k,
        with_explicit(frus, None) == frus,
        frus[k].id == id ==> with_explicit(frus, Some(id)) == frus && selection(frus, Some(id)).len()
            == 1 && 0 <= selection(frus, Some(id))[0] <= k,
        (forall|i: int| 0 <= i < frus.len() ==> (#[trigger] frus[i]).id != id) ==> with_explicit(
            frus,
            Some(id),
        ).len() == frus.len() + 1 && with_explicit(frus, Some(id)).last().id == id
            && with_explicit(frus, Some(id)).last().target is None,
{
    crate::cmd::inventory_run::law_selection(frus, Some(id));
    lemma_first_with_id(frus, id);
    if frus[k].id == id {
        lemma_not_after(frus, id, k);
    }
}

proof fn lemma_first_with_id(frus: Seq<LocatedView>, id: u8)
    ensures
        0 <= crate::cmd::inventory_run::first_with_id(frus, id) <= frus.len(),
        (forall|i: int| 0 <= i < frus.len() ==> (#[trigger] frus[i]).id != id)
            ==> crate::cmd::inventory_run::first_with_id(frus, id) == frus.len(),
    decreases frus.len(),
{
    if frus.len() > 0 && frus[0].id != id {
        let rest = frus.skip(1);
        lemma_first_with_id(rest, id);
        if forall|i: int| 0 <= i < frus.len() ==> (#[trigger] frus[i]).id != id {
            assert forall|i: int| 0 <= i < rest.len() implies (#[trigger] rest[i]).id != id by {
                assert(rest[i] == frus[i + 1]);
            }
        }
    }
}

proof fn lemma_not_after(frus: Seq<LocatedView>, id: u8, k: int)
    requires
        0 <= k < frus.len(),
        frus[k].id == id,
    ensures
        0 <= crate::cmd::inventory_run::first_with_id(frus, id) <= k,
    decreases frus.len(),
{
    lemma_first_with_id(frus, id);
    if frus[0].id != id {
        assert(frus.skip(1)[k - 1] == frus[k]);
        lemma_not_after(frus.skip(1), id, k - 1);
    }
}

/// Each selected device is read whole for an export and area by area otherwise,
/// and the command ends after the last one.
pub proof fn law_how_devices_are_read(s: InventoryView, index: int, lines: Seq<Chars>)
    ensures
        index >= s.chosen.len() ==> s.moved_to(index, lines).run.action() == ActionView::Finish(
            Ok(()),
        ),
        0 <= index < s.chosen.len() ==> ({
            let fru = s.frus[s.chosen[index]];
            let phase = s.moved_to(index, lines).run.phase;
            &&& s.args.raw is Some <==> phase is Raw
            &&& s.args.raw is None <==> phase is Decoded
            &&& phase is Raw ==> phase == InventoryPhaseView::Raw(
                crate::fru_read::RawView::start(fru.id, fru.target),
            )
            &&& phase is Decoded ==> phase == InventoryPhaseView::Decoded(
                crate::fru_read::AreasView::start(fru.id, fru.target),
            )
        }),
{
}

// ---------------------------------------------------------------------
// Records of the log
// ---------------------------------------------------------------------

/// The ranges of record types: 2 is a system event, 0xC0 to 0xDF an OEM record
/// with a time, and 0xE0 and above one without. The time is in bytes 3 to 6,
/// lowest first, and unknown where it is zero.
pub proof fn law_log_record_layout(raw: Seq<u8>, data: EventData)
    requires
        raw.len() == 16,
    ensures
        ({
            let r = entry_of(raw, data);
            let e = r->Ok_0;
            let seconds = raw[3] + 256 * raw[4] + 65536 * raw[5] + 16777216 * raw[6];
            let time = if seconds == 0 {
                "Unknown"@
            } else {
                rfc3339(seconds)
            };
            &&& r is Ok && e is System ==> raw[2] == 2 && e->System_timestamp == time
            &&& r is Ok && e is OemTimestamped <==> 0xC0 <= raw[2] <= 0xDF
            &&& r is Ok && e is OemNotTimestamped <==> raw[2] >= 0xE0
            &&& r is Ok ==> e.id() == raw[0] + 256 * raw[1]
            &&& 0xC0 <= raw[2] <= 0xDF ==> e->OemTimestamped_timestamp == time
                && e->OemTimestamped_ty == raw[2] && e->manufacturer_id == raw[7] + 256 * raw[8]
                + 65536 * raw[9] && e->OemTimestamped_data == raw.subrange(10, 16)
            &&& raw[2] >= 0xE0 ==> e->OemNotTimestamped_ty == raw[2] && e->OemNotTimestamped_data
                == raw.subrange(3, 16)
            &&& raw[2] != 2 && raw[2] < 0xC0 ==> r is Err
        }),
{
}

/// Texts in the log are shown in quotes, with the ID of their first record and
/// the number of records that hold them, and rated by what they say; `--raw`
/// shows the records instead.
pub proof fn law_text_rows(r: RenderView, entries: Seq<EntryView>)
    requires
        entries.len() > 0,
    ensures
        r.raw || text_group(entries) is None ==> r.next_row(entries) == r.entry_row(entries[0])
            && r.row_span(entries) == 1,
        !r.raw && text_group(entries) is Some ==> ({
            let g = text_group(entries)->0;
            let row = r.next_row(entries);
            let label = "OEM 0x"@ + hex(g.ty as nat, 2);
            &&& r.row_span(entries) == g.count
            &&& row.len() == 5
            &&& row[0].plain == "0x"@ + hex(g.first_id as nat, 4)
            &&& severity_of_text(g.text) is Some ==> row[2].plain == severity_name(
                severity_of_text(g.text)->0,
            )
            &&& severity_of_text(g.text) is None ==> row[2].plain == "unknown"@
            &&& g.count == 1 ==> row[3].plain == label
            &&& g.count > 1 ==> row[3].plain == label + " ×"@ + dec(g.count as nat)
            &&& row[4].plain == "\""@ + g.text + "\""@
        }),
{
    if text_group(entries) is Some {
        crate::cmd::sel::law_text_groups_are_text(entries);
    }
}

// ---------------------------------------------------------------------
// How the log is listed
// ---------------------------------------------------------------------

/// A time range is refused exactly if one of its ends is no time or it ends
/// before it begins.
pub proof fn law_time_arguments(args: SelArgs)
    ensures
        argument_error(args) is Some <==> ({
            let since = time_of(args.since->0@);
            let until = time_of(args.until->0@);
            ||| args.since is Some && since is None
            ||| args.until is Some && until is None
            ||| args.since is Some && args.until is Some && since->0 > until->0
        }),
{
}

/// Entries are translated exactly where the controller is one that can and the
/// user has not declined; the manufacturer decides.
pub proof fn law_who_translates(s: ListView, device: DeviceId, e: Chars)
    ensures
        ({
            let after = s.after_device(Ok(device)).list.setup;
            let id = device.manufacturer_id;
            &&& after.manufacturer_id == Some(id)
            &&& after.decode <==> !s.setup.args.no_oem_decode && (id == 0x2880 || id == 14 || id
                == 311)
        }),
        !s.after_device(Err(e)).list.setup.decode,
        s.after_device(Err(e)).list.setup.manufacturer_id is None,
        OemDecodeView::start(s.entries, false).is_over(),
{
}

/// With `--follow` the listing goes on, and without it ends. Whatever is listed
/// counts as known from then on.
pub proof fn law_listing_ends(s: ListView, d: OemDecodeView, i: int)
    requires
        d.is_over(),
        0 <= i < s.entries.len(),
    ensures
        ({
            let after = s.after_decode(d).list;
            &&& s.setup.args.follow <==> after.phase is Pause
            &&& !s.setup.args.follow <==> after.phase is Finished
            &&& after.known.contains(s.entries[i].id())
        }),
{
    assert(crate::cmd::sel_list::ids_of(s.entries)[i] == s.entries[i].id());
}

/// A listing is headed by the number of entries in the log, and says where
/// events were lost; what is new since is headed as such.
pub proof fn law_listing_headings(r: RenderView, total: u16, overflow: bool)
    ensures
        ({
            let lines = r.heading(Some((total, overflow)));
            let plain = header_lines("System Event Log ("@ + dec(total as nat) + " entries)"@, r.color);
            &&& !overflow ==> lines == plain
            &&& overflow ==> lines.len() == plain.len() + 1 && lines.take(plain.len() as int)
                == plain
        }),
        r.heading(None) == header_lines("New SEL entries"@, r.color),
{
    let plain = header_lines("System Event Log ("@ + dec(total as nat) + " entries)"@, r.color);
    assert(r.heading(Some((total, true))).take(plain.len() as int) =~= plain);
}

/// Hints to the completion codes of a translation.
pub proof fn law_completion_hints(cc: u8)
    ensures
        cc == 0xC1 ==> cc_hint(cc) == " (command not supported by this BMC)"@,
        cc == 0xC7 ==> cc_hint(cc) == " (invalid request length)"@,
        cc == 0xD4 ==> cc_hint(cc) == " (administrator privilege may be required)"@,
        cc != 0xC1 && cc != 0xC7 && cc != 0xD4 ==> cc_hint(cc) == ""@,
{
}

// ---------------------------------------------------------------------
// Overview, boot and users
// ---------------------------------------------------------------------

/// The overview shows the power and the restore policy, or why it cannot.
pub proof fn law_overview_of_the_chassis(cs: ChassisStatus, color: bool)
    ensures
        ({
            let lines = chassis_lines(Ok(cs), color);
            &&& lines.len() >= 2
            &&& lines[0] == kv_line(
                "Power"@,
                crate::cmd::power::power_text(cs.power_on, color),
                22,
                color,
            )
            &&& lines.last() == kv_line(
                "Power restore policy"@,
                crate::cmd::policy_name(cs.restore_policy),
                22,
                color,
            )
        }),
{
}

/// The overview counts every critical entry and shows the last three.
pub proof fn law_recent_events(s: StatusView, entries: Seq<EntryView>)
    ensures
        ({
            let critical = crate::cmd::sel::critical_lines(entries);
            let lines = s.with_entries(entries).lines;
            &&& critical.len() <= 3 ==> lines.len() == 2 + critical.len()
            &&& critical.len() > 3 ==> lines.len() == 5
            &&& critical.len() > 0 ==> lines[lines.len() - 2] == kv_line(
                "Recent critical"@,
                critical.last(),
                22,
                s.color,
            )
            &&& s.with_entries(entries).run.phase is Finished
        }),
{
}

/// The boot flags are shown as they were read.
pub proof fn law_boot_flags_are_shown(data: Seq<u8>, color: bool)
    requires
        data.len() >= 7,
    ensures
        ({
            let step = replied_step(SimpleCommand::Boot(BootAction::Show), answer(data), color);
            let line = |key: Chars, value: Chars| kv_line(key, value, 18, color);
            &&& step.action == ActionView::Finish(Ok(()))
            &&& step.lines.len() == 9
            &&& step.lines[3] == line(
                "Parameter"@,
                if bit(data[1], 7) {
                    "locked/invalid"@
                } else {
                    "available"@
                },
            )
            &&& step.lines[4] == line(
                "Active"@,
                if bit(data[2], 7) {
                    "yes"@
                } else {
                    "no"@
                },
            )
            &&& step.lines[6] == line(
                "Scope"@,
                if bit(data[2], 6) {
                    "persistent request"@
                } else {
                    "next boot only"@
                },
            )
            &&& step.lines[7] == line(
                "Boot type"@,
                if bit(data[2], 5) {
                    "UEFI"@
                } else {
                    "legacy"@
                },
            )
        }),
{
    lemma_bits(data[1]);
    lemma_bits(data[2]);
}

/// Only an entry of its own ID can be deleted: the IDs from 1 to 0xFFFE.
pub proof fn law_deletable_entries(record_id: u16)
    ensures
        names_an_entry(record_id) <==> 1 <= record_id <= 0xFFFE,
{
}

/// A password counts if it was typed the same way twice.
pub proof fn law_typed_passwords(first: Chars, second: Chars)
    ensures
        typed_twice(first, first) == Some(first),
        typed_twice(first, second) is Some ==> first == second,
{
}

/// A password file may end with any number of line ends, which do not belong to
/// the password.
pub proof fn law_password_files(password: Chars, ends: Chars)
    requires
        password.len() > 0 ==> password.last() != '\r' && password.last() != '\n',
        forall|i: int| 0 <= i < ends.len() ==> (#[trigger] ends[i]) == '\r' || ends[i] == '\n',
    ensures
        without_line_end(password + ends) == password,
    decreases ends.len(),
{
    let text = password + ends;
    if ends.len() > 0 {
        assert(text.last() == ends[ends.len() - 1]);
        assert(text.drop_last() =~= password + ends.drop_last());
        law_password_files(password, ends.drop_last());
    } else {
        assert(text =~= password);
    }
}

/// Output is colored on a terminal only, and not where the user or the
/// environment turned colors off.
pub proof fn law_when_output_is_colored(off: bool, no_color: bool, terminal: bool)
    ensures
        !is_colored(true, no_color, terminal),
        !is_colored(off, true, terminal),
        !is_colored(off, no_color, false),
        is_colored(false, false, true),
{
}

/// A user's name ends at the first zero.
pub proof fn law_user_names(id: u8, name: Seq<u8>, rest: Seq<u8>)
    requires
        !name.contains(0u8),
    ensures
        name_of(id, answer(name)) == Ok::<Chars, Chars>(lossy(name)),
        name_of(id, answer(name + seq![0u8] + rest)) == Ok::<Chars, Chars>(lossy(name)),
{
    let data = name + seq![0u8] + rest;
    let n = name.len() as int;
    assert forall|j: int| 0 <= j < n implies name[j] != 0 by {
        assert(name.contains(name[j]));
    }
    assert forall|j: int| 0 <= j < n implies data[j] != 0 by {
        assert(data[j] == name[j]);
    }
    assert(data[n] == 0);
    crate::text::lemma_first_index(data, 0u8, n);
    crate::text::lemma_first_index(name, 0u8, n);
    assert(data.take(n) =~= name);
    assert(name.take(n) =~= name);
}

} // verus!
