//! What the commands do next and what they show.

use vstd::prelude::*;

use crate::calendar::{date_of, day_number, is_date, law_dates_are_distinct, lemma_date_of, Date};
use crate::cli::{
    count_of, user_id_of, BootAction, BootArgs, Command, IdentifyAction, IdentifyArgs, LanArgs,
    LanShowArgs, PowerAction, PowerArgs, SelAction, SelArgs,
};
use crate::clock::rfc3339;
use crate::cmd::dispatch::{job_of, Job};
use crate::cmd::fujitsu::{chunk_of, chunk_verdict, decoded_row, ChunkView, DecodedView};
use crate::cmd::raw::{raw_response_lines, raw_sending};
use crate::cmd::sel::{direction_name, displayed, kind_name, sensor_label};
use crate::cmd::sel_edit::info_lines;
use crate::cmd::sel_list::ListView;
use crate::cmd::sel_walk::{oem_ids, SelScanView};
use crate::cmd::sensor_run::{RunPhaseView, RunView, SweepView};
use crate::cmd::simple::SimpleCommand;
use crate::cmd::sensors::Counts;
use crate::cmd::status::{sel_lines, StatusPhaseView, StatusView};
use crate::conn::{ResponseView, ScanView};
use crate::dialog::{ActionView, DeviceId, EventView, SelInfo};
use crate::event::{EntryView, EventData, EventData2Type, EventData3Type, EventDirection};
use crate::laws::to_bmc;
use crate::number::lemma_dec_reads_back;
use crate::sdr::sensor_type_name;
use crate::text::{ascii_gutter, dec, digit, hex, hex_digits, hex_dump, zero_padded, Chars};
use crate::ui::{greened, kv_line, reddened};

verus! {

// ---------------------------------------------------------------------
// Command lines
// ---------------------------------------------------------------------

/// Where no action is given, `power` shows the state, `boot` the override, `lan`
/// every channel, `sel` the log, and `identify` blinks for fifteen seconds.
pub proof fn law_default_actions(args: SelArgs)
    ensures
        job_of(Command::Power((PowerArgs { action: None }))) == Job::Simple(
            SimpleCommand::Power(PowerAction::Status),
        ),
        job_of(Command::Boot((BootArgs { action: None }))) == Job::Simple(
            SimpleCommand::Boot(BootAction::Show),
        ),
        job_of(Command::Identify((IdentifyArgs { action: None }))) == Job::Simple(
            SimpleCommand::Identify((IdentifyAction::On { seconds: 15 })),
        ),
        job_of(Command::Lan((LanArgs { action: None }))) == Job::ShowLan(
            (LanShowArgs { channel: None }),
        ),
        args.action is None ==> job_of(Command::Sel(args)) == Job::ListLog(args),
{
}

/// A given action is carried out as it was given.
pub proof fn law_given_actions(power: PowerAction, boot: BootAction, identify: IdentifyAction, args: SelArgs)
    ensures
        job_of(Command::Power((PowerArgs { action: Some(power) }))) == Job::Simple(
            SimpleCommand::Power(power),
        ),
        job_of(Command::Boot((BootArgs { action: Some(boot) }))) == Job::Simple(
            SimpleCommand::Boot(boot),
        ),
        job_of(Command::Identify((IdentifyArgs { action: Some(identify) }))) == Job::Simple(
            SimpleCommand::Identify(identify),
        ),
        match args.action {
            Some(SelAction::Clear { yes }) => job_of(Command::Sel(args)) == (Job::ClearLog { yes }),
            Some(SelAction::Delete { record_id, yes }) => job_of(Command::Sel(args)) == (
            Job::DeleteEntry { record_id, yes }),
            Some(SelAction::Info) => job_of(Command::Sel(args)) == Job::Simple(
                SimpleCommand::SelInfo,
            ),
            Some(SelAction::Decode { record_ids, debug }) => job_of(Command::Sel(args)) == (
            Job::TranslateEntries { record_ids, debug }),
            _ => true,
        },
{
}

/// User IDs are 1 to 63, and counts are not zero.
pub proof fn law_bounded_arguments(n: nat)
    ensures
        user_id_of(dec(n)) == if 1 <= n <= 63 {
            Some(n)
        } else {
            None
        },
        count_of(dec(n)) == if 1 <= n <= usize::MAX {
            Some(n)
        } else {
            None
        },
{
    lemma_dec_reads_back(n);
    assert(crate::number::digit_worth(dec(n)[0], false) is Some);
}

// ---------------------------------------------------------------------
// What comes next
// ---------------------------------------------------------------------

/// The overview asks for the chassis status, then the identity, then the sensors
/// and then the log, whatever comes back.
pub proof fn law_overview_order(
    s: StatusView,
    reply: Result<ResponseView, Chars>,
    device: Result<DeviceId, Chars>,
    info: SelInfo,
    scan: ScanView,
    e: Chars,
)
    ensures
        s.at(StatusPhaseView::Chassis).action() == ActionView::Send(to_bmc(0, 1, seq![])),
        s.at(StatusPhaseView::Chassis).next(EventView::Reply(reply)).run.action()
            == ActionView::GetDeviceId,
        s.at(StatusPhaseView::Device).next(EventView::DeviceId(device)).run.phase
            == StatusPhaseView::Scan(ScanView::start()),
        scan.phase is Failed ==> s.after_scan(scan).run.action() == ActionView::GetSelInfo,
        info.entries == 0 ==> s.at(StatusPhaseView::Info).next(
            EventView::SelInfo(Ok(info)),
        ).run.phase is Finished,
        info.entries > 0 ==> s.at(StatusPhaseView::Info).next(
            EventView::SelInfo(Ok(info)),
        ).run.phase is Entries,
        s.at(StatusPhaseView::Info).next(EventView::SelInfo(Err(e))).run.phase is Finished,
{
}

/// The listing learns the sensors' names, then the totals, then the entries
/// unless there are none, then the identity of the controller.
pub proof fn law_listing_order(s: ListView, scan: ScanView, info: SelInfo)
    ensures
        scan.phase is Complete ==> s.after_names(scan).list.action() == ActionView::GetSelInfo,
        info.entries == 0 ==> s.after_info(Ok(info)).list.action() == ActionView::GetDeviceId,
        info.entries > 0 ==> s.after_info(Ok(info)).list.phase is Entries,
        s.after_info(Ok(info)).list.totals == (info.entries, info.overflow),
{
}

/// A log that became shorter was cleared: everything in it is listed again.
/// Otherwise only what is new is.
pub proof fn law_cleared_logs_are_listed_again(s: ListView, current: Seq<EntryView>)
    ensures
        current.len() < s.known.len() ==> s.with_current(current) == (ListView {
            known: Set::empty(),
            ..s
        }).with_current(current),
        current.len() >= s.known.len() && (forall|i: int|
            0 <= i < current.len() ==> s.known.contains((#[trigger] current[i]).id()))
            ==> s.with_current(current).lines.len() == 0 && s.with_current(
            current,
        ).list.phase is Pause,
{
    if current.len() >= s.known.len() && (forall|i: int|
        0 <= i < current.len() ==> s.known.contains((#[trigger] current[i]).id())) {
        let new = crate::cmd::sel_list::fresh(s.known, current);
        crate::cmd::sel_list::law_new_entries_are_new(s.known, current);
        if new.len() > 0 {
            let ids = crate::cmd::sel_list::ids_of(new);
            assert(ids.contains(ids[0]));
            let all = crate::cmd::sel_list::ids_of(current);
            assert(all.contains(ids[0]));
            let k = choose|k: int| 0 <= k < all.len() && all[k] == ids[0];
            assert(s.known.contains(current[k].id()));
        }
    }
}

/// With `--watch` the readings are refreshed after so many seconds; without it
/// the command ends with its report.
pub proof fn law_watching(s: RunView, sweep: SweepView, err: Seq<Chars>)
    requires
        sweep.is_over(),
    ensures
        match s.args.watch {
            Some(seconds) => s.with_sweep(sweep, err).run.action() == (ActionView::Pause { seconds, millis: 0 }),
            None => s.with_sweep(sweep, err).run.action() == ActionView::Finish(Ok(())),
        },
        s.at(RunPhaseView::Pause(1)).next(EventView::Elapsed, seq![]).run.phase
            == RunPhaseView::Scan(ScanView::start()),
{
}

/// The entries that are translated are those in an OEM-defined range, in the
/// order of the log.
pub proof fn law_translated_entries(entries: Seq<EntryView>, e: EntryView)
    ensures
        oem_ids(seq![]) == Seq::<u16>::empty(),
        oem_ids(entries.push(e)) == if e is System && (e->System_sensor_type >= 0xC0
            || e->event_type >= 0x70) {
            oem_ids(entries).push(e.id())
        } else {
            oem_ids(entries)
        },
{
    assert(entries.push(e).drop_last() =~= entries);
}

// ---------------------------------------------------------------------
// What is shown
// ---------------------------------------------------------------------

/// A point in time is shown as its date and its time of day in UTC.
pub proof fn law_times_are_shown(d: Date, h: nat, m: nat, s: nat)
    requires
        is_date(d),
        h < 24,
        m < 60,
        s < 60,
    ensures
        rfc3339(day_number(d) * 86400 + h * 3600 + m * 60 + s) == zero_padded(
            dec(d.year as nat),
            4,
        ) + "-"@ + zero_padded(dec(d.month as nat), 2) + "-"@ + zero_padded(dec(d.day as nat), 2)
            + "T"@ + (zero_padded(dec(h), 2) + ":"@ + zero_padded(dec(m), 2) + ":"@ + zero_padded(
            dec(s),
            2,
        )) + "Z"@,
{
    let days = day_number(d);
    let of_day = h * 3600 + m * 60 + s;
    let t = days * 86400 + of_day;
    assert(0 <= of_day < 86400);
    assert(t / 86400 == days && t % 86400 == of_day) by (nonlinear_arith)
        requires
            t == days * 86400 + of_day,
            0 <= of_day < 86400,
    ;
    assert(of_day / 3600 == h && of_day / 60 % 60 == m && of_day % 60 == s);
    lemma_date_of(days);
    law_dates_are_distinct(date_of(days), d);
}

/// An event without a description is shown by its direction, its kind, its type,
/// its offset and its data.
pub proof fn law_undescribed_events(e: EntryView)
    requires
        e is System,
    ensures
        ({
            let head = direction_name(e->event_direction) + " "@ + kind_name(e->event_type)
                + " event (type 0x"@ + hex(e->event_type as nat, 2) + ", offset 0x"@ + hex(
                e->event_data.offset as nat,
                2,
            );
            let extra = e->event_data.spec_text();
            &&& extra.len() == 0 ==> displayed(e, seq![]) == head + ")"@
            &&& extra.len() > 0 ==> displayed(e, seq![]) == head + "; "@ + extra + ")"@
        }),
        direction_name(EventDirection::Assert) == "asserted"@,
        direction_name(EventDirection::Deassert) == "deasserted"@,
        ({
            let kind = kind_name(e->event_type);
            let ty = e->event_type;
            &&& ty == 1 ==> kind == "threshold"@
            &&& 2 <= ty <= 12 ==> kind == "generic discrete"@
            &&& ty == 0x6F ==> kind == "sensor-specific"@
            &&& 0x70 <= ty <= 0x7F ==> kind == "OEM"@
            &&& ty == 0 || 13 <= ty < 0x6F || ty > 0x7F ==> kind == "unknown"@
        }),
{
}

/// The data bytes of an event are shown by what they hold.
pub proof fn law_event_data_texts(d: EventData)
    ensures
        match d.data2_type {
            EventData2Type::Unspecified => d.data2_text() is None,
            EventData2Type::TriggerReading(v) => d.data2_text() == Some("reading="@ + dec(v as nat)),
            EventData2Type::OemCode(v) => d.data2_text() == Some("oem2=0x"@ + hex(v as nat, 2)),
            EventData2Type::SensorSpecific(v) => d.data2_text() == Some(
                "ext2=0x"@ + hex(v as nat, 2),
            ),
        },
        match d.data3_type {
            EventData3Type::Unspecified => d.data3_text() is None,
            EventData3Type::TriggerThreshold(v) => d.data3_text() == Some(
                "threshold="@ + dec(v as nat),
            ),
            EventData3Type::OemCode(v) => d.data3_text() == Some("oem3=0x"@ + hex(v as nat, 2)),
            EventData3Type::SensorSpecific(v) => d.data3_text() == Some(
                "ext3=0x"@ + hex(v as nat, 2),
            ),
        },
        d.data2_text() is Some && d.data3_text() is Some ==> d.spec_text() == d.data2_text()->0
            + ", "@ + d.data3_text()->0,
{
}

/// A sensor is shown by its name, its type and its number, and without a name
/// by the others.
pub proof fn law_sensor_labels(e: EntryView, names: Map<(u8, u8), Chars>)
    requires
        e is System,
    ensures
        ({
            let key = (e->System_sensor_type, e->sensor_number);
            let plain = sensor_type_name(key.0) + " #"@ + dec(key.1 as nat);
            &&& names.dom().contains(key) ==> sensor_label(e, names) == names[key] + " ("@ + plain
                + ")"@
            &&& !names.dom().contains(key) ==> sensor_label(e, names) == plain
        }),
{
}

/// The counts of a report stand under their labels.
pub proof fn law_counts_line(c: Counts)
    ensures
        SweepView::counts_line(c, false) == "  "@ + "OK  "@ + "  "@ + dec(c.ok as nat) + "   "@
            + "WARN"@ + "  "@ + dec(c.warn as nat) + "   "@ + "CRIT"@ + "  "@ + dec(c.crit as nat)
            + "   "@ + " -- "@ + "  "@ + dec(c.unknown as nat),
{
}

/// The totals of a log.
pub proof fn law_log_totals(info: SelInfo, color: bool)
    ensures
        ({
            let lines = info_lines(info, color);
            &&& lines.len() == (if info.overflow {
                8int
            } else {
                7
            })
            &&& lines[3] == kv_line(
                "Version"@,
                dec(info.version_maj as nat) + "."@ + dec(info.version_min as nat),
                14,
                color,
            )
            &&& lines[4] == kv_line("Entries"@, dec(info.entries as nat), 14, color)
            &&& lines[5] == kv_line("Free space"@, dec(info.bytes_free as nat) + " bytes"@, 14, color)
        }),
{
}

/// A raw exchange is shown byte for byte, and a completion code other than zero
/// as what it is.
pub proof fn law_raw_exchange(netfn: u8, cmd: u8, data: Seq<u8>, response: ResponseView, color: bool)
    ensures
        data.len() > 0 ==> raw_sending(netfn, cmd, data, color).lines.len() == 6 && raw_sending(
            netfn,
            cmd,
            data,
            color,
        ).lines[5] == kv_line("Request data"@, hex_dump(data), 16, color),
        ({
            let lines = raw_response_lines(response, color);
            &&& lines.len() == 7
            &&& response.cc == 0 ==> lines[3] == kv_line(
                "Completion code"@,
                greened("0x00 (success)"@, color),
                16,
                color,
            )
            &&& response.cc != 0 ==> lines[3] == kv_line(
                "Completion code"@,
                reddened("0x"@ + hex(response.cc as nat, 2), color),
                16,
                color,
            )
            &&& response.data.len() > 0 ==> lines[4] == kv_line(
                "Response data"@,
                hex_dump(response.data),
                16,
                color,
            ) && lines[5] == kv_line("ASCII"@, ascii_gutter(response.data), 16, color)
        }),
{
}

/// Hexadecimal digits past nine are the letters from `A`.
pub proof fn law_hexadecimal_digits(b: u8)
    ensures
        hex(b as nat, 2).len() == 2,
        hex(b as nat, 2)[0] == if b / 16 < 10 {
            (48 + b / 16) as char
        } else {
            (55 + b / 16) as char
        },
        hex(b as nat, 2)[1] == if b % 16 < 10 {
            (48 + b % 16) as char
        } else {
            (55 + b % 16) as char
        },
{
    let n = b as nat;
    reveal_with_fuel(hex_digits, 3);
    if n < 16 {
        assert(hex_digits(n) =~= seq![digit(n as int)]);
        assert(hex(n, 2) =~= seq!['0', digit(n as int)]);
    } else {
        assert(hex_digits(n) =~= seq![digit(n as int / 16), digit(n as int % 16)]);
        assert(hex(n, 2) =~= hex_digits(n));
    }
}

/// Bytes beside their hexadecimal form: printable ones as they are, others as a
/// period.
pub proof fn law_gutter(data: Seq<u8>, i: int)
    requires
        0 <= i < data.len(),
    ensures
        ascii_gutter(data).len() == data.len(),
        0x20 <= data[i] <= 0x7E ==> ascii_gutter(data)[i] == data[i] as char,
        data[i] < 0x20 || data[i] > 0x7E ==> ascii_gutter(data)[i] == '.',
{
}

/// A translation response: the next and the actual record in bytes 3 to 6, the
/// record type, the time, the severity and the length of the whole text, then a
/// piece of it up to a zero.
pub proof fn law_translation_layout(header: Seq<u8>, text: Seq<u8>, rest: Seq<u8>)
    requires
        header.len() == 14,
        header[0] == 0x80 && header[1] == 0x28 && header[2] == 0,
        !text.contains(0u8),
    ensures
        ({
            let chunk = chunk_of(header + text + seq![0u8] + rest)->Ok_0;
            &&& chunk_of(header + text + seq![0u8] + rest) is Ok
            &&& chunk.next_record_id == header[3] + 256 * header[4]
            &&& chunk.actual_record_id == header[5] + 256 * header[6]
            &&& chunk.record_type == header[7]
            &&& chunk.timestamp == header[8] + 256 * header[9] + 65536 * header[10] + 16777216
                * header[11]
            &&& chunk.severity_byte == header[12]
            &&& chunk.total_text_len == header[13]
            &&& chunk.text == text
        }),
{
    let data = header + text + seq![0u8] + rest;
    let tail = data.skip(14);
    let n = text.len() as int;
    assert(data.take(3) =~= seq![0x80u8, 0x28, 0x00]);
    assert forall|j: int| 0 <= j < n implies tail[j] != 0 by {
        assert(tail[j] == text[j]);
    }
    assert(tail[n] == 0);
    crate::text::lemma_first_index(tail, 0u8, n);
    assert(data.subrange(14, 14 + n) =~= text);
}

/// A piece of a translation counts if it is of the record that was asked for,
/// not longer than was asked for, within the length of the whole text, and says
/// of the entry what the first piece said.
pub proof fn law_which_pieces_count(
    chunk: ChunkView,
    first: Option<ChunkView>,
    record_id: u16,
    size: u8,
    read: nat,
)
    ensures
        chunk_verdict(chunk, first, record_id, size, read) is Ok <==> {
            &&& record_id == 0 || record_id == 0xFFFF || chunk.actual_record_id == record_id
            &&& chunk.text.len() <= size
            &&& read + chunk.text.len() <= chunk.total_text_len
            &&& first is Some ==> first->0 == (ChunkView {
                next_record_id: first->0.next_record_id,
                text: first->0.text,
                ..chunk
            })
        },
{
}

/// A log whose chain of records comes back on itself is refused, and one that
/// ends with 0xFFFF is complete.
pub proof fn law_chain_of_records(s: SelScanView, entry: EntryView, next: u16)
    ensures
        s.with_entry(entry, next).entries == s.entries.push(entry),
        next == 0xFFFF ==> s.with_entry(entry, next).phase is Complete,
        next != 0xFFFF && s.seen.contains(next) ==> s.with_entry(entry, next).phase is Failed,
        next != 0xFFFF && !s.seen.contains(next) ==> s.with_entry(entry, next).record_id == next
            && s.with_entry(entry, next).seen == s.seen.insert(next) && s.with_entry(
            entry,
            next,
        ).phase == s.phase,
{
}

/// The row of a translated entry.
pub proof fn law_translated_row(e: DecodedView, color: bool)
    ensures
        ({
            let row = decoded_row(e, color);
            &&& row.len() == 6
            &&& row[0].plain == "0x"@ + hex(e.record_id as nat, 4)
            &&& row[1].plain == rfc3339(e.timestamp as int)
            &&& row[2].plain == e.severity.name()
            &&& row[3].plain == if e.css {
                "yes"@
            } else {
                "no"@
            }
            &&& row[4].plain == "0x"@ + hex(e.record_type as nat, 2)
            &&& row[5].plain == e.text
        }),
{
}

/// The log in the overview: its totals, red with an overflow or any critical
/// entry, and a line for each recent one.
pub proof fn law_overview_of_the_log(sel: crate::cmd::sel::HealthView, color: bool)
    ensures
        ({
            let lines = sel_lines(sel, color);
            let text = dec(sel.entries as nat) + " entries, "@ + dec(sel.critical) + " critical"@;
            &&& lines.len() == 1 + sel.recent_critical.len()
            &&& !sel.overflow && sel.critical == 0 ==> lines[0] == kv_line("SEL"@, text, 22, color)
            &&& !sel.overflow && sel.critical > 0 ==> lines[0] == kv_line(
                "SEL"@,
                reddened(text, color),
                22,
                color,
            )
            &&& forall|i: int|
                0 <= i < sel.recent_critical.len() ==> #[trigger] lines[1 + i] == kv_line(
                    "Recent critical"@,
                    sel.recent_critical[i],
                    22,
                    color,
                )
        }),
{
}

} // verus!
