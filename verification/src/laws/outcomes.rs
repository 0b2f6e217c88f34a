//! How commands end, and what a sweep over the sensors leaves behind.

use vstd::prelude::*;

use crate::cli::SensorsArgs;
use crate::cmd::lan_set::{LanSetView, SetPhaseView};
use crate::cmd::sel::dell_diagnostic;
use crate::cmd::sensor_run::{analog_row, discrete_row, is_analog, is_wanted, SweepView};
use crate::cmd::sensors::{
    analog_of, discrete_of, label_of, state_matches, text_matches, thresholds_of,
};
use crate::cmd::simple::{answered_step, replied_step, second_step, SimpleCommand};
use crate::conn::ResponseView;
use crate::event::{EntryView, EventData2Type, EventData3Type};
use crate::laws::records::sensor;
use crate::sdr::{sensor_type_name, RecordView, SensorView};
use crate::text::{dec, hex, hex_dump, Chars};
use crate::ui::{header_lines, Status};

verus! {

// ---------------------------------------------------------------------
// Outcomes
// ---------------------------------------------------------------------

/// A change succeeds exactly if the controller accepts it, whatever else its
/// reply holds; then it is reported in one line, and otherwise in none.
pub proof fn law_changes_succeed_if_accepted(
    command: SimpleCommand,
    response: ResponseView,
    color: bool,
)
    requires
        match command {
            SimpleCommand::Boot(action) => !(action is Show),
            SimpleCommand::Identify(action) => !(action is Force) || response.cc != 0xC7,
            SimpleCommand::Reset { .. } => true,
            SimpleCommand::Enable { .. } => true,
            SimpleCommand::Name { .. } => true,
            SimpleCommand::Password { .. } => true,
            _ => false,
        },
    ensures
        ({
            let step = replied_step(command, Ok(response), color);
            &&& step.action is Finish
            &&& step.action->Finish_0 is Ok <==> response.cc == 0
            &&& step.lines.len() == (if response.cc == 0 {
                1int
            } else {
                0
            })
        }),
{
}

/// A request that gets no reply has failed. Only a reset counts as done, since
/// the controller may restart before it answers.
pub proof fn law_no_reply_is_a_failure(command: SimpleCommand, e: Chars, color: bool)
    requires
        !(command is SelInfo),
    ensures
        ({
            let step = replied_step(command, Err(e), color);
            &&& step.action is Finish
            &&& step.action->Finish_0 is Ok <==> command is Reset
        }),
{
}

/// What is read is shown only from a reply that the controller accepts. A raw
/// reply is shown in any case.
pub proof fn law_refused_requests(command: SimpleCommand, response: ResponseView, color: bool)
    requires
        response.cc != 0,
        !(command is SelInfo),
        command is Identify && command->Identify_0 is Force ==> response.cc != 0xC7,
    ensures
        ({
            let step = replied_step(command, Ok(response), color);
            &&& step.action is Finish
            &&& step.action->Finish_0 is Err
            &&& step.lines.len() > 0 <==> command is Raw
        }),
{
}

/// The second request of a command decides: the write of a privilege, or the
/// blinking that stands in for a light that cannot be forced on.
pub proof fn law_second_request_decides(command: SimpleCommand, response: ResponseView, color: bool)
    requires
        command is Privilege || command is Identify,
    ensures
        ({
            let step = second_step(command, Ok(response), color);
            &&& step.action is Finish
            &&& step.action->Finish_0 is Ok <==> response.cc == 0
        }),
{
}

/// Who declines gets nothing done; only for a raw request is that an error.
pub proof fn law_declining(command: SimpleCommand, color: bool)
    ensures
        ({
            let step = answered_step(command, false, color);
            &&& step.action is Finish
            &&& step.action->Finish_0 is Err <==> command is Raw
        }),
{
}

/// Where the controller takes no transaction marker, the settings are written
/// without one: none is committed or released.
pub proof fn law_writing_without_a_transaction(s: LanSetView, e: Chars)
    requires
        s.changes.len() > 0,
        !s.begun,
    ensures
        s.after_begin(Ok(())).set.begun,
        s.after_begin(Ok(())).set.phase == SetPhaseView::Write(0),
        !s.after_begin(Err(e)).set.begun,
        s.after_begin(Err(e)).set.phase == SetPhaseView::Write(0),
        forall|k: int|
            0 <= k < s.changes.len() ==> {
                let phase = (#[trigger] s.after_write(k, Ok(()))).set.phase;
                !(phase is Commit) && !(phase is Release)
            },
{
}

/// The data of a companion event is shown behind it.
pub proof fn law_companion_data(e: EntryView, id: u32, a: u8, b: u8)
    requires
        dell_diagnostic(e, Some(id)) is Some,
    ensures
        ({
            let text = dell_diagnostic(e, Some(id))->0;
            let head = "Dell OEM diagnostic data (additional context for hardware failure"@;
            let data = e->event_data;
            &&& data.data2_type == EventData2Type::OemCode(a) && data.data3_type
                == EventData3Type::OemCode(b) ==> text == head + ("; data "@ + hex(a as nat, 2)
                + " "@ + hex(b as nat, 2)) + ")"@
            &&& data.data2_type == EventData2Type::OemCode(a) && !(data.data3_type is OemCode)
                ==> text == head + ("; data "@ + hex(a as nat, 2)) + ")"@
            &&& !(data.data2_type is OemCode) ==> text == head + ""@ + ")"@
        }),
{
}

/// Bytes are shown one after the other, in two digits each, with a blank
/// between.
pub proof fn law_bytes_are_shown(data: Seq<u8>, b: u8)
    ensures
        hex_dump(seq![]) == Seq::<char>::empty(),
        hex_dump(seq![b]) == hex(b as nat, 2),
        data.len() > 0 ==> hex_dump(data.push(b)) == hex_dump(data) + " "@ + hex(b as nat, 2),
{
    assert(crate::text::hex_pairs(seq![]) =~= seq![]);
    assert(crate::text::hex_pairs(seq![b]) =~= seq![hex(b as nat, 2)]);
    assert(crate::text::hex_pairs(data.push(b)) =~= crate::text::hex_pairs(data).push(
        hex(b as nat, 2),
    ));
    crate::laws::basics::law_joining(crate::text::hex_pairs(data), hex(b as nat, 2), " "@);
}

// ---------------------------------------------------------------------
// Sweeps
// ---------------------------------------------------------------------

/// A record is swept if it holds a sensor whose type and name are asked for.
pub proof fn law_which_sensors_are_swept(args: SensorsArgs, record: RecordView, status: Status)
    ensures
        is_wanted(args, record) <==> ({
            let s = sensor(record.contents);
            s is Some && text_matches(args, sensor_type_name(s->0.ty), s->0.name)
        }),
        args.state@.len() == 0 ==> state_matches(args, status),
{
}

/// A sweep goes on with the next sensor that is asked for and passes over none.
pub proof fn law_sweep_goes_in_order(s: SweepView, args: SensorsArgs, i: int, k: int)
    requires
        0 <= i <= k <= s.records.len(),
        forall|j: int| i <= j < k ==> !is_wanted(args, #[trigger] s.records[j]),
        k < s.records.len() ==> is_wanted(args, s.records[k]),
    ensures
        s.moved_to(args, i).index == k,
        s.moved_to(args, i).pending is None,
    decreases k - i,
{
    if i < k {
        assert(!is_wanted(args, s.records[i]));
        law_sweep_goes_in_order(s, args, i + 1, k);
    }
}

/// After a reading, the next sensor is the one behind it, unless its thresholds
/// are still to be read; after those it is.
pub proof fn law_sweep_moves_on(
    s: SweepView,
    args: SensorsArgs,
    color: bool,
    reply: Result<ResponseView, Chars>,
    shown: Seq<Option<Chars>>,
)
    requires
        !s.is_over(),
    ensures
        ({
            let after = s.next(args, color, reply, shown);
            &&& after.pending is Some <==> s.pending is None && is_analog(s.record())
                && args.thresholds && state_matches(
                args,
                match analog_of(reply, shown[0]) {
                    Ok(reading) => reading.1,
                    Err(_) => Status::Unknown,
                },
            )
            &&& after.pending is Some ==> after.index == s.index
            &&& after.pending is None ==> after.index == s.moved_to(args, s.index + 1).index
            &&& after.records == s.records
        }),
{
}

/// The rows of a report: the type and the name of a sensor, what was read, and
/// its health, with the thresholds or the asserted states behind.
pub proof fn law_sensor_rows(
    s: SensorView,
    text: Chars,
    status: Status,
    limits: Chars,
    color: bool,
)
    ensures
        ({
            let row = analog_row(s, text, status, None, color);
            &&& row.len() == 4
            &&& row[0].plain == sensor_type_name(s.ty)
            &&& row[1].plain == s.name
            &&& row[2].plain == text
            &&& row[3].plain == label_of(status)
            &&& analog_row(s, text, status, Some(limits), color).len() == 5
            &&& analog_row(s, text, status, Some(limits), color)[4].plain == limits
        }),
        ({
            let row = discrete_row(s, status, text, color);
            &&& row.len() == 4
            &&& row[0].plain == sensor_type_name(s.ty)
            &&& row[1].plain == s.name
            &&& row[2].plain == label_of(status)
            &&& row[3].plain == text
        }),
{
}

/// What a sweep adds to its report is what was read of the sensor at hand.
pub proof fn law_sweep_reports_what_was_read(
    s: SweepView,
    args: SensorsArgs,
    color: bool,
    reply: Result<ResponseView, Chars>,
    shown: Seq<Option<Chars>>,
)
    requires
        !s.is_over(),
    ensures
        ({
            let after = s.next(args, color, reply, shown);
            let pending = s.pending->0;
            let analog = analog_of(reply, shown[0]);
            let discrete = discrete_of(reply, s.sensor().ty, s.sensor().event_code);
            &&& is_analog(s.record()) && s.pending is None && analog is Ok && state_matches(
                args,
                analog->Ok_0.1,
            ) && !args.thresholds ==> after.analog.rows == s.analog.rows.push(
                analog_row(s.sensor(), analog->Ok_0.0, analog->Ok_0.1, None, color),
            )
            &&& is_analog(s.record()) && s.pending is None && analog is Ok && after.pending is Some
                ==> after.pending == Some(analog->Ok_0)
            &&& is_analog(s.record()) && s.pending is Some && thresholds_of(reply, shown) is Ok
                ==> after.counts == s.counts && after.analog.rows == s.analog.rows.push(
                analog_row(
                    s.sensor(),
                    pending.0,
                    pending.1,
                    Some(thresholds_of(reply, shown)->Ok_0),
                    color,
                ),
            )
            &&& !is_analog(s.record()) && discrete is Ok && args.all && state_matches(
                args,
                discrete->Ok_0.0,
            ) ==> after.discrete.rows == s.discrete.rows.push(
                discrete_row(s.sensor(), discrete->Ok_0.0, discrete->Ok_0.1, color),
            )
        }),
{
}

/// A report ends with the counts. It has a part for discrete sensors only with
/// `--all`, and otherwise says how many are hidden, if any.
pub proof fn law_report_layout(s: SweepView, args: SensorsArgs, color: bool)
    ensures
        ({
            let report = s.report(args, color);
            let analog = header_lines("Sensors"@, color) + SweepView::table_lines(
                s.analog,
                "no analog sensors matched"@,
                color,
            );
            let n = report.len() as int;
            &&& n >= analog.len() + 3
            &&& report.take(analog.len() as int) == analog
            &&& report[n - 2] == SweepView::counts_line(s.counts, color)
            &&& !args.all && s.hidden == 0 ==> n == analog.len() + 3
            &&& !args.all && s.hidden > 0 ==> n == analog.len() + 4 && report[analog.len() as int]
                == crate::ui::indented(
                crate::ui::dimmed(
                    "("@ + dec(s.hidden) + " discrete sensors hidden; use --all to show)"@,
                    color,
                ),
            )
        }),
{
    let report = s.report(args, color);
    let analog = header_lines("Sensors"@, color) + SweepView::table_lines(
        s.analog,
        "no analog sensors matched"@,
        color,
    );
    assert(report.take(analog.len() as int) =~= analog);
}

} // verus!
