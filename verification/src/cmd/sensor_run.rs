//! `sensors` — the conversation: reading every sensor that is asked for.

use vstd::prelude::*;

use crate::cli::SensorsArgs;
use crate::cmd::sel::sensor_in;
use crate::cmd::sensors::{
    analog_of, colorize, colorized, discrete_of, is_threshold, label_of, matches_state,
    matches_text, raw_reading, raw_reading_of, raw_thresholds, raw_thresholds_of, read_analog,
    read_discrete, read_thresholds, sensor_request, sensor_request_view, shown_view, shown_views,
    state_label,
    state_matches, text_matches, thresholds_of, Counts, CMD_GET_SENSOR_READING,
    CMD_GET_SENSOR_THRESHOLDS,
};
use crate::conn::{
    concat3, reply_view, Reply, Request, RequestView, ResponseView, ScanPhaseView, ScanView,
    SdrScan,
};
use crate::dialog::{
    no_lines, silence, Action, ActionView, Event, EventView, Output, OutputView,
};
use crate::sdr::{
    all_wf, display_reading, reading_can_show, record_views, sensor_type_name, sensor_type_text,
    ContentsView, EventReadingTypeCodes, Record, RecordContents, RecordView, Sensor, SensorView,
};
use crate::text::{append_texts, dec, dec_text, push_text, texts, Chars};
use crate::ui::{
    cells, colored_cell, dim, dimmed, empty_table, header, header_lines, indent, indented,
    plain_cell, red, reddened, yellow, yellowed, Align, Cell, CellView, Status, Table, TableView,
};

verus! {

// ---------------------------------------------------------------------
// Tables
// ---------------------------------------------------------------------

/// The empty table of analog sensors.
pub open spec fn analog_table(thresholds: bool) -> TableView {
    if thresholds {
        empty_table(
            seq!["TYPE"@, "SENSOR"@, "READING"@, "STATE"@, "THRESHOLDS"@],
            seq![Align::Left, Align::Left, Align::Right, Align::Left, Align::Left],
        )
    } else {
        empty_table(
            seq!["TYPE"@, "SENSOR"@, "READING"@, "STATE"@],
            seq![Align::Left, Align::Left, Align::Right, Align::Left],
        )
    }
}

/// The empty table of discrete sensors.
pub open spec fn discrete_table() -> TableView {
    empty_table(
        seq!["TYPE"@, "SENSOR"@, "STATE"@, "ASSERTED"@],
        seq![Align::Left, Align::Left, Align::Left, Align::Left],
    )
}

fn new_analog_table(thresholds: bool) -> (t: Table)
    ensures
        t@ == analog_table(thresholds),
{
    if thresholds {
        let t = Table::new(
            &["TYPE", "SENSOR", "READING", "STATE", "THRESHOLDS"],
            &[Align::Left, Align::Left, Align::Right, Align::Left, Align::Left],
        );
        proof {
            assert(t@.headers =~= analog_table(thresholds).headers);
            assert(t@.aligns =~= analog_table(thresholds).aligns);
        }
        t
    } else {
        let t = Table::new(
            &["TYPE", "SENSOR", "READING", "STATE"],
            &[Align::Left, Align::Left, Align::Right, Align::Left],
        );
        proof {
            assert(t@.headers =~= analog_table(thresholds).headers);
            assert(t@.aligns =~= analog_table(thresholds).aligns);
        }
        t
    }
}

fn new_discrete_table() -> (t: Table)
    ensures
        t@ == discrete_table(),
{
    let t = Table::new(
        &["TYPE", "SENSOR", "STATE", "ASSERTED"],
        &[Align::Left, Align::Left, Align::Left, Align::Left],
    );
    proof {
        assert(t@.headers =~= discrete_table().headers);
        assert(t@.aligns =~= discrete_table().aligns);
    }
    t
}

/// The row of an analog sensor, with its thresholds where they are asked for.
pub open spec fn analog_row(
    sensor: SensorView,
    text: Chars,
    status: Status,
    thresholds: Option<Chars>,
    color: bool,
) -> Seq<CellView> {
    let row = seq![
        plain_cell(sensor_type_name(sensor.ty)),
        plain_cell(sensor.name),
        colored_cell(text, colorized(text, status, color)),
        colored_cell(label_of(status), status.spec_badge(color)),
    ];
    match thresholds {
        Some(thresholds) => row.push(plain_cell(thresholds)),
        None => row,
    }
}

/// The row of a discrete sensor.
pub open spec fn discrete_row(sensor: SensorView, status: Status, asserted: Chars, color: bool) -> Seq<
    CellView,
> {
    seq![
        plain_cell(sensor_type_name(sensor.ty)),
        plain_cell(sensor.name),
        colored_cell(label_of(status), status.spec_badge(color)),
        plain_cell(asserted),
    ]
}

fn push_analog(
    table: &mut Table,
    sensor: &Sensor,
    text: &str,
    status: Status,
    thresholds: Option<&str>,
    color: bool,
)
    ensures
        final(table)@ == old(table)@.with_row(
            analog_row(
                sensor@,
                text@,
                status,
                match thresholds {
                    Some(t) => Some(t@),
                    None => None,
                },
                color,
            ),
        ),
{
    let mut row = vec![
        Cell::new(sensor_type_text(sensor.ty).as_str()),
        Cell::new(sensor.name.as_str()),
        Cell::colored(text, colorize(text, status, color).as_str()),
        Cell::colored(state_label(status), status.badge(color).as_str()),
    ];
    if let Some(t) = thresholds {
        row.push(Cell::new(t));
    }
    proof {
        assert(cells(row@) =~= analog_row(
            sensor@,
            text@,
            status,
            match thresholds {
                Some(t) => Some(t@),
                None => None,
            },
            color,
        ));
    }
    table.row(row);
}

fn push_discrete(table: &mut Table, sensor: &Sensor, status: Status, asserted: &str, color: bool)
    ensures
        final(table)@ == old(table)@.with_row(
            discrete_row(sensor@, status, asserted@, color),
        ),
{
    let row = vec![
        Cell::new(sensor_type_text(sensor.ty).as_str()),
        Cell::new(sensor.name.as_str()),
        Cell::colored(state_label(status), status.badge(color).as_str()),
        Cell::new(asserted),
    ];
    proof {
        assert(cells(row@) =~= discrete_row(sensor@, status, asserted@, color));
    }
    table.row(row);
}

// ---------------------------------------------------------------------
// The sweep over the sensors
// ---------------------------------------------------------------------

/// The sensor of a record, if it is a sensor record.
fn sensor_of_record(record: &Record) -> (r: Option<&Sensor>)
    ensures
        match r {
            Some(sensor) => sensor_in(record@) == Some(sensor@),
            None => sensor_in(record@) is None,
        },
{
    match &record.contents {
        RecordContents::FullSensor { sensor, .. } => Some(sensor),
        RecordContents::CompactSensor(sensor) => Some(sensor),
        RecordContents::EventOnlySensor(sensor) => Some(sensor),
        _ => None,
    }
}

/// Whether a record is asked for: a sensor record whose type and name match.
pub open spec fn is_wanted(args: SensorsArgs, record: RecordView) -> bool {
    match sensor_in(record) {
        Some(sensor) => text_matches(args, sensor_type_name(sensor.ty), sensor.name),
        None => false,
    }
}

fn wanted(args: &SensorsArgs, record: &Record) -> (r: bool)
    ensures
        r == is_wanted(*args, record@),
{
    match sensor_of_record(record) {
        Some(sensor) => matches_text(
            args,
            sensor_type_text(sensor.ty).as_str(),
            sensor.name.as_str(),
        ),
        None => false,
    }
}

/// Whether a record describes an analog sensor: a full record that reports by
/// thresholds. Every other sensor is discrete.
pub open spec fn is_analog(record: RecordView) -> bool {
    match record.contents {
        ContentsView::FullSensor { sensor, .. } => sensor.event_code
            == EventReadingTypeCodes::Threshold,
        _ => false,
    }
}

/// The bytes of a full sensor record.
pub open spec fn full_bytes(record: RecordView) -> Seq<u8> {
    match record.contents {
        ContentsView::FullSensor { data, .. } => data,
        _ => seq![],
    }
}

/// How many of the first `n` records are asked for.
pub open spec fn wanted_among(args: SensorsArgs, records: Seq<RecordView>, n: int) -> int
    decreases n,
{
    if n <= 0 {
        0
    } else {
        wanted_among(args, records, n - 1) + if is_wanted(args, records[n - 1]) {
            1int
        } else {
            0
        }
    }
}

/// The first record from `i` on that is asked for, or the end.
pub open spec fn first_wanted(args: SensorsArgs, records: Seq<RecordView>, i: int) -> int
    decreases records.len() - i,
{
    if i >= records.len() || i < 0 {
        records.len() as int
    } else if is_wanted(args, records[i]) {
        i
    } else {
        first_wanted(args, records, i + 1)
    }
}

/// How many records are sensor records.
pub open spec fn sensors_among(records: Seq<RecordView>) -> nat
    decreases records.len(),
{
    if records.len() == 0 {
        0
    } else {
        sensors_among(records.drop_last()) + if sensor_in(records.last()) is Some {
            1nat
        } else {
            0
        }
    }
}

/// Counts the sensor records.
pub fn sensor_count(records: &Vec<Record>) -> (n: usize)
    ensures
        n == sensors_among(record_views(records@)),
{
    let ghost views = record_views(records@);
    let mut n: usize = 0;
    let mut i: usize = 0;
    proof {
        assert(views.take(0) =~= seq![]);
    }
    while i < records.len()
        invariant
            i <= records.len(),
            n <= i,
            views == record_views(records@),
            n == sensors_among(views.take(i as int)),
        decreases records.len() - i,
    {
        proof {
            assert(views.take(i + 1).drop_last() =~= views.take(i as int));
            assert(views.take(i + 1).last() == records@[i as int]@);
        }
        if sensor_of_record(&records[i]).is_some() {
            n = n + 1;
        }
        i = i + 1;
    }
    proof {
        assert(views.take(views.len() as int) =~= views);
    }
    n
}

/// Reads the sensors of a repository one after another.
pub struct SensorSweep {
    records: Vec<Record>,
    index: usize,
    pending: Option<(String, Status)>,
    analog: Table,
    discrete: Table,
    hidden: usize,
    counts: Counts,
}

/// How far the sweep has come: the sensor being read is that of the record at
/// `index`; `pending` is an analog reading that waits for its thresholds.
pub ghost struct SweepView {
    pub records: Seq<RecordView>,
    pub index: int,
    pub pending: Option<(Chars, Status)>,
    pub analog: TableView,
    pub discrete: TableView,
    pub hidden: nat,
    pub counts: Counts,
}

impl View for SensorSweep {
    type V = SweepView;

    closed spec fn view(&self) -> SweepView {
        SweepView {
            records: record_views(self.records@),
            index: self.index as int,
            pending: match self.pending {
                Some((text, status)) => Some((text@, status)),
                None => None,
            },
            analog: self.analog@,
            discrete: self.discrete@,
            hidden: self.hidden as nat,
            counts: self.counts,
        }
    }
}

impl SweepView {
    pub open spec fn start(args: SensorsArgs, records: Seq<RecordView>) -> SweepView {
        SweepView {
            records,
            index: 0,
            pending: None,
            analog: analog_table(args.thresholds),
            discrete: discrete_table(),
            hidden: 0,
            counts: Counts { ok: 0, warn: 0, crit: 0, unknown: 0 },
        }.moved_to(args, 0)
    }

    /// Goes on to the first record from `i` on that is asked for.
    pub open spec fn moved_to(self, args: SensorsArgs, i: int) -> SweepView {
        SweepView { index: first_wanted(args, self.records, i), pending: None, ..self }
    }

    pub open spec fn is_over(self) -> bool {
        self.index >= self.records.len()
    }

    /// The record being read, and its sensor.
    pub open spec fn record(self) -> RecordView {
        self.records[self.index]
    }

    pub open spec fn sensor(self) -> SensorView {
        sensor_in(self.record())->0
    }

    /// The request whose reply the sweep is waiting for.
    pub open spec fn request(self) -> Option<RequestView> {
        if self.is_over() {
            None
        } else {
            Some(
                sensor_request_view(
                    self.sensor().key,
                    if self.pending is Some {
                        CMD_GET_SENSOR_THRESHOLDS
                    } else {
                        CMD_GET_SENSOR_READING
                    },
                ),
            )
        }
    }

    /// What an analog reply says; a sensor that cannot be read is unknown.
    pub open spec fn analog_reading(
        self,
        reply: Result<ResponseView, Chars>,
        shown: Seq<Option<Chars>>,
    ) -> (Chars, Status) {
        match analog_of(reply, shown[0]) {
            Ok(reading) => reading,
            Err(_) => ("n/a"@, Status::Unknown),
        }
    }

    /// What a discrete reply says; a sensor that cannot be read is unknown.
    pub open spec fn discrete_reading(self, reply: Result<ResponseView, Chars>) -> (Status, Chars) {
        match discrete_of(reply, self.sensor().ty, self.sensor().event_code) {
            Ok(reading) => reading,
            Err(_) => (Status::Unknown, "n/a"@),
        }
    }

    pub open spec fn counted(self, status: Status) -> SweepView {
        SweepView { counts: self.counts.with(status), ..self }
    }

    pub open spec fn with_analog(
        self,
        text: Chars,
        status: Status,
        thresholds: Option<Chars>,
        color: bool,
    ) -> SweepView {
        SweepView {
            analog: self.analog.with_row(
                analog_row(self.sensor(), text, status, thresholds, color),
            ),
            ..self
        }
    }

    pub open spec fn with_discrete(self, args: SensorsArgs, status: Status, asserted: Chars, color: bool) -> SweepView {
        SweepView {
            hidden: self.hidden + 1,
            discrete: if args.all {
                self.discrete.with_row(discrete_row(self.sensor(), status, asserted, color))
            } else {
                self.discrete
            },
            ..self
        }
    }

    /// The sweep after a reply, given the converted values in it: every sensor
    /// is counted; those whose health is asked for are shown.
    pub open spec fn next(
        self,
        args: SensorsArgs,
        color: bool,
        reply: Result<ResponseView, Chars>,
        shown: Seq<Option<Chars>>,
    ) -> SweepView {
        if self.is_over() {
            self
        } else if is_analog(self.record()) {
            match self.pending {
                None => {
                    let (text, status) = self.analog_reading(reply, shown);
                    let counted = self.counted(status);
                    if !state_matches(args, status) {
                        counted.moved_to(args, self.index + 1)
                    } else if args.thresholds {
                        SweepView { pending: Some((text, status)), ..counted }
                    } else {
                        counted.with_analog(text, status, None, color).moved_to(
                            args,
                            self.index + 1,
                        )
                    }
                },
                Some((text, status)) => {
                    let thresholds = match thresholds_of(reply, shown) {
                        Ok(thresholds) => thresholds,
                        Err(_) => "n/a"@,
                    };
                    self.with_analog(text, status, Some(thresholds), color).moved_to(
                        args,
                        self.index + 1,
                    )
                },
            }
        } else {
            let (status, asserted) = self.discrete_reading(reply);
            let counted = self.counted(status);
            if !state_matches(args, status) {
                counted.moved_to(args, self.index + 1)
            } else {
                counted.with_discrete(args, status, asserted, color).moved_to(args, self.index + 1)
            }
        }
    }

    /// The line that announces the sensor being read.
    pub open spec fn announcement(self, color: bool) -> Chars {
        dimmed("debug:"@, color) + " reading "@ + (if is_analog(self.record()) {
            "threshold"@
        } else {
            "discrete"@
        }) + " sensor "@ + sensor_type_name(self.sensor().ty) + " / "@ + self.sensor().name
    }

    /// What is announced when the sweep comes to a sensor.
    pub open spec fn announced(self, args: SensorsArgs, color: bool) -> Seq<Chars> {
        if args.verbose && !self.is_over() {
            seq![self.announcement(color)]
        } else {
            seq![]
        }
    }

    /// The warning about a reply that could not be used.
    pub open spec fn warned(
        self,
        args: SensorsArgs,
        color: bool,
        reply: Result<ResponseView, Chars>,
        shown: Seq<Option<Chars>>,
    ) -> Seq<Chars> {
        let head = yellowed("warning:"@, color) + " "@ + self.sensor().name;
        if !args.verbose || self.is_over() {
            seq![]
        } else if self.pending is Some {
            match thresholds_of(reply, shown) {
                Err(e) => seq![head + " thresholds: "@ + e],
                Ok(_) => seq![],
            }
        } else if is_analog(self.record()) {
            match analog_of(reply, shown[0]) {
                Err(e) => seq![head + ": "@ + e],
                Ok(_) => seq![],
            }
        } else {
            match discrete_of(reply, self.sensor().ty, self.sensor().event_code) {
                Err(e) => seq![head + ": "@ + e],
                Ok(_) => seq![],
            }
        }
    }

    /// What is noted on the diagnostic output when a reply arrives: a warning
    /// about it, and the next sensor once the sweep goes on.
    pub open spec fn noted(
        self,
        args: SensorsArgs,
        color: bool,
        reply: Result<ResponseView, Chars>,
        shown: Seq<Option<Chars>>,
    ) -> Seq<Chars> {
        let after = self.next(args, color, reply, shown);
        self.warned(args, color, reply, shown) + if after.index != self.index {
            after.announced(args, color)
        } else {
            seq![]
        }
    }

    /// Whether `text` can be the conversion of the raw value `raw` for the sensor
    /// being read: there is one exactly when the record states an analog
    /// format, and it is one that a machine can show of that value.
    pub open spec fn converts(self, raw: u8, text: Option<Chars>) -> bool {
        let record = full_bytes(self.record());
        match text {
            Some(text) => record[20] < 0xC0 && reading_can_show(record, raw, text),
            None => record[20] >= 0xC0,
        }
    }

    /// Whether converted values can have come from the reply: each is a
    /// conversion of the raw value in its place, and there is none for a reply
    /// without raw values.
    pub open spec fn converted(
        self,
        reply: Result<ResponseView, Chars>,
        shown: Seq<Option<Chars>>,
    ) -> bool {
        if self.pending is Some {
            match raw_thresholds(reply) {
                Some(raw) => forall|i: int|
                    0 <= i < 6 ==> self.converts(raw[i], #[trigger] shown[i]),
                None => forall|i: int| 0 <= i < 6 ==> #[trigger] shown[i] is None,
            }
        } else {
            match raw_reading(reply) {
                Some(raw) => self.converts(raw, shown[0]),
                None => shown[0] is None,
            }
        }
    }

    /// What holds of every sweep: the sensor being read is asked for, and every
    /// sensor that is asked for and was passed is counted exactly once.
    pub open spec fn wf(self, args: SensorsArgs) -> bool {
        &&& all_wf(self.records)
        &&& 0 <= self.index <= self.records.len() <= usize::MAX
        &&& !self.is_over() ==> is_wanted(args, self.record())
        &&& self.pending is Some ==> !self.is_over() && is_analog(self.record())
        &&& self.counts.sum() == wanted_among(args, self.records, self.index) + (
        if self.pending is Some {
            1int
        } else {
            0
        })
        &&& self.hidden <= self.index
    }

    /// The counts line.
    pub open spec fn counts_line(counts: Counts, color: bool) -> Chars {
        "  "@ + Status::Okay.spec_badge(color) + "  "@ + dec(counts.ok as nat) + "   "@
            + Status::Warn.spec_badge(color) + "  "@ + yellowed(dec(counts.warn as nat), color)
            + "   "@ + Status::Crit.spec_badge(color) + "  "@ + reddened(
            dec(counts.crit as nat),
            color,
        ) + "   "@ + Status::Unknown.spec_badge(color) + "  "@ + dec(counts.unknown as nat)
    }

    /// A table, or a note that it is empty.
    pub open spec fn table_lines(table: TableView, none: Chars, color: bool) -> Seq<Chars> {
        if table.rows.len() == 0 {
            seq![indented(dimmed(none, color))]
        } else {
            table.lines(color)
        }
    }

    /// The report on all sensors.
    pub open spec fn report(self, args: SensorsArgs, color: bool) -> Seq<Chars> {
        let analog = header_lines("Sensors"@, color) + Self::table_lines(
            self.analog,
            "no analog sensors matched"@,
            color,
        );
        let all = if args.all {
            analog + header_lines("Discrete sensors"@, color) + Self::table_lines(
                self.discrete,
                "no discrete sensors matched"@,
                color,
            )
        } else if self.hidden > 0 {
            analog.push(
                indented(
                    dimmed(
                        "("@ + dec(self.hidden) + " discrete sensors hidden; use --all to show)"@,
                        color,
                    ),
                ),
            )
        } else {
            analog
        };
        all.push(seq![]).push(Self::counts_line(self.counts, color)).push(seq![])
    }
}

proof fn lemma_first_wanted(args: SensorsArgs, records: Seq<RecordView>, i: int)
    requires
        0 <= i <= records.len(),
    ensures
        i <= first_wanted(args, records, i) <= records.len(),
        first_wanted(args, records, i) < records.len() ==> is_wanted(
            args,
            records[first_wanted(args, records, i)],
        ),
        wanted_among(args, records, first_wanted(args, records, i)) == wanted_among(
            args,
            records,
            i,
        ),
    decreases records.len() - i,
{
    if i < records.len() && !is_wanted(args, records[i]) {
        lemma_first_wanted(args, records, i + 1);
    }
}

/// Every sensor that is asked for is counted exactly once, readable or not: at
/// the end of a sweep the counts add up to the number of such sensors.
pub proof fn law_every_sensor_is_counted(s: SweepView, args: SensorsArgs)
    requires
        s.wf(args),
        s.is_over(),
    ensures
        s.counts.sum() == wanted_among(args, s.records, s.records.len() as int),
{
}

fn table_or_note(table: &Table, none: &str, color: bool) -> (lines: Vec<String>)
    ensures
        texts(lines@) == SweepView::table_lines(table@, none@, color),
{
    if table.is_empty() {
        let mut lines: Vec<String> = Vec::new();
        push_text(&mut lines, indent(dim(none, color).as_str()));
        proof {
            assert(texts(lines@) =~= SweepView::table_lines(table@, none@, color));
        }
        lines
    } else {
        table.lines(color)
    }
}

/// Renders the counts line.
pub fn print_counts(counts: Counts, color: bool) -> (line: String)
    ensures
        line@ == SweepView::counts_line(counts, color),
{
    let mut line = concat3("  ", Status::Okay.badge(color).as_str(), "  ");
    line.append(dec_text(counts.ok as u64).as_str());
    line.append("   ");
    line.append(Status::Warn.badge(color).as_str());
    line.append("  ");
    line.append(yellow(dec_text(counts.warn as u64).as_str(), color).as_str());
    line.append("   ");
    line.append(Status::Crit.badge(color).as_str());
    line.append("  ");
    line.append(red(dec_text(counts.crit as u64).as_str(), color).as_str());
    line.append("   ");
    line.append(Status::Unknown.badge(color).as_str());
    line.append("  ");
    line.append(dec_text(counts.unknown as u64).as_str());
    line
}

impl SensorSweep {
    /// Begins the sweep at the first sensor that is asked for.
    pub fn new(args: &SensorsArgs, records: Vec<Record>) -> (sweep: SensorSweep)
        requires
            all_wf(record_views(records@)),
        ensures
            sweep@ == SweepView::start(*args, record_views(records@)),
            sweep@.wf(*args),
    {
        let sweep = SensorSweep {
            records,
            index: 0,
            pending: None,
            analog: new_analog_table(args.thresholds),
            discrete: new_discrete_table(),
            hidden: 0,
            counts: Counts { ok: 0, warn: 0, crit: 0, unknown: 0 },
        };
        sweep.move_to(args, 0)
    }

    fn move_to(self, args: &SensorsArgs, from: usize) -> (sweep: SensorSweep)
        requires
            all_wf(self@.records),
            from <= self@.records.len(),
            self@.hidden <= from,
            self@.counts.sum() == wanted_among(*args, self@.records, from as int),
        ensures
            sweep@ == self@.moved_to(*args, from as int),
            sweep@.wf(*args),
    {
        let mut sweep = self;
        let mut i: usize = from;
        proof {
            lemma_first_wanted(*args, self@.records, from as int);
        }
        let n: usize = sweep.records.len();
        while i < n && !wanted(args, &sweep.records[i])
            invariant
                n == sweep.records.len(),
                sweep@ == self@,
                from <= i <= sweep.records.len(),
                first_wanted(*args, self@.records, from as int) == first_wanted(
                    *args,
                    self@.records,
                    i as int,
                ),
            decreases sweep.records.len() - i,
        {
            i = i + 1;
        }
        sweep.index = i;
        sweep.pending = None;
        sweep
    }

    /// The request whose reply the sweep is waiting for; none once it is over.
    pub fn request(&self, args: &SensorsArgs) -> (r: Option<Request>)
        requires
            self@.wf(*args),
        ensures
            match r {
                Some(request) => self@.request() == Some(request@),
                None => self@.request() is None,
            },
    {
        if self.index >= self.records.len() {
            return None;
        }
        match sensor_of_record(&self.records[self.index]) {
            Some(sensor) => {
                let command: u8 = if self.pending.is_some() {
                    CMD_GET_SENSOR_THRESHOLDS
                } else {
                    CMD_GET_SENSOR_READING
                };
                Some(sensor_request(&sensor.key, command))
            }
            None => None,
        }
    }

    /// How many sensors have each status so far.
    pub fn counts(&self) -> (c: Counts)
        ensures
            c == self@.counts,
    {
        self.counts
    }

    /// What is announced when the sweep comes to a sensor.
    pub fn announced(&self, args: &SensorsArgs, color: bool) -> (lines: Vec<String>)
        requires
            self@.wf(*args),
        ensures
            texts(lines@) == self@.announced(*args, color),
    {
        let mut lines: Vec<String> = Vec::new();
        if args.verbose && self.index < self.records.len() {
            let record = &self.records[self.index];
            if let Some(sensor) = sensor_of_record(record) {
                let kind = if is_analog_record(record) {
                    "threshold"
                } else {
                    "discrete"
                };
                let mut line = concat3(dim("debug:", color).as_str(), " reading ", kind);
                line.append(" sensor ");
                line.append(sensor_type_text(sensor.ty).as_str());
                line.append(" / ");
                line.append(sensor.name.as_str());
                push_text(&mut lines, line);
            }
        }
        proof {
            assert(texts(lines@) =~= self@.announced(*args, color));
        }
        lines
    }

    /// The report on all sensors.
    pub fn report(&self, args: &SensorsArgs, color: bool) -> (lines: Vec<String>)
        ensures
            texts(lines@) == self@.report(*args, color),
    {
        let mut lines = header("Sensors", color);
        append_texts(&mut lines, table_or_note(&self.analog, "no analog sensors matched", color));
        if args.all {
            append_texts(&mut lines, header("Discrete sensors", color));
            append_texts(
                &mut lines,
                table_or_note(&self.discrete, "no discrete sensors matched", color),
            );
        } else if self.hidden > 0 {
            let note = concat3(
                "(",
                dec_text(self.hidden as u64).as_str(),
                " discrete sensors hidden; use --all to show)",
            );
            push_text(&mut lines, indent(dim(note.as_str(), color).as_str()));
        }
        push_text(&mut lines, String::new());
        push_text(&mut lines, print_counts(self.counts, color));
        push_text(&mut lines, String::new());
        proof {
            assert(texts(lines@) =~= self@.report(*args, color));
        }
        lines
    }

    /// Converts the values in a reply for the sensor being read.
    fn convert(&self, args: &SensorsArgs, reply: &Reply) -> (shown: Vec<Option<String>>)
        requires
            self@.wf(*args),
        ensures
            shown@.len() == 6,
            !self@.is_over() && is_analog(self@.record()) ==> self@.converted(
                reply_view(*reply),
                shown_views(shown@),
            ),
    {
        let mut shown: Vec<Option<String>> = Vec::new();
        if self.index < self.records.len() {
            proof {
                assert(self@.record().wf());
            }
            if let RecordContents::FullSensor { sensor: _, data } = &self.records[self.index].contents {
                if self.pending.is_some() {
                    if let Some(raw) = raw_thresholds_of(reply) {
                        let mut i: usize = 0;
                        while i < 6
                            invariant
                                i <= 6,
                                raw@.len() == 6,
                                shown@.len() == i,
                                !crate::sdr::undecodable(data@),
                                crate::sdr::is_kind(data@, crate::sdr::RecordKind::FullSensor),
                                data@ == full_bytes(self@.record()),
                                forall|k: int|
                                    0 <= k < i ==> self@.converts(
                                        raw@[k],
                                        shown_view(#[trigger] shown@[k]),
                                    ),
                            decreases 6 - i,
                        {
                            shown.push(display_reading(data.as_slice(), raw[i]));
                            i = i + 1;
                        }
                        proof {
                            assert forall|k: int| 0 <= k < 6 implies self@.converts(
                                raw@[k],
                                #[trigger] shown_views(shown@)[k],
                            ) by {
                                assert(self@.converts(raw@[k], shown_view(shown@[k])));
                            }
                        }
                        return shown;
                    }
                } else if let Some(raw) = raw_reading_of(reply) {
                    shown.push(display_reading(data.as_slice(), raw));
                }
            }
        }
        let ghost first = shown@;
        while shown.len() < 6
            invariant
                shown@.len() <= 6,
                first.len() <= 1,
                first.len() <= shown@.len(),
                first.len() == 1 ==> shown@[0] == first[0],
                forall|k: int| first.len() <= k < shown@.len() ==> shown@[k] is None,
            decreases 6 - shown.len(),
        {
            shown.push(None);
        }
        proof {
            assert forall|k: int| first.len() <= k < 6 implies #[trigger] shown_views(
                shown@,
            )[k] is None by {
                assert(shown@[k] is None);
            }
        }
        shown
    }

    /// Advances the sweep with the reply to its request, given the converted
    /// values in it; and says what is noted on the diagnostic output.
    pub fn advance_with(
        self,
        args: &SensorsArgs,
        color: bool,
        reply: Reply,
        shown: Vec<Option<String>>,
    ) -> (r: (SensorSweep, Vec<String>))
        requires
            self@.wf(*args),
            shown@.len() == 6,
        ensures
            r.0@ == self@.next(*args, color, reply_view(reply), shown_views(shown@)),
            r.0@.wf(*args),
            texts(r.1@) == self@.noted(*args, color, reply_view(reply), shown_views(shown@)),
    {
        let ghost values = shown_views(shown@);
        let ghost said = reply_view(reply);
        let mut lines: Vec<String> = Vec::new();
        proof {
            assert(texts(lines@) =~= seq![]);
        }
        if self.index >= self.records.len() {
            proof {
                assert(texts(lines@) =~= self@.noted(*args, color, said, values));
            }
            return (self, lines);
        }
        let mut sweep = self;
        let index: usize = sweep.index;
        let analog = is_analog_record(&sweep.records[index]);
        let name = match sensor_of_record(&sweep.records[index]) {
            Some(sensor) => sensor.name.clone(),
            None => String::new(),
        };
        let head = concat3(yellow("warning:", color).as_str(), " ", name.as_str());
        proof {
            assert(wanted_among(*args, self@.records, index + 1) == wanted_among(
                *args,
                self@.records,
                index as int,
            ) + 1);
            lemma_wanted_bound(*args, self@.records, index as int);
        }
        if analog {
            let pending = sweep.pending.take();
            match pending {
                None => {
                    let mut shown = shown;
                    let first = take_first(&mut shown);
                    let (text, status) = match read_analog(&reply, first) {
                        Ok(reading) => reading,
                        Err(e) => {
                            if args.verbose {
                                push_text(&mut lines, concat3(head.as_str(), ": ", e.as_str()));
                            }
                            ("n/a".to_owned(), Status::Unknown)
                        }
                    };
                    sweep.counts.tally(status);
                    if !matches_state(args, status) {
                        sweep = sweep.move_to(args, index + 1);
                    } else if args.thresholds {
                        sweep.pending = Some((text, status));
                        proof {
                            assert(texts(lines@) =~= self@.noted(*args, color, said, values));
                        }
                        return (sweep, lines);
                    } else {
                        if let Some(sensor) = sensor_of_record(&sweep.records[index]) {
                            push_analog(
                                &mut sweep.analog,
                                sensor,
                                text.as_str(),
                                status,
                                None,
                                color,
                            );
                        }
                        sweep = sweep.move_to(args, index + 1);
                    }
                }
                Some((text, status)) => {
                    let thresholds = match read_thresholds(&reply, &shown) {
                        Ok(thresholds) => thresholds,
                        Err(e) => {
                            if args.verbose {
                                push_text(
                                    &mut lines,
                                    concat3(head.as_str(), " thresholds: ", e.as_str()),
                                );
                            }
                            "n/a".to_owned()
                        }
                    };
                    if let Some(sensor) = sensor_of_record(&sweep.records[index]) {
                        push_analog(
                            &mut sweep.analog,
                            sensor,
                            text.as_str(),
                            status,
                            Some(thresholds.as_str()),
                            color,
                        );
                    }
                    sweep = sweep.move_to(args, index + 1);
                }
            }
        } else {
            let (ty, code) = match sensor_of_record(&sweep.records[index]) {
                Some(sensor) => (sensor.ty, sensor.event_code),
                None => (0, EventReadingTypeCodes::Unspecified),
            };
            let (status, asserted) = match read_discrete(&reply, ty, code) {
                Ok(reading) => reading,
                Err(e) => {
                    if args.verbose {
                        push_text(&mut lines, concat3(head.as_str(), ": ", e.as_str()));
                    }
                    (Status::Unknown, "n/a".to_owned())
                }
            };
            sweep.counts.tally(status);
            if matches_state(args, status) {
                sweep.hidden = sweep.hidden + 1;
                if args.all {
                    if let Some(sensor) = sensor_of_record(&sweep.records[index]) {
                        push_discrete(
                            &mut sweep.discrete,
                            sensor,
                            status,
                            asserted.as_str(),
                            color,
                        );
                    }
                }
            }
            sweep = sweep.move_to(args, index + 1);
        }
        let more = sweep.announced(args, color);
        append_texts(&mut lines, more);
        proof {
            assert(sweep@ == self@.next(*args, color, said, values));
            assert(texts(lines@) =~= self@.noted(*args, color, said, values));
        }
        (sweep, lines)
    }

    /// Advances the sweep with the reply to its request, and says what is noted
    /// on the diagnostic output. The text of a converted value depends on the
    /// machine's floating-point arithmetic and is not stated.
    pub fn advance(self, args: &SensorsArgs, color: bool, reply: Reply) -> (r: (
        SensorSweep,
        Vec<String>,
    ))
        requires
            self@.wf(*args),
        ensures
            r.0@.wf(*args),
            exists|shown: Seq<Option<Chars>>|
                shown.len() == 6 && (!self@.is_over() && is_analog(self@.record())
                    ==> self@.converted(reply_view(reply), shown)) && r.0@ == #[trigger] self@.next(
                    *args,
                    color,
                    reply_view(reply),
                    shown,
                ) && texts(r.1@) == self@.noted(*args, color, reply_view(reply), shown),
    {
        let shown = self.convert(args, &reply);
        self.advance_with(args, color, reply, shown)
    }
}

/// The records that are asked for are no more than there are.
pub proof fn lemma_wanted_bound(args: SensorsArgs, records: Seq<RecordView>, n: int)
    requires
        0 <= n <= records.len(),
    ensures
        0 <= wanted_among(args, records, n) <= n,
    decreases n,
{
    if n > 0 {
        lemma_wanted_bound(args, records, n - 1);
    }
}

/// No converted values.
pub open spec fn unconverted() -> Seq<Option<Chars>> {
    Seq::new(6, |i: int| None)
}

/// Gives no converted values, for a sweep whose readings are not shown.
pub fn no_values() -> (shown: Vec<Option<String>>)
    ensures
        shown@.len() == 6,
        shown_views(shown@) == unconverted(),
{
    let shown: Vec<Option<String>> = vec![None, None, None, None, None, None];
    proof {
        assert(shown_views(shown@) =~= unconverted());
    }
    shown
}

fn is_analog_record(record: &Record) -> (r: bool)
    ensures
        r == is_analog(record@),
{
    match &record.contents {
        RecordContents::FullSensor { sensor, .. } => is_threshold(&sensor.event_code),
        _ => false,
    }
}

fn take_first(shown: &mut Vec<Option<String>>) -> (first: Option<String>)
    requires
        old(shown)@.len() == 6,
    ensures
        first == old(shown)@[0],
{
    shown.swap_remove(0)
}

// ---------------------------------------------------------------------
// The command
// ---------------------------------------------------------------------

enum RunPhase {
    Scan(SdrScan),
    Sweep(SensorSweep),
    Pause(u64),
    Finished,
    Failed(String),
    Undecodable,
}

/// Reads and shows the sensors, once or again and again.
pub struct SensorRun {
    args: SensorsArgs,
    color: bool,
    interactive: bool,
    phase: RunPhase,
}

/// What the command is waiting for.
pub ghost enum RunPhaseView {
    /// The sensor data records.
    Scan(ScanView),
    /// The readings.
    Sweep(SweepView),
    /// The next refresh, after some seconds.
    Pause(u64),
    Finished,
    Failed(Chars),
    Undecodable,
}

/// How far the command has come. Progress is noted when it runs interactively.
pub ghost struct RunView {
    pub args: SensorsArgs,
    pub color: bool,
    pub interactive: bool,
    pub phase: RunPhaseView,
}

impl View for SensorRun {
    type V = RunView;

    closed spec fn view(&self) -> RunView {
        RunView {
            args: self.args,
            color: self.color,
            interactive: self.interactive,
            phase: match self.phase {
                RunPhase::Scan(scan) => RunPhaseView::Scan(scan@),
                RunPhase::Sweep(sweep) => RunPhaseView::Sweep(sweep@),
                RunPhase::Pause(seconds) => RunPhaseView::Pause(seconds),
                RunPhase::Finished => RunPhaseView::Finished,
                RunPhase::Failed(e) => RunPhaseView::Failed(e@),
                RunPhase::Undecodable => RunPhaseView::Undecodable,
            },
        }
    }
}

/// A state and what is printed on the way to it.
pub ghost struct Ran {
    pub run: RunView,
    pub output: OutputView,
}

impl RunView {
    pub open spec fn at(self, phase: RunPhaseView) -> RunView {
        RunView { phase, ..self }
    }

    /// Goes to a phase without printing anything.
    pub open spec fn silently(self, phase: RunPhaseView) -> Ran {
        Ran { run: self.at(phase), output: silence() }
    }

    /// Starts reading the repository.
    pub open spec fn scanning(self) -> Ran {
        Ran {
            run: self.at(RunPhaseView::Scan(ScanView::start())),
            output: OutputView {
                out: seq![],
                err: if self.interactive {
                    seq!["Reading SDR repository..."@]
                } else {
                    seq![]
                },
            },
        }
    }

    /// Goes on with a sweep, having noted some lines. A sweep that is over is
    /// reported; with `--watch` the readings are refreshed after a pause.
    pub open spec fn with_sweep(self, sweep: SweepView, err: Seq<Chars>) -> Ran {
        if !sweep.is_over() {
            Ran {
                run: self.at(RunPhaseView::Sweep(sweep)),
                output: OutputView { out: seq![], err },
            }
        } else {
            let report = sweep.report(self.args, self.color);
            match self.args.watch {
                Some(seconds) => Ran {
                    run: self.at(RunPhaseView::Pause(seconds)),
                    output: OutputView {
                        out: report.push(
                            indented(
                                dimmed(
                                    "refreshing every "@ + dec(seconds as nat)
                                        + "s; press Ctrl-C to stop"@,
                                    self.color,
                                ),
                            ),
                        ),
                        err,
                    },
                },
                None => Ran {
                    run: self.at(RunPhaseView::Finished),
                    output: OutputView { out: report, err },
                },
            }
        }
    }

    /// The repository is known, or cannot be read.
    pub open spec fn after_scan(self, scan: ScanView) -> Ran {
        match scan.phase {
            ScanPhaseView::Complete => {
                let sweep = SweepView::start(self.args, scan.records);
                let progress = if self.interactive {
                    seq![
                        "Reading "@ + dec(sensors_among(scan.records))
                            + " sensors (individual BMC timeouts may delay completion)..."@,
                    ]
                } else {
                    seq![]
                };
                self.with_sweep(sweep, progress + sweep.announced(self.args, self.color))
            },
            ScanPhaseView::Failed(e) => self.silently(RunPhaseView::Failed(e)),
            ScanPhaseView::Undecodable => self.silently(RunPhaseView::Undecodable),
            _ => self.silently(RunPhaseView::Scan(scan)),
        }
    }

    /// Goes on with a sweep after a reply, given the converted values in it.
    pub open spec fn swept(
        self,
        sweep: SweepView,
        reply: Result<ResponseView, Chars>,
        shown: Seq<Option<Chars>>,
    ) -> Ran {
        self.with_sweep(
            sweep.next(self.args, self.color, reply, shown),
            sweep.noted(self.args, self.color, reply, shown),
        )
    }

    /// The command after an event, given the converted values in a reading, and
    /// what is printed. An event that does not answer the current action
    /// changes nothing.
    pub open spec fn next(self, event: EventView, shown: Seq<Option<Chars>>) -> Ran {
        match (self.phase, event) {
            (RunPhaseView::Scan(scan), EventView::Reply(r)) => self.after_scan(scan.next(r)),
            (RunPhaseView::Sweep(sweep), EventView::Reply(r)) => self.swept(sweep, r, shown),
            (RunPhaseView::Pause(_), EventView::Elapsed) => self.scanning(),
            _ => self.silently(self.phase),
        }
    }

    /// Whether converted values can have come from an event.
    pub open spec fn converted(self, event: EventView, shown: Seq<Option<Chars>>) -> bool {
        match (self.phase, event) {
            (RunPhaseView::Sweep(sweep), EventView::Reply(r)) => is_analog(sweep.record())
                ==> sweep.converted(r, shown),
            _ => true,
        }
    }

    /// The action whose event the command is waiting for.
    pub open spec fn action(self) -> ActionView {
        match self.phase {
            RunPhaseView::Scan(scan) => ActionView::Send(scan.request()->0),
            RunPhaseView::Sweep(sweep) => ActionView::Send(sweep.request()->0),
            RunPhaseView::Pause(seconds) => ActionView::Pause { seconds, millis: 0 },
            RunPhaseView::Finished => ActionView::Finish(Ok(())),
            RunPhaseView::Failed(e) => ActionView::Finish(Err(e)),
            RunPhaseView::Undecodable => ActionView::Abort,
        }
    }

    pub open spec fn wf(self) -> bool {
        match self.phase {
            RunPhaseView::Scan(scan) => scan.wf() && scan.is_waiting(),
            RunPhaseView::Sweep(sweep) => sweep.wf(self.args) && !sweep.is_over(),
            _ => true,
        }
    }
}

impl SensorRun {
    /// Begins the command.
    pub fn new(args: SensorsArgs, color: bool, interactive: bool) -> (r: (SensorRun, Output))
        ensures
            (Ran { run: r.0@, output: r.1@ }) == (RunView {
                args,
                color,
                interactive,
                phase: RunPhaseView::Finished,
            }).scanning(),
            r.0@.wf(),
    {
        let run = SensorRun { args, color, interactive, phase: RunPhase::Finished };
        run.scanning()
    }

    fn scanning(self) -> (r: (SensorRun, Output))
        ensures
            (Ran { run: r.0@, output: r.1@ }) == self@.scanning(),
            r.0@.wf(),
    {
        let mut run = self;
        let mut err: Vec<String> = Vec::new();
        if run.interactive {
            push_text(&mut err, "Reading SDR repository...".to_owned());
        }
        run.phase = RunPhase::Scan(SdrScan::new());
        proof {
            assert(texts(err@) =~= self@.scanning().output.err);
            assert(ScanView::start().is_waiting());
        }
        (run, Output { out: no_lines(), err })
    }

    /// The action whose event the command is waiting for.
    pub fn action(&self) -> (a: Action)
        requires
            self@.wf(),
        ensures
            a@ == self@.action(),
    {
        match &self.phase {
            RunPhase::Scan(scan) => match scan.request() {
                Some(request) => Action::Send(request),
                None => Action::Abort,
            },
            RunPhase::Sweep(sweep) => match sweep.request(&self.args) {
                Some(request) => Action::Send(request),
                None => Action::Abort,
            },
            RunPhase::Pause(seconds) => Action::Pause { seconds: *seconds, millis: 0 },
            RunPhase::Finished => Action::Finish(Ok(())),
            RunPhase::Failed(e) => Action::Finish(Err(e.clone())),
            RunPhase::Undecodable => Action::Abort,
        }
    }

    fn with_sweep(self, sweep: SensorSweep, err: Vec<String>) -> (r: (SensorRun, Output))
        requires
            sweep@.wf(self@.args),
        ensures
            (Ran { run: r.0@, output: r.1@ }) == self@.with_sweep(sweep@, texts(err@)),
            r.0@.wf(),
    {
        let mut run = self;
        if sweep.request(&run.args).is_some() {
            run.phase = RunPhase::Sweep(sweep);
            return (run, Output { out: no_lines(), err });
        }
        let mut out = sweep.report(&run.args, run.color);
        match run.args.watch {
            Some(seconds) => {
                let note = concat3(
                    "refreshing every ",
                    dec_text(seconds).as_str(),
                    "s; press Ctrl-C to stop",
                );
                push_text(&mut out, indent(dim(note.as_str(), run.color).as_str()));
                run.phase = RunPhase::Pause(seconds);
            }
            None => {
                run.phase = RunPhase::Finished;
            }
        }
        (run, Output { out, err })
    }

    fn after_scan(self, scan: SdrScan) -> (r: (SensorRun, Output))
        requires
            scan@.wf(),
        ensures
            (Ran { run: r.0@, output: r.1@ }) == self@.after_scan(scan@),
            r.0@.wf(),
    {
        let mut run = self;
        if let Some(e) = scan.error() {
            run.phase = RunPhase::Failed(e);
            (run, Output { out: no_lines(), err: no_lines() })
        } else if scan.is_undecodable() {
            run.phase = RunPhase::Undecodable;
            (run, Output { out: no_lines(), err: no_lines() })
        } else if scan.request().is_some() {
            run.phase = RunPhase::Scan(scan);
            (run, Output { out: no_lines(), err: no_lines() })
        } else {
            let records = scan.into_records();
            let mut err: Vec<String> = Vec::new();
            if run.interactive {
                push_text(
                    &mut err,
                    concat3(
                        "Reading ",
                        dec_text(sensor_count(&records) as u64).as_str(),
                        " sensors (individual BMC timeouts may delay completion)...",
                    ),
                );
            }
            let ghost progress = texts(err@);
            let sweep = SensorSweep::new(&run.args, records);
            append_texts(&mut err, sweep.announced(&run.args, run.color));
            proof {
                assert(texts(err@) =~= progress + sweep@.announced(self@.args, self@.color));
                if self@.interactive {
                    assert(progress =~= seq![
                        "Reading "@ + dec(sensors_among(scan@.records))
                            + " sensors (individual BMC timeouts may delay completion)..."@,
                    ]);
                } else {
                    assert(progress =~= seq![]);
                }
            }
            run.with_sweep(sweep, err)
        }
    }

    fn after_reading(self, sweep: SensorSweep, reply: Reply) -> (r: (SensorRun, Output))
        requires
            sweep@.wf(self@.args),
            !sweep@.is_over(),
        ensures
            r.0@.wf(),
            exists|shown: Seq<Option<Chars>>|
                shown.len() == 6 && (is_analog(sweep@.record()) ==> sweep@.converted(
                    reply_view(reply),
                    shown,
                )) && (Ran { run: r.0@, output: r.1@ }) == #[trigger] self@.swept(
                    sweep@,
                    reply_view(reply),
                    shown,
                ),
    {
        let (next, err) = sweep.advance(&self.args, self.color, reply);
        let r = self.with_sweep(next, err);
        proof {
            let said = reply_view(reply);
            let shown = choose|shown: Seq<Option<Chars>>|
                shown.len() == 6 && (!sweep@.is_over() && is_analog(sweep@.record())
                    ==> sweep@.converted(said, shown)) && next@ == #[trigger] sweep@.next(
                    self@.args,
                    self@.color,
                    said,
                    shown,
                ) && texts(err@) == sweep@.noted(self@.args, self@.color, said, shown);
            assert((Ran { run: r.0@, output: r.1@ }) == self@.swept(sweep@, said, shown));
        }
        r
    }

    /// Advances the command with an event, and says what is printed. The text of
    /// a converted value depends on the machine's floating-point arithmetic and
    /// is not stated.
    #[verifier::rlimit(40)]
    pub fn advance(self, event: Event) -> (r: (SensorRun, Output))
        requires
            self@.wf(),
        ensures
            r.0@.wf(),
            exists|shown: Seq<Option<Chars>>|
                shown.len() == 6 && self@.converted(event@, shown) && (Ran {
                    run: r.0@,
                    output: r.1@,
                }) == #[trigger] self@.next(event@, shown),
    {
        let ghost any = Seq::<Option<Chars>>::new(6, |i: int| None);
        let SensorRun { args, color, interactive, phase } = self;
        match (phase, event) {
            (RunPhase::Scan(scan), Event::Reply(reply)) => {
                let run = SensorRun { args, color, interactive, phase: RunPhase::Finished };
                let r = run.after_scan(scan.advance(reply));
                proof {
                    assert((Ran { run: r.0@, output: r.1@ }) == self@.next(event@, any));
                }
                r
            }
            (RunPhase::Sweep(sweep), Event::Reply(reply)) => {
                let run = SensorRun { args, color, interactive, phase: RunPhase::Finished };
                let r = run.after_reading(sweep, reply);
                proof {
                    let said = reply_view(reply);
                    let shown = choose|shown: Seq<Option<Chars>>|
                        shown.len() == 6 && (is_analog(sweep@.record()) ==> sweep@.converted(
                            said,
                            shown,
                        )) && (Ran { run: r.0@, output: r.1@ }) == #[trigger] run@.swept(
                            sweep@,
                            said,
                            shown,
                        );
                    assert(run@.swept(sweep@, said, shown) == self@.swept(sweep@, said, shown));
                    assert((Ran { run: r.0@, output: r.1@ }) == self@.next(event@, shown));
                }
                r
            }
            (RunPhase::Pause(_), Event::Elapsed) => {
                let run = SensorRun { args, color, interactive, phase: RunPhase::Finished };
                let r = run.scanning();
                proof {
                    assert((Ran { run: r.0@, output: r.1@ }) == self@.next(event@, any));
                }
                r
            }
            (phase, _) => {
                let run = SensorRun { args, color, interactive, phase };
                let r = (run, Output { out: no_lines(), err: no_lines() });
                proof {
                    assert((Ran { run: r.0@, output: r.1@ }) == self@.next(event@, any));
                }
                r
            }
        }
    }
}

} // verus!
