//! `status` — a one-screen overview of BMC, chassis, sensors, and SEL health.

use vstd::prelude::*;

use crate::cli::SensorsArgs;
use crate::cmd::inventory::{firmware_of, firmware_text, vendor_of, vendor_text};
use crate::cmd::power::{power_state, power_text, push_faults, with_faults, with_line};
use crate::cmd::sel::{health_summary, critical_lines, newest, HealthSummary, HealthView};
use crate::cmd::sel_walk::{SelScan, SelScanView, WalkPhaseView};
use crate::cmd::sensor_run::{
    lemma_wanted_bound, no_values, unconverted, SensorSweep, SweepView,
};
use crate::cmd::sensors::Counts;
use crate::cmd::{
    chassis_status, chassis_status_of, chassis_status_request, policy_name, restore_policy_name,
    ChassisStatus, CMD_GET_CHASSIS_STATUS, NETFN_CHASSIS,
};
use crate::conn::{
    bmc_request, concat2, concat3, reply_view, Reply, ScanPhaseView, ScanView, SdrScan,
};
use crate::dialog::{no_lines, outcome_view, Action, ActionView, DeviceId, Event, EventView, SelInfo};
use crate::event::{entry_views, Entry, EntryView};
use crate::text::{
    append_texts, dec, dec_text, hex, hex_text, join, joined, push_text, texts, Chars,
};
use crate::ui::{
    dim, dimmed, green, greened, header, header_lines, indent, indented, kv, kv_line, red, reddened,
    yellow, yellowed,
};

verus! {

/// How many critical events are shown.
pub const RECENT_EVENTS: usize = 3;

/// A line that says that something is unavailable, and why.
pub open spec fn unavailable_line(key: Chars, e: Chars, color: bool) -> Chars {
    kv_line(key, dimmed("unavailable ("@ + e + ")"@, color), 22, color)
}

fn unavailable(key: &str, e: &str, color: bool) -> (line: String)
    ensures
        line@ == unavailable_line(key@, e@, color),
{
    let text = concat3("unavailable (", e, ")");
    kv(key, dim(text.as_str(), color).as_str(), 22, color)
}

// ---------------------------------------------------------------------
// Chassis and identity
// ---------------------------------------------------------------------

/// What is shown of the chassis.
pub open spec fn chassis_lines(status: Result<ChassisStatus, Chars>, color: bool) -> Seq<Chars> {
    match status {
        Ok(cs) => with_faults(
            seq![kv_line("Power"@, power_text(cs.power_on, color), 22, color)],
            cs,
            22,
            color,
        ).push(kv_line("Power restore policy"@, policy_name(cs.restore_policy), 22, color)),
        Err(e) => seq![unavailable_line("Power"@, e, color)],
    }
}

fn chassis(reply: Reply, color: bool) -> (lines: Vec<String>)
    ensures
        texts(lines@) == chassis_lines(chassis_status_of(reply_view(reply)), color),
{
    let mut lines = no_lines();
    match chassis_status(reply) {
        Ok(cs) => {
            push_text(
                &mut lines,
                kv("Power", power_state(cs.power_on, color).as_str(), 22, color),
            );
            proof {
                assert(texts(lines@) =~= seq![
                    kv_line("Power"@, power_text(cs.power_on, color), 22, color),
                ]);
            }
            push_faults(&mut lines, &cs, 22, color);
            push_text(
                &mut lines,
                kv("Power restore policy", restore_policy_name(cs.restore_policy), 22, color),
            );
        }
        Err(e) => {
            push_text(&mut lines, unavailable("Power", e.as_str(), color));
            proof {
                assert(texts(lines@) =~= seq![unavailable_line("Power"@, e@, color)]);
            }
        }
    }
    lines
}

/// The names of the capabilities that a controller reports, in order.
pub open spec fn capability_names(device: DeviceId) -> Seq<Chars> {
    let c = with_line(seq![], device.sensor_device_support, "Sensors"@);
    let c = with_line(c, device.sdr_repository_support, "SDR repository"@);
    let c = with_line(c, device.sel_device_support, "SEL"@);
    let c = with_line(c, device.fru_inventory_support, "FRU inventory"@);
    let c = with_line(c, device.chassis_support, "Chassis"@);
    let c = with_line(c, device.bridge_support, "Bridge"@);
    with_line(c, c.len() == 0, "none reported"@)
}

fn capabilities(device: &DeviceId) -> (names: Vec<String>)
    ensures
        texts(names@) == capability_names(*device),
{
    let mut names = no_lines();
    if device.sensor_device_support {
        push_text(&mut names, "Sensors".to_owned());
    }
    if device.sdr_repository_support {
        push_text(&mut names, "SDR repository".to_owned());
    }
    if device.sel_device_support {
        push_text(&mut names, "SEL".to_owned());
    }
    if device.fru_inventory_support {
        push_text(&mut names, "FRU inventory".to_owned());
    }
    if device.chassis_support {
        push_text(&mut names, "Chassis".to_owned());
    }
    if device.bridge_support {
        push_text(&mut names, "Bridge".to_owned());
    }
    proof {
        assert(texts(names@).len() == names@.len());
    }
    if names.len() == 0 {
        push_text(&mut names, "none reported".to_owned());
    }
    names
}

/// What is shown of the controller.
pub open spec fn device_lines(device: Result<DeviceId, Chars>, color: bool) -> Seq<Chars> {
    match device {
        Ok(device) => (seq![
            kv_line("Manufacturer"@, vendor_of(device.manufacturer_id), 22, color),
            kv_line("Product ID"@, "0x"@ + hex(device.product_id as nat, 4), 22, color),
            kv_line(
                "BMC firmware"@,
                firmware_of(device.major_fw_revision, device.minor_fw_revision),
                22,
                color,
            ),
            kv_line(
                "IPMI version"@,
                dec(device.major_version as nat) + "."@ + dec(device.minor_version as nat),
                22,
                color,
            ),
            kv_line(
                "Device available"@,
                if device.device_available {
                    greened("yes"@, color)
                } else {
                    yellowed("no (initializing)"@, color)
                },
                22,
                color,
            ),
        ] + header_lines("Capabilities"@, color)).push(
            indented(joined(capability_names(device), ", "@)),
        ),
        Err(e) => seq![unavailable_line("BMC identity"@, e, color)],
    }
}

fn device_report(device: Result<DeviceId, String>, color: bool) -> (lines: Vec<String>)
    ensures
        texts(lines@) == device_lines(outcome_view(device), color),
{
    let mut lines = no_lines();
    match device {
        Ok(device) => {
            push_text(
                &mut lines,
                kv("Manufacturer", vendor_text(device.manufacturer_id).as_str(), 22, color),
            );
            let product = concat2("0x", hex_text(device.product_id as u64, 4).as_str());
            push_text(&mut lines, kv("Product ID", product.as_str(), 22, color));
            let firmware = firmware_text(device.major_fw_revision, device.minor_fw_revision);
            push_text(&mut lines, kv("BMC firmware", firmware.as_str(), 22, color));
            let version = concat3(
                dec_text(device.major_version as u64).as_str(),
                ".",
                dec_text(device.minor_version as u64).as_str(),
            );
            push_text(&mut lines, kv("IPMI version", version.as_str(), 22, color));
            let available = if device.device_available {
                green("yes", color)
            } else {
                yellow("no (initializing)", color)
            };
            push_text(&mut lines, kv("Device available", available.as_str(), 22, color));
            append_texts(&mut lines, header("Capabilities", color));
            push_text(&mut lines, indent(join(&capabilities(&device), ", ").as_str()));
            proof {
                assert(texts(lines@) =~= device_lines(Ok(device), color));
            }
        }
        Err(e) => {
            push_text(&mut lines, unavailable("BMC identity", e.as_str(), color));
            proof {
                assert(texts(lines@) =~= seq![unavailable_line("BMC identity"@, e@, color)]);
            }
        }
    }
    lines
}

// ---------------------------------------------------------------------
// Health
// ---------------------------------------------------------------------

/// What is shown of the sensors' health.
pub open spec fn sensors_line(counts: Counts, color: bool) -> Chars {
    let text = dec(counts.ok as nat) + " OK, "@ + dec(counts.warn as nat) + " WARN, "@ + dec(
        counts.crit as nat,
    ) + " CRIT, "@ + dec(counts.unknown as nat) + " unknown"@;
    kv_line(
        "Sensors"@,
        if counts.sum() == 0 {
            dimmed("none reported"@, color)
        } else if counts.crit > 0 {
            reddened(text, color)
        } else if counts.warn > 0 {
            yellowed(text, color)
        } else {
            greened(text, color)
        },
        22,
        color,
    )
}

fn sensors_report(counts: Counts, color: bool) -> (line: String)
    requires
        counts.sum() <= usize::MAX,
    ensures
        line@ == sensors_line(counts, color),
{
    if counts.total() == 0 {
        return kv("Sensors", dim("none reported", color).as_str(), 22, color);
    }
    let mut text = concat3(
        dec_text(counts.ok as u64).as_str(),
        " OK, ",
        dec_text(counts.warn as u64).as_str(),
    );
    text.append(" WARN, ");
    text.append(dec_text(counts.crit as u64).as_str());
    text.append(" CRIT, ");
    text.append(dec_text(counts.unknown as u64).as_str());
    text.append(" unknown");
    let shown = if counts.crit > 0 {
        red(text.as_str(), color)
    } else if counts.warn > 0 {
        yellow(text.as_str(), color)
    } else {
        green(text.as_str(), color)
    };
    kv("Sensors", shown.as_str(), 22, color)
}

/// One line for each recent critical event.
pub open spec fn recent_lines(events: Seq<Chars>, color: bool) -> Seq<Chars> {
    Seq::new(events.len(), |i: int| kv_line("Recent critical"@, events[i], 22, color))
}

/// What is shown of the log's health.
pub open spec fn sel_lines(sel: HealthView, color: bool) -> Seq<Chars> {
    let text = dec(sel.entries as nat) + " entries, "@ + dec(sel.critical) + " critical"@;
    seq![
        kv_line(
            "SEL"@,
            if sel.overflow {
                reddened(text + ", OVERFLOW — events lost"@, color)
            } else if sel.critical > 0 {
                reddened(text, color)
            } else {
                text
            },
            22,
            color,
        ),
    ] + recent_lines(sel.recent_critical, color)
}

fn sel_report(sel: &HealthSummary, color: bool) -> (lines: Vec<String>)
    ensures
        texts(lines@) == sel_lines(sel@, color),
{
    let mut text = concat3(
        dec_text(sel.entries as u64).as_str(),
        " entries, ",
        dec_text(sel.critical as u64).as_str(),
    );
    text.append(" critical");
    let shown = if sel.overflow {
        text.append(", OVERFLOW — events lost");
        red(text.as_str(), color)
    } else if sel.critical > 0 {
        red(text.as_str(), color)
    } else {
        text
    };
    let mut lines = no_lines();
    push_text(&mut lines, kv("SEL", shown.as_str(), 22, color));
    let ghost head = texts(lines@);
    let ghost events = sel@.recent_critical;
    let mut i: usize = 0;
    proof {
        assert(texts(lines@) =~= head + recent_lines(events, color).take(0));
        assert(events.len() == sel.recent_critical@.len());
    }
    while i < sel.recent_critical.len()
        invariant
            i <= sel.recent_critical.len(),
            events == texts(sel.recent_critical@),
            texts(lines@) == head + recent_lines(events, color).take(i as int),
        decreases sel.recent_critical.len() - i,
    {
        push_text(
            &mut lines,
            kv("Recent critical", sel.recent_critical[i].as_str(), 22, color),
        );
        proof {
            assert(texts(lines@) =~= head + recent_lines(events, color).take(i + 1));
        }
        i = i + 1;
    }
    proof {
        assert(texts(lines@) =~= sel_lines(sel@, color));
    }
    lines
}

/// Arguments that select every sensor and show nothing besides.
pub open spec fn selects_all(args: SensorsArgs) -> bool {
    args.types@.len() == 0 && args.name@.len() == 0 && args.state@.len() == 0 && !args.all
        && !args.thresholds && !args.verbose && args.watch is None
}

fn all_sensors() -> (args: SensorsArgs)
    ensures
        selects_all(args),
{
    SensorsArgs {
        types: Vec::new(),
        name: Vec::new(),
        state: Vec::new(),
        all: false,
        thresholds: false,
        watch: None,
        verbose: false,
    }
}

// ---------------------------------------------------------------------
// The command
// ---------------------------------------------------------------------

enum StatusPhase {
    Chassis,
    Device,
    Scan(SdrScan),
    Sweep(SensorSweep),
    Info,
    Entries(SelScan),
    Finished,
    Undecodable,
}

/// Shows the overview. A part that is unavailable does not hide the others.
pub struct StatusRun {
    args: SensorsArgs,
    color: bool,
    totals: (u16, bool),
    phase: StatusPhase,
}

/// What the command is waiting for.
pub ghost enum StatusPhaseView {
    /// The chassis status.
    Chassis,
    /// The identity of the controller.
    Device,
    /// The sensor data records.
    Scan(ScanView),
    /// The readings.
    Sweep(SweepView),
    /// The totals of the log.
    Info,
    /// The entries of the log.
    Entries(SelScanView),
    Finished,
    Undecodable,
}

/// How far the command has come.
pub ghost struct StatusView {
    pub args: SensorsArgs,
    pub color: bool,
    pub totals: (u16, bool),
    pub phase: StatusPhaseView,
}

impl View for StatusRun {
    type V = StatusView;

    closed spec fn view(&self) -> StatusView {
        StatusView {
            args: self.args,
            color: self.color,
            totals: self.totals,
            phase: match self.phase {
                StatusPhase::Chassis => StatusPhaseView::Chassis,
                StatusPhase::Device => StatusPhaseView::Device,
                StatusPhase::Scan(scan) => StatusPhaseView::Scan(scan@),
                StatusPhase::Sweep(sweep) => StatusPhaseView::Sweep(sweep@),
                StatusPhase::Info => StatusPhaseView::Info,
                StatusPhase::Entries(scan) => StatusPhaseView::Entries(scan@),
                StatusPhase::Finished => StatusPhaseView::Finished,
                StatusPhase::Undecodable => StatusPhaseView::Undecodable,
            },
        }
    }
}

/// A state and the lines that are printed on the way to it.
pub ghost struct Overview {
    pub run: StatusView,
    pub lines: Seq<Chars>,
}

impl StatusView {
    pub open spec fn at(self, phase: StatusPhaseView) -> StatusView {
        StatusView { phase, ..self }
    }

    pub open spec fn saying(self, phase: StatusPhaseView, lines: Seq<Chars>) -> Overview {
        Overview { run: self.at(phase), lines }
    }

    /// Goes on with a sweep; once it is over the sensors' health is shown.
    pub open spec fn with_sweep(self, sweep: SweepView) -> Overview {
        if sweep.is_over() {
            self.saying(StatusPhaseView::Info, seq![sensors_line(sweep.counts, self.color)])
        } else {
            self.saying(StatusPhaseView::Sweep(sweep), seq![])
        }
    }

    pub open spec fn after_scan(self, scan: ScanView) -> Overview {
        match scan.phase {
            ScanPhaseView::Complete => self.with_sweep(SweepView::start(self.args, scan.records)),
            ScanPhaseView::Failed(e) => self.saying(
                StatusPhaseView::Info,
                seq![unavailable_line("Sensors"@, e, self.color)],
            ),
            ScanPhaseView::Undecodable => self.saying(StatusPhaseView::Undecodable, seq![]),
            _ => self.saying(StatusPhaseView::Scan(scan), seq![]),
        }
    }

    /// The log's health, and the end.
    pub open spec fn with_entries(self, entries: Seq<EntryView>) -> Overview {
        let critical = critical_lines(entries);
        self.saying(
            StatusPhaseView::Finished,
            sel_lines(
                HealthView {
                    entries: self.totals.0,
                    overflow: self.totals.1,
                    critical: critical.len(),
                    recent_critical: newest(critical, RECENT_EVENTS as nat),
                },
                self.color,
            ).push(seq![]),
        )
    }

    pub open spec fn without_entries(self, e: Chars) -> Overview {
        self.saying(
            StatusPhaseView::Finished,
            seq![unavailable_line("SEL"@, e, self.color), seq![]],
        )
    }

    /// The totals are known. An empty log is not read.
    pub open spec fn after_info(self, info: Result<SelInfo, Chars>) -> Overview {
        match info {
            Err(e) => self.without_entries("Get SEL Info failed: "@ + e),
            Ok(info) => {
                let known = StatusView { totals: (info.entries, info.overflow), ..self };
                if info.entries == 0 {
                    known.with_entries(seq![])
                } else {
                    known.saying(StatusPhaseView::Entries(SelScanView::start()), seq![])
                }
            },
        }
    }

    pub open spec fn after_entries(self, scan: SelScanView) -> Overview {
        match scan.phase {
            WalkPhaseView::Complete => self.with_entries(scan.entries),
            WalkPhaseView::Failed(e) => self.without_entries(e),
            WalkPhaseView::Waiting => self.saying(StatusPhaseView::Entries(scan), seq![]),
        }
    }

    /// The command after an event, and what is printed. Only the health of a
    /// sensor is shown, so its reading is not converted. An event that does not
    /// answer the current action changes nothing.
    pub open spec fn next(self, event: EventView) -> Overview {
        match (self.phase, event) {
            (StatusPhaseView::Chassis, EventView::Reply(r)) => self.saying(
                StatusPhaseView::Device,
                chassis_lines(chassis_status_of(r), self.color),
            ),
            (StatusPhaseView::Device, EventView::DeviceId(r)) => self.saying(
                StatusPhaseView::Scan(ScanView::start()),
                device_lines(r, self.color) + header_lines("Monitoring Health"@, self.color),
            ),
            (StatusPhaseView::Scan(scan), EventView::Reply(r)) => self.after_scan(scan.next(r)),
            (StatusPhaseView::Sweep(sweep), EventView::Reply(r)) => self.with_sweep(
                sweep.next(self.args, self.color, r, unconverted()),
            ),
            (StatusPhaseView::Info, EventView::SelInfo(r)) => self.after_info(r),
            (StatusPhaseView::Entries(scan), EventView::Reply(r)) => self.after_entries(
                scan.next(r),
            ),
            _ => self.saying(self.phase, seq![]),
        }
    }

    /// The action whose event the command is waiting for.
    pub open spec fn action(self) -> ActionView {
        match self.phase {
            StatusPhaseView::Chassis => ActionView::Send(
                bmc_request(NETFN_CHASSIS, CMD_GET_CHASSIS_STATUS, seq![]),
            ),
            StatusPhaseView::Device => ActionView::GetDeviceId,
            StatusPhaseView::Scan(scan) => ActionView::Send(scan.request()->0),
            StatusPhaseView::Sweep(sweep) => ActionView::Send(sweep.request()->0),
            StatusPhaseView::Info => ActionView::GetSelInfo,
            StatusPhaseView::Entries(scan) => ActionView::Send(scan.request()->0),
            StatusPhaseView::Finished => ActionView::Finish(Ok(())),
            StatusPhaseView::Undecodable => ActionView::Abort,
        }
    }

    pub open spec fn wf(self) -> bool {
        &&& selects_all(self.args)
        &&& match self.phase {
            StatusPhaseView::Scan(scan) => scan.wf() && scan.is_waiting(),
            StatusPhaseView::Sweep(sweep) => sweep.wf(self.args) && !sweep.is_over(),
            StatusPhaseView::Entries(scan) => scan.wf() && scan.phase is Waiting,
            _ => true,
        }
    }
}

/// Partial results are kept: no part that cannot be had makes the command fail.
pub proof fn law_status_never_fails(s: StatusView, event: EventView)
    ensures
        match s.next(event).run.action() {
            ActionView::Finish(r) => r is Ok,
            _ => true,
        },
{
}

impl StatusRun {
    /// Begins the command.
    pub fn new(color: bool) -> (r: (StatusRun, Vec<String>))
        ensures
            selects_all(r.0@.args),
            r.0@ == (StatusView {
                args: r.0@.args,
                color,
                totals: (0, false),
                phase: StatusPhaseView::Chassis,
            }),
            r.0@.wf(),
            texts(r.1@) == header_lines("System Overview"@, color),
    {
        let run = StatusRun {
            args: all_sensors(),
            color,
            totals: (0, false),
            phase: StatusPhase::Chassis,
        };
        (run, header("System Overview", color))
    }

    /// The action whose event the command is waiting for.
    pub fn action(&self) -> (a: Action)
        requires
            self@.wf(),
        ensures
            a@ == self@.action(),
    {
        match &self.phase {
            StatusPhase::Chassis => Action::Send(chassis_status_request()),
            StatusPhase::Device => Action::GetDeviceId,
            StatusPhase::Scan(scan) => match scan.request() {
                Some(request) => Action::Send(request),
                None => Action::Abort,
            },
            StatusPhase::Sweep(sweep) => match sweep.request(&self.args) {
                Some(request) => Action::Send(request),
                None => Action::Abort,
            },
            StatusPhase::Info => Action::GetSelInfo,
            StatusPhase::Entries(scan) => match scan.request() {
                Some(request) => Action::Send(request),
                None => Action::Abort,
            },
            StatusPhase::Finished => Action::Finish(Ok(())),
            StatusPhase::Undecodable => Action::Abort,
        }
    }

    fn with_sweep(self, sweep: SensorSweep) -> (r: (StatusRun, Vec<String>))
        requires
            selects_all(self@.args),
            sweep@.wf(self@.args),
        ensures
            (Overview { run: r.0@, lines: texts(r.1@) }) == self@.with_sweep(sweep@),
            r.0@.wf(),
    {
        let mut run = self;
        let mut lines = no_lines();
        if sweep.request(&run.args).is_some() {
            run.phase = StatusPhase::Sweep(sweep);
        } else {
            proof {
                lemma_wanted_bound(self@.args, sweep@.records, sweep@.index);
            }
            push_text(&mut lines, sensors_report(sweep.counts(), run.color));
            run.phase = StatusPhase::Info;
        }
        proof {
            assert(texts(lines@) =~= self@.with_sweep(sweep@).lines);
        }
        (run, lines)
    }

    fn after_scan(self, scan: SdrScan) -> (r: (StatusRun, Vec<String>))
        requires
            selects_all(self@.args),
            scan@.wf(),
        ensures
            (Overview { run: r.0@, lines: texts(r.1@) }) == self@.after_scan(scan@),
            r.0@.wf(),
    {
        let mut run = self;
        if let Some(e) = scan.error() {
            let mut lines = no_lines();
            push_text(&mut lines, unavailable("Sensors", e.as_str(), run.color));
            run.phase = StatusPhase::Info;
            proof {
                assert(texts(lines@) =~= self@.after_scan(scan@).lines);
            }
            return (run, lines);
        }
        if scan.is_undecodable() {
            run.phase = StatusPhase::Undecodable;
            return (run, no_lines());
        }
        if scan.request().is_some() {
            run.phase = StatusPhase::Scan(scan);
            return (run, no_lines());
        }
        let sweep = SensorSweep::new(&run.args, scan.into_records());
        run.with_sweep(sweep)
    }

    fn with_entries(self, entries: Vec<Entry>) -> (r: (StatusRun, Vec<String>))
        requires
            selects_all(self@.args),
        ensures
            (Overview { run: r.0@, lines: texts(r.1@) }) == self@.with_entries(
                entry_views(entries@),
            ),
            r.0@.wf(),
    {
        let mut run = self;
        let summary = health_summary(run.totals.0, run.totals.1, &entries, RECENT_EVENTS);
        let mut lines = sel_report(&summary, run.color);
        push_text(&mut lines, String::new());
        run.phase = StatusPhase::Finished;
        proof {
            assert(texts(lines@) =~= self@.with_entries(entry_views(entries@)).lines);
        }
        (run, lines)
    }

    fn without_entries(self, e: &str) -> (r: (StatusRun, Vec<String>))
        requires
            selects_all(self@.args),
        ensures
            (Overview { run: r.0@, lines: texts(r.1@) }) == self@.without_entries(e@),
            r.0@.wf(),
    {
        let mut run = self;
        let mut lines = no_lines();
        push_text(&mut lines, unavailable("SEL", e, run.color));
        push_text(&mut lines, String::new());
        run.phase = StatusPhase::Finished;
        proof {
            assert(texts(lines@) =~= self@.without_entries(e@).lines);
        }
        (run, lines)
    }

    fn after_info(self, info: Result<SelInfo, String>) -> (r: (StatusRun, Vec<String>))
        requires
            selects_all(self@.args),
        ensures
            (Overview { run: r.0@, lines: texts(r.1@) }) == self@.after_info(outcome_view(info)),
            r.0@.wf(),
    {
        match info {
            Err(e) => self.without_entries(concat2("Get SEL Info failed: ", e.as_str()).as_str()),
            Ok(info) => {
                let mut run = self;
                run.totals = (info.entries, info.overflow);
                if info.entries == 0 {
                    let none: Vec<Entry> = Vec::new();
                    proof {
                        assert(entry_views(none@) =~= seq![]);
                    }
                    run.with_entries(none)
                } else {
                    run.phase = StatusPhase::Entries(SelScan::new());
                    (run, no_lines())
                }
            }
        }
    }

    fn after_entries(self, scan: SelScan) -> (r: (StatusRun, Vec<String>))
        requires
            selects_all(self@.args),
            scan@.wf(),
        ensures
            (Overview { run: r.0@, lines: texts(r.1@) }) == self@.after_entries(scan@),
            r.0@.wf(),
    {
        if let Some(e) = scan.error() {
            return self.without_entries(e.as_str());
        }
        if scan.request().is_some() {
            let mut run = self;
            run.phase = StatusPhase::Entries(scan);
            return (run, no_lines());
        }
        self.with_entries(scan.into_entries())
    }

    /// Advances the command with an event, and says what is printed.
    pub fn advance(self, event: Event) -> (r: (StatusRun, Vec<String>))
        requires
            self@.wf(),
        ensures
            (Overview { run: r.0@, lines: texts(r.1@) }) == self@.next(event@),
            r.0@.wf(),
    {
        let StatusRun { args, color, totals, phase } = self;
        match (phase, event) {
            (StatusPhase::Chassis, Event::Reply(reply)) => {
                let lines = chassis(reply, color);
                let run = StatusRun { args, color, totals, phase: StatusPhase::Device };
                (run, lines)
            }
            (StatusPhase::Device, Event::DeviceId(device)) => {
                let mut lines = device_report(device, color);
                append_texts(&mut lines, header("Monitoring Health", color));
                let run = StatusRun {
                    args,
                    color,
                    totals,
                    phase: StatusPhase::Scan(SdrScan::new()),
                };
                proof {
                    assert(ScanView::start().is_waiting());
                }
                (run, lines)
            }
            (StatusPhase::Scan(scan), Event::Reply(reply)) => {
                let run = StatusRun { args, color, totals, phase: StatusPhase::Finished };
                run.after_scan(scan.advance(reply))
            }
            (StatusPhase::Sweep(sweep), Event::Reply(reply)) => {
                let (next, _noted) = sweep.advance_with(&args, color, reply, no_values());
                let run = StatusRun { args, color, totals, phase: StatusPhase::Finished };
                run.with_sweep(next)
            }
            (StatusPhase::Info, Event::SelInfo(info)) => {
                let run = StatusRun { args, color, totals, phase: StatusPhase::Finished };
                run.after_info(info)
            }
            (StatusPhase::Entries(scan), Event::Reply(reply)) => {
                let run = StatusRun { args, color, totals, phase: StatusPhase::Finished };
                run.after_entries(scan.advance(reply))
            }
            (phase, _) => {
                let run = StatusRun { args, color, totals, phase };
                (run, no_lines())
            }
        }
    }
}

} // verus!
