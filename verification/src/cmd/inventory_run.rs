//! `inventory` — the conversation: identity, locators, FRU contents, and the
//! table of detected devices.

use vstd::prelude::*;

use crate::bytes::copy_range;
use crate::cli::InventoryArgs;
use crate::cmd::inventory::{
    fru_views, identity, identity_lines, locate, located, physical_views, LocatedFru, LocatedView,
    PhysicalFru, PhysicalView,
};
use crate::conn::{concat2, concat3, ScanPhaseView, ScanView, SdrScan};
use crate::dialog::{no_lines, outcome_view, Action, ActionView, DeviceId, Event, EventView};
use crate::fru::{fru_of, is_blank, opt, parse_image, unusable, Fru, FruView};
use crate::fru_read::{AreasView, DecodedRead, RawRead, RawView};
use crate::sdr::{record_views, ContentsView, Record, RecordContents, RecordView};
use crate::text::{append_texts, dec, dec_text, hex, hex_text, push_text, texts, Chars};
use crate::ui::{
    cells, dim, dimmed, green, greened, header, header_lines, indent, indented, kv, kv_line,
    plain_cell, Align, Cell, CellView, Table, TableView,
};

verus! {

// ---------------------------------------------------------------------
// The fields of a FRU device
// ---------------------------------------------------------------------

/// The lines, and one more for a usable field.
pub open spec fn with_field(lines: Seq<Chars>, label: Chars, value: Option<Chars>, color: bool) -> Seq<
    Chars,
> {
    if unusable(value) {
        lines
    } else {
        lines.push(kv_line(label, value->0, 22, color))
    }
}

fn field(lines: &mut Vec<String>, label: &str, value: &Option<String>, color: bool)
    ensures
        texts(final(lines)@) == with_field(texts(old(lines)@), label@, opt(*value), color),
{
    if let Some(value) = value {
        if !value.as_str().is_empty() {
            push_text(lines, kv(label, value.as_str(), 22, color));
        }
    }
}

/// What is shown of a FRU device.
pub open spec fn fru_lines(fru: FruView, color: bool) -> Seq<Chars> {
    let l = with_field(seq![], "Product manufacturer"@, fru.product.manufacturer, color);
    let l = with_field(l, "Product name"@, fru.product.product_name, color);
    let l = with_field(l, "Part/model"@, fru.product.part_number, color);
    let l = with_field(l, "Version"@, fru.product.version, color);
    let l = with_field(l, "Product serial"@, fru.product.serial, color);
    let l = with_field(l, "Asset tag"@, fru.product.asset_tag, color);
    let l = with_field(l, "Board manufacturer"@, fru.board.manufacturer, color);
    let l = with_field(l, "Board product"@, fru.board.product_name, color);
    let l = with_field(l, "Board part number"@, fru.board.part_number, color);
    let l = with_field(l, "Board serial"@, fru.board.serial, color);
    let l = with_field(l, "Board mfg date"@, fru.board.mfg_date, color);
    let l = with_field(l, "Chassis type"@, fru.chassis.chassis_type, color);
    let l = with_field(l, "Chassis part number"@, fru.chassis.part_number, color);
    let l = with_field(l, "Chassis serial"@, fru.chassis.serial, color);
    if is_blank(fru) {
        l.push(indented(dimmed("present but no decodable fields"@, color)))
    } else {
        l
    }
}

/// A FRU device that was read is never passed over in silence: a field of it is
/// shown, or the note that there is none; and the note stands alone when
/// nothing was decoded.
pub proof fn law_fru_is_never_silent(fru: FruView, color: bool)
    ensures
        fru_lines(fru, color).len() > 0,
        is_blank(fru) && unusable(fru.board.mfg_date) && unusable(fru.chassis.chassis_type)
            ==> fru_lines(fru, color) == seq![
            indented(dimmed("present but no decodable fields"@, color)),
        ],
{
}

/// Renders the fields of a FRU device.
pub fn print_fru(fru: &Fru, color: bool) -> (lines: Vec<String>)
    ensures
        texts(lines@) == fru_lines(fru@, color),
{
    let mut lines = no_lines();
    field(&mut lines, "Product manufacturer", &fru.product.manufacturer, color);
    field(&mut lines, "Product name", &fru.product.product_name, color);
    field(&mut lines, "Part/model", &fru.product.part_number, color);
    field(&mut lines, "Version", &fru.product.version, color);
    field(&mut lines, "Product serial", &fru.product.serial, color);
    field(&mut lines, "Asset tag", &fru.product.asset_tag, color);
    field(&mut lines, "Board manufacturer", &fru.board.manufacturer, color);
    field(&mut lines, "Board product", &fru.board.product_name, color);
    field(&mut lines, "Board part number", &fru.board.part_number, color);
    field(&mut lines, "Board serial", &fru.board.serial, color);
    field(&mut lines, "Board mfg date", &fru.board.mfg_date, color);
    field(&mut lines, "Chassis type", &fru.chassis.chassis_type, color);
    field(&mut lines, "Chassis part number", &fru.chassis.part_number, color);
    field(&mut lines, "Chassis serial", &fru.chassis.serial, color);
    if fru.is_empty() {
        push_text(&mut lines, indent(dim("present but no decodable fields", color).as_str()));
    }
    lines
}

// ---------------------------------------------------------------------
// Selecting devices
// ---------------------------------------------------------------------

/// The first device with a FRU ID, or the number of devices if there is none.
pub open spec fn first_with_id(frus: Seq<LocatedView>, id: u8) -> int
    decreases frus.len(),
{
    if frus.len() == 0 || frus[0].id == id {
        0
    } else {
        1 + first_with_id(frus.skip(1), id)
    }
}

proof fn lemma_first_with_id(frus: Seq<LocatedView>, id: u8, i: int)
    requires
        0 <= i <= frus.len(),
        forall|j: int| 0 <= j < i ==> (#[trigger] frus[j]).id != id,
        i < frus.len() ==> frus[i].id == id,
    ensures
        first_with_id(frus, id) == i,
    decreases frus.len(),
{
    if i > 0 {
        assert(frus[0].id != id);
        assert forall|j: int| 0 <= j < i - 1 implies (#[trigger] frus.skip(1)[j]).id != id by {
            assert(frus[j + 1].id != id);
        }
        lemma_first_with_id(frus.skip(1), id, i - 1);
    }
}

/// The devices, with one for an explicitly selected ID that no record names.
pub open spec fn with_explicit(frus: Seq<LocatedView>, fru_id: Option<u8>) -> Seq<LocatedView> {
    match fru_id {
        Some(id) if first_with_id(frus, id) == frus.len() => frus.push(
            LocatedView {
                id,
                name: "Explicitly selected FRU"@,
                target: None,
                location: "BMC (not listed in SDR)"@,
            },
        ),
        _ => frus,
    }
}

/// Which devices are read: the first with the selected ID, or all.
pub open spec fn selection(frus: Seq<LocatedView>, fru_id: Option<u8>) -> Seq<int> {
    match fru_id {
        Some(id) => seq![first_with_id(frus, id)],
        None => Seq::new(frus.len(), |i: int| i),
    }
}

fn find_id(frus: &Vec<LocatedFru>, id: u8) -> (i: usize)
    ensures
        i == first_with_id(fru_views(frus@), id),
        i <= frus@.len(),
        i < frus@.len() ==> frus@[i as int].id == id,
{
    let ghost views = fru_views(frus@);
    let mut i: usize = 0;
    while i < frus.len() && frus[i].id != id
        invariant
            i <= frus.len(),
            views == fru_views(frus@),
            forall|j: int| 0 <= j < i ==> (#[trigger] views[j]).id != id,
        decreases frus.len() - i,
    {
        i = i + 1;
    }
    proof {
        lemma_first_with_id(views, id, i as int);
    }
    i
}

pub open spec fn index_views(v: Seq<usize>) -> Seq<int> {
    Seq::new(v.len(), |i: int| v[i] as int)
}

/// Completes the list of devices, and says which of them are read.
fn select(frus: Vec<LocatedFru>, fru_id: Option<u8>) -> (r: (Vec<LocatedFru>, Vec<usize>))
    ensures
        fru_views(r.0@) == with_explicit(fru_views(frus@), fru_id),
        index_views(r.1@) == selection(fru_views(r.0@), fru_id),
        forall|i: int| 0 <= i < r.1@.len() ==> (#[trigger] r.1@[i]) < r.0@.len(),
{
    let mut frus = frus;
    let mut chosen: Vec<usize> = Vec::new();
    match fru_id {
        Some(id) => {
            let ghost before = fru_views(frus@);
            let at: usize = find_id(&frus, id);
            if at == frus.len() {
                let explicit = LocatedFru {
                    id,
                    name: "Explicitly selected FRU".to_owned(),
                    target: None,
                    location: "BMC (not listed in SDR)".to_owned(),
                };
                frus.push(explicit);
                proof {
                    assert(fru_views(frus@) =~= before.push(explicit@));
                }
            }
            let k: usize = find_id(&frus, id);
            proof {
                if at == before.len() {
                    let views = fru_views(frus@);
                    assert(views.last().id == id);
                    if k == views.len() {
                        lemma_has_id(views, id, views.len() - 1);
                    }
                }
            }
            chosen.push(k);
            proof {
                assert(index_views(chosen@) =~= selection(fru_views(frus@), fru_id));
            }
        }
        None => {
            let mut i: usize = 0;
            while i < frus.len()
                invariant
                    i <= frus.len(),
                    chosen@.len() == i,
                    forall|k: int| 0 <= k < i ==> (#[trigger] chosen@[k]) == k,
                decreases frus.len() - i,
            {
                chosen.push(i);
                i = i + 1;
            }
            proof {
                assert(index_views(chosen@) =~= selection(fru_views(frus@), fru_id));
            }
        }
    }
    (frus, chosen)
}

proof fn lemma_has_id(frus: Seq<LocatedView>, id: u8, i: int)
    requires
        0 <= i < frus.len(),
        frus[i].id == id,
    ensures
        first_with_id(frus, id) <= i,
    decreases frus.len(),
{
    if frus[0].id != id {
        lemma_has_id(frus.skip(1), id, i - 1);
    }
}

/// With `--fru-id` exactly one device is read, and it has that ID, whether or
/// not a record names it; without it every device is read.
pub proof fn law_selection(frus: Seq<LocatedView>, fru_id: Option<u8>)
    ensures
        ({
            let all = with_explicit(frus, fru_id);
            let chosen = selection(all, fru_id);
            &&& fru_id is Some ==> chosen.len() == 1 && 0 <= chosen[0] < all.len()
                && all[chosen[0]].id == fru_id->0
            &&& fru_id is None ==> chosen.len() == frus.len() && all == frus
        }),
{
    let all = with_explicit(frus, fru_id);
    if let Some(id) = fru_id {
        lemma_id_range(frus, id);
        lemma_id_range(all, id);
        if first_with_id(frus, id) == frus.len() {
            assert(all.last().id == id);
            lemma_has_id(all, id, all.len() - 1);
        } else {
            assert(all == frus);
        }
    }
}

proof fn lemma_id_range(frus: Seq<LocatedView>, id: u8)
    ensures
        0 <= first_with_id(frus, id) <= frus.len(),
        first_with_id(frus, id) < frus.len() ==> frus[first_with_id(frus, id)].id == id,
    decreases frus.len(),
{
    if frus.len() > 0 && frus[0].id != id {
        lemma_id_range(frus.skip(1), id);
    }
}

// ---------------------------------------------------------------------
// The table of devices
// ---------------------------------------------------------------------

pub open spec fn fru_row(fru: LocatedView) -> Seq<CellView> {
    seq![
        plain_cell("Logical FRU"@),
        plain_cell(dec(fru.id as nat)),
        plain_cell(fru.name),
        plain_cell(fru.location),
    ]
}

pub open spec fn physical_row(p: PhysicalView) -> Seq<CellView> {
    seq![
        plain_cell("Physical FRU"@),
        plain_cell("I2C 0x"@ + hex(p.address as nat, 2)),
        plain_cell(p.name),
        plain_cell("channel "@ + dec(p.channel as nat) + "; direct read unsupported"@),
    ]
}

/// The row of a controller or device that only the repository describes.
pub open spec fn other_row(record: RecordView) -> Option<Seq<CellView>> {
    match record.contents {
        ContentsView::McDeviceLocator(name) => Some(
            seq![
                plain_cell("Mgmt controller"@),
                plain_cell("—"@),
                plain_cell(name),
                plain_cell("SDR"@),
            ],
        ),
        ContentsView::GenericDeviceLocator(name) => Some(
            seq![
                plain_cell("Device"@),
                plain_cell("—"@),
                plain_cell(name),
                plain_cell("SDR"@),
            ],
        ),
        _ => None,
    }
}

pub open spec fn other_rows(records: Seq<RecordView>) -> Seq<Seq<CellView>>
    decreases records.len(),
{
    if records.len() == 0 {
        seq![]
    } else {
        let before = other_rows(records.drop_last());
        match other_row(records.last()) {
            Some(row) => before.push(row),
            None => before,
        }
    }
}

/// The table of detected devices: logical FRUs, physical FRUs, then controllers
/// and other devices.
pub open spec fn device_table(
    frus: Seq<LocatedView>,
    physical: Seq<PhysicalView>,
    records: Seq<RecordView>,
) -> TableView {
    TableView {
        headers: seq!["KIND"@, "ID/ADDRESS"@, "NAME"@, "LOCATION"@],
        aligns: seq![Align::Left, Align::Left, Align::Left, Align::Left],
        rows: Seq::new(frus.len(), |i: int| fru_row(frus[i])) + Seq::new(
            physical.len(),
            |i: int| physical_row(physical[i]),
        ) + other_rows(records),
    }
}

/// What is printed at the end.
pub open spec fn device_lines(
    frus: Seq<LocatedView>,
    physical: Seq<PhysicalView>,
    records: Seq<RecordView>,
    color: bool,
) -> Seq<Chars> {
    (header_lines("Detected devices"@, color) + device_table(frus, physical, records).lines(
        color,
    )).push(seq![])
}

fn devices(
    frus: &Vec<LocatedFru>,
    physical: &Vec<PhysicalFru>,
    records: &Vec<Record>,
    color: bool,
) -> (lines: Vec<String>)
    ensures
        texts(lines@) == device_lines(
            fru_views(frus@),
            physical_views(physical@),
            record_views(records@),
            color,
        ),
{
    let ghost f = fru_views(frus@);
    let ghost p = physical_views(physical@);
    let ghost r = record_views(records@);
    let ghost fru_rows = Seq::new(f.len(), |i: int| fru_row(f[i]));
    let ghost physical_rows = Seq::new(p.len(), |i: int| physical_row(p[i]));
    let ghost want = device_table(f, p, r);
    let mut table = Table::new(
        &["KIND", "ID/ADDRESS", "NAME", "LOCATION"],
        &[Align::Left, Align::Left, Align::Left, Align::Left],
    );
    proof {
        assert(table@.headers =~= want.headers);
        assert(table@.aligns =~= want.aligns);
        assert(table@.rows =~= fru_rows.take(0));
    }
    let mut i: usize = 0;
    while i < frus.len()
        invariant
            i <= frus.len(),
            f == fru_views(frus@),
            fru_rows == Seq::new(f.len(), |i: int| fru_row(f[i])),
            table@.headers == want.headers,
            table@.aligns == want.aligns,
            table@.rows == fru_rows.take(i as int),
        decreases frus.len() - i,
    {
        let row = vec![
            Cell::new("Logical FRU"),
            Cell::new(dec_text(frus[i].id as u64).as_str()),
            Cell::new(frus[i].name.as_str()),
            Cell::new(frus[i].location.as_str()),
        ];
        proof {
            assert(cells(row@) =~= fru_row(f[i as int]));
        }
        table.row(row);
        proof {
            assert(table@.rows =~= fru_rows.take(i + 1));
        }
        i = i + 1;
    }
    let mut k: usize = 0;
    proof {
        assert(table@.rows =~= fru_rows + physical_rows.take(0));
    }
    while k < physical.len()
        invariant
            k <= physical.len(),
            p == physical_views(physical@),
            physical_rows == Seq::new(p.len(), |i: int| physical_row(p[i])),
            table@.headers == want.headers,
            table@.aligns == want.aligns,
            table@.rows == fru_rows + physical_rows.take(k as int),
        decreases physical.len() - k,
    {
        let location = concat3(
            "channel ",
            dec_text(physical[k].channel as u64).as_str(),
            "; direct read unsupported",
        );
        let row = vec![
            Cell::new("Physical FRU"),
            Cell::new(concat2("I2C 0x", hex_text(physical[k].address as u64, 2).as_str()).as_str()),
            Cell::new(physical[k].name.as_str()),
            Cell::new(location.as_str()),
        ];
        proof {
            assert(cells(row@) =~= physical_row(p[k as int]));
        }
        table.row(row);
        proof {
            assert(table@.rows =~= fru_rows + physical_rows.take(k + 1));
        }
        k = k + 1;
    }
    let mut n: usize = 0;
    proof {
        assert(r.take(0) =~= seq![]);
        assert(physical_rows.take(p.len() as int) =~= physical_rows);
        assert(table@.rows =~= fru_rows + physical_rows + other_rows(r.take(0)));
    }
    while n < records.len()
        invariant
            n <= records.len(),
            r == record_views(records@),
            table@.headers == want.headers,
            table@.aligns == want.aligns,
            table@.rows == fru_rows + physical_rows + other_rows(r.take(n as int)),
        decreases records.len() - n,
    {
        proof {
            assert(r.take(n + 1).drop_last() =~= r.take(n as int));
            assert(r.take(n + 1).last() == records@[n as int]@);
        }
        let found = match &records[n].contents {
            RecordContents::McDeviceLocator(name) => Some(("Mgmt controller", name)),
            RecordContents::GenericDeviceLocator(name) => Some(("Device", name)),
            _ => None,
        };
        if let Some((kind, name)) = found {
            let row = vec![
                Cell::new(kind),
                Cell::new("—"),
                Cell::new(name.as_str()),
                Cell::new("SDR"),
            ];
            let ghost before = table@.rows;
            proof {
                assert(cells(row@) =~= other_row(r[n as int])->0);
            }
            table.row(row);
            proof {
                assert(table@.rows =~= fru_rows + physical_rows + other_rows(r.take(n + 1)));
            }
        }
        n = n + 1;
    }
    proof {
        assert(r.take(r.len() as int) =~= r);
        assert(table@ == want);
    }
    let mut lines = header("Detected devices", color);
    append_texts(&mut lines, table.lines(color));
    push_text(&mut lines, String::new());
    proof {
        assert(texts(lines@) =~= device_lines(f, p, r, color));
    }
    lines
}

// ---------------------------------------------------------------------
// The command
// ---------------------------------------------------------------------

enum InventoryPhase {
    Device,
    Scan(SdrScan),
    Raw(RawRead),
    Export(Vec<u8>),
    Decoded(DecodedRead),
    Finished,
    Failed(String),
    Undecodable,
}

/// Shows the inventory, and exports a raw image where it is asked for.
pub struct InventoryRun {
    args: InventoryArgs,
    color: bool,
    records: Vec<Record>,
    frus: Vec<LocatedFru>,
    physical: Vec<PhysicalFru>,
    chosen: Vec<usize>,
    index: usize,
    phase: InventoryPhase,
}

/// What the command is waiting for.
pub ghost enum InventoryPhaseView {
    /// The identity of the controller.
    Device,
    /// The sensor data records.
    Scan(ScanView),
    /// The whole image of a FRU device.
    Raw(RawView),
    /// The export of that image.
    Export(Seq<u8>),
    /// The standard areas of a FRU device.
    Decoded(AreasView),
    Finished,
    Failed(Chars),
    Undecodable,
}

/// How far the command has come: the devices found, which of them are read, and
/// how many of those are done.
pub ghost struct InventoryView {
    pub args: InventoryArgs,
    pub color: bool,
    pub records: Seq<RecordView>,
    pub frus: Seq<LocatedView>,
    pub physical: Seq<PhysicalView>,
    pub chosen: Seq<int>,
    pub index: int,
    pub phase: InventoryPhaseView,
}

impl View for InventoryRun {
    type V = InventoryView;

    closed spec fn view(&self) -> InventoryView {
        InventoryView {
            args: self.args,
            color: self.color,
            records: record_views(self.records@),
            frus: fru_views(self.frus@),
            physical: physical_views(self.physical@),
            chosen: index_views(self.chosen@),
            index: self.index as int,
            phase: match self.phase {
                InventoryPhase::Device => InventoryPhaseView::Device,
                InventoryPhase::Scan(scan) => InventoryPhaseView::Scan(scan@),
                InventoryPhase::Raw(read) => InventoryPhaseView::Raw(read@),
                InventoryPhase::Export(image) => InventoryPhaseView::Export(image@),
                InventoryPhase::Decoded(read) => InventoryPhaseView::Decoded(read@),
                InventoryPhase::Finished => InventoryPhaseView::Finished,
                InventoryPhase::Failed(e) => InventoryPhaseView::Failed(e@),
                InventoryPhase::Undecodable => InventoryPhaseView::Undecodable,
            },
        }
    }
}

/// A state and the lines that are printed on the way to it.
pub ghost struct Shown {
    pub run: InventoryView,
    pub lines: Seq<Chars>,
}

/// The title of a FRU device.
pub open spec fn fru_title(fru: LocatedView) -> Chars {
    "FRU "@ + dec(fru.id as nat) + " — "@ + fru.name + " ("@ + fru.location + ")"@
}

/// The note on a FRU device that cannot be read.
pub open spec fn unavailable(e: Chars, color: bool) -> Seq<Chars> {
    seq![indented(dimmed("unavailable: "@ + e, color))]
}

impl InventoryView {
    pub open spec fn start(args: InventoryArgs, color: bool) -> InventoryView {
        InventoryView {
            args,
            color,
            records: seq![],
            frus: seq![],
            physical: seq![],
            chosen: seq![],
            index: 0,
            phase: InventoryPhaseView::Device,
        }
    }

    pub open spec fn at(self, phase: InventoryPhaseView) -> InventoryView {
        InventoryView { phase, ..self }
    }

    pub open spec fn silently(self, phase: InventoryPhaseView) -> Shown {
        Shown { run: self.at(phase), lines: seq![] }
    }

    /// The device being read.
    pub open spec fn current(self) -> LocatedView {
        self.frus[self.chosen[self.index]]
    }

    /// Having printed some lines, goes on to the chosen device at `index`; after
    /// the last one the table of devices follows.
    pub open spec fn moved_to(self, index: int, lines: Seq<Chars>) -> Shown {
        let here = InventoryView { index, ..self };
        if index < self.chosen.len() {
            let fru = here.current();
            Shown {
                run: here.at(
                    if self.args.raw is Some {
                        InventoryPhaseView::Raw(RawView::start(fru.id, fru.target))
                    } else {
                        InventoryPhaseView::Decoded(AreasView::start(fru.id, fru.target))
                    },
                ),
                lines: lines + header_lines(fru_title(fru), self.color),
            }
        } else {
            Shown {
                run: here.at(InventoryPhaseView::Finished),
                lines: lines + device_lines(self.frus, self.physical, self.records, self.color),
            }
        }
    }

    pub open spec fn after_device(self, device: Result<DeviceId, Chars>) -> Shown {
        match device {
            Err(e) => self.silently(InventoryPhaseView::Failed("Get Device ID failed: "@ + e)),
            Ok(device) => Shown {
                run: self.at(InventoryPhaseView::Scan(ScanView::start())),
                lines: identity_lines(device, self.color),
            },
        }
    }

    /// The repository is known. A raw export needs a single selected device.
    pub open spec fn after_scan(self, scan: ScanView) -> Shown {
        match scan.phase {
            ScanPhaseView::Complete => match located(scan.records) {
                Err(e) => InventoryView { records: scan.records, ..self }.silently(
                    InventoryPhaseView::Failed(e),
                ),
                Ok(found) => {
                    let frus = with_explicit(found.frus, self.args.fru_id);
                    let chosen = selection(frus, self.args.fru_id);
                    let known = InventoryView {
                        records: scan.records,
                        frus,
                        physical: found.physical,
                        chosen,
                        ..self
                    };
                    if self.args.raw is Some && chosen.len() != 1 {
                        known.silently(
                            InventoryPhaseView::Failed("raw export requires a single selected FRU"@),
                        )
                    } else {
                        known.moved_to(0, seq![])
                    }
                },
            },
            ScanPhaseView::Failed(e) => self.silently(InventoryPhaseView::Failed(e)),
            ScanPhaseView::Undecodable => self.silently(InventoryPhaseView::Undecodable),
            _ => self.silently(InventoryPhaseView::Scan(scan)),
        }
    }

    pub open spec fn after_raw(self, read: RawView) -> Shown {
        match read.result() {
            None => self.silently(InventoryPhaseView::Raw(read)),
            Some(Ok(image)) => self.silently(InventoryPhaseView::Export(image)),
            Some(Err(e)) => self.moved_to(self.index + 1, unavailable(e, self.color)),
        }
    }

    pub open spec fn after_export(self, image: Seq<u8>, result: Result<(), Chars>) -> Shown {
        let path = self.args.raw->0@;
        match result {
            Err(e) => self.silently(
                InventoryPhaseView::Failed("cannot write '"@ + path + "': "@ + e),
            ),
            Ok(_) => self.moved_to(
                self.index + 1,
                seq![
                    greened("OK:"@, self.color) + " exported "@ + dec(image.len()) + " bytes to "@
                        + path,
                ] + fru_lines(fru_of(image, self.color), self.color),
            ),
        }
    }

    pub open spec fn after_decoded(self, read: AreasView) -> Shown {
        match read.result(self.color) {
            None => self.silently(InventoryPhaseView::Decoded(read)),
            Some(Ok(fru)) => self.moved_to(self.index + 1, fru_lines(fru, self.color)),
            Some(Err(e)) => self.moved_to(self.index + 1, unavailable(e, self.color)),
        }
    }

    /// The command after an event, and what is printed. An event that does not
    /// answer the current action changes nothing.
    pub open spec fn next(self, event: EventView) -> Shown {
        match (self.phase, event) {
            (InventoryPhaseView::Device, EventView::DeviceId(r)) => self.after_device(r),
            (InventoryPhaseView::Scan(scan), EventView::Reply(r)) => self.after_scan(scan.next(r)),
            (InventoryPhaseView::Raw(read), EventView::Reply(r)) => self.after_raw(read.next(r)),
            (InventoryPhaseView::Export(image), EventView::Exported(r)) => self.after_export(
                image,
                r,
            ),
            (InventoryPhaseView::Decoded(read), EventView::Reply(r)) => self.after_decoded(
                read.next(r),
            ),
            _ => self.silently(self.phase),
        }
    }

    /// The action whose event the command is waiting for.
    pub open spec fn action(self) -> ActionView {
        match self.phase {
            InventoryPhaseView::Device => ActionView::GetDeviceId,
            InventoryPhaseView::Scan(scan) => ActionView::Send(scan.request()->0),
            InventoryPhaseView::Raw(read) => ActionView::Send(read.request()->0),
            InventoryPhaseView::Export(image) => ActionView::Export(image),
            InventoryPhaseView::Decoded(read) => ActionView::Send(read.request()->0),
            InventoryPhaseView::Finished => ActionView::Finish(Ok(())),
            InventoryPhaseView::Failed(e) => ActionView::Finish(Err(e)),
            InventoryPhaseView::Undecodable => ActionView::Abort,
        }
    }

    pub open spec fn wf(self) -> bool {
        &&& 0 <= self.index <= self.chosen.len() <= usize::MAX
        &&& forall|i: int|
            0 <= i < self.chosen.len() ==> 0 <= (#[trigger] self.chosen[i]) < self.frus.len()
        &&& match self.phase {
            InventoryPhaseView::Device => self.index == 0,
            InventoryPhaseView::Scan(scan) => scan.wf() && scan.is_waiting() && self.index == 0,
            InventoryPhaseView::Raw(read) => read.wf() && read.request() is Some && self.index
                < self.chosen.len() && self.args.raw is Some,
            InventoryPhaseView::Export(_) => self.index < self.chosen.len() && self.args.raw is Some,
            InventoryPhaseView::Decoded(read) => read.wf() && read.request() is Some && self.index
                < self.chosen.len(),
            _ => true,
        }
    }
}

impl InventoryRun {
    pub fn new(args: InventoryArgs, color: bool) -> (run: InventoryRun)
        ensures
            run@ == InventoryView::start(args, color),
            run@.wf(),
    {
        let run = InventoryRun {
            args,
            color,
            records: Vec::new(),
            frus: Vec::new(),
            physical: Vec::new(),
            chosen: Vec::new(),
            index: 0,
            phase: InventoryPhase::Device,
        };
        proof {
            assert(run@.records =~= seq![]);
            assert(run@.frus =~= seq![]);
            assert(run@.physical =~= seq![]);
            assert(run@.chosen =~= seq![]);
        }
        run
    }

    /// The action whose event the command is waiting for.
    pub fn action(&self) -> (a: Action)
        requires
            self@.wf(),
        ensures
            a@ == self@.action(),
    {
        match &self.phase {
            InventoryPhase::Device => Action::GetDeviceId,
            InventoryPhase::Scan(scan) => match scan.request() {
                Some(request) => Action::Send(request),
                None => Action::Abort,
            },
            InventoryPhase::Raw(read) => match read.request() {
                Some(request) => Action::Send(request),
                None => Action::Abort,
            },
            InventoryPhase::Export(image) => {
                let data = copy_range(image.as_slice(), 0, image.len());
                proof {
                    assert(data@ =~= image@);
                }
                Action::Export(data)
            }
            InventoryPhase::Decoded(read) => match read.request() {
                Some(request) => Action::Send(request),
                None => Action::Abort,
            },
            InventoryPhase::Finished => Action::Finish(Ok(())),
            InventoryPhase::Failed(e) => Action::Finish(Err(e.clone())),
            InventoryPhase::Undecodable => Action::Abort,
        }
    }

    fn move_to(self, index: usize, lines: Vec<String>) -> (r: (InventoryRun, Vec<String>))
        requires
            self@.wf(),
            index <= self@.chosen.len(),
        ensures
            (Shown { run: r.0@, lines: texts(r.1@) }) == self@.moved_to(
                index as int,
                texts(lines@),
            ),
            r.0@.wf(),
    {
        let mut run = self;
        let mut lines = lines;
        run.index = index;
        if index < run.chosen.len() {
            let k: usize = run.chosen[index];
            proof {
                assert(self@.chosen[index as int] == k);
            }
            let fru = &run.frus[k];
            let mut title = concat3("FRU ", dec_text(fru.id as u64).as_str(), " — ");
            title.append(fru.name.as_str());
            title.append(" (");
            title.append(fru.location.as_str());
            title.append(")");
            append_texts(&mut lines, header(title.as_str(), run.color));
            let id: u8 = fru.id;
            let target = fru.target;
            if run.args.raw.is_some() {
                run.phase = InventoryPhase::Raw(RawRead::new(id, target));
            } else {
                run.phase = InventoryPhase::Decoded(DecodedRead::new(id, target));
            }
        } else {
            append_texts(
                &mut lines,
                devices(&run.frus, &run.physical, &run.records, run.color),
            );
            run.phase = InventoryPhase::Finished;
        }
        (run, lines)
    }

    fn fail(self, e: String) -> (r: (InventoryRun, Vec<String>))
        requires
            self@.wf(),
        ensures
            (Shown { run: r.0@, lines: texts(r.1@) }) == self@.silently(
                InventoryPhaseView::Failed(e@),
            ),
            r.0@.wf(),
    {
        let mut run = self;
        run.phase = InventoryPhase::Failed(e);
        (run, no_lines())
    }

    fn after_scan(self, scan: SdrScan) -> (r: (InventoryRun, Vec<String>))
        requires
            self@.wf(),
            scan@.wf(),
            self@.index == 0,
        ensures
            (Shown { run: r.0@, lines: texts(r.1@) }) == self@.after_scan(scan@),
            r.0@.wf(),
    {
        let mut run = self;
        if let Some(e) = scan.error() {
            return run.fail(e);
        }
        if scan.is_undecodable() {
            run.phase = InventoryPhase::Undecodable;
            return (run, no_lines());
        }
        if scan.request().is_some() {
            run.phase = InventoryPhase::Scan(scan);
            return (run, no_lines());
        }
        run.phase = InventoryPhase::Finished;
        run.records = scan.into_records();
        match locate(&run.records) {
            Err(e) => run.fail(e),
            Ok((frus, physical)) => {
                let (frus, chosen) = select(frus, run.args.fru_id);
                run.frus = frus;
                run.physical = physical;
                run.chosen = chosen;
                let count: usize = run.chosen.len();
                proof {
                    assert forall|i: int| 0 <= i < run@.chosen.len() implies 0 <= (
                    #[trigger] run@.chosen[i]) < run@.frus.len() by {
                        assert(run.chosen@[i] < run.frus@.len());
                    }
                }
                if run.args.raw.is_some() && count != 1 {
                    return run.fail("raw export requires a single selected FRU".to_owned());
                }
                run.move_to(0, no_lines())
            }
        }
    }

    fn unavailable(self, e: &str) -> (r: (InventoryRun, Vec<String>))
        requires
            self@.wf(),
            self@.index < self@.chosen.len(),
        ensures
            (Shown { run: r.0@, lines: texts(r.1@) }) == self@.moved_to(
                self@.index + 1,
                unavailable(e@, self@.color),
            ),
            r.0@.wf(),
    {
        let mut lines = no_lines();
        push_text(
            &mut lines,
            indent(dim(concat2("unavailable: ", e).as_str(), self.color).as_str()),
        );
        proof {
            assert(texts(lines@) =~= unavailable(e@, self@.color));
        }
        let next: usize = self.index + 1;
        self.move_to(next, lines)
    }

    fn after_raw(self, read: RawRead) -> (r: (InventoryRun, Vec<String>))
        requires
            self@.wf(),
            read@.wf(),
            self@.index < self@.chosen.len(),
            self@.args.raw is Some,
        ensures
            (Shown { run: r.0@, lines: texts(r.1@) }) == self@.after_raw(read@),
            r.0@.wf(),
    {
        if read.request().is_some() {
            let mut run = self;
            run.phase = InventoryPhase::Raw(read);
            return (run, no_lines());
        }
        match read.finish() {
            Ok(image) => {
                let mut run = self;
                run.phase = InventoryPhase::Export(image);
                (run, no_lines())
            }
            Err(e) => self.unavailable(e.as_str()),
        }
    }

    fn after_export(self, image: Vec<u8>, result: Result<(), String>) -> (r: (
        InventoryRun,
        Vec<String>,
    ))
        requires
            self@.wf(),
            self@.index < self@.chosen.len(),
            self@.args.raw is Some,
        ensures
            (Shown { run: r.0@, lines: texts(r.1@) }) == self@.after_export(
                image@,
                outcome_view(result),
            ),
            r.0@.wf(),
    {
        let path = match &self.args.raw {
            Some(path) => path.clone(),
            None => String::new(),
        };
        match result {
            Err(e) => {
                let mut text = concat3("cannot write '", path.as_str(), "': ");
                text.append(e.as_str());
                self.fail(text)
            }
            Ok(_) => {
                let mut line = concat3(
                    green("OK:", self.color).as_str(),
                    " exported ",
                    dec_text(image.len() as u64).as_str(),
                );
                line.append(" bytes to ");
                line.append(path.as_str());
                let mut lines = no_lines();
                push_text(&mut lines, line);
                proof {
                    assert(texts(lines@) =~= seq![line@]);
                }
                let fru = parse_image(image.as_slice(), self.color);
                append_texts(&mut lines, print_fru(&fru, self.color));
                let next: usize = self.index + 1;
                self.move_to(next, lines)
            }
        }
    }

    fn after_decoded(self, read: DecodedRead) -> (r: (InventoryRun, Vec<String>))
        requires
            self@.wf(),
            read@.wf(),
            self@.index < self@.chosen.len(),
        ensures
            (Shown { run: r.0@, lines: texts(r.1@) }) == self@.after_decoded(read@),
            r.0@.wf(),
    {
        if read.request().is_some() {
            let mut run = self;
            run.phase = InventoryPhase::Decoded(read);
            return (run, no_lines());
        }
        match read.finish(self.color) {
            Ok(fru) => {
                let lines = print_fru(&fru, self.color);
                let next: usize = self.index + 1;
                self.move_to(next, lines)
            }
            Err(e) => self.unavailable(e.as_str()),
        }
    }

    /// Advances the command with an event, and says what is printed.
    pub fn advance(self, event: Event) -> (r: (InventoryRun, Vec<String>))
        requires
            self@.wf(),
        ensures
            (Shown { run: r.0@, lines: texts(r.1@) }) == self@.next(event@),
            r.0@.wf(),
    {
        let InventoryRun { args, color, records, frus, physical, chosen, index, phase } = self;
        match (phase, event) {
            (InventoryPhase::Device, Event::DeviceId(device)) => {
                let mut run = InventoryRun {
                    args,
                    color,
                    records,
                    frus,
                    physical,
                    chosen,
                    index,
                    phase: InventoryPhase::Finished,
                };
                match device {
                    Err(e) => run.fail(concat2("Get Device ID failed: ", e.as_str())),
                    Ok(device) => {
                        run.phase = InventoryPhase::Scan(SdrScan::new());
                        proof {
                            assert(ScanView::start().is_waiting());
                        }
                        (run, identity(&device, color))
                    }
                }
            }
            (InventoryPhase::Scan(scan), Event::Reply(reply)) => {
                let run = InventoryRun {
                    args,
                    color,
                    records,
                    frus,
                    physical,
                    chosen,
                    index,
                    phase: InventoryPhase::Finished,
                };
                run.after_scan(scan.advance(reply))
            }
            (InventoryPhase::Raw(read), Event::Reply(reply)) => {
                let run = InventoryRun {
                    args,
                    color,
                    records,
                    frus,
                    physical,
                    chosen,
                    index,
                    phase: InventoryPhase::Finished,
                };
                run.after_raw(read.advance(reply))
            }
            (InventoryPhase::Export(image), Event::Exported(result)) => {
                let run = InventoryRun {
                    args,
                    color,
                    records,
                    frus,
                    physical,
                    chosen,
                    index,
                    phase: InventoryPhase::Finished,
                };
                run.after_export(image, result)
            }
            (InventoryPhase::Decoded(read), Event::Reply(reply)) => {
                let run = InventoryRun {
                    args,
                    color,
                    records,
                    frus,
                    physical,
                    chosen,
                    index,
                    phase: InventoryPhase::Finished,
                };
                run.after_decoded(read.advance(reply))
            }
            (phase, _) => (
                InventoryRun { args, color, records, frus, physical, chosen, index, phase },
                no_lines(),
            ),
        }
    }
}

} // verus!
