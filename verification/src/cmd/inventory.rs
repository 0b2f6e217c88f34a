//! `inventory` — BMC identity and all discoverable FRU inventory areas.

use vstd::prelude::*;

use crate::cmd::{manufacturer_name, vendor_name};
use crate::conn::{concat2, concat3};
use crate::dialog::DeviceId;
use crate::fru_read::FruTarget;
use crate::number::{digit_worth, lemma_dec_reads_back, parse_unsigned, unsigned};
use crate::sdr::{
    fru_device_debug, is_channel, record_views, ContentsView, FruLocator, FruLocatorView, Record, RecordContents,
    RecordView,
};
use crate::text::{
    after_first, chars_of, copy_chars, dec, dec_padded_text, dec_text, hex, hex_text,
    lemma_after_first, matches_at,
    occurs_at, push_text, text_after, text_of, texts, zero_padded, Chars,
};
use crate::ui::{header, header_lines, kv, kv_line};

verus! {

// ---------------------------------------------------------------------
// Identity
// ---------------------------------------------------------------------

/// How a manufacturer is shown: its name where it is known, and its number.
pub open spec fn vendor_of(id: u32) -> Chars {
    let number = "0x"@ + hex(id as nat, 6);
    match vendor_name(id) {
        Some(name) => name + " ("@ + number + ")"@,
        None => number,
    }
}

pub fn vendor_text(id: u32) -> (s: String)
    ensures
        s@ == vendor_of(id),
{
    let number = concat2("0x", hex_text(id as u64, 6).as_str());
    match manufacturer_name(id) {
        Some(name) => {
            let mut s = concat3(name, " (", number.as_str());
            s.append(")");
            s
        }
        None => number,
    }
}

/// A firmware revision: the minor part has two digits.
pub open spec fn firmware_of(major: u8, minor: u8) -> Chars {
    dec(major as nat) + "."@ + zero_padded(dec(minor as nat), 2)
}

pub fn firmware_text(major: u8, minor: u8) -> (s: String)
    ensures
        s@ == firmware_of(major, minor),
{
    concat3(
        dec_text(major as u64).as_str(),
        ".",
        dec_padded_text(minor as u64, 2).as_str(),
    )
}

/// The identity of the management controller.
pub open spec fn identity_lines(device: DeviceId, color: bool) -> Seq<Chars> {
    header_lines("Management Controller"@, color).push(
        kv_line("Manufacturer"@, vendor_of(device.manufacturer_id), 18, color),
    ).push(
        kv_line("Product ID"@, "0x"@ + hex(device.product_id as nat, 4), 18, color),
    ).push(
        kv_line("Device ID"@, "0x"@ + hex(device.device_id as nat, 2), 18, color),
    ).push(
        kv_line("Device revision"@, dec(device.device_revision as nat), 18, color),
    ).push(
        kv_line(
            "Firmware"@,
            firmware_of(device.major_fw_revision, device.minor_fw_revision),
            18,
            color,
        ),
    )
}

pub fn identity(device: &DeviceId, color: bool) -> (lines: Vec<String>)
    ensures
        texts(lines@) == identity_lines(*device, color),
{
    let mut lines = header("Management Controller", color);
    push_text(
        &mut lines,
        kv("Manufacturer", vendor_text(device.manufacturer_id).as_str(), 18, color),
    );
    let product = concat2("0x", hex_text(device.product_id as u64, 4).as_str());
    push_text(&mut lines, kv("Product ID", product.as_str(), 18, color));
    let id = concat2("0x", hex_text(device.device_id as u64, 2).as_str());
    push_text(&mut lines, kv("Device ID", id.as_str(), 18, color));
    push_text(
        &mut lines,
        kv("Device revision", dec_text(device.device_revision as u64).as_str(), 18, color),
    );
    let firmware = firmware_text(device.major_fw_revision, device.minor_fw_revision);
    push_text(&mut lines, kv("Firmware", firmware.as_str(), 18, color));
    lines
}

// ---------------------------------------------------------------------
// Locators
// ---------------------------------------------------------------------

/// What a FRU locator names.
#[derive(Clone, Copy, Debug, PartialEq, Eq, Structural)]
pub enum LocatorDevice {
    /// A logical device that is read by its FRU ID.
    Logical(u8),
    /// A device on a private bus, by its I2C address.
    Physical(u8),
}

/// The characters up to the first blank or closing brace.
pub open spec fn token(s: Chars) -> Chars
    decreases s.len(),
{
    if s.len() == 0 || s[0] == ' ' || s[0] == '}' {
        seq![]
    } else {
        seq![s[0]] + token(s.skip(1))
    }
}

proof fn lemma_token(s: Chars, i: int)
    requires
        0 <= i <= s.len(),
        forall|j: int| 0 <= j < i ==> s[j] != ' ' && s[j] != '}',
        i < s.len() ==> s[i] == ' ' || s[i] == '}',
    ensures
        token(s) == s.take(i),
    decreases s.len(),
{
    if i > 0 {
        lemma_token(s.skip(1), i - 1);
        assert(seq![s[0]] + s.skip(1).take(i - 1) =~= s.take(i));
    } else {
        assert(s.take(0) =~= seq![]);
    }
}

/// The number behind `marker` in the debug form of a device.
pub open spec fn marked_number(debug: Chars, marker: Chars) -> Option<nat> {
    match after_first(debug, marker) {
        Some(rest) => unsigned(token(rest), false, 255),
        None => None,
    }
}

/// The device that a debug form describes, if it has the known shape.
pub open spec fn device_of(debug: Chars) -> Option<LocatorDevice> {
    if occurs_at(debug, "Logical("@, 0) {
        match marked_number(debug, "fru_device_id: "@) {
            Some(n) => Some(LocatorDevice::Logical(n as u8)),
            None => None,
        }
    } else if occurs_at(debug, "Physical("@, 0) {
        match marked_number(debug, "i2c_address: "@) {
            Some(n) => Some(LocatorDevice::Physical(n as u8)),
            None => None,
        }
    } else {
        None
    }
}

fn number_after(debug: &Vec<char>, marker: &str) -> (r: Option<u8>)
    ensures
        match r {
            Some(n) => marked_number(debug@, marker@) == Some(n as nat),
            None => marked_number(debug@, marker@) is None,
        },
{
    let rest = match text_after(debug.as_slice(), chars_of(marker).as_slice()) {
        Some(rest) => rest,
        None => {
            return None;
        }
    };
    let mut i: usize = 0;
    while i < rest.len() && rest[i] != ' ' && rest[i] != '}'
        invariant
            i <= rest.len(),
            forall|j: int| 0 <= j < i ==> rest@[j] != ' ' && rest@[j] != '}',
        decreases rest.len() - i,
    {
        i = i + 1;
    }
    proof {
        lemma_token(rest@, i as int);
    }
    let word = text_of(copy_chars(rest.as_slice(), 0, i).as_slice());
    proof {
        assert(word@ =~= rest@.take(i as int));
    }
    match parse_unsigned(word.as_str(), false, 255) {
        Some(n) => Some(n as u8),
        None => None,
    }
}

/// `ipmi-rs` exposes the device of a FRU locator publicly but does not re-export
/// its type, so it is read from its debug form.
pub fn locator_device(debug: &str) -> (r: Option<LocatorDevice>)
    ensures
        r == device_of(debug@),
{
    let chars = chars_of(debug);
    if matches_at(chars.as_slice(), chars_of("Logical(").as_slice(), 0) {
        match number_after(&chars, "fru_device_id: ") {
            Some(n) => Some(LocatorDevice::Logical(n)),
            None => None,
        }
    } else if matches_at(chars.as_slice(), chars_of("Physical(").as_slice(), 0) {
        match number_after(&chars, "i2c_address: ") {
            Some(n) => Some(LocatorDevice::Physical(n)),
            None => None,
        }
    } else {
        None
    }
}

proof fn lemma_marked_number(head: Chars, marker: Chars, n: u8)
    requires
        marker.len() >= 2,
        forall|j: int| 0 <= j < head.len() ==> #[trigger] head[j] != marker[0] || (j + 1
            < head.len() && head[j + 1] != marker[1]),
    ensures
        marked_number(head + marker + dec(n as nat) + " })"@, marker) == Some(n as nat),
{
    let tail = dec(n as nat) + " })"@;
    let debug = head + marker + dec(n as nat) + " })"@;
    let at = head.len() as int;
    assert(debug =~= head + marker + tail);
    assert forall|j: int| 0 <= j < at implies !occurs_at(debug, marker, j) by {
        assert(debug[j] == head[j]);
        if occurs_at(debug, marker, j) {
            assert(debug.subrange(j, j + marker.len())[0] == debug[j]);
            assert(debug.subrange(j, j + marker.len())[1] == debug[j + 1]);
        }
    }
    assert(debug.subrange(at, at + marker.len()) =~= marker);
    lemma_after_first(debug, marker, at);
    assert(debug.skip(at + marker.len()) =~= tail);
    lemma_dec_reads_back(n as nat);
    reveal_strlit(" })");
    let digits = dec(n as nat);
    assert forall|j: int| 0 <= j < digits.len() implies tail[j] != ' ' && tail[j] != '}' by {
        assert(digit_worth(digits[j], false) is Some);
    }
    lemma_token(tail, digits.len() as int);
    assert(tail.take(digits.len() as int) =~= digits);
    assert(digit_worth(digits[0], false) is Some);
}

/// Every device that a FRU locator record can name is recognized by its debug
/// form.
pub proof fn law_locators_are_recognized(b: u8)
    ensures
        device_of(fru_device_debug(b)) == Some(
            if b >= 0x80 {
                LocatorDevice::Physical(b / 2)
            } else {
                LocatorDevice::Logical(b)
            },
        ),
{
    reveal_strlit("Logical(");
    reveal_strlit("Physical(");
    let debug = fru_device_debug(b);
    if b >= 0x80 {
        let head = "Physical(PhysicalFruDevice { "@;
        let marker = "i2c_address: "@;
        reveal_strlit("Physical(PhysicalFruDevice { ");
        reveal_strlit("i2c_address: ");
        reveal_strlit("Physical(PhysicalFruDevice { i2c_address: ");
        assert(head + marker =~= "Physical(PhysicalFruDevice { i2c_address: "@);
        lemma_marked_number(head, marker, b / 2);
        assert(debug.subrange(0, 9) =~= "Physical("@);
        assert(debug[0] == 'P');
        assert(debug.subrange(0, 8)[0] == debug[0]);
    } else {
        let head = "Logical(LogicalFruDevice { "@;
        let marker = "fru_device_id: "@;
        reveal_strlit("Logical(LogicalFruDevice { ");
        reveal_strlit("fru_device_id: ");
        reveal_strlit("Logical(LogicalFruDevice { fru_device_id: ");
        assert(head + marker =~= "Logical(LogicalFruDevice { fru_device_id: "@);
        lemma_marked_number(head, marker, b);
        assert(debug.subrange(0, 8) =~= "Logical("@);
    }
}

/// A logical FRU device, and where it was found.
pub struct LocatedFru {
    pub id: u8,
    pub name: String,
    pub target: Option<FruTarget>,
    pub location: String,
}

/// A logical FRU device, with texts as characters.
pub ghost struct LocatedView {
    pub id: u8,
    pub name: Chars,
    pub target: Option<FruTarget>,
    pub location: Chars,
}

impl View for LocatedFru {
    type V = LocatedView;

    open spec fn view(&self) -> LocatedView {
        LocatedView {
            id: self.id,
            name: self.name@,
            target: self.target,
            location: self.location@,
        }
    }
}

/// A FRU device that is not read directly.
pub struct PhysicalFru {
    pub name: String,
    pub address: u8,
    pub channel: u8,
}

/// A physical FRU device, with texts as characters.
pub ghost struct PhysicalView {
    pub name: Chars,
    pub address: u8,
    pub channel: u8,
}

impl View for PhysicalFru {
    type V = PhysicalView;

    open spec fn view(&self) -> PhysicalView {
        PhysicalView { name: self.name@, address: self.address, channel: self.channel }
    }
}

pub open spec fn fru_views(frus: Seq<LocatedFru>) -> Seq<LocatedView> {
    Seq::new(frus.len(), |i: int| frus[i]@)
}

pub open spec fn physical_views(physical: Seq<PhysicalFru>) -> Seq<PhysicalView> {
    Seq::new(physical.len(), |i: int| physical[i]@)
}

/// The FRU devices that were found.
pub ghost struct Found {
    pub frus: Seq<LocatedView>,
    pub physical: Seq<PhysicalView>,
}

/// Before the repository is read there is the BMC's own primary FRU.
pub open spec fn found_first() -> Found {
    Found {
        frus: seq![
            LocatedView { id: 0, name: "Primary FRU"@, target: None, location: "BMC"@ },
        ],
        physical: seq![],
    }
}

/// Whether a logical device is listed already: same address, channel and ID.
pub open spec fn is_listed(frus: Seq<LocatedView>, address: u8, channel: u8, id: u8) -> bool {
    exists|i: int|
        0 <= i < frus.len() && (#[trigger] frus[i]).id == id && frus[i].target is Some
            && frus[i].target->0.address == address && frus[i].target->0.channel == channel
}

/// The devices after one more locator. The locator of the BMC's own FRU 0 only
/// names the primary FRU; a logical device that is listed already is not listed
/// again.
pub open spec fn with_locator(found: Found, locator: FruLocatorView) -> Result<Found, Chars> {
    match device_of(locator.fru_device) {
        Some(LocatorDevice::Logical(id)) => {
            let channel = locator.channel_number & 0x0F;
            let address = locator.device_access_address << 1;
            if !is_channel(channel as int) {
                Err("FRU locator contains an invalid channel"@)
            } else if address == 0x20 && channel == 0 && id == 0 {
                Ok(
                    Found {
                        frus: found.frus.update(
                            0,
                            LocatedView { name: locator.name, ..found.frus[0] },
                        ),
                        ..found
                    },
                )
            } else if is_listed(found.frus, address, channel, id) {
                Ok(found)
            } else {
                Ok(
                    Found {
                        frus: found.frus.push(
                            LocatedView {
                                id,
                                name: locator.name,
                                target: Some(FruTarget { address, channel, lun: locator.lun }),
                                location: "IPMB 0x"@ + hex(address as nat, 2) + ", channel "@ + dec(
                                    channel as nat,
                                ),
                            },
                        ),
                        ..found
                    },
                )
            }
        },
        Some(LocatorDevice::Physical(address)) => Ok(
            Found {
                physical: found.physical.push(
                    PhysicalView { name: locator.name, address, channel: locator.channel_number },
                ),
                ..found
            },
        ),
        None => Ok(
            Found {
                physical: found.physical.push(
                    PhysicalView {
                        name: locator.name + " (unrecognized locator)"@,
                        address: 0,
                        channel: locator.channel_number,
                    },
                ),
                ..found
            },
        ),
    }
}

/// The FRU devices that the records of a repository locate.
pub open spec fn located(records: Seq<RecordView>) -> Result<Found, Chars>
    decreases records.len(),
{
    if records.len() == 0 {
        Ok(found_first())
    } else {
        match located(records.drop_last()) {
            Err(e) => Err(e),
            Ok(found) => match records.last().contents {
                ContentsView::FruDeviceLocator(locator) => with_locator(found, locator),
                _ => Ok(found),
            },
        }
    }
}

proof fn lemma_located(records: Seq<RecordView>)
    ensures
        located(records) is Ok ==> located(records)->Ok_0.frus.len() > 0,
    decreases records.len(),
{
    if records.len() > 0 {
        lemma_located(records.drop_last());
    }
}

/// An error in a prefix of the records is the error of all of them.
proof fn lemma_located_prefix(records: Seq<RecordView>, k: int)
    requires
        0 <= k <= records.len(),
        located(records.take(k)) is Err,
    ensures
        located(records) == located(records.take(k)),
    decreases records.len() - k,
{
    if k < records.len() {
        assert(records.take(k + 1).drop_last() =~= records.take(k));
        lemma_located_prefix(records, k + 1);
    } else {
        assert(records.take(k) =~= records);
    }
}

fn listed(frus: &Vec<LocatedFru>, address: u8, channel: u8, id: u8) -> (r: bool)
    ensures
        r == is_listed(fru_views(frus@), address, channel, id),
{
    let ghost views = fru_views(frus@);
    let mut i: usize = 0;
    while i < frus.len()
        invariant
            i <= frus.len(),
            views == fru_views(frus@),
            forall|j: int|
                0 <= j < i ==> !((#[trigger] views[j]).id == id && views[j].target is Some
                    && views[j].target->0.address == address && views[j].target->0.channel
                    == channel),
        decreases frus.len() - i,
    {
        proof {
            assert(views[i as int] == frus@[i as int]@);
        }
        if let Some(target) = frus[i].target {
            if frus[i].id == id && target.address == address && target.channel == channel {
                return true;
            }
        }
        i = i + 1;
    }
    false
}

/// Adds what one locator names.
fn add_locator(
    frus: Vec<LocatedFru>,
    physical: Vec<PhysicalFru>,
    locator: &FruLocator,
) -> (r: Result<(Vec<LocatedFru>, Vec<PhysicalFru>), String>)
    requires
        frus@.len() > 0,
    ensures
        match r {
            Ok((f, p)) => with_locator(
                Found { frus: fru_views(frus@), physical: physical_views(physical@) },
                locator@,
            ) == Ok::<Found, Chars>(
                Found { frus: fru_views(f@), physical: physical_views(p@) },
            ),
            Err(e) => with_locator(
                Found { frus: fru_views(frus@), physical: physical_views(physical@) },
                locator@,
            ) == Err::<Found, Chars>(e@),
        },
{
    let ghost before = fru_views(frus@);
    let ghost before_physical = physical_views(physical@);
    let mut frus = frus;
    let mut physical = physical;
    match locator_device(locator.fru_device.as_str()) {
        Some(LocatorDevice::Logical(id)) => {
            let channel: u8 = locator.channel_number & 0x0F;
            let address: u8 = locator.device_access_address << 1;
            proof {
                let c = locator.channel_number;
                assert(c & 0x0F <= 0x0F) by (bit_vector);
            }
            if channel == 0xC || channel == 0xD {
                return Err("FRU locator contains an invalid channel".to_owned());
            }
            if address == 0x20 && channel == 0 && id == 0 {
                frus[0].name = locator.name.clone();
                proof {
                    assert(fru_views(frus@) =~= before.update(
                        0,
                        LocatedView { name: locator.name@, ..before[0] },
                    ));
                }
            } else if !listed(&frus, address, channel, id) {
                let mut location = concat3(
                    "IPMB 0x",
                    hex_text(address as u64, 2).as_str(),
                    ", channel ",
                );
                location.append(dec_text(channel as u64).as_str());
                let found = LocatedFru {
                    id,
                    name: locator.name.clone(),
                    target: Some(FruTarget { address, channel, lun: locator.lun }),
                    location,
                };
                frus.push(found);
                proof {
                    assert(fru_views(frus@) =~= before.push(found@));
                }
            }
        }
        Some(LocatorDevice::Physical(address)) => {
            let found = PhysicalFru {
                name: locator.name.clone(),
                address,
                channel: locator.channel_number,
            };
            physical.push(found);
            proof {
                assert(physical_views(physical@) =~= before_physical.push(found@));
            }
        }
        None => {
            let found = PhysicalFru {
                name: concat2(locator.name.as_str(), " (unrecognized locator)"),
                address: 0,
                channel: locator.channel_number,
            };
            physical.push(found);
            proof {
                assert(physical_views(physical@) =~= before_physical.push(found@));
            }
        }
    }
    Ok((frus, physical))
}

/// Finds the FRU devices that the records of a repository locate.
pub fn locate(records: &Vec<Record>) -> (r: Result<(Vec<LocatedFru>, Vec<PhysicalFru>), String>)
    ensures
        match r {
            Ok((frus, physical)) => located(record_views(records@)) == Ok::<Found, Chars>(
                Found { frus: fru_views(frus@), physical: physical_views(physical@) },
            ) && frus@.len() > 0,
            Err(e) => located(record_views(records@)) == Err::<Found, Chars>(e@),
        },
{
    let ghost views = record_views(records@);
    let mut frus: Vec<LocatedFru> = Vec::new();
    frus.push(
        LocatedFru {
            id: 0,
            name: "Primary FRU".to_owned(),
            target: None,
            location: "BMC".to_owned(),
        },
    );
    let mut physical: Vec<PhysicalFru> = Vec::new();
    let mut i: usize = 0;
    proof {
        assert(views.take(0) =~= seq![]);
        assert(fru_views(frus@) =~= found_first().frus);
        assert(physical_views(physical@) =~= found_first().physical);
    }
    while i < records.len()
        invariant
            i <= records.len(),
            views == record_views(records@),
            frus@.len() > 0,
            located(views.take(i as int)) == Ok::<Found, Chars>(
                Found { frus: fru_views(frus@), physical: physical_views(physical@) },
            ),
        decreases records.len() - i,
    {
        proof {
            assert(views.take(i + 1).drop_last() =~= views.take(i as int));
            assert(views.take(i + 1).last() == records@[i as int]@);
            lemma_located(views.take(i + 1));
        }
        if let RecordContents::FruDeviceLocator(locator) = &records[i].contents {
            match add_locator(frus, physical, locator) {
                Ok((f, p)) => {
                    frus = f;
                    physical = p;
                    proof {
                        assert(fru_views(frus@).len() == frus@.len());
                    }
                }
                Err(e) => {
                    proof {
                        lemma_located_prefix(views, i + 1);
                    }
                    return Err(e);
                }
            }
        }
        i = i + 1;
    }
    proof {
        assert(views.take(views.len() as int) =~= views);
    }
    Ok((frus, physical))
}

/// No logical device is listed twice: two listed devices on the IPMB differ in
/// address, channel or ID.
pub open spec fn all_distinct(frus: Seq<LocatedView>) -> bool {
    forall|i: int, j: int|
        0 <= i < j < frus.len() && (#[trigger] frus[i]).target is Some && (
        #[trigger] frus[j]).target is Some ==> !(frus[i].id == frus[j].id
            && frus[i].target->0.address == frus[j].target->0.address && frus[i].target->0.channel
            == frus[j].target->0.channel)
}

/// The primary FRU comes first, and no logical device is listed twice.
pub proof fn law_devices_are_distinct(records: Seq<RecordView>)
    requires
        located(records) is Ok,
    ensures
        located(records)->Ok_0.frus.len() > 0,
        located(records)->Ok_0.frus[0].id == 0,
        located(records)->Ok_0.frus[0].target is None,
        all_distinct(located(records)->Ok_0.frus),
    decreases records.len(),
{
    if records.len() > 0 {
        law_devices_are_distinct(records.drop_last());
        let before = located(records.drop_last())->Ok_0.frus;
        let after = located(records)->Ok_0.frus;
        if after.len() > before.len() {
            let new = after.last();
            assert forall|i: int, j: int|
                0 <= i < j < after.len() && (#[trigger] after[i]).target is Some && (
                #[trigger] after[j]).target is Some implies !(after[i].id == after[j].id
                && after[i].target->0.address == after[j].target->0.address
                && after[i].target->0.channel == after[j].target->0.channel) by {
                if j == after.len() - 1 {
                    assert(before[i] == after[i]);
                    assert(!is_listed(
                        before,
                        new.target->0.address,
                        new.target->0.channel,
                        new.id,
                    ));
                } else {
                    assert(before[i] == after[i] && before[j] == after[j]);
                }
            }
        } else {
            assert forall|i: int, j: int|
                0 <= i < j < after.len() && (#[trigger] after[i]).target is Some && (
                #[trigger] after[j]).target is Some implies !(after[i].id == after[j].id
                && after[i].target->0.address == after[j].target->0.address
                && after[i].target->0.channel == after[j].target->0.channel) by {
                assert(before[j].target is Some && before[j] == after[j]);
                if i > 0 {
                    assert(before[i] == after[i]);
                }
            }
        }
    }
}

} // verus!
