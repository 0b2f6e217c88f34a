//! Sensor data records.
//!
//! The record layouts are decoded by `ipmi-rs`; this module holds the parts of a
//! record that the commands read, and the calls that obtain them.

use vstd::prelude::*;

use ipmi_rs::storage::sdr::event_reading_type_code::EventReadingTypeCodes as ParsedCodes;
use ipmi_rs::storage::sdr::record::InstancedSensor;
use ipmi_rs::storage::sdr::record::RecordContents as ParsedContents;
use ipmi_rs::storage::sdr::Record as ParsedRecord;
use ipmi_rs::storage::sdr::SensorType;

use crate::bytes::le16;
use crate::text::{dec, Chars};

verus! {

/// How a sensor reports: by thresholds, by discrete states, or in a way that
/// only its vendor knows.
#[derive(Clone, Copy, Debug, PartialEq, Eq, Structural)]
pub enum EventReadingTypeCodes {
    Unspecified,
    Threshold,
    DiscreteGeneric(u8),
    SensorSpecific,
    Oem(u8),
    Reserved(u8),
}

/// Which controller owns a sensor, and the sensor's number there.
#[derive(Clone, Copy, Debug, PartialEq, Eq, Structural)]
pub struct SensorKey {
    pub owner_id: u8,
    pub owner_channel: u8,
    pub owner_lun: u8,
    pub sensor_number: u8,
}

/// What every sensor record says of its sensor.
pub struct Sensor {
    pub ty: u8,
    pub name: String,
    pub event_code: EventReadingTypeCodes,
    pub key: SensorKey,
}

/// Where a FRU device is found. `fru_device` is the debug form of the device.
pub struct FruLocator {
    pub device_access_address: u8,
    pub fru_device: String,
    pub lun: u8,
    pub channel_number: u8,
    pub name: String,
}

/// The body of a record. A full sensor record keeps its bytes, from which
/// readings are converted.
pub enum RecordContents {
    FullSensor { sensor: Sensor, data: Vec<u8> },
    CompactSensor(Sensor),
    EventOnlySensor(Sensor),
    GenericDeviceLocator(String),
    FruDeviceLocator(FruLocator),
    McDeviceLocator(String),
    Unknown,
}

/// A sensor data record.
pub struct Record {
    pub id: u16,
    pub contents: RecordContents,
}

/// The kinds of record bodies.
#[derive(Clone, Copy, Debug, PartialEq, Eq, Structural)]
pub enum RecordKind {
    FullSensor,
    CompactSensor,
    EventOnlySensor,
    GenericDeviceLocator,
    FruDeviceLocator,
    McDeviceLocator,
    Unknown,
}

// ---------------------------------------------------------------------
// The layout of a record
// ---------------------------------------------------------------------

/// Whether `n` names a channel: 0 to 11, 14 or 15.
pub open spec fn is_channel(n: int) -> bool {
    (0 <= n <= 0xB) || n == 0xE || n == 0xF
}

/// Whether a record starts with a complete header that states its length.
pub open spec fn well_framed(data: Seq<u8>) -> bool {
    data.len() >= 5 && data.len() == 5 + data[4]
}

/// Whether the sensor key of a sensor record names a channel and a sensor.
pub open spec fn valid_key(data: Seq<u8>) -> bool {
    is_channel((data[6] / 16) as int) && data[7] != 0xFF
}

/// Whether decoding a record does not return: the decoder indexes past the end
/// of some truncated full sensor, compact sensor and FRU locator records, and
/// gives up on a compact sensor record with a reserved ID string modifier.
pub open spec fn undecodable(data: Seq<u8>) -> bool {
    well_framed(data) && {
        let body = data.len() - 5;
        ||| data[3] == 0x01 && (body == 15 || (body == 17 && valid_key(data)) || (body == 42
            && valid_key(data) && data[28] & 3 != 3))
        ||| data[3] == 0x02 && body >= 26 && valid_key(data) && (body == 26 || data[23] & 0x20
            != 0)
        ||| data[3] == 0x11 && 8 <= body <= 10
    }
}

/// The kind of record that the type byte of a header announces.
pub open spec fn kind_of(ty: u8) -> RecordKind {
    if ty == 0x01 {
        RecordKind::FullSensor
    } else if ty == 0x02 {
        RecordKind::CompactSensor
    } else if ty == 0x03 {
        RecordKind::EventOnlySensor
    } else if ty == 0x10 {
        RecordKind::GenericDeviceLocator
    } else if ty == 0x11 {
        RecordKind::FruDeviceLocator
    } else if ty == 0x12 {
        RecordKind::McDeviceLocator
    } else {
        RecordKind::Unknown
    }
}

/// The shortest decodable record of a kind.
pub open spec fn least_len(kind: RecordKind) -> int {
    match kind {
        RecordKind::FullSensor => 48,
        RecordKind::CompactSensor => 32,
        RecordKind::EventOnlySensor => 17,
        RecordKind::GenericDeviceLocator => 16,
        RecordKind::FruDeviceLocator => 16,
        RecordKind::McDeviceLocator => 16,
        RecordKind::Unknown => 5,
    }
}

/// Whether a kind is that of a sensor record.
pub open spec fn is_sensor_kind(kind: RecordKind) -> bool {
    kind == RecordKind::FullSensor || kind == RecordKind::CompactSensor || kind
        == RecordKind::EventOnlySensor
}

/// The event/reading type that a code byte stands for.
pub open spec fn codes_of(value: u8) -> EventReadingTypeCodes {
    if value == 0 {
        EventReadingTypeCodes::Unspecified
    } else if value == 1 {
        EventReadingTypeCodes::Threshold
    } else if value <= 0x0C {
        EventReadingTypeCodes::DiscreteGeneric(value)
    } else if value == 0x6F {
        EventReadingTypeCodes::SensorSpecific
    } else if 0x70 <= value <= 0x7F {
        EventReadingTypeCodes::Oem(value)
    } else {
        EventReadingTypeCodes::Reserved(value)
    }
}

/// The sensor key of a sensor record.
pub open spec fn key_of(data: Seq<u8>) -> SensorKey {
    SensorKey {
        owner_id: data[5],
        owner_channel: data[6] / 16,
        owner_lun: data[6] % 4,
        sensor_number: data[7],
    }
}

/// The sensor type byte of a sensor record.
pub open spec fn type_of(data: Seq<u8>) -> u8 {
    if data[3] == 0x03 {
        data[10]
    } else {
        data[12]
    }
}

/// The event/reading type byte of a sensor record.
pub open spec fn code_of(data: Seq<u8>) -> u8 {
    if data[3] == 0x03 {
        data[11]
    } else {
        data[13]
    }
}

/// The debug form of the device that a FRU locator record names.
pub open spec fn fru_device_debug(b: u8) -> Chars {
    if b >= 0x80 {
        "Physical(PhysicalFruDevice { i2c_address: "@ + dec((b / 2) as nat) + " })"@
    } else {
        "Logical(LogicalFruDevice { fru_device_id: "@ + dec(b as nat) + " })"@
    }
}

// ---------------------------------------------------------------------
// Calls into ipmi-rs
// ---------------------------------------------------------------------

/// Whether a record decodes: its kind, or why not.
pub uninterp spec fn decoded_kind(data: Seq<u8>) -> Result<RecordKind, Seq<char>>;

/// Whether a record decodes as one of the given kind.
pub open spec fn is_kind(data: Seq<u8>, kind: RecordKind) -> bool {
    decoded_kind(data) == Ok::<RecordKind, Seq<char>>(kind)
}

/// Whether a record decodes as a sensor record.
pub open spec fn is_sensor(data: Seq<u8>) -> bool {
    is_kind(data, RecordKind::FullSensor) || is_kind(data, RecordKind::CompactSensor) || is_kind(
        data,
        RecordKind::EventOnlySensor,
    )
}

/// Whether a record decodes as one that has an ID string.
pub open spec fn is_named(data: Seq<u8>) -> bool {
    decoded_kind(data) is Ok && !is_kind(data, RecordKind::Unknown)
}

/// The ID string of a decodable record.
pub uninterp spec fn decoded_name(data: Seq<u8>) -> Seq<char>;

/// Whether a machine can show the raw value `raw` of a full sensor record as
/// `text`. Which text it is depends on the machine's floating-point arithmetic.
pub uninterp spec fn reading_can_show(record: Seq<u8>, raw: u8, text: Seq<char>) -> bool;

/// The display name of a sensor type.
pub uninterp spec fn sensor_type_name(ty: u8) -> Seq<char>;

/// Why a record that is not well framed does not decode.
pub open spec fn framing_error(data: Seq<u8>) -> Chars {
    if data.len() < 5 {
        "NotEnoughData"@
    } else {
        "IncorrectRecordLength"@
    }
}

/// `ipmi_rs::storage::sdr::Record::parse`: decodes a record. The result is
/// named; a record that decodes is framed, has the kind that its type byte
/// announces and at least that kind's length, a sensor record has a valid key,
/// and the ID is the first two bytes. A framed record of an unknown type
/// decodes. The error is the debug form of the parser's error, which is stated
/// for a record that is not framed.
#[verifier::external_body]
fn parse_kind(data: &[u8]) -> (r: Result<(u16, RecordKind), String>)
    requires
        !undecodable(data@),
    ensures
        match r {
            Ok((id, kind)) => decoded_kind(data@) == Ok::<RecordKind, Seq<char>>(kind)
                && well_framed(data@) && kind == kind_of(data@[3]) && data@.len() >= least_len(kind)
                && (is_sensor_kind(kind) ==> valid_key(data@)) && id == le16(data@[0], data@[1]),
            Err(e) => decoded_kind(data@) == Err::<RecordKind, Seq<char>>(e@) && (if well_framed(
                data@,
            ) {
                kind_of(data@[3]) != RecordKind::Unknown
            } else {
                e@ == framing_error(data@)
            }),
        },
{
    let record = ParsedRecord::parse(data).map_err(|error| format!("{error:?}"))?;
    let kind = match record.contents {
        ParsedContents::FullSensor(_) => RecordKind::FullSensor,
        ParsedContents::CompactSensor(_) => RecordKind::CompactSensor,
        ParsedContents::EventOnlySensor(_) => RecordKind::EventOnlySensor,
        ParsedContents::GenericDeviceLocator(_) => RecordKind::GenericDeviceLocator,
        ParsedContents::FruDeviceLocator(_) => RecordKind::FruDeviceLocator,
        ParsedContents::McDeviceLocator(_) => RecordKind::McDeviceLocator,
        ParsedContents::Unknown { .. } => RecordKind::Unknown,
    };
    Ok((record.header.id.value(), kind))
}

/// `Record::id` of a decoded record, displayed: the ID string of a sensor or
/// locator record. The text is named; a record that does not decode, or is of
/// an unknown kind, has none.
#[verifier::external_body]
fn parse_name(data: &[u8]) -> (name: Option<String>)
    requires
        !undecodable(data@),
    ensures
        match name {
            Some(name) => is_named(data@) && name@ == decoded_name(data@),
            None => !is_named(data@),
        },
{
    let record = ParsedRecord::parse(data).ok()?;
    record.id().map(|id| id.to_string())
}

/// `InstancedSensor::key_data` of a decoded sensor record: the owner's address,
/// channel and logical unit, and the sensor's number, as the record has them.
#[verifier::external_body]
fn parse_key(data: &[u8]) -> (key: Option<SensorKey>)
    requires
        !undecodable(data@),
    ensures
        match key {
            Some(key) => is_sensor(data@) && key == key_of(data@),
            None => !is_sensor(data@),
        },
{
    let key = match ParsedRecord::parse(data).ok()?.contents {
        ParsedContents::FullSensor(sensor) => *sensor.key_data(),
        ParsedContents::CompactSensor(sensor) => *sensor.key_data(),
        ParsedContents::EventOnlySensor(sensor) => sensor.key,
        _ => return None,
    };
    Some(SensorKey {
        owner_id: key.owner_id.into(),
        owner_channel: key.owner_channel.value(),
        owner_lun: key.owner_lun.value(),
        sensor_number: key.sensor_number.get(),
    })
}

/// `RecordContents::sensor_type` of a decoded sensor record: its type byte.
#[verifier::external_body]
fn parse_type(data: &[u8]) -> (ty: Option<u8>)
    requires
        !undecodable(data@),
    ensures
        match ty {
            Some(ty) => is_sensor(data@) && ty == type_of(data@),
            None => !is_sensor(data@),
        },
{
    let record = ParsedRecord::parse(data).ok()?;
    record.contents.sensor_type().map(|ty| ty.into())
}

/// `InstancedSensor::event_reading_type_codes` of a decoded sensor record: what
/// its code byte stands for.
#[verifier::external_body]
fn parse_codes(data: &[u8]) -> (codes: Option<EventReadingTypeCodes>)
    requires
        !undecodable(data@),
    ensures
        match codes {
            Some(codes) => is_sensor(data@) && codes == codes_of(code_of(data@)),
            None => !is_sensor(data@),
        },
{
    Some(match match ParsedRecord::parse(data).ok()?.contents {
        ParsedContents::FullSensor(sensor) => *sensor.event_reading_type_codes(),
        ParsedContents::CompactSensor(sensor) => *sensor.event_reading_type_codes(),
        ParsedContents::EventOnlySensor(sensor) => sensor.event_reading_type_code,
        _ => return None,
    } {
        ParsedCodes::Unspecified => EventReadingTypeCodes::Unspecified,
        ParsedCodes::Threshold => EventReadingTypeCodes::Threshold,
        ParsedCodes::DiscreteGeneric(value) => EventReadingTypeCodes::DiscreteGeneric(value),
        ParsedCodes::SensorSpecific => EventReadingTypeCodes::SensorSpecific,
        ParsedCodes::Oem(value) => EventReadingTypeCodes::Oem(value),
        ParsedCodes::Reserved(value) => EventReadingTypeCodes::Reserved(value),
    })
}

/// The record key of a decoded FRU locator record: the seven-bit access
/// address, the debug form of the device, the logical unit and the channel
/// byte.
#[verifier::external_body]
fn parse_fru_key(data: &[u8]) -> (r: Option<(u8, String, u8, u8)>)
    requires
        !undecodable(data@),
    ensures
        match r {
            Some((address, device, lun, channel)) => is_kind(data@, RecordKind::FruDeviceLocator)
                && address == data@[5] / 2 && device@ == fru_device_debug(data@[6]) && lun == (data@[7]
                / 8) % 4 && channel == data@[8],
            None => !is_kind(data@, RecordKind::FruDeviceLocator),
        },
{
    match ParsedRecord::parse(data).ok()?.contents {
        ParsedContents::FruDeviceLocator(locator) => {
            let key = locator.record_key;
            let device = format!("{:?}", key.fru_device);
            Some((key.device_access_address, device, key.lun.value(), key.channel_number))
        }
        _ => None,
    }
}

/// `FullSensorRecord::display_reading`: the converted reading with its unit, or
/// nothing when the record states no analog format (both top bits of its units
/// byte set) or is no full sensor record. The text is one that a machine can
/// show of this record and raw value; which one is not stated, since it is
/// computed with `f32::powf`, whose precision varies from machine to machine.
#[verifier::external_body]
pub(crate) fn display_reading(data: &[u8], raw: u8) -> (text: Option<String>)
    requires
        !undecodable(data@),
    ensures
        text is Some == (is_kind(data@, RecordKind::FullSensor) && data@[20] < 0xC0),
        text is Some ==> reading_can_show(data@, raw, text->0@),
{
    ParsedRecord::parse(data).ok()?.full_sensor()?.display_reading(raw)
}

/// `Display` of `ipmi_rs::storage::sdr::SensorType`: the name of a sensor type.
/// The text is named.
#[verifier::external_body]
pub(crate) fn sensor_type_text(ty: u8) -> (name: String)
    ensures
        name@ == sensor_type_name(ty),
{
    SensorType::from(ty).to_string()
}

// ---------------------------------------------------------------------
// Records
// ---------------------------------------------------------------------

/// What a sensor record says, with its texts as characters.
pub ghost struct SensorView {
    pub ty: u8,
    pub name: Chars,
    pub event_code: EventReadingTypeCodes,
    pub key: SensorKey,
}

/// What a FRU locator says, with its texts as characters.
pub ghost struct FruLocatorView {
    pub device_access_address: u8,
    pub fru_device: Chars,
    pub lun: u8,
    pub channel_number: u8,
    pub name: Chars,
}

/// What the body of a record says.
pub ghost enum ContentsView {
    FullSensor { sensor: SensorView, data: Seq<u8> },
    CompactSensor(SensorView),
    EventOnlySensor(SensorView),
    GenericDeviceLocator(Chars),
    FruDeviceLocator(FruLocatorView),
    McDeviceLocator(Chars),
    Unknown,
}

/// What a record says.
pub ghost struct RecordView {
    pub id: u16,
    pub contents: ContentsView,
}

impl View for Sensor {
    type V = SensorView;

    open spec fn view(&self) -> SensorView {
        SensorView { ty: self.ty, name: self.name@, event_code: self.event_code, key: self.key }
    }
}

impl View for FruLocator {
    type V = FruLocatorView;

    open spec fn view(&self) -> FruLocatorView {
        FruLocatorView {
            device_access_address: self.device_access_address,
            fru_device: self.fru_device@,
            lun: self.lun,
            channel_number: self.channel_number,
            name: self.name@,
        }
    }
}

impl View for RecordContents {
    type V = ContentsView;

    open spec fn view(&self) -> ContentsView {
        match *self {
            RecordContents::FullSensor { sensor, data } => ContentsView::FullSensor {
                sensor: sensor@,
                data: data@,
            },
            RecordContents::CompactSensor(sensor) => ContentsView::CompactSensor(sensor@),
            RecordContents::EventOnlySensor(sensor) => ContentsView::EventOnlySensor(sensor@),
            RecordContents::GenericDeviceLocator(name) => ContentsView::GenericDeviceLocator(name@),
            RecordContents::FruDeviceLocator(locator) => ContentsView::FruDeviceLocator(locator@),
            RecordContents::McDeviceLocator(name) => ContentsView::McDeviceLocator(name@),
            RecordContents::Unknown => ContentsView::Unknown,
        }
    }
}

impl View for Record {
    type V = RecordView;

    open spec fn view(&self) -> RecordView {
        RecordView { id: self.id, contents: self.contents@ }
    }
}

impl RecordView {
    /// A full sensor record keeps bytes that can be decoded again.
    pub open spec fn wf(self) -> bool {
        match self.contents {
            ContentsView::FullSensor { sensor, data } => !undecodable(data) && is_kind(
                data,
                RecordKind::FullSensor,
            ),
            _ => true,
        }
    }
}

/// What a list of records says.
pub open spec fn record_views(records: Seq<Record>) -> Seq<RecordView> {
    Seq::new(records.len(), |i: int| records[i]@)
}

/// Every record of a list is well formed.
pub open spec fn all_wf(records: Seq<RecordView>) -> bool {
    forall|i: int| 0 <= i < records.len() ==> (#[trigger] records[i]).wf()
}

/// The sensor that a sensor record describes.
pub open spec fn sensor_of(data: Seq<u8>) -> SensorView {
    SensorView {
        ty: type_of(data),
        name: decoded_name(data),
        event_code: codes_of(code_of(data)),
        key: key_of(data),
    }
}

/// What the body of a decodable record of a given kind says.
pub open spec fn contents_of(data: Seq<u8>, kind: RecordKind) -> ContentsView {
    match kind {
        RecordKind::FullSensor => ContentsView::FullSensor { sensor: sensor_of(data), data },
        RecordKind::CompactSensor => ContentsView::CompactSensor(sensor_of(data)),
        RecordKind::EventOnlySensor => ContentsView::EventOnlySensor(sensor_of(data)),
        RecordKind::GenericDeviceLocator => ContentsView::GenericDeviceLocator(decoded_name(data)),
        RecordKind::FruDeviceLocator => ContentsView::FruDeviceLocator(
            FruLocatorView {
                device_access_address: data[5] / 2,
                fru_device: fru_device_debug(data[6]),
                lun: (data[7] / 8) % 4,
                channel_number: data[8],
                name: decoded_name(data),
            },
        ),
        RecordKind::McDeviceLocator => ContentsView::McDeviceLocator(decoded_name(data)),
        RecordKind::Unknown => ContentsView::Unknown,
    }
}

/// What a record says, or why it does not decode.
pub open spec fn record_of(data: Seq<u8>) -> Result<RecordView, Chars> {
    match decoded_kind(data) {
        Ok(kind) => Ok(
            RecordView { id: le16(data[0], data[1]), contents: contents_of(data, kind) },
        ),
        Err(e) => Err(e),
    }
}

/// Whether decoding the record returns.
pub fn is_decodable(data: &[u8]) -> (r: bool)
    ensures
        r == !undecodable(data@),
{
    if data.len() < 5 || data.len() - 5 != data[4] as usize {
        return true;
    }
    let body: usize = data.len() - 5;
    if data[3] == 0x01 {
        if body == 15 {
            false
        } else if body == 17 {
            !has_valid_key(data)
        } else if body == 42 {
            !(has_valid_key(data) && data[28] & 3 != 3)
        } else {
            true
        }
    } else if data[3] == 0x02 {
        !(body >= 26 && has_valid_key(data) && (body == 26 || data[23] & 0x20 != 0))
    } else if data[3] == 0x11 {
        !(8 <= body && body <= 10)
    } else {
        true
    }
}

fn has_valid_key(data: &[u8]) -> (r: bool)
    requires
        data@.len() >= 8,
    ensures
        r == valid_key(data@),
{
    let channel: u8 = data[6] / 16;
    channel != 0xC && channel != 0xD && data[7] != 0xFF
}

fn parse_sensor(data: &[u8]) -> (sensor: Sensor)
    requires
        !undecodable(data@),
        is_sensor(data@),
    ensures
        sensor@ == sensor_of(data@),
{
    Sensor {
        ty: parse_type(data).unwrap(),
        name: parse_name(data).unwrap(),
        event_code: parse_codes(data).unwrap(),
        key: parse_key(data).unwrap(),
    }
}

impl Record {
    /// Decodes a record. A record that is not well framed is rejected, and one
    /// of an unknown type is kept.
    pub fn parse(data: &[u8]) -> (r: Result<Record, String>)
        requires
            !undecodable(data@),
        ensures
            match r {
                Ok(record) => record_of(data@) == Ok::<RecordView, Chars>(record@) && record@.wf()
                    && well_framed(data@),
                Err(e) => record_of(data@) == Err::<RecordView, Chars>(e@) && (!well_framed(data@)
                    ==> e@ == framing_error(data@)),
            },
            well_framed(data@) && kind_of(data@[3]) == RecordKind::Unknown ==> r is Ok
                && r->Ok_0@.contents is Unknown,
    {
        let (id, kind) = match parse_kind(data) {
            Ok(found) => found,
            Err(e) => {
                return Err(e);
            }
        };
        let contents = match kind {
            RecordKind::FullSensor => {
                let sensor = parse_sensor(data);
                let kept = crate::bytes::copy_range(data, 0, data.len());
                proof {
                    assert(kept@ =~= data@);
                }
                RecordContents::FullSensor { sensor, data: kept }
            }
            RecordKind::CompactSensor => RecordContents::CompactSensor(parse_sensor(data)),
            RecordKind::EventOnlySensor => RecordContents::EventOnlySensor(parse_sensor(data)),
            RecordKind::GenericDeviceLocator => RecordContents::GenericDeviceLocator(
                parse_name(data).unwrap(),
            ),
            RecordKind::FruDeviceLocator => {
                let (device_access_address, fru_device, lun, channel_number) = parse_fru_key(
                    data,
                ).unwrap();
                RecordContents::FruDeviceLocator(
                    FruLocator {
                        device_access_address,
                        fru_device,
                        lun,
                        channel_number,
                        name: parse_name(data).unwrap(),
                    },
                )
            }
            RecordKind::McDeviceLocator => RecordContents::McDeviceLocator(
                parse_name(data).unwrap(),
            ),
            RecordKind::Unknown => RecordContents::Unknown,
        };
        Ok(Record { id, contents })
    }
}

} // verus!
