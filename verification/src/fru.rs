//! Reading and parsing IPMI Platform Management FRU Information.
//!
//! FRU data is fetched with the Storage netfn "Get FRU Inventory Area Info"
//! (0x10) and "Read FRU Data" (0x11) commands, then decoded according to the
//! "Platform Management FRU Information Storage Definition".

use vstd::prelude::*;

use crate::bytes::{le32, u32_le};
use crate::calendar::{civil_from_days, date_of, day_number, lemma_date_of, Date};
use crate::conn::{concat2, concat3};
use crate::text::{
    dec, dec_padded_text, digit, digit_char, hex, hex_dump, hex_dump_text, hex_text, trim, trimmed,
    zero_padded, Chars,
};
use crate::ui::{dim, dimmed};

verus! {

pub const CMD_GET_FRU_AREA_INFO: u8 = 0x10;

pub const CMD_READ_FRU_DATA: u8 = 0x11;

/// The most bytes that one read asks for: within conservative IPMB
/// response-size limits. Sparse reads, rather than a larger chunk, provide the
/// significant latency reduction.
pub const FRU_CHUNK: usize = 16;

/// What an optional text says.
pub open spec fn opt(s: Option<String>) -> Option<Chars> {
    match s {
        Some(s) => Some(s@),
        None => None,
    }
}

/// Decoded contents of a single FRU device.
pub struct Fru {
    pub chassis: ChassisInfo,
    pub board: BoardInfo,
    pub product: ProductInfo,
}

pub struct ChassisInfo {
    pub chassis_type: Option<String>,
    pub part_number: Option<String>,
    pub serial: Option<String>,
}

pub struct BoardInfo {
    pub mfg_date: Option<String>,
    pub manufacturer: Option<String>,
    pub product_name: Option<String>,
    pub serial: Option<String>,
    pub part_number: Option<String>,
}

pub struct ProductInfo {
    pub manufacturer: Option<String>,
    pub product_name: Option<String>,
    pub part_number: Option<String>,
    pub version: Option<String>,
    pub serial: Option<String>,
    pub asset_tag: Option<String>,
}

pub ghost struct ChassisView {
    pub chassis_type: Option<Chars>,
    pub part_number: Option<Chars>,
    pub serial: Option<Chars>,
}

pub ghost struct BoardView {
    pub mfg_date: Option<Chars>,
    pub manufacturer: Option<Chars>,
    pub product_name: Option<Chars>,
    pub serial: Option<Chars>,
    pub part_number: Option<Chars>,
}

pub ghost struct ProductView {
    pub manufacturer: Option<Chars>,
    pub product_name: Option<Chars>,
    pub part_number: Option<Chars>,
    pub version: Option<Chars>,
    pub serial: Option<Chars>,
    pub asset_tag: Option<Chars>,
}

/// The fields of a FRU device, with texts as characters.
pub ghost struct FruView {
    pub chassis: ChassisView,
    pub board: BoardView,
    pub product: ProductView,
}

impl View for ChassisInfo {
    type V = ChassisView;

    open spec fn view(&self) -> ChassisView {
        ChassisView {
            chassis_type: opt(self.chassis_type),
            part_number: opt(self.part_number),
            serial: opt(self.serial),
        }
    }
}

impl View for BoardInfo {
    type V = BoardView;

    open spec fn view(&self) -> BoardView {
        BoardView {
            mfg_date: opt(self.mfg_date),
            manufacturer: opt(self.manufacturer),
            product_name: opt(self.product_name),
            serial: opt(self.serial),
            part_number: opt(self.part_number),
        }
    }
}

impl View for ProductInfo {
    type V = ProductView;

    open spec fn view(&self) -> ProductView {
        ProductView {
            manufacturer: opt(self.manufacturer),
            product_name: opt(self.product_name),
            part_number: opt(self.part_number),
            version: opt(self.version),
            serial: opt(self.serial),
            asset_tag: opt(self.asset_tag),
        }
    }
}

impl View for Fru {
    type V = FruView;

    open spec fn view(&self) -> FruView {
        FruView { chassis: self.chassis@, board: self.board@, product: self.product@ }
    }
}

pub open spec fn no_chassis() -> ChassisView {
    ChassisView { chassis_type: None, part_number: None, serial: None }
}

pub open spec fn no_board() -> BoardView {
    BoardView {
        mfg_date: None,
        manufacturer: None,
        product_name: None,
        serial: None,
        part_number: None,
    }
}

pub open spec fn no_product() -> ProductView {
    ProductView {
        manufacturer: None,
        product_name: None,
        part_number: None,
        version: None,
        serial: None,
        asset_tag: None,
    }
}

/// A FRU device without fields.
pub open spec fn no_fru() -> FruView {
    FruView { chassis: no_chassis(), board: no_board(), product: no_product() }
}

impl Default for ChassisInfo {
    fn default() -> (r: ChassisInfo)
        ensures
            r@ == no_chassis(),
    {
        ChassisInfo { chassis_type: None, part_number: None, serial: None }
    }
}

impl Default for BoardInfo {
    fn default() -> (r: BoardInfo)
        ensures
            r@ == no_board(),
    {
        BoardInfo {
            mfg_date: None,
            manufacturer: None,
            product_name: None,
            serial: None,
            part_number: None,
        }
    }
}

impl Default for ProductInfo {
    fn default() -> (r: ProductInfo)
        ensures
            r@ == no_product(),
    {
        ProductInfo {
            manufacturer: None,
            product_name: None,
            part_number: None,
            version: None,
            serial: None,
            asset_tag: None,
        }
    }
}

impl Default for Fru {
    fn default() -> (r: Fru)
        ensures
            r@ == no_fru(),
    {
        Fru {
            chassis: ChassisInfo::default(),
            board: BoardInfo::default(),
            product: ProductInfo::default(),
        }
    }
}

/// Whether a text field holds nothing to show: it is absent, or empty.
pub open spec fn unusable(field: Option<Chars>) -> bool {
    match field {
        None => true,
        Some(text) => text.len() == 0,
    }
}

/// Whether a FRU device has no usable text field. The chassis type and the
/// manufacturing date are decoded from codes and are no text fields.
pub open spec fn is_blank(fru: FruView) -> bool {
    &&& unusable(fru.chassis.part_number)
    &&& unusable(fru.chassis.serial)
    &&& unusable(fru.board.manufacturer)
    &&& unusable(fru.board.product_name)
    &&& unusable(fru.board.serial)
    &&& unusable(fru.board.part_number)
    &&& unusable(fru.product.manufacturer)
    &&& unusable(fru.product.product_name)
    &&& unusable(fru.product.part_number)
    &&& unusable(fru.product.version)
    &&& unusable(fru.product.serial)
    &&& unusable(fru.product.asset_tag)
}

fn is_unusable(field: &Option<String>) -> (r: bool)
    ensures
        r == unusable(opt(*field)),
{
    match field {
        None => true,
        Some(text) => text.as_str().is_empty(),
    }
}

impl Fru {
    /// True if no usable string fields were decoded.
    pub fn is_empty(&self) -> (r: bool)
        ensures
            r == is_blank(self@),
    {
        let c = &self.chassis;
        let b = &self.board;
        let p = &self.product;
        is_unusable(&c.part_number) && is_unusable(&c.serial) && is_unusable(&b.manufacturer)
            && is_unusable(&b.product_name) && is_unusable(&b.serial) && is_unusable(
            &b.part_number,
        ) && is_unusable(&p.manufacturer) && is_unusable(&p.product_name) && is_unusable(
            &p.part_number,
        ) && is_unusable(&p.version) && is_unusable(&p.serial) && is_unusable(&p.asset_tag)
    }
}

// ---------------------------------------------------------------------
// Field encodings
// ---------------------------------------------------------------------

/// Bytes as Latin-1 characters.
pub open spec fn latin1(bytes: Seq<u8>) -> Chars {
    Seq::new(bytes.len(), |i: int| bytes[i] as char)
}

fn decode_latin1(bytes: &[u8]) -> (s: String)
    ensures
        s@ == latin1(bytes@),
{
    let mut s = String::new();
    let mut i: usize = 0;
    proof {
        assert(s@ =~= latin1(bytes@.take(0)));
    }
    while i < bytes.len()
        invariant
            i <= bytes.len(),
            s@ == latin1(bytes@.take(i as int)),
        decreases bytes.len() - i,
    {
        s.push(bytes[i] as char);
        proof {
            assert(s@ =~= latin1(bytes@.take(i + 1)));
        }
        i = i + 1;
    }
    proof {
        assert(bytes@.take(bytes@.len() as int) =~= bytes@);
    }
    s
}

/// The `i`-th six-bit group of a number, lowest first, as a character.
pub open spec fn six_bit_char(packed: int, i: int) -> char {
    let group = if i == 0 {
        packed % 64
    } else if i == 1 {
        packed / 64 % 64
    } else if i == 2 {
        packed / 4096 % 64
    } else {
        packed / 262144 % 64
    };
    (0x20 + group) as char
}

/// Packed six-bit ASCII: four characters in three bytes, lowest bits first. One
/// or two bytes at the end hold one or two characters.
pub open spec fn six_bit(bytes: Seq<u8>) -> Chars
    decreases bytes.len(),
{
    if bytes.len() == 0 {
        seq![]
    } else if bytes.len() == 1 {
        seq![six_bit_char(bytes[0] as int, 0)]
    } else if bytes.len() == 2 {
        let packed = bytes[0] + 256 * bytes[1];
        seq![six_bit_char(packed, 0), six_bit_char(packed, 1)]
    } else {
        let packed = bytes[0] + 256 * bytes[1] + 65536 * bytes[2];
        seq![
            six_bit_char(packed, 0),
            six_bit_char(packed, 1),
            six_bit_char(packed, 2),
            six_bit_char(packed, 3),
        ] + six_bit(bytes.skip(3))
    }
}

fn six_bit_of(packed: u32, i: u32) -> (c: char)
    requires
        i < 4,
    ensures
        c == six_bit_char(packed as int, i as int),
{
    let group: u32 = if i == 0 {
        packed % 64
    } else if i == 1 {
        packed / 64 % 64
    } else if i == 2 {
        packed / 4096 % 64
    } else {
        packed / 262144 % 64
    };
    (0x20 + group as u8) as char
}

/// Decode 6-bit packed ASCII (4 characters per 3 bytes).
pub fn decode_6bit_ascii(bytes: &[u8]) -> (s: String)
    ensures
        s@ == six_bit(bytes@),
{
    let mut s = String::new();
    let mut i: usize = 0;
    let n: usize = bytes.len();
    proof {
        assert(bytes@.skip(0) =~= bytes@);
        assert(s@ + six_bit(bytes@) =~= six_bit(bytes@));
    }
    while i < n
        invariant
            n == bytes@.len(),
            i <= n,
            s@ + six_bit(bytes@.skip(i as int)) == six_bit(bytes@),
        decreases n - i,
    {
        let ghost rest = bytes@.skip(i as int);
        let ghost before = s@;
        let b0: u32 = bytes[i] as u32;
        if n - i == 1 {
            s.push(six_bit_of(b0, 0));
            i = n;
            proof {
                assert(six_bit(bytes@.skip(i as int)) =~= seq![]);
                assert(s@ + seq![] =~= before + six_bit(rest));
            }
        } else if n - i == 2 {
            let packed: u32 = b0 + 256 * (bytes[i + 1] as u32);
            s.push(six_bit_of(packed, 0));
            s.push(six_bit_of(packed, 1));
            i = n;
            proof {
                assert(six_bit(bytes@.skip(i as int)) =~= seq![]);
                assert(s@ + seq![] =~= before + six_bit(rest));
            }
        } else {
            let packed: u32 = b0 + 256 * (bytes[i + 1] as u32) + 65536 * (bytes[i + 2] as u32);
            s.push(six_bit_of(packed, 0));
            s.push(six_bit_of(packed, 1));
            s.push(six_bit_of(packed, 2));
            s.push(six_bit_of(packed, 3));
            i = i + 3;
            proof {
                assert(rest.skip(3) =~= bytes@.skip(i as int));
                assert(s@ + six_bit(rest.skip(3)) =~= before + six_bit(rest));
            }
        }
    }
    proof {
        assert(six_bit(bytes@.skip(i as int)) =~= seq![]);
        assert(s@ + seq![] =~= s@);
    }
    s
}

/// The character of a BCD-plus nibble; the three highest have none.
pub open spec fn bcd_char(nibble: int) -> Chars {
    if nibble <= 9 {
        seq![digit(nibble)]
    } else if nibble == 0xA {
        seq![' ']
    } else if nibble == 0xB {
        seq!['-']
    } else if nibble == 0xC {
        seq!['.']
    } else {
        seq![]
    }
}

/// BCD-plus: two characters in a byte, the high nibble first.
pub open spec fn bcd_plus(bytes: Seq<u8>) -> Chars
    decreases bytes.len(),
{
    if bytes.len() == 0 {
        seq![]
    } else {
        bcd_plus(bytes.drop_last()) + bcd_char((bytes.last() / 16) as int) + bcd_char(
            (bytes.last() % 16) as int,
        )
    }
}

fn push_bcd(s: &mut String, nibble: u8)
    requires
        nibble < 16,
    ensures
        final(s)@ == old(s)@ + bcd_char(nibble as int),
{
    if nibble <= 9 {
        s.push(digit_char(nibble));
    } else if nibble == 0xA {
        s.push(' ');
    } else if nibble == 0xB {
        s.push('-');
    } else if nibble == 0xC {
        s.push('.');
    }
    proof {
        assert(s@ =~= old(s)@ + bcd_char(nibble as int));
    }
}

/// Decode BCD-plus encoding.
pub fn decode_bcd_plus(bytes: &[u8]) -> (s: String)
    ensures
        s@ == bcd_plus(bytes@),
{
    let mut s = String::new();
    let mut i: usize = 0;
    proof {
        assert(s@ =~= bcd_plus(bytes@.take(0)));
    }
    while i < bytes.len()
        invariant
            i <= bytes.len(),
            s@ == bcd_plus(bytes@.take(i as int)),
        decreases bytes.len() - i,
    {
        proof {
            assert(bytes@.take(i + 1).drop_last() =~= bytes@.take(i as int));
        }
        push_bcd(&mut s, bytes[i] / 16);
        push_bcd(&mut s, bytes[i] % 16);
        i = i + 1;
    }
    proof {
        assert(bytes@.take(bytes@.len() as int) =~= bytes@);
    }
    s
}

/// The text of a field's bytes, by the type code of the field.
pub open spec fn field_text(ty: u8, bytes: Seq<u8>) -> Chars {
    if ty == 3 {
        latin1(bytes)
    } else if ty == 2 {
        six_bit(bytes)
    } else if ty == 1 {
        bcd_plus(bytes)
    } else {
        hex_dump(bytes)
    }
}

/// The field at `idx` and the index after it. There is none at the
/// end-of-fields marker (0xC1) or where the data runs out, and then the index
/// stays. A field that is blank when decoded is passed over as absent; one of
/// length zero is an empty text.
pub open spec fn field_at(area: Seq<u8>, idx: int) -> (Option<Chars>, int) {
    if idx >= area.len() || area[idx] == 0xC1 {
        (None, idx)
    } else {
        let ty = (area[idx] >> 6) & 3;
        let len = (area[idx] & 0x3F) as int;
        let end = idx + 1 + len;
        if end > area.len() {
            (None, idx)
        } else if len == 0 {
            (Some(seq![]), end)
        } else {
            let text = trimmed(field_text(ty, area.subrange(idx + 1, end)));
            (
                if text.len() == 0 {
                    None
                } else {
                    Some(text)
                },
                end,
            )
        }
    }
}

/// Decode one type/length field starting at `*idx`, advancing `*idx` past it.
/// Returns `None` at the end-of-fields marker (0xC1) or when out of data, which
/// leave `*idx` as it is, and for a field that is blank once decoded.
pub fn next_field(area: &[u8], idx: &mut usize) -> (r: Option<String>)
    ensures
        opt(r) == field_at(area@, *old(idx) as int).0,
        *final(idx) == field_at(area@, *old(idx) as int).1,
{
    if *idx >= area.len() {
        return None;
    }
    let type_length: u8 = area[*idx];
    if type_length == 0xC1 {
        return None;
    }
    let ty: u8 = (type_length >> 6) & 0x03;
    let len: usize = (type_length & 0x3F) as usize;
    let start: usize = *idx + 1;
    if len > area.len() - start {
        return None;
    }
    let end: usize = start + len;
    *idx = end;
    if len == 0 {
        return Some(String::new());
    }
    let bytes = vstd::slice::slice_subrange(area, start, end);
    let decoded = if ty == 0b11 {
        decode_latin1(bytes)
    } else if ty == 0b10 {
        decode_6bit_ascii(bytes)
    } else if ty == 0b01 {
        decode_bcd_plus(bytes)
    } else {
        hex_dump_text(bytes)
    };
    let text = trim(decoded.as_str());
    if text.as_str().is_empty() {
        None
    } else {
        Some(text)
    }
}

// ---------------------------------------------------------------------
// Areas
// ---------------------------------------------------------------------

/// The manufacturing date of a board: minutes since 1996-01-01 00:00 UTC, with
/// zero for unspecified.
pub open spec fn mfg_date(minutes: u32) -> Option<Chars> {
    if minutes == 0 {
        None
    } else {
        let start = day_number(Date { year: 1996, month: 1, day: 1 });
        let date = date_of(start + minutes as int / 1440);
        let minute = (minutes as int % 1440) as nat;
        Some(
            zero_padded(dec(date.year as nat), 4) + "-"@ + zero_padded(dec(date.month as nat), 2)
                + "-"@ + zero_padded(dec(date.day as nat), 2) + " "@ + zero_padded(
                dec(minute / 60),
                2,
            ) + ":"@ + zero_padded(dec(minute % 60), 2),
        )
    }
}

/// FRU board manufacturing dates are minutes since 1996-01-01 00:00 UTC.
pub fn format_mfg_date(minutes: u32) -> (r: Option<String>)
    ensures
        opt(r) == mfg_date(minutes),
{
    if minutes == 0 {
        return None;
    }
    let days: u32 = minutes / 1440;
    let minute: u32 = minutes % 1440;
    // 1996-01-01 is 9496 days after 1970-01-01.
    let since_epoch: i64 = days as i64 + 9496;
    proof {
        assert(day_number(Date { year: 1996, month: 1, day: 1 }) == 9496) by {
            reveal_with_fuel(crate::calendar::days_before_month, 2);
        }
        lemma_date_of(since_epoch as int);
    }
    let (y, m, d) = civil_from_days(since_epoch);
    let mut s = concat2(dec_padded_text(y as u64, 4).as_str(), "-");
    s.append(dec_padded_text(m as u64, 2).as_str());
    s.append("-");
    s.append(dec_padded_text(d as u64, 2).as_str());
    s.append(" ");
    s.append(dec_padded_text((minute / 60) as u64, 2).as_str());
    s.append(":");
    s.append(dec_padded_text((minute % 60) as u64, 2).as_str());
    Some(s)
}

/// The friendly name of a chassis type code, for the common ones.
pub open spec fn chassis_name(code: u8) -> Option<Chars> {
    match code {
        0x01 => Some("Other"@),
        0x03 => Some("Desktop"@),
        0x04 => Some("Low Profile Desktop"@),
        0x05 => Some("Pizza Box"@),
        0x06 => Some("Mini Tower"@),
        0x07 => Some("Tower"@),
        0x08 => Some("Portable"@),
        0x09 => Some("Laptop"@),
        0x0A => Some("Notebook"@),
        0x0D => Some("All in One"@),
        0x11 => Some("Main Server Chassis"@),
        0x12 => Some("Expansion Chassis"@),
        0x17 => Some("Rack Mount Chassis"@),
        0x1C => Some("Blade"@),
        0x1D => Some("Blade Enclosure"@),
        _ => None,
    }
}

/// SMBIOS / FRU chassis type codes (subset of the common values).
///
/// Returns `None` for codes without a friendly name (including the SMBIOS
/// "Unknown" code 0x02); the caller renders those as `Unknown (0xNN)` so the
/// raw byte stays visible.
pub fn chassis_type_name(code: u8) -> (r: Option<&'static str>)
    ensures
        match r {
            Some(name) => chassis_name(code) == Some(name@),
            None => chassis_name(code) is None,
        },
{
    match code {
        0x01 => Some("Other"),
        0x03 => Some("Desktop"),
        0x04 => Some("Low Profile Desktop"),
        0x05 => Some("Pizza Box"),
        0x06 => Some("Mini Tower"),
        0x07 => Some("Tower"),
        0x08 => Some("Portable"),
        0x09 => Some("Laptop"),
        0x0A => Some("Notebook"),
        0x0D => Some("All in One"),
        0x11 => Some("Main Server Chassis"),
        0x12 => Some("Expansion Chassis"),
        0x17 => Some("Rack Mount Chassis"),
        0x1C => Some("Blade"),
        0x1D => Some("Blade Enclosure"),
        _ => None,
    }
}

/// How a chassis type is shown. 0x01 "Other" and 0x02 "Unknown" are the SMBIOS
/// placeholders a vendor leaves when it never programs a real enclosure type.
pub open spec fn chassis_type_text(code: u8, color: bool) -> Chars {
    let name = match chassis_name(code) {
        Some(name) => name,
        None => "Unknown (0x"@ + hex(code as nat, 2) + ")"@,
    };
    if code == 0x01 || code == 0x02 {
        name + dimmed(" — not set by vendor"@, color)
    } else {
        name
    }
}

pub open spec fn chassis_of(area: Seq<u8>, color: bool) -> ChassisView {
    if area.len() < 3 {
        no_chassis()
    } else {
        let part_number = field_at(area, 3);
        let serial = field_at(area, part_number.1);
        ChassisView {
            chassis_type: Some(chassis_type_text(area[2], color)),
            part_number: part_number.0,
            serial: serial.0,
        }
    }
}

pub fn parse_chassis(area: &[u8], color: bool) -> (r: ChassisInfo)
    ensures
        r@ == chassis_of(area@, color),
{
    let mut info = ChassisInfo::default();
    if area.len() < 3 {
        return info;
    }
    let code: u8 = area[2];
    let mut ty = match chassis_type_name(code) {
        Some(name) => name.to_owned(),
        None => concat3("Unknown (0x", hex_text(code as u64, 2).as_str(), ")"),
    };
    if code == 0x01 || code == 0x02 {
        ty.append(dim(" — not set by vendor", color).as_str());
    }
    info.chassis_type = Some(ty);
    let mut idx: usize = 3;
    info.part_number = next_field(area, &mut idx);
    info.serial = next_field(area, &mut idx);
    info
}

pub open spec fn board_of(area: Seq<u8>) -> BoardView {
    if area.len() < 6 {
        no_board()
    } else {
        let manufacturer = field_at(area, 6);
        let product_name = field_at(area, manufacturer.1);
        let serial = field_at(area, product_name.1);
        let part_number = field_at(area, serial.1);
        BoardView {
            mfg_date: mfg_date(le32(area[3], area[4], area[5], 0)),
            manufacturer: manufacturer.0,
            product_name: product_name.0,
            serial: serial.0,
            part_number: part_number.0,
        }
    }
}

pub fn parse_board(area: &[u8]) -> (r: BoardInfo)
    ensures
        r@ == board_of(area@),
{
    let mut info = BoardInfo::default();
    if area.len() < 6 {
        return info;
    }
    let minutes: u32 = u32_le(area[3], area[4], area[5], 0);
    info.mfg_date = format_mfg_date(minutes);
    let mut idx: usize = 6;
    info.manufacturer = next_field(area, &mut idx);
    info.product_name = next_field(area, &mut idx);
    info.serial = next_field(area, &mut idx);
    info.part_number = next_field(area, &mut idx);
    info
}

pub open spec fn product_of(area: Seq<u8>) -> ProductView {
    if area.len() < 3 {
        no_product()
    } else {
        let manufacturer = field_at(area, 3);
        let product_name = field_at(area, manufacturer.1);
        let part_number = field_at(area, product_name.1);
        let version = field_at(area, part_number.1);
        let serial = field_at(area, version.1);
        let asset_tag = field_at(area, serial.1);
        ProductView {
            manufacturer: manufacturer.0,
            product_name: product_name.0,
            part_number: part_number.0,
            version: version.0,
            serial: serial.0,
            asset_tag: asset_tag.0,
        }
    }
}

pub fn parse_product(area: &[u8]) -> (r: ProductInfo)
    ensures
        r@ == product_of(area@),
{
    let mut info = ProductInfo::default();
    if area.len() < 3 {
        return info;
    }
    let mut idx: usize = 3;
    info.manufacturer = next_field(area, &mut idx);
    info.product_name = next_field(area, &mut idx);
    info.part_number = next_field(area, &mut idx);
    info.version = next_field(area, &mut idx);
    info.serial = next_field(area, &mut idx);
    info.asset_tag = next_field(area, &mut idx);
    info
}

/// Where the header at the start of an image says that an area starts, if
/// inside the image.
pub open spec fn area_at(data: Seq<u8>, idx: int) -> Option<int> {
    let offset = data[idx] * 8;
    if offset == 0 || offset >= data.len() {
        None
    } else {
        Some(offset)
    }
}

/// The fields of a FRU image. An image without a version 1 header has none.
pub open spec fn fru_of(data: Seq<u8>, color: bool) -> FruView {
    if data.len() < 8 || data[0] != 0x01 {
        no_fru()
    } else {
        FruView {
            chassis: match area_at(data, 2) {
                Some(off) => chassis_of(data.skip(off), color),
                None => no_chassis(),
            },
            board: match area_at(data, 3) {
                Some(off) => board_of(data.skip(off)),
                None => no_board(),
            },
            product: match area_at(data, 4) {
                Some(off) => product_of(data.skip(off)),
                None => no_product(),
            },
        }
    }
}

fn area_offset(data: &[u8], idx: usize) -> (r: Option<usize>)
    requires
        idx < data@.len(),
    ensures
        match r {
            Some(off) => area_at(data@, idx as int) == Some(off as int) && off < data@.len(),
            None => area_at(data@, idx as int) is None,
        },
{
    let offset: usize = data[idx] as usize * 8;
    if offset == 0 || offset >= data.len() {
        None
    } else {
        Some(offset)
    }
}

/// Parse a complete FRU image into structured fields.
pub fn parse_image(data: &[u8], color: bool) -> (fru: Fru)
    ensures
        fru@ == fru_of(data@, color),
{
    let mut fru = Fru::default();
    if data.len() < 8 || data[0] != 0x01 {
        return fru;
    }
    if let Some(off) = area_offset(data, 2) {
        let area = vstd::slice::slice_subrange(data, off, data.len());
        proof {
            assert(area@ =~= data@.skip(off as int));
        }
        fru.chassis = parse_chassis(area, color);
    }
    if let Some(off) = area_offset(data, 3) {
        let area = vstd::slice::slice_subrange(data, off, data.len());
        proof {
            assert(area@ =~= data@.skip(off as int));
        }
        fru.board = parse_board(area);
    }
    if let Some(off) = area_offset(data, 4) {
        let area = vstd::slice::slice_subrange(data, off, data.len());
        proof {
            assert(area@ =~= data@.skip(off as int));
        }
        fru.product = parse_product(area);
    }
    fru
}

} // verus!
