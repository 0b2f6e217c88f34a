//! FRU images and the inventory.

use vstd::prelude::*;

use crate::calendar::{
    date_of, day_number, is_date, law_dates_are_distinct, lemma_date_of, month_len, Date,
};
use crate::cmd::inventory::{with_locator, Found, LocatedView};
use crate::cmd::inventory_run::{fru_lines, fru_row, physical_row, with_field};
use crate::conn::{Recipient, RequestView};
use crate::fru::{
    bcd_char, bcd_plus, board_of, chassis_name, chassis_of, field_at, fru_of, is_blank, latin1,
    mfg_date, product_of, six_bit, BoardView, FruView, ProductView,
};
use crate::fru_read::{
    area_info_of, area_offsets, overlaid, AreaPhaseView, AreasView, FruTarget, RangeView, RawView,
};
use crate::laws::{answer, bit, byte, lemma_bits};
use crate::sdr::{fru_device_debug, FruLocatorView};
use crate::text::{dec, hex, is_space, trimmed, trimmed_end, trimmed_start, zero_padded, Chars};
use crate::ui::{dimmed, indented, kv_line};

verus! {

// ---------------------------------------------------------------------
// Fields
// ---------------------------------------------------------------------

/// Whether bytes are a text that an eight-bit field can carry as it is: two to 63
/// of them (a single one would look like the end marker), without blanks at
/// either end.
pub open spec fn is_plain(text: Seq<u8>) -> bool {
    2 <= text.len() <= 63 && !is_space(text[0] as char) && !is_space(text.last() as char)
}

/// A text as an eight-bit field: type 3 in the upper two bits and the length in
/// the lower six, then the bytes.
pub open spec fn field(text: Seq<u8>) -> Seq<u8> {
    seq![(0xC0 + text.len()) as u8] + text
}

/// The characters of a text.
pub open spec fn chars(text: Seq<u8>) -> Chars {
    Seq::new(text.len(), |i: int| text[i] as char)
}

proof fn lemma_plain_is_trimmed(text: Seq<u8>)
    requires
        is_plain(text),
    ensures
        trimmed(latin1(text)) == chars(text),
        latin1(text).len() > 0,
{
    let s = latin1(text);
    assert(s =~= chars(text));
    assert(s[0] == text[0] as char);
    assert(s.last() == text.last() as char);
    assert(trimmed_start(s) == s);
    assert(trimmed_end(s) == s);
}

proof fn lemma_field(before: Seq<u8>, text: Seq<u8>, rest: Seq<u8>)
    requires
        is_plain(text),
    ensures
        field_at(before + field(text) + rest, before.len() as int) == (
            Some(chars(text)),
            (before.len() + 1 + text.len()) as int,
        ),
{
    let area = before + field(text) + rest;
    let idx = before.len() as int;
    let b = (0xC0 + text.len()) as u8;
    assert(area[idx] == b);
    assert((b >> 6) & 3 == 3 && b & 0x3F == b % 64) by (bit_vector)
        requires
            b >= 0xC2,
    ;
    assert(area.subrange(idx + 1, idx + 1 + text.len()) =~= text);
    lemma_plain_is_trimmed(text);
}

/// Texts written as consecutive fields.
pub open spec fn fields(written: Seq<Seq<u8>>) -> Seq<u8>
    decreases written.len(),
{
    if written.len() == 0 {
        seq![]
    } else {
        field(written[0]) + fields(written.skip(1))
    }
}

/// How many bytes the first `n` of these fields take.
pub open spec fn taken(written: Seq<Seq<u8>>, n: int) -> int
    decreases n,
{
    if n <= 0 {
        0
    } else {
        taken(written, n - 1) + 1 + written[n - 1].len()
    }
}

proof fn lemma_taken(written: Seq<Seq<u8>>, n: int)
    requires
        0 < n <= written.len(),
    ensures
        taken(written, n) == 1 + written[0].len() + taken(written.skip(1), n - 1),
    decreases n,
{
    if n > 1 {
        lemma_taken(written, n - 1);
        assert(written.skip(1)[n - 2] == written[n - 1]);
    } else {
        assert(taken(written, 0) == 0);
        assert(taken(written.skip(1), 0) == 0);
    }
}

proof fn lemma_nth_field(head: Seq<u8>, written: Seq<Seq<u8>>, rest: Seq<u8>, n: int)
    requires
        0 <= n < written.len(),
        forall|k: int| 0 <= k < written.len() ==> is_plain(#[trigger] written[k]),
    ensures
        field_at(head + fields(written) + rest, head.len() + taken(written, n)) == (
            Some(chars(written[n])),
            head.len() + taken(written, n + 1),
        ),
    decreases n,
{
    let area = head + fields(written) + rest;
    let tail = written.skip(1);
    assert(is_plain(written[0]));
    if n == 0 {
        assert(area =~= head + field(written[0]) + (fields(tail) + rest));
        lemma_field(head, written[0], fields(tail) + rest);
        assert(taken(written, 0) == 0);
        assert(taken(written, 1) == 1 + written[0].len());
    } else {
        let longer = head + field(written[0]);
        assert(area =~= longer + fields(tail) + rest);
        assert forall|k: int| 0 <= k < tail.len() implies is_plain(#[trigger] tail[k]) by {
            assert(tail[k] == written[k + 1]);
        }
        lemma_nth_field(longer, tail, rest, n - 1);
        lemma_taken(written, n);
        lemma_taken(written, n + 1);
    }
}

/// A product area holds manufacturer, name, part number, version, serial and
/// asset tag, in this order from its fourth byte on: six texts that were written
/// there are read back as these.
pub proof fn law_product_area_reads_back(head: Seq<u8>, written: Seq<Seq<u8>>, rest: Seq<u8>)
    requires
        head.len() == 3,
        written.len() == 6,
        forall|k: int| 0 <= k < 6 ==> is_plain(#[trigger] written[k]),
    ensures
        product_of(head + fields(written) + rest) == (ProductView {
            manufacturer: Some(chars(written[0])),
            product_name: Some(chars(written[1])),
            part_number: Some(chars(written[2])),
            version: Some(chars(written[3])),
            serial: Some(chars(written[4])),
            asset_tag: Some(chars(written[5])),
        }),
{
    assert(taken(written, 0) == 0);
    lemma_nth_field(head, written, rest, 0);
    lemma_nth_field(head, written, rest, 1);
    lemma_nth_field(head, written, rest, 2);
    lemma_nth_field(head, written, rest, 3);
    lemma_nth_field(head, written, rest, 4);
    lemma_nth_field(head, written, rest, 5);
}

/// A board area holds manufacturer, name, serial and part number, in this order
/// from its seventh byte on; the date is in the three bytes before, lowest
/// first.
pub proof fn law_board_area_reads_back(head: Seq<u8>, written: Seq<Seq<u8>>, rest: Seq<u8>)
    requires
        head.len() == 6,
        written.len() == 4,
        forall|k: int| 0 <= k < 4 ==> is_plain(#[trigger] written[k]),
    ensures
        board_of(head + fields(written) + rest) == (BoardView {
            mfg_date: mfg_date((head[3] + 256 * head[4] + 65536 * head[5]) as u32),
            manufacturer: Some(chars(written[0])),
            product_name: Some(chars(written[1])),
            serial: Some(chars(written[2])),
            part_number: Some(chars(written[3])),
        }),
{
    let area = head + fields(written) + rest;
    assert(taken(written, 0) == 0);
    lemma_nth_field(head, written, rest, 0);
    lemma_nth_field(head, written, rest, 1);
    lemma_nth_field(head, written, rest, 2);
    lemma_nth_field(head, written, rest, 3);
    assert(area[3] == head[3] && area[4] == head[4] && area[5] == head[5]);
}

/// A chassis area holds its type in the third byte and then part number and
/// serial.
pub proof fn law_chassis_area_reads_back(
    head: Seq<u8>,
    written: Seq<Seq<u8>>,
    rest: Seq<u8>,
    color: bool,
)
    requires
        head.len() == 3,
        written.len() == 2,
        forall|k: int| 0 <= k < 2 ==> is_plain(#[trigger] written[k]),
    ensures
        ({
            let chassis = chassis_of(head + fields(written) + rest, color);
            let ty = head[2];
            &&& chassis.part_number == Some(chars(written[0]))
            &&& chassis.serial == Some(chars(written[1]))
            &&& chassis.chassis_type is Some
            &&& ty > 2 && chassis_name(ty) is Some ==> chassis.chassis_type == chassis_name(ty)
            &&& ty > 2 && chassis_name(ty) is None ==> chassis.chassis_type->0 == "Unknown (0x"@
                + hex(ty as nat, 2) + ")"@
            &&& ty == 1 ==> chassis.chassis_type->0 == "Other"@ + dimmed(
                " — not set by vendor"@,
                color,
            )
            &&& ty == 2 ==> chassis.chassis_type->0 == "Unknown (0x"@ + hex(2, 2) + ")"@ + dimmed(
                " — not set by vendor"@,
                color,
            )
        }),
{
    let area = head + fields(written) + rest;
    assert(taken(written, 0) == 0);
    lemma_nth_field(head, written, rest, 0);
    lemma_nth_field(head, written, rest, 1);
    assert(area[2] == head[2]);
}

/// The chassis types that have a name.
pub proof fn law_chassis_names(code: u8)
    ensures
        chassis_name(1) == Some("Other"@),
        chassis_name(3) == Some("Desktop"@),
        chassis_name(4) == Some("Low Profile Desktop"@),
        chassis_name(5) == Some("Pizza Box"@),
        chassis_name(6) == Some("Mini Tower"@),
        chassis_name(7) == Some("Tower"@),
        chassis_name(8) == Some("Portable"@),
        chassis_name(9) == Some("Laptop"@),
        chassis_name(10) == Some("Notebook"@),
        chassis_name(13) == Some("All in One"@),
        chassis_name(17) == Some("Main Server Chassis"@),
        chassis_name(18) == Some("Expansion Chassis"@),
        chassis_name(23) == Some("Rack Mount Chassis"@),
        chassis_name(28) == Some("Blade"@),
        chassis_name(29) == Some("Blade Enclosure"@),
        code == 0 || code == 2 || code > 29 ==> chassis_name(code) is None,
{
}

/// The end marker, and a field that runs past the end, end the fields; a field
/// of blanks is passed over, and one of length zero is an empty text.
pub proof fn law_where_fields_end(area: Seq<u8>, idx: int)
    requires
        0 <= idx,
    ensures
        idx >= area.len() ==> field_at(area, idx) == (None::<Chars>, idx),
        idx < area.len() && area[idx] == 0xC1 ==> field_at(area, idx) == (None::<Chars>, idx),
        idx < area.len() && area[idx] != 0xC1 && idx + 1 + area[idx] % 64 > area.len() ==> field_at(
            area,
            idx,
        ) == (None::<Chars>, idx),
        idx < area.len() && area[idx] != 0xC1 && idx + 1 + area[idx] % 64 <= area.len()
            ==> field_at(area, idx).1 == idx + 1 + area[idx] % 64,
        idx < area.len() && area[idx] == 0xC0 ==> field_at(area, idx).0 == Some(
            Seq::<char>::empty(),
        ),
{
    if idx < area.len() {
        let b = area[idx];
        assert(b & 0x3F == b % 64) by (bit_vector);
    }
}

/// Four six-bit codes packed into three bytes, lowest bits first, are the
/// characters at these codes above the blank.
pub proof fn law_six_bit_text_reads_back(c0: u8, c1: u8, c2: u8, c3: u8, rest: Seq<u8>)
    requires
        c0 < 64,
        c1 < 64,
        c2 < 64,
        c3 < 64,
    ensures
        six_bit(
            seq![
                (c0 + 64 * (c1 % 4)) as u8,
                (c1 / 4 + 16 * (c2 % 16)) as u8,
                (c2 / 16 + 4 * c3) as u8,
            ] + rest,
        ) == seq![
            (0x20 + c0) as char,
            (0x20 + c1) as char,
            (0x20 + c2) as char,
            (0x20 + c3) as char,
        ] + six_bit(rest),
{
    let b0 = (c0 + 64 * (c1 % 4)) as u8;
    let b1 = (c1 / 4 + 16 * (c2 % 16)) as u8;
    let b2 = (c2 / 16 + 4 * c3) as u8;
    let bytes = seq![b0, b1, b2] + rest;
    let packed = b0 + 256 * b1 + 65536 * b2;
    assert(packed == c0 + 64 * c1 + 4096 * c2 + 262144 * c3);
    assert(packed % 64 == c0 as int);
    assert(packed / 64 == c1 + 64 * c2 + 4096 * c3);
    assert(packed / 64 % 64 == c1 as int);
    assert(packed / 4096 == c2 + 64 * c3);
    assert(packed / 4096 % 64 == c2 as int);
    assert(packed / 262144 == c3 as int);
    assert(packed / 262144 % 64 == c3 as int);
    assert(bytes[0] == b0 && bytes[1] == b1 && bytes[2] == b2);
    assert(bytes.skip(3) =~= rest);
}

/// BCD-plus holds two characters in a byte, the upper four bits first: 0 to 9 are
/// digits, 10 a blank, 11 a dash and 12 a period; the others are nothing.
pub proof fn law_bcd_text_reads_back(bytes: Seq<u8>, high: u8, low: u8)
    requires
        high < 16,
        low < 16,
    ensures
        bcd_plus(bytes.push((16 * high + low) as u8)) == bcd_plus(bytes) + bcd_char(high as int)
            + bcd_char(low as int),
        high <= 9 ==> bcd_char(high as int) == seq![('0' as int + high) as char],
        bcd_char(10) == seq![' '],
        bcd_char(11) == seq!['-'],
        bcd_char(12) == seq!['.'],
        high > 12 ==> bcd_char(high as int) == Seq::<char>::empty(),
{
    assert(bytes.push((16 * high + low) as u8).drop_last() =~= bytes);
}

/// An image starts with a header of eight bytes, the first of them 1; bytes 2, 3
/// and 4 are the offsets of the chassis, board and product area, in units of
/// eight bytes, and 0 for an area that is not there.
pub proof fn law_image_layout(data: Seq<u8>, color: bool)
    requires
        data.len() >= 8,
    ensures
        data[0] != 1 ==> is_blank(fru_of(data, color)),
        data[0] == 1 && 0 < 8 * data[2] < data.len() ==> fru_of(data, color).chassis == chassis_of(
            data.skip(8 * data[2]),
            color,
        ),
        data[0] == 1 && 0 < 8 * data[3] < data.len() ==> fru_of(data, color).board == board_of(
            data.skip(8 * data[3]),
        ),
        data[0] == 1 && 0 < 8 * data[4] < data.len() ==> fru_of(data, color).product == product_of(
            data.skip(8 * data[4]),
        ),
        data[2] == 0 ==> fru_of(data, color).chassis.part_number is None && fru_of(
            data,
            color,
        ).chassis.serial is None,
        data[3] == 0 ==> fru_of(data, color).board.manufacturer is None && fru_of(
            data,
            color,
        ).board.mfg_date is None,
        data[4] == 0 ==> fru_of(data, color).product.manufacturer is None,
{
}

// ---------------------------------------------------------------------
// Dates
// ---------------------------------------------------------------------

/// The day after a day.
pub open spec fn tomorrow(d: Date) -> Date {
    if d.day < month_len(d.year, d.month) {
        Date { day: d.day + 1, ..d }
    } else if d.month < 12 {
        Date { year: d.year, month: d.month + 1, day: 1 }
    } else {
        Date { year: d.year + 1, month: 1, day: 1 }
    }
}

/// Days are counted one by one from 1970-01-01: the number of the next day is
/// one more. Thirty days have April, June, September and November, and February
/// has 28, or 29 in a leap year: every fourth, but of the centuries every
/// fourth.
pub proof fn law_days_are_counted(d: Date)
    requires
        is_date(d),
    ensures
        day_number(Date { year: 1970, month: 1, day: 1 }) == 0,
        day_number(tomorrow(d)) == day_number(d) + 1,
        month_len(d.year, 4) == 30 && month_len(d.year, 6) == 30 && month_len(d.year, 9) == 30
            && month_len(d.year, 11) == 30,
        month_len(d.year, 1) == 31 && month_len(d.year, 3) == 31 && month_len(d.year, 5) == 31
            && month_len(d.year, 7) == 31 && month_len(d.year, 8) == 31 && month_len(d.year, 10)
            == 31 && month_len(d.year, 12) == 31,
        month_len(d.year, 2) == (if d.year % 400 == 0 {
            29int
        } else if d.year % 100 == 0 {
            28
        } else if d.year % 4 == 0 {
            29
        } else {
            28
        }),
{
    crate::calendar::law_years_add_up(d.year);
    reveal_with_fuel(crate::calendar::days_before_month, 13);
    let m = d.month;
    assert(m == 1 || m == 2 || m == 3 || m == 4 || m == 5 || m == 6 || m == 7 || m == 8 || m == 9
        || m == 10 || m == 11 || m == 12);
}

/// The manufacturing date of a board: so many minutes after the start of 1996 as
/// lie between that and a minute of a day are shown as that day and minute.
pub proof fn law_board_dates(d: Date, minute: nat, minutes: u32)
    requires
        is_date(d),
        minute < 1440,
        0 < minutes,
        minutes == (day_number(d) - day_number(Date { year: 1996, month: 1, day: 1 })) * 1440
            + minute,
    ensures
        mfg_date(minutes) == Some(
            zero_padded(dec(d.year as nat), 4) + "-"@ + zero_padded(dec(d.month as nat), 2) + "-"@
                + zero_padded(dec(d.day as nat), 2) + " "@ + zero_padded(dec(minute / 60), 2)
                + ":"@ + zero_padded(dec(minute % 60), 2),
        ),
{
    let start = day_number(Date { year: 1996, month: 1, day: 1 });
    let days = day_number(d) - start;
    assert(minutes as int / 1440 == days && minutes as int % 1440 == minute) by (nonlinear_arith)
        requires
            minutes == days * 1440 + minute,
            0 <= minute < 1440,
    ;
    lemma_date_of(day_number(d));
    law_dates_are_distinct(date_of(day_number(d)), d);
}

// ---------------------------------------------------------------------
// Reading
// ---------------------------------------------------------------------

/// Where a request to a FRU device goes.
pub open spec fn device(target: Option<FruTarget>) -> Recipient {
    match target {
        None => Recipient::Bmc,
        Some(t) => Recipient::BmcOrIpmb { address: t.address, channel: t.channel, lun: t.lun },
    }
}

/// The size of a device is asked for by Get FRU Inventory Area Info (Storage,
/// network function 0x0A, command 0x10): two bytes, lowest first, and bit 0 of
/// the third says that the device counts in words. A range is read by Read FRU
/// Data (0x11): the device, the offset in its own units, lowest byte first, and
/// at most sixteen bytes.
pub proof fn law_fru_requests(s: RangeView, fru_id: u8, target: Option<FruTarget>, info: Seq<u8>)
    requires
        s.wf(),
        s.phase is Waiting,
        s.start + s.length <= 0xFFFF,
    ensures
        RawView::start(fru_id, target).request() == Some(
            RequestView { netfn: 0x0A, cmd: 0x10, data: seq![fru_id], recipient: device(target) },
        ),
        AreasView::start(fru_id, target).request() == Some(
            RequestView { netfn: 0x0A, cmd: 0x10, data: seq![fru_id], recipient: device(target) },
        ),
        info.len() < 2 ==> area_info_of(answer(info)) is Err,
        info.len() >= 2 ==> area_info_of(answer(info)) == Ok::<(nat, nat), Chars>(
            (
                (info[0] + 256 * info[1]) as nat,
                if bit(byte(info, 2), 0) {
                    2
                } else {
                    1
                },
            ),
        ),
        ({
            let at = (s.start + s.out.len()) / s.unit;
            let left = s.length - s.out.len();
            s.request() == Some(
                RequestView {
                    netfn: 0x0A,
                    cmd: 0x11,
                    data: seq![
                        s.fru_id,
                        (at % 256) as u8,
                        (at / 256) as u8,
                        (if left < 16 {
                            left
                        } else {
                            16
                        }) as u8,
                    ],
                    recipient: device(s.target),
                },
            )
        }),
{
    lemma_bits(byte(info, 2));
    assert(0u8 & 1 == 0) by (bit_vector);
    let offset = s.start + s.out.len();
    assert(offset / s.unit <= offset) by (nonlinear_arith)
        requires
            s.unit >= 1,
            offset >= 0,
    ;
    assert((offset / s.unit) % 0x10000 == offset / s.unit);
}

/// Only the areas that the header names are read: each where the header says, as
/// long as its own second byte says, in units of eight bytes, and only if it
/// lies within the device.
pub proof fn law_only_named_areas_are_read(s: AreasView, header: Seq<u8>, prefix: Seq<u8>)
    ensures
        header.len() >= 8 && header[0] == 1 ==> ({
            let offsets = area_offsets(header, s.size);
            &&& forall|i: int|
                0 <= i < offsets.len() ==> ((#[trigger] offsets[i]) == 8 * header[2] || offsets[i]
                    == 8 * header[3] || offsets[i] == 8 * header[4]) && 0 < offsets[i]
                    && offsets[i] + 2 <= s.size
            &&& 0 < 8 * header[2] && 8 * header[2] + 2 <= s.size ==> offsets.len() > 0 && offsets[0]
                == 8 * header[2]
            &&& 0 < 8 * header[4] && 8 * header[4] + 2 <= s.size ==> offsets.len() > 0
                && offsets.last() == 8 * header[4]
            &&& 0 < 8 * header[3] && 8 * header[3] + 2 <= s.size ==> offsets.contains(
                8 * header[3],
            )
        }),
        0 <= s.index < s.offsets.len() && s.offsets[s.index] >= 0 && prefix.len() >= 2 ==> ({
            let length = 8 * prefix[1];
            let next = s.after_prefix(prefix);
            if length >= 8 && s.offsets[s.index] + length <= s.size {
                next.phase == AreaPhaseView::Body(
                    RangeView::start(
                        s.fru_id,
                        s.target,
                        s.offsets[s.index] as nat,
                        length as nat,
                        s.unit,
                    ),
                    length as nat,
                )
            } else {
                next == s.area(s.index + 1)
            }
        }),
{
    if header.len() >= 8 && header[0] == 1 {
        let offsets = area_offsets(header, s.size);
        if 0 < 8 * header[3] && 8 * header[3] + 2 <= s.size {
            let i = if 0 < 8 * header[2] && 8 * header[2] + 2 <= s.size {
                1int
            } else {
                0
            };
            assert(offsets[i] == 8 * header[3]);
        }
    }
}

/// Bytes that were read stand in the image where they were read, and nothing
/// else changes.
pub proof fn law_image_keeps_areas_in_place(image: Seq<u8>, offset: int, bytes: Seq<u8>, i: int)
    requires
        0 <= i < image.len(),
    ensures
        overlaid(image, offset, bytes).len() == image.len(),
        offset <= i < offset + bytes.len() ==> overlaid(image, offset, bytes)[i] == bytes[i
            - offset],
        i < offset || i >= offset + bytes.len() ==> overlaid(image, offset, bytes)[i] == image[i],
{
}

// ---------------------------------------------------------------------
// The report
// ---------------------------------------------------------------------

/// Every usable field is shown under its own label, and no other; a device
/// without usable texts is said to have none.
pub proof fn law_fields_are_labelled(fru: FruView, color: bool)
    ensures
        ({
            let values = seq![
                fru.product.manufacturer,
                fru.product.product_name,
                fru.product.part_number,
                fru.product.version,
                fru.product.serial,
                fru.product.asset_tag,
                fru.board.manufacturer,
                fru.board.product_name,
                fru.board.part_number,
                fru.board.serial,
                fru.board.mfg_date,
                fru.chassis.chassis_type,
                fru.chassis.part_number,
                fru.chassis.serial,
            ];
            let labels = seq![
                "Product manufacturer"@,
                "Product name"@,
                "Part/model"@,
                "Version"@,
                "Product serial"@,
                "Asset tag"@,
                "Board manufacturer"@,
                "Board product"@,
                "Board part number"@,
                "Board serial"@,
                "Board mfg date"@,
                "Chassis type"@,
                "Chassis part number"@,
                "Chassis serial"@,
            ];
            let shown = shown_fields(labels, values, 14, color);
            fru_lines(fru, color) == if is_blank(fru) {
                shown.push(indented(dimmed("present but no decodable fields"@, color)))
            } else {
                shown
            }
        }),
{
    let values = seq![
        fru.product.manufacturer,
        fru.product.product_name,
        fru.product.part_number,
        fru.product.version,
        fru.product.serial,
        fru.product.asset_tag,
        fru.board.manufacturer,
        fru.board.product_name,
        fru.board.part_number,
        fru.board.serial,
        fru.board.mfg_date,
        fru.chassis.chassis_type,
        fru.chassis.part_number,
        fru.chassis.serial,
    ];
    let labels = seq![
        "Product manufacturer"@,
        "Product name"@,
        "Part/model"@,
        "Version"@,
        "Product serial"@,
        "Asset tag"@,
        "Board manufacturer"@,
        "Board product"@,
        "Board part number"@,
        "Board serial"@,
        "Board mfg date"@,
        "Chassis type"@,
        "Chassis part number"@,
        "Chassis serial"@,
    ];
    assert(shown_fields(labels, values, 0, color) == Seq::<Chars>::empty());
    lemma_next_field_shown(labels, values, 1, color);
    lemma_next_field_shown(labels, values, 2, color);
    lemma_next_field_shown(labels, values, 3, color);
    lemma_next_field_shown(labels, values, 4, color);
    lemma_next_field_shown(labels, values, 5, color);
    lemma_next_field_shown(labels, values, 6, color);
    lemma_next_field_shown(labels, values, 7, color);
    lemma_next_field_shown(labels, values, 8, color);
    lemma_next_field_shown(labels, values, 9, color);
    lemma_next_field_shown(labels, values, 10, color);
    lemma_next_field_shown(labels, values, 11, color);
    lemma_next_field_shown(labels, values, 12, color);
    lemma_next_field_shown(labels, values, 13, color);
    lemma_next_field_shown(labels, values, 14, color);
}

proof fn lemma_next_field_shown(
    labels: Seq<Chars>,
    values: Seq<Option<Chars>>,
    n: int,
    color: bool,
)
    requires
        n > 0,
    ensures
        shown_fields(labels, values, n, color) == with_field(
            shown_fields(labels, values, n - 1, color),
            labels[n - 1],
            values[n - 1],
            color,
        ),
{
}

/// The lines of the first `n` fields that have a text.
pub open spec fn shown_fields(labels: Seq<Chars>, values: Seq<Option<Chars>>, n: int, color: bool) -> Seq<
    Chars,
>
    decreases n,
{
    if n <= 0 {
        seq![]
    } else {
        let before = shown_fields(labels, values, n - 1, color);
        match values[n - 1] {
            Some(text) if text.len() > 0 => before.push(kv_line(labels[n - 1], text, 22, color)),
            _ => before,
        }
    }
}

/// A device is empty exactly when none of its twelve text fields has a
/// character.
pub proof fn law_what_is_blank(fru: FruView)
    ensures
        is_blank(fru) <==> ({
            let has = |text: Option<Chars>| text is Some && text->0.len() > 0;
            !(has(fru.chassis.part_number) || has(fru.chassis.serial) || has(fru.board.manufacturer)
                || has(fru.board.product_name) || has(fru.board.serial) || has(
                fru.board.part_number,
            ) || has(fru.product.manufacturer) || has(fru.product.product_name) || has(
                fru.product.part_number,
            ) || has(fru.product.version) || has(fru.product.serial) || has(fru.product.asset_tag))
        }),
{
}

/// A logical device of a locator record is read at the address, channel and
/// logical unit that the record names, under the ID that it names; the BMC's own
/// device 0 only gets its name, and a physical device is listed but not read.
pub proof fn law_locators_say_where_to_read(found: Found, locator: FruLocatorView, b: u8)
    requires
        locator.fru_device == fru_device_debug(b),
        locator.device_access_address < 128,
        locator.channel_number % 16 < 12,
        found.frus.len() > 0,
        forall|i: int|
            0 <= i < found.frus.len() ==> (#[trigger] found.frus[i]).target is None
                || found.frus[i].id != b,
    ensures
        ({
            let address = (2 * locator.device_access_address) as u8;
            let channel = (locator.channel_number % 16) as u8;
            let after = with_locator(found, locator)->Ok_0;
            &&& with_locator(found, locator) is Ok
            &&& b >= 128 ==> after.frus == found.frus && after.physical.len()
                == found.physical.len() + 1 && after.physical.last().address == b / 2
                && after.physical.last().name == locator.name && after.physical.last().channel
                == locator.channel_number
            &&& b == 0 && address == 0x20 && channel == 0 ==> after.frus.len() == found.frus.len()
                && after.frus[0].name == locator.name && after.frus[0].id == found.frus[0].id
                && after.physical == found.physical
            &&& b < 128 && !(b == 0 && address == 0x20 && channel == 0) ==> after.frus
                == found.frus.push(
                LocatedView {
                    id: b,
                    name: locator.name,
                    target: Some(FruTarget { address, channel, lun: locator.lun }),
                    location: "IPMB 0x"@ + hex(address as nat, 2) + ", channel "@ + dec(
                        channel as nat,
                    ),
                },
            )
        }),
{
    crate::cmd::inventory::law_locators_are_recognized(b);
    let a = locator.device_access_address;
    let c = locator.channel_number;
    assert(c & 0x0F == c % 16 && (a < 128 ==> a << 1 == a * 2)) by (bit_vector);
}

/// The rows of the devices that were found.
pub proof fn law_device_rows(fru: LocatedView, p: crate::cmd::inventory::PhysicalView)
    ensures
        fru_row(fru).len() == 4 && fru_row(fru)[1].plain == dec(fru.id as nat) && fru_row(
            fru,
        )[2].plain == fru.name && fru_row(fru)[3].plain == fru.location,
        physical_row(p).len() == 4 && physical_row(p)[1].plain == "I2C 0x"@ + hex(
            p.address as nat,
            2,
        ) && physical_row(p)[2].plain == p.name,
{
}

} // verus!
