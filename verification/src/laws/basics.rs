//! Targets, numbers, bytes, text, and the requests that walk a repository.

use vstd::prelude::*;

use crate::bytes::{high_byte, le16, le32, low_byte};
use crate::cli::{colons, host_target, literal, with_port, TargetView};
use crate::cmd::inventory::{firmware_of, identity_lines, vendor_of};
use crate::cmd::vendor_name;
use crate::conn::{completion, sdr_id_answers, ScanView};
use crate::dialog::DeviceId;
use crate::laws::to_bmc;
use crate::number::{lemma_dec_reads_back, lemma_hex_reads_back};
use crate::sdr::is_channel;
use crate::text::{
    contains, dec, first_index, hex, is_space, joined, lemma_first_index, lower, trimmed,
    trimmed_end, trimmed_start, Chars,
};
use crate::ui::{bolded, cyaned, dimmed, greened, header_lines, kv_line, reddened, yellowed};

verus! {

// ---------------------------------------------------------------------
// Targets and numbers
// ---------------------------------------------------------------------

/// A remote target is taken apart at the first `@` and, before it, at the first
/// colon: name, password and address come out as they were put in. A password
/// may hold colons, and an address at signs.
pub proof fn law_targets_are_taken_apart(username: Chars, password: Chars, address: Chars)
    requires
        !username.contains(':'),
        !username.contains('@'),
        !password.contains('@'),
        address.len() > 0,
    ensures
        host_target(username + seq![':'] + password + seq!['@'] + address) == Ok::<
            TargetView,
            Chars,
        >(TargetView::Lan { address: with_port(address), username, password }),
{
    let creds = username + seq![':'] + password;
    let s = creds + seq!['@'] + address;
    let at = creds.len() as int;
    assert forall|i: int| 0 <= i < at implies s[i] != '@' by {
        if i < username.len() {
            assert(s[i] == username[i]);
        } else if i > username.len() {
            assert(s[i] == password[i - username.len() - 1]);
        }
    }
    lemma_first_index(s, '@', at);
    assert(s.take(at) =~= creds);
    let colon = username.len() as int;
    assert forall|i: int| 0 <= i < colon implies creds[i] != ':' by {
        assert(creds[i] == username[i]);
    }
    lemma_first_index(creds, ':', colon);
    assert(creds.take(colon) =~= username);
    assert(creds.skip(colon + 1) =~= password);
    assert(s.skip(at + 1) =~= address);
    assert(username + seq![':'] + password + seq!['@'] + address =~= s);
}

/// A target without `@`, without a password, or without an address is refused.
pub proof fn law_incomplete_targets_are_refused(text: Chars)
    ensures
        !text.contains('@') ==> host_target(text) is Err,
        host_target(text) is Ok ==> text.contains('@') && text.contains(':'),
{
    let at = first_index(text, '@');
    lemma_index(text, '@');
    lemma_index(text.take(at), ':');
    if host_target(text) is Ok {
        assert(text[at] == '@');
        let colon = first_index(text.take(at), ':');
        assert(text.take(at)[colon] == text[colon]);
    }
}

proof fn lemma_index(s: Chars, c: char)
    ensures
        0 <= first_index(s, c) <= s.len(),
        first_index(s, c) < s.len() ==> s[first_index(s, c)] == c,
    decreases s.len(),
{
    if s.len() > 0 && s[0] != c {
        lemma_index(s.drop_first(), c);
    }
}

/// An address without a port gets the port 623: a name or number without a
/// colon, and a bracketed address without a colon behind the bracket. An
/// address with a port keeps it.
pub proof fn law_default_port(host: Chars, port: Chars)
    requires
        host.len() > 0,
        host[0] != '[',
        !host.contains(':'),
        !port.contains(':'),
    ensures
        with_port(host) == host + ":623"@,
        with_port(host + ":"@ + port) == host + ":"@ + port,
{
    lemma_no_colons(host);
    lemma_no_colons(port);
    reveal_strlit(":");
    assert((":"@).drop_last() =~= seq![]);
    assert(colons(":"@) == 1) by {
        assert(colons(seq![]) == 0);
    }
    lemma_colons_add(host, ":"@);
    lemma_colons_add(host + ":"@, port);
    assert((host + ":"@ + port)[0] == host[0]);
}

/// An address with several colons is a bare IPv6 address and gets the default
/// port too. One in brackets has its port behind the bracket, and gets the
/// default where there is none.
pub proof fn law_default_port_of_ipv6(a: Chars, b: Chars, c: Chars, port: Chars)
    requires
        a.len() > 0 ==> a[0] != '[',
        !b.contains(']'),
    ensures
        with_port(a + ":"@ + b + ":"@ + c) == a + ":"@ + b + ":"@ + c + ":623"@,
        with_port("["@ + b + "]"@) == "["@ + b + "]"@ + ":623"@,
        with_port("["@ + b + "]"@ + ":"@ + port) == "["@ + b + "]"@ + ":"@ + port,
{
    reveal_strlit(":");
    reveal_strlit("[");
    reveal_strlit("]");
    reveal_strlit("]:");
    assert((":"@).drop_last() =~= seq![]);
    assert(colons(":"@) == 1) by {
        assert(colons(seq![]) == 0);
    }
    lemma_colons_add(a, ":"@);
    lemma_colons_add(a + ":"@, b);
    lemma_colons_add(a + ":"@ + b, ":"@);
    lemma_colons_add(a + ":"@ + b + ":"@, c);
    let plain = a + ":"@ + b + ":"@ + c;
    assert(plain[0] != '[') by {
        if a.len() > 0 {
            assert(plain[0] == a[0]);
        } else {
            assert(plain[0] == ':');
        }
    }
    let bare = "["@ + b + "]"@;
    let n = bare.len() as int;
    assert forall|i: int| !crate::text::occurs_at(bare, "]:"@, i) by {
        if crate::text::occurs_at(bare, "]:"@, i) {
            assert(bare.subrange(i, i + 2)[0] == bare[i]);
            assert(bare[i] == ']');
            if i == 0 {
                assert(bare[0] == '[');
            } else {
                assert(bare[i] == b[i - 1]);
                assert(b.contains(b[i - 1]));
            }
        }
    }
    assert(bare[0] == '[');
    let ported = bare + ":"@ + port;
    assert(ported[0] == '[');
    assert(ported.subrange(n - 1, n + 1) =~= "]:"@);
    assert(crate::text::occurs_at(ported, "]:"@, n - 1));
}

proof fn lemma_no_colons(s: Chars)
    requires
        !s.contains(':'),
    ensures
        colons(s) == 0,
    decreases s.len(),
{
    if s.len() > 0 {
        let t = s.drop_last();
        assert forall|i: int| 0 <= i < t.len() implies t[i] != ':' by {
            assert(s[i] != ':');
        }
        lemma_no_colons(t);
        assert(s[s.len() - 1] != ':');
    }
}

proof fn lemma_colons_add(a: Chars, b: Chars)
    ensures
        colons(a + b) == colons(a) + colons(b),
    decreases b.len(),
{
    if b.len() > 0 {
        assert((a + b).drop_last() =~= a + b.drop_last());
        lemma_colons_add(a, b.drop_last());
    } else {
        assert(a + b =~= a);
    }
}

/// A number is read in decimal, or in hexadecimal behind `0x`, and refused above
/// its bound.
pub proof fn law_numbers_are_read(n: nat, max: nat, width: nat)
    ensures
        literal(dec(n), max) == if n <= max {
            Some(n)
        } else {
            None
        },
        literal("0x"@ + hex(n, width), max) == if n <= max {
            Some(n)
        } else {
            None
        },
        literal("0X"@ + hex(n, width), max) == if n <= max {
            Some(n)
        } else {
            None
        },
{
    lemma_dec_reads_back(n);
    lemma_hex_reads_back(n, width);
    reveal_strlit("0x");
    reveal_strlit("0X");
    let d = dec(n);
    let h = hex(n, width);
    assert(crate::number::digit_worth(d[0], false) is Some);
    if d.len() >= 2 {
        assert(crate::number::digit_worth(d[1], false) is Some);
    }
    assert(crate::number::digit_worth(h[0], true) is Some);
    assert(("0x"@ + h).skip(2) =~= h);
    assert(("0X"@ + h).skip(2) =~= h);
}

/// Numbers of several bytes are stored lowest byte first.
pub proof fn law_lowest_byte_first(n: u16, b0: u8, b1: u8, b2: u8, b3: u8)
    ensures
        n == low_byte(n) + 256 * high_byte(n),
        le16(b0, b1) == b0 + 256 * b1,
        le32(b0, b1, b2, b3) == b0 + 256 * b1 + 256 * 256 * b2 + 256 * 256 * 256 * b3,
{
}

/// The channels are 0 to 11, 14 and 15.
pub proof fn law_channels(n: int)
    ensures
        is_channel(n) <==> 0 <= n <= 15 && n != 12 && n != 13,
{
}

/// The manufacturers that are known by name.
pub proof fn law_manufacturers()
    ensures
        vendor_name(2) == Some("IBM"@),
        vendor_name(9) == Some("Cisco"@),
        vendor_name(11) == Some("HP"@),
        vendor_name(14) == Some("Fujitsu Siemens"@),
        vendor_name(40) == Some("Dell"@),
        vendor_name(93) == Some("ASUS"@),
        vendor_name(176) == Some("Lenovo"@),
        vendor_name(311) == Some("Fujitsu"@),
        vendor_name(343) == Some("Intel"@),
        vendor_name(429) == Some("Gigabyte"@),
        vendor_name(412) == Some("Tyan"@),
        vendor_name(10876) == Some("Supermicro"@),
        vendor_name(41655) == Some("Quanta"@),
{
}

/// The identity of a controller is shown field by field.
pub proof fn law_identity(d: DeviceId, color: bool)
    ensures
        ({
            let lines = identity_lines(d, color);
            &&& lines.len() == 8
            &&& lines[3] == kv_line("Manufacturer"@, vendor_of(d.manufacturer_id), 18, color)
            &&& lines[4] == kv_line("Product ID"@, "0x"@ + hex(d.product_id as nat, 4), 18, color)
            &&& lines[5] == kv_line("Device ID"@, "0x"@ + hex(d.device_id as nat, 2), 18, color)
            &&& lines[6] == kv_line("Device revision"@, dec(d.device_revision as nat), 18, color)
            &&& lines[7] == kv_line(
                "Firmware"@,
                firmware_of(d.major_fw_revision, d.minor_fw_revision),
                18,
                color,
            )
        }),
        vendor_name(d.manufacturer_id) is None ==> vendor_of(d.manufacturer_id) == "0x"@ + hex(
            d.manufacturer_id as nat,
            6,
        ),
        firmware_of(d.major_fw_revision, d.minor_fw_revision) == dec(d.major_fw_revision as nat)
            + "."@ + crate::text::zero_padded(dec(d.minor_fw_revision as nat), 2),
{
}

// ---------------------------------------------------------------------
// Text
// ---------------------------------------------------------------------

/// Blanks at both ends are trimmed and nothing else is.
pub proof fn law_trimming(before: Chars, core: Chars, after: Chars)
    requires
        core.len() > 0,
        !is_space(core[0]),
        !is_space(core.last()),
        forall|i: int| 0 <= i < before.len() ==> is_space(#[trigger] before[i]),
        forall|i: int| 0 <= i < after.len() ==> is_space(#[trigger] after[i]),
    ensures
        trimmed(before + core + after) == core,
        is_space(' ') && is_space('\t') && is_space('\r') && is_space('\n'),
        forall|c: char| '!' <= c <= '~' ==> !#[trigger] is_space(c),
{
    lemma_trim_start(before, core + after);
    assert(before + core + after =~= before + (core + after));
    assert((core + after)[0] == core[0]);
    lemma_trim_end(core, after);
}

proof fn lemma_trim_start(before: Chars, rest: Chars)
    requires
        rest.len() > 0,
        !is_space(rest[0]),
        forall|i: int| 0 <= i < before.len() ==> is_space(#[trigger] before[i]),
    ensures
        trimmed_start(before + rest) == rest,
    decreases before.len(),
{
    let s = before + rest;
    if before.len() > 0 {
        let fewer = before.drop_first();
        assert(is_space(before[0]));
        assert(s.drop_first() =~= fewer + rest);
        assert forall|i: int| 0 <= i < fewer.len() implies is_space(#[trigger] fewer[i]) by {
            assert(is_space(before[i + 1]));
        }
        lemma_trim_start(fewer, rest);
    } else {
        assert(s =~= rest);
    }
}

proof fn lemma_trim_end(core: Chars, after: Chars)
    requires
        core.len() > 0,
        !is_space(core.last()),
        forall|i: int| 0 <= i < after.len() ==> is_space(#[trigger] after[i]),
    ensures
        trimmed_end(core + after) == core,
    decreases after.len(),
{
    let s = core + after;
    if after.len() > 0 {
        let fewer = after.drop_last();
        assert(is_space(after[after.len() - 1]));
        assert(s.drop_last() =~= core + fewer);
        assert forall|i: int| 0 <= i < fewer.len() implies is_space(#[trigger] fewer[i]) by {
            assert(is_space(after[i]));
        }
        lemma_trim_end(core, fewer);
    } else {
        assert(s =~= core);
    }
}

/// A text is found only where it is.
pub proof fn law_found_text_is_there(s: Chars, word: Chars)
    requires
        contains(s, word),
    ensures
        exists|before: Chars, after: Chars| s == #[trigger] (before + word + after),
{
    let i = choose|i: int| crate::text::occurs_at(s, word, i);
    let before = s.take(i);
    let after = s.skip(i + word.len());
    assert(s =~= before + s.subrange(i, i + word.len()) + after);
    assert(s == before + word + after);
}

/// Capital letters become small ones, and nothing else changes.
pub proof fn law_lower_case(s: Chars, i: int)
    requires
        0 <= i < s.len(),
    ensures
        lower(s).len() == s.len(),
        'A' <= s[i] <= 'Z' ==> lower(s)[i] as u32 == s[i] as u32 + 32,
        !('A' <= s[i] <= 'Z') ==> lower(s)[i] == s[i],
{
}

/// A text that was put between others is found there, and a text is found in
/// another in any case if it is when both are in lower case.
pub proof fn law_finding(before: Chars, word: Chars, after: Chars)
    ensures
        contains(before + word + after, word),
        contains(lower(before + word + after), lower(word)),
{
    let s = before + word + after;
    let at = before.len() as int;
    assert(s.subrange(at, at + word.len()) =~= word);
    assert(crate::text::occurs_at(s, word, at));
    assert(lower(s).subrange(at, at + word.len()) =~= lower(word));
    assert(crate::text::occurs_at(lower(s), lower(word), at));
}

/// Parts are joined with the separator between each two.
pub proof fn law_joining(parts: Seq<Chars>, part: Chars, separator: Chars)
    ensures
        joined(seq![], separator) == Seq::<char>::empty(),
        joined(seq![part], separator) == part,
        parts.len() > 0 ==> joined(parts.push(part), separator) == joined(parts, separator)
            + separator + part,
{
    if parts.len() > 0 {
        assert(parts.push(part).drop_last() =~= parts);
        assert(parts.push(part).len() > 1);
    }
}

/// Colors are escapes around the text: 1 bold, 2 dim, 31 red, 32 green, 33 yellow
/// and 36 cyan; without color the text stands alone.
pub proof fn law_colors(text: Chars)
    ensures
        bolded(text, true) == "\x1b[1m"@ + text + "\x1b[0m"@,
        dimmed(text, true) == "\x1b[2m"@ + text + "\x1b[0m"@,
        reddened(text, true) == "\x1b[31m"@ + text + "\x1b[0m"@,
        greened(text, true) == "\x1b[32m"@ + text + "\x1b[0m"@,
        yellowed(text, true) == "\x1b[33m"@ + text + "\x1b[0m"@,
        cyaned(text, true) == "\x1b[36m"@ + text + "\x1b[0m"@,
        bolded(text, false) == text && dimmed(text, false) == text && reddened(text, false) == text
            && greened(text, false) == text && yellowed(text, false) == text && cyaned(text, false)
            == text,
{
    reveal_strlit("\x1b[");
    reveal_strlit("m");
    reveal_strlit("1");
    reveal_strlit("2");
    reveal_strlit("31");
    reveal_strlit("32");
    reveal_strlit("33");
    reveal_strlit("36");
    reveal_strlit("\x1b[1m");
    reveal_strlit("\x1b[2m");
    reveal_strlit("\x1b[31m");
    reveal_strlit("\x1b[32m");
    reveal_strlit("\x1b[33m");
    reveal_strlit("\x1b[36m");
    assert("\x1b["@ + "1"@ + "m"@ =~= "\x1b[1m"@);
    assert("\x1b["@ + "2"@ + "m"@ =~= "\x1b[2m"@);
    assert("\x1b["@ + "31"@ + "m"@ =~= "\x1b[31m"@);
    assert("\x1b["@ + "32"@ + "m"@ =~= "\x1b[32m"@);
    assert("\x1b["@ + "33"@ + "m"@ =~= "\x1b[33m"@);
    assert("\x1b["@ + "36"@ + "m"@ =~= "\x1b[36m"@);
}

/// Keys and values are aligned: without color the value of every key that fits
/// starts at the same column, behind the key.
pub proof fn law_values_are_aligned(key: Chars, value: Chars, width: nat)
    requires
        key.len() <= width,
    ensures
        ({
            let line = kv_line(key, value, width, false);
            &&& line.len() == width + 4 + value.len()
            &&& line.subrange(2, (2 + key.len()) as int) == key
            &&& line.skip((width + 4) as int) == value
            &&& forall|i: int|
                (0 <= i < 2 || 2 + key.len() <= i < width + 4) ==> #[trigger] line[i] == ' '
        }),
        header_lines(key, false).len() == 3,
        header_lines(key, false)[1] == key,
{
    reveal_strlit("  ");
    let line = kv_line(key, value, width, false);
    assert(line.subrange(2, (2 + key.len()) as int) =~= key);
    assert(line.skip((width + 4) as int) =~= value);
}

// ---------------------------------------------------------------------
// The SDR repository
// ---------------------------------------------------------------------

/// Records are read by Get SDR (Storage, network function 0x0A, command 0x23):
/// the reservation, the record, the offset and the count, of which 0xFF means
/// all. A whole record is asked for without a reservation; a reservation is
/// taken by command 0x22; the header is five bytes.
pub proof fn law_sdr_requests(s: ScanView)
    ensures
        s.phase is Full ==> s.request() == Some(
            to_bmc(
                0x0A,
                0x23,
                seq![0u8, 0, (s.record_id % 256) as u8, (s.record_id / 256) as u8, 0, 0xFF],
            ),
        ),
        s.phase is Reserve ==> s.request() == Some(to_bmc(0x0A, 0x22, seq![])),
        s.phase is Header ==> s.request() == Some(
            to_bmc(
                0x0A,
                0x23,
                seq![
                    (s.chunked->0.reservation % 256) as u8,
                    (s.chunked->0.reservation / 256) as u8,
                    (s.record_id % 256) as u8,
                    (s.record_id / 256) as u8,
                    0,
                    5,
                ],
            ),
        ),
        s.wf() && s.phase is Body && s.phase->data.len() < 256 ==> s.request() == Some(
            to_bmc(
                0x0A,
                0x23,
                seq![
                    (s.chunked->0.reservation % 256) as u8,
                    (s.chunked->0.reservation / 256) as u8,
                    (s.record_id % 256) as u8,
                    (s.record_id / 256) as u8,
                    s.phase->data.len() as u8,
                    s.phase->requested as u8,
                ],
            ),
        ),
{
}

/// Only a controller that cannot return so many bytes (0xCA) is read in pieces:
/// of 32 bytes at first, of half as many each time it cannot return that many.
/// Any other completion code ends the walk.
pub proof fn law_when_records_are_read_in_pieces(s: ScanView, cc: u8, data: Seq<u8>)
    ensures
        s.phase is Full && cc == 0xCA ==> s.next(
            Ok(crate::conn::ResponseView { cc, data }),
        ).phase is Reserve,
        s.phase is Full && cc != 0xCA && cc != 0 ==> s.next(
            Ok(crate::conn::ResponseView { cc, data }),
        ).phase is Failed,
        s.phase is Reserve && cc == 0 && data.len() >= 2 ==> ({
            let n = s.next(Ok(crate::conn::ResponseView { cc, data }));
            n.phase is Header && n.chunked is Some && n.chunked->0.chunk_size == 32
                && n.chunked->0.reservation == data[0] + 256 * data[1]
        }),
        s.wf() && s.phase is Body && cc == 0xCA && s.phase->requested > 1 ==> ({
            let n = s.next(Ok(crate::conn::ResponseView { cc, data }));
            n.phase is Body && n.phase->requested == s.phase->requested / 2 && n.phase->data
                == s.phase->data
        }),
        s.phase is Body && cc != 0 && cc != 0xCA ==> s.next(
            Ok(crate::conn::ResponseView { cc, data }),
        ).phase is Failed,
{
}

/// A record answers a request for its own ID and the request for the first
/// record, and no other.
pub proof fn law_which_records_answer(requested: u16, received: u16, cc: u8)
    ensures
        sdr_id_answers(requested, received) <==> requested == received || requested == 0,
        completion(cc) == "completion code 0x"@ + hex(cc as nat, 2),
{
}

} // verus!
