//! Points in time and their RFC 3339 form.

use vstd::prelude::*;

use time::format_description::well_known::Rfc3339;
use time::OffsetDateTime;

use crate::calendar::{date_of, lemma_date_of};
use crate::number::{digit_worth, lemma_bad_digit, lemma_dec_reads_back, parse_i64, signed};
use crate::text::{dec, dec_text, digit, zero_padded, Chars};

verus! {

/// The date of a point in time, `YYYY-MM-DD`.
pub open spec fn date_text(seconds: int) -> Chars {
    let date = date_of(seconds / 86400);
    zero_padded(dec(date.year as nat), 4) + "-"@ + zero_padded(dec(date.month as nat), 2) + "-"@
        + zero_padded(dec(date.day as nat), 2)
}

/// The time of day of a point in time, `HH:MM:SS`.
pub open spec fn time_text(seconds: int) -> Chars {
    let s = (seconds % 86400) as nat;
    zero_padded(dec(s / 3600), 2) + ":"@ + zero_padded(dec(s / 60 % 60), 2) + ":"@ + zero_padded(
        dec(s % 60),
        2,
    )
}

/// The RFC 3339 form of a point in time in UTC.
pub open spec fn rfc3339(seconds: int) -> Chars {
    date_text(seconds) + "T"@ + time_text(seconds) + "Z"@
}

/// The Unix time that an RFC 3339 text stands for.
pub uninterp spec fn rfc3339_seconds(text: Seq<char>) -> Option<i64>;

/// `time::OffsetDateTime::from_unix_timestamp` and `OffsetDateTime::format` with
/// `Rfc3339`: the point in time in UTC, to the second, for the years 0 to 9999
/// and nothing outside them.
#[verifier::external_body]
fn format_rfc3339(seconds: i64) -> (r: Option<String>)
    ensures
        match r {
            Some(text) => 0 <= date_of(seconds as int / 86400).year <= 9999 && text@ == rfc3339(
                seconds as int,
            ),
            None => !(0 <= date_of(seconds as int / 86400).year <= 9999),
        },
{
    OffsetDateTime::from_unix_timestamp(seconds).ok()?.format(&Rfc3339).ok()
}

/// `time::OffsetDateTime::parse` with `Rfc3339`, and `unix_timestamp` of the
/// result. Which text stands for which time is named; the RFC 3339 form of a
/// 32-bit Unix time stands for that time.
#[verifier::external_body]
fn parse_rfc3339(value: &str) -> (r: Option<i64>)
    ensures
        r == rfc3339_seconds(value@),
        forall|t: u32| value@ == #[trigger] rfc3339(t as int) ==> r == Some(t as i64),
{
    OffsetDateTime::parse(value, &Rfc3339).ok().map(|time| time.unix_timestamp())
}

/// Renders a 32-bit Unix time in RFC 3339 form.
pub fn format_timestamp(timestamp: u32) -> (s: String)
    ensures
        s@ == rfc3339(timestamp as int),
{
    proof {
        lemma_date_of(timestamp as int / 86400);
    }
    match format_rfc3339(timestamp as i64) {
        Some(text) => text,
        None => dec_text(timestamp as u64),
    }
}

/// The Unix time that `value` stands for: a decimal number, or an RFC 3339 text.
pub open spec fn time_of(value: Chars) -> Option<int> {
    match signed(value) {
        Some(unix) => Some(unix),
        None => match rfc3339_seconds(value) {
            Some(unix) => Some(unix as int),
            None => None,
        },
    }
}

/// Reads a Unix time: a decimal number, or an RFC 3339 text.
pub fn read_time(value: &str) -> (r: Option<i64>)
    ensures
        match r {
            Some(t) => time_of(value@) == Some(t as int),
            None => time_of(value@) is None,
        },
        forall|t: u32| value@ == #[trigger] rfc3339(t as int) ==> r == Some(t as i64),
{
    proof {
        assert forall|t: u32| value@ == #[trigger] rfc3339(t as int) implies signed(value@) is None by {
            lemma_rfc3339_shape(t);
        }
    }
    match parse_i64(value) {
        Some(unix) => Some(unix),
        None => parse_rfc3339(value),
    }
}

/// A Unix time in decimal stands for itself, before 1970 too.
pub proof fn law_unix_times_read_back(t: i64)
    ensures
        time_of(
            if t < 0 {
                "-"@ + dec((-t) as nat)
            } else {
                dec(t as nat)
            },
        ) == Some(t as int),
{
    if t < 0 {
        let digits = dec((-t) as nat);
        reveal_strlit("-");
        lemma_dec_reads_back((-t) as nat);
        assert(("-"@ + digits).skip(1) =~= digits);
    } else {
        lemma_dec_reads_back(t as nat);
        assert(digit_worth(dec(t as nat)[0], false) is Some);
    }
}

/// The RFC 3339 form of a 32-bit Unix time starts with a digit and is no number.
pub proof fn lemma_rfc3339_shape(t: u32)
    ensures
        rfc3339(t as int).len() > 0,
        rfc3339(t as int)[0] == '1' || rfc3339(t as int)[0] == '2',
        signed(rfc3339(t as int)) is None,
{
    let days = t as int / 86400;
    lemma_date_of(days);
    let y = date_of(days).year as nat;
    reveal_with_fuel(dec, 5);
    assert(1970 <= y <= 2106);
    let year = zero_padded(dec(y), 4);
    assert(dec(y).len() == 4);
    assert(year =~= dec(y));
    assert(year[0] == digit((y / 1000) as int));
    reveal_strlit("-");
    let s = rfc3339(t as int);
    assert(s[0] == year[0]);
    assert(s[4] == '-');
    lemma_bad_digit(s, false, 4);
}

} // verus!
