//! The civil calendar: which date a day number stands for.

use vstd::prelude::*;

verus! {

/// A date of the proleptic Gregorian calendar.
pub ghost struct Date {
    pub year: int,
    pub month: int,
    pub day: int,
}

pub open spec fn is_leap(year: int) -> bool {
    year % 4 == 0 && (year % 100 != 0 || year % 400 == 0)
}

pub open spec fn year_len(year: int) -> int {
    if is_leap(year) {
        366
    } else {
        365
    }
}

pub open spec fn month_len(year: int, month: int) -> int {
    if month == 2 {
        if is_leap(year) {
            29
        } else {
            28
        }
    } else if month == 4 || month == 6 || month == 9 || month == 11 {
        30
    } else {
        31
    }
}

pub open spec fn is_date(date: Date) -> bool {
    1 <= date.month <= 12 && 1 <= date.day <= month_len(date.year, date.month)
}

/// Days from the start of year 0 to the start of `year`.
pub open spec fn days_before_year(year: int) -> int {
    365 * year + (year + 3) / 4 - (year + 99) / 100 + (year + 399) / 400
}

/// Days from the start of `year` to the start of its month `month`.
pub open spec fn days_before_month(year: int, month: int) -> int
    decreases month,
{
    if month <= 1 {
        0
    } else {
        days_before_month(year, month - 1) + month_len(year, month - 1)
    }
}

/// Days from 1970-01-01 to `date`.
pub open spec fn day_number(date: Date) -> int {
    days_before_year(date.year) + days_before_month(date.year, date.month) + date.day - 1
        - days_before_year(1970)
}

/// The date that is `days` days after 1970-01-01.
pub open spec fn date_of(days: int) -> Date {
    choose|date: Date| is_date(date) && day_number(date) == days
}

/// Years are counted with their leap days: a year starts as many days after the
/// one before as that one is long.
pub proof fn law_years_add_up(year: int)
    ensures
        days_before_year(0) == 0,
        days_before_year(year + 1) == days_before_year(year) + year_len(year),
{
}

proof fn lemma_months(year: int)
    ensures
        days_before_month(year, 1) == 0,
        days_before_month(year, 2) == 31,
        days_before_month(year, 3) == 31 + month_len(year, 2),
        days_before_month(year, 4) == 62 + month_len(year, 2),
        days_before_month(year, 5) == 92 + month_len(year, 2),
        days_before_month(year, 6) == 123 + month_len(year, 2),
        days_before_month(year, 7) == 153 + month_len(year, 2),
        days_before_month(year, 8) == 184 + month_len(year, 2),
        days_before_month(year, 9) == 215 + month_len(year, 2),
        days_before_month(year, 10) == 245 + month_len(year, 2),
        days_before_month(year, 11) == 276 + month_len(year, 2),
        days_before_month(year, 12) == 306 + month_len(year, 2),
{
    reveal_with_fuel(days_before_month, 13);
}

proof fn lemma_day_of_year(date: Date)
    requires
        is_date(date),
    ensures
        0 <= days_before_month(date.year, date.month) + date.day - 1 < year_len(date.year),
{
    lemma_months(date.year);
    let m = date.month;
    assert(m == 1 || m == 2 || m == 3 || m == 4 || m == 5 || m == 6 || m == 7 || m == 8 || m == 9
        || m == 10 || m == 11 || m == 12);
}

proof fn lemma_years_grow(a: int, b: int)
    requires
        a < b,
    ensures
        days_before_year(a) + year_len(a) <= days_before_year(b),
    decreases b - a,
{
    law_years_add_up(a);
    if a + 1 < b {
        lemma_years_grow(a + 1, b);
    }
}

/// Two dates with the same day number are the same date.
pub proof fn law_dates_are_distinct(a: Date, b: Date)
    requires
        is_date(a),
        is_date(b),
        day_number(a) == day_number(b),
    ensures
        a == b,
{
    lemma_day_of_year(a);
    lemma_day_of_year(b);
    if a.year < b.year {
        lemma_years_grow(a.year, b.year);
    }
    if b.year < a.year {
        lemma_years_grow(b.year, a.year);
    }
    assert(a.year == b.year);
    lemma_months(a.year);
    let m = a.month;
    let n = b.month;
    assert(m == 1 || m == 2 || m == 3 || m == 4 || m == 5 || m == 6 || m == 7 || m == 8 || m == 9
        || m == 10 || m == 11 || m == 12);
    assert(n == 1 || n == 2 || n == 3 || n == 4 || n == 5 || n == 6 || n == 7 || n == 8 || n == 9
        || n == 10 || n == 11 || n == 12);
}

proof fn lemma_year_of_era(doe: int)
    requires
        0 <= doe <= 146096,
    ensures
        ({
            let yoe = (doe - doe / 1460 + doe / 36524 - doe / 146096) / 365;
            let doy = doe - (365 * yoe + yoe / 4 - yoe / 100);
            &&& 0 <= yoe <= 399
            &&& 0 <= doy <= 365
            &&& doy == 365 ==> yoe % 4 == 3 && (yoe % 100 != 99 || yoe == 399)
        }),
{
}

proof fn lemma_era_start(era: int, yoe: int)
    requires
        0 <= yoe <= 399,
    ensures
        ({
            let year = yoe + era * 400;
            let days = era * 146097 + 365 * yoe + yoe / 4 - yoe / 100;
            &&& is_leap(year + 1) <==> yoe % 4 == 3 && (yoe % 100 != 99 || yoe == 399)
            &&& days_before_year(year) + month_len(year, 2) + 31 == days + 60
            &&& days_before_year(year + 1) == days + 366
        }),
{
    let year = yoe + era * 400;
    assert((year + 3) / 4 == (yoe + 3) / 4 + 100 * era);
    assert((year + 99) / 100 == (yoe + 99) / 100 + 4 * era);
    assert((year + 399) / 400 == (yoe + 399) / 400 + era);
    assert(year % 4 == yoe % 4);
    assert(year % 100 == yoe % 100);
    assert(year % 400 == yoe % 400);
    assert((year + 1) % 4 == (yoe + 1) % 4);
    assert((year + 1) % 100 == (yoe + 1) % 100);
    assert((year + 1) % 400 == (yoe + 1) % 400);
    law_years_add_up(year);
}

proof fn lemma_month_of_year(era: int, yoe: int, doy: int)
    requires
        0 <= yoe <= 399,
        0 <= doy <= 365,
        doy == 365 ==> yoe % 4 == 3 && (yoe % 100 != 99 || yoe == 399),
    ensures
        ({
            let mp = (5 * doy + 2) / 153;
            let month = if mp < 10 {
                mp + 3
            } else {
                mp - 9
            };
            let year = yoe + era * 400;
            let date = Date {
                year: if month <= 2 {
                    year + 1
                } else {
                    year
                },
                month,
                day: doy - (153 * mp + 2) / 5 + 1,
            };
            &&& 0 <= mp <= 11
            &&& is_date(date)
            &&& day_number(date) == era * 146097 + 365 * yoe + yoe / 4 - yoe / 100 + doy - 719468
        }),
{
    let mp = (5 * doy + 2) / 153;
    let month = if mp < 10 {
        mp + 3
    } else {
        mp - 9
    };
    let year = yoe + era * 400;
    lemma_months(year);
    lemma_months(year + 1);
    assert(0 <= mp <= 11);
    assert(mp == 0 || mp == 1 || mp == 2 || mp == 3 || mp == 4 || mp == 5 || mp == 6 || mp == 7 || mp
        == 8 || mp == 9 || mp == 10 || mp == 11);
    lemma_era_start(era, yoe);
}

/// The date that is `z` days after 1970-01-01, as year, month and day.
/// Algorithm from Howard Hinnant's `civil_from_days`.
pub fn civil_from_days(z: i64) -> (date: (i64, u32, u32))
    requires
        z <= i64::MAX - 719468,
    ensures
        is_date(Date { year: date.0 as int, month: date.1 as int, day: date.2 as int }),
        day_number(Date { year: date.0 as int, month: date.1 as int, day: date.2 as int }) == z,
        date_of(z as int) == (Date {
            year: date.0 as int,
            month: date.1 as int,
            day: date.2 as int,
        }),
{
    let z1: i64 = z + 719468;
    let shifted: i64 = if z1 >= 0 {
        z1
    } else {
        z1 - 146096
    };
    let era: i64 = if shifted >= 0 {
        shifted / 146097
    } else {
        -((-shifted) / 146097)
    };
    proof {
        assert(era == z1 as int / 146097);
    }
    let doe: i64 = z1 - era * 146097;
    proof {
        lemma_year_of_era(doe as int);
    }
    let yoe: i64 = (doe - doe / 1460 + doe / 36524 - doe / 146096) / 365;
    let y: i64 = yoe + era * 400;
    let doy: i64 = doe - (365 * yoe + yoe / 4 - yoe / 100);
    proof {
        lemma_month_of_year(era as int, yoe as int, doy as int);
    }
    let mp: i64 = (5 * doy + 2) / 153;
    let d: u32 = (doy - (153 * mp + 2) / 5 + 1) as u32;
    let m: u32 = if mp < 10 {
        (mp + 3) as u32
    } else {
        (mp - 9) as u32
    };
    let year: i64 = if m <= 2 {
        y + 1
    } else {
        y
    };
    proof {
        let date = Date { year: year as int, month: m as int, day: d as int };
        law_dates_are_distinct(date, date_of(z as int));
    }
    (year, m, d)
}

/// Every day has a date, and 32 bits of seconds after 1970 lie in the years 1970
/// to 2106.
pub proof fn lemma_date_of(days: int)
    ensures
        is_date(date_of(days)),
        day_number(date_of(days)) == days,
        0 <= days ==> 1970 <= date_of(days).year,
        0 <= days < 50000 ==> date_of(days).year <= 2106,
{
    let z = days + 719468;
    let era = z / 146097;
    let doe = z % 146097;
    lemma_year_of_era(doe);
    let yoe = (doe - doe / 1460 + doe / 36524 - doe / 146096) / 365;
    let doy = doe - (365 * yoe + yoe / 4 - yoe / 100);
    lemma_month_of_year(era, yoe, doy);
    let date = date_of(days);
    lemma_day_of_year(date);
    if date.year < 1970 {
        lemma_years_grow(date.year, 1970);
    }
    if date.year > 2106 {
        lemma_years_grow(2106, date.year);
    }
}

} // verus!
