//! UTC calendar time of a count of microseconds since the Unix epoch, and
//! its ISO 8601 text with six fraction digits ("1970-01-01T00:00:00.000000Z").

use vstd::prelude::*;
use crate::text::{append_decimal_u64, append_padded_decimal, decimal_digits, padded_digits};

verus! {

pub const MICROS_PER_SECOND: u64 = 1_000_000;
pub const SECONDS_PER_DAY: u64 = 86_400;
pub const MICROS_PER_DAY: u64 = 86_400_000_000;

/// Gregorian leap year.
pub open spec fn is_leap_year(y: int) -> bool {
    y % 4 == 0 && (y % 100 != 0 || y % 400 == 0)
}

/// Days in year `y`.
pub open spec fn year_len(y: int) -> nat {
    if is_leap_year(y) { 366 } else { 365 }
}

/// Days in month `m` (1 = January) of year `y`.
pub open spec fn month_len(y: int, m: int) -> nat {
    if m == 2 {
        if is_leap_year(y) { 29 } else { 28 }
    } else if m == 4 || m == 6 || m == 9 || m == 11 {
        30
    } else {
        31
    }
}

/// The year and the day within it (0-based) of the day `d` days after
/// 1 January of year `y`: whole years are counted off one by one.
pub open spec fn year_and_day(y: int, d: nat) -> (int, nat)
    decreases d,
{
    if d < year_len(y) {
        (y, d)
    } else {
        year_and_day(y + 1, (d - year_len(y)) as nat)
    }
}

/// The month and the day within it (0-based) of day `d` of year `y`,
/// counting from month `m`: whole months are counted off one by one.
pub open spec fn month_and_day(y: int, m: int, d: nat) -> (int, nat)
    decreases 12 - m,
{
    if m >= 12 || d < month_len(y, m) {
        (m, d)
    } else {
        month_and_day(y, m + 1, (d - month_len(y, m)) as nat)
    }
}

/// The UTC calendar fields of `micros` microseconds after the Unix epoch.
pub struct UtcFields {
    pub year: u64,
    /// 1 = January
    pub month: u64,
    /// 1-based day of the month
    pub day: u64,
    pub hour: u64,
    pub minute: u64,
    pub second: u64,
    pub micros: u64,
}

/// Calendar fields of `micros`: the date counted in whole years and months
/// from 1 January 1970, the time of day and the fraction of a second.
pub open spec fn utc_fields(micros: u64) -> UtcFields {
    let days = micros / MICROS_PER_DAY;
    let yd = year_and_day(1970, days as nat);
    let md = month_and_day(yd.0, 1, yd.1);
    let sec_of_day = (micros / MICROS_PER_SECOND) % SECONDS_PER_DAY;
    UtcFields {
        year: yd.0 as u64,
        month: md.0 as u64,
        day: (md.1 + 1) as u64,
        hour: (sec_of_day / 3600) as u64,
        minute: (sec_of_day % 3600 / 60) as u64,
        second: (sec_of_day % 60) as u64,
        micros: micros % MICROS_PER_SECOND,
    }
}

/// The year as text: at least four digits.
pub open spec fn year_text(y: nat) -> Seq<char> {
    if y < 10000 { padded_digits(y, 4) } else { decimal_digits(y) }
}

/// ISO 8601 text of `micros` in UTC: "YYYY-MM-DDTHH:MM:SS.ffffffZ".
pub open spec fn utc_text(micros: u64) -> Seq<char> {
    let f = utc_fields(micros);
    year_text(f.year as nat) + seq!['-'] + padded_digits(f.month as nat, 2) + seq!['-'] + padded_digits(
        f.day as nat,
        2,
    ) + seq!['T'] + padded_digits(f.hour as nat, 2) + seq![':'] + padded_digits(f.minute as nat, 2) + seq![':']
        + padded_digits(f.second as nat, 2) + seq!['.'] + padded_digits(f.micros as nat, 6) + seq!['Z']
}

fn is_leap(y: u64) -> (r: bool)
    ensures
        r == is_leap_year(y as int),
{
    y % 4 == 0 && (y % 100 != 0 || y % 400 == 0)
}

fn days_in_year(y: u64) -> (r: u64)
    ensures
        r == year_len(y as int),
{
    if is_leap(y) { 366 } else { 365 }
}

fn days_in_month(y: u64, m: u64) -> (r: u64)
    ensures
        r == month_len(y as int, m as int),
{
    if m == 2 {
        if is_leap(y) { 29 } else { 28 }
    } else if m == 4 || m == 6 || m == 9 || m == 11 {
        30
    } else {
        31
    }
}

/// The UTC calendar fields of `micros` microseconds after the epoch.
pub fn utc_fields_of(micros: u64) -> (r: UtcFields)
    ensures
        r == utc_fields(micros),
{
    let days = micros / MICROS_PER_DAY;
    assert(days <= 213_503_982) by (nonlinear_arith)
        requires
            days == micros / 86_400_000_000u64,
            micros <= u64::MAX,
    ;
    let mut year: u64 = 1970;
    let mut d: u64 = days;
    while d >= days_in_year(year)
        invariant
            year_and_day(1970, days as nat) == year_and_day(year as int, d as nat),
            1970 <= year,
            year - 1970 + d <= days,
            days <= 213_503_982,
        decreases d,
    {
        d = d - days_in_year(year);
        year = year + 1;
    }
    let ghost day_of_year = d as nat;
    assert(year_and_day(1970, days as nat) == (year as int, day_of_year));
    let mut month: u64 = 1;
    while month < 12 && d >= days_in_month(year, month)
        invariant
            d <= days <= 213_503_982,
            month_and_day(year as int, 1, day_of_year) == month_and_day(
                year as int,
                month as int,
                d as nat,
            ),
            1 <= month <= 12,
        decreases 12 - month,
    {
        d = d - days_in_month(year, month);
        month = month + 1;
    }
    let sec_of_day = (micros / MICROS_PER_SECOND) % SECONDS_PER_DAY;
    UtcFields {
        year,
        month,
        day: d + 1,
        hour: sec_of_day / 3600,
        minute: sec_of_day % 3600 / 60,
        second: sec_of_day % 60,
        micros: micros % MICROS_PER_SECOND,
    }
}

/// ISO 8601 text of `micros` microseconds after the epoch, in UTC with six
/// fraction digits; 0 gives "1970-01-01T00:00:00.000000Z".
pub fn utc_timestamp(micros: u64) -> (r: String)
    ensures
        r@ == utc_text(micros),
{
    let f = utc_fields_of(micros);
    let mut s = String::new();
    if f.year < 10000 {
        append_padded_decimal(&mut s, f.year, 4);
    } else {
        append_decimal_u64(&mut s, f.year);
    }
    proof {
        reveal_strlit("-");
        reveal_strlit("T");
        reveal_strlit(":");
        reveal_strlit(".");
        reveal_strlit("Z");
    }
    s.append("-");
    append_padded_decimal(&mut s, f.month, 2);
    s.append("-");
    append_padded_decimal(&mut s, f.day, 2);
    s.append("T");
    append_padded_decimal(&mut s, f.hour, 2);
    s.append(":");
    append_padded_decimal(&mut s, f.minute, 2);
    s.append(":");
    append_padded_decimal(&mut s, f.second, 2);
    s.append(".");
    append_padded_decimal(&mut s, f.micros, 6);
    s.append("Z");
    assert(s@ =~= utc_text(micros));
    s
}

/// Days from the start of month `m` of year `y` to the end of the year.
pub open spec fn days_from_month(y: int, m: int) -> nat
    decreases 13 - m,
{
    if m > 12 || m < 1 {
        0
    } else {
        month_len(y, m) + days_from_month(y, m + 1)
    }
}

/// The Gregorian month lengths: 31 for January, March, May, July, August,
/// October and December, 30 for April, June, September and November, 29
/// for February of a leap year and 28 otherwise; together they make up the
/// year.
pub proof fn law_month_lengths(y: int)
    ensures
        month_len(y, 1) == 31,
        month_len(y, 2) == (if is_leap_year(y) { 29nat } else { 28nat }),
        month_len(y, 3) == 31,
        month_len(y, 4) == 30,
        month_len(y, 5) == 31,
        month_len(y, 6) == 30,
        month_len(y, 7) == 31,
        month_len(y, 8) == 31,
        month_len(y, 9) == 30,
        month_len(y, 10) == 31,
        month_len(y, 11) == 30,
        month_len(y, 12) == 31,
        days_from_month(y, 1) == year_len(y),
{
    reveal_with_fuel(days_from_month, 13);
}

/// Leap years are the Gregorian ones: every fourth year, except centuries
/// not divisible by 400.
pub proof fn law_leap_years()
    ensures
        is_leap_year(2024),
        !is_leap_year(2023),
        !is_leap_year(1900),
        is_leap_year(2000),
        year_len(2024) == 366,
        year_len(2025) == 365,
{
}

/// The first day of every month, counted from 1 January (0-based): a day
/// of the year maps to the month that starts on or before it.
pub proof fn law_month_starts(y: int)
    ensures
        ({
            let leap: nat = if is_leap_year(y) { 1 } else { 0 };
            &&& month_and_day(y, 1, 0) == (1int, 0nat)
            &&& month_and_day(y, 1, 31) == (2int, 0nat)
            &&& month_and_day(y, 1, 59 + leap) == (3int, 0nat)
            &&& month_and_day(y, 1, 90 + leap) == (4int, 0nat)
            &&& month_and_day(y, 1, 120 + leap) == (5int, 0nat)
            &&& month_and_day(y, 1, 151 + leap) == (6int, 0nat)
            &&& month_and_day(y, 1, 181 + leap) == (7int, 0nat)
            &&& month_and_day(y, 1, 212 + leap) == (8int, 0nat)
            &&& month_and_day(y, 1, 243 + leap) == (9int, 0nat)
            &&& month_and_day(y, 1, 273 + leap) == (10int, 0nat)
            &&& month_and_day(y, 1, 304 + leap) == (11int, 0nat)
            &&& month_and_day(y, 1, 334 + leap) == (12int, 0nat)
            &&& month_and_day(y, 1, 364 + leap) == (12int, 30nat)
        }),
{
    reveal_with_fuel(month_and_day, 13);
}

proof fn lemma_year_and_day(y: int, d: nat)
    ensures
        y <= year_and_day(y, d).0 <= y + d,
        year_and_day(y, d).1 < year_len(year_and_day(y, d).0),
    decreases d,
{
    if d >= year_len(y) {
        lemma_year_and_day(y + 1, (d - year_len(y)) as nat);
    }
}

proof fn lemma_month_and_day(y: int, m: int, d: nat)
    requires
        1 <= m <= 12,
        d < days_from_month(y, m),
    ensures
        m <= month_and_day(y, m, d).0 <= 12,
        month_and_day(y, m, d).1 < month_len(y, month_and_day(y, m, d).0),
    decreases 12 - m,
{
    reveal_with_fuel(days_from_month, 2);
    if m < 12 && d >= month_len(y, m) {
        lemma_month_and_day(y, m + 1, (d - month_len(y, m)) as nat);
    }
}

/// Every instant gets a valid calendar date and time: a month from 1 to
/// 12, a day that exists in that month of that year, and a time of day
/// within 24 hours.
pub proof fn law_fields_valid(micros: u64)
    ensures
        ({
            let f = utc_fields(micros);
            &&& 1970 <= f.year
            &&& 1 <= f.month <= 12
            &&& 1 <= f.day <= month_len(f.year as int, f.month as int)
            &&& f.hour < 24
            &&& f.minute < 60
            &&& f.second < 60
            &&& f.micros < 1_000_000
        }),
{
    let days = micros / MICROS_PER_DAY;
    assert(days <= 213_503_982) by (nonlinear_arith)
        requires
            days == micros / 86_400_000_000u64,
            micros <= u64::MAX,
    ;
    lemma_year_and_day(1970, days as nat);
    let yd = year_and_day(1970, days as nat);
    law_month_lengths(yd.0);
    lemma_month_and_day(yd.0, 1, yd.1);
}

} // verus!
