use vstd::prelude::*;

use crate::text::decimal;

verus! {

/// The proleptic Gregorian date of a day counted from 1970-01-01, as
/// `(year, month, day)`.
pub open spec fn civil_date(days: int) -> (int, int, int) {
    let z = days + 719468;
    let era = z / 146097;
    let doe = z % 146097;
    let yoe = (doe - doe / 1460 + doe / 36524 - doe / 146096) / 365;
    let doy = doe - (365 * yoe + yoe / 4 - yoe / 100);
    let mp = (5 * doy + 2) / 153;
    let d = doy - (153 * mp + 2) / 5 + 1;
    let m = if mp < 10 {
        mp + 3
    } else {
        mp - 9
    };
    (yoe + era * 400 + if m <= 2 {
        1int
    } else {
        0int
    }, m, d)
}

proof fn lemma_day_of_year_bounds(doe: int)
    requires
        0 <= doe < 146097,
    ensures
        ({
            let yoe = (doe - doe / 1460 + doe / 36524 - doe / 146096) / 365;
            let doy = doe - (365 * yoe + yoe / 4 - yoe / 100);
            0 <= yoe < 400 && 0 <= doy < 366
        }),
{
}

/// The date of a day counted from 1970-01-01, for the days within some
/// 270,000 years of it (those of every date chrono represents).
pub fn civil_from_days(days: i64) -> (res: (i32, u32, u32))
    requires
        -100_000_000 <= days <= 100_000_000,
    ensures
        res.0 as int == civil_date(days as int).0,
        res.1 as int == civil_date(days as int).1,
        res.2 as int == civil_date(days as int).2,
        1 <= res.1 <= 12,
        1 <= res.2 <= days_in_month(res.0 as int, res.1 as int),
        day_number(res.0 as int, res.1 as int, res.2 as int) == days,
{
    proof {
        lemma_civil_date_counts_back(days as int);
    }
    let z: u64 = (days + 102_987_368) as u64;
    let era: u64 = z / 146097;
    let doe: u64 = z % 146097;
    proof {
        lemma_day_of_year_bounds(doe as int);
    }
    let yoe: u64 = (doe - doe / 1460 + doe / 36524 - doe / 146096) / 365;
    let doy: u64 = doe - (365 * yoe + yoe / 4 - yoe / 100);
    let mp: u64 = (5 * doy + 2) / 153;
    let d: u64 = doy - (153 * mp + 2) / 5 + 1;
    let m: u64 = if mp < 10 {
        mp + 3
    } else {
        mp - 9
    };
    let y: i64 = (yoe as i64) + ((era as i64) - 700) * 400 + if m <= 2 {
        1i64
    } else {
        0i64
    };
    proof {
        let zi = days + 719468;
        assert(zi / 146097 == era - 700);
        assert(zi % 146097 == doe);
    }
    (y as i32, m as u32, d as u32)
}


/// Whether a year is a leap year of the proleptic Gregorian calendar.
pub open spec fn is_leap(year: int) -> bool {
    year % 4 == 0 && (year % 100 != 0 || year % 400 == 0)
}

/// The number of days in a month of a year.
pub open spec fn days_in_month(year: int, month: int) -> int {
    if month == 2 {
        if is_leap(year) {
            29
        } else {
            28
        }
    } else if month == 4 || month == 6 || month == 9 || month == 11 {
        30
    } else {
        31
    }
}

/// Whether chrono's `NaiveDate::from_ymd_opt` has a date for a year, month
/// and day: a real day of a year from -262143 to 262142.
pub open spec fn date_exists(year: int, month: int, day: int) -> bool {
    &&& -262143 <= year <= 262142
    &&& 1 <= month <= 12
    &&& 1 <= day <= days_in_month(year, month)
}

/// Whether the first day of a month exists for chrono.
pub open spec fn first_day_exists(year: int, month: int) -> bool {
    date_exists(year, month, 1)
}

/// The number of days in a month of a year.
pub fn month_length(year: i32, month: u32) -> (res: u32)
    requires
        -262143 <= year <= 262142,
    ensures
        res as int == days_in_month(year as int, month as int),
{
    if month == 2 {
        let y: u64 = (year as i64 + 400_000) as u64;
        proof {
            assert(y % 4 == year % 4);
            assert(y % 100 == year % 100);
            assert(y % 400 == year % 400);
        }
        if y % 4 == 0 && (y % 100 != 0 || y % 400 == 0) {
            29
        } else {
            28
        }
    } else if month == 4 || month == 6 || month == 9 || month == 11 {
        30
    } else {
        31
    }
}

/// Whether the first day of a month exists for chrono.
pub fn month_exists(year: i32, month: u32) -> (res: bool)
    ensures
        res == first_day_exists(year as int, month as int),
{
    -262143 <= year && year <= 262142 && 1 <= month && month <= 12
}

/// The abbreviated English name of a month, as `%b` writes it.
pub open spec fn month_abbrev(month: int) -> Seq<char> {
    if month == 1 {
        "Jan"@
    } else if month == 2 {
        "Feb"@
    } else if month == 3 {
        "Mar"@
    } else if month == 4 {
        "Apr"@
    } else if month == 5 {
        "May"@
    } else if month == 6 {
        "Jun"@
    } else if month == 7 {
        "Jul"@
    } else if month == 8 {
        "Aug"@
    } else if month == 9 {
        "Sep"@
    } else if month == 10 {
        "Oct"@
    } else if month == 11 {
        "Nov"@
    } else {
        "Dec"@
    }
}

/// Digits padded with zeros on the left to at least four.
pub open spec fn pad4(digits: Seq<char>) -> Seq<char> {
    if digits.len() >= 4 {
        digits
    } else {
        Seq::new((4 - digits.len()) as nat, |i: int| '0') + digits
    }
}

/// A year as `%Y` writes it: at least four digits, with a sign before a
/// negative year or one past 9999.
pub open spec fn year_text(year: int) -> Seq<char> {
    if year < 0 {
        seq!['-'] + pad4(decimal((-year) as nat))
    } else if year > 9999 {
        seq!['+'] + pad4(decimal(year as nat))
    } else {
        pad4(decimal(year as nat))
    }
}

/// A day as `%b %-d` writes it, as in `Jan 5`.
pub open spec fn month_day_text(month: int, day: int) -> Seq<char> {
    month_abbrev(month) + seq![' '] + decimal(day as nat)
}

/// A day as `%b %-d, %Y` writes it, as in `Jan 31, 2026`.
pub open spec fn month_day_year_text(year: int, month: int, day: int) -> Seq<char> {
    month_day_text(month, day) + seq![',', ' '] + year_text(year)
}

/// `NaiveDate::from_ymd_opt(year, month, day)`, written by chrono with the
/// format `%b %-d`. Claims the text chrono's English month abbreviations and
/// its unpadded day give; the date exists, so the unwrap cannot fail.
#[verifier::external_body]
pub(crate) fn format_month_day(year: i32, month: u32, day: u32) -> (res: String)
    requires
        date_exists(year as int, month as int, day as int),
    ensures
        res@ == month_day_text(month as int, day as int),
{
    chrono::NaiveDate::from_ymd_opt(year, month, day).unwrap().format("%b %-d").to_string()
}

/// `NaiveDate::from_ymd_opt(year, month, day)`, written by chrono with the
/// format `%b %-d, %Y`. Claims the text of the month abbreviation, the
/// unpadded day and the year as chrono's `write_year` pads and signs it; the
/// date exists, so the unwrap cannot fail.
#[verifier::external_body]
pub(crate) fn format_month_day_year(year: i32, month: u32, day: u32) -> (res: String)
    requires
        date_exists(year as int, month as int, day as int),
    ensures
        res@ == month_day_year_text(year as int, month as int, day as int),
{
    chrono::NaiveDate::from_ymd_opt(year, month, day).unwrap().format("%b %-d, %Y").to_string()
}


/// The leap years from year 0 up to and including `year` (for a negative
/// year, minus those after it and up to -1).
pub open spec fn leap_years_through(year: int) -> int {
    year / 4 - year / 100 + year / 400
}

/// The days from 1970-01-01 to the first of January of `year`.
pub open spec fn days_before_year(year: int) -> int {
    365 * (year - 1970) + leap_years_through(year - 1) - leap_years_through(1969)
}

/// The days from the first of January to the first of `month` in `year`.
pub open spec fn days_before_month(year: int, month: int) -> int
    decreases month,
{
    if month <= 1 {
        0
    } else {
        days_before_month(year, month - 1) + days_in_month(year, month - 1)
    }
}

/// The day, counted from 1970-01-01, of a date.
pub open spec fn day_number(year: int, month: int, day: int) -> int {
    days_before_year(year) + days_before_month(year, month) + day - 1
}

proof fn lemma_leap_shift(era: int, x: int)
    ensures
        leap_years_through(400 * era + x) == 97 * era + leap_years_through(x),
        is_leap(400 * era + x) == is_leap(x),
{
    assert((400 * era + x) / 4 == 100 * era + x / 4);
    assert((400 * era + x) / 100 == 4 * era + x / 100);
    assert((400 * era + x) / 400 == era + x / 400);
    assert((400 * era + x) % 4 == x % 4);
    assert((400 * era + x) % 100 == x % 100);
    assert((400 * era + x) % 400 == x % 400);
}

#[verifier::spinoff_prover]
proof fn lemma_leap_step(x: int)
    ensures
        leap_years_through(x) - leap_years_through(x - 1) == if is_leap(x) {
            1int
        } else {
            0int
        },
{
    if x % 4 == 0 {
        assert(x / 4 == (x - 1) / 4 + 1);
    } else {
        assert(x / 4 == (x - 1) / 4);
    }
    if x % 100 == 0 {
        assert(x / 100 == (x - 1) / 100 + 1);
        assert(x % 4 == 0);
    } else {
        assert(x / 100 == (x - 1) / 100);
    }
    if x % 400 == 0 {
        assert(x / 400 == (x - 1) / 400 + 1);
        assert(x % 100 == 0);
    } else {
        assert(x / 400 == (x - 1) / 400);
    }
}

#[verifier::spinoff_prover]
proof fn lemma_last_day_of_year(doe: int)
    requires
        0 <= doe < 146097,
    ensures
        ({
            let yoe = (doe - doe / 1460 + doe / 36524 - doe / 146096) / 365;
            let doy = doe - (365 * yoe + yoe / 4 - yoe / 100);
            doy <= 364 + if is_leap(yoe + 1) {
                1int
            } else {
                0int
            }
        }),
{
}

proof fn lemma_month_starts(y: int, mp: int)
    requires
        0 <= mp <= 11,
    ensures
        mp <= 9 ==> days_before_month(y, mp + 3) == 59 + (if is_leap(y) {
            1int
        } else {
            0int
        }) + (153 * mp + 2) / 5,
        mp <= 9 ==> days_in_month(y, mp + 3) == (153 * (mp + 1) + 2) / 5 - (153 * mp + 2) / 5,
        mp >= 10 ==> days_before_month(y, mp - 9) == (153 * mp + 2) / 5 - 306,
        mp == 10 ==> days_in_month(y, 1) == 31,
{
    reveal_with_fuel(days_before_month, 13);
}

/// `civil_date` gives a real date, and counting the days up to that date
/// gives back the day it started from.
#[verifier::spinoff_prover]
pub proof fn lemma_civil_date_counts_back(days: int)
    requires
        -100_000_000 <= days <= 100_000_000,
    ensures
        ({
            let (y, m, d) = civil_date(days);
            &&& 1 <= m <= 12
            &&& 1 <= d <= days_in_month(y, m)
            &&& day_number(y, m, d) == days
        }),
{
    let z = days + 719468;
    let era = z / 146097;
    let doe = z % 146097;
    lemma_day_of_year_bounds(doe);
    lemma_last_day_of_year(doe);
    let yoe = (doe - doe / 1460 + doe / 36524 - doe / 146096) / 365;
    let doy = doe - (365 * yoe + yoe / 4 - yoe / 100);
    let mp = (5 * doy + 2) / 153;
    let big = 400 * era + yoe;
    lemma_leap_shift(era, yoe - 1);
    lemma_leap_shift(era, yoe);
    lemma_leap_shift(era, yoe + 1);
    lemma_leap_step(yoe);
    lemma_leap_step(big);
    assert(yoe / 400 == 0);
    // The first of March of the year of era `era` and year-of-era `yoe`.
    let march = days_before_year(big) + 59 + if is_leap(big) {
        1int
    } else {
        0int
    };
    assert(march == days - doy);
    lemma_month_starts(big, mp);
    lemma_month_starts(big + 1, mp);
    if mp >= 10 {
        assert(days_before_year(big + 1) == march + 306);
    }
}

} // verus!
