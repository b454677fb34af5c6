//! ISO-8601 rendering of timestamps given as nanoseconds since the Unix
//! epoch.  The civil date is computed by walking years and months; its
//! correctness is stated against `civil_to_days`, the independent count of
//! days from the epoch to a given date.

use vstd::prelude::*;
use crate::text::{dec_of, pad_left, string_push, push_dec_padded, lemma_dec_of_len_le};

verus! {

pub const NS_PER_SEC: u64 = 1000000000;

pub const NS_PER_DAY: u64 = 86400000000000;

pub const SECS_PER_DAY: u64 = 86400;

pub open spec fn is_leap(y: int) -> bool {
    (y % 4 == 0 && y % 100 != 0) || y % 400 == 0
}

pub open spec fn days_in_year(y: int) -> int {
    if is_leap(y) {
        366
    } else {
        365
    }
}

pub open spec fn days_in_month(y: int, m: int) -> int {
    if m == 1 {
        31
    } else if m == 2 {
        if is_leap(y) {
            29
        } else {
            28
        }
    } else if m == 3 {
        31
    } else if m == 4 {
        30
    } else if m == 5 {
        31
    } else if m == 6 {
        30
    } else if m == 7 {
        31
    } else if m == 8 {
        31
    } else if m == 9 {
        30
    } else if m == 10 {
        31
    } else if m == 11 {
        30
    } else {
        31
    }
}

/// Days from 1970-01-01 to January 1 of year `y`.
pub open spec fn days_before_year(y: int) -> int
    decreases y,
{
    if y <= 1970 {
        0
    } else {
        days_before_year(y - 1) + days_in_year(y - 1)
    }
}

/// Days from January 1 to the first of month `m` in year `y`.
pub open spec fn days_before_month(y: int, m: int) -> int
    decreases m,
{
    if m <= 1 {
        0
    } else {
        days_before_month(y, m - 1) + days_in_month(y, m - 1)
    }
}

/// Days from 1970-01-01 to the civil date `y`-`m`-`d`.
pub open spec fn civil_to_days(y: int, m: int, d: int) -> int {
    days_before_year(y) + days_before_month(y, m) + (d - 1)
}

/// The year reached after consuming `rem` days starting at January 1 of `y`,
/// together with the days left over within that year.
pub open spec fn year_of(y: int, rem: int) -> (int, int)
    decreases rem,
{
    if rem < days_in_year(y) {
        (y, rem)
    } else {
        year_of(y + 1, rem - days_in_year(y))
    }
}

/// The month reached after consuming `rem` days starting at the first of
/// month `m` of year `y`, together with the days left over.
pub open spec fn month_of(y: int, m: int, rem: int) -> (int, int)
    decreases rem,
{
    if rem < days_in_month(y, m) {
        (m, rem)
    } else {
        month_of(y, m + 1, rem - days_in_month(y, m))
    }
}

/// The civil date `rem` days after 1970-01-01.
pub open spec fn civil_from_days(days: int) -> (int, int, int) {
    let (y, rem) = year_of(1970, days);
    let (m, rem2) = month_of(y, 1, rem);
    (y, m, rem2 + 1)
}

/// A full year of months: the day counts of months one through twelve sum to
/// the length of the year.
pub proof fn lemma_months_fill_year(y: int)
    ensures
        days_before_month(y, 13) == days_in_year(y),
{
    reveal_with_fuel(days_before_month, 14);
}

/// Walking years lands within a year and preserves the total day count.
pub proof fn lemma_year_of(y: int, rem: int)
    requires
        y >= 1970,
        rem >= 0,
    ensures
        ({
            let (y2, r2) = year_of(y, rem);
            &&& y2 >= y
            &&& 0 <= r2 < days_in_year(y2)
            &&& days_before_year(y2) + r2 == days_before_year(y) + rem
        }),
    decreases rem,
{
    if rem < days_in_year(y) {
    } else {
        lemma_year_of(y + 1, rem - days_in_year(y));
    }
}

/// Walking months lands within a month and preserves the total day count.
pub proof fn lemma_month_of(y: int, m: int, rem: int)
    requires
        1 <= m <= 12,
        rem >= 0,
        days_before_month(y, m) + rem < days_in_year(y),
    ensures
        ({
            let (m2, r2) = month_of(y, m, rem);
            &&& 1 <= m2 <= 12
            &&& 0 <= r2 < days_in_month(y, m2)
            &&& days_before_month(y, m2) + r2 == days_before_month(y, m) + rem
        }),
    decreases rem,
{
    lemma_months_fill_year(y);
    if rem < days_in_month(y, m) {
    } else {
        if m == 12 {
            assert(days_before_month(y, 13) == days_before_month(y, 12) + days_in_month(y, 12));
            assert(false);
        }
        lemma_month_of(y, m + 1, rem - days_in_month(y, m));
    }
}

/// The computed civil date is valid and maps back to the same day number.
pub proof fn lemma_civil_round_trip(days: int)
    requires
        days >= 0,
    ensures
        ({
            let (y, m, d) = civil_from_days(days);
            &&& y >= 1970
            &&& 1 <= m <= 12
            &&& 1 <= d <= days_in_month(y, m)
            &&& civil_to_days(y, m, d) == days
        }),
{
    lemma_year_of(1970, days);
    let (y, rem) = year_of(1970, days);
    lemma_month_of(y, 1, rem);
}

pub fn leap_year(y: u64) -> (r: bool)
    ensures
        r == is_leap(y as int),
{
    (y % 4 == 0 && y % 100 != 0) || y % 400 == 0
}

pub fn year_len(y: u64) -> (r: u64)
    ensures
        r == days_in_year(y as int),
{
    if leap_year(y) {
        366
    } else {
        365
    }
}

pub fn month_len(y: u64, m: u64) -> (r: u64)
    ensures
        r == days_in_month(y as int, m as int),
{
    if m == 2 {
        if leap_year(y) {
            29
        } else {
            28
        }
    } else if m == 4 || m == 6 || m == 9 || m == 11 {
        30
    } else {
        31
    }
}

/// The civil date `days` days after 1970-01-01.
pub fn date_from_days(days: u64) -> (r: (u64, u64, u64))
    requires
        days <= 213504,
    ensures
        (r.0 as int, r.1 as int, r.2 as int) == civil_from_days(days as int),
        1970 <= r.0 <= 1970 + days,
        1 <= r.1 <= 12,
        1 <= r.2 <= 31,
{
    let mut y: u64 = 1970;
    let mut rem: u64 = days;
    while rem >= year_len(y)
        invariant
            days <= 213504,
            y >= 1970,
            y - 1970 + rem <= days,
            year_of(1970, days as int) == year_of(y as int, rem as int),
        decreases rem,
    {
        rem = rem - year_len(y);
        y = y + 1;
    }
    proof {
        lemma_year_of(1970, days as int);
        lemma_month_of(y as int, 1, rem as int);
    }
    let mut m: u64 = 1;
    while rem >= month_len(y, m)
        invariant
            1 <= m <= 12,
            days_before_month(y as int, m as int) + rem < days_in_year(y as int),
            month_of(y as int, 1, year_of(1970, days as int).1) == month_of(
                y as int,
                m as int,
                rem as int,
            ),
            (y as int, year_of(1970, days as int).1) == year_of(1970, days as int),
        decreases rem,
    {
        proof {
            lemma_months_fill_year(y as int);
            if m == 12 {
                assert(days_before_month(y as int, 13) == days_before_month(y as int, 12)
                    + days_in_month(y as int, 12));
                assert(false);
            }
        }
        rem = rem - month_len(y, m);
        m = m + 1;
    }
    proof {
        lemma_month_of(y as int, m as int, rem as int);
    }
    (y, m, rem + 1)
}

/// The text of the civil timestamp: date, time of day and nanosecond
/// fraction, each field zero-padded to its fixed width.
pub open spec fn iso8601_chars(
    y: int,
    mo: int,
    d: int,
    h: int,
    mi: int,
    s: int,
    frac: int,
) -> Seq<char> {
    pad_left(dec_of(y), 4) + seq!['-'] + pad_left(dec_of(mo), 2) + seq!['-'] + pad_left(
        dec_of(d),
        2,
    ) + seq!['T'] + pad_left(dec_of(h), 2) + seq![':'] + pad_left(dec_of(mi), 2) + seq![':']
        + pad_left(dec_of(s), 2) + seq!['.'] + pad_left(dec_of(frac), 9) + seq!['Z']
}

/// The ISO-8601 rendering of a timestamp in nanoseconds since the epoch.
pub open spec fn iso8601_of(ns: u64) -> Seq<char> {
    let days = ns / NS_PER_DAY;
    let date = civil_from_days(days as int);
    let secs = (ns / NS_PER_SEC) % SECS_PER_DAY;
    iso8601_chars(
        date.0,
        date.1,
        date.2,
        secs as int / 3600,
        (secs as int / 60) % 60,
        secs as int % 60,
        (ns % NS_PER_SEC) as int,
    )
}

/// Renders `ns` nanoseconds since the epoch as ISO-8601 text.
pub fn format_timestamp(ns: u64) -> (r: String)
    ensures
        r@ == iso8601_of(ns),
{
    let days = ns / NS_PER_DAY;
    proof {
        assert(days <= 213504) by (nonlinear_arith)
            requires
                days == ns / NS_PER_DAY && ns <= u64::MAX,
        ;
    }
    let date = date_from_days(days);
    let secs = (ns / NS_PER_SEC) % SECS_PER_DAY;
    let frac = ns % NS_PER_SEC;
    let h = secs / 3600;
    let mi = (secs / 60) % 60;
    let s = secs % 60;
    let mut out = String::new();
    push_dec_padded(&mut out, date.0, 4);
    string_push(&mut out, '-');
    push_dec_padded(&mut out, date.1, 2);
    string_push(&mut out, '-');
    push_dec_padded(&mut out, date.2, 2);
    string_push(&mut out, 'T');
    push_dec_padded(&mut out, h, 2);
    string_push(&mut out, ':');
    push_dec_padded(&mut out, mi, 2);
    string_push(&mut out, ':');
    push_dec_padded(&mut out, s, 2);
    string_push(&mut out, '.');
    push_dec_padded(&mut out, frac, 9);
    string_push(&mut out, 'Z');
    proof {
        assert(out@ =~= iso8601_of(ns));
    }
    out
}

} // verus!
