//! Timestamps for transactions: datetime fields arrive as strings, either a
//! full RFC 3339 timestamp (handed to chrono) or a date-only value, which
//! means midnight UTC on that date and is computed here from verified
//! proleptic-Gregorian calendar arithmetic.

use vstd::prelude::*;
use vstd::string::StrSliceExecFns;
use crate::decimal::is_digit;
use crate::decimal::digit_val;

verus! {

/// What `chrono::DateTime::parse_from_rfc3339` followed by `timestamp()`
/// returns for a given string: the result depends on the characters alone.
pub uninterp spec fn rfc3339_secs_of(s: Seq<char>) -> Option<i64>;

/// Relies on chrono's `DateTime::parse_from_rfc3339` (a pure parser over the
/// string) and `DateTime::timestamp` (seconds since the Unix epoch, in UTC).
#[verifier::external_body]
fn parse_rfc3339_secs(s: &str) -> (r: Option<i64>)
    ensures
        r == rfc3339_secs_of(s@),
{
    match chrono::DateTime::parse_from_rfc3339(s) {
        Ok(d) => Some(d.timestamp()),
        Err(_) => None,
    }
}

pub open spec fn is_leap_year(y: int) -> bool {
    (y % 4 == 0 && y % 100 != 0) || y % 400 == 0
}

pub open spec fn days_in_year(y: int) -> int {
    if is_leap_year(y) {
        366
    } else {
        365
    }
}

pub open spec fn days_in_month(y: int, m: int) -> int {
    if m == 2 {
        if is_leap_year(y) {
            29
        } else {
            28
        }
    } else if m == 4 || m == 6 || m == 9 || m == 11 {
        30
    } else {
        31
    }
}

/// Days in the proleptic Gregorian calendar from year 0 up to year `y`.
pub open spec fn days_before_year(y: int) -> int
    decreases y,
{
    if y <= 0 {
        0
    } else {
        days_before_year(y - 1) + days_in_year(y - 1)
    }
}

pub open spec fn days_before_month(y: int, m: int) -> int
    decreases m,
{
    if m <= 1 {
        0
    } else {
        days_before_month(y, m - 1) + days_in_month(y, m - 1)
    }
}

/// Day number of a civil date, counted from 0000-01-01.
pub open spec fn day_number(y: int, m: int, d: int) -> int {
    days_before_year(y) + days_before_month(y, m) + (d - 1)
}

pub open spec fn valid_date(y: int, m: int, d: int) -> bool {
    0 <= y <= 9999 && 1 <= m <= 12 && 1 <= d <= days_in_month(y, m)
}

/// Seconds since the Unix epoch of midnight UTC on a civil date.
pub open spec fn midnight_secs(y: int, m: int, d: int) -> int {
    (day_number(y, m, d) - day_number(1970, 1, 1)) * 86400
}

/// Days in a month, executable.
fn month_len(y: u32, m: u32) -> (r: u32)
    requires
        1 <= m <= 12,
    ensures
        r == days_in_month(y as int, m as int),
{
    if m == 2 {
        let leap: bool = (y % 4 == 0 && y % 100 != 0) || y % 400 == 0;
        if leap {
            29
        } else {
            28
        }
    } else if m == 4 || m == 6 || m == 9 || m == 11 {
        30
    } else {
        31
    }
}

/// Day number of a valid civil date, counted from 0000-01-01.
fn day_number_exec(y: u32, m: u32, d: u32) -> (r: u64)
    requires
        valid_date(y as int, m as int, d as int),
    ensures
        r == day_number(y as int, m as int, d as int),
        r <= 3_700_000,
{
    let mut acc: u64 = 0;
    let mut i: u32 = 0;
    while i < y
        invariant
            i <= y,
            y <= 9999,
            acc == days_before_year(i as int),
            acc <= 366 * (i as int),
        decreases y - i,
    {
        let leap: bool = (i % 4 == 0 && i % 100 != 0) || i % 400 == 0;
        acc = acc + if leap {
            366
        } else {
            365
        };
        i += 1;
    }
    let mut macc: u64 = 0;
    let mut mm: u32 = 1;
    while mm < m
        invariant
            1 <= mm <= m,
            m <= 12,
            macc == days_before_month(y as int, mm as int),
            macc <= 31 * (mm as int),
        decreases m - mm,
    {
        let dim: u32 = month_len(y, mm);
        macc = macc + dim as u64;
        mm += 1;
    }
    acc + macc + (d as u64 - 1)
}

/// Midnight-UTC timestamp of a valid civil date.
pub fn midnight_secs_exec(y: u32, m: u32, d: u32) -> (r: i64)
    requires
        valid_date(y as int, m as int, d as int),
    ensures
        r == midnight_secs(y as int, m as int, d as int),
{
    let dn: u64 = day_number_exec(y, m, d);
    let epoch: u64 = day_number_exec(1970, 1, 1);
    (dn as i64 - epoch as i64) * 86400
}

/// A date-only field: exactly `"YYYY-MM-DD"`, with a valid calendar date.
pub open spec fn spec_parse_date(s: Seq<char>) -> Option<(int, int, int)> {
    if s.len() == 10 && is_digit(s[0]) && is_digit(s[1]) && is_digit(s[2]) && is_digit(s[3])
        && s[4] == '-' && is_digit(s[5]) && is_digit(s[6]) && s[7] == '-' && is_digit(s[8])
        && is_digit(s[9]) {
        let y = digit_val(s[0]) * 1000 + digit_val(s[1]) * 100 + digit_val(s[2]) * 10 + digit_val(
            s[3],
        );
        let m = digit_val(s[5]) * 10 + digit_val(s[6]);
        let d = digit_val(s[8]) * 10 + digit_val(s[9]);
        if 1 <= m <= 12 && 1 <= d <= days_in_month(y, m) {
            Some((y, m, d))
        } else {
            None
        }
    } else {
        None
    }
}

/// Read the digit at position `i`, or `None` if it is not a digit.
fn digit_at(s: &str, i: usize) -> (r: Option<u32>)
    requires
        i < s@.len(),
    ensures
        match r {
            Some(v) => is_digit(s@[i as int]) && v == digit_val(s@[i as int]) && v <= 9,
            None => !is_digit(s@[i as int]),
        },
{
    let c: char = s.get_char(i);
    let cv: u32 = c as u32;
    if 48 <= cv && cv <= 57 {
        Some(cv - 48)
    } else {
        None
    }
}

/// Parse a date-only field.
pub fn parse_date(s: &str) -> (r: Option<(u32, u32, u32)>)
    ensures
        match r {
            Some(ymd) => spec_parse_date(s@) == Some(
                (ymd.0 as int, ymd.1 as int, ymd.2 as int),
            ),
            None => spec_parse_date(s@) is None,
        },
{
    if s.unicode_len() != 10 {
        return None;
    }
    if s.get_char(4) != '-' || s.get_char(7) != '-' {
        return None;
    }
    let d0 = match digit_at(s, 0) {
        Some(v) => v,
        None => { return None },
    };
    let d1 = match digit_at(s, 1) {
        Some(v) => v,
        None => { return None },
    };
    let d2 = match digit_at(s, 2) {
        Some(v) => v,
        None => { return None },
    };
    let d3 = match digit_at(s, 3) {
        Some(v) => v,
        None => { return None },
    };
    let d5 = match digit_at(s, 5) {
        Some(v) => v,
        None => { return None },
    };
    let d6 = match digit_at(s, 6) {
        Some(v) => v,
        None => { return None },
    };
    let d8 = match digit_at(s, 8) {
        Some(v) => v,
        None => { return None },
    };
    let d9 = match digit_at(s, 9) {
        Some(v) => v,
        None => { return None },
    };
    let y: u32 = d0 * 1000 + d1 * 100 + d2 * 10 + d3;
    let m: u32 = d5 * 10 + d6;
    let d: u32 = d8 * 10 + d9;
    if m < 1 || m > 12 {
        return None;
    }
    if d < 1 || d > month_len(y, m) {
        return None;
    }
    Some((y, m, d))
}

/// A datetime field: a date-only value means midnight UTC on that date;
/// anything else is given to the RFC 3339 parser.
pub open spec fn spec_parse_datetime(s: Seq<char>) -> Option<i64> {
    match spec_parse_date(s) {
        Some(ymd) => Some(midnight_secs(ymd.0, ymd.1, ymd.2) as i64),
        None => rfc3339_secs_of(s),
    }
}

pub fn parse_datetime(s: &str) -> (r: Option<i64>)
    ensures
        r == spec_parse_datetime(s@),
{
    match parse_date(s) {
        Some((y, m, d)) => Some(midnight_secs_exec(y, m, d)),
        None => parse_rfc3339_secs(s),
    }
}

} // verus!
