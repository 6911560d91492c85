//! Strict parsing of the provider's timestamp format into UTC epoch seconds.
//!
//! The provider writes instants as `YYYY/MM/DD hh:mm:ss +hhmm` (24-hour clock,
//! explicit numeric UTC offset). Nothing else is accepted: no alternate
//! separators, no partial dates, no missing offset.

use vstd::prelude::*;
use vstd::string::StrSliceExecFns;

verus! {

/// A leap year of the proleptic Gregorian calendar.
pub open spec fn is_leap_year(y: int) -> bool {
    (y % 4 == 0 && y % 100 != 0) || y % 400 == 0
}

/// The number of days of month `m` (1-based) in year `y`.
pub open spec fn days_in_month(y: int, m: int) -> int {
    if m == 1 || m == 3 || m == 5 || m == 7 || m == 8 || m == 10 || m == 12 {
        31
    } else if m == 4 || m == 6 || m == 9 || m == 11 {
        30
    } else if is_leap_year(y) {
        29
    } else {
        28
    }
}

/// Days since 1970-01-01 of the Gregorian date `y-m-d`, meaningful for
/// years 0 through 9999. The year is shifted by a whole 400-year era so
/// that every intermediate value stays nonnegative.
pub open spec fn days_from_civil(y: int, m: int, d: int) -> int {
    let ys = if m <= 2 { y + 399 } else { y + 400 };
    let era = ys / 400;
    let yoe = ys - era * 400;
    let mp = if m > 2 { m - 3 } else { m + 9 };
    let doy = (153 * mp + 2) / 5 + d - 1;
    let doe = yoe * 365 + yoe / 4 - yoe / 100 + doy;
    era * 146097 + doe - 146097 - 719468
}

/// An ASCII decimal digit.
pub open spec fn is_digit(c: char) -> bool {
    48 <= c as u32 && c as u32 <= 57
}

/// The numeric value of an ASCII decimal digit.
pub open spec fn digit_val(c: char) -> int {
    c as u32 - 48
}

/// The value of the two-digit group at position `i`.
pub open spec fn two_digits(s: Seq<char>, i: int) -> int {
    digit_val(s[i]) * 10 + digit_val(s[i + 1])
}

pub open spec fn ts_year(s: Seq<char>) -> int {
    two_digits(s, 0) * 100 + two_digits(s, 2)
}

pub open spec fn ts_month(s: Seq<char>) -> int {
    two_digits(s, 5)
}

pub open spec fn ts_day(s: Seq<char>) -> int {
    two_digits(s, 8)
}

pub open spec fn ts_hour(s: Seq<char>) -> int {
    two_digits(s, 11)
}

pub open spec fn ts_minute(s: Seq<char>) -> int {
    two_digits(s, 14)
}

pub open spec fn ts_second(s: Seq<char>) -> int {
    two_digits(s, 17)
}

pub open spec fn ts_off_hour(s: Seq<char>) -> int {
    two_digits(s, 21)
}

pub open spec fn ts_off_minute(s: Seq<char>) -> int {
    two_digits(s, 23)
}

/// The text has exactly the shape `YYYY/MM/DD hh:mm:ss +hhmm`:
/// twenty-five characters, digits and separators in fixed positions,
/// and an explicit `+` or `-` offset sign.
pub open spec fn ts_shape(s: Seq<char>) -> bool {
    &&& s.len() == 25
    &&& is_digit(s[0]) && is_digit(s[1]) && is_digit(s[2]) && is_digit(s[3])
    &&& s[4] == '/'
    &&& is_digit(s[5]) && is_digit(s[6])
    &&& s[7] == '/'
    &&& is_digit(s[8]) && is_digit(s[9])
    &&& s[10] == ' '
    &&& is_digit(s[11]) && is_digit(s[12])
    &&& s[13] == ':'
    &&& is_digit(s[14]) && is_digit(s[15])
    &&& s[16] == ':'
    &&& is_digit(s[17]) && is_digit(s[18])
    &&& s[19] == ' '
    &&& (s[20] == '+' || s[20] == '-')
    &&& is_digit(s[21]) && is_digit(s[22]) && is_digit(s[23]) && is_digit(s[24])
}

/// The text is a well-formed provider timestamp: right shape, a real
/// calendar date, and in-range time-of-day and offset fields.
pub open spec fn ts_valid(s: Seq<char>) -> bool {
    &&& ts_shape(s)
    &&& 1 <= ts_month(s) <= 12
    &&& 1 <= ts_day(s) <= days_in_month(ts_year(s), ts_month(s))
    &&& ts_hour(s) <= 23
    &&& ts_minute(s) <= 59
    &&& ts_second(s) <= 59
    &&& ts_off_hour(s) <= 23
    &&& ts_off_minute(s) <= 59
}

/// The signed UTC offset of the timestamp, in seconds.
pub open spec fn ts_offset_seconds(s: Seq<char>) -> int {
    let magnitude = ts_off_hour(s) * 3600 + ts_off_minute(s) * 60;
    if s[20] == '-' {
        -magnitude
    } else {
        magnitude
    }
}

/// The UTC epoch-seconds instant denoted by a valid provider timestamp.
pub open spec fn ts_epoch(s: Seq<char>) -> int {
    days_from_civil(ts_year(s), ts_month(s), ts_day(s)) * 86400 + ts_hour(s) * 3600 + ts_minute(
        s,
    ) * 60 + ts_second(s) - ts_offset_seconds(s)
}

/// The digit at position `i`, or `None` if that character is no digit.
fn digit_at(s: &str, i: usize) -> (r: Option<u64>)
    requires
        i < s@.len(),
    ensures
        r is Some <==> is_digit(s@[i as int]),
        r matches Some(v) ==> v == digit_val(s@[i as int]) && v <= 9,
{
    let c = s.get_char(i);
    let v = c as u32;
    if 48 <= v && v <= 57 {
        Some((v - 48) as u64)
    } else {
        None
    }
}

/// The value of the two-digit group at position `i`, or `None` if either
/// character is no digit.
fn two_digits_at(s: &str, i: usize) -> (r: Option<u64>)
    requires
        i + 1 < s@.len(),
        i <= 23,
    ensures
        r is Some <==> is_digit(s@[i as int]) && is_digit(s@[i as int + 1]),
        r matches Some(v) ==> v == two_digits(s@, i as int) && v <= 99,
{
    match (digit_at(s, i), digit_at(s, i + 1)) {
        (Some(a), Some(b)) => Some(a * 10 + b),
        _ => None,
    }
}

/// Whether the character at position `i` is exactly `expected`.
fn char_at_is(s: &str, i: usize, expected: char) -> (r: bool)
    requires
        i < s@.len(),
    ensures
        r == (s@[i as int] == expected),
{
    s.get_char(i) == expected
}

/// Days since 1970-01-01 of the date `y-m-d`, as executable arithmetic.
fn civil_days(y: u64, m: u64, d: u64) -> (r: i64)
    requires
        y <= 9999,
        1 <= m <= 12,
        1 <= d <= 31,
    ensures
        r == days_from_civil(y as int, m as int, d as int),
        -800000 <= r <= 3000000,
{
    let ys: u64 = if m <= 2 {
        y + 399
    } else {
        y + 400
    };
    let era: u64 = ys / 400;
    let yoe: u64 = ys - era * 400;
    let mp: u64 = if m > 2 {
        m - 3
    } else {
        m + 9
    };
    let doy: u64 = (153 * mp + 2) / 5 + d - 1;
    let doe: u64 = yoe * 365 + yoe / 4 - yoe / 100 + doy;
    let total: u64 = era * 146097 + doe;
    (total as i64) - 146097 - 719468
}

/// The number of days of month `m` in year `y`, as executable arithmetic.
fn days_in_month_exec(y: u64, m: u64) -> (r: u64)
    requires
        1 <= m <= 12,
    ensures
        r == days_in_month(y as int, m as int),
{
    if m == 1 || m == 3 || m == 5 || m == 7 || m == 8 || m == 10 || m == 12 {
        31
    } else if m == 4 || m == 6 || m == 9 || m == 11 {
        30
    } else if (y % 4 == 0 && y % 100 != 0) || y % 400 == 0 {
        29
    } else {
        28
    }
}

/// Parses an epoch time from a datetime of the format `YYYY/MM/DD hh:mm:ss +offset`
/// (e.g. "2016/03/05 22:59:18 +0000").
///
/// Returns `Some` exactly on well-formed timestamps, and then the
/// UTC-normalized epoch-seconds instant they denote.
pub fn parse_dt_to_unix(datetime: &str) -> (r: Option<i64>)
    ensures
        r is Some <==> ts_valid(datetime@),
        r matches Some(t) ==> t == ts_epoch(datetime@),
{
    if datetime.unicode_len() != 25 {
        return None;
    }
    if !char_at_is(datetime, 4, '/') || !char_at_is(datetime, 7, '/') || !char_at_is(
        datetime,
        10,
        ' ',
    ) || !char_at_is(datetime, 13, ':') || !char_at_is(datetime, 16, ':') || !char_at_is(
        datetime,
        19,
        ' ',
    ) {
        return None;
    }
    let sign = datetime.get_char(20);
    if sign != '+' && sign != '-' {
        return None;
    }
    let century = match two_digits_at(datetime, 0) {
        Some(v) => v,
        None => { return None },
    };
    let year_low = match two_digits_at(datetime, 2) {
        Some(v) => v,
        None => { return None },
    };
    let month = match two_digits_at(datetime, 5) {
        Some(v) => v,
        None => { return None },
    };
    let day = match two_digits_at(datetime, 8) {
        Some(v) => v,
        None => { return None },
    };
    let hour = match two_digits_at(datetime, 11) {
        Some(v) => v,
        None => { return None },
    };
    let minute = match two_digits_at(datetime, 14) {
        Some(v) => v,
        None => { return None },
    };
    let second = match two_digits_at(datetime, 17) {
        Some(v) => v,
        None => { return None },
    };
    let off_hour = match two_digits_at(datetime, 21) {
        Some(v) => v,
        None => { return None },
    };
    let off_minute = match two_digits_at(datetime, 23) {
        Some(v) => v,
        None => { return None },
    };
    let year = century * 100 + year_low;
    if month < 1 || month > 12 {
        return None;
    }
    if day < 1 || day > days_in_month_exec(year, month) {
        return None;
    }
    if hour > 23 || minute > 59 || second > 59 || off_hour > 23 || off_minute > 59 {
        return None;
    }
    let days = civil_days(year, month, day);
    let time_of_day: u64 = hour * 3600 + minute * 60 + second;
    let offset: i64 = (off_hour * 3600 + off_minute * 60) as i64;
    let offset_signed: i64 = if sign == '-' {
        -offset
    } else {
        offset
    };
    Some(days * 86400 + (time_of_day as i64) - offset_signed)
}

} // verus!
