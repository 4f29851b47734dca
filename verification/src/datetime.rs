//! Civil date-time values and the receipt timestamp grammar.
//!
//! A receipt timestamp arrives either as a combined date-time string
//! (`YYYY-MM-DD HH:MM:SS`, with a space or a `T` between date and time)
//! or as a date alone (`YYYY-MM-DD`), in which case the time defaults to
//! noon.  The parsed value is interpreted as local time and shifted by
//! the machine's UTC offset into a canonical instant; the shift is plain
//! calendar arithmetic and is verified here.

use vstd::prelude::*;
use vstd::string::*;

verus! {

/// Seconds in a civil day.
pub const DAY_SECONDS: i64 = 86_400;

/// A civil (proleptic Gregorian) date and time of day.
#[derive(Debug, Clone, Copy, PartialEq, Eq, Structural)]
pub struct DateTime {
    pub year: i32,
    pub month: u8,
    pub day: u8,
    pub hour: u8,
    pub minute: u8,
    pub second: u8,
}

pub open spec fn spec_is_leap(y: int) -> bool {
    (y % 4 == 0 && y % 100 != 0) || y % 400 == 0
}

pub open spec fn spec_days_in_month(y: int, m: int) -> int {
    if m == 2 {
        if spec_is_leap(y) {
            29
        } else {
            28
        }
    } else if m == 4 || m == 6 || m == 9 || m == 11 {
        30
    } else {
        31
    }
}

/// Whether the given year is a leap year.
pub fn is_leap(y: i32) -> (r: bool)
    ensures
        r == spec_is_leap(y as int),
{
    (y % 4 == 0 && y % 100 != 0) || y % 400 == 0
}

/// Number of days in the given month of the given year.
pub fn days_in_month(y: i32, m: u8) -> (r: u8)
    ensures
        r == spec_days_in_month(y as int, m as int),
{
    if m == 2 {
        if is_leap(y) {
            29
        } else {
            28
        }
    } else if m == 4 || m == 6 || m == 9 || m == 11 {
        30
    } else {
        31
    }
}

impl DateTime {
    /// A well-formed date and time: fields within calendar ranges.  The
    /// year range leaves one year of room on either side of the
    /// four-digit years the grammar accepts, so a one-day shift across
    /// a year boundary stays well-formed.
    pub open spec fn wf(self) -> bool {
        &&& -1 <= self.year <= 10_000
        &&& 1 <= self.month <= 12
        &&& 1 <= self.day <= spec_days_in_month(self.year as int, self.month as int)
        &&& self.hour < 24
        &&& self.minute < 60
        &&& self.second < 60
    }
}

pub open spec fn spec_is_digit(c: char) -> bool {
    48 <= c as u32 <= 57
}

pub open spec fn spec_digit_val(c: char) -> int {
    c as u32 - 48
}

/// Digit value of an ASCII digit character, if it is one.
pub fn digit_val(c: char) -> (r: Option<u8>)
    ensures
        match r {
            Some(v) => spec_is_digit(c) && v == spec_digit_val(c),
            None => !spec_is_digit(c),
        },
{
    let u = c as u32;
    if 48 <= u && u <= 57 {
        Some((u - 48) as u8)
    } else {
        None
    }
}

/// Syntactic shape of a date string: `YYYY-MM-DD`, all digits in place.
pub open spec fn spec_date_syntax_ok(s: Seq<char>) -> bool {
    &&& s.len() == 10
    &&& spec_is_digit(s[0])
    &&& spec_is_digit(s[1])
    &&& spec_is_digit(s[2])
    &&& spec_is_digit(s[3])
    &&& s[4] == '-'
    &&& spec_is_digit(s[5])
    &&& spec_is_digit(s[6])
    &&& s[7] == '-'
    &&& spec_is_digit(s[8])
    &&& spec_is_digit(s[9])
}

pub open spec fn spec_year_of(s: Seq<char>) -> int {
    spec_digit_val(s[0]) * 1000 + spec_digit_val(s[1]) * 100 + spec_digit_val(s[2]) * 10
        + spec_digit_val(s[3])
}

pub open spec fn spec_month_of(s: Seq<char>) -> int {
    spec_digit_val(s[5]) * 10 + spec_digit_val(s[6])
}

pub open spec fn spec_day_of(s: Seq<char>) -> int {
    spec_digit_val(s[8]) * 10 + spec_digit_val(s[9])
}

/// Semantic validity of the date part: a real calendar date.
pub open spec fn spec_date_valid(s: Seq<char>) -> bool {
    &&& spec_date_syntax_ok(s)
    &&& 1 <= spec_month_of(s) <= 12
    &&& 1 <= spec_day_of(s) <= spec_days_in_month(spec_year_of(s), spec_month_of(s))
}

/// A date-only string parses to that date at noon.
pub open spec fn spec_parse_date(s: Seq<char>) -> Option<DateTime> {
    if spec_date_valid(s) {
        Some(
            DateTime {
                year: spec_year_of(s) as i32,
                month: spec_month_of(s) as u8,
                day: spec_day_of(s) as u8,
                hour: 12,
                minute: 0,
                second: 0,
            },
        )
    } else {
        None
    }
}

/// Syntactic shape of a combined string: a date, a space or `T`, and
/// `HH:MM:SS`.
pub open spec fn spec_datetime_syntax_ok(s: Seq<char>) -> bool {
    &&& s.len() == 19
    &&& spec_date_syntax_ok(s.subrange(0, 10))
    &&& (s[10] == ' ' || s[10] == 'T')
    &&& spec_is_digit(s[11])
    &&& spec_is_digit(s[12])
    &&& s[13] == ':'
    &&& spec_is_digit(s[14])
    &&& spec_is_digit(s[15])
    &&& s[16] == ':'
    &&& spec_is_digit(s[17])
    &&& spec_is_digit(s[18])
}

pub open spec fn spec_hour_of(s: Seq<char>) -> int {
    spec_digit_val(s[11]) * 10 + spec_digit_val(s[12])
}

pub open spec fn spec_minute_of(s: Seq<char>) -> int {
    spec_digit_val(s[14]) * 10 + spec_digit_val(s[15])
}

pub open spec fn spec_second_of(s: Seq<char>) -> int {
    spec_digit_val(s[17]) * 10 + spec_digit_val(s[18])
}

/// A combined string parses when the date part is a real date and the
/// time fields are within range.
pub open spec fn spec_parse_datetime(s: Seq<char>) -> Option<DateTime> {
    if spec_datetime_syntax_ok(s) && spec_date_valid(s.subrange(0, 10)) && spec_hour_of(s) < 24
        && spec_minute_of(s) < 60 && spec_second_of(s) < 60 {
        Some(
            DateTime {
                year: spec_year_of(s.subrange(0, 10)) as i32,
                month: spec_month_of(s.subrange(0, 10)) as u8,
                day: spec_day_of(s.subrange(0, 10)) as u8,
                hour: spec_hour_of(s) as u8,
                minute: spec_minute_of(s) as u8,
                second: spec_second_of(s) as u8,
            },
        )
    } else {
        None
    }
}

/// Reads the two-digit field at `at` and `at + 1`.
fn two_digits(s: &str, at: usize) -> (r: Option<u8>)
    requires
        at + 1 < s@.len() <= usize::MAX,
    ensures
        match r {
            Some(v) => spec_is_digit(s@[at as int]) && spec_is_digit(s@[at + 1]) && v
                == spec_digit_val(s@[at as int]) * 10 + spec_digit_val(s@[at + 1]),
            None => !(spec_is_digit(s@[at as int]) && spec_is_digit(s@[at + 1])),
        },
{
    let hi = digit_val(s.get_char(at));
    let lo = digit_val(s.get_char(at + 1));
    match (hi, lo) {
        (Some(h), Some(l)) => Some(h * 10 + l),
        _ => None,
    }
}

/// Parses the `YYYY-MM-DD` date grammar; a valid date comes back at
/// noon.
pub fn parse_date(s: &str) -> (r: Option<DateTime>)
    ensures
        r == spec_parse_date(s@),
        r is Some ==> r.unwrap().wf() && 0 <= r.unwrap().year <= 9999,
{
    if s.unicode_len() != 10 {
        return None;
    }
    let d0 = digit_val(s.get_char(0));
    let d1 = digit_val(s.get_char(1));
    let d2 = digit_val(s.get_char(2));
    let d3 = digit_val(s.get_char(3));
    let sep1 = s.get_char(4);
    let mo = two_digits(s, 5);
    let sep2 = s.get_char(7);
    let da = two_digits(s, 8);
    match (d0, d1, d2, d3, mo, da) {
        (Some(y0), Some(y1), Some(y2), Some(y3), Some(m), Some(d)) => {
            if sep1 != '-' || sep2 != '-' {
                return None;
            }
            let year: i32 = y0 as i32 * 1000 + y1 as i32 * 100 + y2 as i32 * 10 + y3 as i32;
            if !(1 <= m && m <= 12) {
                return None;
            }
            if !(1 <= d && d <= days_in_month(year, m)) {
                return None;
            }
            Some(DateTime { year, month: m, day: d, hour: 12, minute: 0, second: 0 })
        },
        _ => None,
    }
}

/// Parses the combined grammar: a date, `' '` or `'T'`, and a time of
/// day.
pub fn parse_datetime(s: &str) -> (r: Option<DateTime>)
    ensures
        r == spec_parse_datetime(s@),
        r is Some ==> r.unwrap().wf() && 0 <= r.unwrap().year <= 9999,
{
    if s.unicode_len() != 19 {
        return None;
    }
    let ghost date_part: Seq<char> = s@.subrange(0, 10);
    let d0 = digit_val(s.get_char(0));
    let d1 = digit_val(s.get_char(1));
    let d2 = digit_val(s.get_char(2));
    let d3 = digit_val(s.get_char(3));
    let sep1 = s.get_char(4);
    let mo = two_digits(s, 5);
    let sep2 = s.get_char(7);
    let da = two_digits(s, 8);
    let sep3 = s.get_char(10);
    let ho = two_digits(s, 11);
    let sep4 = s.get_char(13);
    let mi = two_digits(s, 14);
    let sep5 = s.get_char(16);
    let se = two_digits(s, 17);
    match (d0, d1, d2, d3, mo, da, ho, mi, se) {
        (
            Some(y0),
            Some(y1),
            Some(y2),
            Some(y3),
            Some(m),
            Some(d),
            Some(h),
            Some(mn),
            Some(sc),
        ) => {
            if sep1 != '-' || sep2 != '-' || (sep3 != ' ' && sep3 != 'T') || sep4 != ':' || sep5
                != ':' {
                return None;
            }
            let year: i32 = y0 as i32 * 1000 + y1 as i32 * 100 + y2 as i32 * 10 + y3 as i32;
            proof {
                assert(date_part[0] == s@[0]);
                assert(date_part[1] == s@[1]);
                assert(date_part[2] == s@[2]);
                assert(date_part[3] == s@[3]);
                assert(date_part[4] == s@[4]);
                assert(date_part[5] == s@[5]);
                assert(date_part[6] == s@[6]);
                assert(date_part[7] == s@[7]);
                assert(date_part[8] == s@[8]);
                assert(date_part[9] == s@[9]);
            }
            if !(1 <= m && m <= 12) {
                return None;
            }
            if !(1 <= d && d <= days_in_month(year, m)) {
                return None;
            }
            if !(h < 24 && mn < 60 && sc < 60) {
                return None;
            }
            Some(DateTime { year, month: m, day: d, hour: h, minute: mn, second: sc })
        },
        _ => None,
    }
}

/// The calendar day before the given one, at the same time of day.
pub open spec fn spec_prev_day(dt: DateTime) -> DateTime {
    if dt.day > 1 {
        DateTime { day: (dt.day - 1) as u8, ..dt }
    } else if dt.month > 1 {
        DateTime {
            month: (dt.month - 1) as u8,
            day: spec_days_in_month(dt.year as int, dt.month - 1) as u8,
            ..dt
        }
    } else {
        DateTime { year: (dt.year - 1) as i32, month: 12, day: 31, ..dt }
    }
}

/// The calendar day after the given one, at the same time of day.
pub open spec fn spec_next_day(dt: DateTime) -> DateTime {
    if dt.day < spec_days_in_month(dt.year as int, dt.month as int) {
        DateTime { day: (dt.day + 1) as u8, ..dt }
    } else if dt.month < 12 {
        DateTime { month: (dt.month + 1) as u8, day: 1, ..dt }
    } else {
        DateTime { year: (dt.year + 1) as i32, month: 1, day: 1, ..dt }
    }
}

/// The instant `offset_secs` earlier on the clock: local time becomes
/// UTC.  The shift crosses at most one day boundary.
pub open spec fn spec_shift_to_utc(dt: DateTime, offset_secs: int) -> DateTime {
    let t = dt.hour * 3600 + dt.minute * 60 + dt.second - offset_secs;
    if t < 0 {
        let d = spec_prev_day(dt);
        let u = t + 86_400;
        DateTime {
            hour: (u / 3600) as u8,
            minute: ((u % 3600) / 60) as u8,
            second: (u % 60) as u8,
            ..d
        }
    } else if t >= 86_400 {
        let d = spec_next_day(dt);
        let u = t - 86_400;
        DateTime {
            hour: (u / 3600) as u8,
            minute: ((u % 3600) / 60) as u8,
            second: (u % 60) as u8,
            ..d
        }
    } else {
        DateTime {
            hour: (t / 3600) as u8,
            minute: ((t % 3600) / 60) as u8,
            second: (t % 60) as u8,
            ..dt
        }
    }
}

/// Converts a local civil time to UTC by subtracting the zone offset.
pub fn shift_to_utc(dt: DateTime, offset_secs: i32) -> (r: DateTime)
    requires
        dt.wf(),
        0 <= dt.year <= 9999,
        -DAY_SECONDS < offset_secs < DAY_SECONDS,
    ensures
        r == spec_shift_to_utc(dt, offset_secs as int),
        r.wf(),
{
    let t: i64 = dt.hour as i64 * 3600 + dt.minute as i64 * 60 + dt.second as i64
        - offset_secs as i64;
    if t < 0 {
        let d = prev_day(dt);
        let u = t + DAY_SECONDS;
        DateTime {
            hour: (u / 3600) as u8,
            minute: ((u % 3600) / 60) as u8,
            second: (u % 60) as u8,
            ..d
        }
    } else if t >= DAY_SECONDS {
        let d = next_day(dt);
        let u = t - DAY_SECONDS;
        DateTime {
            hour: (u / 3600) as u8,
            minute: ((u % 3600) / 60) as u8,
            second: (u % 60) as u8,
            ..d
        }
    } else {
        DateTime {
            hour: (t / 3600) as u8,
            minute: ((t % 3600) / 60) as u8,
            second: (t % 60) as u8,
            ..dt
        }
    }
}

/// The calendar day before, at the same time of day.
pub fn prev_day(dt: DateTime) -> (r: DateTime)
    requires
        dt.wf(),
        dt.year >= 0,
    ensures
        r == spec_prev_day(dt),
        r.wf(),
{
    if dt.day > 1 {
        DateTime { day: dt.day - 1, ..dt }
    } else if dt.month > 1 {
        DateTime { month: dt.month - 1, day: days_in_month(dt.year, dt.month - 1), ..dt }
    } else {
        DateTime { year: dt.year - 1, month: 12, day: 31, ..dt }
    }
}

/// The calendar day after, at the same time of day.
pub fn next_day(dt: DateTime) -> (r: DateTime)
    requires
        dt.wf(),
        dt.year <= 9999,
    ensures
        r == spec_next_day(dt),
        r.wf(),
{
    if dt.day < days_in_month(dt.year, dt.month) {
        DateTime { day: dt.day + 1, ..dt }
    } else if dt.month < 12 {
        DateTime { month: dt.month + 1, day: 1, ..dt }
    } else {
        DateTime { year: dt.year + 1, month: 1, day: 1, ..dt }
    }
}

} // verus!
