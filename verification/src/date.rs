//! Capture dates.
//!
//! A PTP object reports its capture time as text in the fixed layout
//! `YYYYMMDDThhmmss`.  This module gives that layout an exact grammar,
//! parses it, and keeps the calendar date part, which decides the
//! destination bucket.

use vstd::prelude::*;
use vstd::string::StrSliceExecFns;

verus! {

/// A calendar date taken from a capture timestamp.
#[derive(Clone, Copy, PartialEq, Eq, Structural, Debug)]
pub struct Date {
    pub year: u16,
    pub month: u8,
    pub day: u8,
}

pub open spec fn is_leap_year(y: int) -> bool {
    (y % 4 == 0 && y % 100 != 0) || y % 400 == 0
}

pub open spec fn days_in_month(y: int, m: int) -> int {
    if m == 2 {
        if is_leap_year(y) {
            29
        } else {
            28
        }
    } else if m == 4 || m == 6 || m == 9 || m == 11 {
        30
    } else {
        31
    }
}

pub open spec fn valid_date(y: int, m: int, d: int) -> bool {
    &&& 0 <= y <= 9999
    &&& 1 <= m <= 12
    &&& 1 <= d <= days_in_month(y, m)
}

impl Date {
    /// A well-formed date lies on the proleptic Gregorian calendar.
    pub open spec fn wf(self) -> bool {
        valid_date(self.year as int, self.month as int, self.day as int)
    }
}

pub open spec fn is_dec_digit(c: char) -> bool {
    48 <= c as int && c as int <= 57
}

pub open spec fn digit_val(c: char) -> int {
    c as int - 48
}

/// The two-digit number written at positions `i` and `i + 1`.
pub open spec fn num2(s: Seq<char>, i: int) -> int {
    digit_val(s[i]) * 10 + digit_val(s[i + 1])
}

/// The four-digit number written at positions `i` through `i + 3`.
pub open spec fn num4(s: Seq<char>, i: int) -> int {
    digit_val(s[i]) * 1000 + digit_val(s[i + 1]) * 100 + digit_val(s[i + 2]) * 10 + digit_val(
        s[i + 3],
    )
}

/// The layout `YYYYMMDDThhmmss`: fifteen characters, all decimal
/// digits but for the literal `'T'` separating date from time.
pub open spec fn capture_date_shape_ok(s: Seq<char>) -> bool {
    &&& s.len() == 15
    &&& forall|i: int| 0 <= i < 15 && i != 8 ==> is_dec_digit(#[trigger] s[i])
    &&& s[8] == 'T'
}

/// The written fields denote a real calendar date and a time of day;
/// a seconds field of sixty admits a leap second.
pub open spec fn capture_date_fields_ok(s: Seq<char>) -> bool {
    &&& valid_date(num4(s, 0), num2(s, 4), num2(s, 6))
    &&& num2(s, 9) <= 23
    &&& num2(s, 11) <= 59
    &&& num2(s, 13) <= 60
}

pub open spec fn valid_capture_date(s: Seq<char>) -> bool {
    capture_date_shape_ok(s) && capture_date_fields_ok(s)
}

/// What parsing a capture timestamp yields: the date part on a valid
/// timestamp, nothing otherwise.
pub open spec fn spec_parse_capture_date(s: Seq<char>) -> Option<Date> {
    if valid_capture_date(s) {
        Some(
            Date {
                year: num4(s, 0) as u16,
                month: num2(s, 4) as u8,
                day: num2(s, 6) as u8,
            },
        )
    } else {
        None
    }
}

fn digit_at(s: &str, i: usize) -> (r: Option<u64>)
    requires
        i < s@.len(),
    ensures
        r is Some <==> is_dec_digit(s@[i as int]),
        r matches Some(v) ==> v == digit_val(s@[i as int]),
{
    let c = s.get_char(i);
    let u = c as u32;
    if 48 <= u && u <= 57 {
        Some((u - 48) as u64)
    } else {
        None
    }
}

fn read2(s: &str, i: usize) -> (r: Option<u64>)
    requires
        i + 2 <= s@.len(),
        i + 2 <= usize::MAX,
    ensures
        r is Some <==> is_dec_digit(s@[i as int]) && is_dec_digit(s@[i + 1]),
        r matches Some(v) ==> v == num2(s@, i as int) && v <= 99,
{
    let hi = match digit_at(s, i) {
        Some(v) => v,
        None => {
            return None;
        },
    };
    let lo = match digit_at(s, i + 1) {
        Some(v) => v,
        None => {
            return None;
        },
    };
    Some(hi * 10 + lo)
}

fn read4(s: &str, i: usize) -> (r: Option<u64>)
    requires
        i + 4 <= s@.len(),
        i + 4 <= usize::MAX,
    ensures
        r is Some <==> is_dec_digit(s@[i as int]) && is_dec_digit(s@[i + 1]) && is_dec_digit(
            s@[i + 2],
        ) && is_dec_digit(s@[i + 3]),
        r matches Some(v) ==> v == num4(s@, i as int) && v <= 9999,
{
    let hi = match read2(s, i) {
        Some(v) => v,
        None => {
            return None;
        },
    };
    let lo = match read2(s, i + 2) {
        Some(v) => v,
        None => {
            return None;
        },
    };
    Some(hi * 100 + lo)
}

fn days_in_month_exec(y: u64, m: u64) -> (r: u64)
    requires
        1 <= m <= 12,
    ensures
        r == days_in_month(y as int, m as int),
{
    if m == 2 {
        if (y % 4 == 0 && y % 100 != 0) || y % 400 == 0 {
            29
        } else {
            28
        }
    } else if m == 4 || m == 6 || m == 9 || m == 11 {
        30
    } else {
        31
    }
}

/// Parses a capture timestamp in the layout `YYYYMMDDThhmmss` and
/// returns its calendar date, or nothing when the text does not fit
/// the layout or does not name a real date and time of day.
pub fn parse_capture_date(s: &str) -> (r: Option<Date>)
    ensures
        r == spec_parse_capture_date(s@),
        r matches Some(d) ==> d.wf(),
{
    let n = s.unicode_len();
    if n != 15 {
        return None;
    }
    let sep = s.get_char(8);
    if sep != 'T' {
        return None;
    }
    let year = match read4(s, 0) {
        Some(v) => v,
        None => {
            return None;
        },
    };
    let month = match read2(s, 4) {
        Some(v) => v,
        None => {
            return None;
        },
    };
    let day = match read2(s, 6) {
        Some(v) => v,
        None => {
            return None;
        },
    };
    let hour = match read2(s, 9) {
        Some(v) => v,
        None => {
            return None;
        },
    };
    let minute = match read2(s, 11) {
        Some(v) => v,
        None => {
            return None;
        },
    };
    let second = match read2(s, 13) {
        Some(v) => v,
        None => {
            return None;
        },
    };
    if month < 1 || month > 12 {
        return None;
    }
    let dim = days_in_month_exec(year, month);
    if day < 1 || day > dim {
        return None;
    }
    if hour > 23 || minute > 59 || second > 60 {
        return None;
    }
    proof {
        assert forall|i: int| 0 <= i < 15 && i != 8 implies is_dec_digit(#[trigger] s@[i]) by {
        }
        assert(capture_date_shape_ok(s@));
        assert(capture_date_fields_ok(s@));
    }
    Some(
        Date {
            year: year as u16,
            month: month as u8,
            day: day as u8,
        },
    )
}

} // verus!
