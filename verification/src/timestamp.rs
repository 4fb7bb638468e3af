//! Naive (timezone-free) capture timestamps: calendar validity and the
//! fixed-pattern `YYYY-MM-DD HH:MM:SS` parser used for embedded image tags.

use vstd::prelude::*;
use vstd::string::StrSliceExecFns;
use crate::text::{dec_pad, push_padded, push_char};

verus! {

/// A naive local timestamp, down to whole seconds.
#[derive(Clone, Copy, PartialEq, Eq, Structural, Debug)]
pub struct Timestamp {
    pub year: u16,
    pub month: u8,
    pub day: u8,
    pub hour: u8,
    pub minute: u8,
    pub second: u8,
}

/// A year has 366 days when it is divisible by 4, except century years
/// not divisible by 400.
pub open spec fn is_leap_year(y: nat) -> bool {
    y % 4 == 0 && (y % 100 != 0 || y % 400 == 0)
}

/// How many days the given month of the given year has.
pub open spec fn days_in_month(y: nat, m: nat) -> nat {
    if m == 2 {
        if is_leap_year(y) {
            29nat
        } else {
            28nat
        }
    } else if m == 4 || m == 6 || m == 9 || m == 11 {
        30nat
    } else {
        31nat
    }
}

impl Timestamp {
    /// A well-formed timestamp is a valid calendar date with an in-range
    /// time of day.
    pub open spec fn wf(self) -> bool {
        &&& 1 <= self.month <= 12
        &&& 1 <= self.day <= days_in_month(self.year as nat, self.month as nat)
        &&& self.hour <= 23
        &&& self.minute <= 59
        &&& self.second <= 59
    }
}

fn is_leap_year_x(y: u16) -> (r: bool)
    ensures
        r == is_leap_year(y as nat),
{
    y % 4 == 0 && (y % 100 != 0 || y % 400 == 0)
}

fn days_in_month_x(y: u16, m: u8) -> (r: u8)
    ensures
        r as nat == days_in_month(y as nat, m as nat),
{
    if m == 2 {
        if is_leap_year_x(y) {
            29
        } else {
            28
        }
    } else if m == 4 || m == 6 || m == 9 || m == 11 {
        30
    } else {
        31
    }
}

/// Whether `c` is a decimal digit.
pub open spec fn is_digit(c: char) -> bool {
    48 <= c as u32 <= 57
}

/// The numeric value of a decimal digit character.
pub open spec fn digit_val(c: char) -> nat {
    (c as u32 - 48) as nat
}

/// The value of the two-digit group starting at position `i`.
pub open spec fn two_digits(s: Seq<char>, i: int) -> nat {
    digit_val(s[i]) * 10 + digit_val(s[i + 1])
}

/// The value of the four-digit group starting at position `i`.
pub open spec fn four_digits(s: Seq<char>, i: int) -> nat {
    digit_val(s[i]) * 1000 + digit_val(s[i + 1]) * 100 + digit_val(s[i + 2]) * 10 + digit_val(
        s[i + 3],
    )
}

/// Whether `s` has exactly the shape `YYYY-MM-DD HH:MM:SS`.
pub open spec fn is_datetime_shape(s: Seq<char>) -> bool {
    &&& s.len() == 19
    &&& is_digit(s[0]) && is_digit(s[1]) && is_digit(s[2]) && is_digit(s[3])
    &&& s[4] == '-'
    &&& is_digit(s[5]) && is_digit(s[6])
    &&& s[7] == '-'
    &&& is_digit(s[8]) && is_digit(s[9])
    &&& s[10] == ' '
    &&& is_digit(s[11]) && is_digit(s[12])
    &&& s[13] == ':'
    &&& is_digit(s[14]) && is_digit(s[15])
    &&& s[16] == ':'
    &&& is_digit(s[17]) && is_digit(s[18])
}

/// The timestamp the shape spells out, before calendar validation.
pub open spec fn shape_timestamp(s: Seq<char>) -> Timestamp {
    Timestamp {
        year: four_digits(s, 0) as u16,
        month: two_digits(s, 5) as u8,
        day: two_digits(s, 8) as u8,
        hour: two_digits(s, 11) as u8,
        minute: two_digits(s, 14) as u8,
        second: two_digits(s, 17) as u8,
    }
}

/// What parsing a `YYYY-MM-DD HH:MM:SS` string yields: the spelled-out
/// timestamp when the shape matches and the values form a valid calendar
/// timestamp, and nothing otherwise.
pub open spec fn parse_datetime_spec(s: Seq<char>) -> Option<Timestamp> {
    if is_datetime_shape(s) && shape_timestamp(s).wf() {
        Some(shape_timestamp(s))
    } else {
        None
    }
}

fn digit_at(s: &str, i: usize) -> (r: Option<u32>)
    requires
        i < s@.len(),
    ensures
        match r {
            Some(v) => is_digit(s@[i as int]) && v == digit_val(s@[i as int]) && v < 10,
            None => !is_digit(s@[i as int]),
        },
{
    let c = s.get_char(i);
    let u = c as u32;
    if 48 <= u && u <= 57 {
        Some(u - 48)
    } else {
        None
    }
}

/// Parses the fixed `YYYY-MM-DD HH:MM:SS` pattern into a timestamp,
/// rejecting anything that is not a valid calendar timestamp.
pub fn parse_datetime(s: &str) -> (r: Option<Timestamp>)
    ensures
        r == parse_datetime_spec(s@),
        r matches Some(t) ==> t.wf(),
{
    if s.unicode_len() != 19 {
        return None;
    }
    if s.get_char(4) != '-' || s.get_char(7) != '-' || s.get_char(10) != ' ' || s.get_char(13)
        != ':' || s.get_char(16) != ':' {
        return None;
    }
    let y0 = match digit_at(s, 0) { Some(v) => v, None => { return None; } };
    let y1 = match digit_at(s, 1) { Some(v) => v, None => { return None; } };
    let y2 = match digit_at(s, 2) { Some(v) => v, None => { return None; } };
    let y3 = match digit_at(s, 3) { Some(v) => v, None => { return None; } };
    let mo0 = match digit_at(s, 5) { Some(v) => v, None => { return None; } };
    let mo1 = match digit_at(s, 6) { Some(v) => v, None => { return None; } };
    let d0 = match digit_at(s, 8) { Some(v) => v, None => { return None; } };
    let d1 = match digit_at(s, 9) { Some(v) => v, None => { return None; } };
    let h0 = match digit_at(s, 11) { Some(v) => v, None => { return None; } };
    let h1 = match digit_at(s, 12) { Some(v) => v, None => { return None; } };
    let mi0 = match digit_at(s, 14) { Some(v) => v, None => { return None; } };
    let mi1 = match digit_at(s, 15) { Some(v) => v, None => { return None; } };
    let s0 = match digit_at(s, 17) { Some(v) => v, None => { return None; } };
    let s1 = match digit_at(s, 18) { Some(v) => v, None => { return None; } };

    let year: u16 = (y0 * 1000 + y1 * 100 + y2 * 10 + y3) as u16;
    let month: u8 = (mo0 * 10 + mo1) as u8;
    let day: u8 = (d0 * 10 + d1) as u8;
    let hour: u8 = (h0 * 10 + h1) as u8;
    let minute: u8 = (mi0 * 10 + mi1) as u8;
    let second: u8 = (s0 * 10 + s1) as u8;

    let t = Timestamp { year, month, day, hour, minute, second };
    assert(t == shape_timestamp(s@));

    if month < 1 || month > 12 {
        return None;
    }
    if day < 1 || day > days_in_month_x(year, month) {
        return None;
    }
    if hour > 23 || minute > 59 || second > 59 {
        return None;
    }
    Some(t)
}

/// The `YYYYMMDD_HHMMSS` rendering of a timestamp, used as the leading
/// filename component.
pub open spec fn stamp_seq(t: Timestamp) -> Seq<char> {
    dec_pad(t.year as nat, 4) + dec_pad(t.month as nat, 2) + dec_pad(t.day as nat, 2) + seq!['_']
        + dec_pad(t.hour as nat, 2) + dec_pad(t.minute as nat, 2) + dec_pad(t.second as nat, 2)
}

/// Appends the `YYYYMMDD_HHMMSS` rendering of `t` to `out`.
pub fn push_stamp(out: &mut String, t: &Timestamp)
    ensures
        final(out)@ == old(out)@ + stamp_seq(*t),
{
    push_padded(out, t.year as u32, 4);
    push_padded(out, t.month as u32, 2);
    push_padded(out, t.day as u32, 2);
    push_char(out, '_');
    push_padded(out, t.hour as u32, 2);
    push_padded(out, t.minute as u32, 2);
    push_padded(out, t.second as u32, 2);
    assert(out@ =~= old(out)@ + stamp_seq(*t));
}

} // verus!
