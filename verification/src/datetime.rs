//! Calendar timestamps, held as plain fields, and their stored text form.
//!
//! Rows keep a `created_at` column as text in the fixed shape
//! `YYYY-MM-DD HH:MM:SS`. This module defines the timestamp value, what it
//! means for one to be a real calendar instant, and verified encoding to and
//! decoding from that text shape, with a round-trip law.

use vstd::prelude::*;

verus! {

/// A second-precision calendar timestamp.
#[derive(Clone, Copy, Debug, PartialEq, Eq, Structural)]
pub struct DateTime {
    pub year: u32,
    pub month: u32,
    pub day: u32,
    pub hour: u32,
    pub minute: u32,
    pub second: u32,
}

/// Leap years by the Gregorian rule.
pub open spec fn spec_is_leap_year(year: u32) -> bool {
    year % 4 == 0 && (year % 100 != 0 || year % 400 == 0)
}

/// How many days the given month of the given year has.
pub open spec fn spec_days_in_month(year: u32, month: u32) -> u32 {
    if month == 2 {
        if spec_is_leap_year(year) {
            29
        } else {
            28
        }
    } else if month == 4 || month == 6 || month == 9 || month == 11 {
        30
    } else {
        31
    }
}

#[verifier::when_used_as_spec(spec_days_in_month)]
pub fn days_in_month(year: u32, month: u32) -> (d: u32)
    ensures
        d == spec_days_in_month(year, month),
{
    if month == 2 {
        if year % 4 == 0 && (year % 100 != 0 || year % 400 == 0) {
            29
        } else {
            28
        }
    } else if month == 4 || month == 6 || month == 9 || month == 11 {
        30
    } else {
        31
    }
}

impl DateTime {
    /// A real calendar instant: fields in range, the day one the month has,
    /// and a four-digit year so that the text form is fixed-width.
    pub open spec fn valid(self) -> bool {
        &&& self.year <= 9999
        &&& 1 <= self.month <= 12
        &&& 1 <= self.day <= spec_days_in_month(self.year, self.month)
        &&& self.hour <= 23
        &&& self.minute <= 59
        &&& self.second <= 59
    }

    /// Whether this is a real calendar instant, decided at run time.
    pub fn is_valid(&self) -> (r: bool)
        ensures
            r == self.valid(),
    {
        self.year <= 9999 && 1 <= self.month && self.month <= 12 && 1 <= self.day && self.day
            <= days_in_month(self.year, self.month) && self.hour <= 23 && self.minute <= 59
            && self.second <= 59
    }

    /// Build a timestamp from its fields, rejecting anything that is not a
    /// real calendar instant.
    pub fn new(year: u32, month: u32, day: u32, hour: u32, minute: u32, second: u32) -> (r: Option<
        DateTime,
    >)
        ensures
            ({
                let dt = (DateTime { year, month, day, hour, minute, second });
                r == if dt.valid() {
                    Some(dt)
                } else {
                    None::<DateTime>
                }
            }),
    {
        let dt = DateTime { year, month, day, hour, minute, second };
        if dt.is_valid() {
            Some(dt)
        } else {
            None
        }
    }
}

/// The ASCII digit for `n % 10`.
pub open spec fn digit_byte(n: u32) -> u8 {
    (48 + n % 10) as u8
}

/// The text form of a timestamp, `YYYY-MM-DD HH:MM:SS`, as bytes.
pub open spec fn spec_format(dt: DateTime) -> Seq<u8> {
    seq![
        digit_byte((dt.year / 100) / 10),
        digit_byte(dt.year / 100),
        digit_byte((dt.year % 100) / 10),
        digit_byte(dt.year % 100),
        45u8,
        digit_byte(dt.month / 10),
        digit_byte(dt.month),
        45u8,
        digit_byte(dt.day / 10),
        digit_byte(dt.day),
        32u8,
        digit_byte(dt.hour / 10),
        digit_byte(dt.hour),
        58u8,
        digit_byte(dt.minute / 10),
        digit_byte(dt.minute),
        58u8,
        digit_byte(dt.second / 10),
        digit_byte(dt.second),
    ]
}

/// An ASCII decimal digit.
pub open spec fn is_digit(b: u8) -> bool {
    48 <= b <= 57
}

/// The value of an ASCII decimal digit.
pub open spec fn digit_val(b: u8) -> u32 {
    (b - 48) as u32
}

/// The value of the two digits at `i` and `i + 1`.
pub open spec fn two_digit_val(s: Seq<u8>, i: int) -> u32 {
    (10 * digit_val(s[i]) + digit_val(s[i + 1])) as u32
}

/// Whether a byte string has the shape `YYYY-MM-DD HH:MM:SS`: nineteen
/// bytes, digits in the value positions, the fixed separators between.
pub open spec fn text_shape_ok(s: Seq<u8>) -> bool {
    &&& s.len() == 19
    &&& is_digit(s[0])
    &&& is_digit(s[1])
    &&& is_digit(s[2])
    &&& is_digit(s[3])
    &&& s[4] == 45u8
    &&& is_digit(s[5])
    &&& is_digit(s[6])
    &&& s[7] == 45u8
    &&& is_digit(s[8])
    &&& is_digit(s[9])
    &&& s[10] == 32u8
    &&& is_digit(s[11])
    &&& is_digit(s[12])
    &&& s[13] == 58u8
    &&& is_digit(s[14])
    &&& is_digit(s[15])
    &&& s[16] == 58u8
    &&& is_digit(s[17])
    &&& is_digit(s[18])
}

/// The timestamp a well-shaped byte string denotes.
pub open spec fn datetime_of_text(s: Seq<u8>) -> DateTime {
    DateTime {
        year: (100 * two_digit_val(s, 0) + two_digit_val(s, 2)) as u32,
        month: two_digit_val(s, 5),
        day: two_digit_val(s, 8),
        hour: two_digit_val(s, 11),
        minute: two_digit_val(s, 14),
        second: two_digit_val(s, 17),
    }
}

/// What decoding a stored timestamp text yields: the denoted instant where
/// the text is well-shaped and denotes a real calendar instant, nothing
/// otherwise.
pub open spec fn spec_parse(s: Seq<u8>) -> Option<DateTime> {
    if text_shape_ok(s) && datetime_of_text(s).valid() {
        Some(datetime_of_text(s))
    } else {
        None
    }
}

impl DateTime {
    /// Encode a timestamp as `YYYY-MM-DD HH:MM:SS`.
    pub fn format(&self) -> (r: Vec<u8>)
        requires
            self.valid(),
        ensures
            r@ == spec_format(*self),
            spec_parse(r@) == Some(*self),
    {
        let mut v: Vec<u8> = Vec::new();
        push_two_digits(&mut v, self.year / 100);
        push_two_digits(&mut v, self.year % 100);
        v.push(45);
        push_two_digits(&mut v, self.month);
        v.push(45);
        push_two_digits(&mut v, self.day);
        v.push(32);
        push_two_digits(&mut v, self.hour);
        v.push(58);
        push_two_digits(&mut v, self.minute);
        v.push(58);
        push_two_digits(&mut v, self.second);
        proof {
            assert(v@ =~= spec_format(*self));
            lemma_format_parse_round_trip(*self);
        }
        v
    }

    /// Decode a stored timestamp text; `None` marks a malformed column.
    pub fn parse(s: &[u8]) -> (r: Option<DateTime>)
        ensures
            r == spec_parse(s@),
    {
        if s.len() != 19 {
            return None;
        }
        let year_hi = match read_two_digits(s, 0) {
            Some(n) => n,
            None => { return None; },
        };
        let year_lo = match read_two_digits(s, 2) {
            Some(n) => n,
            None => { return None; },
        };
        if *slice_at(s, 4) != 45 {
            return None;
        }
        let month = match read_two_digits(s, 5) {
            Some(n) => n,
            None => { return None; },
        };
        if *slice_at(s, 7) != 45 {
            return None;
        }
        let day = match read_two_digits(s, 8) {
            Some(n) => n,
            None => { return None; },
        };
        if *slice_at(s, 10) != 32 {
            return None;
        }
        let hour = match read_two_digits(s, 11) {
            Some(n) => n,
            None => { return None; },
        };
        if *slice_at(s, 13) != 58 {
            return None;
        }
        let minute = match read_two_digits(s, 14) {
            Some(n) => n,
            None => { return None; },
        };
        if *slice_at(s, 16) != 58 {
            return None;
        }
        let second = match read_two_digits(s, 17) {
            Some(n) => n,
            None => { return None; },
        };
        DateTime::new(100 * year_hi + year_lo, month, day, hour, minute, second)
    }
}

/// Append the two digits of `n`, a value below one hundred.
fn push_two_digits(v: &mut Vec<u8>, n: u32)
    requires
        n < 100,
    ensures
        final(v)@ == old(v)@ + seq![digit_byte(n / 10), digit_byte(n)],
{
    v.push((48 + n / 10) as u8);
    v.push((48 + n % 10) as u8);
    proof {
        assert(v@ =~= old(v)@ + seq![digit_byte(n / 10), digit_byte(n)]);
    }
}

/// Read one byte of a slice by index.
fn slice_at(s: &[u8], i: usize) -> (b: &u8)
    requires
        i < s@.len(),
    ensures
        *b == s@[i as int],
{
    &s[i]
}

/// Read the two digits at `i` and `i + 1`, if digits they are.
fn read_two_digits(s: &[u8], i: usize) -> (r: Option<u32>)
    requires
        i < 18,
        s@.len() == 19,
    ensures
        r == if is_digit(s@[i as int]) && is_digit(s@[i as int + 1]) {
            Some(two_digit_val(s@, i as int))
        } else {
            None::<u32>
        },
{
    let hi = *slice_at(s, i);
    let lo = *slice_at(s, i + 1);
    if 48 <= hi && hi <= 57 && 48 <= lo && lo <= 57 {
        Some(10 * ((hi - 48) as u32) + ((lo - 48) as u32))
    } else {
        None
    }
}

/// Encoding then decoding a real calendar instant gives it back unchanged.
#[verifier::rlimit(50)]
pub proof fn lemma_format_parse_round_trip(dt: DateTime)
    requires
        dt.valid(),
    ensures
        spec_parse(spec_format(dt)) == Some(dt),
{
    let s = spec_format(dt);
    assert(text_shape_ok(s));
    assert(two_digit_val(s, 0) == dt.year / 100);
    assert(two_digit_val(s, 2) == dt.year % 100);
    assert(two_digit_val(s, 5) == dt.month);
    assert(two_digit_val(s, 8) == dt.day);
    assert(two_digit_val(s, 11) == dt.hour);
    assert(two_digit_val(s, 14) == dt.minute);
    assert(two_digit_val(s, 17) == dt.second);
    assert(datetime_of_text(s) == dt);
}

} // verus!
