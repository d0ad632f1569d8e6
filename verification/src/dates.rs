//! Calendar dates for feed requests.
//!
//! A [`Date`] is a plain year-month-day triple with the Gregorian validity
//! rules; request dates are parsed from and formatted to the `YYYY-MM-DD`
//! form the feed endpoints expect.  Only the current local date comes from
//! outside, through a small trusted wrapper.

use vstd::arithmetic::div_mod::lemma_fundamental_div_mod;
use vstd::prelude::*;

use crate::errors::FeedError;
use crate::text::push_char;

verus! {

/// A calendar date, held as plain values.
#[derive(Clone, Copy, Debug, PartialEq, Eq, Structural)]
pub struct Date {
    /// The year, up to 9999 so that it always formats as four digits.
    pub year: u16,
    /// The month, 1 to 12.
    pub month: u8,
    /// The day of the month, 1 up to the month's length.
    pub day: u8,
}

/// Whether `y` is a Gregorian leap year.
pub open spec fn spec_is_leap_year(y: int) -> bool {
    y % 4 == 0 && (y % 100 != 0 || y % 400 == 0)
}

/// The number of days in month `m` of year `y`.
pub open spec fn spec_days_in_month(y: int, m: int) -> int {
    if m == 2 {
        if spec_is_leap_year(y) {
            29
        } else {
            28
        }
    } else if m == 4 || m == 6 || m == 9 || m == 11 {
        30
    } else {
        31
    }
}

/// Whether `d` is a real calendar date that formats as `YYYY-MM-DD`.
pub open spec fn spec_valid_date(d: Date) -> bool {
    &&& d.year <= 9999
    &&& 1 <= d.month <= 12
    &&& 1 <= d.day <= spec_days_in_month(d.year as int, d.month as int)
}

/// Whether `a` comes strictly before `b` in time.
pub open spec fn spec_date_lt(a: Date, b: Date) -> bool {
    ||| a.year < b.year
    ||| (a.year == b.year && a.month < b.month)
    ||| (a.year == b.year && a.month == b.month && a.day < b.day)
}

/// Whether `c` is a decimal digit.
pub open spec fn spec_is_digit(c: char) -> bool {
    '0' as u32 <= c as u32 <= '9' as u32
}

/// The numeric value of the digit `c`.
pub open spec fn spec_digit_val(c: char) -> int {
    c as u32 - '0' as u32
}

/// The digit character for a value 0 to 9.
pub open spec fn spec_digit_char(v: int) -> char {
    if v == 0 {
        '0'
    } else if v == 1 {
        '1'
    } else if v == 2 {
        '2'
    } else if v == 3 {
        '3'
    } else if v == 4 {
        '4'
    } else if v == 5 {
        '5'
    } else if v == 6 {
        '6'
    } else if v == 7 {
        '7'
    } else if v == 8 {
        '8'
    } else {
        '9'
    }
}

/// The `YYYY-MM-DD` rendering of `d`.
pub open spec fn spec_format_date(d: Date) -> Seq<char> {
    let y = d.year as int;
    let m = d.month as int;
    let dd = d.day as int;
    seq![
        spec_digit_char(y / 1000),
        spec_digit_char((y / 100) % 10),
        spec_digit_char((y / 10) % 10),
        spec_digit_char(y % 10),
        '-',
        spec_digit_char(m / 10),
        spec_digit_char(m % 10),
        '-',
        spec_digit_char(dd / 10),
        spec_digit_char(dd % 10),
    ]
}

/// The date that the ten characters `s` name in `YYYY-MM-DD` form, if they
/// name a real calendar date.
pub open spec fn spec_parse_date(s: Seq<char>) -> Option<Date> {
    if s.len() == 10 && spec_is_digit(s[0]) && spec_is_digit(s[1]) && spec_is_digit(s[2])
        && spec_is_digit(s[3]) && s[4] == '-' && spec_is_digit(s[5]) && spec_is_digit(s[6])
        && s[7] == '-' && spec_is_digit(s[8]) && spec_is_digit(s[9]) {
        let d = Date {
            year: (1000 * spec_digit_val(s[0]) + 100 * spec_digit_val(s[1]) + 10 * spec_digit_val(
                s[2],
            ) + spec_digit_val(s[3])) as u16,
            month: (10 * spec_digit_val(s[5]) + spec_digit_val(s[6])) as u8,
            day: (10 * spec_digit_val(s[8]) + spec_digit_val(s[9])) as u8,
        };
        if spec_valid_date(d) {
            Some(d)
        } else {
            None
        }
    } else {
        None
    }
}

/// The digit character for `v`, 0 to 9.
fn digit_char(v: u16) -> (c: char)
    requires
        v <= 9,
    ensures
        c == spec_digit_char(v as int),
        spec_is_digit(c),
        spec_digit_val(c) == v as int,
{
    match v {
        0 => '0',
        1 => '1',
        2 => '2',
        3 => '3',
        4 => '4',
        5 => '5',
        6 => '6',
        7 => '7',
        8 => '8',
        _ => '9',
    }
}

impl Date {
    /// The date `year`-`month`-`day`, if that is a real calendar date with a
    /// four-digit year.
    pub fn from_ymd(year: i64, month: i64, day: i64) -> (r: Option<Date>)
        ensures
            match r {
                Some(d) => d.year == year && d.month == month && d.day == day && spec_valid_date(d),
                None => forall|d: Date|
                    spec_valid_date(d) ==> !(d.year == year && d.month == month && d.day == day),
            },
    {
        if 0 <= year && year <= 9999 && 1 <= month && month <= 12 && 1 <= day && day <= 31 {
            let d = Date { year: year as u16, month: month as u8, day: day as u8 };
            if d.day <= days_in_month(d.year, d.month) {
                Some(d)
            } else {
                None
            }
        } else {
            None
        }
    }

    /// Whether `self` comes strictly before `other` in time.
    pub fn lt(&self, other: &Date) -> (r: bool)
        ensures
            r == spec_date_lt(*self, *other),
    {
        self.year < other.year || (self.year == other.year && self.month < other.month) || (
        self.year == other.year && self.month == other.month && self.day < other.day)
    }

    /// The `YYYY-MM-DD` rendering of this date.
    pub fn to_text(&self) -> (r: String)
        requires
            spec_valid_date(*self),
        ensures
            r@ == spec_format_date(*self),
            r@.len() == 10,
    {
        let y = self.year;
        let m = self.month as u16;
        let d = self.day as u16;
        let mut out = String::new();
        push_char(&mut out, digit_char(y / 1000));
        push_char(&mut out, digit_char((y / 100) % 10));
        push_char(&mut out, digit_char((y / 10) % 10));
        push_char(&mut out, digit_char(y % 10));
        push_char(&mut out, '-');
        push_char(&mut out, digit_char(m / 10));
        push_char(&mut out, digit_char(m % 10));
        push_char(&mut out, '-');
        push_char(&mut out, digit_char(d / 10));
        push_char(&mut out, digit_char(d % 10));
        proof {
            assert(out@ =~= spec_format_date(*self));
        }
        out
    }

    /// The date that `s` names in `YYYY-MM-DD` form.
    ///
    /// Returns `InvalidDateInput` exactly when `s` is not ten characters of
    /// that shape or does not name a real calendar date.
    pub fn parse(s: &str) -> (r: Result<Date, FeedError>)
        ensures
            match r {
                Ok(d) => spec_parse_date(s@) == Some(d),
                Err(e) => spec_parse_date(s@) is None && e == FeedError::InvalidDateInput,
            },
    {
        if s.unicode_len() != 10 {
            return Err(FeedError::InvalidDateInput);
        }
        let c0 = s.get_char(0);
        let c1 = s.get_char(1);
        let c2 = s.get_char(2);
        let c3 = s.get_char(3);
        let c4 = s.get_char(4);
        let c5 = s.get_char(5);
        let c6 = s.get_char(6);
        let c7 = s.get_char(7);
        let c8 = s.get_char(8);
        let c9 = s.get_char(9);
        if !(is_digit(c0) && is_digit(c1) && is_digit(c2) && is_digit(c3) && c4 == '-' && is_digit(
            c5,
        ) && is_digit(c6) && c7 == '-' && is_digit(c8) && is_digit(c9)) {
            return Err(FeedError::InvalidDateInput);
        }
        let year: u32 = 1000 * digit_val(c0) + 100 * digit_val(c1) + 10 * digit_val(c2) + digit_val(
            c3,
        );
        let month: u32 = 10 * digit_val(c5) + digit_val(c6);
        let day: u32 = 10 * digit_val(c8) + digit_val(c9);
        let d = Date { year: year as u16, month: month as u8, day: day as u8 };
        if 1 <= d.month && d.month <= 12 && 1 <= d.day && d.day <= days_in_month(d.year, d.month) {
            Ok(d)
        } else {
            Err(FeedError::InvalidDateInput)
        }
    }

    /// The current local calendar date, if the system clock names one with a
    /// four-digit year.
    pub fn today() -> (r: Option<Date>)
        ensures
            r matches Some(d) ==> spec_valid_date(d),
    {
        let (y, m, d) = local_today_ymd();
        Date::from_ymd(y as i64, m as i64, d as i64)
    }
}

/// Whether `c` is a decimal digit.
fn is_digit(c: char) -> (r: bool)
    ensures
        r == spec_is_digit(c),
{
    '0' as u32 <= c as u32 && c as u32 <= '9' as u32
}

/// The numeric value of the digit `c`.
fn digit_val(c: char) -> (r: u32)
    requires
        spec_is_digit(c),
    ensures
        r == spec_digit_val(c),
        r <= 9,
{
    c as u32 - '0' as u32
}

/// The number of days in month `m` of year `y`.
fn days_in_month(y: u16, m: u8) -> (r: u8)
    ensures
        r == spec_days_in_month(y as int, m as int),
{
    if m == 2 {
        if y % 4 == 0 && (y % 100 != 0 || y % 400 == 0) {
            29
        } else {
            28
        }
    } else if m == 4 || m == 6 || m == 9 || m == 11 {
        30
    } else {
        31
    }
}

/// Relies on `chrono::Local::now` and the `chrono::Datelike` accessors: the
/// year, month and day of the current local date.  The result depends on the
/// system clock, so nothing is promised of it; the call itself panics on a
/// system clock set before the Unix epoch.
#[verifier::external_body]
fn local_today_ymd() -> (r: (i32, u32, u32)) {
    let d = chrono::Local::now().date_naive();
    (chrono::Datelike::year(&d), chrono::Datelike::month(&d), chrono::Datelike::day(&d))
}

/// A four-digit number is recomposed from its decimal digits.
proof fn lemma_digits_recompose(y: int)
    requires
        0 <= y <= 9999,
    ensures
        1000 * (y / 1000) + 100 * ((y / 100) % 10) + 10 * ((y / 10) % 10) + y % 10 == y,
{
    lemma_fundamental_div_mod(y, 10);
    lemma_fundamental_div_mod(y / 10, 10);
    lemma_fundamental_div_mod(y / 100, 10);
    assert(y / 10 / 10 == y / 100) by (nonlinear_arith)
        requires 0 <= y <= 9999;
    assert(y / 100 / 10 == y / 1000) by (nonlinear_arith)
        requires 0 <= y <= 9999;
    assert(y / 1000 % 10 == y / 1000) by (nonlinear_arith)
        requires 0 <= y <= 9999;
}

/// The digit character of a value 0 to 9 is a digit with that value.
proof fn lemma_digit_char_val(v: int)
    requires
        0 <= v <= 9,
    ensures
        spec_is_digit(spec_digit_char(v)),
        spec_digit_val(spec_digit_char(v)) == v,
{
}

/// Formatting a valid date and parsing the result gives the date back.
///
/// Together with the contracts of [`Date::parse`] and [`Date::to_text`],
/// this says the two are inverse on every valid date.
pub proof fn lemma_date_text_round_trip(d: Date)
    requires
        spec_valid_date(d),
    ensures
        spec_parse_date(spec_format_date(d)) == Some(d),
{
    let s = spec_format_date(d);
    let y = d.year as int;
    let m = d.month as int;
    let dd = d.day as int;
    lemma_digit_char_val(y / 1000);
    lemma_digit_char_val((y / 100) % 10);
    lemma_digit_char_val((y / 10) % 10);
    lemma_digit_char_val(y % 10);
    lemma_digit_char_val(m / 10);
    lemma_digit_char_val(m % 10);
    lemma_digit_char_val(dd / 10);
    lemma_digit_char_val(dd % 10);
    lemma_digits_recompose(y);
    lemma_digits_recompose(m);
    lemma_digits_recompose(dd);
    assert(m / 1000 == 0 && (m / 100) % 10 == 0) by (nonlinear_arith)
        requires 1 <= m <= 12;
    assert(dd / 1000 == 0 && (dd / 100) % 10 == 0) by (nonlinear_arith)
        requires 1 <= dd <= 31;
    assert(1000 * spec_digit_val(s[0]) + 100 * spec_digit_val(s[1]) + 10 * spec_digit_val(s[2])
        + spec_digit_val(s[3]) == y);
    assert(10 * spec_digit_val(s[5]) + spec_digit_val(s[6]) == m);
    assert(10 * spec_digit_val(s[8]) + spec_digit_val(s[9]) == dd);
    assert(spec_parse_date(s) == Some(d));
}

} // verus!
