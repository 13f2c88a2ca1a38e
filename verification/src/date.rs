//! Calendar values that index a forecast.
//!
//! A forecast series is indexed by days and by hours.  Both are held as
//! plain integers: a [`Date`] is a year, month and day of the proleptic
//! Gregorian calendar, and a [`DateTime`] adds an hour and a minute.
//! Ordering is captured by an injective key so that contracts can speak
//! of one timestamp coming before another.

use vstd::prelude::*;
use vstd::string::StrSliceExecFns;

verus! {

/// One calendar day: year, month (1 to 12) and day of month.
#[derive(Clone, Copy, Debug, PartialEq, Eq, Structural)]
pub struct Date {
    pub year: u16,
    pub month: u8,
    pub day: u8,
}

/// One hour of one day, to the minute.
#[derive(Clone, Copy, Debug, PartialEq, Eq, Structural)]
pub struct DateTime {
    pub date: Date,
    pub hour: u8,
    pub minute: u8,
}

/// Whether `year` is a leap year of the Gregorian calendar.
pub open spec fn spec_is_leap_year(year: u16) -> bool {
    (year % 4 == 0 && year % 100 != 0) || year % 400 == 0
}

/// How many days the month has; 0 for a month outside 1 to 12.
pub open spec fn spec_days_in_month(year: u16, month: u8) -> u8 {
    if month == 1 || month == 3 || month == 5 || month == 7 || month == 8 || month == 10
        || month == 12 {
        31
    } else if month == 4 || month == 6 || month == 9 || month == 11 {
        30
    } else if month == 2 {
        if spec_is_leap_year(year) {
            29
        } else {
            28
        }
    } else {
        0
    }
}

impl Date {
    /// A valid calendar day: the month is in range and the day exists in it.
    pub open spec fn wf(self) -> bool {
        1 <= self.month <= 12 && 1 <= self.day <= spec_days_in_month(self.year, self.month)
    }

    /// An injective, order-preserving key: later days have larger keys.
    pub open spec fn key(self) -> int {
        self.year * 0x200 + self.month * 0x20 + self.day
    }
}

impl DateTime {
    /// A valid timestamp: the day is valid and hour and minute are in range.
    pub open spec fn wf(self) -> bool {
        self.date.wf() && self.hour < 24 && self.minute < 60
    }

    /// An injective, order-preserving key: later timestamps have larger keys.
    pub open spec fn key(self) -> int {
        self.date.key() * 0x800 + self.hour * 0x40 + self.minute
    }
}

impl Date {
    /// Tests whether the value names a day that exists in the calendar.
    pub fn valid(&self) -> (b: bool)
        ensures
            b == self.wf(),
    {
        1 <= self.month && self.month <= 12 && 1 <= self.day && self.day <= days_in_month(
            self.year,
            self.month,
        )
    }

    /// Returns the ordering key as a machine integer.
    pub fn key64(&self) -> (k: u64)
        ensures
            k == self.key(),
    {
        (self.year as u64) * 0x200 + (self.month as u64) * 0x20 + (self.day as u64)
    }
}

impl DateTime {
    /// Tests whether the value names a valid day and clock time.
    pub fn valid(&self) -> (b: bool)
        ensures
            b == self.wf(),
    {
        self.date.valid() && self.hour < 24 && self.minute < 60
    }

    /// Returns the ordering key as a machine integer.
    pub fn key64(&self) -> (k: u64)
        ensures
            k == self.key(),
    {
        self.date.key64() * 0x800 + (self.hour as u64) * 0x40 + (self.minute as u64)
    }
}

/// Whether `d` is an ASCII decimal digit.
pub open spec fn spec_is_digit(c: char) -> bool {
    '0' <= c && c <= '9'
}

/// The numeric value of an ASCII decimal digit.
pub open spec fn spec_digit(c: char) -> int {
    c as int - '0' as int
}

/// Returns the numeric value of an ASCII digit character.
pub fn digit_value(c: char) -> (v: u8)
    requires
        spec_is_digit(c),
    ensures
        v == spec_digit(c),
        v <= 9,
{
    (c as u8) - 48
}

/// Tests whether a character is an ASCII decimal digit.
pub fn is_digit(c: char) -> (b: bool)
    ensures
        b == spec_is_digit(c),
{
    '0' <= c && c <= '9'
}

/// Whether `s` spells a day in the wire format `YYYY-MM-DD`.
pub open spec fn spec_date_text(s: Seq<char>) -> bool {
    &&& s.len() == 10
    &&& spec_is_digit(s[0]) && spec_is_digit(s[1]) && spec_is_digit(s[2]) && spec_is_digit(s[3])
    &&& s[4] == '-'
    &&& spec_is_digit(s[5]) && spec_is_digit(s[6])
    &&& s[7] == '-'
    &&& spec_is_digit(s[8]) && spec_is_digit(s[9])
}

/// The day a well-formed `YYYY-MM-DD` text spells.
pub open spec fn spec_date_of(s: Seq<char>) -> Date {
    Date {
        year: (spec_digit(s[0]) * 1000 + spec_digit(s[1]) * 100 + spec_digit(s[2]) * 10
            + spec_digit(s[3])) as u16,
        month: (spec_digit(s[5]) * 10 + spec_digit(s[6])) as u8,
        day: (spec_digit(s[8]) * 10 + spec_digit(s[9])) as u8,
    }
}

/// What parsing a day out of `s` yields: the spelled day when the text is
/// well formed and names a day that exists in the calendar, nothing else.
pub open spec fn spec_parse_date(s: Seq<char>) -> Option<Date> {
    if spec_date_text(s) && spec_date_of(s).wf() {
        Some(spec_date_of(s))
    } else {
        None
    }
}

/// Whether `s` spells a timestamp in the wire format `YYYY-MM-DDTHH:MM`.
pub open spec fn spec_date_time_text(s: Seq<char>) -> bool {
    &&& s.len() == 16
    &&& spec_date_text(s.subrange(0, 10))
    &&& s[10] == 'T'
    &&& spec_is_digit(s[11]) && spec_is_digit(s[12])
    &&& s[13] == ':'
    &&& spec_is_digit(s[14]) && spec_is_digit(s[15])
}

/// The timestamp a well-formed `YYYY-MM-DDTHH:MM` text spells.
pub open spec fn spec_date_time_of(s: Seq<char>) -> DateTime {
    DateTime {
        date: spec_date_of(s.subrange(0, 10)),
        hour: (spec_digit(s[11]) * 10 + spec_digit(s[12])) as u8,
        minute: (spec_digit(s[14]) * 10 + spec_digit(s[15])) as u8,
    }
}

/// What parsing a timestamp out of `s` yields: the spelled timestamp when
/// the text is well formed and valid, nothing else.
pub open spec fn spec_parse_date_time(s: Seq<char>) -> Option<DateTime> {
    if spec_date_time_text(s) && spec_date_time_of(s).wf() {
        Some(spec_date_time_of(s))
    } else {
        None
    }
}

/// Returns how many days the month has, or 0 outside 1 to 12.
pub fn days_in_month(year: u16, month: u8) -> (d: u8)
    ensures
        d == spec_days_in_month(year, month),
{
    if month == 1 || month == 3 || month == 5 || month == 7 || month == 8 || month == 10
        || month == 12 {
        31
    } else if month == 4 || month == 6 || month == 9 || month == 11 {
        30
    } else if month == 2 {
        if (year % 4 == 0 && year % 100 != 0) || year % 400 == 0 {
            29
        } else {
            28
        }
    } else {
        0
    }
}

/// Parses a day from the wire format `YYYY-MM-DD`, rejecting malformed
/// text and days that do not exist in the calendar.
pub fn parse_date(s: &str) -> (r: Option<Date>)
    ensures
        r == spec_parse_date(s@),
{
    let len = s.unicode_len();
    if len != 10 {
        return None;
    }
    let c0 = s.get_char(0);
    let c1 = s.get_char(1);
    let c2 = s.get_char(2);
    let c3 = s.get_char(3);
    let c4 = s.get_char(4);
    let c5 = s.get_char(5);
    let c6 = s.get_char(6);
    let c7 = s.get_char(7);
    let c8 = s.get_char(8);
    let c9 = s.get_char(9);
    if !(is_digit(c0) && is_digit(c1) && is_digit(c2) && is_digit(c3) && c4 == '-'
        && is_digit(c5) && is_digit(c6) && c7 == '-' && is_digit(c8) && is_digit(c9)) {
        return None;
    }
    let year: u16 = (digit_value(c0) as u16) * 1000 + (digit_value(c1) as u16) * 100
        + (digit_value(c2) as u16) * 10 + (digit_value(c3) as u16);
    let month: u8 = digit_value(c5) * 10 + digit_value(c6);
    let day: u8 = digit_value(c8) * 10 + digit_value(c9);
    if month < 1 || month > 12 || day < 1 || day > days_in_month(year, month) {
        return None;
    }
    Some(Date { year, month, day })
}

/// Parses a timestamp from the wire format `YYYY-MM-DDTHH:MM`, rejecting
/// malformed text and values outside the calendar or the clock.
pub fn parse_date_time(s: &str) -> (r: Option<DateTime>)
    ensures
        r == spec_parse_date_time(s@),
{
    let len = s.unicode_len();
    if len != 16 {
        return None;
    }
    let date_part = s.substring_char(0, 10);
    let date = match parse_date(date_part) {
        Some(d) => d,
        None => {
            return None;
        },
    };
    let c10 = s.get_char(10);
    let c11 = s.get_char(11);
    let c12 = s.get_char(12);
    let c13 = s.get_char(13);
    let c14 = s.get_char(14);
    let c15 = s.get_char(15);
    if !(c10 == 'T' && is_digit(c11) && is_digit(c12) && c13 == ':' && is_digit(c14)
        && is_digit(c15)) {
        return None;
    }
    let hour: u8 = digit_value(c11) * 10 + digit_value(c12);
    let minute: u8 = digit_value(c14) * 10 + digit_value(c15);
    if hour >= 24 || minute >= 60 {
        return None;
    }
    Some(DateTime { date, hour, minute })
}

} // verus!
