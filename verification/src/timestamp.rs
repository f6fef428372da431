//! Wall-clock timestamps and the file name derived from them.

use vstd::prelude::*;
use vstd::string::*;

verus! {

/// A reading of the local clock, broken down into calendar fields.
#[derive(Clone, Copy, Debug, PartialEq, Eq)]
pub struct ClockReading {
    pub year: i32,
    pub month: u32,
    pub day: u32,
    pub hour: u32,
    pub minute: u32,
    pub second: u32,
}

/// A second-granular local timestamp whose fields all fit their printed width.
#[derive(Clone, Copy, Debug, PartialEq, Eq)]
pub struct Timestamp {
    pub year: u32,
    pub month: u32,
    pub day: u32,
    pub hour: u32,
    pub minute: u32,
    pub second: u32,
}

/// The decimal digit character for `d`, for `0 <= d <= 9`.
pub open spec fn digit_char(d: int) -> char {
    if d == 0 {
        '0'
    } else if d == 1 {
        '1'
    } else if d == 2 {
        '2'
    } else if d == 3 {
        '3'
    } else if d == 4 {
        '4'
    } else if d == 5 {
        '5'
    } else if d == 6 {
        '6'
    } else if d == 7 {
        '7'
    } else if d == 8 {
        '8'
    } else {
        '9'
    }
}

/// `n` printed in decimal, zero-padded to two digits.
pub open spec fn two_digits(n: int) -> Seq<char> {
    seq![digit_char(n / 10), digit_char(n % 10)]
}

/// `n` printed in decimal, zero-padded to four digits.
pub open spec fn four_digits(n: int) -> Seq<char> {
    seq![
        digit_char(n / 1000),
        digit_char((n / 100) % 10),
        digit_char((n / 10) % 10),
        digit_char(n % 10),
    ]
}

/// Whether the six calendar fields are within the ranges a timestamp admits.
pub open spec fn fields_in_range(
    year: int,
    month: int,
    day: int,
    hour: int,
    minute: int,
    second: int,
) -> bool {
    &&& 0 <= year <= 9999
    &&& 1 <= month <= 12
    &&& 1 <= day <= 31
    &&& 0 <= hour <= 23
    &&& 0 <= minute <= 59
    &&& 0 <= second <= 59
}

/// The text `<year>-<month>-<day>_<hour>-<minute>-<second>` of a timestamp.
pub open spec fn stamp_text(t: Timestamp) -> Seq<char> {
    four_digits(t.year as int) + "-"@ + two_digits(t.month as int) + "-"@ + two_digits(
        t.day as int,
    ) + "_"@ + two_digits(t.hour as int) + "-"@ + two_digits(t.minute as int) + "-"@
        + two_digits(t.second as int)
}

/// The screenshot file name for a timestamp.
pub open spec fn filename_text(t: Timestamp) -> Seq<char> {
    "Screenshot_"@ + stamp_text(t) + ".png"@
}

/// Reads the local clock.
///
/// Trusted: calls `chrono::Local::now` and reads the result through
/// `Datelike::{year, month, day}` and `Timelike::{hour, minute, second}`.
/// The contract repeats the ranges those getters document: month 1 to 12,
/// day 1 to 31, hour 0 to 23, minute and second 0 to 59. Nothing is claimed
/// about the year or about which instant is returned.
#[verifier::external_body]
pub(crate) fn read_local_clock() -> (r: ClockReading)
    ensures
        1 <= r.month <= 12,
        1 <= r.day <= 31,
        r.hour <= 23,
        r.minute <= 59,
        r.second <= 59,
{
    let now = chrono::Local::now();
    ClockReading {
        year: chrono::Datelike::year(&now),
        month: chrono::Datelike::month(&now),
        day: chrono::Datelike::day(&now),
        hour: chrono::Timelike::hour(&now),
        minute: chrono::Timelike::minute(&now),
        second: chrono::Timelike::second(&now),
    }
}

fn digit_str(d: u32) -> (s: &'static str)
    requires
        d <= 9,
    ensures
        s@ == seq![digit_char(d as int)],
{
    proof {
        reveal_strlit("0");
        reveal_strlit("1");
        reveal_strlit("2");
        reveal_strlit("3");
        reveal_strlit("4");
        reveal_strlit("5");
        reveal_strlit("6");
        reveal_strlit("7");
        reveal_strlit("8");
        reveal_strlit("9");
    }
    let s = if d == 0 {
        "0"
    } else if d == 1 {
        "1"
    } else if d == 2 {
        "2"
    } else if d == 3 {
        "3"
    } else if d == 4 {
        "4"
    } else if d == 5 {
        "5"
    } else if d == 6 {
        "6"
    } else if d == 7 {
        "7"
    } else if d == 8 {
        "8"
    } else {
        "9"
    };
    assert(s@ =~= seq![digit_char(d as int)]);
    s
}

fn push_two_digits(out: &mut String, n: u32)
    requires
        n <= 99,
    ensures
        final(out)@ == old(out)@ + two_digits(n as int),
{
    out.append(digit_str(n / 10));
    out.append(digit_str(n % 10));
    assert(final(out)@ =~= old(out)@ + two_digits(n as int));
}

fn push_four_digits(out: &mut String, n: u32)
    requires
        n <= 9999,
    ensures
        final(out)@ == old(out)@ + four_digits(n as int),
{
    out.append(digit_str(n / 1000));
    out.append(digit_str((n / 100) % 10));
    out.append(digit_str((n / 10) % 10));
    out.append(digit_str(n % 10));
    assert(final(out)@ =~= old(out)@ + four_digits(n as int));
}

impl Timestamp {
    /// Every field is within the range its printed width can hold.
    pub open spec fn well_formed(self) -> bool {
        fields_in_range(
            self.year as int,
            self.month as int,
            self.day as int,
            self.hour as int,
            self.minute as int,
            self.second as int,
        )
    }

    /// Builds a timestamp from calendar fields, or `None` when a field is out
    /// of range.
    pub fn new(year: i32, month: u32, day: u32, hour: u32, minute: u32, second: u32) -> (r:
        Option<Timestamp>)
        ensures
            r.is_some() <==> fields_in_range(
                year as int,
                month as int,
                day as int,
                hour as int,
                minute as int,
                second as int,
            ),
            r matches Some(t) ==> {
                &&& t.well_formed()
                &&& t.year == year
                &&& t.month == month
                &&& t.day == day
                &&& t.hour == hour
                &&& t.minute == minute
                &&& t.second == second
            },
    {
        if 0 <= year && year <= 9999 && 1 <= month && month <= 12 && 1 <= day && day <= 31 && hour
            <= 23 && minute <= 59 && second <= 59 {
            Some(Timestamp { year: year as u32, month, day, hour, minute, second })
        } else {
            None
        }
    }

    /// Converts a clock reading, or `None` when its year cannot be printed in
    /// four digits.
    pub fn from_reading(reading: ClockReading) -> (r: Option<Timestamp>)
        ensures
            r == Timestamp::spec_from_reading(reading),
    {
        Timestamp::new(
            reading.year,
            reading.month,
            reading.day,
            reading.hour,
            reading.minute,
            reading.second,
        )
    }

    /// What `from_reading` returns.
    pub open spec fn spec_from_reading(reading: ClockReading) -> Option<Timestamp> {
        if fields_in_range(
            reading.year as int,
            reading.month as int,
            reading.day as int,
            reading.hour as int,
            reading.minute as int,
            reading.second as int,
        ) {
            Some(
                Timestamp {
                    year: reading.year as u32,
                    month: reading.month,
                    day: reading.day,
                    hour: reading.hour,
                    minute: reading.minute,
                    second: reading.second,
                },
            )
        } else {
            None
        }
    }

    /// The current local time, or `None` when the clock's year lies outside
    /// 0 to 9999. Whatever the clock says, a returned timestamp is well formed.
    pub fn now() -> (r: Option<Timestamp>)
        ensures
            r matches Some(t) ==> t.well_formed(),
    {
        Timestamp::from_reading(read_local_clock())
    }

    /// The file name `Screenshot_<year>-<month>-<day>_<hour>-<minute>-<second>.png`,
    /// with the year zero-padded to four digits and every other field to two.
    /// Two timestamps within the same second give the same name: nothing is
    /// appended to tell them apart.
    pub fn filename(&self) -> (name: String)
        requires
            self.well_formed(),
        ensures
            name@ == filename_text(*self),
    {
        let mut name = String::from_str("Screenshot_");
        push_four_digits(&mut name, self.year);
        name.append("-");
        push_two_digits(&mut name, self.month);
        name.append("-");
        push_two_digits(&mut name, self.day);
        name.append("_");
        push_two_digits(&mut name, self.hour);
        name.append("-");
        push_two_digits(&mut name, self.minute);
        name.append("-");
        push_two_digits(&mut name, self.second);
        name.append(".png");
        assert(name@ =~= filename_text(*self));
        name
    }
}

} // verus!
