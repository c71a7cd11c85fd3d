//! Dates and times of day, to the minute, as a log writes them.

use crate::text::{decimal_value, is_digit, CharClass, Text};
use chrono::{Datelike, NaiveDateTime, Timelike};
use vstd::prelude::*;

verus! {

/// A minute of a day of the Gregorian calendar, in UTC.
#[derive(Debug, Copy, Clone, PartialEq, Eq, Structural)]
pub struct Timestamp {
    pub year: i32,
    pub month: u32,
    pub day: u32,
    pub hour: u32,
    pub minute: u32,
}

/// Whether February has 29 days in `year`.
pub open spec fn is_leap_year(year: int) -> bool {
    year % 4 == 0 && (year % 100 != 0 || year % 400 == 0)
}

/// How many days `month` has in `year`.
pub open spec fn days_in_month(year: int, month: int) -> int {
    if month == 2 {
        if is_leap_year(year) {
            29
        } else {
            28
        }
    } else if month == 4 || month == 6 || month == 9 || month == 11 {
        30
    } else {
        31
    }
}

impl Timestamp {
    /// Whether the fields name a minute that exists, in a year of four
    /// digits.
    pub open spec fn is_valid(self) -> bool {
        &&& 0 <= self.year <= 9999
        &&& 1 <= self.month <= 12
        &&& 1 <= self.day <= days_in_month(self.year as int, self.month as int)
        &&& self.hour <= 23
        &&& self.minute <= 59
    }

    /// The timestamp with these fields, if it is valid.
    pub fn new(year: i32, month: u32, day: u32, hour: u32, minute: u32) -> (stamp: Option<
        Timestamp,
    >)
        ensures
            stamp == (if (Timestamp { year, month, day, hour, minute }).is_valid() {
                Some(Timestamp { year, month, day, hour, minute })
            } else {
                None
            }),
    {
        if year < 0 || year > 9999 || month < 1 || month > 12 || hour > 23 || minute > 59 {
            return None;
        }
        let leap = year % 4 == 0 && (year % 100 != 0 || year % 400 == 0);
        let days: u32 = if month == 2 {
            if leap {
                29
            } else {
                28
            }
        } else if month == 4 || month == 6 || month == 9 || month == 11 {
            30
        } else {
            31
        };
        if day < 1 || day > days {
            return None;
        }
        Some(Timestamp { year, month, day, hour, minute })
    }
}

/// Whether `s` holds digits only from `from` up to `to`.
pub open spec fn all_digits(s: Seq<char>, from: int, to: int) -> bool {
    forall|k: int| from <= k < to ==> is_digit(#[trigger] s[k])
}

/// How many characters a timestamp takes.
pub open spec fn stamp_len() -> int {
    15
}

/// Whether `s` holds at `at` fifteen characters in the shape of a timestamp:
/// `YYYY-MM-DD HHMM`, each letter a digit.
pub open spec fn stamp_shape(s: Seq<char>, at: int) -> bool {
    &&& 0 <= at
    &&& at + stamp_len() <= s.len()
    &&& all_digits(s, at, at + 4)
    &&& s[at + 4] == '-'
    &&& all_digits(s, at + 5, at + 7)
    &&& s[at + 7] == '-'
    &&& all_digits(s, at + 8, at + 10)
    &&& s[at + 10] == ' '
    &&& all_digits(s, at + 11, at + 15)
}

/// The fields that a text in the shape of a timestamp writes at `at`.
pub open spec fn stamp_fields(s: Seq<char>, at: int) -> Timestamp {
    Timestamp {
        year: decimal_value(s, at, at + 4) as i32,
        month: decimal_value(s, at + 5, at + 7) as u32,
        day: decimal_value(s, at + 8, at + 10) as u32,
        hour: decimal_value(s, at + 11, at + 13) as u32,
        minute: decimal_value(s, at + 13, at + 15) as u32,
    }
}

/// The timestamp that `s` holds at `at`: the text there has the shape of
/// one, and what it writes is a minute that exists.
pub open spec fn datetime_at(s: Seq<char>, at: int) -> Option<Timestamp> {
    if stamp_shape(s, at) && stamp_fields(s, at).is_valid() {
        Some(stamp_fields(s, at))
    } else {
        None
    }
}

/// `chrono::NaiveDateTime::parse_from_str` with the format `%Y-%m-%d %H%M`,
/// on a text of exactly the shape `YYYY-MM-DD HHMM`, and the fields of what
/// it returns, read with `year`, `month`, `day`, `hour` and `minute`.
///
/// Trusted: on such a text chrono reads the five numbers digit by digit,
/// takes a missing second as 0, and fails exactly where the month is not 1
/// to 12, the day does not exist in that month of that year, the hour is
/// above 23 or the minute above 59.
#[verifier::external_body]
fn chrono_stamp(text: &str) -> (fields: Option<(i32, u32, u32, u32, u32)>)
    requires
        text@.len() == stamp_len(),
        stamp_shape(text@, 0),
    ensures
        fields == match datetime_at(text@, 0) {
            Some(t) => Some((t.year, t.month, t.day, t.hour, t.minute)),
            None => None,
        },
{
    match NaiveDateTime::parse_from_str(text, "%Y-%m-%d %H%M") {
        Ok(t) => Some((t.year(), t.month(), t.day(), t.hour(), t.minute())),
        Err(_) => None,
    }
}

fn digits_in(s: &[char], from: usize, count: usize) -> (all: bool)
    requires
        from + count <= s@.len(),
    ensures
        all == all_digits(s@, from as int, from + count),
{
    let len: usize = s.len();
    let mut k: usize = 0;
    while k < count
        invariant
            from + count <= len,
            len == s@.len(),
            k <= count,
            all_digits(s@, from as int, from + k),
        decreases count - k,
    {
        if !CharClass::Digit.contains(s[from + k]) {
            return false;
        }
        k = k + 1;
    }
    true
}

/// Reads the timestamp that `text` holds at `at`, and says where it ends.
pub fn scan_datetime(text: &Text, at: usize) -> (found: Option<(Timestamp, usize)>)
    ensures
        match datetime_at(text@, at as int) {
            Some(stamp) => found matches Some((t, end)) && t == stamp && end == at + stamp_len()
                && end <= text@.len(),
            None => found is None,
        },
{
    let s = text.chars();
    if s.len() < 15 || at > s.len() - 15 {
        return None;
    }
    let shaped = digits_in(s, at, 4) && s[at + 4] == '-' && digits_in(s, at + 5, 2) && s[at + 7]
        == '-' && digits_in(s, at + 8, 2) && s[at + 10] == ' ' && digits_in(s, at + 11, 4);
    if !shaped {
        return None;
    }
    let part = text.cut(at, at + 15);
    proof {
        lemma_stamp_moves(text@, at as int);
    }
    match chrono_stamp(part) {
        Some((year, month, day, hour, minute)) => Some(
            (Timestamp { year, month, day, hour, minute }, at + 15),
        ),
        None => None,
    }
}

/// A timestamp cut out of a text is the timestamp that the text holds
/// there.
proof fn lemma_stamp_moves(s: Seq<char>, at: int)
    requires
        stamp_shape(s, at),
    ensures
        stamp_shape(s.subrange(at, at + stamp_len()), 0),
        datetime_at(s.subrange(at, at + stamp_len()), 0) == datetime_at(s, at),
{
    let part = s.subrange(at, at + stamp_len());
    assert forall|k: int| 0 <= k < 15 implies #[trigger] part[k] == s[at + k] by {}
    lemma_value_moves(s, at, 0, 4);
    lemma_value_moves(s, at, 5, 7);
    lemma_value_moves(s, at, 8, 10);
    lemma_value_moves(s, at, 11, 13);
    lemma_value_moves(s, at, 13, 15);
}

proof fn lemma_value_moves(s: Seq<char>, at: int, from: int, to: int)
    requires
        0 <= at,
        at + stamp_len() <= s.len(),
        0 <= from <= to <= stamp_len(),
    ensures
        decimal_value(s.subrange(at, at + stamp_len()), from, to) == decimal_value(
            s,
            at + from,
            at + to,
        ),
    decreases to - from,
{
    if from < to {
        lemma_value_moves(s, at, from, to - 1);
    }
}

} // verus!
