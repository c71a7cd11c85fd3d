//! The grammars of single values: the tag of a line, call signs, e-mail
//! addresses, grid locators, frequencies, signal reports, lists of
//! operators and off times.
//!
//! But for the grid locator and the signal report, which take a value as a
//! whole, a grammar reads from the start of its input as far as it matches
//! and leaves the rest. Each is stated twice: as a spec function on
//! `Seq<char>` that names the position where the match ends, and as a
//! function on `&str` that hands out the rest and what was matched.

use crate::frequency::Frequency;
use crate::text::{
    at_char, at_text, decimal_value, digit_value, has_char, has_text, is_digit, lemma_run_end,
    read_decimal, run_end, run_end_within, scan_run, scan_run_within, trim, trimmed, CharClass,
    Text,
};
use crate::timestamp::{datetime_at, scan_datetime, stamp_len, Timestamp};
use vstd::prelude::*;
use vstd::string::StringExecFns;

verus! {

/// A line parted into its tag and its value, and where the value ends.
pub struct TagLine {
    pub tag: Seq<char>,
    pub value: Seq<char>,
    pub end: int,
}

/// Where the value that starts at `from` ends: at the first line feed, at
/// the first carriage return if a line feed follows it, or at the end of
/// `s`. A carriage return with no line feed behind it is part of no value.
pub open spec fn value_end(s: Seq<char>, from: int) -> Option<int> {
    let end = run_end(s, from, CharClass::LineText);
    if end >= s.len() || s[end] == '\n' || has_char(s, end + 1, '\n') {
        Some(end)
    } else {
        None
    }
}

/// The tag and the value of a line. The tag is the longest run of
/// upper-case letters, digits, `-`, `'` and spaces that the line starts
/// with; a colon and a space follow it, and the value is the rest of the
/// line. A line that starts with `END-OF-LOG`, and is not of that form, has
/// that tag and an empty value.
pub open spec fn tag_line(s: Seq<char>) -> Option<TagLine> {
    let name_end = run_end(s, 0, CharClass::TagName);
    if name_end > 0 && has_text(s, name_end, ": "@) && value_end(s, name_end + 2) is Some {
        let end = value_end(s, name_end + 2)->0;
        Some(TagLine { tag: s.subrange(0, name_end), value: s.subrange(name_end + 2, end), end })
    } else if has_text(s, 0, "END-OF-LOG"@) {
        Some(TagLine { tag: "END-OF-LOG"@, value: Seq::empty(), end: 10 })
    } else {
        None
    }
}

/// Parts a line into its tag and its value. Returns what follows the value
/// (empty, or the line ending), then the tag and the value.
pub fn cabrillo_tag<'a>(input: &'a str) -> (found: Option<(&'a str, (&'a str, &'a str))>)
    ensures
        match tag_line(input@) {
            Some(line) => found matches Some((rest, (tag, value))) && tag@ == line.tag && value@
                == line.value && rest@ == input@.subrange(line.end, input@.len() as int),
            None => found is None,
        },
{
    let text = Text::new(input);
    let s = text.chars();
    let len = s.len();
    let name_end = scan_run(s, 0, CharClass::TagName);
    if name_end > 0 && at_text(s, name_end, ": ") {
        proof {
            reveal_strlit(": ");
        }
        let from = name_end + 2;
        let end = scan_run(s, from, CharClass::LineText);
        if end >= len || s[end] == '\n' || at_char(s, end + 1, '\n') {
            return Some((text.cut(end, len), (text.cut(0, name_end), text.cut(from, end))));
        }
    }
    if at_text(s, 0, "END-OF-LOG") {
        proof {
            reveal_strlit("END-OF-LOG");
            assert(input@.subrange(0int, 0int + 10) == "END-OF-LOG"@);
        }
        Some((text.cut(10, len), (text.cut(0, 10), text.cut(0, 0))))
    } else {
        None
    }
}

/// Where the call sign that starts at `at` ends: an `@` or none, three to
/// eight letters and digits, and, where a `/` and a letter or digit follow,
/// the `/` and one to eight letters and digits.
pub open spec fn callsign_end(s: Seq<char>, at: int) -> Option<int> {
    let start = if has_char(s, at, '@') {
        at + 1
    } else {
        at
    };
    let body = run_end_within(s, start, CharClass::Alphanumeric, 8);
    let suffix = run_end_within(s, body + 1, CharClass::Alphanumeric, 8);
    if body - start < 3 {
        None
    } else if has_char(s, body, '/') && suffix > body + 1 {
        Some(suffix)
    } else {
        Some(body)
    }
}

/// Whether `text` is a call sign, as a whole.
pub open spec fn is_callsign(text: Seq<char>) -> bool {
    callsign_end(text, 0) == Some(text.len() as int)
}

/// Reads a call sign at `at`.
pub fn scan_callsign(s: &[char], at: usize) -> (end: Option<usize>)
    ensures
        match callsign_end(s@, at as int) {
            Some(e) => end matches Some(found) && found == e && at < e <= s@.len(),
            None => end is None,
        },
{
    let len = s.len();
    if at >= len {
        return None;
    }
    let start = if at_char(s, at, '@') {
        at + 1
    } else {
        at
    };
    let body = scan_run_within(s, start, CharClass::Alphanumeric, 8);
    if body - start < 3 {
        return None;
    }
    if at_char(s, body, '/') {
        let suffix = scan_run_within(s, body + 1, CharClass::Alphanumeric, 8);
        if suffix > body + 1 {
            return Some(suffix);
        }
    }
    Some(body)
}

/// Reads a call sign at the start of `input`. Returns the rest and the call
/// sign.
pub fn cabrillo_callsign<'a>(input: &'a str) -> (found: Option<(&'a str, &'a str)>)
    ensures
        match callsign_end(input@, 0) {
            Some(end) => found matches Some((rest, call)) && call@ == input@.subrange(0, end)
                && rest@ == input@.subrange(end, input@.len() as int),
            None => found is None,
        },
{
    let text = Text::new(input);
    match scan_callsign(text.chars(), 0) {
        Some(end) => Some((text.cut(end, text.len()), text.cut(0, end))),
        None => None,
    }
}

/// The last dot from `low` up to `high` that at least two letters or digits
/// follow.
pub open spec fn domain_dot(s: Seq<char>, low: int, high: int) -> Option<int>
    decreases high - low,
{
    if high <= low {
        None
    } else if has_char(s, high - 1, '.') && run_end(s, high, CharClass::Alphanumeric) >= high
        + 2 {
        Some(high - 1)
    } else {
        domain_dot(s, low, high - 1)
    }
}

/// Where the e-mail address that starts at `at` ends. The local part is the
/// run of letters, digits, `_`, `.` and `-` at `at`; an `@` follows it. The
/// domain is of the same characters and as long as can be, so that a dot
/// and two letters or digits follow it; up to five of them are taken.
pub open spec fn email_end(s: Seq<char>, at: int) -> Option<int> {
    let local = run_end(s, at, CharClass::EmailPart);
    let run = run_end(s, local + 1, CharClass::EmailPart);
    if local > at && has_char(s, local, '@') {
        match domain_dot(s, local + 2, run) {
            Some(dot) => Some(run_end_within(s, dot + 1, CharClass::Alphanumeric, 5)),
            None => None,
        }
    } else {
        None
    }
}

/// Whether `text` is an e-mail address, as a whole.
pub open spec fn is_email(text: Seq<char>) -> bool {
    email_end(text, 0) == Some(text.len() as int)
}

/// Reads an e-mail address at `at`.
pub fn scan_email(s: &[char], at: usize) -> (end: Option<usize>)
    ensures
        match email_end(s@, at as int) {
            Some(e) => end matches Some(found) && found == e && at < e <= s@.len(),
            None => end is None,
        },
{
    let len = s.len();
    let local = scan_run(s, at, CharClass::EmailPart);
    if local == at || !at_char(s, local, '@') {
        return None;
    }
    let run = scan_run(s, local + 1, CharClass::EmailPart);
    let mut high: usize = run;
    while high >= 2 && high - 2 > local
        invariant
            at < local < len,
            len == s@.len(),
            high <= run <= len,
            local == run_end(s@, at as int, CharClass::EmailPart),
            run == run_end(s@, local + 1, CharClass::EmailPart),
            has_char(s@, local as int, '@'),
            domain_dot(s@, local + 2, run as int) == domain_dot(s@, local + 2, high as int),
        decreases high,
    {
        if s[high - 1] == '.' && scan_run_within(s, high, CharClass::Alphanumeric, 2) - high == 2 {
            return Some(scan_run_within(s, high, CharClass::Alphanumeric, 5));
        }
        high = high - 1;
    }
    None
}

/// Reads an e-mail address at the start of `input`. Returns the rest and
/// the address.
pub fn cabrillo_email<'a>(input: &'a str) -> (found: Option<(&'a str, &'a str)>)
    ensures
        match email_end(input@, 0) {
            Some(end) => found matches Some((rest, address)) && address@ == input@.subrange(
                0,
                end,
            ) && rest@ == input@.subrange(end, input@.len() as int),
            None => found is None,
        },
{
    let text = Text::new(input);
    match scan_email(text.chars(), 0) {
        Some(end) => Some((text.cut(end, text.len()), text.cut(0, end))),
        None => None,
    }
}

/// A letter that names a field of the grid: `A` to `R`, in either case.
pub open spec fn is_field_letter(c: char) -> bool {
    ('A' <= c && c <= 'R') || ('a' <= c && c <= 'r')
}

/// A letter that names a subsquare: `a` to `x`.
pub open spec fn is_subsquare_letter(c: char) -> bool {
    'a' <= c && c <= 'x'
}

/// Whether `s` is a grid locator: two field letters and two digits, then
/// two subsquare letters or none, then two digits or none, and nothing
/// more.
pub open spec fn is_grid_locator(s: Seq<char>) -> bool {
    let subsquare = if s.len() >= 6 && is_subsquare_letter(s[4]) && is_subsquare_letter(s[5]) {
        6int
    } else {
        4int
    };
    let extended = if s.len() >= subsquare + 2 && is_digit(s[subsquare]) && is_digit(
        s[subsquare + 1],
    ) {
        subsquare + 2
    } else {
        subsquare
    };
    &&& s.len() >= 4
    &&& is_field_letter(s[0])
    &&& is_field_letter(s[1])
    &&& is_digit(s[2])
    &&& is_digit(s[3])
    &&& extended == s.len()
}

fn field_letter(c: char) -> (b: bool)
    ensures
        b == is_field_letter(c),
{
    ('A' <= c && c <= 'R') || ('a' <= c && c <= 'r')
}

fn subsquare_letter(c: char) -> (b: bool)
    ensures
        b == is_subsquare_letter(c),
{
    'a' <= c && c <= 'x'
}

/// Reads `input` as a grid locator. Returns the rest, which is empty, and
/// the locator, which is all of `input`.
pub fn cabrillo_grid_locator<'a>(input: &'a str) -> (found: Option<(&'a str, &'a str)>)
    ensures
        found is Some == is_grid_locator(input@),
        found matches Some((rest, locator)) ==> rest@.len() == 0 && locator@ == input@,
{
    let text = Text::new(input);
    let s = text.chars();
    let len = s.len();
    if len < 4 || !field_letter(s[0]) || !field_letter(s[1]) || !CharClass::Digit.contains(s[2])
        || !CharClass::Digit.contains(s[3]) {
        return None;
    }
    let subsquare: usize = if len >= 6 && subsquare_letter(s[4]) && subsquare_letter(s[5]) {
        6
    } else {
        4
    };
    let extended: usize = if len >= subsquare + 2 && CharClass::Digit.contains(s[subsquare])
        && CharClass::Digit.contains(s[subsquare + 1]) {
        subsquare + 2
    } else {
        subsquare
    };
    if extended == len {
        Some((text.cut(len, len), input))
    } else {
        None
    }
}

/// The number that stands at `at`, and where it ends: a run of digits that
/// writes, in base ten, a number of no more than 32 bits.
pub open spec fn number_at(s: Seq<char>, at: int) -> Option<(u32, int)> {
    let end = run_end(s, at, CharClass::Digit);
    if end > at && decimal_value(s, at, end) <= u32::MAX {
        Some((decimal_value(s, at, end) as u32, end))
    } else {
        None
    }
}

/// Reads a number at `at`.
pub fn scan_number(s: &[char], at: usize) -> (found: Option<(u32, usize)>)
    ensures
        match number_at(s@, at as int) {
            Some((number, end)) => found matches Some((n, e)) && n == number && e == end && at
                < end <= s@.len(),
            None => found is None,
        },
{
    if at >= s.len() {
        return None;
    }
    let end = scan_run(s, at, CharClass::Digit);
    if end == at {
        return None;
    }
    proof {
        lemma_run_end(s@, at as int, CharClass::Digit);
    }
    match read_decimal(s, at, end) {
        Some(number) => Some((number, end)),
        None => None,
    }
}

/// The frequency that stands at `at`, and where it ends: a number, taken
/// as kilohertz.
pub open spec fn frequency_at(s: Seq<char>, at: int) -> Option<(Frequency, int)> {
    match number_at(s, at) {
        Some((khz, end)) => Some((Frequency::Khz(khz), end)),
        None => None,
    }
}

/// Reads a frequency at `at`.
pub fn scan_frequency(s: &[char], at: usize) -> (found: Option<(Frequency, usize)>)
    ensures
        match frequency_at(s@, at as int) {
            Some((frequency, end)) => found matches Some((f, e)) && f == frequency && e == end
                && at < end <= s@.len(),
            None => found is None,
        },
{
    match scan_number(s, at) {
        Some((khz, end)) => Some((Frequency::Khz(khz), end)),
        None => None,
    }
}

/// Reads a frequency at the start of `input`. Returns the rest and the
/// frequency.
pub fn cabrillo_frequency<'a>(input: &'a str) -> (found: Option<(&'a str, Frequency)>)
    ensures
        match frequency_at(input@, 0) {
            Some((frequency, end)) => found matches Some((rest, f)) && f == frequency && rest@
                == input@.subrange(end, input@.len() as int),
            None => found is None,
        },
{
    let text = Text::new(input);
    match scan_frequency(text.chars(), 0) {
        Some((frequency, end)) => Some((text.cut(end, text.len()), frequency)),
        None => None,
    }
}

/// How well a station was heard: readability, strength and tone.
#[derive(Debug, Copy, Clone, PartialEq, Eq, Structural)]
pub struct SignalReport(pub u8, pub u8, pub u8);

impl SignalReport {
    /// Readability is 1 to 5, strength 1 to 9, tone 0 to 9.
    pub open spec fn is_valid(self) -> bool {
        1 <= self.0 <= 5 && 1 <= self.1 <= 9 && self.2 <= 9
    }
}

/// The signal report that `token` writes: a digit from 1 to 5, a digit from
/// 1 to 9 and, if there is a third character, any digit. The tone of a
/// report of two digits is 0.
pub open spec fn signal_report_of(token: Seq<char>) -> Option<SignalReport> {
    if (token.len() == 2 || token.len() == 3) && '1' <= token[0] && token[0] <= '5' && '1'
        <= token[1] && token[1] <= '9' && (token.len() == 3 ==> is_digit(token[2])) {
        Some(
            SignalReport(
                digit_value(token[0]) as u8,
                digit_value(token[1]) as u8,
                if token.len() == 3 {
                    digit_value(token[2]) as u8
                } else {
                    0
                },
            ),
        )
    } else {
        None
    }
}

fn digit_of(c: char) -> (d: u8)
    requires
        is_digit(c),
    ensures
        d == digit_value(c),
        d <= 9,
{
    (c as u32 - '0' as u32) as u8
}

/// Reads the characters of `s` from `from` up to `to` as a signal report.
pub(crate) fn read_signal_report(s: &[char], from: usize, to: usize) -> (report: Option<
    SignalReport,
>)
    requires
        from <= to <= s@.len(),
    ensures
        report == signal_report_of(s@.subrange(from as int, to as int)),
{
    let count = to - from;
    if count != 2 && count != 3 {
        return None;
    }
    let r = s[from];
    let t = s[from + 1];
    if !('1' <= r && r <= '5' && '1' <= t && t <= '9') {
        return None;
    }
    if count == 3 {
        let tone = s[from + 2];
        if !CharClass::Digit.contains(tone) {
            return None;
        }
        Some(SignalReport(digit_of(r), digit_of(t), digit_of(tone)))
    } else {
        Some(SignalReport(digit_of(r), digit_of(t), 0))
    }
}

/// Reads `input` as a signal report.
pub fn cabrillo_signal_report(input: &str) -> (report: Option<SignalReport>)
    ensures
        report == signal_report_of(input@),
{
    let text = Text::new(input);
    let s = text.chars();
    assert(s@.subrange(0, s@.len() as int) =~= s@);
    read_signal_report(s, 0, s.len())
}

/// The operators that `s` lists from `at` on: what stands between commas
/// and spaces, each without the white space at its ends, in order; what is
/// empty then is left out.
pub open spec fn operator_names(s: Seq<char>, at: int) -> Seq<Seq<char>>
    decreases s.len() - at,
{
    if 0 <= at < s.len() {
        let end = run_end(s, at, CharClass::ListItem);
        let name = trimmed(s.subrange(at, end));
        let rest = if end < s.len() {
            proof {
                lemma_run_end(s, at, CharClass::ListItem);
            }
            operator_names(s, end + 1)
        } else {
            Seq::empty()
        };
        if name.len() > 0 {
            seq![name] + rest
        } else {
            rest
        }
    } else {
        Seq::empty()
    }
}

/// The texts of a sequence of strings.
pub open spec fn texts(strings: Seq<String>) -> Seq<Seq<char>> {
    strings.map_values(|s: String| s@)
}

/// Reads a list of operators: the call signs of `input`, parted by commas,
/// spaces or both.
pub fn cabrillo_operators(input: &str) -> (names: Vec<String>)
    ensures
        texts(names@) == operator_names(input@, 0),
{
    let text = Text::new(input);
    let s = text.chars();
    let len = s.len();
    let mut names: Vec<String> = Vec::new();
    let mut at: usize = 0;
    while at < len
        invariant
            s@ == input@,
            text@ == input@,
            len == s@.len(),
            texts(names@) + operator_names(input@, at as int) == operator_names(input@, 0),
        decreases len - at,
    {
        let end = scan_run(s, at, CharClass::ListItem);
        let name = trim(text.cut(at, end));
        let ghost before = names@;
        if !name.is_empty() {
            names.push(String::from_str(name));
            assert(texts(names@) =~= texts(before) + seq![name@]);
        }
        let ghost rest = if end < len {
            operator_names(input@, end + 1)
        } else {
            Seq::empty()
        };
        assert(texts(names@) + rest =~= texts(before) + operator_names(input@, at as int));
        if end >= len {
            at = len;
        } else {
            at = end + 1;
        }
    }
    assert(texts(names@) + Seq::<Seq<char>>::empty() =~= texts(names@));
    names
}

/// A stretch of time in which the station was not worked.
#[derive(Debug, Copy, Clone, PartialEq, Eq, Structural)]
pub struct Offtime {
    pub begin: Timestamp,
    pub end: Timestamp,
}

impl Offtime {
    /// When the break began.
    pub fn begin(&self) -> (begin: &Timestamp)
        ensures
            *begin == self.begin,
    {
        &self.begin
    }

    /// When the break ended.
    pub fn end(&self) -> (end: &Timestamp)
        ensures
            *end == self.end,
    {
        &self.end
    }
}

/// The off time that stands at `at`, and where it ends: two timestamps
/// with one space between them.
pub open spec fn offtime_at(s: Seq<char>, at: int) -> Option<(Offtime, int)> {
    match (datetime_at(s, at), datetime_at(s, at + stamp_len() + 1)) {
        (Some(begin), Some(end)) => if has_char(s, at + stamp_len(), ' ') {
            Some((Offtime { begin, end }, at + 2 * stamp_len() + 1))
        } else {
            None
        },
        _ => None,
    }
}

/// Reads an off time at the start of `input`. Returns the rest and the off
/// time.
pub fn cabrillo_offtime<'a>(input: &'a str) -> (found: Option<(&'a str, Offtime)>)
    ensures
        match offtime_at(input@, 0) {
            Some((offtime, end)) => found matches Some((rest, o)) && o == offtime && rest@
                == input@.subrange(end, input@.len() as int),
            None => found is None,
        },
{
    let text = Text::new(input);
    let begin = match scan_datetime(&text, 0) {
        Some((begin, _)) => begin,
        None => {
            return None;
        },
    };
    if !at_char(text.chars(), 15, ' ') {
        return None;
    }
    match scan_datetime(&text, 16) {
        Some((end, rest)) => Some((text.cut(rest, text.len()), Offtime { begin, end })),
        None => None,
    }
}

/// Reads a timestamp at the start of `input`. Returns the rest and the
/// timestamp.
pub fn cabrillo_datetime<'a>(input: &'a str) -> (found: Option<(&'a str, Timestamp)>)
    ensures
        match datetime_at(input@, 0) {
            Some(stamp) => found matches Some((rest, t)) && t == stamp && rest@
                == input@.subrange(stamp_len(), input@.len() as int),
            None => found is None,
        },
{
    let text = Text::new(input);
    match scan_datetime(&text, 0) {
        Some((stamp, end)) => Some((text.cut(end, text.len()), stamp)),
        None => None,
    }
}

} // verus!
