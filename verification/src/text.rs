//! Characters, runs of characters and decimal numbers: the ground that the
//! grammars of a log stand on.
//!
//! Text is modelled as `Seq<char>`. A scanner works on a slice of characters
//! and a position in it, and its contract names the position at which it
//! stops.

use vstd::prelude::*;

verus! {

/// `0` to `9`.
pub open spec fn is_digit(c: char) -> bool {
    '0' <= c && c <= '9'
}

/// `A` to `Z`.
pub open spec fn is_upper(c: char) -> bool {
    'A' <= c && c <= 'Z'
}

/// `a` to `z`.
pub open spec fn is_lower(c: char) -> bool {
    'a' <= c && c <= 'z'
}

/// An ASCII letter or digit.
pub open spec fn is_alphanumeric(c: char) -> bool {
    is_digit(c) || is_upper(c) || is_lower(c)
}

/// A character with the Unicode property `White_Space`.
pub open spec fn is_whitespace(c: char) -> bool {
    ||| ('\u{9}' <= c && c <= '\u{d}')
    ||| c == ' '
    ||| c == '\u{85}'
    ||| c == '\u{a0}'
    ||| c == '\u{1680}'
    ||| ('\u{2000}' <= c && c <= '\u{200a}')
    ||| c == '\u{2028}'
    ||| c == '\u{2029}'
    ||| c == '\u{202f}'
    ||| c == '\u{205f}'
    ||| c == '\u{3000}'
}

/// The sets of characters that the grammars take runs of.
#[derive(Clone, Copy, Debug, PartialEq, Eq, Structural)]
pub enum CharClass {
    /// `0` to `9`.
    Digit,
    /// ASCII letters and digits.
    Alphanumeric,
    /// What a tag name is made of: upper-case letters, digits, `-`, `'` and
    /// the space.
    TagName,
    /// What the local part and the domain of an e-mail address are made of:
    /// ASCII letters and digits, `_`, `.` and `-`.
    EmailPart,
    /// The space and the tab, which part the fields of a contact.
    Blank,
    /// Unicode white space, which is trimmed from free text.
    Whitespace,
    /// What stands inside a line: all but the carriage return and the line
    /// feed.
    LineText,
    /// What stands inside an item of a list: all but the comma and the
    /// space.
    ListItem,
}

impl CharClass {
    /// Whether `c` belongs to the class.
    pub open spec fn has(self, c: char) -> bool {
        match self {
            CharClass::Digit => is_digit(c),
            CharClass::Alphanumeric => is_alphanumeric(c),
            CharClass::TagName => is_upper(c) || is_digit(c) || c == '-' || c == '\'' || c == ' ',
            CharClass::EmailPart => is_alphanumeric(c) || c == '_' || c == '.' || c == '-',
            CharClass::Blank => c == ' ' || c == '\t',
            CharClass::Whitespace => is_whitespace(c),
            CharClass::LineText => c != '\r' && c != '\n',
            CharClass::ListItem => c != ',' && c != ' ',
        }
    }

    /// Tests whether `c` belongs to the class.
    pub fn contains(self, c: char) -> (b: bool)
        ensures
            b == self.has(c),
    {
        let digit = '0' <= c && c <= '9';
        let upper = 'A' <= c && c <= 'Z';
        let lower = 'a' <= c && c <= 'z';
        match self {
            CharClass::Digit => digit,
            CharClass::Alphanumeric => digit || upper || lower,
            CharClass::TagName => upper || digit || c == '-' || c == '\'' || c == ' ',
            CharClass::EmailPart => digit || upper || lower || c == '_' || c == '.' || c == '-',
            CharClass::Blank => c == ' ' || c == '\t',
            CharClass::Whitespace => {
                ('\u{9}' <= c && c <= '\u{d}') || c == ' ' || c == '\u{85}' || c == '\u{a0}'
                    || c == '\u{1680}' || ('\u{2000}' <= c && c <= '\u{200a}') || c == '\u{2028}'
                    || c == '\u{2029}' || c == '\u{202f}' || c == '\u{205f}' || c == '\u{3000}'
            },
            CharClass::LineText => c != '\r' && c != '\n',
            CharClass::ListItem => c != ',' && c != ' ',
        }
    }
}

/// Where the run of characters of `class` that starts at `from` ends: the
/// first position at or after `from` that holds no character of the class,
/// the length of `s` if there is none.
pub open spec fn run_end(s: Seq<char>, from: int, class: CharClass) -> int
    decreases s.len() - from,
{
    if 0 <= from < s.len() && class.has(s[from]) {
        run_end(s, from + 1, class)
    } else {
        from
    }
}

/// `run_end`, but the run is cut after `max` characters.
pub open spec fn run_end_within(s: Seq<char>, from: int, class: CharClass, max: int) -> int {
    if run_end(s, from, class) <= from + max {
        run_end(s, from, class)
    } else {
        from + max
    }
}

/// A run lies inside the text, holds characters of its class only, and stops
/// at the end of the text or before a character that is not of the class.
pub proof fn lemma_run_end(s: Seq<char>, from: int, class: CharClass)
    requires
        0 <= from <= s.len(),
    ensures
        from <= run_end(s, from, class) <= s.len(),
        forall|k: int| from <= k < run_end(s, from, class) ==> class.has(#[trigger] s[k]),
        run_end(s, from, class) < s.len() ==> !class.has(s[run_end(s, from, class)]),
    decreases s.len() - from,
{
    if from < s.len() && class.has(s[from]) {
        lemma_run_end(s, from + 1, class);
    }
}

/// Whether `s` holds the character `c` at position `at`.
pub open spec fn has_char(s: Seq<char>, at: int, c: char) -> bool {
    0 <= at < s.len() && s[at] == c
}

/// Whether `s` holds the text `t` from position `at` on.
pub open spec fn has_text(s: Seq<char>, at: int, t: Seq<char>) -> bool {
    0 <= at && at + t.len() <= s.len() && s.subrange(at, at + t.len()) == t
}

/// The characters of `s`, one by one.
pub fn chars_of(s: &str) -> (v: Vec<char>)
    ensures
        v@ == s@,
{
    let mut v: Vec<char> = Vec::new();
    for c in it: s.chars()
        invariant
            it.seq() == s@,
            v@ == it.seq().take(it.index() as int),
    {
        v.push(c);
    }
    v
}

/// A text with its characters laid out, so that a scanner reaches each of
/// them in one step and a part of the text can be cut out by two positions.
pub struct Text<'a> {
    text: &'a str,
    chars: Vec<char>,
}

impl<'a> View for Text<'a> {
    type V = Seq<char>;

    closed spec fn view(&self) -> Seq<char> {
        self.text@
    }
}

impl<'a> Text<'a> {
    #[verifier::type_invariant]
    spec fn laid_out(self) -> bool {
        self.chars@ == self.text@
    }

    /// Lays out the characters of `text`.
    pub fn new(text: &'a str) -> (laid: Text<'a>)
        ensures
            laid@ == text@,
    {
        Text { text, chars: chars_of(text) }
    }

    /// The characters, for a scanner.
    pub fn chars(&self) -> (chars: &[char])
        ensures
            chars@ == self@,
    {
        proof {
            use_type_invariant(self);
        }
        self.chars.as_slice()
    }

    /// How many characters the text has.
    pub fn len(&self) -> (len: usize)
        ensures
            len == self@.len(),
    {
        proof {
            use_type_invariant(self);
        }
        self.chars.len()
    }

    /// The part of the text from `from` up to `to`; from `from` to the end
    /// where `to` lies beyond it, and nothing where `from` does.
    pub fn cut(&self, from: usize, to: usize) -> (part: &'a str)
        ensures
            part@ == cut_of(self@, from as int, to as int),
    {
        proof {
            use_type_invariant(self);
        }
        let len = self.chars.len();
        let to = if to <= len {
            to
        } else {
            len
        };
        if from <= to {
            self.text.substring_char(from, to)
        } else {
            self.text.substring_char(0, 0)
        }
    }
}

/// The part of `s` from `from` up to `to`, both brought inside `s`.
pub open spec fn cut_of(s: Seq<char>, from: int, to: int) -> Seq<char> {
    let to = if to <= s.len() {
        to
    } else {
        s.len() as int
    };
    if 0 <= from <= to {
        s.subrange(from, to)
    } else {
        Seq::empty()
    }
}

/// Scans the run of `class` that starts at `from`.
pub fn scan_run(s: &[char], from: usize, class: CharClass) -> (end: usize)
    ensures
        end == run_end(s@, from as int, class),
        from <= end,
        from <= s@.len() ==> end <= s@.len(),
{
    let mut at: usize = from;
    while at < s.len() && class.contains(s[at])
        invariant
            from <= at,
            from <= s@.len() ==> at <= s@.len(),
            run_end(s@, from as int, class) == run_end(s@, at as int, class),
        decreases s.len() - at,
    {
        at = at + 1;
    }
    at
}

/// Scans the run of `class` that starts at `from`, `max` characters of it at
/// most.
pub fn scan_run_within(s: &[char], from: usize, class: CharClass, max: usize) -> (end: usize)
    ensures
        end == run_end_within(s@, from as int, class, max as int),
        from <= end <= from + max,
        from <= s@.len() ==> end <= s@.len(),
{
    let mut at: usize = from;
    while at < s.len() && at - from < max && class.contains(s[at])
        invariant
            from <= at <= from + max,
            from <= s@.len() ==> at <= s@.len(),
            run_end(s@, from as int, class) == run_end(s@, at as int, class),
        decreases s.len() - at,
    {
        at = at + 1;
    }
    proof {
        if at - from == max && at <= s.len() {
            lemma_run_end(s@, at as int, class);
        }
    }
    at
}

/// Tests for the character `c` at position `at`.
pub fn at_char(s: &[char], at: usize, c: char) -> (b: bool)
    ensures
        b == has_char(s@, at as int, c),
{
    at < s.len() && s[at] == c
}

/// Tests for the text `t` from position `at` on.
pub fn at_text(s: &[char], at: usize, t: &str) -> (b: bool)
    ensures
        b == has_text(s@, at as int, t@),
{
    let mut next: usize = at;
    let mut same: bool = at <= s.len();
    for c in it: t.chars()
        invariant
            it.seq() == t@,
            same ==> next == at + it.index() && next <= s.len(),
            same ==> forall|j: int| 0 <= j < it.index() ==> s@[at + j] == t@[j],
            !same ==> !has_text(s@, at as int, t@),
    {
        if same {
            if next < s.len() && s[next] == c {
                next = next + 1;
            } else {
                same = false;
                assert(!has_text(s@, at as int, t@)) by {
                    if has_text(s@, at as int, t@) {
                        let k = it.index() as int;
                        assert(s@.subrange(at as int, at + t@.len())[k] == t@[k]);
                    }
                }
            }
        }
    }
    assert(same ==> s@.subrange(at as int, at + t@.len()) =~= t@);
    same
}

/// Tests whether `s` is the text `t`.
pub fn is_text(s: &[char], t: &str) -> (b: bool)
    ensures
        b == (s@ == t@),
{
    let same = at_text(s, 0, t) && s.len() == t.unicode_len();
    assert(s@.len() == t@.len() ==> s@.subrange(0int, 0int + t@.len()) =~= s@);
    same
}

/// Where the run of characters of `class` that ends at `to` starts: the
/// position after the last character before `to` that is not of the class,
/// 0 if there is none.
pub open spec fn run_start(s: Seq<char>, to: int, class: CharClass) -> int
    decreases to,
{
    if 0 < to <= s.len() && class.has(s[to - 1]) {
        run_start(s, to - 1, class)
    } else {
        to
    }
}

/// A run that is taken backwards lies inside the text, holds characters of
/// its class only, and starts at the start of the text or after a character
/// that is not of the class.
pub proof fn lemma_run_start(s: Seq<char>, to: int, class: CharClass)
    requires
        0 <= to <= s.len(),
    ensures
        0 <= run_start(s, to, class) <= to,
        forall|k: int| run_start(s, to, class) <= k < to ==> class.has(#[trigger] s[k]),
        0 < run_start(s, to, class) ==> !class.has(s[run_start(s, to, class) - 1]),
    decreases to,
{
    if 0 < to && class.has(s[to - 1]) {
        lemma_run_start(s, to - 1, class);
    }
}

/// Scans backwards the run of `class` that ends at `to`.
pub fn scan_run_back(s: &[char], to: usize, class: CharClass) -> (start: usize)
    ensures
        start == run_start(s@, to as int, class),
        start <= to,
{
    let mut at: usize = to;
    while 0 < at && at <= s.len() && class.contains(s[at - 1])
        invariant
            at <= to,
            run_start(s@, to as int, class) == run_start(s@, at as int, class),
        decreases at,
    {
        at = at - 1;
    }
    at
}

/// `s` without the white space at its two ends.
pub open spec fn trimmed(s: Seq<char>) -> Seq<char> {
    let first = run_end(s, 0, CharClass::Whitespace);
    let last = run_start(s, s.len() as int, CharClass::Whitespace);
    if first < last {
        s.subrange(first, last)
    } else {
        Seq::empty()
    }
}

/// Cuts the white space off the two ends of `s`.
pub fn trim(s: &str) -> (t: &str)
    ensures
        t@ == trimmed(s@),
{
    let chars = chars_of(s);
    let first = scan_run(chars.as_slice(), 0, CharClass::Whitespace);
    let last = scan_run_back(chars.as_slice(), chars.len(), CharClass::Whitespace);
    proof {
        lemma_run_end(s@, 0, CharClass::Whitespace);
        lemma_run_start(s@, s@.len() as int, CharClass::Whitespace);
    }
    if first < last {
        s.substring_char(first, last)
    } else {
        s.substring_char(0, 0)
    }
}

/// What the digit `c` counts for.
pub open spec fn digit_value(c: char) -> int {
    c as int - '0' as int
}

/// The number that the digits of `s` from `from` up to `to` write in base
/// ten.
pub open spec fn decimal_value(s: Seq<char>, from: int, to: int) -> int
    decreases to - from,
{
    if from < to {
        decimal_value(s, from, to - 1) * 10 + digit_value(s[to - 1])
    } else {
        0
    }
}

/// More digits write no smaller a number.
pub proof fn lemma_decimal_value_grows(s: Seq<char>, from: int, mid: int, to: int)
    requires
        0 <= from <= mid <= to <= s.len(),
        forall|k: int| from <= k < to ==> is_digit(#[trigger] s[k]),
    ensures
        0 <= decimal_value(s, from, mid) <= decimal_value(s, from, to),
    decreases to - mid,
{
    if mid < to {
        lemma_decimal_value_grows(s, from, mid, to - 1);
        assert(is_digit(s[to - 1]));
    } else {
        lemma_decimal_value_grows_from_zero(s, from, mid);
    }
}

proof fn lemma_decimal_value_grows_from_zero(s: Seq<char>, from: int, to: int)
    requires
        0 <= from <= to <= s.len(),
        forall|k: int| from <= k < to ==> is_digit(#[trigger] s[k]),
    ensures
        0 <= decimal_value(s, from, to),
    decreases to - from,
{
    if from < to {
        lemma_decimal_value_grows_from_zero(s, from, to - 1);
        assert(is_digit(s[to - 1]));
    }
}

/// Reads the digits of `s` from `from` up to `to` as a number, if it fits
/// 32 bits.
pub(crate) fn read_decimal(s: &[char], from: usize, to: usize) -> (n: Option<u32>)
    requires
        from <= to <= s@.len(),
        forall|k: int| from <= k < to ==> is_digit(#[trigger] s@[k]),
    ensures
        n == (if decimal_value(s@, from as int, to as int) <= u32::MAX {
            Some(decimal_value(s@, from as int, to as int) as u32)
        } else {
            None
        }),
{
    let mut value: u64 = 0;
    let mut at: usize = from;
    while at < to
        invariant
            from <= at <= to <= s@.len(),
            forall|k: int| from <= k < to ==> is_digit(#[trigger] s@[k]),
            value == decimal_value(s@, from as int, at as int),
            value <= u32::MAX,
        decreases to - at,
    {
        let c = s[at];
        assert(is_digit(s@[at as int]));
        let digit: u64 = (c as u32 - '0' as u32) as u64;
        value = value * 10 + digit;
        at = at + 1;
        if value > 0xffff_ffff {
            proof {
                lemma_decimal_value_grows(s@, from as int, at as int, to as int);
            }
            return None;
        }
    }
    Some(value as u32)
}

/// The character that writes the digit `d`.
pub open spec fn digit_char(d: int) -> char {
    ('0' as int + d) as char
}

/// `n` written in base ten, without leading zeros.
pub open spec fn decimal_text(n: nat) -> Seq<char>
    decreases n,
{
    if n < 10 {
        seq![digit_char(n as int)]
    } else {
        decimal_text(n / 10).push(digit_char((n % 10) as int))
    }
}

fn digit_text(d: u64) -> (t: &'static str)
    requires
        d < 10,
    ensures
        t@ == seq![digit_char(d as int)],
{
    proof {
        reveal_strlit("0");
        reveal_strlit("1");
        reveal_strlit("2");
        reveal_strlit("3");
        reveal_strlit("4");
        reveal_strlit("5");
        reveal_strlit("6");
        reveal_strlit("7");
        reveal_strlit("8");
        reveal_strlit("9");
    }
    let t = if d == 0 {
        "0"
    } else if d == 1 {
        "1"
    } else if d == 2 {
        "2"
    } else if d == 3 {
        "3"
    } else if d == 4 {
        "4"
    } else if d == 5 {
        "5"
    } else if d == 6 {
        "6"
    } else if d == 7 {
        "7"
    } else if d == 8 {
        "8"
    } else {
        "9"
    };
    assert(t@ =~= seq![digit_char(d as int)]);
    t
}

/// Writes `n` in base ten at the end of `out`.
pub fn push_decimal(out: &mut String, n: u64)
    ensures
        final(out)@ == old(out)@ + decimal_text(n as nat),
    decreases n,
{
    if n >= 10 {
        push_decimal(out, n / 10);
    }
    out.append(digit_text(n % 10));
    assert(final(out)@ =~= old(out)@ + decimal_text(n as nat)) by {
        if n >= 10 {
            assert(decimal_text(n as nat) == decimal_text((n / 10) as nat).push(
                digit_char((n % 10) as int),
            ));
        }
    }
}

} // verus!
