//! What holds of every log and every line, proved from the spec functions
//! that the contracts of the library are stated with.

use crate::driver::{
    buffer_effect, handler_effect, lemma_line_end, line_effect, line_end, lines_effect,
    tag_effect, tag_of_name, Tag,
};
use crate::grammar::{
    callsign_end, domain_dot, email_end, is_callsign, is_email, signal_report_of, tag_line,
    SignalReport,
};
use crate::log::{empty_log, with_line, LogView};
use crate::names::lemma_tag_names;
use crate::qso::{qso_format_a, qso_format_b, qso_of, start_after, Field};
use crate::text::{
    digit_char, has_char, is_digit, lemma_run_end, run_end, run_end_within, trimmed, CharClass,
};
use vstd::prelude::*;
use vstd::utf8::{decode_utf8, valid_utf8};

verus! {

/// A signal report of two digits: a readability from 1 to 5 and a strength
/// from 1 to 9 are read as they stand, and the tone is 0.
pub proof fn lemma_signal_report_of_two_digits(readability: int, strength: int)
    requires
        1 <= readability <= 5,
        1 <= strength <= 9,
    ensures
        signal_report_of(seq![digit_char(readability), digit_char(strength)]) == Some(
            SignalReport(readability as u8, strength as u8, 0),
        ),
{
}

/// A signal report of three digits: a readability from 1 to 5, a strength
/// from 1 to 9 and a tone from 0 to 9 are read as they stand.
pub proof fn lemma_signal_report_of_three_digits(readability: int, strength: int, tone: int)
    requires
        1 <= readability <= 5,
        1 <= strength <= 9,
        0 <= tone <= 9,
    ensures
        signal_report_of(seq![digit_char(readability), digit_char(strength), digit_char(tone)])
            == Some(SignalReport(readability as u8, strength as u8, tone as u8)),
{
}

/// No other token is a signal report: not one of fewer than two or of more
/// than three characters, not one that holds anything but digits, and not
/// one whose readability is 0 or above 5 or whose strength is 0.
pub proof fn lemma_signal_report_of_nothing_else(token: Seq<char>)
    requires
        token.len() < 2 || token.len() > 3 || (exists|k: int|
            0 <= k < token.len() && !is_digit(#[trigger] token[k])) || token[0] == '0' || token[0]
            > '5' || token[1] == '0',
    ensures
        signal_report_of(token) is None,
{
    if 2 <= token.len() <= 3 && signal_report_of(token) is Some {
        assert forall|k: int| 0 <= k < token.len() implies is_digit(#[trigger] token[k]) by {
            if k == 0 {
            } else if k == 1 {
            } else {
                assert(k == 2);
            }
        }
    }
}

/// Every signal report that is read is valid.
pub proof fn lemma_signal_report_is_valid(token: Seq<char>)
    ensures
        signal_report_of(token) matches Some(report) ==> report.is_valid(),
{
}

/// A run inside a part of a text is the run of the text, as far as the part
/// reaches.
pub proof fn lemma_run_in_part(s: Seq<char>, from: int, to: int, at: int, class: CharClass)
    requires
        0 <= from <= at <= to <= s.len(),
    ensures
        run_end(s.subrange(from, to), at - from, class) + from == (if run_end(s, at, class)
            <= to {
            run_end(s, at, class)
        } else {
            to
        }),
    decreases to - at,
{
    let part = s.subrange(from, to);
    if at < to {
        assert(part[at - from] == s[at]);
        if class.has(s[at]) {
            lemma_run_in_part(s, from, to, at + 1, class);
        }
    } else {
        lemma_run_end(s, at, class);
    }
}

/// What is read as a call sign is a call sign: the part of a text from
/// where a call sign starts to where it ends is a call sign as a whole.
pub proof fn lemma_callsign_in_text(s: Seq<char>, at: int)
    requires
        callsign_end(s, at) is Some,
    ensures
        0 <= at < callsign_end(s, at)->0 <= s.len(),
        is_callsign(s.subrange(at, callsign_end(s, at)->0)),
{
    let class = CharClass::Alphanumeric;
    let start = if has_char(s, at, '@') {
        at + 1
    } else {
        at
    };
    let body = run_end_within(s, start, class, 8);
    let suffix = run_end_within(s, body + 1, class, 8);
    let end = callsign_end(s, at)->0;
    assert(0 <= start < s.len());
    lemma_run_end(s, start, class);
    if has_char(s, body, '/') {
        lemma_run_end(s, body + 1, class);
    }
    let part = s.subrange(at, end);
    assert(has_char(part, 0, '@') == has_char(s, at, '@'));
    lemma_run_in_part(s, at, end, start, class);
    if end > body {
        assert(part[body - at] == s[body]);
        lemma_run_in_part(s, at, end, body + 1, class);
    }
}

/// The dot that `domain_dot` finds lies from `low` up to `high`, and at
/// least two letters or digits follow it.
pub proof fn lemma_domain_dot(s: Seq<char>, low: int, high: int)
    requires
        domain_dot(s, low, high) is Some,
    ensures
        low <= domain_dot(s, low, high)->0 < high,
        has_char(s, domain_dot(s, low, high)->0, '.'),
        run_end(s, domain_dot(s, low, high)->0 + 1, CharClass::Alphanumeric) >= domain_dot(
            s,
            low,
            high,
        )->0 + 3,
    decreases high - low,
{
    if high > low && !(has_char(s, high - 1, '.') && run_end(s, high, CharClass::Alphanumeric)
        >= high + 2) {
        lemma_domain_dot(s, low, high - 1);
    }
}

/// Where no dot stands from `dot + 1` up to `high`, and two letters or
/// digits follow the dot at `dot`, that dot is the one that is found.
proof fn lemma_domain_dot_is(s: Seq<char>, low: int, dot: int, high: int)
    requires
        low <= dot < high,
        has_char(s, dot, '.'),
        run_end(s, dot + 1, CharClass::Alphanumeric) >= dot + 3,
        forall|k: int| dot < k < high ==> !has_char(s, k, '.'),
    ensures
        domain_dot(s, low, high) == Some(dot),
    decreases high - dot,
{
    if high - 1 > dot {
        assert(!has_char(s, high - 1, '.'));
        lemma_domain_dot_is(s, low, dot, high - 1);
    }
}

/// What is read as an e-mail address is an e-mail address: the part of a
/// text from where an address starts to where it ends is an address as a
/// whole.
pub proof fn lemma_email_in_text(s: Seq<char>, at: int)
    requires
        0 <= at,
        email_end(s, at) is Some,
    ensures
        at < email_end(s, at)->0 <= s.len(),
        is_email(s.subrange(at, email_end(s, at)->0)),
{
    let part_class = CharClass::EmailPart;
    let class = CharClass::Alphanumeric;
    let local = run_end(s, at, part_class);
    let run = run_end(s, local + 1, part_class);
    let dot = domain_dot(s, local + 2, run)->0;
    let end = email_end(s, at)->0;
    lemma_domain_dot(s, local + 2, run);
    lemma_run_end(s, at, part_class);
    lemma_run_end(s, local + 1, part_class);
    lemma_run_end(s, dot + 1, class);
    assert(end <= run) by {
        if end > run {
            assert(class.has(s[run]));
            assert(part_class.has(s[run]));
        }
    }
    let part = s.subrange(at, end);
    lemma_run_in_part(s, at, end, at, part_class);
    assert(part[local - at] == s[local]);
    lemma_run_in_part(s, at, end, local + 1, part_class);
    lemma_run_in_part(s, at, end, dot + 1, class);
    assert(part[dot - at] == s[dot]);
    assert forall|k: int| dot - at < k < end - at implies !has_char(part, k, '.') by {
        assert(part[k] == s[at + k]);
        assert(class.has(s[at + k]));
    }
    lemma_domain_dot_is(part, local - at + 2, dot - at, end - at);
}

/// Every contact that is read is well formed, and one that is read in the
/// short layout has no signal report.
pub proof fn lemma_contact_is_well_formed(s: Seq<char>)
    ensures
        qso_of(s) matches Some((qso, _)) ==> qso.is_well_formed(),
        qso_format_b(s) matches Some((qso, _)) ==> qso.sent_report is None
            && qso.received_report is None,
{
    let frequency = Some(run_end(s, 0, CharClass::Blank));
    let mode = start_after(s, frequency, Field::Frequency);
    let datetime = start_after(s, mode, Field::Mode);
    let call_sent = start_after(s, datetime, Field::Datetime);
    if qso_format_a(s) is Some {
        let sent_1 = start_after(s, call_sent, Field::Callsign);
        let sent_2 = start_after(s, sent_1, Field::Token);
        let call_recvd = start_after(s, sent_2, Field::Token);
        lemma_callsign_in_text(s, call_sent->0);
        lemma_callsign_in_text(s, call_recvd->0);
    } else if qso_format_b(s) is Some {
        let sent = start_after(s, call_sent, Field::Callsign);
        let call_recvd = start_after(s, sent, Field::Token);
        lemma_callsign_in_text(s, call_sent->0);
        lemma_callsign_in_text(s, call_recvd->0);
    }
}

/// A line with a tag of the address adds its value, without the white
/// space at its ends, as a new line behind what the address held: two such
/// lines leave the address with both values, in the order of the lines,
/// behind what it held before them.
pub proof fn lemma_address_accumulates(log: LogView, first: Seq<char>, second: Seq<char>)
    ensures
        handler_effect(Tag::Address, log, first) matches Ok(once) && handler_effect(
            Tag::Address,
            once,
            second,
        ) matches Ok(twice) && once == (LogView {
            address: Some(with_line(log.address, trimmed(first))),
            ..log
        }) && twice == (LogView {
            address: Some(with_line(log.address, trimmed(first)) + "\n"@ + trimmed(second)),
            ..log
        }),
{
}

/// Each of the five tags of an address adds its value to the address, and
/// changes nothing else.
pub proof fn lemma_address_tags(log: LogView, value: Seq<char>)
    ensures
        ({
            let after = Ok::<LogView, Seq<char>>(
                LogView { address: Some(with_line(log.address, trimmed(value))), ..log },
            );
            &&& tag_effect(log, "ADDRESS"@, value) == after
            &&& tag_effect(log, "ADDRESS-CITY"@, value) == after
            &&& tag_effect(log, "ADDRESS-STATE-PROVINCE"@, value) == after
            &&& tag_effect(log, "ADDRESS-POSTALCODE"@, value) == after
            &&& tag_effect(log, "ADDRESS-COUNTRY"@, value) == after
        }),
{
    lemma_tag_names();
}

/// A line that is not empty and cannot be parted into a tag and a value
/// fails with a parse error that has an empty tag and the number of the
/// line.
pub proof fn lemma_line_without_tag_fails(log: LogView, line_no: nat, line: Seq<char>)
    requires
        line.len() > 0,
        tag_line(line) is None,
    ensures
        line_effect(log, line_no, line) matches Err(error) && error.tag == Seq::<char>::empty()
            && error.line == line_no && error.kind is ParseError,
{
}

/// Whether `text` starts with `start`.
pub open spec fn starts_with(text: Seq<char>, start: Seq<char>) -> bool {
    start.len() <= text.len() && text.subrange(0, start.len() as int) == start
}

/// No handler takes anything away from the address or from the remarks.
proof fn lemma_handler_keeps_lines(tag: Tag, log: LogView, value: Seq<char>)
    ensures
        handler_effect(tag, log, value) matches Ok(after) ==> {
            &&& (log.address matches Some(before) ==> after.address matches Some(text)
                && starts_with(text, before))
            &&& (log.soapbox matches Some(before) ==> after.soapbox matches Some(text)
                && starts_with(text, before))
        },
{
    if log.address is Some {
        let before = log.address->0;
        assert(before.subrange(0, before.len() as int) =~= before);
        assert((before + "\n"@ + trimmed(value)).subrange(0, before.len() as int) =~= before);
    }
    if log.soapbox is Some {
        let before = log.soapbox->0;
        assert(before.subrange(0, before.len() as int) =~= before);
        assert((before + "\n"@ + trimmed(value)).subrange(0, before.len() as int) =~= before);
    }
    match tag {
        Tag::StartOfLog => {},
        Tag::Callsign => {},
        Tag::Contest => {},
        Tag::CategoryAssisted => {},
        Tag::CategoryBand => {},
        Tag::CategoryMode => {},
        Tag::CategoryOperator => {},
        Tag::CategoryPower => {},
        Tag::CategoryStation => {},
        Tag::CategoryTime => {},
        Tag::CategoryTransmitter => {},
        Tag::CategoryOverlay => {},
        Tag::Certificate => {},
        Tag::ClaimedScore => {},
        Tag::Club => {},
        Tag::CreatedBy => {},
        Tag::Email => {
            if email_end(value, 0) is Some {
                lemma_email_in_text(value, 0);
            }
        },
        Tag::GridLocator => {},
        Tag::Location => {},
        Tag::Name => {},
        Tag::Address => {},
        Tag::Operators => {},
        Tag::Offtime => {},
        Tag::Soapbox => {},
        Tag::IgnoredQso => {},
        Tag::Qso => {},
        Tag::Debug => {},
        Tag::EndOfLog => {},
    }
}

/// No line takes anything away from the address or from the remarks: what
/// they held before a line they start with after it.
pub proof fn lemma_lines_are_kept(log: LogView, name: Seq<char>, value: Seq<char>)
    ensures
        tag_effect(log, name, value) matches Ok(after) ==> {
            &&& (log.address matches Some(before) ==> after.address matches Some(text)
                && starts_with(text, before))
            &&& (log.soapbox matches Some(before) ==> after.soapbox matches Some(text)
                && starts_with(text, before))
        },
{
    match tag_of_name(name) {
        Some(tag) => {
            lemma_handler_keeps_lines(tag, log, value);
        },
        None => {
            if log.address is Some {
                let before = log.address->0;
                assert(before.subrange(0, before.len() as int) =~= before);
            }
            if log.soapbox is Some {
                let before = log.soapbox->0;
                assert(before.subrange(0, before.len() as int) =~= before);
            }
        },
    }
}

/// A `QSO` line adds its contact to the contacts of the log and to nothing
/// else; an `X-QSO` line adds its contact to the contacts that are left out
/// and to nothing else.
pub proof fn lemma_contacts_stay_apart(log: LogView, value: Seq<char>)
    ensures
        tag_effect(log, "QSO"@, value) matches Ok(after) ==> qso_of(value) matches Some(
            (qso, _),
        ) && after == (LogView { entries: log.entries.push(qso), ..log }),
        tag_effect(log, "X-QSO"@, value) matches Ok(after) ==> qso_of(value) matches Some(
            (qso, _),
        ) && after == (LogView { ignored_entries: log.ignored_entries.push(qso), ..log }),
{
    lemma_tag_names();
}

/// No handler but that of `QSO` changes the contacts of the log, and none
/// but that of `X-QSO` the contacts that are left out.
proof fn lemma_handler_keeps_contacts(tag: Tag, log: LogView, value: Seq<char>)
    ensures
        handler_effect(tag, log, value) matches Ok(after) ==> {
            &&& (tag != Tag::Qso ==> after.entries == log.entries)
            &&& (tag != Tag::IgnoredQso ==> after.ignored_entries == log.ignored_entries)
        },
{
    match tag {
        Tag::StartOfLog => {},
        Tag::Callsign => {},
        Tag::Contest => {},
        Tag::CategoryAssisted => {},
        Tag::CategoryBand => {},
        Tag::CategoryMode => {},
        Tag::CategoryOperator => {},
        Tag::CategoryPower => {},
        Tag::CategoryStation => {},
        Tag::CategoryTime => {},
        Tag::CategoryTransmitter => {},
        Tag::CategoryOverlay => {},
        Tag::Certificate => {},
        Tag::ClaimedScore => {},
        Tag::Club => {},
        Tag::CreatedBy => {},
        Tag::Email => {
            if email_end(value, 0) is Some {
                lemma_email_in_text(value, 0);
            }
        },
        Tag::GridLocator => {},
        Tag::Location => {},
        Tag::Name => {},
        Tag::Address => {},
        Tag::Operators => {},
        Tag::Offtime => {},
        Tag::Soapbox => {},
        Tag::IgnoredQso => {},
        Tag::Qso => {},
        Tag::Debug => {},
        Tag::EndOfLog => {},
    }
}

/// The handlers of `QSO` and of `X-QSO` have no other name.
proof fn lemma_names_of_contacts(name: Seq<char>)
    ensures
        tag_of_name(name) == Some(Tag::Qso) ==> name == "QSO"@,
        tag_of_name(name) == Some(Tag::IgnoredQso) ==> name == "X-QSO"@,
{
}

/// No line but a `QSO` line changes the contacts of the log, and no line
/// but an `X-QSO` line the contacts that are left out.
pub proof fn lemma_contacts_change_by_their_tag(log: LogView, name: Seq<char>, value: Seq<char>)
    ensures
        tag_effect(log, name, value) matches Ok(after) ==> {
            &&& (name != "QSO"@ ==> after.entries == log.entries)
            &&& (name != "X-QSO"@ ==> after.ignored_entries == log.ignored_entries)
        },
{
    lemma_names_of_contacts(name);
    match tag_of_name(name) {
        Some(tag) => {
            lemma_handler_keeps_contacts(tag, log, value);
        },
        None => {},
    }
}

/// A line whose tag the format does not know leaves its value under its
/// name, and nothing else changed.
pub proof fn lemma_unknown_tag_is_kept(log: LogView, name: Seq<char>, value: Seq<char>)
    requires
        tag_of_name(name) is None,
    ensures
        tag_effect(log, name, value) matches Ok(after) && after.other_tags.contains_key(name)
            && after.other_tags[name] == value && after == (LogView {
            other_tags: after.other_tags,
            ..log
        }),
{
}

/// No handler takes the mark of a trial off a log.
proof fn lemma_handler_keeps_debug(tag: Tag, log: LogView, value: Seq<char>)
    requires
        log.debug,
    ensures
        handler_effect(tag, log, value) matches Ok(after) ==> after.debug,
{
    match tag {
        Tag::StartOfLog => {},
        Tag::Callsign => {},
        Tag::Contest => {},
        Tag::CategoryAssisted => {},
        Tag::CategoryBand => {},
        Tag::CategoryMode => {},
        Tag::CategoryOperator => {},
        Tag::CategoryPower => {},
        Tag::CategoryStation => {},
        Tag::CategoryTime => {},
        Tag::CategoryTransmitter => {},
        Tag::CategoryOverlay => {},
        Tag::Certificate => {},
        Tag::ClaimedScore => {},
        Tag::Club => {},
        Tag::CreatedBy => {},
        Tag::Email => {
            if email_end(value, 0) is Some {
                lemma_email_in_text(value, 0);
            }
        },
        Tag::GridLocator => {},
        Tag::Location => {},
        Tag::Name => {},
        Tag::Address => {},
        Tag::Operators => {},
        Tag::Offtime => {},
        Tag::Soapbox => {},
        Tag::IgnoredQso => {},
        Tag::Qso => {},
        Tag::Debug => {},
        Tag::EndOfLog => {},
    }
}

/// No line takes the mark of a trial off a log.
pub proof fn lemma_debug_stays(log: LogView, name: Seq<char>, value: Seq<char>)
    requires
        log.debug,
    ensures
        tag_effect(log, name, value) matches Ok(after) ==> after.debug,
{
    match tag_of_name(name) {
        Some(tag) => {
            lemma_handler_keeps_debug(tag, log, value);
        },
        None => {},
    }
}

/// The log of which nothing is known is well formed.
pub proof fn lemma_empty_log_is_well_formed()
    ensures
        empty_log().is_well_formed(),
{
}

/// No handler makes a well-formed log ill formed.
proof fn lemma_handler_keeps_well_formed(tag: Tag, log: LogView, value: Seq<char>)
    requires
        log.is_well_formed(),
    ensures
        handler_effect(tag, log, value) matches Ok(after) ==> after.is_well_formed(),
{
    match tag {
        Tag::StartOfLog => {},
        Tag::Callsign => {
            if callsign_end(value, 0) is Some {
                lemma_callsign_in_text(value, 0);
            }
        },
        Tag::Contest => {},
        Tag::CategoryAssisted => {},
        Tag::CategoryBand => {},
        Tag::CategoryMode => {},
        Tag::CategoryOperator => {},
        Tag::CategoryPower => {},
        Tag::CategoryStation => {},
        Tag::CategoryTime => {},
        Tag::CategoryTransmitter => {},
        Tag::CategoryOverlay => {},
        Tag::Certificate => {},
        Tag::ClaimedScore => {},
        Tag::Club => {},
        Tag::CreatedBy => {},
        Tag::Email => {
            if email_end(value, 0) is Some {
                lemma_email_in_text(value, 0);
            }
        },
        Tag::GridLocator => {},
        Tag::Location => {},
        Tag::Name => {},
        Tag::Address => {},
        Tag::Operators => {},
        Tag::Offtime => {},
        Tag::Soapbox => {},
        Tag::IgnoredQso => {
            lemma_contact_is_well_formed(value);
        },
        Tag::Qso => {
            lemma_contact_is_well_formed(value);
        },
        Tag::Debug => {},
        Tag::EndOfLog => {},
    }
}

/// No tag with its value makes a well-formed log ill formed.
pub proof fn lemma_tag_keeps_well_formed(log: LogView, name: Seq<char>, value: Seq<char>)
    requires
        log.is_well_formed(),
    ensures
        tag_effect(log, name, value) matches Ok(after) ==> after.is_well_formed(),
{
    match tag_of_name(name) {
        Some(tag) => {
            lemma_handler_keeps_well_formed(tag, log, value);
        },
        None => {},
    }
}

/// No line makes a well-formed log ill formed.
pub proof fn lemma_line_keeps_well_formed(log: LogView, line_no: nat, line: Seq<char>)
    requires
        log.is_well_formed(),
    ensures
        line_effect(log, line_no, line) matches Ok(after) ==> after.is_well_formed(),
{
    if line.len() > 0 && tag_line(line) is Some {
        let parted = tag_line(line)->0;
        lemma_tag_keeps_well_formed(log, parted.tag, parted.value);
    }
}

/// Every log that is read from lines is well formed, if the log that the
/// reading started from was.
pub proof fn lemma_lines_log_is_well_formed(log: LogView, lines: Seq<Seq<char>>, from: int)
    requires
        log.is_well_formed(),
    ensures
        lines_effect(log, lines, from) matches Ok(after) ==> after.is_well_formed(),
    decreases lines.len() - from,
{
    if 0 <= from < lines.len() {
        lemma_line_keeps_well_formed(log, from as nat, lines[from]);
        match line_effect(log, from as nat, lines[from]) {
            Ok(after) => {
                lemma_lines_log_is_well_formed(after, lines, from + 1);
            },
            Err(_) => {},
        }
    }
}

/// No lines of a buffer make a well-formed log ill formed.
pub proof fn lemma_buffer_keeps_well_formed(log: LogView, bytes: Seq<u8>, from: int, line_no: nat)
    requires
        log.is_well_formed(),
    ensures
        buffer_effect(log, bytes, from, line_no) matches Ok(after) ==> after.is_well_formed(),
    decreases bytes.len() - from,
{
    let end = line_end(bytes, from);
    let line = bytes.subrange(from, end);
    if 0 <= from <= bytes.len() && valid_utf8(line) {
        lemma_line_keeps_well_formed(log, line_no, decode_utf8(line));
        match line_effect(log, line_no, decode_utf8(line)) {
            Ok(after) => {
                if end < bytes.len() {
                    lemma_line_end(bytes, from);
                    lemma_buffer_keeps_well_formed(after, bytes, end + 1, line_no + 1);
                }
            },
            Err(_) => {},
        }
    }
}

/// Every log that is read from a buffer is well formed.
pub proof fn lemma_log_is_well_formed(bytes: Seq<u8>)
    ensures
        buffer_effect(empty_log(), bytes, 0, 0) matches Ok(log) ==> log.is_well_formed(),
{
    lemma_buffer_keeps_well_formed(empty_log(), bytes, 0, 0);
}

} // verus!
