//! Contacts, and the two layouts in which a log writes them.
//!
//! A contact is a line of fields with spaces or tabs between them. Both
//! layouts start with the frequency, the mode, the time and the call sign
//! that was sent. The long layout then has two tokens of exchange for each
//! station, the short layout one. Nothing in a log says which layout a line
//! is in: the long one is tried first, and a line that does not fit it is
//! read in the short one.

use crate::category::{mode_at, scan_mode, Mode};
use crate::frequency::Frequency;
use crate::grammar::{
    callsign_end, frequency_at, is_callsign, read_signal_report, scan_callsign, scan_frequency,
    signal_report_of, SignalReport,
};
use crate::laws::lemma_contact_is_well_formed;
use crate::text::{run_end, scan_run, CharClass, Text};
use crate::timestamp::{datetime_at, scan_datetime, stamp_len, Timestamp};
use vstd::prelude::*;
use vstd::string::StringExecFns;

verus! {

/// A contact between two stations.
#[derive(Debug, Clone)]
pub struct Qso {
    frequency: Frequency,
    mode: Mode,
    datetime: Timestamp,
    call_sent: String,
    exch_sent: String,
    call_recvd: String,
    exch_recvd: String,
    sent_report: Option<SignalReport>,
    received_report: Option<SignalReport>,
    transmitter_id: bool,
}

/// A `Qso` as a mathematical value.
pub struct QsoView {
    pub frequency: Frequency,
    pub mode: Mode,
    pub datetime: Timestamp,
    pub call_sent: Seq<char>,
    pub exch_sent: Seq<char>,
    pub call_recvd: Seq<char>,
    pub exch_recvd: Seq<char>,
    pub sent_report: Option<SignalReport>,
    pub received_report: Option<SignalReport>,
    pub transmitter_id: bool,
}

impl QsoView {
    /// Whether the contact is well formed: its minute exists, its call
    /// signs are call signs, its signal reports are valid, and it bears no
    /// mark.
    pub open spec fn is_well_formed(self) -> bool {
        &&& self.datetime.is_valid()
        &&& is_callsign(self.call_sent)
        &&& is_callsign(self.call_recvd)
        &&& (self.sent_report matches Some(report) ==> report.is_valid())
        &&& (self.received_report matches Some(report) ==> report.is_valid())
        &&& !self.transmitter_id
    }
}

impl View for Qso {
    type V = QsoView;

    closed spec fn view(&self) -> QsoView {
        QsoView {
            frequency: self.frequency,
            mode: self.mode,
            datetime: self.datetime,
            call_sent: self.call_sent@,
            exch_sent: self.exch_sent@,
            call_recvd: self.call_recvd@,
            exch_recvd: self.exch_recvd@,
            sent_report: self.sent_report,
            received_report: self.received_report,
            transmitter_id: self.transmitter_id,
        }
    }
}

impl Qso {
    /// The frequency of the contact.
    pub fn frequency(&self) -> (frequency: &Frequency)
        ensures
            *frequency == self@.frequency,
    {
        &self.frequency
    }

    /// The mode of the contact.
    pub fn mode(&self) -> (mode: &Mode)
        ensures
            *mode == self@.mode,
    {
        &self.mode
    }

    /// The minute of the contact.
    pub fn datetime(&self) -> (datetime: &Timestamp)
        ensures
            *datetime == self@.datetime,
    {
        &self.datetime
    }

    /// The call sign that was sent.
    pub fn call_sent(&self) -> (call: &String)
        ensures
            call@ == self@.call_sent,
    {
        &self.call_sent
    }

    /// The exchange that was sent.
    pub fn exchange_sent(&self) -> (exchange: &String)
        ensures
            exchange@ == self@.exch_sent,
    {
        &self.exch_sent
    }

    /// The call sign of the other station.
    pub fn call_received(&self) -> (call: &String)
        ensures
            call@ == self@.call_recvd,
    {
        &self.call_recvd
    }

    /// The exchange that the other station sent.
    pub fn exchange_received(&self) -> (exchange: &String)
        ensures
            exchange@ == self@.exch_recvd,
    {
        &self.exch_recvd
    }

    /// The signal report that was sent, where the line held one.
    pub fn sent_report(&self) -> (report: &Option<SignalReport>)
        ensures
            *report == self@.sent_report,
    {
        &self.sent_report
    }

    /// The signal report that the other station sent, where the line held
    /// one.
    pub fn received_report(&self) -> (report: &Option<SignalReport>)
        ensures
            *report == self@.received_report,
    {
        &self.received_report
    }

    /// Kept for a mark that no line sets.
    pub fn transmitter_id(&self) -> (id: bool)
        ensures
            id == self@.transmitter_id,
    {
        self.transmitter_id
    }
}

/// The kinds of field that a contact is made of.
#[derive(Debug, Copy, Clone, PartialEq, Eq, Structural)]
pub enum Field {
    Frequency,
    Mode,
    Datetime,
    Callsign,
    /// A token of exchange: a run of letters and digits.
    Token,
}

/// Where the field of kind `field` that starts at `at` ends.
pub open spec fn field_end(s: Seq<char>, at: int, field: Field) -> Option<int> {
    match field {
        Field::Frequency => match frequency_at(s, at) {
            Some((_, end)) => Some(end),
            None => None,
        },
        Field::Mode => match mode_at(s, at) {
            Some((_, end)) => Some(end),
            None => None,
        },
        Field::Datetime => if datetime_at(s, at) is Some {
            Some(at + stamp_len())
        } else {
            None
        },
        Field::Callsign => callsign_end(s, at),
        Field::Token => if run_end(s, at, CharClass::Alphanumeric) > at {
            Some(run_end(s, at, CharClass::Alphanumeric))
        } else {
            None
        },
    }
}

/// Where the field starts that follows a field of kind `field` which starts
/// at `at`: behind that field and the spaces and tabs that follow it, of
/// which there is at least one. There is no such place where `at` is none,
/// where no field of that kind stands at `at`, or where no space or tab
/// follows it.
pub open spec fn start_after(s: Seq<char>, at: Option<int>, field: Field) -> Option<int> {
    match end_of(s, at, field) {
        Some(end) => if run_end(s, end, CharClass::Blank) > end {
            Some(run_end(s, end, CharClass::Blank))
        } else {
            None
        },
        None => None,
    }
}

/// Where a field of kind `field` ends which starts at `at`. There is no
/// such place where `at` is none or where no field of that kind stands at
/// `at`.
pub open spec fn end_of(s: Seq<char>, at: Option<int>, field: Field) -> Option<int> {
    match at {
        Some(at) => field_end(s, at, field),
        None => None,
    }
}

/// The text of the token that starts at `at`.
pub open spec fn token_at(s: Seq<char>, at: int) -> Seq<char> {
    s.subrange(at, run_end(s, at, CharClass::Alphanumeric))
}

/// The text of the call sign that starts at `at`.
pub open spec fn callsign_at(s: Seq<char>, at: int) -> Seq<char> {
    s.subrange(at, callsign_end(s, at)->0)
}

/// The contact that `s` writes in the long layout, of nine fields, and
/// where it ends. The exchange of a station is its two tokens with one
/// space between them, and its signal report is the first token where that
/// reads as one. What follows the last field and the spaces and tabs behind
/// it is left.
///
/// Each name in the body stands for the place where that field starts.
pub open spec fn qso_format_a(s: Seq<char>) -> Option<(QsoView, int)> {
    let frequency = Some(run_end(s, 0, CharClass::Blank));
    let mode = start_after(s, frequency, Field::Frequency);
    let datetime = start_after(s, mode, Field::Mode);
    let call_sent = start_after(s, datetime, Field::Datetime);
    let sent_1 = start_after(s, call_sent, Field::Callsign);
    let sent_2 = start_after(s, sent_1, Field::Token);
    let call_recvd = start_after(s, sent_2, Field::Token);
    let recvd_1 = start_after(s, call_recvd, Field::Callsign);
    let recvd_2 = start_after(s, recvd_1, Field::Token);
    let end = end_of(s, recvd_2, Field::Token);
    if end is Some {
        Some(
            (
                QsoView {
                    frequency: frequency_at(s, frequency->0).unwrap().0,
                    mode: mode_at(s, mode->0).unwrap().0,
                    datetime: datetime_at(s, datetime->0)->0,
                    call_sent: callsign_at(s, call_sent->0),
                    exch_sent: token_at(s, sent_1->0) + " "@ + token_at(s, sent_2->0),
                    call_recvd: callsign_at(s, call_recvd->0),
                    exch_recvd: token_at(s, recvd_1->0) + " "@ + token_at(s, recvd_2->0),
                    sent_report: signal_report_of(token_at(s, sent_1->0)),
                    received_report: signal_report_of(token_at(s, recvd_1->0)),
                    transmitter_id: false,
                },
                run_end(s, end->0, CharClass::Blank),
            ),
        )
    } else {
        None
    }
}

/// The contact that `s` writes in the short layout, of seven fields, and
/// where it ends. The exchange of a station is its one token, and there is
/// no signal report. What follows the last field and the spaces and tabs
/// behind it is left.
///
/// Each name in the body stands for the place where that field starts.
pub open spec fn qso_format_b(s: Seq<char>) -> Option<(QsoView, int)> {
    let frequency = Some(run_end(s, 0, CharClass::Blank));
    let mode = start_after(s, frequency, Field::Frequency);
    let datetime = start_after(s, mode, Field::Mode);
    let call_sent = start_after(s, datetime, Field::Datetime);
    let sent = start_after(s, call_sent, Field::Callsign);
    let call_recvd = start_after(s, sent, Field::Token);
    let recvd = start_after(s, call_recvd, Field::Callsign);
    let end = end_of(s, recvd, Field::Token);
    if end is Some {
        Some(
            (
                QsoView {
                    frequency: frequency_at(s, frequency->0).unwrap().0,
                    mode: mode_at(s, mode->0).unwrap().0,
                    datetime: datetime_at(s, datetime->0)->0,
                    call_sent: callsign_at(s, call_sent->0),
                    exch_sent: token_at(s, sent->0),
                    call_recvd: callsign_at(s, call_recvd->0),
                    exch_recvd: token_at(s, recvd->0),
                    sent_report: None,
                    received_report: None,
                    transmitter_id: false,
                },
                run_end(s, end->0, CharClass::Blank),
            ),
        )
    } else {
        None
    }
}

/// The contact that `s` writes, and where it ends: in the long layout if
/// `s` fits it, else in the short one.
pub open spec fn qso_of(s: Seq<char>) -> Option<(QsoView, int)> {
    match qso_format_a(s) {
        Some(found) => Some(found),
        None => qso_format_b(s),
    }
}

/// Finds the end of the field of kind `field` that starts at `at`.
fn scan_field(text: &Text, at: usize, field: Field) -> (end: Option<usize>)
    ensures
        match field_end(text@, at as int, field) {
            Some(e) => end matches Some(found) && found == e && at < e <= text@.len(),
            None => end is None,
        },
{
    let s = text.chars();
    match field {
        Field::Frequency => match scan_frequency(s, at) {
            Some((_, end)) => Some(end),
            None => None,
        },
        Field::Mode => match scan_mode(s, at) {
            Some((_, end)) => Some(end),
            None => None,
        },
        Field::Datetime => match scan_datetime(text, at) {
            Some((_, end)) => Some(end),
            None => None,
        },
        Field::Callsign => scan_callsign(s, at),
        Field::Token => {
            let end = scan_run(s, at, CharClass::Alphanumeric);
            if end > at && at < s.len() {
                Some(end)
            } else {
                None
            }
        },
    }
}

/// Finds the start of the field that follows the field of kind `field` at
/// `at`.
fn scan_after(text: &Text, at: usize, field: Field) -> (next: Option<usize>)
    ensures
        match start_after(text@, Some(at as int), field) {
            Some(n) => next matches Some(found) && found == n && at < n <= text@.len(),
            None => next is None,
        },
{
    match scan_field(text, at, field) {
        Some(end) => {
            let next = scan_run(text.chars(), end, CharClass::Blank);
            if next > end {
                Some(next)
            } else {
                None
            }
        },
        None => None,
    }
}

/// The text of the field of kind `field` that starts at `at`.
fn field_text(text: &Text, at: usize, field: Field) -> (part: String)
    requires
        field_end(text@, at as int, field) is Some,
    ensures
        part@ == text@.subrange(at as int, field_end(text@, at as int, field)->0),
{
    match scan_field(text, at, field) {
        Some(end) => String::from_str(text.cut(at, end)),
        None => String::new(),
    }
}

/// The two tokens at `first` and `second` with one space between them.
fn exchange_of(text: &Text, first: usize, second: usize) -> (exchange: String)
    requires
        field_end(text@, first as int, Field::Token) is Some,
        field_end(text@, second as int, Field::Token) is Some,
    ensures
        exchange@ == token_at(text@, first as int) + " "@ + token_at(text@, second as int),
{
    let mut exchange = field_text(text, first, Field::Token);
    exchange.append(" ");
    exchange.append(field_text(text, second, Field::Token).as_str());
    exchange
}

/// The signal report that the token at `at` writes, if it writes one.
fn report_of(text: &Text, at: usize) -> (report: Option<SignalReport>)
    requires
        field_end(text@, at as int, Field::Token) is Some,
    ensures
        report == signal_report_of(token_at(text@, at as int)),
{
    let s = text.chars();
    let end = scan_run(s, at, CharClass::Alphanumeric);
    if at <= end && end <= s.len() {
        read_signal_report(s, at, end)
    } else {
        None
    }
}

/// What both layouts start with: the frequency, the mode and the time of
/// the fields that start at these places.
fn head_of(text: &Text, frequency: usize, mode: usize, datetime: usize) -> (head: Option<
    (Frequency, Mode, Timestamp),
>)
    requires
        frequency_at(text@, frequency as int) is Some,
        mode_at(text@, mode as int) is Some,
        datetime_at(text@, datetime as int) is Some,
    ensures
        head == Some(
            (
                frequency_at(text@, frequency as int).unwrap().0,
                mode_at(text@, mode as int).unwrap().0,
                datetime_at(text@, datetime as int)->0,
            ),
        ),
{
    let s = text.chars();
    match (scan_frequency(s, frequency), scan_mode(s, mode), scan_datetime(text, datetime)) {
        (Some((f, _)), Some((m, _)), Some((t, _))) => Some((f, m, t)),
        _ => None,
    }
}

/// Reads a contact in the long layout.
fn read_format_a(text: &Text) -> (found: Option<(Qso, usize)>)
    ensures
        match qso_format_a(text@) {
            Some((qso, end)) => found matches Some((q, e)) && q@ == qso && e == end && e
                <= text@.len(),
            None => found is None,
        },
{
    let s = text.chars();
    let frequency = scan_run(s, 0, CharClass::Blank);
    let mode = scan_after(text, frequency, Field::Frequency)?;
    let datetime = scan_after(text, mode, Field::Mode)?;
    let call_sent = scan_after(text, datetime, Field::Datetime)?;
    let sent_1 = scan_after(text, call_sent, Field::Callsign)?;
    let sent_2 = scan_after(text, sent_1, Field::Token)?;
    let call_recvd = scan_after(text, sent_2, Field::Token)?;
    let recvd_1 = scan_after(text, call_recvd, Field::Callsign)?;
    let recvd_2 = scan_after(text, recvd_1, Field::Token)?;
    let end = scan_field(text, recvd_2, Field::Token)?;
    let (f, m, t) = head_of(text, frequency, mode, datetime)?;
    let qso = Qso {
        frequency: f,
        mode: m,
        datetime: t,
        call_sent: field_text(text, call_sent, Field::Callsign),
        exch_sent: exchange_of(text, sent_1, sent_2),
        call_recvd: field_text(text, call_recvd, Field::Callsign),
        exch_recvd: exchange_of(text, recvd_1, recvd_2),
        sent_report: report_of(text, sent_1),
        received_report: report_of(text, recvd_1),
        transmitter_id: false,
    };
    Some((qso, scan_run(s, end, CharClass::Blank)))
}

/// Reads a contact in the short layout.
fn read_format_b(text: &Text) -> (found: Option<(Qso, usize)>)
    ensures
        match qso_format_b(text@) {
            Some((qso, end)) => found matches Some((q, e)) && q@ == qso && e == end && e
                <= text@.len(),
            None => found is None,
        },
{
    let s = text.chars();
    let frequency = scan_run(s, 0, CharClass::Blank);
    let mode = scan_after(text, frequency, Field::Frequency)?;
    let datetime = scan_after(text, mode, Field::Mode)?;
    let call_sent = scan_after(text, datetime, Field::Datetime)?;
    let sent = scan_after(text, call_sent, Field::Callsign)?;
    let call_recvd = scan_after(text, sent, Field::Token)?;
    let recvd = scan_after(text, call_recvd, Field::Callsign)?;
    let end = scan_field(text, recvd, Field::Token)?;
    let (f, m, t) = head_of(text, frequency, mode, datetime)?;
    let qso = Qso {
        frequency: f,
        mode: m,
        datetime: t,
        call_sent: field_text(text, call_sent, Field::Callsign),
        exch_sent: field_text(text, sent, Field::Token),
        call_recvd: field_text(text, call_recvd, Field::Callsign),
        exch_recvd: field_text(text, recvd, Field::Token),
        sent_report: None,
        received_report: None,
        transmitter_id: false,
    };
    Some((qso, scan_run(s, end, CharClass::Blank)))
}

/// Reads a contact: in the long layout if `input` fits it, else in the
/// short one. Returns the rest and the contact, which is well formed.
pub fn cabrillo_qso<'a>(input: &'a str) -> (found: Option<(&'a str, Qso)>)
    ensures
        match qso_of(input@) {
            Some((qso, end)) => found matches Some((rest, q)) && q@ == qso && rest@
                == input@.subrange(end, input@.len() as int),
            None => found is None,
        },
        found matches Some((_, q)) ==> q@.is_well_formed(),
{
    proof {
        lemma_contact_is_well_formed(input@);
    }
    let text = Text::new(input);
    match read_format_a(&text) {
        Some((qso, end)) => Some((text.cut(end, text.len()), qso)),
        None => match read_format_b(&text) {
            Some((qso, end)) => Some((text.cut(end, text.len()), qso)),
            None => None,
        },
    }
}

} // verus!
