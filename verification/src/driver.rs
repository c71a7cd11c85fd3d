//! Reading a log line by line.
//!
//! A line is parted into its tag and its value, the tag is looked up among
//! the tags of the format, and the value is handed to the handler of the
//! tag. A tag that the format does not know is kept with its value. The
//! first line that fails ends the reading, and the failure names that line
//! and its tag.

use crate::error::{CabrilloError, CabrilloErrorKind, CabrilloResult, ErrorView, KindView};
use crate::grammar::{cabrillo_tag, tag_line};
use crate::handlers::{
    cabrillo_ignore_qso, cabrillo_log_addr_fragment, cabrillo_log_callsign,
    cabrillo_log_category_assisted, cabrillo_log_category_band, cabrillo_log_category_mode,
    cabrillo_log_category_operator, cabrillo_log_category_overlay, cabrillo_log_category_power,
    cabrillo_log_category_station, cabrillo_log_category_time, cabrillo_log_category_xmitter,
    cabrillo_log_certificate, cabrillo_log_claimed_score, cabrillo_log_club, cabrillo_log_contest,
    cabrillo_log_created_by, cabrillo_log_debug, cabrillo_log_email, cabrillo_log_end,
    cabrillo_log_grid_locator, cabrillo_log_location, cabrillo_log_name, cabrillo_log_offtime,
    cabrillo_log_operators, cabrillo_log_qso, cabrillo_log_soapbox, cabrillo_log_start,
};
use crate::handlers::{
    address_effect, callsign_effect, category_assisted_effect, category_band_effect,
    category_mode_effect, category_operator_effect, category_overlay_effect,
    category_power_effect, category_station_effect, category_time_effect,
    category_transmitter_effect, certificate_effect, claimed_score_effect, club_effect,
    contest_effect, created_by_effect, debug_effect, email_effect, end_effect,
    grid_locator_effect, ignored_qso_effect, location_effect, name_effect, offtime_effect,
    operators_effect, qso_effect, soapbox_effect, start_effect, fulfils, Effect, Handled,
};
use crate::log::{empty_log, CabrilloLog, LogView};
use crate::text::{chars_of, is_text};
use vstd::prelude::*;
use vstd::string::StringExecFns;
use vstd::utf8::{decode_utf8, valid_utf8};

verus! {

/// The tags of the format. The five tags of an address are one: they do
/// the same.
#[derive(Debug, Copy, Clone, PartialEq, Eq, Structural)]
pub enum Tag {
    StartOfLog,
    Callsign,
    Contest,
    CategoryAssisted,
    CategoryBand,
    CategoryMode,
    CategoryOperator,
    CategoryPower,
    CategoryStation,
    CategoryTime,
    CategoryTransmitter,
    CategoryOverlay,
    Certificate,
    ClaimedScore,
    Club,
    CreatedBy,
    Email,
    GridLocator,
    Location,
    Name,
    Address,
    Operators,
    Offtime,
    Soapbox,
    IgnoredQso,
    Qso,
    Debug,
    EndOfLog,
}

/// The tag of the format that is called `name`, if there is one.
pub open spec fn tag_of_name(name: Seq<char>) -> Option<Tag> {
    if name == "START-OF-LOG"@ {
        Some(Tag::StartOfLog)
    } else if name == "CALLSIGN"@ {
        Some(Tag::Callsign)
    } else if name == "CONTEST"@ {
        Some(Tag::Contest)
    } else if name == "CATEGORY-ASSISTED"@ {
        Some(Tag::CategoryAssisted)
    } else if name == "CATEGORY-BAND"@ {
        Some(Tag::CategoryBand)
    } else if name == "CATEGORY-MODE"@ {
        Some(Tag::CategoryMode)
    } else if name == "CATEGORY-OPERATOR"@ {
        Some(Tag::CategoryOperator)
    } else if name == "CATEGORY-POWER"@ {
        Some(Tag::CategoryPower)
    } else if name == "CATEGORY-STATION"@ {
        Some(Tag::CategoryStation)
    } else if name == "CATEGORY-TIME"@ {
        Some(Tag::CategoryTime)
    } else if name == "CATEGORY-TRANSMITTER"@ {
        Some(Tag::CategoryTransmitter)
    } else if name == "CATEGORY-OVERLAY"@ {
        Some(Tag::CategoryOverlay)
    } else if name == "CERTIFICATE"@ {
        Some(Tag::Certificate)
    } else if name == "CLAIMED-SCORE"@ {
        Some(Tag::ClaimedScore)
    } else if name == "CLUB"@ {
        Some(Tag::Club)
    } else if name == "CREATED-BY"@ {
        Some(Tag::CreatedBy)
    } else if name == "EMAIL"@ {
        Some(Tag::Email)
    } else if name == "GRID-LOCATOR"@ {
        Some(Tag::GridLocator)
    } else if name == "LOCATION"@ {
        Some(Tag::Location)
    } else if name == "NAME"@ {
        Some(Tag::Name)
    } else if name == "ADDRESS"@ {
        Some(Tag::Address)
    } else if name == "ADDRESS-CITY"@ {
        Some(Tag::Address)
    } else if name == "ADDRESS-STATE-PROVINCE"@ {
        Some(Tag::Address)
    } else if name == "ADDRESS-POSTALCODE"@ {
        Some(Tag::Address)
    } else if name == "ADDRESS-COUNTRY"@ {
        Some(Tag::Address)
    } else if name == "OPERATORS"@ {
        Some(Tag::Operators)
    } else if name == "OFFTIME"@ {
        Some(Tag::Offtime)
    } else if name == "SOAPBOX"@ {
        Some(Tag::Soapbox)
    } else if name == "X-QSO"@ {
        Some(Tag::IgnoredQso)
    } else if name == "QSO"@ {
        Some(Tag::Qso)
    } else if name == "DEBUG"@ {
        Some(Tag::Debug)
    } else if name == "END-OF-LOG"@ {
        Some(Tag::EndOfLog)
    } else {
        None
    }
}

/// Looks a tag up by its name.
pub fn cabrillo_known_tag(name: &str) -> (tag: Option<Tag>)
    ensures
        tag == tag_of_name(name@),
{
    let chars = chars_of(name);
    let name = chars.as_slice();
    if is_text(name, "START-OF-LOG") {
        Some(Tag::StartOfLog)
    } else if is_text(name, "CALLSIGN") {
        Some(Tag::Callsign)
    } else if is_text(name, "CONTEST") {
        Some(Tag::Contest)
    } else if is_text(name, "CATEGORY-ASSISTED") {
        Some(Tag::CategoryAssisted)
    } else if is_text(name, "CATEGORY-BAND") {
        Some(Tag::CategoryBand)
    } else if is_text(name, "CATEGORY-MODE") {
        Some(Tag::CategoryMode)
    } else if is_text(name, "CATEGORY-OPERATOR") {
        Some(Tag::CategoryOperator)
    } else if is_text(name, "CATEGORY-POWER") {
        Some(Tag::CategoryPower)
    } else if is_text(name, "CATEGORY-STATION") {
        Some(Tag::CategoryStation)
    } else if is_text(name, "CATEGORY-TIME") {
        Some(Tag::CategoryTime)
    } else if is_text(name, "CATEGORY-TRANSMITTER") {
        Some(Tag::CategoryTransmitter)
    } else if is_text(name, "CATEGORY-OVERLAY") {
        Some(Tag::CategoryOverlay)
    } else if is_text(name, "CERTIFICATE") {
        Some(Tag::Certificate)
    } else if is_text(name, "CLAIMED-SCORE") {
        Some(Tag::ClaimedScore)
    } else if is_text(name, "CLUB") {
        Some(Tag::Club)
    } else if is_text(name, "CREATED-BY") {
        Some(Tag::CreatedBy)
    } else if is_text(name, "EMAIL") {
        Some(Tag::Email)
    } else if is_text(name, "GRID-LOCATOR") {
        Some(Tag::GridLocator)
    } else if is_text(name, "LOCATION") {
        Some(Tag::Location)
    } else if is_text(name, "NAME") {
        Some(Tag::Name)
    } else if is_text(name, "ADDRESS") {
        Some(Tag::Address)
    } else if is_text(name, "ADDRESS-CITY") {
        Some(Tag::Address)
    } else if is_text(name, "ADDRESS-STATE-PROVINCE") {
        Some(Tag::Address)
    } else if is_text(name, "ADDRESS-POSTALCODE") {
        Some(Tag::Address)
    } else if is_text(name, "ADDRESS-COUNTRY") {
        Some(Tag::Address)
    } else if is_text(name, "OPERATORS") {
        Some(Tag::Operators)
    } else if is_text(name, "OFFTIME") {
        Some(Tag::Offtime)
    } else if is_text(name, "SOAPBOX") {
        Some(Tag::Soapbox)
    } else if is_text(name, "X-QSO") {
        Some(Tag::IgnoredQso)
    } else if is_text(name, "QSO") {
        Some(Tag::Qso)
    } else if is_text(name, "DEBUG") {
        Some(Tag::Debug)
    } else if is_text(name, "END-OF-LOG") {
        Some(Tag::EndOfLog)
    } else {
        None
    }
}

/// What the value `value` of the tag `tag` makes of a log, or the sentence
/// with which it is turned down.
pub open spec fn handler_effect(tag: Tag, log: LogView, value: Seq<char>) -> Effect {
    match tag {
        Tag::StartOfLog => start_effect(log, value),
        Tag::Callsign => callsign_effect(log, value),
        Tag::Contest => contest_effect(log, value),
        Tag::CategoryAssisted => category_assisted_effect(log, value),
        Tag::CategoryBand => category_band_effect(log, value),
        Tag::CategoryMode => category_mode_effect(log, value),
        Tag::CategoryOperator => category_operator_effect(log, value),
        Tag::CategoryPower => category_power_effect(log, value),
        Tag::CategoryStation => category_station_effect(log, value),
        Tag::CategoryTime => category_time_effect(log, value),
        Tag::CategoryTransmitter => category_transmitter_effect(log, value),
        Tag::CategoryOverlay => category_overlay_effect(log, value),
        Tag::Certificate => certificate_effect(log, value),
        Tag::ClaimedScore => claimed_score_effect(log, value),
        Tag::Club => club_effect(log, value),
        Tag::CreatedBy => created_by_effect(log, value),
        Tag::Email => email_effect(log, value),
        Tag::GridLocator => grid_locator_effect(log, value),
        Tag::Location => location_effect(log, value),
        Tag::Name => name_effect(log, value),
        Tag::Address => address_effect(log, value),
        Tag::Operators => operators_effect(log, value),
        Tag::Offtime => offtime_effect(log, value),
        Tag::Soapbox => soapbox_effect(log, value),
        Tag::IgnoredQso => ignored_qso_effect(log, value),
        Tag::Qso => qso_effect(log, value),
        Tag::Debug => debug_effect(log, value),
        Tag::EndOfLog => end_effect(log, value),
    }
}

/// Hands the value `input` to the handler of `tag`.
pub fn cabrillo_handle(tag: Tag, input: &str, log: &mut CabrilloLog) -> (result: Handled)
    ensures
        fulfils(handler_effect(tag, old(log)@, input@), old(log)@, result, final(log)@),
        old(log)@.is_well_formed() ==> final(log)@.is_well_formed(),
{
    match tag {
        Tag::StartOfLog => cabrillo_log_start(input, log),
        Tag::Callsign => cabrillo_log_callsign(input, log),
        Tag::Contest => cabrillo_log_contest(input, log),
        Tag::CategoryAssisted => cabrillo_log_category_assisted(input, log),
        Tag::CategoryBand => cabrillo_log_category_band(input, log),
        Tag::CategoryMode => cabrillo_log_category_mode(input, log),
        Tag::CategoryOperator => cabrillo_log_category_operator(input, log),
        Tag::CategoryPower => cabrillo_log_category_power(input, log),
        Tag::CategoryStation => cabrillo_log_category_station(input, log),
        Tag::CategoryTime => cabrillo_log_category_time(input, log),
        Tag::CategoryTransmitter => cabrillo_log_category_xmitter(input, log),
        Tag::CategoryOverlay => cabrillo_log_category_overlay(input, log),
        Tag::Certificate => cabrillo_log_certificate(input, log),
        Tag::ClaimedScore => cabrillo_log_claimed_score(input, log),
        Tag::Club => cabrillo_log_club(input, log),
        Tag::CreatedBy => cabrillo_log_created_by(input, log),
        Tag::Email => cabrillo_log_email(input, log),
        Tag::GridLocator => cabrillo_log_grid_locator(input, log),
        Tag::Location => cabrillo_log_location(input, log),
        Tag::Name => cabrillo_log_name(input, log),
        Tag::Address => cabrillo_log_addr_fragment(input, log),
        Tag::Operators => cabrillo_log_operators(input, log),
        Tag::Offtime => cabrillo_log_offtime(input, log),
        Tag::Soapbox => cabrillo_log_soapbox(input, log),
        Tag::IgnoredQso => cabrillo_ignore_qso(input, log),
        Tag::Qso => cabrillo_log_qso(input, log),
        Tag::Debug => cabrillo_log_debug(input, log),
        Tag::EndOfLog => cabrillo_log_end(input, log),
    }
}

/// What the line `name: value` makes of a log, or the sentence with which
/// it is turned down. A tag of the format does what its handler says; any
/// other name is kept with its value, in place of the value that it had.
pub open spec fn tag_effect(log: LogView, name: Seq<char>, value: Seq<char>) -> Effect {
    match tag_of_name(name) {
        Some(tag) => handler_effect(tag, log, value),
        None => Ok(LogView { other_tags: log.other_tags.insert(name, value), ..log }),
    }
}

/// What reading makes of a log, or the failure that ends it.
pub type Outcome = Result<LogView, ErrorView>;

/// A parse error with the sentence `detail`, in tag `tag` on line `line`.
pub open spec fn parse_error(tag: Seq<char>, line: nat, detail: Seq<char>) -> ErrorView {
    ErrorView { tag, line, kind: KindView::ParseError(detail) }
}

/// What the value `value` of the tag called `name` makes of a log, on line
/// `line_no`: a value that is turned down fails with the tag and the line.
pub open spec fn tag_outcome(
    log: LogView,
    line_no: nat,
    name: Seq<char>,
    value: Seq<char>,
) -> Outcome {
    match tag_effect(log, name, value) {
        Ok(after) => Ok(after),
        Err(detail) => Err(parse_error(name, line_no, detail)),
    }
}

/// What line `line_no`, with the text `line`, makes of a log. An empty
/// line changes nothing. A line that cannot be parted into a tag and a
/// value fails with an empty tag.
pub open spec fn line_effect(log: LogView, line_no: nat, line: Seq<char>) -> Outcome {
    if line.len() == 0 {
        Ok(log)
    } else {
        match tag_line(line) {
            Some(parted) => tag_outcome(log, line_no, parted.tag, parted.value),
            None => Err(parse_error(Seq::empty(), line_no, "malformed line"@)),
        }
    }
}

/// The texts of a sequence of lines.
pub open spec fn line_texts(lines: Seq<&str>) -> Seq<Seq<char>> {
    lines.map_values(|line: &str| line@)
}

/// What the lines of `lines` from line `from` on make of a log. The lines
/// are read in order, each as `line_effect` says, the first of them being
/// line 0; the first line that fails ends the reading.
pub open spec fn lines_effect(log: LogView, lines: Seq<Seq<char>>, from: int) -> Outcome
    decreases lines.len() - from,
{
    if 0 <= from < lines.len() {
        match line_effect(log, from as nat, lines[from]) {
            Ok(after) => lines_effect(after, lines, from + 1),
            Err(error) => Err(error),
        }
    } else {
        Ok(log)
    }
}

/// Where the line that starts at `from` ends: at the next line feed, or at
/// the end of `bytes`.
pub open spec fn line_end(bytes: Seq<u8>, from: int) -> int
    decreases bytes.len() - from,
{
    if 0 <= from < bytes.len() && bytes[from] != 10 {
        line_end(bytes, from + 1)
    } else {
        from
    }
}

/// A line ends at or behind its start, inside the bytes.
pub proof fn lemma_line_end(bytes: Seq<u8>, from: int)
    requires
        0 <= from <= bytes.len(),
    ensures
        from <= line_end(bytes, from) <= bytes.len(),
    decreases bytes.len() - from,
{
    if from < bytes.len() && bytes[from] != 10 {
        lemma_line_end(bytes, from + 1);
    }
}

/// What the lines of `bytes` from position `from` on make of a log, the
/// line at `from` being line `line_no`. Line feeds part the lines; what
/// stands behind the last line feed is a line too, though it be empty. A
/// line that is not valid UTF-8 fails with an I/O error and an empty tag.
pub open spec fn buffer_effect(log: LogView, bytes: Seq<u8>, from: int, line_no: nat) -> Outcome
    decreases bytes.len() - from,
{
    let end = line_end(bytes, from);
    let line = bytes.subrange(from, end);
    if !(0 <= from <= bytes.len()) {
        Ok(log)
    } else if !valid_utf8(line) {
        Err(
            ErrorView {
                tag: Seq::empty(),
                line: line_no,
                kind: KindView::IoError("invalid UTF-8"@),
            },
        )
    } else {
        match line_effect(log, line_no, decode_utf8(line)) {
            Ok(after) => if end < bytes.len() {
                proof {
                    lemma_line_end(bytes, from);
                }
                buffer_effect(after, bytes, end + 1, line_no + 1)
            } else {
                Ok(after)
            },
            Err(error) => Err(error),
        }
    }
}

/// Whether a reader did what `outcome` says: it changed the log `before`
/// into the log of the outcome and returned `Ok`, or it left the log as it
/// was and returned the failure of the outcome.
pub open spec fn reads(
    outcome: Outcome,
    before: LogView,
    result: CabrilloResult<()>,
    after: LogView,
) -> bool {
    match outcome {
        Ok(log) => result is Ok && after == log,
        Err(error) => result matches Err(e) && e@ == error && after == before,
    }
}

/// `std::str::Utf8Error`, which `std::str::from_utf8` fails with. Nothing
/// is read from it.
#[verifier::external_type_specification]
#[verifier::external_body]
pub struct ExUtf8Error(std::str::Utf8Error);

/// `std::str::from_utf8`.
///
/// Trusted: it returns `Ok` exactly on bytes that are valid UTF-8, with the
/// text that they encode.
pub assume_specification[ std::str::from_utf8 ](bytes: &[u8]) -> (text: Result<
    &str,
    std::str::Utf8Error,
>)
    ensures
        text is Ok <==> valid_utf8(bytes@),
        text matches Ok(t) ==> t@ == decode_utf8(bytes@),
;

impl CabrilloLog {
    /// Reads the value `value` of the tag called `tag`, which line
    /// `line_no` holds.
    pub fn parse_tag(&mut self, line_no: usize, tag: &str, value: &str) -> (result: CabrilloResult<
        (),
    >)
        ensures
            reads(
                tag_outcome(old(self)@, line_no as nat, tag@, value@),
                old(self)@,
                result,
                final(self)@,
            ),
            old(self)@.is_well_formed() ==> final(self)@.is_well_formed(),
    {
        let handled = match cabrillo_known_tag(tag) {
            Some(known) => cabrillo_handle(known, value, self),
            None => {
                self.set_other_tag(tag, value);
                Ok(())
            },
        };
        match handled {
            Ok(()) => Ok(()),
            Err(kind) => Err(CabrilloError::new(tag, line_no, kind)),
        }
    }

    /// Reads line `line_no` of a log, with the text `line`.
    pub fn parse_line(&mut self, line_no: usize, line: &str) -> (result: CabrilloResult<()>)
        ensures
            reads(line_effect(old(self)@, line_no as nat, line@), old(self)@, result, final(self)@),
            old(self)@.is_well_formed() ==> final(self)@.is_well_formed(),
    {
        if line.is_empty() {
            return Ok(());
        }
        match cabrillo_tag(line) {
            Some((_, (tag, value))) => self.parse_tag(line_no, tag, value),
            None => {
                proof {
                    reveal_strlit("");
                    assert(""@ =~= Seq::<char>::empty());
                }
                Err(
                    CabrilloError::new(
                        "",
                        line_no,
                        CabrilloErrorKind::parse_error("malformed line"),
                    ),
                )
            },
        }
    }

    /// Reads a log from its lines.
    pub fn from_lines(lines: &[&str]) -> (result: CabrilloResult<CabrilloLog>)
        ensures
            match lines_effect(empty_log(), line_texts(lines@), 0) {
                Ok(log) => result matches Ok(l) && l@ == log,
                Err(error) => result matches Err(e) && e@ == error,
            },
            result matches Ok(l) ==> l@.is_well_formed(),
    {
        let mut log = CabrilloLog::new();
        let mut line_no: usize = 0;
        while line_no < lines.len()
            invariant
                line_no <= lines@.len(),
                log@.is_well_formed(),
                lines_effect(empty_log(), line_texts(lines@), 0) == lines_effect(
                    log@,
                    line_texts(lines@),
                    line_no as int,
                ),
            decreases lines@.len() - line_no,
        {
            match log.parse_line(line_no, lines[line_no]) {
                Ok(()) => {},
                Err(error) => {
                    return Err(error);
                },
            }
            line_no = line_no + 1;
        }
        Ok(log)
    }

    /// Reads a log from the bytes of a file.
    pub fn from_buffer(buf: &[u8]) -> (result: CabrilloResult<CabrilloLog>)
        ensures
            match buffer_effect(empty_log(), buf@, 0, 0) {
                Ok(log) => result matches Ok(l) && l@ == log,
                Err(error) => result matches Err(e) && e@ == error,
            },
            result matches Ok(l) ==> l@.is_well_formed(),
    {
        let len = buf.len();
        let mut log = CabrilloLog::new();
        let mut from: usize = 0;
        let mut line_no: usize = 0;
        loop
            invariant
                len == buf@.len(),
                log@.is_well_formed(),
                line_no <= from <= len,
                buffer_effect(empty_log(), buf@, 0, 0) == buffer_effect(
                    log@,
                    buf@,
                    from as int,
                    line_no as nat,
                ),
            decreases len - from,
        {
            let mut end: usize = from;
            while end < len && buf[end] != 10
                invariant
                    len == buf@.len(),
                    from <= end <= len,
                    line_end(buf@, from as int) == line_end(buf@, end as int),
                decreases len - end,
            {
                end = end + 1;
            }
            match std::str::from_utf8(&buf[from..end]) {
                Ok(line) => {
                    match log.parse_line(line_no, line) {
                        Ok(()) => {},
                        Err(error) => {
                            return Err(error);
                        },
                    }
                },
                Err(_) => {
                    proof {
                        reveal_strlit("");
                        assert(""@ =~= Seq::<char>::empty());
                    }
                    return Err(
                        CabrilloError::new(
                            "",
                            line_no,
                            CabrilloErrorKind::IoError(String::from_str("invalid UTF-8")),
                        ),
                    );
                },
            }
            if end >= len {
                return Ok(log);
            }
            from = end + 1;
            line_no = line_no + 1;
        }
    }
}

} // verus!
