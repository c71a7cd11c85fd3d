//! What each tag of the format does to the log.
//!
//! For each tag a spec function says what a value of it makes of a log, or
//! with which sentence it is turned down, and a handler does so: it reads
//! the value and, if the value is good, changes the log. A value that is
//! turned down leaves the log as it was.

use crate::category::{
    assisted_of_token, band_of_token, cabrillo_assisted, cabrillo_band, cabrillo_certificate,
    cabrillo_mode, cabrillo_operator_category, cabrillo_overlay_category,
    cabrillo_power_category, cabrillo_station_category, cabrillo_time_category,
    cabrillo_transmitter_category, cabrillo_version, certificate_of_token, mode_of_token,
    operator_category_of_token, overlay_category_of_token, power_category_of_token,
    station_category_of_token, time_category_of_token, transmitter_category_of_token,
    version_of,
};
use crate::error::{CabrilloErrorKind, KindView};
use crate::grammar::{
    cabrillo_callsign, cabrillo_email, cabrillo_grid_locator, cabrillo_offtime,
    cabrillo_operators, callsign_end, email_end, is_grid_locator, number_at, offtime_at,
    operator_names, scan_number,
};
use crate::laws::{lemma_callsign_in_text, lemma_email_in_text};
use crate::log::{with_line, CabrilloLog, LogView};
use crate::qso::{cabrillo_qso, qso_of};
use crate::text::{trim, trimmed, Text};
use vstd::prelude::*;

verus! {

/// What a value makes of a log, or the sentence with which it is turned
/// down.
pub type Effect = Result<LogView, Seq<char>>;

/// What a handler returns.
pub type Handled = Result<(), CabrilloErrorKind>;

/// Whether a handler did what `effect` says: it changed the log `before`
/// into the log of the effect and returned `Ok`, or it left the log as it
/// was and returned a parse error with the sentence of the effect.
pub open spec fn fulfils(effect: Effect, before: LogView, result: Handled, after: LogView) -> bool {
    match effect {
        Ok(log) => result is Ok && after == log,
        Err(detail) => result matches Err(kind) && kind@ == KindView::ParseError(detail) && after
            == before,
    }
}

/// `START-OF-LOG` declares the version of the format: 2.0 or 3.0.
pub open spec fn start_effect(log: LogView, value: Seq<char>) -> Effect {
    match version_of(value) {
        Some(version) => Ok(LogView { version, ..log }),
        None => Err("unsupported version of the format"@),
    }
}

/// Handles `START-OF-LOG`.
pub fn cabrillo_log_start(input: &str, log: &mut CabrilloLog) -> (result: Handled)
    ensures
        fulfils(start_effect(old(log)@, input@), old(log)@, result, final(log)@),
        old(log)@.is_well_formed() ==> final(log)@.is_well_formed(),
{
    match cabrillo_version(input) {
        Some(version) => {
            log.set_version(version);
            Ok(())
        },
        None => Err(CabrilloErrorKind::parse_error("unsupported version of the format")),
    }
}

/// `CALLSIGN` sets the call sign to the call sign that the value starts with.
pub open spec fn callsign_effect(log: LogView, value: Seq<char>) -> Effect {
    match callsign_end(value, 0) {
        Some(end) => Ok(LogView { callsign: Some(value.subrange(0, end)), ..log }),
        None => Err("malformed call sign"@),
    }
}

/// Handles `CALLSIGN`.
pub fn cabrillo_log_callsign(input: &str, log: &mut CabrilloLog) -> (result: Handled)
    ensures
        fulfils(callsign_effect(old(log)@, input@), old(log)@, result, final(log)@),
        old(log)@.is_well_formed() ==> final(log)@.is_well_formed(),
{
    proof {
        if callsign_end(input@, 0) is Some {
            lemma_callsign_in_text(input@, 0);
        }
    }
    match cabrillo_callsign(input) {
        Some((_, call)) => {
            log.set_callsign(call);
            Ok(())
        },
        None => Err(CabrilloErrorKind::parse_error("malformed call sign")),
    }
}

/// `CONTEST` sets its field to the value without the white space at its ends.
pub open spec fn contest_effect(log: LogView, value: Seq<char>) -> Effect {
    Ok(LogView { contest: Some(trimmed(value)), ..log })
}

/// Handles `CONTEST`.
pub fn cabrillo_log_contest(input: &str, log: &mut CabrilloLog) -> (result: Handled)
    ensures
        fulfils(contest_effect(old(log)@, input@), old(log)@, result, final(log)@),
        old(log)@.is_well_formed() ==> final(log)@.is_well_formed(),
{
    log.set_contest(trim(input));
    Ok(())
}

/// `CATEGORY-ASSISTED` sets its field to what the value, taken as one token,
/// names.
pub open spec fn category_assisted_effect(log: LogView, value: Seq<char>) -> Effect {
    match assisted_of_token(value) {
        Some(found) => Ok(LogView { category_assisted: Some(found), ..log }),
        None => Err("unrecognized value"@),
    }
}

/// Handles `CATEGORY-ASSISTED`.
pub fn cabrillo_log_category_assisted(input: &str, log: &mut CabrilloLog) -> (result: Handled)
    ensures
        fulfils(category_assisted_effect(old(log)@, input@), old(log)@, result, final(log)@),
        old(log)@.is_well_formed() ==> final(log)@.is_well_formed(),
{
    match cabrillo_assisted(input) {
        Some(found) => {
            log.set_category_assisted(Some(found));
            Ok(())
        },
        None => Err(CabrilloErrorKind::parse_error("unrecognized value")),
    }
}

/// `CATEGORY-BAND` sets its field to what the value, taken as one token,
/// names.
pub open spec fn category_band_effect(log: LogView, value: Seq<char>) -> Effect {
    match band_of_token(value) {
        Some(found) => Ok(LogView { category_band: Some(found), ..log }),
        None => Err("unrecognized value"@),
    }
}

/// Handles `CATEGORY-BAND`.
pub fn cabrillo_log_category_band(input: &str, log: &mut CabrilloLog) -> (result: Handled)
    ensures
        fulfils(category_band_effect(old(log)@, input@), old(log)@, result, final(log)@),
        old(log)@.is_well_formed() ==> final(log)@.is_well_formed(),
{
    match cabrillo_band(input) {
        Some(found) => {
            log.set_category_band(Some(found));
            Ok(())
        },
        None => Err(CabrilloErrorKind::parse_error("unrecognized value")),
    }
}

/// `CATEGORY-MODE` sets its field to what the value, taken as one token,
/// names.
pub open spec fn category_mode_effect(log: LogView, value: Seq<char>) -> Effect {
    match mode_of_token(value) {
        Some(found) => Ok(LogView { category_mode: Some(found), ..log }),
        None => Err("unrecognized value"@),
    }
}

/// Handles `CATEGORY-MODE`.
pub fn cabrillo_log_category_mode(input: &str, log: &mut CabrilloLog) -> (result: Handled)
    ensures
        fulfils(category_mode_effect(old(log)@, input@), old(log)@, result, final(log)@),
        old(log)@.is_well_formed() ==> final(log)@.is_well_formed(),
{
    match cabrillo_mode(input) {
        Some(found) => {
            log.set_category_mode(Some(found));
            Ok(())
        },
        None => Err(CabrilloErrorKind::parse_error("unrecognized value")),
    }
}

/// `CATEGORY-OPERATOR` sets its field to what the value, taken as one token,
/// names.
pub open spec fn category_operator_effect(log: LogView, value: Seq<char>) -> Effect {
    match operator_category_of_token(value) {
        Some(found) => Ok(LogView { category_operator: Some(found), ..log }),
        None => Err("unrecognized value"@),
    }
}

/// Handles `CATEGORY-OPERATOR`.
pub fn cabrillo_log_category_operator(input: &str, log: &mut CabrilloLog) -> (result: Handled)
    ensures
        fulfils(category_operator_effect(old(log)@, input@), old(log)@, result, final(log)@),
        old(log)@.is_well_formed() ==> final(log)@.is_well_formed(),
{
    match cabrillo_operator_category(input) {
        Some(found) => {
            log.set_category_operator(Some(found));
            Ok(())
        },
        None => Err(CabrilloErrorKind::parse_error("unrecognized value")),
    }
}

/// `CATEGORY-POWER` sets its field to what the value, taken as one token,
/// names.
pub open spec fn category_power_effect(log: LogView, value: Seq<char>) -> Effect {
    match power_category_of_token(value) {
        Some(found) => Ok(LogView { category_power: Some(found), ..log }),
        None => Err("unrecognized value"@),
    }
}

/// Handles `CATEGORY-POWER`.
pub fn cabrillo_log_category_power(input: &str, log: &mut CabrilloLog) -> (result: Handled)
    ensures
        fulfils(category_power_effect(old(log)@, input@), old(log)@, result, final(log)@),
        old(log)@.is_well_formed() ==> final(log)@.is_well_formed(),
{
    match cabrillo_power_category(input) {
        Some(found) => {
            log.set_category_power(Some(found));
            Ok(())
        },
        None => Err(CabrilloErrorKind::parse_error("unrecognized value")),
    }
}

/// `CATEGORY-STATION` sets its field to what the value, taken as one token,
/// names.
pub open spec fn category_station_effect(log: LogView, value: Seq<char>) -> Effect {
    match station_category_of_token(value) {
        Some(found) => Ok(LogView { category_station: Some(found), ..log }),
        None => Err("unrecognized value"@),
    }
}

/// Handles `CATEGORY-STATION`.
pub fn cabrillo_log_category_station(input: &str, log: &mut CabrilloLog) -> (result: Handled)
    ensures
        fulfils(category_station_effect(old(log)@, input@), old(log)@, result, final(log)@),
        old(log)@.is_well_formed() ==> final(log)@.is_well_formed(),
{
    match cabrillo_station_category(input) {
        Some(found) => {
            log.set_category_station(Some(found));
            Ok(())
        },
        None => Err(CabrilloErrorKind::parse_error("unrecognized value")),
    }
}

/// `CATEGORY-TIME` sets its field to what the value, taken as one token,
/// names.
pub open spec fn category_time_effect(log: LogView, value: Seq<char>) -> Effect {
    match time_category_of_token(value) {
        Some(found) => Ok(LogView { category_time: Some(found), ..log }),
        None => Err("unrecognized value"@),
    }
}

/// Handles `CATEGORY-TIME`.
pub fn cabrillo_log_category_time(input: &str, log: &mut CabrilloLog) -> (result: Handled)
    ensures
        fulfils(category_time_effect(old(log)@, input@), old(log)@, result, final(log)@),
        old(log)@.is_well_formed() ==> final(log)@.is_well_formed(),
{
    match cabrillo_time_category(input) {
        Some(found) => {
            log.set_category_time(Some(found));
            Ok(())
        },
        None => Err(CabrilloErrorKind::parse_error("unrecognized value")),
    }
}

/// `CATEGORY-TRANSMITTER` sets its field to what the value, taken as one
/// token, names.
pub open spec fn category_transmitter_effect(log: LogView, value: Seq<char>) -> Effect {
    match transmitter_category_of_token(value) {
        Some(found) => Ok(LogView { category_transmitter: Some(found), ..log }),
        None => Err("unrecognized value"@),
    }
}

/// Handles `CATEGORY-TRANSMITTER`.
pub fn cabrillo_log_category_xmitter(input: &str, log: &mut CabrilloLog) -> (result: Handled)
    ensures
        fulfils(category_transmitter_effect(old(log)@, input@), old(log)@, result, final(log)@),
        old(log)@.is_well_formed() ==> final(log)@.is_well_formed(),
{
    match cabrillo_transmitter_category(input) {
        Some(found) => {
            log.set_category_transmitter(Some(found));
            Ok(())
        },
        None => Err(CabrilloErrorKind::parse_error("unrecognized value")),
    }
}

/// `CATEGORY-OVERLAY` sets its field to what the value, taken as one token,
/// names.
pub open spec fn category_overlay_effect(log: LogView, value: Seq<char>) -> Effect {
    match overlay_category_of_token(value) {
        Some(found) => Ok(LogView { category_overlay: Some(found), ..log }),
        None => Err("unrecognized value"@),
    }
}

/// Handles `CATEGORY-OVERLAY`.
pub fn cabrillo_log_category_overlay(input: &str, log: &mut CabrilloLog) -> (result: Handled)
    ensures
        fulfils(category_overlay_effect(old(log)@, input@), old(log)@, result, final(log)@),
        old(log)@.is_well_formed() ==> final(log)@.is_well_formed(),
{
    match cabrillo_overlay_category(input) {
        Some(found) => {
            log.set_category_overlay(Some(found));
            Ok(())
        },
        None => Err(CabrilloErrorKind::parse_error("unrecognized value")),
    }
}

/// `CERTIFICATE` sets its field to what the value, taken as one token, names.
pub open spec fn certificate_effect(log: LogView, value: Seq<char>) -> Effect {
    match certificate_of_token(value) {
        Some(found) => Ok(LogView { certificate: Some(found), ..log }),
        None => Err("unrecognized value"@),
    }
}

/// Handles `CERTIFICATE`.
pub fn cabrillo_log_certificate(input: &str, log: &mut CabrilloLog) -> (result: Handled)
    ensures
        fulfils(certificate_effect(old(log)@, input@), old(log)@, result, final(log)@),
        old(log)@.is_well_formed() ==> final(log)@.is_well_formed(),
{
    match cabrillo_certificate(input) {
        Some(found) => {
            log.set_certificate(Some(found));
            Ok(())
        },
        None => Err(CabrilloErrorKind::parse_error("unrecognized value")),
    }
}

/// The score that `value` claims: the number that it starts with, if it
/// starts with one.
pub open spec fn claimed_score_of(value: Seq<char>) -> Option<u32> {
    match number_at(value, 0) {
        Some((score, _)) => Some(score),
        None => None,
    }
}

/// `CLAIMED-SCORE` sets the score to the number that the value starts with. A
/// value that starts with no number is not turned down: it leaves the log
/// without a score.
pub open spec fn claimed_score_effect(log: LogView, value: Seq<char>) -> Effect {
    Ok(LogView { claimed_score: claimed_score_of(value), ..log })
}

/// Handles `CLAIMED-SCORE`.
pub fn cabrillo_log_claimed_score(input: &str, log: &mut CabrilloLog) -> (result: Handled)
    ensures
        fulfils(claimed_score_effect(old(log)@, input@), old(log)@, result, final(log)@),
        old(log)@.is_well_formed() ==> final(log)@.is_well_formed(),
{
    let text = Text::new(input);
    let score = match scan_number(text.chars(), 0) {
        Some((score, _)) => Some(score),
        None => None,
    };
    log.set_claimed_score(score);
    Ok(())
}

/// `CLUB` sets its field to the value without the white space at its ends.
pub open spec fn club_effect(log: LogView, value: Seq<char>) -> Effect {
    Ok(LogView { club: Some(trimmed(value)), ..log })
}

/// Handles `CLUB`.
pub fn cabrillo_log_club(input: &str, log: &mut CabrilloLog) -> (result: Handled)
    ensures
        fulfils(club_effect(old(log)@, input@), old(log)@, result, final(log)@),
        old(log)@.is_well_formed() ==> final(log)@.is_well_formed(),
{
    log.set_club(trim(input));
    Ok(())
}

/// `CREATED-BY` sets its field to the value without the white space at its
/// ends.
pub open spec fn created_by_effect(log: LogView, value: Seq<char>) -> Effect {
    Ok(LogView { created_by: Some(trimmed(value)), ..log })
}

/// Handles `CREATED-BY`.
pub fn cabrillo_log_created_by(input: &str, log: &mut CabrilloLog) -> (result: Handled)
    ensures
        fulfils(created_by_effect(old(log)@, input@), old(log)@, result, final(log)@),
        old(log)@.is_well_formed() ==> final(log)@.is_well_formed(),
{
    log.set_created_by(trim(input));
    Ok(())
}

/// `EMAIL` sets the address to the e-mail address that the value starts with.
pub open spec fn email_effect(log: LogView, value: Seq<char>) -> Effect {
    match email_end(value, 0) {
        Some(end) => Ok(LogView { email: Some(value.subrange(0, end)), ..log }),
        None => Err("malformed e-mail address"@),
    }
}

/// Handles `EMAIL`.
pub fn cabrillo_log_email(input: &str, log: &mut CabrilloLog) -> (result: Handled)
    ensures
        fulfils(email_effect(old(log)@, input@), old(log)@, result, final(log)@),
        old(log)@.is_well_formed() ==> final(log)@.is_well_formed(),
{
    proof {
        if email_end(input@, 0) is Some {
            lemma_email_in_text(input@, 0);
        }
    }
    match cabrillo_email(input) {
        Some((_, address)) => {
            log.set_email(address);
            Ok(())
        },
        None => Err(CabrilloErrorKind::parse_error("malformed e-mail address")),
    }
}

/// `GRID-LOCATOR` sets the locator to the value, which is a grid locator as a
/// whole.
pub open spec fn grid_locator_effect(log: LogView, value: Seq<char>) -> Effect {
    if is_grid_locator(value) {
        Ok(LogView { grid_locator: Some(value), ..log })
    } else {
        Err("malformed grid locator"@)
    }
}

/// Handles `GRID-LOCATOR`.
pub fn cabrillo_log_grid_locator(input: &str, log: &mut CabrilloLog) -> (result: Handled)
    ensures
        fulfils(grid_locator_effect(old(log)@, input@), old(log)@, result, final(log)@),
        old(log)@.is_well_formed() ==> final(log)@.is_well_formed(),
{
    match cabrillo_grid_locator(input) {
        Some((_, locator)) => {
            log.set_grid_locator(locator);
            Ok(())
        },
        None => Err(CabrilloErrorKind::parse_error("malformed grid locator")),
    }
}

/// `LOCATION` sets its field to the value without the white space at its ends.
pub open spec fn location_effect(log: LogView, value: Seq<char>) -> Effect {
    Ok(LogView { location: Some(trimmed(value)), ..log })
}

/// Handles `LOCATION`.
pub fn cabrillo_log_location(input: &str, log: &mut CabrilloLog) -> (result: Handled)
    ensures
        fulfils(location_effect(old(log)@, input@), old(log)@, result, final(log)@),
        old(log)@.is_well_formed() ==> final(log)@.is_well_formed(),
{
    log.set_location(trim(input));
    Ok(())
}

/// `NAME` sets its field to the value without the white space at its ends.
pub open spec fn name_effect(log: LogView, value: Seq<char>) -> Effect {
    Ok(LogView { name: Some(trimmed(value)), ..log })
}

/// Handles `NAME`.
pub fn cabrillo_log_name(input: &str, log: &mut CabrilloLog) -> (result: Handled)
    ensures
        fulfils(name_effect(old(log)@, input@), old(log)@, result, final(log)@),
        old(log)@.is_well_formed() ==> final(log)@.is_well_formed(),
{
    log.set_name(trim(input));
    Ok(())
}

/// `ADDRESS`, `ADDRESS-CITY`, `ADDRESS-STATE-PROVINCE`, `ADDRESS-POSTALCODE`
/// and `ADDRESS-COUNTRY` each add a line to the address: the value without
/// the white space at its ends. What the address held stays, and comes
/// first.
pub open spec fn address_effect(log: LogView, value: Seq<char>) -> Effect {
    Ok(LogView { address: Some(with_line(log.address, trimmed(value))), ..log })
}

/// Handles `ADDRESS` and the four tags for the parts of an address.
pub fn cabrillo_log_addr_fragment(input: &str, log: &mut CabrilloLog) -> (result: Handled)
    ensures
        fulfils(address_effect(old(log)@, input@), old(log)@, result, final(log)@),
        old(log)@.is_well_formed() ==> final(log)@.is_well_formed(),
{
    log.add_address(trim(input));
    Ok(())
}

/// `OPERATORS` adds the operators that the value lists behind those that the
/// log has.
pub open spec fn operators_effect(log: LogView, value: Seq<char>) -> Effect {
    Ok(LogView { operators: log.operators + operator_names(value, 0), ..log })
}

/// Handles `OPERATORS`.
pub fn cabrillo_log_operators(input: &str, log: &mut CabrilloLog) -> (result: Handled)
    ensures
        fulfils(operators_effect(old(log)@, input@), old(log)@, result, final(log)@),
        old(log)@.is_well_formed() ==> final(log)@.is_well_formed(),
{
    log.add_operators(cabrillo_operators(input));
    Ok(())
}

/// `OFFTIME` adds the off time that the value starts with behind those that
/// the log has.
pub open spec fn offtime_effect(log: LogView, value: Seq<char>) -> Effect {
    match offtime_at(value, 0) {
        Some((offtime, _)) => Ok(LogView { offtimes: log.offtimes.push(offtime), ..log }),
        None => Err("malformed date-time"@),
    }
}

/// Handles `OFFTIME`.
pub fn cabrillo_log_offtime(input: &str, log: &mut CabrilloLog) -> (result: Handled)
    ensures
        fulfils(offtime_effect(old(log)@, input@), old(log)@, result, final(log)@),
        old(log)@.is_well_formed() ==> final(log)@.is_well_formed(),
{
    match cabrillo_offtime(input) {
        Some((_, offtime)) => {
            log.add_offtime(offtime);
            Ok(())
        },
        None => Err(CabrilloErrorKind::parse_error("malformed date-time")),
    }
}

/// `SOAPBOX` adds a line to the remarks: the value without the white space at
/// its ends.
pub open spec fn soapbox_effect(log: LogView, value: Seq<char>) -> Effect {
    Ok(LogView { soapbox: Some(with_line(log.soapbox, trimmed(value))), ..log })
}

/// Handles `SOAPBOX`.
pub fn cabrillo_log_soapbox(input: &str, log: &mut CabrilloLog) -> (result: Handled)
    ensures
        fulfils(soapbox_effect(old(log)@, input@), old(log)@, result, final(log)@),
        old(log)@.is_well_formed() ==> final(log)@.is_well_formed(),
{
    log.add_soapbox(trim(input));
    Ok(())
}

/// `QSO` adds the contact that the value writes behind the contacts of the
/// log, and leaves the contacts to be left out alone.
pub open spec fn qso_effect(log: LogView, value: Seq<char>) -> Effect {
    match qso_of(value) {
        Some((qso, _)) => Ok(LogView { entries: log.entries.push(qso), ..log }),
        None => Err("malformed QSO"@),
    }
}

/// Handles `QSO`.
pub fn cabrillo_log_qso(input: &str, log: &mut CabrilloLog) -> (result: Handled)
    ensures
        fulfils(qso_effect(old(log)@, input@), old(log)@, result, final(log)@),
        old(log)@.is_well_formed() ==> final(log)@.is_well_formed(),
{
    match cabrillo_qso(input) {
        Some((_, qso)) => {
            log.add_entry(qso);
            Ok(())
        },
        None => Err(CabrilloErrorKind::parse_error("malformed QSO")),
    }
}

/// `X-QSO` adds the contact that the value writes behind the contacts to be
/// left out, and leaves the contacts of the log alone.
pub open spec fn ignored_qso_effect(log: LogView, value: Seq<char>) -> Effect {
    match qso_of(value) {
        Some((qso, _)) => Ok(LogView { ignored_entries: log.ignored_entries.push(qso), ..log }),
        None => Err("malformed X-QSO"@),
    }
}

/// Handles `X-QSO`.
pub fn cabrillo_ignore_qso(input: &str, log: &mut CabrilloLog) -> (result: Handled)
    ensures
        fulfils(ignored_qso_effect(old(log)@, input@), old(log)@, result, final(log)@),
        old(log)@.is_well_formed() ==> final(log)@.is_well_formed(),
{
    match cabrillo_qso(input) {
        Some((_, qso)) => {
            log.add_ignored_entry(qso);
            Ok(())
        },
        None => Err(CabrilloErrorKind::parse_error("malformed X-QSO")),
    }
}

/// `DEBUG` marks the log as a trial, whatever its value.
pub open spec fn debug_effect(log: LogView, value: Seq<char>) -> Effect {
    Ok(LogView { debug: true, ..log })
}

/// Handles `DEBUG`.
pub fn cabrillo_log_debug(input: &str, log: &mut CabrilloLog) -> (result: Handled)
    ensures
        fulfils(debug_effect(old(log)@, input@), old(log)@, result, final(log)@),
        old(log)@.is_well_formed() ==> final(log)@.is_well_formed(),
{
    log.set_debug();
    Ok(())
}

/// `END-OF-LOG` changes nothing.
pub open spec fn end_effect(log: LogView, value: Seq<char>) -> Effect {
    Ok(log)
}

/// Handles `END-OF-LOG`.
pub fn cabrillo_log_end(input: &str, log: &mut CabrilloLog) -> (result: Handled)
    ensures
        fulfils(end_effect(old(log)@, input@), old(log)@, result, final(log)@),
        old(log)@.is_well_formed() ==> final(log)@.is_well_formed(),
{
    Ok(())
}

} // verus!
