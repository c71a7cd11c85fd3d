//! The closed sets of values that a log chooses from, and the tokens that
//! name them.
//!
//! A value is named by a token as a whole: a token with anything before or
//! after it names nothing.

use crate::frequency::Band;
use crate::text::{at_text, chars_of, has_text, is_text};
use vstd::prelude::*;

verus! {

/// How a contact was made, or the mode that a log is entered for.
#[derive(Debug, Copy, Clone, PartialEq, Eq, Structural)]
pub enum Mode {
    Cw,
    Phone,
    Fm,
    Rtty,
    Digital,
    Mixed,
}

/// The value of `Mode` that `token` names, if it names one.
pub open spec fn mode_of_token(token: Seq<char>) -> Option<Mode> {
    if token == "CW"@ {
        Some(Mode::Cw)
    } else if token == "PH"@ {
        Some(Mode::Phone)
    } else if token == "SSB"@ {
        Some(Mode::Phone)
    } else if token == "FM"@ {
        Some(Mode::Fm)
    } else if token == "RY"@ {
        Some(Mode::Rtty)
    } else if token == "RTTY"@ {
        Some(Mode::Rtty)
    } else if token == "DG"@ {
        Some(Mode::Digital)
    } else if token == "DIGI"@ {
        Some(Mode::Digital)
    } else if token == "MIXED"@ {
        Some(Mode::Mixed)
    } else {
        None
    }
}

/// The mode that the token `input` names.
pub fn cabrillo_mode(input: &str) -> (value: Option<Mode>)
    ensures
        value == mode_of_token(input@),
{
    let chars = chars_of(input);
    let token = chars.as_slice();
    if is_text(token, "CW") {
        Some(Mode::Cw)
    } else if is_text(token, "PH") {
        Some(Mode::Phone)
    } else if is_text(token, "SSB") {
        Some(Mode::Phone)
    } else if is_text(token, "FM") {
        Some(Mode::Fm)
    } else if is_text(token, "RY") {
        Some(Mode::Rtty)
    } else if is_text(token, "RTTY") {
        Some(Mode::Rtty)
    } else if is_text(token, "DG") {
        Some(Mode::Digital)
    } else if is_text(token, "DIGI") {
        Some(Mode::Digital)
    } else if is_text(token, "MIXED") {
        Some(Mode::Mixed)
    } else {
        None
    }
}

/// How many operators worked the station.
#[derive(Debug, Copy, Clone, PartialEq, Eq, Structural)]
pub enum OperatorCategory {
    SingleOp,
    MultiOp,
    CheckLog,
}

/// The value of `OperatorCategory` that `token` names, if it names one.
pub open spec fn operator_category_of_token(token: Seq<char>) -> Option<OperatorCategory> {
    if token == "SINGLE-OP"@ {
        Some(OperatorCategory::SingleOp)
    } else if token == "MULTI-OP"@ {
        Some(OperatorCategory::MultiOp)
    } else if token == "CHECKLOG"@ {
        Some(OperatorCategory::CheckLog)
    } else {
        None
    }
}

/// The operator category that the token `input` names.
pub fn cabrillo_operator_category(input: &str) -> (value: Option<OperatorCategory>)
    ensures
        value == operator_category_of_token(input@),
{
    let chars = chars_of(input);
    let token = chars.as_slice();
    if is_text(token, "SINGLE-OP") {
        Some(OperatorCategory::SingleOp)
    } else if is_text(token, "MULTI-OP") {
        Some(OperatorCategory::MultiOp)
    } else if is_text(token, "CHECKLOG") {
        Some(OperatorCategory::CheckLog)
    } else {
        None
    }
}

/// The power that the station sent with.
#[derive(Debug, Copy, Clone, PartialEq, Eq, Structural)]
pub enum PowerCategory {
    High,
    Low,
    Qrp,
}

/// The value of `PowerCategory` that `token` names, if it names one.
pub open spec fn power_category_of_token(token: Seq<char>) -> Option<PowerCategory> {
    if token == "HIGH"@ {
        Some(PowerCategory::High)
    } else if token == "LOW"@ {
        Some(PowerCategory::Low)
    } else if token == "QRP"@ {
        Some(PowerCategory::Qrp)
    } else {
        None
    }
}

/// The power category that the token `input` names.
pub fn cabrillo_power_category(input: &str) -> (value: Option<PowerCategory>)
    ensures
        value == power_category_of_token(input@),
{
    let chars = chars_of(input);
    let token = chars.as_slice();
    if is_text(token, "HIGH") {
        Some(PowerCategory::High)
    } else if is_text(token, "LOW") {
        Some(PowerCategory::Low)
    } else if is_text(token, "QRP") {
        Some(PowerCategory::Qrp)
    } else {
        None
    }
}

/// What kind of station was worked from.
#[derive(Debug, Copy, Clone, PartialEq, Eq, Structural)]
pub enum StationCategory {
    Fixed,
    Mobile,
    Portable,
    Rover,
    RoverLimited,
    RoverUnlimited,
    Expedition,
    Hq,
    School,
}

/// The value of `StationCategory` that `token` names, if it names one.
pub open spec fn station_category_of_token(token: Seq<char>) -> Option<StationCategory> {
    if token == "FIXED"@ {
        Some(StationCategory::Fixed)
    } else if token == "MOBILE"@ {
        Some(StationCategory::Mobile)
    } else if token == "PORTABLE"@ {
        Some(StationCategory::Portable)
    } else if token == "ROVER"@ {
        Some(StationCategory::Rover)
    } else if token == "ROVER-LIMITED"@ {
        Some(StationCategory::RoverLimited)
    } else if token == "ROVER-UNLIMITED"@ {
        Some(StationCategory::RoverUnlimited)
    } else if token == "EXPEDITION"@ {
        Some(StationCategory::Expedition)
    } else if token == "HQ"@ {
        Some(StationCategory::Hq)
    } else if token == "SCHOOL"@ {
        Some(StationCategory::School)
    } else {
        None
    }
}

/// The station category that the token `input` names.
pub fn cabrillo_station_category(input: &str) -> (value: Option<StationCategory>)
    ensures
        value == station_category_of_token(input@),
{
    let chars = chars_of(input);
    let token = chars.as_slice();
    if is_text(token, "FIXED") {
        Some(StationCategory::Fixed)
    } else if is_text(token, "MOBILE") {
        Some(StationCategory::Mobile)
    } else if is_text(token, "PORTABLE") {
        Some(StationCategory::Portable)
    } else if is_text(token, "ROVER") {
        Some(StationCategory::Rover)
    } else if is_text(token, "ROVER-LIMITED") {
        Some(StationCategory::RoverLimited)
    } else if is_text(token, "ROVER-UNLIMITED") {
        Some(StationCategory::RoverUnlimited)
    } else if is_text(token, "EXPEDITION") {
        Some(StationCategory::Expedition)
    } else if is_text(token, "HQ") {
        Some(StationCategory::Hq)
    } else if is_text(token, "SCHOOL") {
        Some(StationCategory::School)
    } else {
        None
    }
}

/// For how long the station was worked.
#[derive(Debug, Copy, Clone, PartialEq, Eq, Structural)]
pub enum TimeCategory {
    Hours6,
    Hours12,
    Hours24,
}

/// The value of `TimeCategory` that `token` names, if it names one.
pub open spec fn time_category_of_token(token: Seq<char>) -> Option<TimeCategory> {
    if token == "6-HOURS"@ {
        Some(TimeCategory::Hours6)
    } else if token == "12-HOURS"@ {
        Some(TimeCategory::Hours12)
    } else if token == "24-HOURS"@ {
        Some(TimeCategory::Hours24)
    } else {
        None
    }
}

/// The time category that the token `input` names.
pub fn cabrillo_time_category(input: &str) -> (value: Option<TimeCategory>)
    ensures
        value == time_category_of_token(input@),
{
    let chars = chars_of(input);
    let token = chars.as_slice();
    if is_text(token, "6-HOURS") {
        Some(TimeCategory::Hours6)
    } else if is_text(token, "12-HOURS") {
        Some(TimeCategory::Hours12)
    } else if is_text(token, "24-HOURS") {
        Some(TimeCategory::Hours24)
    } else {
        None
    }
}

/// How many transmitters the station ran.
#[derive(Debug, Copy, Clone, PartialEq, Eq, Structural)]
pub enum TransmitterCategory {
    One,
    Two,
    Limited,
    Unlimited,
    Swl,
}

/// The value of `TransmitterCategory` that `token` names, if it names one.
pub open spec fn transmitter_category_of_token(token: Seq<char>) -> Option<TransmitterCategory> {
    if token == "ONE"@ {
        Some(TransmitterCategory::One)
    } else if token == "TWO"@ {
        Some(TransmitterCategory::Two)
    } else if token == "LIMITED"@ {
        Some(TransmitterCategory::Limited)
    } else if token == "UNLIMITED"@ {
        Some(TransmitterCategory::Unlimited)
    } else if token == "SWL"@ {
        Some(TransmitterCategory::Swl)
    } else {
        None
    }
}

/// The transmitter category that the token `input` names.
pub fn cabrillo_transmitter_category(input: &str) -> (value: Option<TransmitterCategory>)
    ensures
        value == transmitter_category_of_token(input@),
{
    let chars = chars_of(input);
    let token = chars.as_slice();
    if is_text(token, "ONE") {
        Some(TransmitterCategory::One)
    } else if is_text(token, "TWO") {
        Some(TransmitterCategory::Two)
    } else if is_text(token, "LIMITED") {
        Some(TransmitterCategory::Limited)
    } else if is_text(token, "UNLIMITED") {
        Some(TransmitterCategory::Unlimited)
    } else if is_text(token, "SWL") {
        Some(TransmitterCategory::Swl)
    } else {
        None
    }
}

/// The overlay that a log is entered for.
#[derive(Debug, Copy, Clone, PartialEq, Eq, Structural)]
pub enum OverlayCategory {
    Classic,
    Rookie,
    TbWires,
    NoviceTech,
    Over50,
}

/// The value of `OverlayCategory` that `token` names, if it names one.
pub open spec fn overlay_category_of_token(token: Seq<char>) -> Option<OverlayCategory> {
    if token == "CLASSIC"@ {
        Some(OverlayCategory::Classic)
    } else if token == "ROOKIE"@ {
        Some(OverlayCategory::Rookie)
    } else if token == "TB-WIRES"@ {
        Some(OverlayCategory::TbWires)
    } else if token == "NOVICE-TECH"@ {
        Some(OverlayCategory::NoviceTech)
    } else if token == "OVER-50"@ {
        Some(OverlayCategory::Over50)
    } else {
        None
    }
}

/// The overlay category that the token `input` names.
pub fn cabrillo_overlay_category(input: &str) -> (value: Option<OverlayCategory>)
    ensures
        value == overlay_category_of_token(input@),
{
    let chars = chars_of(input);
    let token = chars.as_slice();
    if is_text(token, "CLASSIC") {
        Some(OverlayCategory::Classic)
    } else if is_text(token, "ROOKIE") {
        Some(OverlayCategory::Rookie)
    } else if is_text(token, "TB-WIRES") {
        Some(OverlayCategory::TbWires)
    } else if is_text(token, "NOVICE-TECH") {
        Some(OverlayCategory::NoviceTech)
    } else if is_text(token, "OVER-50") {
        Some(OverlayCategory::Over50)
    } else {
        None
    }
}

/// The band, or group of bands, that `token` names, if it names one.
pub open spec fn band_of_token(token: Seq<char>) -> Option<Band> {
    if token == "ALL"@ {
        Some(Band::All)
    } else if token == "160M"@ {
        Some(Band::Band160M)
    } else if token == "80M"@ {
        Some(Band::Band80M)
    } else if token == "40M"@ {
        Some(Band::Band40M)
    } else if token == "20M"@ {
        Some(Band::Band20M)
    } else if token == "15M"@ {
        Some(Band::Band15M)
    } else if token == "10M"@ {
        Some(Band::Band10M)
    } else if token == "6M"@ {
        Some(Band::Band6M)
    } else if token == "4M"@ {
        Some(Band::Band4M)
    } else if token == "2M"@ {
        Some(Band::Band2M)
    } else if token == "222"@ {
        Some(Band::Band222)
    } else if token == "432"@ {
        Some(Band::Band432)
    } else if token == "902"@ {
        Some(Band::Band902)
    } else if token == "1.2G"@ {
        Some(Band::Band1_2G)
    } else if token == "2.3G"@ {
        Some(Band::Band2_3G)
    } else if token == "3.4G"@ {
        Some(Band::Band3_4G)
    } else if token == "5.7G"@ {
        Some(Band::Band5_7G)
    } else if token == "10G"@ {
        Some(Band::Band10G)
    } else if token == "24G"@ {
        Some(Band::Band24G)
    } else if token == "47G"@ {
        Some(Band::Band47G)
    } else if token == "75G"@ {
        Some(Band::Band75G)
    } else if token == "123G"@ {
        Some(Band::Band123G)
    } else if token == "134G"@ {
        Some(Band::Band134G)
    } else if token == "241G"@ {
        Some(Band::Band241G)
    } else if token == "LIGHT"@ {
        Some(Band::Light)
    } else if token == "VHF-3-BAND"@ {
        Some(Band::Vhf3Band)
    } else if token == "VHF-FM-ONLY"@ {
        Some(Band::VhfFmOnly)
    } else {
        None
    }
}

/// The band, or group of bands, that the token `input` names.
pub fn cabrillo_band(input: &str) -> (value: Option<Band>)
    ensures
        value == band_of_token(input@),
{
    let chars = chars_of(input);
    let token = chars.as_slice();
    if is_text(token, "ALL") {
        Some(Band::All)
    } else if is_text(token, "160M") {
        Some(Band::Band160M)
    } else if is_text(token, "80M") {
        Some(Band::Band80M)
    } else if is_text(token, "40M") {
        Some(Band::Band40M)
    } else if is_text(token, "20M") {
        Some(Band::Band20M)
    } else if is_text(token, "15M") {
        Some(Band::Band15M)
    } else if is_text(token, "10M") {
        Some(Band::Band10M)
    } else if is_text(token, "6M") {
        Some(Band::Band6M)
    } else if is_text(token, "4M") {
        Some(Band::Band4M)
    } else if is_text(token, "2M") {
        Some(Band::Band2M)
    } else if is_text(token, "222") {
        Some(Band::Band222)
    } else if is_text(token, "432") {
        Some(Band::Band432)
    } else if is_text(token, "902") {
        Some(Band::Band902)
    } else if is_text(token, "1.2G") {
        Some(Band::Band1_2G)
    } else if is_text(token, "2.3G") {
        Some(Band::Band2_3G)
    } else if is_text(token, "3.4G") {
        Some(Band::Band3_4G)
    } else if is_text(token, "5.7G") {
        Some(Band::Band5_7G)
    } else if is_text(token, "10G") {
        Some(Band::Band10G)
    } else if is_text(token, "24G") {
        Some(Band::Band24G)
    } else if is_text(token, "47G") {
        Some(Band::Band47G)
    } else if is_text(token, "75G") {
        Some(Band::Band75G)
    } else if is_text(token, "123G") {
        Some(Band::Band123G)
    } else if is_text(token, "134G") {
        Some(Band::Band134G)
    } else if is_text(token, "241G") {
        Some(Band::Band241G)
    } else if is_text(token, "LIGHT") {
        Some(Band::Light)
    } else if is_text(token, "VHF-3-BAND") {
        Some(Band::Vhf3Band)
    } else if is_text(token, "VHF-FM-ONLY") {
        Some(Band::VhfFmOnly)
    } else {
        None
    }
}

/// What `ASSISTED` and `NON-ASSISTED` stand for.
pub open spec fn assisted_of_token(token: Seq<char>) -> Option<bool> {
    if token == "ASSISTED"@ {
        Some(true)
    } else if token == "NON-ASSISTED"@ {
        Some(false)
    } else {
        None
    }
}

/// Whether the token `input` says that the station was assisted.
pub fn cabrillo_assisted(input: &str) -> (value: Option<bool>)
    ensures
        value == assisted_of_token(input@),
{
    let chars = chars_of(input);
    let token = chars.as_slice();
    if is_text(token, "ASSISTED") {
        Some(true)
    } else if is_text(token, "NON-ASSISTED") {
        Some(false)
    } else {
        None
    }
}

/// What `YES` and `NO` stand for.
pub open spec fn certificate_of_token(token: Seq<char>) -> Option<bool> {
    if token == "YES"@ {
        Some(true)
    } else if token == "NO"@ {
        Some(false)
    } else {
        None
    }
}

/// Whether the token `input` asks for a certificate.
pub fn cabrillo_certificate(input: &str) -> (value: Option<bool>)
    ensures
        value == certificate_of_token(input@),
{
    let chars = chars_of(input);
    let token = chars.as_slice();
    if is_text(token, "YES") {
        Some(true)
    } else if is_text(token, "NO") {
        Some(false)
    } else {
        None
    }
}

/// The version of the format that a log declares.
#[derive(Debug, Copy, Clone, PartialEq, Eq, Structural)]
pub enum FormatVersion {
    /// Version 2.0.
    V2,
    /// Version 3.0.
    V3,
}

/// The version that `value` declares: it starts with `2.0` or with `3.0`.
pub open spec fn version_of(value: Seq<char>) -> Option<FormatVersion> {
    if has_text(value, 0, "2.0"@) {
        Some(FormatVersion::V2)
    } else if has_text(value, 0, "3.0"@) {
        Some(FormatVersion::V3)
    } else {
        None
    }
}

/// The version of the format that `input` declares.
pub fn cabrillo_version(input: &str) -> (value: Option<FormatVersion>)
    ensures
        value == version_of(input@),
{
    let chars = chars_of(input);
    if at_text(chars.as_slice(), 0, "2.0") {
        Some(FormatVersion::V2)
    } else if at_text(chars.as_slice(), 0, "3.0") {
        Some(FormatVersion::V3)
    } else {
        None
    }
}

/// The mode whose token stands in `s` at `at`, and where the token ends.
pub open spec fn mode_at(s: Seq<char>, at: int) -> Option<(Mode, int)> {
    if has_text(s, at, "CW"@) {
        Some((Mode::Cw, at + 2))
    } else if has_text(s, at, "FM"@) {
        Some((Mode::Fm, at + 2))
    } else if has_text(s, at, "PH"@) {
        Some((Mode::Phone, at + 2))
    } else if has_text(s, at, "SSB"@) {
        Some((Mode::Phone, at + 3))
    } else if has_text(s, at, "RY"@) {
        Some((Mode::Rtty, at + 2))
    } else if has_text(s, at, "RTTY"@) {
        Some((Mode::Rtty, at + 4))
    } else if has_text(s, at, "DG"@) {
        Some((Mode::Digital, at + 2))
    } else if has_text(s, at, "DIGI"@) {
        Some((Mode::Digital, at + 4))
    } else if has_text(s, at, "MIXED"@) {
        Some((Mode::Mixed, at + 5))
    } else {
        None
    }
}

/// Reads the token of a mode at `at`.
pub fn scan_mode(s: &[char], at: usize) -> (found: Option<(Mode, usize)>)
    ensures
        match mode_at(s@, at as int) {
            Some((mode, end)) => found matches Some((m, e)) && m == mode && e == end && at < end
                <= s@.len(),
            None => found is None,
        },
{
    let len: usize = s.len();
    assert(s@.len() == len);
    if at_text(s, at, "CW") {
        proof { reveal_strlit("CW"); }
        Some((Mode::Cw, at + 2))
    } else if at_text(s, at, "FM") {
        proof { reveal_strlit("FM"); }
        Some((Mode::Fm, at + 2))
    } else if at_text(s, at, "PH") {
        proof { reveal_strlit("PH"); }
        Some((Mode::Phone, at + 2))
    } else if at_text(s, at, "SSB") {
        proof { reveal_strlit("SSB"); }
        Some((Mode::Phone, at + 3))
    } else if at_text(s, at, "RY") {
        proof { reveal_strlit("RY"); }
        Some((Mode::Rtty, at + 2))
    } else if at_text(s, at, "RTTY") {
        proof { reveal_strlit("RTTY"); }
        Some((Mode::Rtty, at + 4))
    } else if at_text(s, at, "DG") {
        proof { reveal_strlit("DG"); }
        Some((Mode::Digital, at + 2))
    } else if at_text(s, at, "DIGI") {
        proof { reveal_strlit("DIGI"); }
        Some((Mode::Digital, at + 4))
    } else if at_text(s, at, "MIXED") {
        proof { reveal_strlit("MIXED"); }
        Some((Mode::Mixed, at + 5))
    } else {
        None
    }
}

} // verus!
