//! The names of the format are all different: each name of a tag and each
//! token of a value names what the tables say, and nothing shadows it.
//!
//! Two names of different lengths differ; for two of the same length the
//! proofs name a place at which they differ.

use crate::category::{
    assisted_of_token, band_of_token, certificate_of_token, mode_at, mode_of_token,
    operator_category_of_token, overlay_category_of_token, power_category_of_token,
    station_category_of_token, time_category_of_token, transmitter_category_of_token, Mode,
    OperatorCategory, OverlayCategory, PowerCategory, StationCategory, TimeCategory,
    TransmitterCategory,
};
use crate::driver::{tag_of_name, Tag};
use crate::frequency::Band;
use crate::text::has_text;
use vstd::prelude::*;

verus! {

/// Each name of the format is the name of its tag.
pub proof fn lemma_tag_names()
    ensures
        tag_of_name("START-OF-LOG"@) == Some(Tag::StartOfLog),
        tag_of_name("CALLSIGN"@) == Some(Tag::Callsign),
        tag_of_name("CONTEST"@) == Some(Tag::Contest),
        tag_of_name("CATEGORY-ASSISTED"@) == Some(Tag::CategoryAssisted),
        tag_of_name("CATEGORY-BAND"@) == Some(Tag::CategoryBand),
        tag_of_name("CATEGORY-MODE"@) == Some(Tag::CategoryMode),
        tag_of_name("CATEGORY-OPERATOR"@) == Some(Tag::CategoryOperator),
        tag_of_name("CATEGORY-POWER"@) == Some(Tag::CategoryPower),
        tag_of_name("CATEGORY-STATION"@) == Some(Tag::CategoryStation),
        tag_of_name("CATEGORY-TIME"@) == Some(Tag::CategoryTime),
        tag_of_name("CATEGORY-TRANSMITTER"@) == Some(Tag::CategoryTransmitter),
        tag_of_name("CATEGORY-OVERLAY"@) == Some(Tag::CategoryOverlay),
        tag_of_name("CERTIFICATE"@) == Some(Tag::Certificate),
        tag_of_name("CLAIMED-SCORE"@) == Some(Tag::ClaimedScore),
        tag_of_name("CLUB"@) == Some(Tag::Club),
        tag_of_name("CREATED-BY"@) == Some(Tag::CreatedBy),
        tag_of_name("EMAIL"@) == Some(Tag::Email),
        tag_of_name("GRID-LOCATOR"@) == Some(Tag::GridLocator),
        tag_of_name("LOCATION"@) == Some(Tag::Location),
        tag_of_name("NAME"@) == Some(Tag::Name),
        tag_of_name("ADDRESS"@) == Some(Tag::Address),
        tag_of_name("ADDRESS-CITY"@) == Some(Tag::Address),
        tag_of_name("ADDRESS-STATE-PROVINCE"@) == Some(Tag::Address),
        tag_of_name("ADDRESS-POSTALCODE"@) == Some(Tag::Address),
        tag_of_name("ADDRESS-COUNTRY"@) == Some(Tag::Address),
        tag_of_name("OPERATORS"@) == Some(Tag::Operators),
        tag_of_name("OFFTIME"@) == Some(Tag::Offtime),
        tag_of_name("SOAPBOX"@) == Some(Tag::Soapbox),
        tag_of_name("X-QSO"@) == Some(Tag::IgnoredQso),
        tag_of_name("QSO"@) == Some(Tag::Qso),
        tag_of_name("DEBUG"@) == Some(Tag::Debug),
        tag_of_name("END-OF-LOG"@) == Some(Tag::EndOfLog),
{
    reveal_strlit("START-OF-LOG");
    reveal_strlit("CALLSIGN");
    reveal_strlit("CONTEST");
    reveal_strlit("CATEGORY-ASSISTED");
    reveal_strlit("CATEGORY-BAND");
    reveal_strlit("CATEGORY-MODE");
    reveal_strlit("CATEGORY-OPERATOR");
    reveal_strlit("CATEGORY-POWER");
    reveal_strlit("CATEGORY-STATION");
    reveal_strlit("CATEGORY-TIME");
    reveal_strlit("CATEGORY-TRANSMITTER");
    reveal_strlit("CATEGORY-OVERLAY");
    reveal_strlit("CERTIFICATE");
    reveal_strlit("CLAIMED-SCORE");
    reveal_strlit("CLUB");
    reveal_strlit("CREATED-BY");
    reveal_strlit("EMAIL");
    reveal_strlit("GRID-LOCATOR");
    reveal_strlit("LOCATION");
    reveal_strlit("NAME");
    reveal_strlit("ADDRESS");
    reveal_strlit("ADDRESS-CITY");
    reveal_strlit("ADDRESS-STATE-PROVINCE");
    reveal_strlit("ADDRESS-POSTALCODE");
    reveal_strlit("ADDRESS-COUNTRY");
    reveal_strlit("OPERATORS");
    reveal_strlit("OFFTIME");
    reveal_strlit("SOAPBOX");
    reveal_strlit("X-QSO");
    reveal_strlit("QSO");
    reveal_strlit("DEBUG");
    reveal_strlit("END-OF-LOG");
    assert("START-OF-LOG"@.len() == 12);
    assert("CALLSIGN"@.len() == 8);
    assert("CONTEST"@.len() == 7);
    assert("CATEGORY-ASSISTED"@.len() == 17);
    assert("CATEGORY-BAND"@.len() == 13);
    assert("CATEGORY-MODE"@.len() == 13);
    assert("CATEGORY-OPERATOR"@.len() == 17);
    assert("CATEGORY-POWER"@.len() == 14);
    assert("CATEGORY-STATION"@.len() == 16);
    assert("CATEGORY-TIME"@.len() == 13);
    assert("CATEGORY-TRANSMITTER"@.len() == 20);
    assert("CATEGORY-OVERLAY"@.len() == 16);
    assert("CERTIFICATE"@.len() == 11);
    assert("CLAIMED-SCORE"@.len() == 13);
    assert("CLUB"@.len() == 4);
    assert("CREATED-BY"@.len() == 10);
    assert("EMAIL"@.len() == 5);
    assert("GRID-LOCATOR"@.len() == 12);
    assert("LOCATION"@.len() == 8);
    assert("NAME"@.len() == 4);
    assert("ADDRESS"@.len() == 7);
    assert("ADDRESS-CITY"@.len() == 12);
    assert("ADDRESS-STATE-PROVINCE"@.len() == 22);
    assert("ADDRESS-POSTALCODE"@.len() == 18);
    assert("ADDRESS-COUNTRY"@.len() == 15);
    assert("OPERATORS"@.len() == 9);
    assert("OFFTIME"@.len() == 7);
    assert("SOAPBOX"@.len() == 7);
    assert("X-QSO"@.len() == 5);
    assert("QSO"@.len() == 3);
    assert("DEBUG"@.len() == 5);
    assert("END-OF-LOG"@.len() == 10);
    assert("CATEGORY-BAND"@[9] != "CATEGORY-MODE"@[9]);
    assert("CATEGORY-ASSISTED"@[9] != "CATEGORY-OPERATOR"@[9]);
    assert("CATEGORY-BAND"@[9] != "CATEGORY-TIME"@[9]);
    assert("CATEGORY-MODE"@[9] != "CATEGORY-TIME"@[9]);
    assert("CATEGORY-STATION"@[9] != "CATEGORY-OVERLAY"@[9]);
    assert("CATEGORY-BAND"@[1] != "CLAIMED-SCORE"@[1]);
    assert("CATEGORY-MODE"@[1] != "CLAIMED-SCORE"@[1]);
    assert("CATEGORY-TIME"@[1] != "CLAIMED-SCORE"@[1]);
    assert("START-OF-LOG"@[0] != "GRID-LOCATOR"@[0]);
    assert("CALLSIGN"@[0] != "LOCATION"@[0]);
    assert("CLUB"@[0] != "NAME"@[0]);
    assert("CONTEST"@[0] != "ADDRESS"@[0]);
    assert("START-OF-LOG"@[0] != "ADDRESS-CITY"@[0]);
    assert("GRID-LOCATOR"@[0] != "ADDRESS-CITY"@[0]);
    assert("CONTEST"@[0] != "OFFTIME"@[0]);
    assert("ADDRESS"@[0] != "OFFTIME"@[0]);
    assert("CONTEST"@[0] != "SOAPBOX"@[0]);
    assert("ADDRESS"@[0] != "SOAPBOX"@[0]);
    assert("OFFTIME"@[0] != "SOAPBOX"@[0]);
    assert("EMAIL"@[0] != "X-QSO"@[0]);
    assert("EMAIL"@[0] != "DEBUG"@[0]);
    assert("X-QSO"@[0] != "DEBUG"@[0]);
    assert("CREATED-BY"@[0] != "END-OF-LOG"@[0]);
}

/// Each token of a mode names its mode.
pub proof fn lemma_mode_tokens()
    ensures
        mode_of_token("CW"@) == Some(Mode::Cw),
        mode_of_token("PH"@) == Some(Mode::Phone),
        mode_of_token("SSB"@) == Some(Mode::Phone),
        mode_of_token("FM"@) == Some(Mode::Fm),
        mode_of_token("RY"@) == Some(Mode::Rtty),
        mode_of_token("RTTY"@) == Some(Mode::Rtty),
        mode_of_token("DG"@) == Some(Mode::Digital),
        mode_of_token("DIGI"@) == Some(Mode::Digital),
        mode_of_token("MIXED"@) == Some(Mode::Mixed),
{
    reveal_strlit("CW");
    reveal_strlit("PH");
    reveal_strlit("SSB");
    reveal_strlit("FM");
    reveal_strlit("RY");
    reveal_strlit("RTTY");
    reveal_strlit("DG");
    reveal_strlit("DIGI");
    reveal_strlit("MIXED");
    assert("CW"@.len() == 2);
    assert("PH"@.len() == 2);
    assert("SSB"@.len() == 3);
    assert("FM"@.len() == 2);
    assert("RY"@.len() == 2);
    assert("RTTY"@.len() == 4);
    assert("DG"@.len() == 2);
    assert("DIGI"@.len() == 4);
    assert("MIXED"@.len() == 5);
    assert("CW"@[0] != "PH"@[0]);
    assert("CW"@[0] != "FM"@[0]);
    assert("PH"@[0] != "FM"@[0]);
    assert("CW"@[0] != "RY"@[0]);
    assert("PH"@[0] != "RY"@[0]);
    assert("FM"@[0] != "RY"@[0]);
    assert("CW"@[0] != "DG"@[0]);
    assert("PH"@[0] != "DG"@[0]);
    assert("FM"@[0] != "DG"@[0]);
    assert("RY"@[0] != "DG"@[0]);
    assert("RTTY"@[0] != "DIGI"@[0]);
}

/// Each token of an operator category names its category.
pub proof fn lemma_operator_category_tokens()
    ensures
        operator_category_of_token("SINGLE-OP"@) == Some(OperatorCategory::SingleOp),
        operator_category_of_token("MULTI-OP"@) == Some(OperatorCategory::MultiOp),
        operator_category_of_token("CHECKLOG"@) == Some(OperatorCategory::CheckLog),
{
    reveal_strlit("SINGLE-OP");
    reveal_strlit("MULTI-OP");
    reveal_strlit("CHECKLOG");
    assert("SINGLE-OP"@.len() == 9);
    assert("MULTI-OP"@.len() == 8);
    assert("CHECKLOG"@.len() == 8);
    assert("MULTI-OP"@[0] != "CHECKLOG"@[0]);
}

/// Each token of a power category names its category.
pub proof fn lemma_power_category_tokens()
    ensures
        power_category_of_token("HIGH"@) == Some(PowerCategory::High),
        power_category_of_token("LOW"@) == Some(PowerCategory::Low),
        power_category_of_token("QRP"@) == Some(PowerCategory::Qrp),
{
    reveal_strlit("HIGH");
    reveal_strlit("LOW");
    reveal_strlit("QRP");
    assert("HIGH"@.len() == 4);
    assert("LOW"@.len() == 3);
    assert("QRP"@.len() == 3);
    assert("LOW"@[0] != "QRP"@[0]);
}

/// Each token of a station category names its category.
pub proof fn lemma_station_category_tokens()
    ensures
        station_category_of_token("FIXED"@) == Some(StationCategory::Fixed),
        station_category_of_token("MOBILE"@) == Some(StationCategory::Mobile),
        station_category_of_token("PORTABLE"@) == Some(StationCategory::Portable),
        station_category_of_token("ROVER"@) == Some(StationCategory::Rover),
        station_category_of_token("ROVER-LIMITED"@) == Some(StationCategory::RoverLimited),
        station_category_of_token("ROVER-UNLIMITED"@) == Some(StationCategory::RoverUnlimited),
        station_category_of_token("EXPEDITION"@) == Some(StationCategory::Expedition),
        station_category_of_token("HQ"@) == Some(StationCategory::Hq),
        station_category_of_token("SCHOOL"@) == Some(StationCategory::School),
{
    reveal_strlit("FIXED");
    reveal_strlit("MOBILE");
    reveal_strlit("PORTABLE");
    reveal_strlit("ROVER");
    reveal_strlit("ROVER-LIMITED");
    reveal_strlit("ROVER-UNLIMITED");
    reveal_strlit("EXPEDITION");
    reveal_strlit("HQ");
    reveal_strlit("SCHOOL");
    assert("FIXED"@.len() == 5);
    assert("MOBILE"@.len() == 6);
    assert("PORTABLE"@.len() == 8);
    assert("ROVER"@.len() == 5);
    assert("ROVER-LIMITED"@.len() == 13);
    assert("ROVER-UNLIMITED"@.len() == 15);
    assert("EXPEDITION"@.len() == 10);
    assert("HQ"@.len() == 2);
    assert("SCHOOL"@.len() == 6);
    assert("FIXED"@[0] != "ROVER"@[0]);
    assert("MOBILE"@[0] != "SCHOOL"@[0]);
}

/// Each token of a time category names its category.
pub proof fn lemma_time_category_tokens()
    ensures
        time_category_of_token("6-HOURS"@) == Some(TimeCategory::Hours6),
        time_category_of_token("12-HOURS"@) == Some(TimeCategory::Hours12),
        time_category_of_token("24-HOURS"@) == Some(TimeCategory::Hours24),
{
    reveal_strlit("6-HOURS");
    reveal_strlit("12-HOURS");
    reveal_strlit("24-HOURS");
    assert("6-HOURS"@.len() == 7);
    assert("12-HOURS"@.len() == 8);
    assert("24-HOURS"@.len() == 8);
    assert("12-HOURS"@[0] != "24-HOURS"@[0]);
}

/// Each token of a transmitter category names its category.
pub proof fn lemma_transmitter_category_tokens()
    ensures
        transmitter_category_of_token("ONE"@) == Some(TransmitterCategory::One),
        transmitter_category_of_token("TWO"@) == Some(TransmitterCategory::Two),
        transmitter_category_of_token("LIMITED"@) == Some(TransmitterCategory::Limited),
        transmitter_category_of_token("UNLIMITED"@) == Some(TransmitterCategory::Unlimited),
        transmitter_category_of_token("SWL"@) == Some(TransmitterCategory::Swl),
{
    reveal_strlit("ONE");
    reveal_strlit("TWO");
    reveal_strlit("LIMITED");
    reveal_strlit("UNLIMITED");
    reveal_strlit("SWL");
    assert("ONE"@.len() == 3);
    assert("TWO"@.len() == 3);
    assert("LIMITED"@.len() == 7);
    assert("UNLIMITED"@.len() == 9);
    assert("SWL"@.len() == 3);
    assert("ONE"@[0] != "TWO"@[0]);
    assert("ONE"@[0] != "SWL"@[0]);
    assert("TWO"@[0] != "SWL"@[0]);
}

/// Each token of an overlay names its overlay.
pub proof fn lemma_overlay_category_tokens()
    ensures
        overlay_category_of_token("CLASSIC"@) == Some(OverlayCategory::Classic),
        overlay_category_of_token("ROOKIE"@) == Some(OverlayCategory::Rookie),
        overlay_category_of_token("TB-WIRES"@) == Some(OverlayCategory::TbWires),
        overlay_category_of_token("NOVICE-TECH"@) == Some(OverlayCategory::NoviceTech),
        overlay_category_of_token("OVER-50"@) == Some(OverlayCategory::Over50),
{
    reveal_strlit("CLASSIC");
    reveal_strlit("ROOKIE");
    reveal_strlit("TB-WIRES");
    reveal_strlit("NOVICE-TECH");
    reveal_strlit("OVER-50");
    assert("CLASSIC"@.len() == 7);
    assert("ROOKIE"@.len() == 6);
    assert("TB-WIRES"@.len() == 8);
    assert("NOVICE-TECH"@.len() == 11);
    assert("OVER-50"@.len() == 7);
    assert("CLASSIC"@[0] != "OVER-50"@[0]);
}

/// Each token of a band names its band.
pub proof fn lemma_band_tokens()
    ensures
        band_of_token("ALL"@) == Some(Band::All),
        band_of_token("160M"@) == Some(Band::Band160M),
        band_of_token("80M"@) == Some(Band::Band80M),
        band_of_token("40M"@) == Some(Band::Band40M),
        band_of_token("20M"@) == Some(Band::Band20M),
        band_of_token("15M"@) == Some(Band::Band15M),
        band_of_token("10M"@) == Some(Band::Band10M),
        band_of_token("6M"@) == Some(Band::Band6M),
        band_of_token("4M"@) == Some(Band::Band4M),
        band_of_token("2M"@) == Some(Band::Band2M),
        band_of_token("222"@) == Some(Band::Band222),
        band_of_token("432"@) == Some(Band::Band432),
        band_of_token("902"@) == Some(Band::Band902),
        band_of_token("1.2G"@) == Some(Band::Band1_2G),
        band_of_token("2.3G"@) == Some(Band::Band2_3G),
        band_of_token("3.4G"@) == Some(Band::Band3_4G),
        band_of_token("5.7G"@) == Some(Band::Band5_7G),
        band_of_token("10G"@) == Some(Band::Band10G),
        band_of_token("24G"@) == Some(Band::Band24G),
        band_of_token("47G"@) == Some(Band::Band47G),
        band_of_token("75G"@) == Some(Band::Band75G),
        band_of_token("123G"@) == Some(Band::Band123G),
        band_of_token("134G"@) == Some(Band::Band134G),
        band_of_token("241G"@) == Some(Band::Band241G),
        band_of_token("LIGHT"@) == Some(Band::Light),
        band_of_token("VHF-3-BAND"@) == Some(Band::Vhf3Band),
        band_of_token("VHF-FM-ONLY"@) == Some(Band::VhfFmOnly),
{
    reveal_strlit("ALL");
    reveal_strlit("160M");
    reveal_strlit("80M");
    reveal_strlit("40M");
    reveal_strlit("20M");
    reveal_strlit("15M");
    reveal_strlit("10M");
    reveal_strlit("6M");
    reveal_strlit("4M");
    reveal_strlit("2M");
    reveal_strlit("222");
    reveal_strlit("432");
    reveal_strlit("902");
    reveal_strlit("1.2G");
    reveal_strlit("2.3G");
    reveal_strlit("3.4G");
    reveal_strlit("5.7G");
    reveal_strlit("10G");
    reveal_strlit("24G");
    reveal_strlit("47G");
    reveal_strlit("75G");
    reveal_strlit("123G");
    reveal_strlit("134G");
    reveal_strlit("241G");
    reveal_strlit("LIGHT");
    reveal_strlit("VHF-3-BAND");
    reveal_strlit("VHF-FM-ONLY");
    assert("ALL"@.len() == 3);
    assert("160M"@.len() == 4);
    assert("80M"@.len() == 3);
    assert("40M"@.len() == 3);
    assert("20M"@.len() == 3);
    assert("15M"@.len() == 3);
    assert("10M"@.len() == 3);
    assert("6M"@.len() == 2);
    assert("4M"@.len() == 2);
    assert("2M"@.len() == 2);
    assert("222"@.len() == 3);
    assert("432"@.len() == 3);
    assert("902"@.len() == 3);
    assert("1.2G"@.len() == 4);
    assert("2.3G"@.len() == 4);
    assert("3.4G"@.len() == 4);
    assert("5.7G"@.len() == 4);
    assert("10G"@.len() == 3);
    assert("24G"@.len() == 3);
    assert("47G"@.len() == 3);
    assert("75G"@.len() == 3);
    assert("123G"@.len() == 4);
    assert("134G"@.len() == 4);
    assert("241G"@.len() == 4);
    assert("LIGHT"@.len() == 5);
    assert("VHF-3-BAND"@.len() == 10);
    assert("VHF-FM-ONLY"@.len() == 11);
    assert("ALL"@[0] != "80M"@[0]);
    assert("ALL"@[0] != "40M"@[0]);
    assert("80M"@[0] != "40M"@[0]);
    assert("ALL"@[0] != "20M"@[0]);
    assert("80M"@[0] != "20M"@[0]);
    assert("40M"@[0] != "20M"@[0]);
    assert("ALL"@[0] != "15M"@[0]);
    assert("80M"@[0] != "15M"@[0]);
    assert("40M"@[0] != "15M"@[0]);
    assert("20M"@[0] != "15M"@[0]);
    assert("ALL"@[0] != "10M"@[0]);
    assert("80M"@[0] != "10M"@[0]);
    assert("40M"@[0] != "10M"@[0]);
    assert("20M"@[0] != "10M"@[0]);
    assert("15M"@[1] != "10M"@[1]);
    assert("6M"@[0] != "4M"@[0]);
    assert("6M"@[0] != "2M"@[0]);
    assert("4M"@[0] != "2M"@[0]);
    assert("ALL"@[0] != "222"@[0]);
    assert("80M"@[0] != "222"@[0]);
    assert("40M"@[0] != "222"@[0]);
    assert("20M"@[1] != "222"@[1]);
    assert("15M"@[0] != "222"@[0]);
    assert("10M"@[0] != "222"@[0]);
    assert("ALL"@[0] != "432"@[0]);
    assert("80M"@[0] != "432"@[0]);
    assert("40M"@[1] != "432"@[1]);
    assert("20M"@[0] != "432"@[0]);
    assert("15M"@[0] != "432"@[0]);
    assert("10M"@[0] != "432"@[0]);
    assert("222"@[0] != "432"@[0]);
    assert("ALL"@[0] != "902"@[0]);
    assert("80M"@[0] != "902"@[0]);
    assert("40M"@[0] != "902"@[0]);
    assert("20M"@[0] != "902"@[0]);
    assert("15M"@[0] != "902"@[0]);
    assert("10M"@[0] != "902"@[0]);
    assert("222"@[0] != "902"@[0]);
    assert("432"@[0] != "902"@[0]);
    assert("160M"@[1] != "1.2G"@[1]);
    assert("160M"@[0] != "2.3G"@[0]);
    assert("1.2G"@[0] != "2.3G"@[0]);
    assert("160M"@[0] != "3.4G"@[0]);
    assert("1.2G"@[0] != "3.4G"@[0]);
    assert("2.3G"@[0] != "3.4G"@[0]);
    assert("160M"@[0] != "5.7G"@[0]);
    assert("1.2G"@[0] != "5.7G"@[0]);
    assert("2.3G"@[0] != "5.7G"@[0]);
    assert("3.4G"@[0] != "5.7G"@[0]);
    assert("ALL"@[0] != "10G"@[0]);
    assert("80M"@[0] != "10G"@[0]);
    assert("40M"@[0] != "10G"@[0]);
    assert("20M"@[0] != "10G"@[0]);
    assert("15M"@[1] != "10G"@[1]);
    assert("10M"@[2] != "10G"@[2]);
    assert("222"@[0] != "10G"@[0]);
    assert("432"@[0] != "10G"@[0]);
    assert("902"@[0] != "10G"@[0]);
    assert("ALL"@[0] != "24G"@[0]);
    assert("80M"@[0] != "24G"@[0]);
    assert("40M"@[0] != "24G"@[0]);
    assert("20M"@[1] != "24G"@[1]);
    assert("15M"@[0] != "24G"@[0]);
    assert("10M"@[0] != "24G"@[0]);
    assert("222"@[1] != "24G"@[1]);
    assert("432"@[0] != "24G"@[0]);
    assert("902"@[0] != "24G"@[0]);
    assert("10G"@[0] != "24G"@[0]);
    assert("ALL"@[0] != "47G"@[0]);
    assert("80M"@[0] != "47G"@[0]);
    assert("40M"@[1] != "47G"@[1]);
    assert("20M"@[0] != "47G"@[0]);
    assert("15M"@[0] != "47G"@[0]);
    assert("10M"@[0] != "47G"@[0]);
    assert("222"@[0] != "47G"@[0]);
    assert("432"@[1] != "47G"@[1]);
    assert("902"@[0] != "47G"@[0]);
    assert("10G"@[0] != "47G"@[0]);
    assert("24G"@[0] != "47G"@[0]);
    assert("ALL"@[0] != "75G"@[0]);
    assert("80M"@[0] != "75G"@[0]);
    assert("40M"@[0] != "75G"@[0]);
    assert("20M"@[0] != "75G"@[0]);
    assert("15M"@[0] != "75G"@[0]);
    assert("10M"@[0] != "75G"@[0]);
    assert("222"@[0] != "75G"@[0]);
    assert("432"@[0] != "75G"@[0]);
    assert("902"@[0] != "75G"@[0]);
    assert("10G"@[0] != "75G"@[0]);
    assert("24G"@[0] != "75G"@[0]);
    assert("47G"@[0] != "75G"@[0]);
    assert("160M"@[1] != "123G"@[1]);
    assert("1.2G"@[1] != "123G"@[1]);
    assert("2.3G"@[0] != "123G"@[0]);
    assert("3.4G"@[0] != "123G"@[0]);
    assert("5.7G"@[0] != "123G"@[0]);
    assert("160M"@[1] != "134G"@[1]);
    assert("1.2G"@[1] != "134G"@[1]);
    assert("2.3G"@[0] != "134G"@[0]);
    assert("3.4G"@[0] != "134G"@[0]);
    assert("5.7G"@[0] != "134G"@[0]);
    assert("123G"@[1] != "134G"@[1]);
    assert("160M"@[0] != "241G"@[0]);
    assert("1.2G"@[0] != "241G"@[0]);
    assert("2.3G"@[1] != "241G"@[1]);
    assert("3.4G"@[0] != "241G"@[0]);
    assert("5.7G"@[0] != "241G"@[0]);
    assert("123G"@[0] != "241G"@[0]);
    assert("134G"@[0] != "241G"@[0]);
}

/// `ASSISTED` says yes and `NON-ASSISTED` says no.
pub proof fn lemma_assisted_tokens()
    ensures
        assisted_of_token("ASSISTED"@) == Some(true),
        assisted_of_token("NON-ASSISTED"@) == Some(false),
{
    reveal_strlit("ASSISTED");
    reveal_strlit("NON-ASSISTED");
    assert("ASSISTED"@.len() == 8);
    assert("NON-ASSISTED"@.len() == 12);
}

/// `YES` says yes and `NO` says no.
pub proof fn lemma_certificate_tokens()
    ensures
        certificate_of_token("YES"@) == Some(true),
        certificate_of_token("NO"@) == Some(false),
{
    reveal_strlit("YES");
    reveal_strlit("NO");
    assert("YES"@.len() == 3);
    assert("NO"@.len() == 2);
}

/// A text that stands at a place has each of its characters there.
proof fn lemma_text_at(s: Seq<char>, at: int, t: Seq<char>, k: int)
    ensures
        has_text(s, at, t) && 0 <= k < t.len() ==> s[at + k] == t[k],
{
    if has_text(s, at, t) && 0 <= k < t.len() {
        assert(s.subrange(at, at + t.len())[k] == s[at + k]);
    }
}

/// No token of a mode starts with another: so where the token of a mode
/// stands, that mode is read, and it ends where the token ends.
pub proof fn lemma_mode_at(s: Seq<char>, at: int)
    ensures
        has_text(s, at, "CW"@) ==> mode_at(s, at) == Some((Mode::Cw, at + 2)),
        has_text(s, at, "FM"@) ==> mode_at(s, at) == Some((Mode::Fm, at + 2)),
        has_text(s, at, "PH"@) ==> mode_at(s, at) == Some((Mode::Phone, at + 2)),
        has_text(s, at, "SSB"@) ==> mode_at(s, at) == Some((Mode::Phone, at + 3)),
        has_text(s, at, "RY"@) ==> mode_at(s, at) == Some((Mode::Rtty, at + 2)),
        has_text(s, at, "RTTY"@) ==> mode_at(s, at) == Some((Mode::Rtty, at + 4)),
        has_text(s, at, "DG"@) ==> mode_at(s, at) == Some((Mode::Digital, at + 2)),
        has_text(s, at, "DIGI"@) ==> mode_at(s, at) == Some((Mode::Digital, at + 4)),
        has_text(s, at, "MIXED"@) ==> mode_at(s, at) == Some((Mode::Mixed, at + 5)),
{
    reveal_strlit("CW");
    assert("CW"@.len() == 2);
    lemma_text_at(s, at, "CW"@, 0);
    reveal_strlit("FM");
    assert("FM"@.len() == 2);
    lemma_text_at(s, at, "FM"@, 0);
    reveal_strlit("PH");
    assert("PH"@.len() == 2);
    lemma_text_at(s, at, "PH"@, 0);
    reveal_strlit("SSB");
    assert("SSB"@.len() == 3);
    lemma_text_at(s, at, "SSB"@, 0);
    reveal_strlit("RY");
    assert("RY"@.len() == 2);
    lemma_text_at(s, at, "RY"@, 0);
    reveal_strlit("RTTY");
    assert("RTTY"@.len() == 4);
    lemma_text_at(s, at, "RTTY"@, 0);
    reveal_strlit("DG");
    assert("DG"@.len() == 2);
    lemma_text_at(s, at, "DG"@, 0);
    reveal_strlit("DIGI");
    assert("DIGI"@.len() == 4);
    lemma_text_at(s, at, "DIGI"@, 0);
    reveal_strlit("MIXED");
    assert("MIXED"@.len() == 5);
    lemma_text_at(s, at, "MIXED"@, 0);
    lemma_text_at(s, at, "RY"@, 1);
    lemma_text_at(s, at, "RTTY"@, 1);
    lemma_text_at(s, at, "DG"@, 1);
    lemma_text_at(s, at, "DIGI"@, 1);
}

} // verus!
