//! The log: what is known of it after the lines that were read so far.

use crate::category::{
    FormatVersion, Mode, OperatorCategory, OverlayCategory, PowerCategory, StationCategory,
    TimeCategory, TransmitterCategory,
};
use crate::frequency::Band;
use crate::grammar::{is_callsign, is_email, is_grid_locator, texts, Offtime};
use crate::qso::{Qso, QsoView};
use crate::tag_map::TagMap;
use vstd::prelude::*;
use vstd::string::StringExecFns;

verus! {

/// A log as it stands while its lines are read, and when they are read.
#[derive(Debug, Clone)]
pub struct CabrilloLog {
    version: FormatVersion,
    callsign: Option<String>,
    contest: Option<String>,
    category_assisted: Option<bool>,
    category_band: Option<Band>,
    category_mode: Option<Mode>,
    category_operator: Option<OperatorCategory>,
    category_power: Option<PowerCategory>,
    category_station: Option<StationCategory>,
    category_time: Option<TimeCategory>,
    category_transmitter: Option<TransmitterCategory>,
    category_overlay: Option<OverlayCategory>,
    certificate: Option<bool>,
    claimed_score: Option<u32>,
    club: Option<String>,
    created_by: Option<String>,
    email: Option<String>,
    grid_locator: Option<String>,
    location: Option<String>,
    name: Option<String>,
    address: Option<String>,
    operators: Vec<String>,
    offtimes: Vec<Offtime>,
    soapbox: Option<String>,
    other_tags: TagMap,
    entries: Vec<Qso>,
    ignored_entries: Vec<Qso>,
    debug: bool,
}

/// A `CabrilloLog` as a mathematical value.
pub struct LogView {
    pub version: FormatVersion,
    pub callsign: Option<Seq<char>>,
    pub contest: Option<Seq<char>>,
    pub category_assisted: Option<bool>,
    pub category_band: Option<Band>,
    pub category_mode: Option<Mode>,
    pub category_operator: Option<OperatorCategory>,
    pub category_power: Option<PowerCategory>,
    pub category_station: Option<StationCategory>,
    pub category_time: Option<TimeCategory>,
    pub category_transmitter: Option<TransmitterCategory>,
    pub category_overlay: Option<OverlayCategory>,
    pub certificate: Option<bool>,
    pub claimed_score: Option<u32>,
    pub club: Option<Seq<char>>,
    pub created_by: Option<Seq<char>>,
    pub email: Option<Seq<char>>,
    pub grid_locator: Option<Seq<char>>,
    pub location: Option<Seq<char>>,
    pub name: Option<Seq<char>>,
    pub address: Option<Seq<char>>,
    pub operators: Seq<Seq<char>>,
    pub offtimes: Seq<Offtime>,
    pub soapbox: Option<Seq<char>>,
    pub other_tags: Map<Seq<char>, Seq<char>>,
    pub entries: Seq<QsoView>,
    pub ignored_entries: Seq<QsoView>,
    pub debug: bool,
}

impl LogView {
    /// Whether the log is well formed: its call sign is a call sign, its
    /// e-mail address an e-mail address, its grid locator a grid locator,
    /// its contacts are well formed, and its breaks begin and end at
    /// minutes that exist.
    pub open spec fn is_well_formed(self) -> bool {
        &&& (self.callsign matches Some(call) ==> is_callsign(call))
        &&& (self.email matches Some(address) ==> is_email(address))
        &&& (self.grid_locator matches Some(locator) ==> is_grid_locator(locator))
        &&& (forall|i: int|
            0 <= i < self.entries.len() ==> (#[trigger] self.entries[i]).is_well_formed())
        &&& (forall|i: int|
            0 <= i < self.ignored_entries.len() ==> (
            #[trigger] self.ignored_entries[i]).is_well_formed())
        &&& (forall|i: int|
            0 <= i < self.offtimes.len() ==> (#[trigger] self.offtimes[i]).begin.is_valid()
                && self.offtimes[i].end.is_valid())
    }
}

/// The text of a string that may be missing.
pub open spec fn text_of(text: Option<String>) -> Option<Seq<char>> {
    match text {
        Some(t) => Some(t@),
        None => None,
    }
}

/// The contacts of a sequence of records.
pub open spec fn contacts(records: Seq<Qso>) -> Seq<QsoView> {
    records.map_values(|q: Qso| q@)
}

/// `line` behind what was there before, on a line of its own.
pub open spec fn with_line(before: Option<Seq<char>>, line: Seq<char>) -> Seq<char> {
    match before {
        Some(text) => text + "\n"@ + line,
        None => line,
    }
}

/// The log of which nothing is known yet: version 3.0, no field set, no
/// operator, off time, contact or tag.
pub open spec fn empty_log() -> LogView {
    LogView {
        version: FormatVersion::V3,
        callsign: None,
        contest: None,
        category_assisted: None,
        category_band: None,
        category_mode: None,
        category_operator: None,
        category_power: None,
        category_station: None,
        category_time: None,
        category_transmitter: None,
        category_overlay: None,
        certificate: None,
        claimed_score: None,
        club: None,
        created_by: None,
        email: None,
        grid_locator: None,
        location: None,
        name: None,
        address: None,
        operators: Seq::empty(),
        offtimes: Seq::empty(),
        soapbox: None,
        other_tags: Map::empty(),
        entries: Seq::empty(),
        ignored_entries: Seq::empty(),
        debug: false,
    }
}

impl View for CabrilloLog {
    type V = LogView;

    closed spec fn view(&self) -> LogView {
        LogView {
            version: self.version,
            callsign: text_of(self.callsign),
            contest: text_of(self.contest),
            category_assisted: self.category_assisted,
            category_band: self.category_band,
            category_mode: self.category_mode,
            category_operator: self.category_operator,
            category_power: self.category_power,
            category_station: self.category_station,
            category_time: self.category_time,
            category_transmitter: self.category_transmitter,
            category_overlay: self.category_overlay,
            certificate: self.certificate,
            claimed_score: self.claimed_score,
            club: text_of(self.club),
            created_by: text_of(self.created_by),
            email: text_of(self.email),
            grid_locator: text_of(self.grid_locator),
            location: text_of(self.location),
            name: text_of(self.name),
            address: text_of(self.address),
            operators: texts(self.operators@),
            offtimes: self.offtimes@,
            soapbox: text_of(self.soapbox),
            other_tags: self.other_tags@,
            entries: contacts(self.entries@),
            ignored_entries: contacts(self.ignored_entries@),
            debug: self.debug,
        }
    }
}

impl CabrilloLog {
    /// The log of which nothing is known yet.
    pub fn new() -> (log: CabrilloLog)
        ensures
            log@ == empty_log(),
            log@.is_well_formed(),
    {
        let log = CabrilloLog {
            version: FormatVersion::V3,
            callsign: None,
            contest: None,
            category_assisted: None,
            category_band: None,
            category_mode: None,
            category_operator: None,
            category_power: None,
            category_station: None,
            category_time: None,
            category_transmitter: None,
            category_overlay: None,
            certificate: None,
            claimed_score: None,
            club: None,
            created_by: None,
            email: None,
            grid_locator: None,
            location: None,
            name: None,
            address: None,
            operators: Vec::new(),
            offtimes: Vec::new(),
            soapbox: None,
            other_tags: TagMap::new(),
            entries: Vec::new(),
            ignored_entries: Vec::new(),
            debug: false,
        };
        assert(log@.operators =~= Seq::<Seq<char>>::empty());
        assert(log@.entries =~= Seq::<QsoView>::empty());
        assert(log@.ignored_entries =~= Seq::<QsoView>::empty());
        log
    }

    /// The version of the format that the log declares; 3.0 if it declares
    /// none.
    pub fn version(&self) -> (version: FormatVersion)
        ensures
            version == self@.version,
    {
        self.version
    }

    /// The call sign that the log was made under.
    pub fn callsign(&self) -> (callsign: &Option<String>)
        ensures
            text_of(*callsign) == self@.callsign,
    {
        &self.callsign
    }

    /// The contest that the log is for.
    pub fn contest(&self) -> (contest: &Option<String>)
        ensures
            text_of(*contest) == self@.contest,
    {
        &self.contest
    }

    /// Whether the station was assisted.
    pub fn category_assisted(&self) -> (category_assisted: &Option<bool>)
        ensures
            *category_assisted == self@.category_assisted,
    {
        &self.category_assisted
    }

    /// The band that the log is entered for.
    pub fn category_band(&self) -> (category_band: &Option<Band>)
        ensures
            *category_band == self@.category_band,
    {
        &self.category_band
    }

    /// The mode that the log is entered for.
    pub fn category_mode(&self) -> (category_mode: &Option<Mode>)
        ensures
            *category_mode == self@.category_mode,
    {
        &self.category_mode
    }

    /// How many operators worked the station.
    pub fn category_operator(&self) -> (category_operator: &Option<OperatorCategory>)
        ensures
            *category_operator == self@.category_operator,
    {
        &self.category_operator
    }

    /// The power that the station sent with.
    pub fn category_power(&self) -> (category_power: &Option<PowerCategory>)
        ensures
            *category_power == self@.category_power,
    {
        &self.category_power
    }

    /// What kind of station was worked from.
    pub fn category_station(&self) -> (category_station: &Option<StationCategory>)
        ensures
            *category_station == self@.category_station,
    {
        &self.category_station
    }

    /// For how long the station was worked.
    pub fn category_time(&self) -> (category_time: &Option<TimeCategory>)
        ensures
            *category_time == self@.category_time,
    {
        &self.category_time
    }

    /// How many transmitters the station ran.
    pub fn category_transmitter(&self) -> (category_transmitter: &Option<TransmitterCategory>)
        ensures
            *category_transmitter == self@.category_transmitter,
    {
        &self.category_transmitter
    }

    /// The overlay that the log is entered for.
    pub fn category_overlay(&self) -> (category_overlay: &Option<OverlayCategory>)
        ensures
            *category_overlay == self@.category_overlay,
    {
        &self.category_overlay
    }

    /// Whether the entrant asks for a certificate on paper.
    pub fn certificate(&self) -> (certificate: &Option<bool>)
        ensures
            *certificate == self@.certificate,
    {
        &self.certificate
    }

    /// The score that the entrant claims.
    pub fn claimed_score(&self) -> (claimed_score: &Option<u32>)
        ensures
            *claimed_score == self@.claimed_score,
    {
        &self.claimed_score
    }

    /// The club that the log counts for.
    pub fn club(&self) -> (club: &Option<String>)
        ensures
            text_of(*club) == self@.club,
    {
        &self.club
    }

    /// The program that wrote the log.
    pub fn created_by(&self) -> (created_by: &Option<String>)
        ensures
            text_of(*created_by) == self@.created_by,
    {
        &self.created_by
    }

    /// Where to write to the entrant.
    pub fn email(&self) -> (email: &Option<String>)
        ensures
            text_of(*email) == self@.email,
    {
        &self.email
    }

    /// The grid locator of the station.
    pub fn grid_locator(&self) -> (grid_locator: &Option<String>)
        ensures
            text_of(*grid_locator) == self@.grid_locator,
    {
        &self.grid_locator
    }

    /// Where the station stood.
    pub fn location(&self) -> (location: &Option<String>)
        ensures
            text_of(*location) == self@.location,
    {
        &self.location
    }

    /// Who hands the log in.
    pub fn name(&self) -> (name: &Option<String>)
        ensures
            text_of(*name) == self@.name,
    {
        &self.name
    }

    /// The postal address, one part to a line.
    pub fn address(&self) -> (address: &Option<String>)
        ensures
            text_of(*address) == self@.address,
    {
        &self.address
    }

    /// The call signs of the operators, in the order in which the log
    /// names them.
    pub fn operators(&self) -> (operators: &Vec<String>)
        ensures
            texts(operators@) == self@.operators,
    {
        &self.operators
    }

    /// The breaks that were taken, in the order in which the log names
    /// them.
    pub fn offtimes(&self) -> (offtimes: &Vec<Offtime>)
        ensures
            offtimes@ == self@.offtimes,
    {
        &self.offtimes
    }

    /// What the entrant has to say, one remark to a line.
    pub fn soapbox(&self) -> (soapbox: &Option<String>)
        ensures
            text_of(*soapbox) == self@.soapbox,
    {
        &self.soapbox
    }

    /// The tags that the format does not know, each with the value of the
    /// last line that had it.
    pub fn other_tags(&self) -> (tags: &TagMap)
        ensures
            tags@ == self@.other_tags,
    {
        &self.other_tags
    }

    /// The contacts of the log, in its order.
    pub fn entries(&self) -> (entries: &Vec<Qso>)
        ensures
            contacts(entries@) == self@.entries,
    {
        &self.entries
    }

    /// The contacts that the entrant wants left out, in the order of the
    /// log.
    pub fn ignored_entries(&self) -> (entries: &Vec<Qso>)
        ensures
            contacts(entries@) == self@.ignored_entries,
    {
        &self.ignored_entries
    }

    /// Whether the log asks to be handled as a trial.
    pub fn debug(&self) -> (debug: bool)
        ensures
            debug == self@.debug,
    {
        self.debug
    }

    /// Sets the version.
    pub(crate) fn set_version(&mut self, version: FormatVersion)
        ensures
            final(self)@ == (LogView { version, ..old(self)@ }),
    {
        self.version = version;
    }

    /// Sets `callsign`.
    pub(crate) fn set_callsign(&mut self, callsign: &str)
        ensures
            final(self)@ == (LogView { callsign: Some(callsign@), ..old(self)@ }),
    {
        self.callsign = Some(String::from_str(callsign));
    }

    /// Sets `contest`.
    pub(crate) fn set_contest(&mut self, contest: &str)
        ensures
            final(self)@ == (LogView { contest: Some(contest@), ..old(self)@ }),
    {
        self.contest = Some(String::from_str(contest));
    }

    /// Sets `category_assisted`.
    pub(crate) fn set_category_assisted(&mut self, category_assisted: Option<bool>)
        ensures
            final(self)@ == (LogView { category_assisted, ..old(self)@ }),
    {
        self.category_assisted = category_assisted;
    }

    /// Sets `category_band`.
    pub(crate) fn set_category_band(&mut self, category_band: Option<Band>)
        ensures
            final(self)@ == (LogView { category_band, ..old(self)@ }),
    {
        self.category_band = category_band;
    }

    /// Sets `category_mode`.
    pub(crate) fn set_category_mode(&mut self, category_mode: Option<Mode>)
        ensures
            final(self)@ == (LogView { category_mode, ..old(self)@ }),
    {
        self.category_mode = category_mode;
    }

    /// Sets `category_operator`.
    pub(crate) fn set_category_operator(&mut self, category_operator: Option<OperatorCategory>)
        ensures
            final(self)@ == (LogView { category_operator, ..old(self)@ }),
    {
        self.category_operator = category_operator;
    }

    /// Sets `category_power`.
    pub(crate) fn set_category_power(&mut self, category_power: Option<PowerCategory>)
        ensures
            final(self)@ == (LogView { category_power, ..old(self)@ }),
    {
        self.category_power = category_power;
    }

    /// Sets `category_station`.
    pub(crate) fn set_category_station(&mut self, category_station: Option<StationCategory>)
        ensures
            final(self)@ == (LogView { category_station, ..old(self)@ }),
    {
        self.category_station = category_station;
    }

    /// Sets `category_time`.
    pub(crate) fn set_category_time(&mut self, category_time: Option<TimeCategory>)
        ensures
            final(self)@ == (LogView { category_time, ..old(self)@ }),
    {
        self.category_time = category_time;
    }

    /// Sets `category_transmitter`.
    pub(crate) fn set_category_transmitter(
        &mut self,
        category_transmitter: Option<TransmitterCategory>,
    )
        ensures
            final(self)@ == (LogView { category_transmitter, ..old(self)@ }),
    {
        self.category_transmitter = category_transmitter;
    }

    /// Sets `category_overlay`.
    pub(crate) fn set_category_overlay(&mut self, category_overlay: Option<OverlayCategory>)
        ensures
            final(self)@ == (LogView { category_overlay, ..old(self)@ }),
    {
        self.category_overlay = category_overlay;
    }

    /// Sets `certificate`.
    pub(crate) fn set_certificate(&mut self, certificate: Option<bool>)
        ensures
            final(self)@ == (LogView { certificate, ..old(self)@ }),
    {
        self.certificate = certificate;
    }

    /// Sets `claimed_score`.
    pub(crate) fn set_claimed_score(&mut self, claimed_score: Option<u32>)
        ensures
            final(self)@ == (LogView { claimed_score, ..old(self)@ }),
    {
        self.claimed_score = claimed_score;
    }

    /// Sets `club`.
    pub(crate) fn set_club(&mut self, club: &str)
        ensures
            final(self)@ == (LogView { club: Some(club@), ..old(self)@ }),
    {
        self.club = Some(String::from_str(club));
    }

    /// Sets `created_by`.
    pub(crate) fn set_created_by(&mut self, created_by: &str)
        ensures
            final(self)@ == (LogView { created_by: Some(created_by@), ..old(self)@ }),
    {
        self.created_by = Some(String::from_str(created_by));
    }

    /// Sets `email`.
    pub(crate) fn set_email(&mut self, email: &str)
        ensures
            final(self)@ == (LogView { email: Some(email@), ..old(self)@ }),
    {
        self.email = Some(String::from_str(email));
    }

    /// Sets `grid_locator`.
    pub(crate) fn set_grid_locator(&mut self, grid_locator: &str)
        ensures
            final(self)@ == (LogView { grid_locator: Some(grid_locator@), ..old(self)@ }),
    {
        self.grid_locator = Some(String::from_str(grid_locator));
    }

    /// Sets `location`.
    pub(crate) fn set_location(&mut self, location: &str)
        ensures
            final(self)@ == (LogView { location: Some(location@), ..old(self)@ }),
    {
        self.location = Some(String::from_str(location));
    }

    /// Sets `name`.
    pub(crate) fn set_name(&mut self, name: &str)
        ensures
            final(self)@ == (LogView { name: Some(name@), ..old(self)@ }),
    {
        self.name = Some(String::from_str(name));
    }

    /// Adds `line` to the address, on a line of its own.
    pub(crate) fn add_address(&mut self, line: &str)
        ensures
            final(self)@ == (LogView {
                address: Some(with_line(old(self)@.address, line@)),
                ..old(self)@
            }),
    {
        let mut address = String::new();
        match &self.address {
            Some(before) => {
                address.append(before.as_str());
                address.append("\n");
                address.append(line);
                assert(address@ =~= before@ + "\n"@ + line@);
            },
            None => {
                address.append(line);
                assert(address@ =~= line@);
            },
        }
        self.address = Some(address);
    }

    /// Adds `names` behind the operators.
    pub(crate) fn add_operators(&mut self, names: Vec<String>)
        ensures
            final(self)@ == (LogView {
                operators: old(self)@.operators + texts(names@),
                ..old(self)@
            }),
    {
        let mut names = names;
        let ghost before = self.operators@;
        let ghost added = names@;
        self.operators.append(&mut names);
        assert(texts(before + added) =~= texts(before) + texts(added));
    }

    /// Adds `offtime` behind the off times.
    pub(crate) fn add_offtime(&mut self, offtime: Offtime)
        ensures
            final(self)@ == (LogView {
                offtimes: old(self)@.offtimes.push(offtime),
                ..old(self)@
            }),
    {
        self.offtimes.push(offtime);
    }

    /// Adds `line` to the remarks, on a line of its own.
    pub(crate) fn add_soapbox(&mut self, line: &str)
        ensures
            final(self)@ == (LogView {
                soapbox: Some(with_line(old(self)@.soapbox, line@)),
                ..old(self)@
            }),
    {
        let mut soapbox = String::new();
        match &self.soapbox {
            Some(before) => {
                soapbox.append(before.as_str());
                soapbox.append("\n");
                soapbox.append(line);
                assert(soapbox@ =~= before@ + "\n"@ + line@);
            },
            None => {
                soapbox.append(line);
                assert(soapbox@ =~= line@);
            },
        }
        self.soapbox = Some(soapbox);
    }

    /// Keeps `value` under the name `tag`.
    pub(crate) fn set_other_tag(&mut self, tag: &str, value: &str)
        ensures
            final(self)@ == (LogView {
                other_tags: old(self)@.other_tags.insert(tag@, value@),
                ..old(self)@
            }),
    {
        self.other_tags.insert(tag, value);
    }

    /// Adds `qso` behind the contacts.
    pub(crate) fn add_entry(&mut self, qso: Qso)
        ensures
            final(self)@ == (LogView { entries: old(self)@.entries.push(qso@), ..old(self)@ }),
    {
        let ghost before = self.entries@;
        self.entries.push(qso);
        assert(contacts(before.push(qso)) =~= contacts(before).push(qso@));
    }

    /// Adds `qso` behind the contacts that are left out.
    pub(crate) fn add_ignored_entry(&mut self, qso: Qso)
        ensures
            final(self)@ == (LogView {
                ignored_entries: old(self)@.ignored_entries.push(qso@),
                ..old(self)@
            }),
    {
        let ghost before = self.ignored_entries@;
        self.ignored_entries.push(qso);
        assert(contacts(before.push(qso)) =~= contacts(before).push(qso@));
    }

    /// Marks the log as a trial.
    pub(crate) fn set_debug(&mut self)
        ensures
            final(self)@ == (LogView { debug: true, ..old(self)@ }),
    {
        self.debug = true;
    }

}

} // verus!
