//! A reader of Cabrillo contest logs.
//!
//! A log is a text of lines, each a tag and a value. `CabrilloLog` reads
//! one, line by line, into a record of typed fields, or fails with the
//! line and the tag at which it could not go on.
//!
//! What a log is made of is stated over `Seq<char>`: characters and runs
//! of them in `text`, the grammars of single values in `grammar`,
//! `category` and `timestamp`, the two layouts of a contact in `qso`, what
//! each tag does to the log in `handlers`, and the reading of lines in
//! `driver`. `laws` and `names` hold what is proved of all logs and of the
//! tables of the format.

pub mod category;
pub mod driver;
pub mod error;
pub mod frequency;
pub mod grammar;
pub mod handlers;
pub mod laws;
pub mod log;
pub mod names;
pub mod qso;
pub mod tag_map;
pub mod text;
pub mod timestamp;

pub use crate::category::{
    FormatVersion, Mode, OperatorCategory, OverlayCategory, PowerCategory, StationCategory,
    TimeCategory, TransmitterCategory,
};
pub use crate::error::{CabrilloError, CabrilloErrorKind, CabrilloResult};
pub use crate::frequency::{Band, Frequency};
pub use crate::grammar::{Offtime, SignalReport};
pub use crate::log::CabrilloLog;
pub use crate::qso::Qso;
pub use crate::tag_map::TagMap;
pub use crate::timestamp::Timestamp;
