//! Frequencies, and the amateur bands that they fall into.

use crate::error::{CabrilloErrorKind, KindView};
use crate::text::{decimal_text, push_decimal};
use vstd::prelude::*;
use vstd::string::StringExecFns;

verus! {

/// Where on the spectrum a contact was made: a number of kilohertz, or
/// light.
#[derive(Debug, Copy, Clone, PartialEq, Eq, Structural)]
pub enum Frequency {
    Khz(u32),
    Light,
}

/// How a frequency reads.
pub open spec fn frequency_text(frequency: Frequency) -> Seq<char> {
    match frequency {
        Frequency::Khz(khz) => decimal_text(khz as nat) + " KHz"@,
        Frequency::Light => "LIGHT"@,
    }
}

impl Frequency {
    /// Whether the contact was made on light.
    pub fn is_light(&self) -> (light: bool)
        ensures
            light == (*self is Light),
    {
        match self {
            Frequency::Khz(_) => false,
            Frequency::Light => true,
        }
    }

    /// The frequency as text: the kilohertz in base ten and the unit, or
    /// `LIGHT`.
    pub fn to_string(&self) -> (text: String)
        ensures
            text@ == frequency_text(*self),
    {
        match self {
            Frequency::Khz(khz) => {
                let mut text = String::new();
                push_decimal(&mut text, *khz as u64);
                text.append(" KHz");
                text
            },
            Frequency::Light => String::from_str("LIGHT"),
        }
    }
}

/// An amateur band, or one of the groups of bands that a log can be entered
/// for.
#[derive(Debug, Copy, Clone, PartialEq, Eq, Structural)]
pub enum Band {
    All,
    Band160M,
    Band80M,
    Band40M,
    Band20M,
    Band15M,
    Band10M,
    Band6M,
    Band4M,
    Band2M,
    Band222,
    Band432,
    Band902,
    Band1_2G,
    Band2_3G,
    Band3_4G,
    Band5_7G,
    Band10G,
    Band24G,
    Band47G,
    Band75G,
    Band123G,
    Band134G,
    Band241G,
    Light,
    Vhf3Band,
    VhfFmOnly,
}

/// The lowest and the highest kilohertz of a band, both inside it. `All`,
/// `Light` and the two VHF groups have no such pair.
pub open spec fn band_range(band: Band) -> Option<(int, int)> {
    match band {
        Band::Band160M => Some((1800, 2000)),
        Band::Band80M => Some((3500, 4000)),
        Band::Band40M => Some((7000, 7300)),
        Band::Band20M => Some((14000, 14350)),
        Band::Band15M => Some((21000, 21450)),
        Band::Band10M => Some((28000, 29700)),
        Band::Band6M => Some((50000, 54000)),
        Band::Band4M => Some((70000, 70500)),
        Band::Band2M => Some((144000, 148000)),
        Band::Band222 => Some((219000, 225000)),
        Band::Band432 => Some((420000, 450000)),
        Band::Band902 => Some((902000, 928000)),
        Band::Band1_2G => Some((1240000, 1300000)),
        Band::Band2_3G => Some((2390000, 2450000)),
        Band::Band3_4G => Some((3300000, 3500000)),
        Band::Band5_7G => Some((5650000, 5925000)),
        Band::Band10G => Some((10000000, 10500000)),
        Band::Band24G => Some((24000000, 24250000)),
        Band::Band47G => Some((47000000, 47200000)),
        Band::Band75G => Some((76000000, 81000000)),
        Band::Band123G => Some((122250000, 123000000)),
        Band::Band134G => Some((134000000, 141000000)),
        Band::Band241G => Some((241000000, 250000000)),
        Band::All | Band::Light | Band::Vhf3Band | Band::VhfFmOnly => None,
    }
}

/// The kilohertz from which on a frequency counts as light.
pub open spec fn light_from() -> int {
    300000000
}

/// Whether `khz` lies in the range of `band`.
pub open spec fn in_band(khz: int, band: Band) -> bool {
    match band_range(band) {
        Some((low, high)) => low <= khz <= high,
        None => false,
    }
}

/// The band that `khz` kilohertz fall into: the band whose range holds
/// them, `Light` from `light_from()` on, none otherwise.
pub open spec fn band_of_khz(khz: int) -> Option<Band> {
    if in_band(khz, Band::Band160M) {
        Some(Band::Band160M)
    } else if in_band(khz, Band::Band80M) {
        Some(Band::Band80M)
    } else if in_band(khz, Band::Band40M) {
        Some(Band::Band40M)
    } else if in_band(khz, Band::Band20M) {
        Some(Band::Band20M)
    } else if in_band(khz, Band::Band15M) {
        Some(Band::Band15M)
    } else if in_band(khz, Band::Band10M) {
        Some(Band::Band10M)
    } else if in_band(khz, Band::Band6M) {
        Some(Band::Band6M)
    } else if in_band(khz, Band::Band4M) {
        Some(Band::Band4M)
    } else if in_band(khz, Band::Band2M) {
        Some(Band::Band2M)
    } else if in_band(khz, Band::Band222) {
        Some(Band::Band222)
    } else if in_band(khz, Band::Band432) {
        Some(Band::Band432)
    } else if in_band(khz, Band::Band902) {
        Some(Band::Band902)
    } else if in_band(khz, Band::Band1_2G) {
        Some(Band::Band1_2G)
    } else if in_band(khz, Band::Band2_3G) {
        Some(Band::Band2_3G)
    } else if in_band(khz, Band::Band3_4G) {
        Some(Band::Band3_4G)
    } else if in_band(khz, Band::Band5_7G) {
        Some(Band::Band5_7G)
    } else if in_band(khz, Band::Band10G) {
        Some(Band::Band10G)
    } else if in_band(khz, Band::Band24G) {
        Some(Band::Band24G)
    } else if in_band(khz, Band::Band47G) {
        Some(Band::Band47G)
    } else if in_band(khz, Band::Band75G) {
        Some(Band::Band75G)
    } else if in_band(khz, Band::Band123G) {
        Some(Band::Band123G)
    } else if in_band(khz, Band::Band134G) {
        Some(Band::Band134G)
    } else if in_band(khz, Band::Band241G) {
        Some(Band::Band241G)
    } else if khz >= light_from() {
        Some(Band::Light)
    } else {
        None
    }
}

/// The band that a frequency falls into.
pub open spec fn band_of(frequency: Frequency) -> Option<Band> {
    match frequency {
        Frequency::Khz(khz) => band_of_khz(khz as int),
        Frequency::Light => Some(Band::Light),
    }
}

/// What is said of a frequency that falls into no band.
pub open spec fn no_band_text(frequency: Frequency) -> Seq<char> {
    "The value '"@ + frequency_text(frequency) + "' does not fall within a valid amateur band"@
}

/// No two bands share a frequency, and none reaches up to light: so a
/// frequency in the range of `band` falls into `band` and into no other.
pub proof fn lemma_band_of_khz_in_range(khz: u32, band: Band)
    requires
        in_band(khz as int, band),
    ensures
        band_of(Frequency::Khz(khz)) == Some(band),
        khz < light_from(),
{
}

/// From `light_from()` on every frequency is light.
pub proof fn lemma_band_of_khz_light(khz: u32)
    requires
        khz >= light_from(),
    ensures
        band_of(Frequency::Khz(khz)) == Some(Band::Light),
{
}

/// A frequency below light that lies in the range of no band has no band.
pub proof fn lemma_band_of_khz_none(khz: u32)
    requires
        khz < light_from(),
        forall|band: Band| !in_band(khz as int, band),
    ensures
        band_of(Frequency::Khz(khz)) is None,
{
}

impl vstd::std_specs::convert::TryFromSpecImpl<Frequency> for Band {
    /// The error holds a `String`, which no spec function can make: the
    /// contract of `try_from` itself says what is returned.
    open spec fn obeys_try_from_spec() -> bool {
        false
    }

    open spec fn try_from_spec(frequency: Frequency) -> Result<Band, CabrilloErrorKind> {
        arbitrary()
    }
}

impl core::convert::TryFrom<Frequency> for Band {
    type Error = CabrilloErrorKind;

    /// The band that `frequency` falls into, or the parse error that names
    /// the frequency.
    fn try_from(frequency: Frequency) -> (band: Result<Band, CabrilloErrorKind>)
        ensures
            match band_of(frequency) {
                Some(b) => band == Ok::<Band, CabrilloErrorKind>(b),
                None => band matches Err(kind) && kind@ == KindView::ParseError(
                    no_band_text(frequency),
                ),
            },
    {
        match frequency {
            Frequency::Khz(khz) => {
                let found = if 1800 <= khz && khz <= 2000 {
                    Some(Band::Band160M)
                } else if 3500 <= khz && khz <= 4000 {
                    Some(Band::Band80M)
                } else if 7000 <= khz && khz <= 7300 {
                    Some(Band::Band40M)
                } else if 14000 <= khz && khz <= 14350 {
                    Some(Band::Band20M)
                } else if 21000 <= khz && khz <= 21450 {
                    Some(Band::Band15M)
                } else if 28000 <= khz && khz <= 29700 {
                    Some(Band::Band10M)
                } else if 50000 <= khz && khz <= 54000 {
                    Some(Band::Band6M)
                } else if 70000 <= khz && khz <= 70500 {
                    Some(Band::Band4M)
                } else if 144000 <= khz && khz <= 148000 {
                    Some(Band::Band2M)
                } else if 219000 <= khz && khz <= 225000 {
                    Some(Band::Band222)
                } else if 420000 <= khz && khz <= 450000 {
                    Some(Band::Band432)
                } else if 902000 <= khz && khz <= 928000 {
                    Some(Band::Band902)
                } else if 1240000 <= khz && khz <= 1300000 {
                    Some(Band::Band1_2G)
                } else if 2390000 <= khz && khz <= 2450000 {
                    Some(Band::Band2_3G)
                } else if 3300000 <= khz && khz <= 3500000 {
                    Some(Band::Band3_4G)
                } else if 5650000 <= khz && khz <= 5925000 {
                    Some(Band::Band5_7G)
                } else if 10000000 <= khz && khz <= 10500000 {
                    Some(Band::Band10G)
                } else if 24000000 <= khz && khz <= 24250000 {
                    Some(Band::Band24G)
                } else if 47000000 <= khz && khz <= 47200000 {
                    Some(Band::Band47G)
                } else if 76000000 <= khz && khz <= 81000000 {
                    Some(Band::Band75G)
                } else if 122250000 <= khz && khz <= 123000000 {
                    Some(Band::Band123G)
                } else if 134000000 <= khz && khz <= 141000000 {
                    Some(Band::Band134G)
                } else if 241000000 <= khz && khz <= 250000000 {
                    Some(Band::Band241G)
                } else if khz >= 300000000 {
                    Some(Band::Light)
                } else {
                    None
                };
                match found {
                    Some(b) => Ok(b),
                    None => {
                        let mut text = String::from_str("The value '");
                        text.append(frequency.to_string().as_str());
                        text.append("' does not fall within a valid amateur band");
                        Err(CabrilloErrorKind::ParseError(text))
                    },
                }
            },
            Frequency::Light => Ok(Band::Light),
        }
    }
}

} // verus!
