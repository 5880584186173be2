//! What the windows and pages of the interface show and decide.
pub mod connect;
pub mod header;
pub mod network_page;
pub mod networks;
pub mod refresh;
pub mod vpn_add_page;
pub mod vpn_details_page;
pub mod vpn_list;
pub mod wired_devices;
pub mod wired_page;

use vstd::prelude::*;

verus! {

/// A Wi-Fi frequency band.
#[derive(Clone, Copy, Debug, PartialEq, Eq, Structural)]
pub enum Band {
    Ghz2_4,
    Ghz5,
    Ghz6,
}

impl Band {
    /// How the band is written.
    pub open spec fn spec_label(self) -> Seq<char> {
        match self {
            Band::Ghz2_4 => "2.4GHz"@,
            Band::Ghz5 => "5GHz"@,
            Band::Ghz6 => "6GHz"@,
        }
    }

    /// How the band is written: "2.4GHz", "5GHz" or "6GHz".
    pub fn label(&self) -> (r: &'static str)
        ensures
            r@ == self.spec_label(),
    {
        match self {
            Band::Ghz2_4 => "2.4GHz",
            Band::Ghz5 => "5GHz",
            Band::Ghz6 => "6GHz",
        }
    }
}

/// The band that a frequency in MHz falls in: 2400–2500 is 2.4 GHz,
/// 5150–5925 is 5 GHz, 5926–7125 is 6 GHz; any other frequency has none.
pub open spec fn spec_band(freq: u32) -> Option<Band> {
    if 2400 <= freq <= 2500 {
        Some(Band::Ghz2_4)
    } else if 5150 <= freq <= 5925 {
        Some(Band::Ghz5)
    } else if 5926 <= freq <= 7125 {
        Some(Band::Ghz6)
    } else {
        None
    }
}

/// The band of a frequency in MHz.
pub fn band_of(freq: u32) -> (r: Option<Band>)
    ensures
        r == spec_band(freq),
{
    if 2400 <= freq && freq <= 2500 {
        Some(Band::Ghz2_4)
    } else if 5150 <= freq && freq <= 5925 {
        Some(Band::Ghz5)
    } else if 5926 <= freq && freq <= 7125 {
        Some(Band::Ghz6)
    } else {
        None
    }
}

/// The label of the band of `freq`, if it falls in one.
pub open spec fn spec_band_label(freq: u32) -> Option<Seq<char>> {
    match spec_band(freq) {
        Some(b) => Some(b.spec_label()),
        None => None,
    }
}

/// The label of the band that a frequency in MHz falls in.
pub fn freq_to_band(freq: u32) -> (r: Option<&'static str>)
    ensures
        r is Some == spec_band(freq) is Some,
        r matches Some(l) ==> Some(l@) == spec_band_label(freq),
{
    match band_of(freq) {
        Some(b) => Some(b.label()),
        None => None,
    }
}

/// Different bands are written differently.
pub proof fn lemma_band_labels_distinct(a: Band, b: Band)
    ensures
        a.spec_label() == b.spec_label() ==> a == b,
{
    reveal_strlit("2.4GHz");
    reveal_strlit("5GHz");
    reveal_strlit("6GHz");
    if a != b {
        match (a, b) {
            (Band::Ghz2_4, _) => assert(a.spec_label()[0] != b.spec_label()[0]),
            (_, Band::Ghz2_4) => assert(a.spec_label()[0] != b.spec_label()[0]),
            _ => assert(a.spec_label()[0] != b.spec_label()[0]),
        }
    }
}

} // verus!
