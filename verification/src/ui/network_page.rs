//! The details page of a Wi-Fi network. Frequencies and bit rates are shown
//! in GHz and Mbps with a decimal place, which the application formats.
use vstd::prelude::*;

use crate::model::{AccessPoint, NetworkInfo};
use crate::nm::{device_state_debug, state_debug};
use crate::text::{str_concat, decimal, decimal_string, signed_decimal, signed_decimal_string};

verus! {

/// The texts of the network details page.
#[derive(Clone, Debug)]
pub struct NetworkPageView {
    pub title: String,
    pub status: String,
    pub strength: String,
    pub bars: String,
    pub bssid: String,
    pub channel: String,
    pub mode: String,
    pub rate: String,
    pub security: String,
    pub interface: &'static str,
    pub device_state: &'static str,
    pub last_seen: &'static str,
}

/// What the details page shows of a network: strength in percent, channel
/// and rate when known ("-" otherwise), and "-" for what only an access
/// point tells.
pub fn network_page_view(info: &NetworkInfo) -> (v: NetworkPageView)
    ensures
        v.title@ == info.ssid@,
        v.status@ == info.status@,
        v.strength@ == decimal(info.strength as nat) + "%"@,
        v.bars@ == info.bars@,
        v.bssid@ == info.bssid@,
        v.channel@ == match info.channel {
            Some(c) => decimal(c as nat),
            None => "-"@,
        },
        v.mode@ == info.mode@,
        v.rate@ == match info.rate_mbps {
            Some(r) => decimal(r as nat) + " Mbps"@,
            None => "-"@,
        },
        v.security@ == info.security@,
        v.interface@ == "-"@,
        v.device_state@ == "-"@,
        v.last_seen@ == "-"@,
{
    let strength = str_concat(decimal_string(info.strength as u64).as_str(), "%");
    let channel = match info.channel {
        Some(c) => decimal_string(c as u64),
        None => "-".to_owned(),
    };
    let rate = match info.rate_mbps {
        Some(r) => str_concat(decimal_string(r as u64).as_str(), " Mbps"),
        None => "-".to_owned(),
    };
    NetworkPageView {
        title: info.ssid.clone(),
        status: info.status.clone(),
        strength,
        bars: info.bars.clone(),
        bssid: info.bssid.clone(),
        channel,
        mode: info.mode.clone(),
        rate,
        security: info.security.clone(),
        interface: "-",
        device_state: "-",
        last_seen: "-",
    }
}

/// The access point whose details complete the page: among those of the
/// network's SSID, the strongest, and of equally strong ones the last
/// (as `Iterator::max_by_key` picks).
pub open spec fn is_best_access_point(aps: Seq<AccessPoint>, ssid: Seq<char>, i: int) -> bool {
    &&& 0 <= i < aps.len()
    &&& aps[i].ssid@ == ssid
    &&& forall|j: int| 0 <= j < aps.len() && aps[j].ssid@ == ssid ==> #[trigger] aps[j].strength <= aps[i].strength
    &&& forall|j: int| i < j < aps.len() && aps[j].ssid@ == ssid ==> #[trigger] aps[j].strength < aps[i].strength
}

/// The index of the access point that completes the page, if the network
/// has any.
pub fn best_access_point(aps: &[AccessPoint], ssid: &str) -> (r: Option<usize>)
    ensures
        match r {
            Some(i) => is_best_access_point(aps@, ssid@, i as int),
            None => forall|j: int| 0 <= j < aps@.len() ==> #[trigger] aps@[j].ssid@ != ssid@,
        },
{
    let n = aps.len();
    let mut best: Option<usize> = None;
    let mut i: usize = 0;
    while i < n
        invariant
            i <= n == aps@.len(),
            match best {
                Some(b) => b < i && aps@[b as int].ssid@ == ssid@
                    && (forall|j: int| 0 <= j < i && aps@[j].ssid@ == ssid@ ==> #[trigger] aps@[j].strength <= aps@[b as int].strength)
                    && (forall|j: int| b < j < i && aps@[j].ssid@ == ssid@ ==> #[trigger] aps@[j].strength < aps@[b as int].strength),
                None => forall|j: int| 0 <= j < i ==> #[trigger] aps@[j].ssid@ != ssid@,
            },
        decreases n - i,
    {
        if crate::text::str_eq(aps[i].ssid.as_str(), ssid) {
            match best {
                Some(b) => {
                    if aps[i].strength >= aps[b].strength {
                        best = Some(i);
                    }
                },
                None => {
                    best = Some(i);
                },
            }
        }
        i = i + 1;
    }
    best
}

/// What an access point adds to the details page.
#[derive(Clone, Debug)]
pub struct AccessPointView {
    pub bssid: String,
    pub interface: String,
    pub device_state: String,
    pub last_seen: String,
    /// Whether to show its bit rate (known only when above zero).
    pub show_bitrate: bool,
}

/// The access point's BSSID, interface, device state (as `{:?}` writes it),
/// how long ago it was seen ("Ns ago", "-" when unknown), and whether its
/// bit rate is known.
pub fn access_point_view(ap: &AccessPoint) -> (v: AccessPointView)
    ensures
        v.bssid@ == ap.bssid@,
        v.interface@ == ap.interface@,
        v.device_state@ == state_debug(ap.device_state),
        v.last_seen@ == match ap.last_seen_secs {
            Some(s) => signed_decimal(s as int) + "s ago"@,
            None => "-"@,
        },
        v.show_bitrate == (ap.max_bitrate_kbps > 0),
{
    let last_seen = match ap.last_seen_secs {
        Some(s) => str_concat(signed_decimal_string(s).as_str(), "s ago"),
        None => "-".to_owned(),
    };
    AccessPointView {
        bssid: ap.bssid.clone(),
        interface: ap.interface.clone(),
        device_state: device_state_debug(ap.device_state.code(), matches!(ap.device_state, crate::model::DeviceState::Other(_))),
        last_seen,
        show_bitrate: ap.max_bitrate_kbps > 0,
    }
}

} // verus!
