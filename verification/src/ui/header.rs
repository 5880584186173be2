//! The header bar: connection status, connectivity, the airplane-mode
//! button, and the rules of refreshing the lists.
use vstd::prelude::*;

use crate::model::{AirplaneModeState, ConnectivityState, Device, DeviceState, RadioState, VpnConnection};
use crate::nm::{any_hardware_killed, any_hardware_killed_spec, is_airplane_mode, is_airplane_mode_spec};
use crate::text::{str_concat, str_concat3};
use crate::ui::{band_of, spec_band};

verus! {

// ---------------------------------------------------------------------------
// Connectivity
// ---------------------------------------------------------------------------

/// The status text for a connectivity state: nothing when connectivity is
/// full or unknown, a notice otherwise, with the portal's address when known.
pub open spec fn connectivity_text(state: ConnectivityState, portal_url: Option<Seq<char>>) -> Seq<char> {
    match state {
        ConnectivityState::Full => Seq::<char>::empty(),
        ConnectivityState::Portal => match portal_url {
            Some(url) => "Captive portal: "@ + url,
            None => "Captive portal detected"@,
        },
        ConnectivityState::Limited => "Limited connectivity"@,
        ConnectivityState::NoConnectivity => "No internet"@,
        ConnectivityState::Unknown => Seq::<char>::empty(),
    }
}

/// The status text for a connectivity state.
pub fn connectivity_label(state: &ConnectivityState, portal_url: Option<&str>) -> (r: String)
    ensures
        r@ == connectivity_text(
            *state,
            match portal_url {
                Some(u) => Some(u@),
                None => None,
            },
        ),
{
    match state {
        ConnectivityState::Full => String::new(),
        ConnectivityState::Portal => match portal_url {
            Some(url) => str_concat("Captive portal: ", url),
            None => "Captive portal detected".to_owned(),
        },
        ConnectivityState::Limited => "Limited connectivity".to_owned(),
        ConnectivityState::NoConnectivity => "No internet".to_owned(),
        ConnectivityState::Unknown => String::new(),
    }
}

/// What the status line should be set to after a connectivity check: the
/// connectivity text when there is one; when it is empty the line is left
/// as it is (`None`).
pub fn connectivity_status(state: &ConnectivityState, portal_url: Option<&str>) -> (r: Option<String>)
    ensures
        r is Some <==> connectivity_text(
            *state,
            match portal_url {
                Some(u) => Some(u@),
                None => None,
            },
        ).len() > 0,
        r matches Some(t) ==> t@ == connectivity_text(
            *state,
            match portal_url {
                Some(u) => Some(u@),
                None => None,
            },
        ),
{
    let text = connectivity_label(state, portal_url);
    if text.as_str().is_empty() {
        None
    } else {
        Some(text)
    }
}

// ---------------------------------------------------------------------------
// The active connection
// ---------------------------------------------------------------------------

/// What kind of connection the header shows.
#[derive(Clone, Copy, Debug, PartialEq, Eq, Structural)]
pub enum ConnectionKind {
    Vpn,
    Wired,
    Wireless,
    Offline,
}

impl ConnectionKind {
    /// The icon name of the kind.
    pub open spec fn spec_icon(self) -> Seq<char> {
        match self {
            ConnectionKind::Vpn => "network-vpn-symbolic"@,
            ConnectionKind::Wired => "network-wired-symbolic"@,
            ConnectionKind::Wireless => "network-wireless-symbolic"@,
            ConnectionKind::Offline => "network-offline-symbolic"@,
        }
    }

    /// The icon name of the kind.
    pub fn icon_name(&self) -> (r: &'static str)
        ensures
            r@ == self.spec_icon(),
    {
        match self {
            ConnectionKind::Vpn => "network-vpn-symbolic",
            ConnectionKind::Wired => "network-wired-symbolic",
            ConnectionKind::Wireless => "network-wireless-symbolic",
            ConnectionKind::Offline => "network-offline-symbolic",
        }
    }
}

/// The icon and name that the header shows for the active connection.
#[derive(Clone, Debug)]
pub struct ConnectionStatus {
    pub kind: ConnectionKind,
    pub name: String,
}

/// The first active VPN profile of `v`.
pub open spec fn first_active_vpn(v: Seq<VpnConnection>) -> Option<VpnConnection>
    decreases v.len(),
{
    if v.len() == 0 {
        None
    } else if v[0].active {
        Some(v[0])
    } else {
        first_active_vpn(v.drop_first())
    }
}

/// The first activated device of `d`.
pub open spec fn first_activated_device(d: Seq<Device>) -> Option<Device>
    decreases d.len(),
{
    if d.len() == 0 {
        None
    } else if d[0].state == DeviceState::Activated {
        Some(d[0])
    } else {
        first_activated_device(d.drop_first())
    }
}

/// An SSID with its band in brackets when the frequency falls in one.
pub open spec fn wifi_label(ssid: Seq<char>, freq: Option<u32>) -> Seq<char> {
    match freq {
        Some(f) => match spec_band(f) {
            Some(b) => ssid + " ("@ + b.spec_label() + ")"@,
            None => ssid,
        },
        None => ssid,
    }
}

/// The connection the header shows: an active VPN before an active wired
/// device before the Wi-Fi connection; "Disconnected" when there is none.
pub open spec fn status_spec(
    vpns: Seq<VpnConnection>,
    wired: Seq<Device>,
    wifi: Option<(Seq<char>, Option<u32>)>,
) -> (ConnectionKind, Seq<char>) {
    match first_active_vpn(vpns) {
        Some(v) => (ConnectionKind::Vpn, v.name@),
        None => match first_activated_device(wired) {
            Some(d) => (ConnectionKind::Wired, d.interface@),
            None => match wifi {
                Some((ssid, freq)) => (ConnectionKind::Wireless, wifi_label(ssid, freq)),
                None => (ConnectionKind::Offline, "Disconnected"@),
            },
        },
    }
}

fn find_active_vpn(vpns: &[VpnConnection]) -> (r: Option<usize>)
    ensures
        match r {
            Some(i) => i < vpns@.len() && first_active_vpn(vpns@) == Some(vpns@[i as int]),
            None => first_active_vpn(vpns@) is None,
        },
{
    let n = vpns.len();
    let mut i: usize = 0;
    assert(vpns@.skip(0) =~= vpns@);
    while i < n
        invariant
            i <= n == vpns@.len(),
            first_active_vpn(vpns@) == first_active_vpn(vpns@.skip(i as int)),
        decreases n - i,
    {
        if vpns[i].active {
            return Some(i);
        }
        assert(vpns@.skip(i as int).drop_first() =~= vpns@.skip(i + 1));
        i = i + 1;
    }
    None
}

fn find_activated_device(devices: &[Device]) -> (r: Option<usize>)
    ensures
        match r {
            Some(i) => i < devices@.len() && first_activated_device(devices@) == Some(devices@[i as int]),
            None => first_activated_device(devices@) is None,
        },
{
    let n = devices.len();
    let mut i: usize = 0;
    assert(devices@.skip(0) =~= devices@);
    while i < n
        invariant
            i <= n == devices@.len(),
            first_activated_device(devices@) == first_activated_device(devices@.skip(i as int)),
        decreases n - i,
    {
        if devices[i].state == DeviceState::Activated {
            return Some(i);
        }
        assert(devices@.skip(i as int).drop_first() =~= devices@.skip(i + 1));
        i = i + 1;
    }
    None
}

/// The SSID and band label of a Wi-Fi connection.
pub fn wifi_display(ssid: &str, freq: Option<u32>) -> (r: String)
    ensures
        r@ == wifi_label(ssid@, freq),
{
    let band = match freq {
        Some(f) => band_of(f),
        None => None,
    };
    match band {
        Some(b) => {
            let head = str_concat(ssid, " (");
            str_concat3(head.as_str(), b.label(), ")")
        },
        None => ssid.to_owned(),
    }
}

/// What the header shows, given the VPN profiles, the wired devices and the
/// Wi-Fi connection (SSID and frequency) if any.
pub fn connection_status(
    vpns: &[VpnConnection],
    wired: &[Device],
    wifi: Option<(&str, Option<u32>)>,
) -> (r: ConnectionStatus)
    ensures
        (r.kind, r.name@) == status_spec(
            vpns@,
            wired@,
            match wifi {
                Some((s, f)) => Some((s@, f)),
                None => None,
            },
        ),
{
    if let Some(i) = find_active_vpn(vpns) {
        return ConnectionStatus { kind: ConnectionKind::Vpn, name: vpns[i].name.clone() };
    }
    if let Some(i) = find_activated_device(wired) {
        return ConnectionStatus { kind: ConnectionKind::Wired, name: wired[i].interface.clone() };
    }
    match wifi {
        Some((ssid, freq)) => ConnectionStatus {
            kind: ConnectionKind::Wireless,
            name: wifi_display(ssid, freq),
        },
        None => ConnectionStatus { kind: ConnectionKind::Offline, name: "Disconnected".to_owned() },
    }
}

/// The band label of the current Wi-Fi connection's frequency.
pub fn current_band(freq: Option<u32>) -> (r: Option<&'static str>)
    ensures
        r is Some <==> (freq matches Some(f) && spec_band(f) is Some),
        r matches Some(l) ==> (freq matches Some(f) && spec_band(f) matches Some(b) && l@
            == b.spec_label()),
{
    match freq {
        Some(f) => match band_of(f) {
            Some(b) => Some(b.label()),
            None => None,
        },
        None => None,
    }
}

// ---------------------------------------------------------------------------
// Airplane mode
// ---------------------------------------------------------------------------

/// How the airplane-mode button looks.
#[derive(Clone, Copy, Debug)]
pub struct AirplaneButton {
    pub icon: &'static str,
    pub tooltip: &'static str,
    /// Add (`Some(true)`) or remove (`Some(false)`) the "airplane-active"
    /// style class, or leave it (`None`).
    pub highlight: Option<bool>,
    /// Make the button insensitive.
    pub disable: bool,
}

/// How the airplane-mode button looks, given the radio state if it could be
/// read: the airplane icon while airplane mode is on or unknown, the Wi-Fi
/// icon otherwise; a hardware kill switch overrides the tooltip.
pub fn airplane_button(state: Option<AirplaneModeState>) -> (b: AirplaneButton)
    ensures
        match state {
            Some(s) => {
                &&& b.icon@ == (if is_airplane_mode_spec(s) {
                    "airplane-mode-symbolic"@
                } else {
                    "network-wireless-symbolic"@
                })
                &&& b.tooltip@ == (if any_hardware_killed_spec(s) {
                    "A hardware radio kill switch is active"@
                } else if is_airplane_mode_spec(s) {
                    "Airplane Mode is ON — click to disable"@
                } else {
                    "Airplane Mode is OFF — click to enable"@
                })
                &&& b.highlight == Some(is_airplane_mode_spec(s))
                &&& !b.disable
            },
            None => {
                &&& b.icon@ == "airplane-mode-symbolic"@
                &&& b.tooltip@ == "Airplane mode unavailable"@
                &&& b.highlight is None
                &&& b.disable
            },
        },
{
    match state {
        Some(s) => {
            let on = is_airplane_mode(&s);
            let killed = any_hardware_killed(&s);
            let icon = if on { "airplane-mode-symbolic" } else { "network-wireless-symbolic" };
            let tooltip = if killed {
                "A hardware radio kill switch is active"
            } else if on {
                "Airplane Mode is ON — click to disable"
            } else {
                "Airplane Mode is OFF — click to enable"
            };
            AirplaneButton { icon, tooltip, highlight: Some(on), disable: false }
        },
        None => AirplaneButton {
            icon: "airplane-mode-symbolic",
            tooltip: "Airplane mode unavailable",
            highlight: None,
            disable: true,
        },
    }
}

/// The airplane mode to switch to when the button is pressed: the opposite
/// of the current one, taking an unreadable state as "off".
pub fn airplane_toggle_target(current: Option<AirplaneModeState>) -> (r: bool)
    ensures
        r == !(current matches Some(s) && is_airplane_mode_spec(s)),
{
    match current {
        Some(s) => !is_airplane_mode(&s),
        None => true,
    }
}

// ---------------------------------------------------------------------------
// Refreshing
// ---------------------------------------------------------------------------

/// A colour theme: its key, its name as shown, and its style sheet.
#[derive(Clone, Copy, Debug)]
pub struct ThemeDef {
    pub key: &'static str,
    pub name: &'static str,
    pub css: &'static str,
}

/// How the lists are refreshed.
#[derive(Clone, Copy, Debug, PartialEq, Eq, Structural)]
pub enum RefreshKind {
    /// After asking for a new Wi-Fi scan.
    Scan,
    /// From what NetworkManager already knows.
    NoScan,
}

/// The wired devices listed in a refresh: activated, disconnected, preparing
/// or configuring ones, and without a scan unmanaged ones as well.
pub open spec fn device_listed(state: DeviceState, kind: RefreshKind) -> bool {
    ||| state == DeviceState::Activated
    ||| state == DeviceState::Disconnected
    ||| state == DeviceState::Prepare
    ||| state == DeviceState::Config
    ||| (kind == RefreshKind::NoScan && state == DeviceState::Unmanaged)
}

/// The devices of `d` that a refresh lists, in order.
pub open spec fn listed_devices(d: Seq<Device>, kind: RefreshKind) -> Seq<Device>
    decreases d.len(),
{
    if d.len() == 0 {
        Seq::<Device>::empty()
    } else if device_listed(d.last().state, kind) {
        listed_devices(d.drop_last(), kind).push(d.last())
    } else {
        listed_devices(d.drop_last(), kind)
    }
}

/// The wired devices that a refresh lists.
pub fn available_devices(devices: &[Device], kind: RefreshKind) -> (out: Vec<Device>)
    ensures
        out@ == listed_devices(devices@, kind),
{
    let mut out: Vec<Device> = Vec::new();
    let n = devices.len();
    let mut i: usize = 0;
    proof {
        assert(devices@.take(0) =~= Seq::<Device>::empty());
    }
    while i < n
        invariant
            i <= n == devices@.len(),
            out@ == listed_devices(devices@.take(i as int), kind),
        decreases n - i,
    {
        proof {
            assert(devices@.take(i + 1).drop_last() =~= devices@.take(i as int));
        }
        let s = devices[i].state;
        let listed = s == DeviceState::Activated || s == DeviceState::Disconnected || s
            == DeviceState::Prepare || s == DeviceState::Config || (kind == RefreshKind::NoScan
            && s == DeviceState::Unmanaged);
        if listed {
            out.push(devices[i].duplicate());
        }
        i = i + 1;
    }
    assert(devices@.take(n as int) =~= devices@);
    out
}

/// Whether a refresh is running. Only one refresh runs at a time; a refresh
/// asked for meanwhile is dropped.
#[derive(Clone, Copy, Debug)]
pub struct ScanGate {
    scanning: bool,
}

/// Asking to start a refresh: whether it starts, and whether a refresh runs
/// afterwards.
pub open spec fn begin_spec(scanning: bool) -> (bool, bool) {
    (!scanning, true)
}

impl ScanGate {
    /// Whether a refresh is running.
    pub closed spec fn spec_scanning(&self) -> bool {
        self.scanning
    }

    /// No refresh running.
    pub fn new() -> (g: Self)
        ensures
            !g.spec_scanning(),
    {
        ScanGate { scanning: false }
    }

    /// Whether a refresh is running.
    pub fn is_scanning(&self) -> (r: bool)
        ensures
            r == self.spec_scanning(),
    {
        self.scanning
    }

    /// Starts a refresh unless one is running; says whether it started.
    pub fn try_begin(&mut self) -> (started: bool)
        ensures
            (started, final(self).spec_scanning()) == begin_spec(old(self).spec_scanning()),
    {
        if self.scanning {
            false
        } else {
            self.scanning = true;
            true
        }
    }

    /// Ends the running refresh.
    pub fn finish(&mut self)
        ensures
            !final(self).spec_scanning(),
    {
        self.scanning = false;
    }
}

/// While a refresh runs, asking for another one starts nothing, however
/// often it is asked; once it has finished, the next one starts.
pub proof fn lemma_one_refresh_at_a_time(scanning: bool)
    ensures
        !begin_spec(begin_spec(scanning).1).0,
        begin_spec(begin_spec(scanning).1).1,
        begin_spec(false).0,
{
}

/// Whether a change that NetworkManager reported should refresh the lists
/// now: only when no refresh is running and the network list is on screen.
pub fn should_refresh_live(scanning: bool, visible_page: Option<&str>) -> (r: bool)
    ensures
        r == (!scanning && (visible_page matches Some(p) && p@ == "networks"@)),
{
    if scanning {
        return false;
    }
    match visible_page {
        Some(p) => crate::text::str_eq(p, "networks"),
        None => false,
    }
}

/// How many times a refresh reads the scan results while waiting for them
/// to settle.
pub const SCAN_POLL_ROUNDS: u32 = 5;

/// Whether the scan results have settled: the same number of networks as in
/// the previous reading, and not none.
pub fn scan_settled(last_len: usize, len: usize) -> (r: bool)
    ensures
        r == (len == last_len && last_len > 0),
{
    len == last_len && last_len > 0
}

/// What the header does once it has read the Wi-Fi radio at start.
#[derive(Clone, Copy, Debug)]
pub struct StartupPlan {
    /// Show the Wi-Fi switch.
    pub show_switch: bool,
    /// Set the switch to this, if anything.
    pub switch_active: Option<bool>,
    /// Refresh with a scan (else without).
    pub scan: bool,
}

/// The switch is shown when the host has Wi-Fi and then shows whether Wi-Fi
/// is on; the first refresh scans only when Wi-Fi is there and on.
pub fn startup_plan(wifi: &RadioState) -> (p: StartupPlan)
    ensures
        p.show_switch == wifi.present,
        p.switch_active == (if wifi.present { Some(wifi.enabled) } else { None }),
        p.scan == (wifi.present && wifi.enabled),
{
    StartupPlan {
        show_switch: wifi.present,
        switch_active: if wifi.present { Some(wifi.enabled) } else { None },
        scan: wifi.present && wifi.enabled,
    }
}

/// The connection shown is never a VPN profile that is not active, nor a
/// wired device that is not activated.
pub proof fn lemma_status_shows_active_connection(
    vpns: Seq<VpnConnection>,
    wired: Seq<Device>,
    wifi: Option<(Seq<char>, Option<u32>)>,
)
    ensures
        status_spec(vpns, wired, wifi).0 == ConnectionKind::Vpn ==> exists|i: int|
            0 <= i < vpns.len() && #[trigger] vpns[i].active && vpns[i].name@ == status_spec(
                vpns,
                wired,
                wifi,
            ).1,
        status_spec(vpns, wired, wifi).0 == ConnectionKind::Wired ==> exists|i: int|
            0 <= i < wired.len() && #[trigger] wired[i].state == DeviceState::Activated
                && wired[i].interface@ == status_spec(vpns, wired, wifi).1,
        status_spec(vpns, wired, wifi).0 == ConnectionKind::Offline ==> wifi is None && (forall|
            i: int,
        | 0 <= i < vpns.len() ==> !#[trigger] vpns[i].active),
{
    lemma_first_active_vpn(vpns);
    lemma_first_activated_device(wired);
}

proof fn lemma_first_active_vpn(v: Seq<VpnConnection>)
    ensures
        first_active_vpn(v) matches Some(x) ==> exists|i: int| 0 <= i < v.len() && #[trigger] v[i] == x && x.active,
        first_active_vpn(v) is None ==> forall|i: int| 0 <= i < v.len() ==> !#[trigger] v[i].active,
    decreases v.len(),
{
    if v.len() > 0 && !v[0].active {
        let t = v.drop_first();
        lemma_first_active_vpn(t);
        if let Some(x) = first_active_vpn(t) {
            let i = choose|i: int| 0 <= i < t.len() && #[trigger] t[i] == x && x.active;
            assert(v[i + 1] == x);
        } else {
            assert forall|i: int| 0 <= i < v.len() implies !#[trigger] v[i].active by {
                if i > 0 {
                    assert(v[i] == t[i - 1]);
                }
            }
        }
    } else if v.len() > 0 {
        assert(first_active_vpn(v) == Some(v[0]));
    }
}

proof fn lemma_first_activated_device(d: Seq<Device>)
    ensures
        first_activated_device(d) matches Some(x) ==> exists|i: int|
            0 <= i < d.len() && #[trigger] d[i] == x && x.state == DeviceState::Activated,
    decreases d.len(),
{
    if d.len() > 0 && d[0].state != DeviceState::Activated {
        let t = d.drop_first();
        lemma_first_activated_device(t);
        if let Some(x) = first_activated_device(t) {
            let i = choose|i: int| 0 <= i < t.len() && #[trigger] t[i] == x && x.state == DeviceState::Activated;
            assert(d[i + 1] == x);
        }
    } else if d.len() > 0 {
        assert(first_activated_device(d) == Some(d[0]));
    }
}

} // verus!
