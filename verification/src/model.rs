//! The values the user interface reads about networks, devices and VPNs,
//! held as plain data. The application fills them from what NetworkManager
//! reports.
use vstd::prelude::*;

verus! {

/// A Wi-Fi network seen in a scan.
#[derive(Clone, Debug)]
pub struct Network {
    /// The caller's handle for this scan result (such as its position in
    /// what NetworkManager returned); carried along unchanged.
    pub id: usize,
    pub ssid: String,
    /// Signal strength in percent.
    pub strength: Option<u8>,
    /// Frequency in MHz.
    pub frequency: Option<u32>,
    pub secured: bool,
    pub is_eap: bool,
}

impl Network {
    /// A copy of this network.
    pub fn duplicate(&self) -> (r: Self)
        ensures
            r == *self,
    {
        Network {
            id: self.id,
            ssid: self.ssid.clone(),
            strength: self.strength,
            frequency: self.frequency,
            secured: self.secured,
            is_eap: self.is_eap,
        }
    }
}

/// NetworkManager's device states.
#[derive(Clone, Copy, Debug, PartialEq, Eq, Structural)]
pub enum DeviceState {
    Unmanaged,
    Unavailable,
    Disconnected,
    Prepare,
    Config,
    NeedAuth,
    IpConfig,
    IpCheck,
    Secondaries,
    Activated,
    Deactivating,
    Failed,
    Other(u32),
}

impl DeviceState {
    /// NetworkManager's number for this state.
    pub open spec fn spec_code(self) -> u32 {
        match self {
            DeviceState::Unmanaged => 10,
            DeviceState::Unavailable => 20,
            DeviceState::Disconnected => 30,
            DeviceState::Prepare => 40,
            DeviceState::Config => 50,
            DeviceState::NeedAuth => 60,
            DeviceState::IpConfig => 70,
            DeviceState::IpCheck => 80,
            DeviceState::Secondaries => 90,
            DeviceState::Activated => 100,
            DeviceState::Deactivating => 110,
            DeviceState::Failed => 120,
            DeviceState::Other(v) => v,
        }
    }

    /// NetworkManager's number for this state.
    pub fn code(&self) -> (r: u32)
        ensures
            r == self.spec_code(),
    {
        match self {
            DeviceState::Unmanaged => 10,
            DeviceState::Unavailable => 20,
            DeviceState::Disconnected => 30,
            DeviceState::Prepare => 40,
            DeviceState::Config => 50,
            DeviceState::NeedAuth => 60,
            DeviceState::IpConfig => 70,
            DeviceState::IpCheck => 80,
            DeviceState::Secondaries => 90,
            DeviceState::Activated => 100,
            DeviceState::Deactivating => 110,
            DeviceState::Failed => 120,
            DeviceState::Other(v) => *v,
        }
    }
}

/// The state that NetworkManager's number `code` stands for.
pub open spec fn state_of_code(code: u32) -> DeviceState {
    if code == 10 {
        DeviceState::Unmanaged
    } else if code == 20 {
        DeviceState::Unavailable
    } else if code == 30 {
        DeviceState::Disconnected
    } else if code == 40 {
        DeviceState::Prepare
    } else if code == 50 {
        DeviceState::Config
    } else if code == 60 {
        DeviceState::NeedAuth
    } else if code == 70 {
        DeviceState::IpConfig
    } else if code == 80 {
        DeviceState::IpCheck
    } else if code == 90 {
        DeviceState::Secondaries
    } else if code == 100 {
        DeviceState::Activated
    } else if code == 110 {
        DeviceState::Deactivating
    } else if code == 120 {
        DeviceState::Failed
    } else {
        DeviceState::Other(code)
    }
}

/// NetworkManager's device types.
#[derive(Clone, Copy, Debug, PartialEq, Eq, Structural)]
pub enum DeviceType {
    Ethernet,
    Wifi,
    WifiP2P,
    Loopback,
    Bluetooth,
    Vlan,
    Other(u32),
}

impl DeviceType {
    /// NetworkManager's number for this type.
    pub open spec fn spec_code(self) -> u32 {
        match self {
            DeviceType::Ethernet => 1,
            DeviceType::Wifi => 2,
            DeviceType::WifiP2P => 30,
            DeviceType::Loopback => 32,
            DeviceType::Bluetooth => 5,
            DeviceType::Vlan => 11,
            DeviceType::Other(v) => v,
        }
    }

    /// NetworkManager's number for this type.
    pub fn code(&self) -> (r: u32)
        ensures
            r == self.spec_code(),
    {
        match self {
            DeviceType::Ethernet => 1,
            DeviceType::Wifi => 2,
            DeviceType::WifiP2P => 30,
            DeviceType::Loopback => 32,
            DeviceType::Bluetooth => 5,
            DeviceType::Vlan => 11,
            DeviceType::Other(v) => *v,
        }
    }
}

/// The type that NetworkManager's number `code` stands for.
pub open spec fn type_of_code(code: u32) -> DeviceType {
    if code == 1 {
        DeviceType::Ethernet
    } else if code == 2 {
        DeviceType::Wifi
    } else if code == 5 {
        DeviceType::Bluetooth
    } else if code == 11 {
        DeviceType::Vlan
    } else if code == 30 {
        DeviceType::WifiP2P
    } else if code == 32 {
        DeviceType::Loopback
    } else {
        DeviceType::Other(code)
    }
}

/// A wired network device.
#[derive(Clone, Debug)]
pub struct Device {
    pub interface: String,
    pub device_type: DeviceType,
    pub state: DeviceState,
    /// The current MAC address.
    pub mac_address: String,
    pub driver: Option<String>,
    pub managed: Option<bool>,
}

impl Device {
    /// A copy of this device.
    pub fn duplicate(&self) -> (r: Self)
        ensures
            r == *self,
    {
        Device {
            interface: self.interface.clone(),
            device_type: self.device_type,
            state: self.state,
            mac_address: self.mac_address.clone(),
            driver: match &self.driver {
                Some(d) => Some(d.clone()),
                None => None,
            },
            managed: self.managed,
        }
    }
}

/// Internet connectivity as NetworkManager reports it.
#[derive(Clone, Copy, Debug, PartialEq, Eq, Structural)]
pub enum ConnectivityState {
    Unknown,
    /// No connectivity at all.
    NoConnectivity,
    Portal,
    Limited,
    Full,
}

/// The software and hardware state of one radio.
#[derive(Clone, Copy, Debug, PartialEq, Eq, Structural)]
pub struct RadioState {
    /// Switched on in software.
    pub enabled: bool,
    /// Not blocked by a hardware kill switch.
    pub hardware_enabled: bool,
    /// The host has such a radio.
    pub present: bool,
}

/// The Wi-Fi, WWAN and Bluetooth radios together.
#[derive(Clone, Copy, Debug, PartialEq, Eq, Structural)]
pub struct AirplaneModeState {
    pub wifi: RadioState,
    pub wwan: RadioState,
    pub bluetooth: RadioState,
}

/// How an OpenVPN profile authenticates.
#[derive(Clone, Copy, Debug, PartialEq, Eq, Structural)]
pub enum OpenVpnConnectionType {
    Tls,
    StaticKey,
    Password,
    PasswordTls,
}

/// The protocol of a saved VPN profile, with what the details page shows of it.
#[derive(Clone, Debug)]
pub enum VpnType {
    WireGuard {
        peer_public_key: Option<String>,
        endpoint: Option<String>,
        allowed_ips: Vec<String>,
        persistent_keepalive: Option<u32>,
    },
    OpenVpn {
        remote: Option<String>,
        connection_type: Option<OpenVpnConnectionType>,
        user_name: Option<String>,
        ca: Option<String>,
    },
    OpenConnect,
    StrongSwan,
    Pptp,
    L2tp,
    /// Any other VPN plugin.
    Generic,
}

/// A saved VPN profile.
#[derive(Clone, Debug)]
pub struct VpnConnection {
    pub uuid: String,
    pub name: String,
    pub vpn_type: VpnType,
    pub interface: Option<String>,
    pub active: bool,
}

/// Protocol details of an active VPN connection.
#[derive(Clone, Debug)]
pub enum VpnDetails {
    WireGuard { public_key: Option<String>, endpoint: Option<String> },
    OpenVpn {
        remote: String,
        port: u16,
        protocol: String,
        cipher: Option<String>,
        auth: Option<String>,
        compression: Option<String>,
    },
}

/// What an active VPN connection reports.
#[derive(Clone, Debug)]
pub struct VpnConnectionInfo {
    pub interface: Option<String>,
    pub gateway: Option<String>,
    pub ip4_address: Option<String>,
    pub ip6_address: Option<String>,
    pub dns_servers: Vec<String>,
    pub details: Option<VpnDetails>,
}

/// Details of one Wi-Fi network.
#[derive(Clone, Debug)]
pub struct NetworkInfo {
    pub ssid: String,
    pub bssid: String,
    pub strength: u8,
    pub channel: Option<u16>,
    pub mode: String,
    pub rate_mbps: Option<u32>,
    pub bars: String,
    pub security: String,
    pub status: String,
}

/// One access point of a Wi-Fi network.
#[derive(Clone, Debug)]
pub struct AccessPoint {
    pub ssid: String,
    pub bssid: String,
    pub interface: String,
    pub strength: u8,
    pub max_bitrate_kbps: u32,
    pub last_seen_secs: Option<i64>,
    pub device_state: DeviceState,
}

/// A saved connection profile, in brief.
#[derive(Clone, Debug)]
pub struct SavedConnectionBrief {
    pub id: String,
    pub connection_type: String,
}

} // verus!
