//! Calls into the `nmrs` NetworkManager library for the few things it
//! computes from plain values: how it writes device states and types, and how
//! it judges the radio switches.
use vstd::prelude::*;

use crate::model::{
    state_of_code, type_of_code, AirplaneModeState, DeviceState, DeviceType,
    OpenVpnConnectionType,
};
use crate::text::decimal;

verus! {

/// How `nmrs` displays a device state (`impl Display for DeviceState`).
pub open spec fn state_display(s: DeviceState) -> Seq<char> {
    match s {
        DeviceState::Unmanaged => "Unmanaged"@,
        DeviceState::Unavailable => "Unavailable"@,
        DeviceState::Disconnected => "Disconnected"@,
        DeviceState::Prepare => "Preparing"@,
        DeviceState::Config => "Configuring"@,
        DeviceState::NeedAuth => "NeedAuth"@,
        DeviceState::IpConfig => "IpConfig"@,
        DeviceState::IpCheck => "IpCheck"@,
        DeviceState::Secondaries => "Secondaries"@,
        DeviceState::Activated => "Activated"@,
        DeviceState::Deactivating => "Deactivating"@,
        DeviceState::Failed => "Failed"@,
        DeviceState::Other(v) => "Other("@ + decimal(v as nat) + ")"@,
    }
}

/// How a device state prints with `{:?}` (`nmrs` derives `Debug`: the
/// variant's name, and a field in brackets).
pub open spec fn state_debug(s: DeviceState) -> Seq<char> {
    match s {
        DeviceState::Unmanaged => "Unmanaged"@,
        DeviceState::Unavailable => "Unavailable"@,
        DeviceState::Disconnected => "Disconnected"@,
        DeviceState::Prepare => "Prepare"@,
        DeviceState::Config => "Config"@,
        DeviceState::NeedAuth => "NeedAuth"@,
        DeviceState::IpConfig => "IpConfig"@,
        DeviceState::IpCheck => "IpCheck"@,
        DeviceState::Secondaries => "Secondaries"@,
        DeviceState::Activated => "Activated"@,
        DeviceState::Deactivating => "Deactivating"@,
        DeviceState::Failed => "Failed"@,
        DeviceState::Other(v) => "Other("@ + decimal(v as nat) + ")"@,
    }
}

/// How `nmrs` displays the device types it names.
pub open spec fn known_type_display(t: DeviceType) -> Seq<char> {
    match t {
        DeviceType::Ethernet => "Ethernet"@,
        DeviceType::Wifi => "Wi-Fi"@,
        DeviceType::WifiP2P => "Wi-Fi P2P"@,
        DeviceType::Loopback => "Loopback"@,
        DeviceType::Bluetooth => "Bluetooth"@,
        DeviceType::Vlan => "VLAN"@,
        DeviceType::Other(_) => Seq::<char>::empty(),
    }
}

/// What `nmrs::DeviceType::Other(code)` displays as: the name that its
/// registry of device types holds for `code`, "Other(code)" for a code not
/// in it.
pub open spec fn other_device_type_name(code: u32) -> Seq<char> {
    if code == 1 {
        "Ethernet"@
    } else if code == 2 {
        "Wi-Fi"@
    } else if code == 11 {
        "VLAN"@
    } else if code == 30 {
        "Wi-Fi P2P"@
    } else if code == 32 {
        "Loopback"@
    } else if code == 20 {
        "Veth"@
    } else if code == 13 {
        "Bridge"@
    } else if code == 12 {
        "Bond"@
    } else if code == 16 {
        "TUN"@
    } else if code == 29 {
        "WireGuard"@
    } else {
        "Other("@ + decimal(code as nat) + ")"@
    }
}

/// How `nmrs` displays a device type (`impl Display for DeviceType`).
pub open spec fn type_display(t: DeviceType) -> Seq<char> {
    match t {
        DeviceType::Other(code) => other_device_type_name(code),
        _ => known_type_display(t),
    }
}

/// The `nmrs` device state that `code` and `other` describe: `Other(code)`
/// when `other`, else the state `nmrs::DeviceState::from(code)` gives.
pub open spec fn nm_state_of(code: u32, other: bool) -> DeviceState {
    if other {
        DeviceState::Other(code)
    } else {
        state_of_code(code)
    }
}

/// The `nmrs` device type that `code` and `other` describe: `Other(code)`
/// when `other`, else the type `nmrs::DeviceType::from(code)` gives.
pub open spec fn nm_type_of(code: u32, other: bool) -> DeviceType {
    if other {
        DeviceType::Other(code)
    } else {
        type_of_code(code)
    }
}

/// Builds the `nmrs::DeviceState` that `code` and `other` describe
/// (`DeviceState::Other(code)`, or `DeviceState::from(code)`) and displays
/// it; its source writes each state as `state_display` says.
#[verifier::external_body]
pub(crate) fn device_state_display(code: u32, other: bool) -> (r: String)
    ensures
        r@ == state_display(nm_state_of(code, other)),
{
    let s = if other { nmrs::DeviceState::Other(code) } else { nmrs::DeviceState::from(code) };
    s.to_string()
}

/// Builds the `nmrs::DeviceState` that `code` and `other` describe and
/// formats it with `{:?}`; the enum derives `Debug`, so unit variants print
/// their names and `Other(v)` prints `Other(v)`.
#[verifier::external_body]
pub(crate) fn device_state_debug(code: u32, other: bool) -> (r: String)
    ensures
        r@ == state_debug(nm_state_of(code, other)),
{
    let s = if other { nmrs::DeviceState::Other(code) } else { nmrs::DeviceState::from(code) };
    format!("{:?}", s)
}

/// Builds the `nmrs::DeviceType` that `code` and `other` describe
/// (`DeviceType::Other(code)`, or `DeviceType::from(code)`) and displays it:
/// the six types that `nmrs` names are written as `known_type_display` says;
/// `Other(code)` is written as its device type registry says
/// (`display_name_for_code`), which `other_device_type_name` spells out.
#[verifier::external_body]
pub(crate) fn device_type_display(code: u32, other: bool) -> (r: String)
    ensures
        r@ == type_display(nm_type_of(code, other)),
{
    let t = if other { nmrs::DeviceType::Other(code) } else { nmrs::DeviceType::from(code) };
    t.to_string()
}

/// How an OpenVPN authentication type prints with `{:?}`: `nmrs` derives
/// `Debug` on its unit-only enum, which writes the variant's name.
pub open spec fn connection_type_debug(t: OpenVpnConnectionType) -> Seq<char> {
    match t {
        OpenVpnConnectionType::Tls => "Tls"@,
        OpenVpnConnectionType::StaticKey => "StaticKey"@,
        OpenVpnConnectionType::Password => "Password"@,
        OpenVpnConnectionType::PasswordTls => "PasswordTls"@,
    }
}

/// Formats `nmrs::OpenVpnConnectionType` with `{:?}`.
#[verifier::external_body]
pub(crate) fn openvpn_connection_type_debug(t: OpenVpnConnectionType) -> (r: String)
    ensures
        r@ == connection_type_debug(t),
{
    let v = match t {
        OpenVpnConnectionType::Tls => nmrs::OpenVpnConnectionType::Tls,
        OpenVpnConnectionType::StaticKey => nmrs::OpenVpnConnectionType::StaticKey,
        OpenVpnConnectionType::Password => nmrs::OpenVpnConnectionType::Password,
        OpenVpnConnectionType::PasswordTls => nmrs::OpenVpnConnectionType::PasswordTls,
    };
    format!("{:?}", v)
}

/// Airplane mode: at least one radio exists and every radio that exists is
/// switched off in software.
pub open spec fn is_airplane_mode_spec(s: AirplaneModeState) -> bool {
    &&& (s.wifi.present || s.wwan.present || s.bluetooth.present)
    &&& (s.wifi.present ==> !s.wifi.enabled)
    &&& (s.wwan.present ==> !s.wwan.enabled)
    &&& (s.bluetooth.present ==> !s.bluetooth.enabled)
}

/// Some radio that exists is blocked by its hardware kill switch.
pub open spec fn any_hardware_killed_spec(s: AirplaneModeState) -> bool {
    ||| (s.wifi.present && !s.wifi.hardware_enabled)
    ||| (s.wwan.present && !s.wwan.hardware_enabled)
    ||| (s.bluetooth.present && !s.bluetooth.hardware_enabled)
}

/// Calls `nmrs::AirplaneModeState::is_airplane_mode` on the same three
/// radios; its source skips absent radios, answers `false` on the first one
/// switched on, and otherwise answers whether any radio was present.
#[verifier::external_body]
pub(crate) fn is_airplane_mode(s: &AirplaneModeState) -> (r: bool)
    ensures
        r == is_airplane_mode_spec(*s),
{
    nmrs::AirplaneModeState::new(
        nmrs::RadioState::with_presence(s.wifi.enabled, s.wifi.hardware_enabled, s.wifi.present),
        nmrs::RadioState::with_presence(s.wwan.enabled, s.wwan.hardware_enabled, s.wwan.present),
        nmrs::RadioState::with_presence(s.bluetooth.enabled, s.bluetooth.hardware_enabled, s.bluetooth.present),
    ).is_airplane_mode()
}

/// Calls `nmrs::AirplaneModeState::any_hardware_killed` on the same three
/// radios; its source answers whether a present radio has
/// `hardware_enabled` false.
#[verifier::external_body]
pub(crate) fn any_hardware_killed(s: &AirplaneModeState) -> (r: bool)
    ensures
        r == any_hardware_killed_spec(*s),
{
    nmrs::AirplaneModeState::new(
        nmrs::RadioState::with_presence(s.wifi.enabled, s.wifi.hardware_enabled, s.wifi.present),
        nmrs::RadioState::with_presence(s.wwan.enabled, s.wwan.hardware_enabled, s.wwan.present),
        nmrs::RadioState::with_presence(s.bluetooth.enabled, s.bluetooth.hardware_enabled, s.bluetooth.present),
    ).any_hardware_killed()
}

} // verus!
