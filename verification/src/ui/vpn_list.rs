//! The VPN section of the main list.
use vstd::prelude::*;

use crate::model::{VpnConnection, VpnType};
use crate::text::{str_concat3};
use crate::ui::vpn_details_page::{action_for, VpnAction};

verus! {

/// The short name of a VPN protocol.
pub open spec fn type_short(t: VpnType) -> Seq<char> {
    match t {
        VpnType::WireGuard { .. } => "WireGuard"@,
        VpnType::OpenVpn { .. } => "OpenVPN"@,
        VpnType::OpenConnect => "OpenConnect"@,
        VpnType::StrongSwan => "strongSwan"@,
        VpnType::Pptp => "PPTP"@,
        VpnType::L2tp => "L2TP"@,
        VpnType::Generic => "VPN"@,
    }
}

/// The short name of a VPN protocol.
pub fn vpn_type_short(vpn_type: &VpnType) -> (r: &'static str)
    ensures
        r@ == type_short(*vpn_type),
{
    match vpn_type {
        VpnType::WireGuard { .. } => "WireGuard",
        VpnType::OpenVpn { .. } => "OpenVPN",
        VpnType::OpenConnect => "OpenConnect",
        VpnType::StrongSwan => "strongSwan",
        VpnType::Pptp => "PPTP",
        VpnType::L2tp => "L2TP",
        VpnType::Generic => "VPN",
    }
}

/// The VPN section is shown only when there is a profile.
pub fn shows_vpn_section(vpns: &[VpnConnection]) -> (r: bool)
    ensures
        r == (vpns@.len() > 0),
{
    vpns.len() > 0
}

/// One row of the VPN list.
#[derive(Clone, Debug)]
pub struct VpnRow {
    pub name: String,
    pub type_label: &'static str,
    /// Marked "Connected" (label and style class).
    pub connected: bool,
}

/// The row of a profile: its name, protocol, and whether it is connected.
pub fn vpn_row(vpn: &VpnConnection) -> (r: VpnRow)
    ensures
        r.name@ == vpn.name@,
        r.type_label@ == type_short(vpn.vpn_type),
        r.connected == vpn.active,
{
    VpnRow { name: vpn.name.clone(), type_label: vpn_type_short(&vpn.vpn_type), connected: vpn.active }
}

/// What a double click on a profile does: the action, and the status text
/// shown while it runs.
#[derive(Clone, Debug)]
pub struct VpnToggle {
    pub action: VpnAction,
    pub status: String,
}

/// A double click disconnects an active profile ("Disconnecting NAME...")
/// and connects another ("Connecting to NAME...").
pub fn vpn_toggle(vpn: &VpnConnection) -> (t: VpnToggle)
    ensures
        t.action == action_for(vpn.active),
        t.status@ == (if vpn.active {
            "Disconnecting "@ + vpn.name@ + "..."@
        } else {
            "Connecting to "@ + vpn.name@ + "..."@
        }),
{
    if vpn.active {
        VpnToggle {
            action: VpnAction::Disconnect,
            status: str_concat3("Disconnecting ", vpn.name.as_str(), "..."),
        }
    } else {
        VpnToggle {
            action: VpnAction::Connect,
            status: str_concat3("Connecting to ", vpn.name.as_str(), "..."),
        }
    }
}

/// Only a double click (a press count of 2) toggles a profile.
pub fn is_double_click(presses: i32) -> (r: bool)
    ensures
        r == (presses == 2),
{
    presses == 2
}

} // verus!
