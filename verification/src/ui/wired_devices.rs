//! Rows of the wired device list.
use vstd::prelude::*;

use crate::model::{Device, DeviceState};
use crate::nm::{device_type_display, type_display};
use crate::text::str_concat;

verus! {

/// How a device type is written in the interface (`nmrs`'s `Display`).
pub open spec fn type_text(t: crate::model::DeviceType) -> Seq<char> {
    type_display(t)
}

/// How a device type is written in the interface (`nmrs`'s `Display`).
pub fn device_type_text(t: &crate::model::DeviceType) -> (r: String)
    ensures
        r@ == type_text(*t),
{
    device_type_display(t.code(), matches!(t, crate::model::DeviceType::Other(_)))
}

/// The subtitle of a device row: settled states are named, transitional and
/// unmanaged ones are not.
pub open spec fn state_subtitle(s: DeviceState) -> Option<Seq<char>> {
    match s {
        DeviceState::Activated => Some("Connected"@),
        DeviceState::Disconnected => Some("Disconnected"@),
        DeviceState::Unavailable => Some("Unavailable"@),
        DeviceState::Failed => Some("Failed"@),
        _ => None,
    }
}

/// One row of the wired device list.
#[derive(Clone, Debug)]
pub struct WiredRow {
    /// "interface (type)".
    pub title: String,
    pub subtitle: Option<&'static str>,
}

/// The row of `device`: its interface and type, and its state when settled.
pub fn wired_device_row(device: &Device) -> (row: WiredRow)
    ensures
        row.title@ == device.interface@ + " ("@ + type_text(device.device_type) + ")"@,
        row.subtitle is Some == state_subtitle(device.state) is Some,
        row.subtitle matches Some(t) ==> Some(t@) == state_subtitle(device.state),
{
    let kind = device_type_text(&device.device_type);
    let head = str_concat(device.interface.as_str(), " (");
    let head = str_concat(head.as_str(), kind.as_str());
    let title = str_concat(head.as_str(), ")");
    let subtitle = match device.state {
        DeviceState::Activated => Some("Connected"),
        DeviceState::Disconnected => Some("Disconnected"),
        DeviceState::Unavailable => Some("Unavailable"),
        DeviceState::Failed => Some("Failed"),
        _ => None,
    };
    WiredRow { title, subtitle }
}

} // verus!
