//! The details page of a wired device.
use vstd::prelude::*;

use crate::model::Device;
use crate::nm::{device_state_display, state_display};
use crate::text::str_concat;
use crate::ui::wired_devices::{device_type_text, type_text};

verus! {

/// The texts of the wired details page.
#[derive(Clone, Debug)]
pub struct WiredPageView {
    pub title: String,
    pub state: String,
    pub interface: String,
    pub device_type: String,
    pub mac_address: String,
    pub driver: String,
    pub managed: &'static str,
}

/// "Yes", "No", or "-" when unknown.
pub open spec fn managed_text(m: Option<bool>) -> Seq<char> {
    match m {
        Some(true) => "Yes"@,
        Some(false) => "No"@,
        None => "-"@,
    }
}

/// What the wired details page shows for `device`.
pub fn wired_page_view(device: &Device) -> (v: WiredPageView)
    ensures
        v.title@ == "Wired Device: "@ + device.interface@,
        v.state@ == state_display(device.state),
        v.interface@ == device.interface@,
        v.device_type@ == type_text(device.device_type),
        v.mac_address@ == device.mac_address@,
        v.driver@ == match device.driver {
            Some(d) => d@,
            None => "-"@,
        },
        v.managed@ == managed_text(device.managed),
{
    let title = str_concat("Wired Device: ", device.interface.as_str());
    let state = device_state_display(device.state.code(), matches!(device.state, crate::model::DeviceState::Other(_)));
    let driver = match &device.driver {
        Some(d) => d.clone(),
        None => "-".to_owned(),
    };
    let managed = match device.managed {
        Some(true) => "Yes",
        Some(false) => "No",
        None => "-",
    };
    WiredPageView {
        title,
        state,
        interface: device.interface.clone(),
        device_type: device_type_text(&device.device_type),
        mac_address: device.mac_address.clone(),
        driver,
        managed,
    }
}

} // verus!
