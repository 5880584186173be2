use nmrs_gui::model::{Device, DeviceState, DeviceType};
use nmrs_gui::ui::wired_devices::{device_type_text, wired_device_row};
use nmrs_gui::ui::wired_page::wired_page_view;

fn dev(device_type: DeviceType, state: DeviceState) -> Device {
    Device {
        interface: "enp3s0".into(),
        device_type,
        state,
        mac_address: "aa:bb:cc:dd:ee:ff".into(),
        driver: Some("r8169".into()),
        managed: Some(true),
    }
}

#[test]
fn device_rows() {
    let r = wired_device_row(&dev(DeviceType::Ethernet, DeviceState::Activated));
    assert_eq!(r.title, "enp3s0 (Ethernet)");
    assert_eq!(r.subtitle, Some("Connected"));
    assert_eq!(wired_device_row(&dev(DeviceType::Ethernet, DeviceState::Disconnected)).subtitle, Some("Disconnected"));
    assert_eq!(wired_device_row(&dev(DeviceType::Ethernet, DeviceState::Unavailable)).subtitle, Some("Unavailable"));
    assert_eq!(wired_device_row(&dev(DeviceType::Ethernet, DeviceState::Failed)).subtitle, Some("Failed"));
    assert_eq!(wired_device_row(&dev(DeviceType::Ethernet, DeviceState::Prepare)).subtitle, None);
    assert_eq!(wired_device_row(&dev(DeviceType::Ethernet, DeviceState::Unmanaged)).subtitle, None);
}

#[test]
fn device_type_names() {
    assert_eq!(device_type_text(&DeviceType::Ethernet), "Ethernet");
    assert_eq!(device_type_text(&DeviceType::Wifi), "Wi-Fi");
    assert_eq!(device_type_text(&DeviceType::WifiP2P), "Wi-Fi P2P");
    assert_eq!(device_type_text(&DeviceType::Loopback), "Loopback");
    assert_eq!(device_type_text(&DeviceType::Bluetooth), "Bluetooth");
    assert_eq!(device_type_text(&DeviceType::Vlan), "VLAN");
    assert_eq!(device_type_text(&DeviceType::Other(13)), "Bridge");
    assert_eq!(device_type_text(&DeviceType::Other(999)), "Other(999)");
    assert_eq!(device_type_text(&DeviceType::Other(20)), "Veth");
    assert_eq!(device_type_text(&DeviceType::Other(12)), "Bond");
    assert_eq!(device_type_text(&DeviceType::Other(16)), "TUN");
    assert_eq!(device_type_text(&DeviceType::Other(29)), "WireGuard");
    assert_eq!(device_type_text(&DeviceType::Other(5)), "Other(5)");
    assert_eq!(device_type_text(&DeviceType::Other(1)), "Ethernet");
}

#[test]
fn other_state_with_a_known_code_stays_other() {
    let v = wired_page_view(&dev(DeviceType::Other(5), DeviceState::Other(100)));
    assert_eq!(v.state, "Other(100)");
    assert_eq!(v.device_type, "Other(5)");
}

#[test]
fn wired_details_page() {
    let v = wired_page_view(&dev(DeviceType::Ethernet, DeviceState::Prepare));
    assert_eq!(v.title, "Wired Device: enp3s0");
    assert_eq!(v.state, "Preparing");
    assert_eq!(v.interface, "enp3s0");
    assert_eq!(v.device_type, "Ethernet");
    assert_eq!(v.mac_address, "aa:bb:cc:dd:ee:ff");
    assert_eq!(v.driver, "r8169");
    assert_eq!(v.managed, "Yes");
    let d = Device { driver: None, managed: None, ..dev(DeviceType::Other(29), DeviceState::Other(7)) };
    let v = wired_page_view(&d);
    assert_eq!(v.state, "Other(7)");
    assert_eq!(v.device_type, "WireGuard");
    assert_eq!(v.driver, "-");
    assert_eq!(v.managed, "-");
    let d = Device { managed: Some(false), ..dev(DeviceType::Ethernet, DeviceState::Config) };
    let v = wired_page_view(&d);
    assert_eq!(v.managed, "No");
    assert_eq!(v.state, "Configuring");
}
