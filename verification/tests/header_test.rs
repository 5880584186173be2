use nmrs_gui::model::{
    AirplaneModeState, ConnectivityState, Device, DeviceState, DeviceType, RadioState,
    VpnConnection, VpnType,
};
use nmrs_gui::ui::header::{
    airplane_button, airplane_toggle_target, available_devices, connection_status,
    connectivity_label, connectivity_status, current_band, scan_settled, should_refresh_live,
    startup_plan, wifi_display, ConnectionKind, RefreshKind, ScanGate,
};

fn radio(enabled: bool, hardware_enabled: bool, present: bool) -> RadioState {
    RadioState { enabled, hardware_enabled, present }
}

fn device(interface: &str, state: DeviceState) -> Device {
    Device {
        interface: interface.to_string(),
        device_type: DeviceType::Ethernet,
        state,
        mac_address: "00:11:22:33:44:55".to_string(),
        driver: None,
        managed: None,
    }
}

fn vpn(name: &str, active: bool) -> VpnConnection {
    VpnConnection {
        uuid: format!("uuid-{name}"),
        name: name.to_string(),
        vpn_type: VpnType::Pptp,
        interface: None,
        active,
    }
}

#[test]
fn connectivity_texts() {
    assert_eq!(connectivity_label(&ConnectivityState::Full, None), "");
    assert_eq!(connectivity_label(&ConnectivityState::Unknown, Some("x")), "");
    assert_eq!(
        connectivity_label(&ConnectivityState::Portal, Some("http://login.example")),
        "Captive portal: http://login.example"
    );
    assert_eq!(connectivity_label(&ConnectivityState::Portal, None), "Captive portal detected");
    assert_eq!(connectivity_label(&ConnectivityState::Limited, None), "Limited connectivity");
    assert_eq!(connectivity_label(&ConnectivityState::NoConnectivity, None), "No internet");
    assert_eq!(connectivity_status(&ConnectivityState::Full, None), None);
    assert_eq!(connectivity_status(&ConnectivityState::Limited, None), Some("Limited connectivity".to_string()));
}

#[test]
fn active_vpn_is_shown_before_wired_and_wifi() {
    let vpns = vec![vpn("off", false), vpn("corp", true), vpn("second", true)];
    let wired = vec![device("eth0", DeviceState::Activated)];
    let s = connection_status(&vpns, &wired, Some(("home", Some(5180))));
    assert_eq!(s.kind, ConnectionKind::Vpn);
    assert_eq!(s.name, "corp");
    assert_eq!(s.kind.icon_name(), "network-vpn-symbolic");
}

#[test]
fn wired_is_shown_before_wifi() {
    let wired = vec![device("eth0", DeviceState::Disconnected), device("eth1", DeviceState::Activated)];
    let s = connection_status(&[vpn("off", false)], &wired, Some(("home", Some(5180))));
    assert_eq!(s.kind, ConnectionKind::Wired);
    assert_eq!(s.name, "eth1");
    assert_eq!(s.kind.icon_name(), "network-wired-symbolic");
}

#[test]
fn wifi_and_offline_status() {
    let s = connection_status(&[], &[], Some(("home", Some(5180))));
    assert_eq!(s.kind, ConnectionKind::Wireless);
    assert_eq!(s.name, "home (5GHz)");
    assert_eq!(s.kind.icon_name(), "network-wireless-symbolic");
    let s = connection_status(&[], &[], Some(("home", None)));
    assert_eq!(s.name, "home");
    let s = connection_status(&[], &[device("eth0", DeviceState::Prepare)], None);
    assert_eq!(s.kind, ConnectionKind::Offline);
    assert_eq!(s.name, "Disconnected");
    assert_eq!(s.kind.icon_name(), "network-offline-symbolic");
    assert_eq!(wifi_display("cafe", Some(2412)), "cafe (2.4GHz)");
    assert_eq!(wifi_display("cafe", Some(100)), "cafe");
    assert_eq!(current_band(Some(6000)), Some("6GHz"));
    assert_eq!(current_band(None), None);
}

#[test]
fn airplane_button_follows_radio_state() {
    let all_off = AirplaneModeState { wifi: radio(false, true, true), wwan: radio(false, true, true), bluetooth: radio(false, true, true) };
    let b = airplane_button(Some(all_off));
    assert_eq!(b.icon, "airplane-mode-symbolic");
    assert_eq!(b.tooltip, "Airplane Mode is ON — click to disable");
    assert_eq!(b.highlight, Some(true));
    assert!(!b.disable);

    let wifi_on = AirplaneModeState { wifi: radio(true, true, true), wwan: radio(false, true, false), bluetooth: radio(false, true, false) };
    let b = airplane_button(Some(wifi_on));
    assert_eq!(b.icon, "network-wireless-symbolic");
    assert_eq!(b.tooltip, "Airplane Mode is OFF — click to enable");
    assert_eq!(b.highlight, Some(false));

    let killed = AirplaneModeState { wifi: radio(true, false, true), wwan: radio(false, true, false), bluetooth: radio(false, true, false) };
    assert_eq!(airplane_button(Some(killed)).tooltip, "A hardware radio kill switch is active");

    let b = airplane_button(None);
    assert_eq!(b.icon, "airplane-mode-symbolic");
    assert_eq!(b.tooltip, "Airplane mode unavailable");
    assert_eq!(b.highlight, None);
    assert!(b.disable);
}

#[test]
fn absent_radios_do_not_count_for_airplane_mode() {
    let wifi_only_off = AirplaneModeState { wifi: radio(false, true, true), wwan: radio(true, true, false), bluetooth: radio(true, false, false) };
    let b = airplane_button(Some(wifi_only_off));
    assert_eq!(b.highlight, Some(true));
    assert_eq!(b.tooltip, "Airplane Mode is ON — click to disable");
    let nothing = AirplaneModeState { wifi: radio(false, true, false), wwan: radio(false, true, false), bluetooth: radio(false, true, false) };
    assert_eq!(airplane_button(Some(nothing)).highlight, Some(false));
}

#[test]
fn airplane_toggle_goes_to_the_other_mode() {
    let on = AirplaneModeState { wifi: radio(false, true, true), wwan: radio(false, true, false), bluetooth: radio(false, true, false) };
    let off = AirplaneModeState { wifi: radio(true, true, true), wwan: radio(false, true, false), bluetooth: radio(false, true, false) };
    assert!(!airplane_toggle_target(Some(on)));
    assert!(airplane_toggle_target(Some(off)));
    assert!(airplane_toggle_target(None));
}

#[test]
fn devices_listed_by_refresh_kind() {
    let devs = vec![
        device("a", DeviceState::Activated),
        device("b", DeviceState::Unmanaged),
        device("c", DeviceState::Disconnected),
        device("d", DeviceState::Unavailable),
        device("e", DeviceState::Prepare),
        device("f", DeviceState::Config),
        device("g", DeviceState::Failed),
        device("h", DeviceState::Other(7)),
    ];
    let with_scan: Vec<String> = available_devices(&devs, RefreshKind::Scan).into_iter().map(|d| d.interface).collect();
    assert_eq!(with_scan, vec!["a", "c", "e", "f"]);
    let no_scan: Vec<String> = available_devices(&devs, RefreshKind::NoScan).into_iter().map(|d| d.interface).collect();
    assert_eq!(no_scan, vec!["a", "b", "c", "e", "f"]);
}

#[test]
fn one_refresh_at_a_time() {
    let mut gate = ScanGate::new();
    assert!(!gate.is_scanning());
    assert!(gate.try_begin());
    assert!(gate.is_scanning());
    assert!(!gate.try_begin());
    assert!(!gate.try_begin());
    gate.finish();
    assert!(!gate.is_scanning());
    assert!(gate.try_begin());
}

#[test]
fn live_refresh_only_on_network_page_when_idle() {
    assert!(should_refresh_live(false, Some("networks")));
    assert!(!should_refresh_live(true, Some("networks")));
    assert!(!should_refresh_live(false, Some("settings")));
    assert!(!should_refresh_live(false, None));
}

#[test]
fn scan_settles_on_equal_nonzero_counts() {
    assert!(scan_settled(4, 4));
    assert!(!scan_settled(0, 0));
    assert!(!scan_settled(3, 4));
}

#[test]
fn startup_depends_on_wifi_radio() {
    let p = startup_plan(&radio(true, true, true));
    assert!(p.show_switch && p.scan);
    assert_eq!(p.switch_active, Some(true));
    let p = startup_plan(&radio(false, true, true));
    assert!(p.show_switch && !p.scan);
    assert_eq!(p.switch_active, Some(false));
    let p = startup_plan(&radio(true, true, false));
    assert!(!p.show_switch && !p.scan);
    assert_eq!(p.switch_active, None);
}
