use nmrs_gui::model::{AccessPoint, DeviceState, NetworkInfo};
use nmrs_gui::ui::network_page::{access_point_view, best_access_point, network_page_view};

fn ap(ssid: &str, bssid: &str, strength: u8) -> AccessPoint {
    AccessPoint {
        ssid: ssid.into(),
        bssid: bssid.into(),
        interface: "wlan0".into(),
        strength,
        max_bitrate_kbps: 0,
        last_seen_secs: None,
        device_state: DeviceState::Activated,
    }
}

#[test]
fn details_page_texts() {
    let info = NetworkInfo {
        ssid: "home".into(),
        bssid: "aa:bb".into(),
        strength: 73,
        channel: Some(36),
        mode: "Infrastructure".into(),
        rate_mbps: Some(866),
        bars: "▂▄▆_".into(),
        security: "WPA2".into(),
        status: "Connected".into(),
    };
    let v = network_page_view(&info);
    assert_eq!(v.title, "home");
    assert_eq!(v.strength, "73%");
    assert_eq!(v.channel, "36");
    assert_eq!(v.rate, "866 Mbps");
    assert_eq!(v.bars, "▂▄▆_");
    assert_eq!(v.interface, "-");
    assert_eq!(v.device_state, "-");
    assert_eq!(v.last_seen, "-");
    let v = network_page_view(&NetworkInfo { channel: None, rate_mbps: None, ..info });
    assert_eq!(v.channel, "-");
    assert_eq!(v.rate, "-");
}

#[test]
fn best_access_point_is_last_strongest_of_ssid() {
    let aps = vec![ap("home", "1", 50), ap("other", "2", 90), ap("home", "3", 70), ap("home", "4", 70), ap("home", "5", 20)];
    assert_eq!(best_access_point(&aps, "home"), Some(3));
    assert_eq!(best_access_point(&aps, "other"), Some(1));
    assert_eq!(best_access_point(&aps, "none"), None);
}

#[test]
fn access_point_texts() {
    let mut a = ap("home", "aa:bb:cc", 60);
    a.last_seen_secs = Some(12);
    a.max_bitrate_kbps = 540000;
    a.device_state = DeviceState::Prepare;
    let v = access_point_view(&a);
    assert_eq!(v.bssid, "aa:bb:cc");
    assert_eq!(v.interface, "wlan0");
    assert_eq!(v.device_state, "Prepare");
    assert_eq!(v.last_seen, "12s ago");
    assert!(v.show_bitrate);
    a.last_seen_secs = None;
    a.max_bitrate_kbps = 0;
    a.device_state = DeviceState::Other(5);
    let v = access_point_view(&a);
    assert_eq!(v.last_seen, "-");
    assert!(!v.show_bitrate);
    assert_eq!(v.device_state, "Other(5)");
    a.device_state = DeviceState::Other(100);
    let v = access_point_view(&a);
    assert_eq!(v.device_state, "Other(100)");
}
