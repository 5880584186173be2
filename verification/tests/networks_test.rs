use nmrs_gui::model::{Network, SavedConnectionBrief};
use nmrs_gui::ui::networks::{
    is_current_network, list_networks, network_rows, saved_network_ids, strongest_per_band,
    RowNote, SignalLevel,
};

fn net(ssid: &str, strength: Option<u8>, freq: Option<u32>, secured: bool) -> Network {
    Network { id: 0, ssid: ssid.to_string(), strength, frequency: freq, secured, is_eap: false }
}

fn names(nets: &[Network]) -> Vec<(String, Option<u8>)> {
    nets.iter().map(|n| (n.ssid.clone(), n.strength)).collect()
}

#[test]
fn strongest_per_band_keeps_one_entry_per_ssid_and_band() {
    let scan = vec![
        net("home", Some(40), Some(2412), true),
        net("home", Some(80), Some(2437), true),
        net("home", Some(60), Some(5180), true),
        net("cafe", Some(80), Some(2412), false),
        net("home", None, None, true),
    ];
    let out = strongest_per_band(&scan);
    assert_eq!(
        names(&out),
        vec![
            ("home".to_string(), Some(80)),
            ("cafe".to_string(), Some(80)),
            ("home".to_string(), Some(60)),
            ("home".to_string(), None),
        ]
    );
}

#[test]
fn strongest_per_band_keeps_first_of_equal_strength() {
    let scan = vec![
        net("a", Some(50), Some(2412), false),
        net("b", Some(50), Some(2412), true),
        net("a", Some(50), Some(2462), true),
    ];
    let out = strongest_per_band(&scan);
    assert_eq!(out.len(), 2);
    assert_eq!(out[0].ssid, "a");
    assert!(!out[0].secured);
    assert_eq!(out[1].ssid, "b");
}

#[test]
fn strongest_per_band_matches_std_sort_and_dedup() {
    let scan = vec![
        net("x", Some(10), Some(5200), true),
        net("y", Some(90), Some(2412), true),
        net("x", Some(70), Some(5500), true),
        net("y", Some(90), Some(2412), false),
        net("z", None, Some(6100), true),
        net("x", Some(70), Some(2412), false),
    ];
    let mut expected = scan.clone();
    expected.sort_by_key(|b| std::cmp::Reverse(b.strength.unwrap_or(0)));
    let mut seen = std::collections::HashSet::new();
    expected.retain(|n| seen.insert((n.ssid.clone(), n.frequency.and_then(nmrs_gui::ui::freq_to_band))));
    let out = strongest_per_band(&scan);
    assert_eq!(names(&out), names(&expected));
    assert_eq!(out.iter().map(|n| n.secured).collect::<Vec<_>>(), expected.iter().map(|n| n.secured).collect::<Vec<_>>());
}

#[test]
fn current_network_needs_ssid_and_band() {
    let n = net("home", Some(70), Some(5180), true);
    assert!(is_current_network(&n, Some("home"), Some("5GHz")));
    assert!(is_current_network(&n, Some("home"), None));
    assert!(!is_current_network(&n, Some("home"), Some("2.4GHz")));
    assert!(!is_current_network(&n, Some("other"), None));
    assert!(!is_current_network(&n, None, None));
    let no_freq = net("home", Some(70), None, true);
    assert!(!is_current_network(&no_freq, Some("home"), Some("5GHz")));
}

#[test]
fn list_puts_connected_first_then_strongest() {
    let scan = vec![
        net("a", Some(90), Some(2412), true),
        net("b", Some(30), Some(5180), true),
        net("  ", Some(99), Some(2412), true),
        net("c", Some(60), Some(2412), false),
        net("", Some(99), Some(2412), true),
    ];
    let listed = list_networks(&scan, Some("b"), Some("5GHz"));
    assert_eq!(names(&listed), vec![
        ("b".to_string(), Some(30)),
        ("a".to_string(), Some(90)),
        ("c".to_string(), Some(60)),
    ]);
}

#[test]
fn rows_show_band_note_and_strength() {
    let scan = vec![
        net("home", Some(80), Some(5180), true),
        net("cafe", Some(70), Some(2412), false),
        net("lib", Some(65), None, true),
        net("x", None, Some(9999), false),
    ];
    let saved = vec!["cafe".to_string()];
    let rows = network_rows(&scan, Some("home"), Some("5GHz"), &saved);
    assert_eq!(rows.len(), 4);
    assert_eq!(rows[0].title, "home (5GHz)");
    assert_eq!(rows[0].note, RowNote::Connected);
    assert_eq!(rows[0].note.subtitle(), Some("Connected"));
    let s0 = rows[0].strength.as_ref().unwrap();
    assert_eq!(s0.text, "80%");
    assert_eq!(s0.level, SignalLevel::Good);
    assert_eq!(s0.level.css_class(), "success");
    assert_eq!(rows[0].icon_name(), "network-wireless-encrypted-symbolic");
    assert_eq!(rows[0].icon_class(), "wifi-secure");

    assert_eq!(rows[1].title, "cafe (2.4GHz)");
    assert_eq!(rows[1].note, RowNote::Saved);
    assert_eq!(rows[1].note.subtitle(), Some("Saved"));
    assert_eq!(rows[1].strength.as_ref().unwrap().level, SignalLevel::Fair);
    assert_eq!(rows[1].icon_name(), "network-wireless-signal-excellent-symbolic");
    assert_eq!(rows[1].icon_class(), "wifi-open");

    assert_eq!(rows[2].title, "lib");
    assert_eq!(rows[2].note, RowNote::Plain);
    assert_eq!(rows[2].note.subtitle(), None);
    assert_eq!(rows[2].strength.as_ref().unwrap().level, SignalLevel::Weak);
    assert_eq!(rows[2].strength.as_ref().unwrap().level.css_class(), "error");

    assert_eq!(rows[3].title, "x");
    assert!(rows[3].strength.is_none());
}

#[test]
fn signal_levels_at_their_edges() {
    let scan = vec![
        net("a", Some(75), None, false),
        net("b", Some(74), None, false),
        net("c", Some(66), None, false),
        net("d", Some(65), None, false),
    ];
    let rows = network_rows(&scan, None, None, &[]);
    let levels: Vec<SignalLevel> = rows.iter().map(|r| r.strength.as_ref().unwrap().level).collect();
    assert_eq!(levels, vec![SignalLevel::Good, SignalLevel::Fair, SignalLevel::Fair, SignalLevel::Weak]);
    assert_eq!(SignalLevel::Fair.css_class(), "warning");
}

#[test]
fn saved_ids_are_the_wifi_profiles() {
    let saved = vec![
        SavedConnectionBrief { id: "home".into(), connection_type: "802-11-wireless".into() },
        SavedConnectionBrief { id: "Wired 1".into(), connection_type: "802-3-ethernet".into() },
        SavedConnectionBrief { id: "work".into(), connection_type: "802-11-wireless".into() },
        SavedConnectionBrief { id: "wg".into(), connection_type: "wireguard".into() },
    ];
    assert_eq!(saved_network_ids(&saved), vec!["home".to_string(), "work".to_string()]);
}

#[test]
fn listed_rows_keep_scan_positions() {
    let scan: Vec<Network> = vec![
        Network { id: 0, ssid: "home".to_string(), strength: Some(30), frequency: Some(2412), secured: true, is_eap: false },
        Network { id: 1, ssid: "cafe".to_string(), strength: Some(70), frequency: Some(2437), secured: false, is_eap: false },
        Network { id: 2, ssid: "home".to_string(), strength: Some(60), frequency: Some(2462), secured: true, is_eap: false },
    ];
    let listed = strongest_per_band(&scan);
    let rows = network_rows(&listed, None, None, &[]);
    let ids: Vec<usize> = rows.iter().map(|r| r.network.id).collect();
    assert_eq!(ids, vec![1, 2]);
    assert_eq!(scan[rows[1].network.id].strength, Some(60));
}
