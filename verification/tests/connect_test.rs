use nmrs_gui::model::Network;
use nmrs_gui::ui::connect::{
    connect_failure, dialog_credentials, is_auth_failure, mentions_auth_failure_word, row_action, should_open_dialog,
    ConnectFailure, RowAction, WifiCredentials,
};

#[test]
fn psk_dialog_credentials() {
    match dialog_credentials(false, None, "hunter22", None, None) {
        WifiCredentials::WpaPsk { psk } => assert_eq!(psk, "hunter22"),
        other => panic!("unexpected {other:?}"),
    }
}

#[test]
fn eap_dialog_credentials() {
    match dialog_credentials(true, Some("alice"), "pw", Some("/etc/ca.pem"), Some(false)) {
        WifiCredentials::WpaEap { identity, password, system_ca_certs, ca_cert_path } => {
            assert_eq!(identity, "alice");
            assert_eq!(password, "pw");
            assert!(!system_ca_certs);
            assert_eq!(ca_cert_path, Some("file:///etc/ca.pem".to_string()));
        }
        other => panic!("unexpected {other:?}"),
    }
    match dialog_credentials(true, None, "pw", Some("   "), None) {
        WifiCredentials::WpaEap { identity, system_ca_certs, ca_cert_path, .. } => {
            assert_eq!(identity, "");
            assert!(system_ca_certs);
            assert_eq!(ca_cert_path, None);
        }
        other => panic!("unexpected {other:?}"),
    }
}

#[test]
fn dialog_skipped_for_current_network() {
    assert!(!should_open_dialog(Some("home"), "home"));
    assert!(should_open_dialog(Some("home"), "cafe"));
    assert!(should_open_dialog(None, "home"));
}

#[test]
fn failures_read_as_wrong_password() {
    assert!(is_auth_failure("Authentication failed for 'home'"));
    assert!(is_auth_failure("SUPPLICANT disconnected"));
    assert!(is_auth_failure("Invalid PSK"));
    assert!(is_auth_failure("the Password was Wrong"));
    assert!(!is_auth_failure("Network not found"));
    assert!(!is_auth_failure(""));
    assert!(matches!(connect_failure("Authentication failed"), ConnectFailure::WrongPassword));
    assert_eq!(connect_failure("WRONG key").status_text(), "Wrong password, try again");
    let f = connect_failure("Timeout waiting for connection");
    assert_eq!(f.status_text(), "✗ Failed: Timeout waiting for connection");
}

#[test]
fn row_activation() {
    let mut n = Network { id: 0, ssid: "home".into(), strength: Some(80), frequency: Some(2412), secured: false, is_eap: false };
    assert!(matches!(row_action(&n, true), RowAction::Connect { credentials: WifiCredentials::Open }));
    n.secured = true;
    match row_action(&n, true) {
        RowAction::Connect { credentials: WifiCredentials::WpaPsk { psk } } => assert_eq!(psk, ""),
        other => panic!("unexpected {other:?}"),
    }
    n.is_eap = true;
    assert!(matches!(row_action(&n, false), RowAction::AskCredentials { is_eap: true }));
}

#[test]
fn auth_words_are_matched_in_lower_case_text() {
    assert!(mentions_auth_failure_word("secrets were required: wrong psk"));
    assert!(mentions_auth_failure_word("supplicant timed out"));
    assert!(!mentions_auth_failure_word("WRONG PSK"));
    assert!(!mentions_auth_failure_word("device unavailable"));
}
