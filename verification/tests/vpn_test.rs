use nmrs_gui::model::{OpenVpnConnectionType, VpnConnection, VpnConnectionInfo, VpnDetails, VpnType};
use nmrs_gui::ui::vpn_add_page::{
    read_openvpn_form, read_wireguard_form, FormError, OpenVpnForm, WireGuardForm,
};
use nmrs_gui::ui::vpn_details_page::{vpn_details_view, vpn_info_view, VpnAction};
use nmrs_gui::ui::vpn_list::{is_double_click, shows_vpn_section, vpn_row, vpn_toggle, vpn_type_short};

fn rows(section: &nmrs_gui::ui::vpn_details_page::ProtocolSection) -> Vec<(String, String)> {
    section.rows.iter().map(|r| (r.key.to_string(), r.value.clone())).collect()
}

fn wg(active: bool) -> VpnConnection {
    VpnConnection {
        uuid: "1234".into(),
        name: "HomeVPN".into(),
        vpn_type: VpnType::WireGuard {
            peer_public_key: Some("PUBKEY".into()),
            endpoint: None,
            allowed_ips: vec!["0.0.0.0/0".into(), "::/0".into()],
            persistent_keepalive: Some(25),
        },
        interface: if active { Some("wg0".into()) } else { None },
        active,
    }
}

#[test]
fn type_labels() {
    assert_eq!(vpn_type_short(&wg(false).vpn_type), "WireGuard");
    assert_eq!(vpn_type_short(&VpnType::OpenConnect), "OpenConnect");
    assert_eq!(vpn_type_short(&VpnType::StrongSwan), "strongSwan");
    assert_eq!(vpn_type_short(&VpnType::Pptp), "PPTP");
    assert_eq!(vpn_type_short(&VpnType::L2tp), "L2TP");
    assert_eq!(vpn_type_short(&VpnType::Generic), "VPN");
}

#[test]
fn wireguard_details_page() {
    let v = vpn_details_view(&wg(true));
    assert_eq!(v.title, "HomeVPN");
    assert_eq!(v.status, "Connected");
    assert_eq!(v.type_label, "WireGuard");
    assert_eq!(v.interface, "wg0");
    assert_eq!(v.action, VpnAction::Disconnect);
    assert_eq!(v.action.label(), "Disconnect");
    assert_eq!(v.action.css_class(), "vpn-disconnect-btn");
    let p = v.protocol.unwrap();
    assert_eq!(p.header, "WireGuard");
    assert_eq!(rows(&p), vec![
        ("Peer Public Key".to_string(), "PUBKEY".to_string()),
        ("Allowed IPs".to_string(), "0.0.0.0/0, ::/0".to_string()),
        ("Keepalive".to_string(), "25s".to_string()),
    ]);

    let v = vpn_details_view(&wg(false));
    assert_eq!(v.status, "Disconnected");
    assert_eq!(v.interface, "-");
    assert_eq!(v.action, VpnAction::Connect);
    assert_eq!(v.action.label(), "Connect");
    assert_eq!(v.action.css_class(), "vpn-connect-btn");
}

#[test]
fn openvpn_details_page() {
    let c = VpnConnection {
        uuid: "u".into(),
        name: "Work".into(),
        vpn_type: VpnType::OpenVpn {
            remote: Some("vpn.example.com:1194".into()),
            connection_type: Some(OpenVpnConnectionType::PasswordTls),
            user_name: None,
            ca: Some("/etc/ca.pem".into()),
        },
        interface: None,
        active: false,
    };
    let p = vpn_details_view(&c).protocol.unwrap();
    assert_eq!(p.header, "OpenVPN");
    assert_eq!(rows(&p), vec![
        ("Remote".to_string(), "vpn.example.com:1194".to_string()),
        ("Auth Type".to_string(), "PasswordTls".to_string()),
        ("CA Certificate".to_string(), "/etc/ca.pem".to_string()),
    ]);
    let c2 = VpnConnection { vpn_type: VpnType::Pptp, ..c };
    assert!(vpn_details_view(&c2).protocol.is_none());
    assert_eq!(vpn_details_view(&c2).type_label, "PPTP");
}

#[test]
fn active_connection_info() {
    let info = VpnConnectionInfo {
        interface: Some("tun0".into()),
        gateway: None,
        ip4_address: Some("10.8.0.2/24".into()),
        ip6_address: None,
        dns_servers: vec!["1.1.1.1".into(), "8.8.8.8".into()],
        details: Some(VpnDetails::OpenVpn {
            remote: "vpn.example.com".into(),
            port: 1194,
            protocol: "udp".into(),
            cipher: Some("AES-256-GCM".into()),
            auth: None,
            compression: None,
        }),
    };
    let v = vpn_info_view(&info);
    assert_eq!(v.ip4, "10.8.0.2/24");
    assert_eq!(v.ip6, "-");
    assert_eq!(v.gateway, "-");
    assert_eq!(v.dns, "1.1.1.1, 8.8.8.8");
    assert_eq!(v.interface, "tun0");
    let p = v.protocol.unwrap();
    assert_eq!(rows(&p), vec![
        ("Remote".to_string(), "vpn.example.com".to_string()),
        ("Port".to_string(), "1194".to_string()),
        ("Protocol".to_string(), "udp".to_string()),
        ("Cipher".to_string(), "AES-256-GCM".to_string()),
    ]);

    let bare = VpnConnectionInfo { dns_servers: vec![], details: None, ..info };
    let v = vpn_info_view(&bare);
    assert_eq!(v.dns, "-");
    assert!(v.protocol.is_none());

    let wgi = VpnConnectionInfo {
        interface: None, gateway: None, ip4_address: None, ip6_address: None, dns_servers: vec![],
        details: Some(VpnDetails::WireGuard { public_key: Some("K".into()), endpoint: Some("e:1".into()) }),
    };
    let p = vpn_info_view(&wgi).protocol.unwrap();
    assert_eq!(p.header, "WireGuard");
    assert_eq!(rows(&p), vec![("Public Key".to_string(), "K".to_string()), ("Endpoint".to_string(), "e:1".to_string())]);
}

#[test]
fn vpn_list_rows_and_toggle() {
    assert!(!shows_vpn_section(&[]));
    assert!(shows_vpn_section(&[wg(false)]));
    let r = vpn_row(&wg(true));
    assert_eq!(r.name, "HomeVPN");
    assert_eq!(r.type_label, "WireGuard");
    assert!(r.connected);
    let t = vpn_toggle(&wg(true));
    assert_eq!(t.action, VpnAction::Disconnect);
    assert_eq!(t.status, "Disconnecting HomeVPN...");
    let t = vpn_toggle(&wg(false));
    assert_eq!(t.action, VpnAction::Connect);
    assert_eq!(t.status, "Connecting to HomeVPN...");
    assert!(is_double_click(2));
    assert!(!is_double_click(1));
}

fn form() -> WireGuardForm {
    WireGuardForm {
        name: " HomeVPN ".into(),
        gateway: "vpn.example.com:51820".into(),
        private_key: "PRIV".into(),
        address: "10.0.0.2/24".into(),
        peer_public_key: " PUB ".into(),
        peer_endpoint: "vpn.example.com:51820".into(),
        allowed_ips: "0.0.0.0/0, ::/0,".into(),
        keepalive: " 25 ".into(),
        dns: "1.1.1.1, 8.8.8.8".into(),
        mtu: "".into(),
    }
}

#[test]
fn wireguard_form_is_read() {
    let r = read_wireguard_form(&form()).unwrap();
    assert_eq!(r.name, "HomeVPN");
    assert_eq!(r.peer_public_key, "PUB");
    assert_eq!(r.allowed_ips, vec!["0.0.0.0/0".to_string(), "::/0".to_string()]);
    assert_eq!(r.persistent_keepalive, Some(25));
    assert_eq!(r.dns, Some(vec!["1.1.1.1".to_string(), "8.8.8.8".to_string()]));
    assert_eq!(r.mtu, None);

    let f = WireGuardForm { dns: "  ".into(), mtu: "1420".into(), keepalive: "25 (optional)".into(), ..form() };
    let r = read_wireguard_form(&f).unwrap();
    assert_eq!(r.dns, None);
    assert_eq!(r.mtu, Some(1420));
    assert_eq!(r.persistent_keepalive, None);
}

#[test]
fn wireguard_form_needs_required_fields() {
    let f = WireGuardForm { address: "   ".into(), ..form() };
    let e = read_wireguard_form(&f).unwrap_err();
    assert_eq!(e, FormError::MissingFields);
    assert_eq!(e.message(), "Fill in all required fields");
    let f = WireGuardForm { allowed_ips: "".into(), ..form() };
    assert_eq!(read_wireguard_form(&f).unwrap_err(), FormError::MissingFields);
    let f = WireGuardForm { allowed_ips: ",".into(), ..form() };
    assert_eq!(read_wireguard_form(&f).unwrap().allowed_ips, Vec::<String>::new());
}

#[test]
fn openvpn_form_is_read() {
    let f = OpenVpnForm { path: " /tmp/a.ovpn".into(), username: "  ".into(), password: " pw ".into() };
    let r = read_openvpn_form(&f).unwrap();
    assert_eq!(r.path, " /tmp/a.ovpn");
    assert_eq!(r.username, None);
    assert_eq!(r.password, Some(" pw ".to_string()));
    let f = OpenVpnForm { path: "\t".into(), username: "u".into(), password: "".into() };
    let e = read_openvpn_form(&f).unwrap_err();
    assert_eq!(e, FormError::NoFile);
    assert_eq!(e.message(), "Select an .ovpn file");
}
