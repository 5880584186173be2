//! The details page of a VPN profile.
use vstd::prelude::*;

use crate::model::{OpenVpnConnectionType, VpnConnection, VpnConnectionInfo, VpnDetails, VpnType};
use crate::nm::{connection_type_debug, openvpn_connection_type_debug};
use crate::text::{str_concat, decimal, decimal_string, join, joined, views};
use crate::ui::vpn_list::{type_short, vpn_type_short};

verus! {

/// What the page's action button does.
#[derive(Clone, Copy, Debug, PartialEq, Eq, Structural)]
pub enum VpnAction {
    Connect,
    Disconnect,
}

impl VpnAction {
    /// The button's label.
    pub fn label(&self) -> (r: &'static str)
        ensures
            *self == VpnAction::Connect ==> r@ == "Connect"@,
            *self == VpnAction::Disconnect ==> r@ == "Disconnect"@,
    {
        match self {
            VpnAction::Connect => "Connect",
            VpnAction::Disconnect => "Disconnect",
        }
    }

    /// The style class the button gets; the other one of the pair is removed.
    pub fn css_class(&self) -> (r: &'static str)
        ensures
            *self == VpnAction::Connect ==> r@ == "vpn-connect-btn"@,
            *self == VpnAction::Disconnect ==> r@ == "vpn-disconnect-btn"@,
    {
        match self {
            VpnAction::Connect => "vpn-connect-btn",
            VpnAction::Disconnect => "vpn-disconnect-btn",
        }
    }
}

/// The action for a profile: disconnect an active one, connect another.
pub open spec fn action_for(active: bool) -> VpnAction {
    if active {
        VpnAction::Disconnect
    } else {
        VpnAction::Connect
    }
}

/// One line of the protocol section.
#[derive(Clone, Debug)]
pub struct ProtocolRow {
    pub key: &'static str,
    pub value: String,
}

/// The protocol section: a header and its lines.
#[derive(Clone, Debug)]
pub struct ProtocolSection {
    pub header: &'static str,
    pub rows: Vec<ProtocolRow>,
}

/// The lines of a section as key and value texts.
pub open spec fn rows_view(rows: Seq<ProtocolRow>) -> Seq<(Seq<char>, Seq<char>)> {
    Seq::new(rows.len(), |i: int| (rows[i].key@, rows[i].value@))
}

/// A line for a value that may be missing.
pub open spec fn opt_row(key: Seq<char>, value: Option<Seq<char>>) -> Seq<(Seq<char>, Seq<char>)> {
    match value {
        Some(v) => seq![(key, v)],
        None => Seq::<(Seq<char>, Seq<char>)>::empty(),
    }
}

/// The view of an optional string.
pub open spec fn opt_string(o: Option<String>) -> Option<Seq<char>> {
    match o {
        Some(s) => Some(s@),
        None => None,
    }
}

/// The protocol section of a saved profile: WireGuard and OpenVPN settings;
/// other protocols have none.
pub open spec fn type_section(t: VpnType) -> Option<(Seq<char>, Seq<(Seq<char>, Seq<char>)>)> {
    match t {
        VpnType::WireGuard { peer_public_key, endpoint, allowed_ips, persistent_keepalive } => Some(
            (
                "WireGuard"@,
                opt_row("Peer Public Key"@, opt_string(peer_public_key)) + opt_row(
                    "Endpoint"@,
                    opt_string(endpoint),
                ) + (if allowed_ips@.len() > 0 {
                    seq![("Allowed IPs"@, joined(views(allowed_ips@), ", "@))]
                } else {
                    Seq::<(Seq<char>, Seq<char>)>::empty()
                }) + opt_row(
                    "Keepalive"@,
                    match persistent_keepalive {
                        Some(k) => Some(decimal(k as nat) + "s"@),
                        None => None,
                    },
                ),
            ),
        ),
        VpnType::OpenVpn { remote, connection_type, user_name, ca } => Some(
            (
                "OpenVPN"@,
                opt_row("Remote"@, opt_string(remote)) + opt_row(
                    "Auth Type"@,
                    match connection_type {
                        Some(c) => Some(connection_type_debug(c)),
                        None => None,
                    },
                ) + opt_row("Username"@, opt_string(user_name)) + opt_row(
                    "CA Certificate"@,
                    opt_string(ca),
                ),
            ),
        ),
        _ => None,
    }
}

/// The texts of the VPN details page.
#[derive(Clone, Debug)]
pub struct VpnDetailsView {
    pub title: String,
    pub status: &'static str,
    pub type_label: &'static str,
    pub interface: String,
    pub action: VpnAction,
    /// The protocol section, hidden when `None`.
    pub protocol: Option<ProtocolSection>,
}

/// The section as header text and lines.
pub open spec fn section_view(s: Option<ProtocolSection>) -> Option<(Seq<char>, Seq<(Seq<char>, Seq<char>)>)> {
    match s {
        Some(p) => Some((p.header@, rows_view(p.rows@))),
        None => None,
    }
}

fn push_row(rows: &mut Vec<ProtocolRow>, key: &'static str, value: String)
    ensures
        rows_view(final(rows)@) == rows_view(old(rows)@).push((key@, value@)),
{
    let ghost before = rows@;
    rows.push(ProtocolRow { key, value });
    assert(rows_view(rows@) =~= rows_view(before).push((key@, value@)));
}

fn push_opt_row(rows: &mut Vec<ProtocolRow>, key: &'static str, value: &Option<String>)
    ensures
        rows_view(final(rows)@) == rows_view(old(rows)@) + opt_row(key@, opt_string(*value)),
{
    match value {
        Some(v) => push_row(rows, key, v.clone()),
        None => {
            assert(rows_view(rows@) =~= rows_view(rows@) + opt_row(key@, opt_string(*value)));
        },
    }
}

fn type_protocol(t: &VpnType) -> (r: Option<ProtocolSection>)
    ensures
        section_view(r) == type_section(*t),
{
    match t {
        VpnType::WireGuard { peer_public_key, endpoint, allowed_ips, persistent_keepalive } => {
            let mut rows: Vec<ProtocolRow> = Vec::new();
            assert(rows_view(rows@) =~= Seq::<(Seq<char>, Seq<char>)>::empty());
            push_opt_row(&mut rows, "Peer Public Key", peer_public_key);
            push_opt_row(&mut rows, "Endpoint", endpoint);
            let ghost mid = rows_view(rows@);
            if allowed_ips.len() > 0 {
                push_row(&mut rows, "Allowed IPs", join(allowed_ips.as_slice(), ", "));
            }
            let keepalive = match persistent_keepalive {
                Some(k) => Some(str_concat(decimal_string(*k as u64).as_str(), "s")),
                None => None,
            };
            push_opt_row(&mut rows, "Keepalive", &keepalive);
            let r = Some(ProtocolSection { header: "WireGuard", rows });
            proof {
                let want = type_section(*t).unwrap().1;
                assert(section_view(r).unwrap().1 =~= want);
            }
            r
        },
        VpnType::OpenVpn { remote, connection_type, user_name, ca } => {
            let mut rows: Vec<ProtocolRow> = Vec::new();
            assert(rows_view(rows@) =~= Seq::<(Seq<char>, Seq<char>)>::empty());
            push_opt_row(&mut rows, "Remote", remote);
            let auth = match connection_type {
                Some(c) => Some(openvpn_connection_type_debug(*c)),
                None => None,
            };
            push_opt_row(&mut rows, "Auth Type", &auth);
            push_opt_row(&mut rows, "Username", user_name);
            push_opt_row(&mut rows, "CA Certificate", ca);
            let r = Some(ProtocolSection { header: "OpenVPN", rows });
            proof {
                let want = type_section(*t).unwrap().1;
                assert(section_view(r).unwrap().1 =~= want);
            }
            r
        },
        _ => None,
    }
}

/// 1 when a value is there, 0 when not.
pub open spec fn present<T>(o: Option<T>) -> int {
    if o is Some { 1 } else { 0 }
}

proof fn lemma_opt_row_len(key: Seq<char>, value: Option<Seq<char>>)
    ensures
        opt_row(key, value).len() == present(value),
        value matches Some(v) ==> opt_row(key, value)[0] == (key, v),
{
}

/// The protocol section of a saved WireGuard profile shows, in this order,
/// the peer's public key, the endpoint, the allowed IPs (joined by ", ") and
/// the keepalive (in seconds), each exactly when the profile has it, and
/// nothing else.
pub proof fn lemma_wireguard_section_rows(
    peer_public_key: Option<String>,
    endpoint: Option<String>,
    allowed_ips: Vec<String>,
    persistent_keepalive: Option<u32>,
)
    ensures
        ({
            let t = VpnType::WireGuard { peer_public_key, endpoint, allowed_ips, persistent_keepalive };
            let rows = type_section(t).unwrap().1;
            let i_ep = present(peer_public_key);
            let i_ips = i_ep + present(endpoint);
            let i_ka = i_ips + (if allowed_ips@.len() > 0 { 1int } else { 0 });
            &&& type_section(t) is Some
            &&& type_section(t).unwrap().0 == "WireGuard"@
            &&& rows.len() == i_ka + present(persistent_keepalive)
            &&& (peer_public_key matches Some(p) ==> rows[0] == ("Peer Public Key"@, p@))
            &&& (endpoint matches Some(e) ==> rows[i_ep] == ("Endpoint"@, e@))
            &&& (allowed_ips@.len() > 0 ==> rows[i_ips] == ("Allowed IPs"@, joined(views(allowed_ips@), ", "@)))
            &&& (persistent_keepalive matches Some(k) ==> rows[i_ka] == ("Keepalive"@, decimal(k as nat) + "s"@))
        }),
{
    let a = opt_row("Peer Public Key"@, opt_string(peer_public_key));
    let b = opt_row("Endpoint"@, opt_string(endpoint));
    let c = if allowed_ips@.len() > 0 {
        seq![("Allowed IPs"@, joined(views(allowed_ips@), ", "@))]
    } else {
        Seq::<(Seq<char>, Seq<char>)>::empty()
    };
    let ka = match persistent_keepalive {
        Some(k) => Some(decimal(k as nat) + "s"@),
        None => None,
    };
    let d = opt_row("Keepalive"@, ka);
    lemma_opt_row_len("Peer Public Key"@, opt_string(peer_public_key));
    lemma_opt_row_len("Endpoint"@, opt_string(endpoint));
    lemma_opt_row_len("Keepalive"@, ka);
    let rows = a + b + c + d;
    assert(present(opt_string(peer_public_key)) == present(peer_public_key));
    assert(present(opt_string(endpoint)) == present(endpoint));
    assert(present(ka) == present(persistent_keepalive));
    if endpoint is Some {
        assert(rows[a.len() as int] == b[0]);
    }
    if allowed_ips@.len() > 0 {
        assert(rows[(a.len() + b.len()) as int] == c[0]);
    }
    if persistent_keepalive is Some {
        assert(rows[(a.len() + b.len() + c.len()) as int] == d[0]);
    }
}

/// The protocol section of a saved OpenVPN profile shows, in this order,
/// the remote, the authentication type, the user name and the CA
/// certificate, each exactly when the profile has it, and nothing else.
pub proof fn lemma_openvpn_section_rows(
    remote: Option<String>,
    connection_type: Option<OpenVpnConnectionType>,
    user_name: Option<String>,
    ca: Option<String>,
)
    ensures
        ({
            let t = VpnType::OpenVpn { remote, connection_type, user_name, ca };
            let rows = type_section(t).unwrap().1;
            let i_ct = present(remote);
            let i_user = i_ct + present(connection_type);
            let i_ca = i_user + present(user_name);
            &&& type_section(t) is Some
            &&& type_section(t).unwrap().0 == "OpenVPN"@
            &&& rows.len() == i_ca + present(ca)
            &&& (remote matches Some(r) ==> rows[0] == ("Remote"@, r@))
            &&& (connection_type matches Some(c) ==> rows[i_ct] == ("Auth Type"@, connection_type_debug(c)))
            &&& (user_name matches Some(u) ==> rows[i_user] == ("Username"@, u@))
            &&& (ca matches Some(c) ==> rows[i_ca] == ("CA Certificate"@, c@))
        }),
{
    let ct = match connection_type {
        Some(c) => Some(connection_type_debug(c)),
        None => None,
    };
    let a = opt_row("Remote"@, opt_string(remote));
    let b = opt_row("Auth Type"@, ct);
    let c = opt_row("Username"@, opt_string(user_name));
    let d = opt_row("CA Certificate"@, opt_string(ca));
    lemma_opt_row_len("Remote"@, opt_string(remote));
    lemma_opt_row_len("Auth Type"@, ct);
    lemma_opt_row_len("Username"@, opt_string(user_name));
    lemma_opt_row_len("CA Certificate"@, opt_string(ca));
    let rows = a + b + c + d;
    assert(present(opt_string(remote)) == present(remote));
    assert(present(ct) == present(connection_type));
    assert(present(opt_string(user_name)) == present(user_name));
    assert(present(opt_string(ca)) == present(ca));
    if connection_type is Some {
        assert(rows[a.len() as int] == b[0]);
    }
    if user_name is Some {
        assert(rows[(a.len() + b.len()) as int] == c[0]);
    }
    if ca is Some {
        assert(rows[(a.len() + b.len() + c.len()) as int] == d[0]);
    }
}

/// Other protocols have no protocol section.
pub proof fn lemma_other_protocols_have_no_section(t: VpnType)
    requires
        !(t is WireGuard),
        !(t is OpenVpn),
    ensures
        type_section(t) is None,
{
}

/// What the details page shows for a saved profile: its name, whether it is
/// connected, its protocol and interface, the action that the button takes,
/// and the protocol section.
pub fn vpn_details_view(vpn: &VpnConnection) -> (v: VpnDetailsView)
    ensures
        v.title@ == vpn.name@,
        v.status@ == (if vpn.active { "Connected"@ } else { "Disconnected"@ }),
        v.type_label@ == type_short(vpn.vpn_type),
        v.interface@ == match vpn.interface {
            Some(i) => i@,
            None => "-"@,
        },
        v.action == action_for(vpn.active),
        section_view(v.protocol) == type_section(vpn.vpn_type),
{
    let interface = match &vpn.interface {
        Some(i) => i.clone(),
        None => "-".to_owned(),
    };
    VpnDetailsView {
        title: vpn.name.clone(),
        status: if vpn.active { "Connected" } else { "Disconnected" },
        type_label: vpn_type_short(&vpn.vpn_type),
        interface,
        action: if vpn.active { VpnAction::Disconnect } else { VpnAction::Connect },
        protocol: type_protocol(&vpn.vpn_type),
    }
}

/// The protocol section of an active connection's details.
pub open spec fn details_section(d: VpnDetails) -> (Seq<char>, Seq<(Seq<char>, Seq<char>)>) {
    match d {
        VpnDetails::WireGuard { public_key, endpoint } => (
            "WireGuard"@,
            opt_row("Public Key"@, opt_string(public_key)) + opt_row("Endpoint"@, opt_string(endpoint)),
        ),
        VpnDetails::OpenVpn { remote, port, protocol, cipher, auth, compression } => (
            "OpenVPN"@,
            seq![("Remote"@, remote@), ("Port"@, decimal(port as nat)), ("Protocol"@, protocol@)]
                + opt_row("Cipher"@, opt_string(cipher)) + opt_row("Auth"@, opt_string(auth))
                + opt_row("Compression"@, opt_string(compression)),
        ),
    }
}

/// The protocol section of an active WireGuard connection shows its public
/// key, then its endpoint, each exactly when known; that of an active
/// OpenVPN connection shows its remote, port and protocol, then its cipher,
/// authentication and compression, each of the last three exactly when known.
pub proof fn lemma_details_section_rows(d: VpnDetails)
    ensures
        d matches VpnDetails::WireGuard { public_key, endpoint } ==> {
            let rows = details_section(d).1;
            &&& details_section(d).0 == "WireGuard"@
            &&& rows.len() == present(public_key) + present(endpoint)
            &&& (public_key matches Some(k) ==> rows[0] == ("Public Key"@, k@))
            &&& (endpoint matches Some(e) ==> rows[present(public_key)] == ("Endpoint"@, e@))
        },
        d matches VpnDetails::OpenVpn { remote, port, protocol, cipher, auth, compression } ==> {
            let rows = details_section(d).1;
            &&& details_section(d).0 == "OpenVPN"@
            &&& rows.len() == 3 + present(cipher) + present(auth) + present(compression)
            &&& rows[0] == ("Remote"@, remote@)
            &&& rows[1] == ("Port"@, decimal(port as nat))
            &&& rows[2] == ("Protocol"@, protocol@)
            &&& (cipher matches Some(c) ==> rows[3] == ("Cipher"@, c@))
            &&& (auth matches Some(a) ==> rows[3 + present(cipher)] == ("Auth"@, a@))
            &&& (compression matches Some(c) ==> rows[3 + present(cipher) + present(auth)] == ("Compression"@, c@))
        },
{
    match d {
        VpnDetails::WireGuard { public_key, endpoint } => {
            let a = opt_row("Public Key"@, opt_string(public_key));
            let b = opt_row("Endpoint"@, opt_string(endpoint));
            lemma_opt_row_len("Public Key"@, opt_string(public_key));
            lemma_opt_row_len("Endpoint"@, opt_string(endpoint));
            assert(present(opt_string(public_key)) == present(public_key));
            assert(present(opt_string(endpoint)) == present(endpoint));
            if endpoint is Some {
                assert((a + b)[a.len() as int] == b[0]);
            }
        },
        VpnDetails::OpenVpn { remote, port, protocol, cipher, auth, compression } => {
            let h = seq![("Remote"@, remote@), ("Port"@, decimal(port as nat)), ("Protocol"@, protocol@)];
            let a = opt_row("Cipher"@, opt_string(cipher));
            let b = opt_row("Auth"@, opt_string(auth));
            let c = opt_row("Compression"@, opt_string(compression));
            lemma_opt_row_len("Cipher"@, opt_string(cipher));
            lemma_opt_row_len("Auth"@, opt_string(auth));
            lemma_opt_row_len("Compression"@, opt_string(compression));
            assert(present(opt_string(cipher)) == present(cipher));
            assert(present(opt_string(auth)) == present(auth));
            assert(present(opt_string(compression)) == present(compression));
            let rows = h + a + b + c;
            assert(rows[0] == h[0] && rows[1] == h[1] && rows[2] == h[2]);
            if cipher is Some {
                assert(rows[3] == a[0]);
            }
            if auth is Some {
                assert(rows[(3 + a.len()) as int] == b[0]);
            }
            if compression is Some {
                assert(rows[(3 + a.len() + b.len()) as int] == c[0]);
            }
        },
    }
}

/// What an active connection adds to the details page.
#[derive(Clone, Debug)]
pub struct VpnInfoView {
    pub ip4: String,
    pub ip6: String,
    pub gateway: String,
    pub dns: String,
    pub interface: String,
    /// A new protocol section, or `None` to keep the one shown.
    pub protocol: Option<ProtocolSection>,
}

/// A text, or "-" when missing.
pub open spec fn or_dash(o: Option<String>) -> Seq<char> {
    match o {
        Some(s) => s@,
        None => "-"@,
    }
}

fn string_or_dash(o: &Option<String>) -> (r: String)
    ensures
        r@ == or_dash(*o),
{
    match o {
        Some(s) => s.clone(),
        None => "-".to_owned(),
    }
}

fn details_protocol(d: &VpnDetails) -> (r: ProtocolSection)
    ensures
        (r.header@, rows_view(r.rows@)) == details_section(*d),
{
    let mut rows: Vec<ProtocolRow> = Vec::new();
    assert(rows_view(rows@) =~= Seq::<(Seq<char>, Seq<char>)>::empty());
    match d {
        VpnDetails::WireGuard { public_key, endpoint } => {
            push_opt_row(&mut rows, "Public Key", public_key);
            push_opt_row(&mut rows, "Endpoint", endpoint);
            let r = ProtocolSection { header: "WireGuard", rows };
            assert(rows_view(r.rows@) =~= details_section(*d).1);
            r
        },
        VpnDetails::OpenVpn { remote, port, protocol, cipher, auth, compression } => {
            push_row(&mut rows, "Remote", remote.clone());
            push_row(&mut rows, "Port", decimal_string(*port as u64));
            push_row(&mut rows, "Protocol", protocol.clone());
            push_opt_row(&mut rows, "Cipher", cipher);
            push_opt_row(&mut rows, "Auth", auth);
            push_opt_row(&mut rows, "Compression", compression);
            let r = ProtocolSection { header: "OpenVPN", rows };
            assert(rows_view(r.rows@) =~= details_section(*d).1);
            r
        },
    }
}

/// What the details page shows of an active connection: its addresses,
/// gateway, DNS servers (joined by ", ", "-" when none) and interface, each
/// "-" when missing; and a new protocol section when details are known.
pub fn vpn_info_view(info: &VpnConnectionInfo) -> (v: VpnInfoView)
    ensures
        v.ip4@ == or_dash(info.ip4_address),
        v.ip6@ == or_dash(info.ip6_address),
        v.gateway@ == or_dash(info.gateway),
        v.dns@ == (if info.dns_servers@.len() == 0 {
            "-"@
        } else {
            joined(views(info.dns_servers@), ", "@)
        }),
        v.interface@ == or_dash(info.interface),
        match info.details {
            Some(d) => section_view(v.protocol) == Some(details_section(d)),
            None => v.protocol is None,
        },
{
    let dns = if info.dns_servers.len() == 0 {
        "-".to_owned()
    } else {
        join(info.dns_servers.as_slice(), ", ")
    };
    let protocol = match &info.details {
        Some(d) => Some(details_protocol(d)),
        None => None,
    };
    VpnInfoView {
        ip4: string_or_dash(&info.ip4_address),
        ip6: string_or_dash(&info.ip6_address),
        gateway: string_or_dash(&info.gateway),
        dns,
        interface: string_or_dash(&info.interface),
        protocol,
    }
}

} // verus!
