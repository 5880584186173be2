//! The "Add VPN" forms: reading a WireGuard profile and an OpenVPN import
//! from what was typed.
use vstd::prelude::*;

use crate::text::{
    comma_list, is_blank, is_blank_spec, is_white_space, lemma_blank_iff_all_white_space, lemma_trimmed_idempotent, nonblank_trimmed,
    parse_u32, parse_u32_spec, split_comma_list, split_pieces, trim, trimmed, views,
};

verus! {

/// Why a form was not accepted.
#[derive(Clone, Copy, Debug, PartialEq, Eq, Structural)]
pub enum FormError {
    /// A required WireGuard field is blank.
    MissingFields,
    /// No OpenVPN file was given.
    NoFile,
}

impl FormError {
    /// The status text shown for the error.
    pub fn message(&self) -> (r: &'static str)
        ensures
            *self == FormError::MissingFields ==> r@ == "Fill in all required fields"@,
            *self == FormError::NoFile ==> r@ == "Select an .ovpn file"@,
    {
        match self {
            FormError::MissingFields => "Fill in all required fields",
            FormError::NoFile => "Select an .ovpn file",
        }
    }
}

/// The WireGuard form as typed.
#[derive(Clone, Debug)]
pub struct WireGuardForm {
    pub name: String,
    pub gateway: String,
    pub private_key: String,
    pub address: String,
    pub peer_public_key: String,
    pub peer_endpoint: String,
    pub allowed_ips: String,
    pub keepalive: String,
    pub dns: String,
    pub mtu: String,
}

/// A WireGuard profile read from the form, with one peer.
#[derive(Clone, Debug)]
pub struct WireGuardRequest {
    pub name: String,
    pub gateway: String,
    pub private_key: String,
    pub address: String,
    pub peer_public_key: String,
    pub peer_endpoint: String,
    pub allowed_ips: Vec<String>,
    pub persistent_keepalive: Option<u32>,
    pub dns: Option<Vec<String>>,
    pub mtu: Option<u32>,
}

/// Every required field holds more than white space: name, gateway, private
/// key, address, peer key, peer endpoint and allowed IPs.
pub open spec fn wireguard_complete(f: WireGuardForm) -> bool {
    &&& !is_blank_spec(f.name@)
    &&& !is_blank_spec(f.gateway@)
    &&& !is_blank_spec(f.private_key@)
    &&& !is_blank_spec(f.address@)
    &&& !is_blank_spec(f.peer_public_key@)
    &&& !is_blank_spec(f.peer_endpoint@)
    &&& !is_blank_spec(f.allowed_ips@)
}

/// A field holds something other than white space.
pub open spec fn has_text(s: Seq<char>) -> bool {
    exists|k: int| 0 <= k < s.len() && !is_white_space(#[trigger] s[k])
}

/// The WireGuard form is complete exactly when each of its seven required
/// fields (name, gateway, private key, address, peer key, peer endpoint,
/// allowed IPs) holds a character that is not white space; a required field
/// that is empty or all white space makes it incomplete, so that reading it
/// is refused with `MissingFields`.
pub proof fn lemma_wireguard_required_fields(f: WireGuardForm)
    ensures
        wireguard_complete(f) <==> (has_text(f.name@) && has_text(f.gateway@) && has_text(
            f.private_key@,
        ) && has_text(f.address@) && has_text(f.peer_public_key@) && has_text(f.peer_endpoint@)
            && has_text(f.allowed_ips@)),
        f.private_key@.len() == 0 ==> !wireguard_complete(f),
{
    lemma_blank_iff_all_white_space(f.name@);
    lemma_blank_iff_all_white_space(f.gateway@);
    lemma_blank_iff_all_white_space(f.private_key@);
    lemma_blank_iff_all_white_space(f.address@);
    lemma_blank_iff_all_white_space(f.peer_public_key@);
    lemma_blank_iff_all_white_space(f.peer_endpoint@);
    lemma_blank_iff_all_white_space(f.allowed_ips@);
}

/// `r` is the profile read from `f`: text fields trimmed; allowed IPs and DNS
/// servers split at commas, trimmed, empty entries dropped; DNS servers only
/// when the field is not blank; keepalive and MTU when they parse as `u32`
/// once trimmed.
pub open spec fn wireguard_request_of(r: WireGuardRequest, f: WireGuardForm) -> bool {
    &&& r.name@ == trimmed(f.name@)
    &&& r.gateway@ == trimmed(f.gateway@)
    &&& r.private_key@ == trimmed(f.private_key@)
    &&& r.address@ == trimmed(f.address@)
    &&& r.peer_public_key@ == trimmed(f.peer_public_key@)
    &&& r.peer_endpoint@ == trimmed(f.peer_endpoint@)
    &&& views(r.allowed_ips@) == comma_list(f.allowed_ips@)
    &&& r.persistent_keepalive == parse_u32_spec(trimmed(f.keepalive@))
    &&& match r.dns {
        Some(d) => !is_blank_spec(f.dns@) && views(d@) == comma_list(f.dns@),
        None => is_blank_spec(f.dns@),
    }
    &&& r.mtu == parse_u32_spec(trimmed(f.mtu@))
}

/// Reads the WireGuard form: refused with `MissingFields` exactly when a
/// required field is blank.
pub fn read_wireguard_form(form: &WireGuardForm) -> (r: Result<WireGuardRequest, FormError>)
    ensures
        match r {
            Ok(req) => wireguard_complete(*form) && wireguard_request_of(req, *form),
            Err(e) => !wireguard_complete(*form) && e == FormError::MissingFields,
        },
        (r is Ok) <==> (has_text(form.name@) && has_text(form.gateway@) && has_text(
            form.private_key@,
        ) && has_text(form.address@) && has_text(form.peer_public_key@) && has_text(
            form.peer_endpoint@,
        ) && has_text(form.allowed_ips@)),
{
    proof {
        lemma_wireguard_required_fields(*form);
    }
    if is_blank(form.name.as_str()) || is_blank(form.gateway.as_str()) || is_blank(
        form.private_key.as_str(),
    ) || is_blank(form.address.as_str()) || is_blank(form.peer_public_key.as_str()) || is_blank(
        form.peer_endpoint.as_str(),
    ) || is_blank(form.allowed_ips.as_str()) {
        return Err(FormError::MissingFields);
    }
    let allowed_ips = split_comma_list(form.allowed_ips.as_str());
    let keepalive_text = trim(form.keepalive.as_str());
    let persistent_keepalive = parse_u32(keepalive_text.as_str());
    let dns = if is_blank(form.dns.as_str()) {
        None
    } else {
        Some(split_comma_list(form.dns.as_str()))
    };
    let mtu_text = trim(form.mtu.as_str());
    let mtu = parse_u32(mtu_text.as_str());
    Ok(
        WireGuardRequest {
            name: trim(form.name.as_str()),
            gateway: trim(form.gateway.as_str()),
            private_key: trim(form.private_key.as_str()),
            address: trim(form.address.as_str()),
            peer_public_key: trim(form.peer_public_key.as_str()),
            peer_endpoint: trim(form.peer_endpoint.as_str()),
            allowed_ips,
            persistent_keepalive,
            dns,
            mtu,
        },
    )
}

/// The OpenVPN import form as typed.
#[derive(Clone, Debug)]
pub struct OpenVpnForm {
    pub path: String,
    pub username: String,
    pub password: String,
}

/// An OpenVPN import read from the form.
#[derive(Clone, Debug)]
pub struct OpenVpnImport {
    pub path: String,
    pub username: Option<String>,
    pub password: Option<String>,
}

/// A field's text as typed, or nothing when it is blank.
pub open spec fn unless_blank(s: Seq<char>) -> Option<Seq<char>> {
    if is_blank_spec(s) {
        None
    } else {
        Some(s)
    }
}

fn text_unless_blank(s: &String) -> (r: Option<String>)
    ensures
        match r {
            Some(t) => unless_blank(s@) == Some(t@),
            None => unless_blank(s@) is None,
        },
{
    if is_blank(s.as_str()) {
        None
    } else {
        Some(s.clone())
    }
}

/// Reads the OpenVPN form: refused with `NoFile` exactly when the path is
/// blank; the path, user name and password are kept as typed, the latter two
/// only when not blank.
pub fn read_openvpn_form(form: &OpenVpnForm) -> (r: Result<OpenVpnImport, FormError>)
    ensures
        match r {
            Ok(imp) => {
                &&& !is_blank_spec(form.path@)
                &&& imp.path@ == form.path@
                &&& match imp.username {
                    Some(u) => unless_blank(form.username@) == Some(u@),
                    None => unless_blank(form.username@) is None,
                }
                &&& match imp.password {
                    Some(p) => unless_blank(form.password@) == Some(p@),
                    None => unless_blank(form.password@) is None,
                }
            },
            Err(e) => is_blank_spec(form.path@) && e == FormError::NoFile,
        },
{
    if is_blank(form.path.as_str()) {
        return Err(FormError::NoFile);
    }
    Ok(
        OpenVpnImport {
            path: form.path.clone(),
            username: text_unless_blank(&form.username),
            password: text_unless_blank(&form.password),
        },
    )
}

proof fn lemma_nonblank_trimmed_entries(pieces: Seq<Seq<char>>)
    ensures
        forall|k: int|
            0 <= k < nonblank_trimmed(pieces).len() ==> (#[trigger] nonblank_trimmed(pieces)[k]).len()
                > 0 && trimmed(nonblank_trimmed(pieces)[k]) == nonblank_trimmed(pieces)[k],
    decreases pieces.len(),
{
    if pieces.len() > 0 {
        let rest = nonblank_trimmed(pieces.drop_last());
        lemma_nonblank_trimmed_entries(pieces.drop_last());
        lemma_trimmed_idempotent(pieces.last());
        let all = nonblank_trimmed(pieces);
        assert forall|k: int| 0 <= k < all.len() implies (#[trigger] all[k]).len() > 0 && trimmed(
            all[k],
        ) == all[k] by {
            if k < rest.len() {
                assert(all[k] == rest[k]);
            }
        }
    }
}

/// Every entry read from a comma-separated field (allowed IPs, DNS servers)
/// is non-empty and has no white space at either end.
pub proof fn lemma_comma_list_entries_clean(s: Seq<char>)
    ensures
        forall|k: int|
            0 <= k < comma_list(s).len() ==> (#[trigger] comma_list(s)[k]).len() > 0 && trimmed(
                comma_list(s)[k],
            ) == comma_list(s)[k],
{
    lemma_nonblank_trimmed_entries(split_pieces(s, ','));
}

} // verus!
