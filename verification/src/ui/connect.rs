//! Connecting to a Wi-Fi network: what a row activation does, the
//! credentials the password dialog builds, and how a failure is reported.
use vstd::prelude::*;

use crate::model::Network;
use crate::text::{
    str_concat, contains, contains_spec, is_blank, is_blank_spec, lowercase_of, str_eq, to_lowercase,
};

verus! {

/// The credentials handed to NetworkManager for a Wi-Fi connection. EAP
/// uses PEAP with MSCHAPv2 as its inner method.
#[derive(Clone, Debug)]
pub enum WifiCredentials {
    Open,
    WpaPsk { psk: String },
    WpaEap {
        identity: String,
        password: String,
        system_ca_certs: bool,
        ca_cert_path: Option<String>,
    },
}

/// The credentials the password dialog builds. An EAP dialog gives a user
/// name (empty when none), a certificate path that counts only when not
/// blank and is turned into a `file://` URI, and the system CA switch (on
/// unless the dialog says otherwise); any other network gets a WPA
/// pre-shared key.
pub open spec fn dialog_credentials_spec(
    c: WifiCredentials,
    is_eap: bool,
    username: Option<Seq<char>>,
    password: Seq<char>,
    cert_text: Option<Seq<char>>,
    use_system_ca: Option<bool>,
) -> bool {
    if is_eap {
        c matches WifiCredentials::WpaEap { identity, password: p, system_ca_certs, ca_cert_path }
            && identity@ == (match username {
            Some(u) => u,
            None => Seq::<char>::empty(),
        }) && p@ == password && system_ca_certs == (match use_system_ca {
            Some(b) => b,
            None => true,
        }) && match cert_text {
            Some(t) => if is_blank_spec(t) {
                ca_cert_path is None
            } else {
                ca_cert_path matches Some(path) && path@ == "file://"@ + t
            },
            None => ca_cert_path is None,
        }
    } else {
        c matches WifiCredentials::WpaPsk { psk } && psk@ == password
    }
}

/// The view of an optional string.
pub open spec fn opt_view(o: Option<&str>) -> Option<Seq<char>> {
    match o {
        Some(s) => Some(s@),
        None => None,
    }
}

/// The credentials built from the password dialog.
pub fn dialog_credentials(
    is_eap: bool,
    username: Option<&str>,
    password: &str,
    cert_text: Option<&str>,
    use_system_ca: Option<bool>,
) -> (c: WifiCredentials)
    ensures
        dialog_credentials_spec(
            c,
            is_eap,
            opt_view(username),
            password@,
            opt_view(cert_text),
            use_system_ca,
        ),
{
    if is_eap {
        let identity = match username {
            Some(u) => u.to_owned(),
            None => String::new(),
        };
        let ca_cert_path = match cert_text {
            Some(t) => if is_blank(t) {
                None
            } else {
                Some(str_concat("file://", t))
            },
            None => None,
        };
        let system_ca_certs = match use_system_ca {
            Some(b) => b,
            None => true,
        };
        WifiCredentials::WpaEap {
            identity,
            password: password.to_owned(),
            system_ca_certs,
            ca_cert_path,
        }
    } else {
        WifiCredentials::WpaPsk { psk: password.to_owned() }
    }
}

/// The dialog is not opened for the network the machine is already
/// connected to.
pub fn should_open_dialog(current_ssid: Option<&str>, ssid: &str) -> (r: bool)
    ensures
        r == !(current_ssid matches Some(c) && c@ == ssid@),
{
    match current_ssid {
        Some(c) => !str_eq(c, ssid),
        None => true,
    }
}

/// The words that mark a failed connection as a rejected password.
pub open spec fn auth_failure_words() -> Seq<Seq<char>> {
    seq!["authentication"@, "supplicant"@, "password"@, "psk"@, "wrong"@]
}

/// A lower-cased error text mentions one of the words of
/// `auth_failure_words`.
pub open spec fn mentions_auth_word(lower: Seq<char>) -> bool {
    exists|i: int|
        0 <= i < auth_failure_words().len() && contains_spec(lower, #[trigger] auth_failure_words()[i])
}

/// An error text, lower-cased, mentions one of the words of
/// `auth_failure_words`.
pub open spec fn is_auth_failure_spec(err: Seq<char>) -> bool {
    mentions_auth_word(lowercase_of(err))
}

/// A lower-cased error text reads as a rejected password exactly when it
/// contains "authentication", "supplicant", "password", "psk" or "wrong".
pub proof fn lemma_auth_words(lower: Seq<char>)
    ensures
        mentions_auth_word(lower) <==> (contains_spec(lower, "authentication"@) || contains_spec(
            lower,
            "supplicant"@,
        ) || contains_spec(lower, "password"@) || contains_spec(lower, "psk"@) || contains_spec(
            lower,
            "wrong"@,
        )),
{
    let w = auth_failure_words();
    assert(w.len() == 5);
    assert(w[0] == "authentication"@);
    assert(w[1] == "supplicant"@);
    assert(w[2] == "password"@);
    assert(w[3] == "psk"@);
    assert(w[4] == "wrong"@);
    if mentions_auth_word(lower) {
        let i = choose|i: int| 0 <= i < w.len() && contains_spec(lower, #[trigger] w[i]);
        assert(i == 0 || i == 1 || i == 2 || i == 3 || i == 4);
    }
}

/// An error whose lower-cased text contains "password" (or any other of the
/// five words) is reported as a wrong password; one that contains none of
/// them is reported as a failure with its text.
pub proof fn lemma_password_errors_read_as_wrong_password(err: Seq<char>)
    ensures
        contains_spec(lowercase_of(err), "password"@) ==> is_auth_failure_spec(err),
        contains_spec(lowercase_of(err), "authentication"@) ==> is_auth_failure_spec(err),
        contains_spec(lowercase_of(err), "supplicant"@) ==> is_auth_failure_spec(err),
        contains_spec(lowercase_of(err), "psk"@) ==> is_auth_failure_spec(err),
        contains_spec(lowercase_of(err), "wrong"@) ==> is_auth_failure_spec(err),
        !contains_spec(lowercase_of(err), "password"@) && !contains_spec(lowercase_of(err), "authentication"@)
            && !contains_spec(lowercase_of(err), "supplicant"@) && !contains_spec(lowercase_of(err), "psk"@)
            && !contains_spec(lowercase_of(err), "wrong"@) ==> !is_auth_failure_spec(err),
{
    lemma_auth_words(lowercase_of(err));
}

/// Whether an already lower-cased error text mentions one of the words of
/// `auth_failure_words`.
pub fn mentions_auth_failure_word(lower: &str) -> (r: bool)
    ensures
        r == mentions_auth_word(lower@),
        r == (contains_spec(lower@, "authentication"@) || contains_spec(lower@, "supplicant"@)
            || contains_spec(lower@, "password"@) || contains_spec(lower@, "psk"@) || contains_spec(
            lower@,
            "wrong"@,
        )),
{
    proof {
        lemma_auth_words(lower@);
    }
    let a = contains(lower, "authentication");
    let b = contains(lower, "supplicant");
    let c = contains(lower, "password");
    let d = contains(lower, "psk");
    let e = contains(lower, "wrong");
    proof {
        let w = auth_failure_words();
        assert(w[0] == "authentication"@);
        assert(w[1] == "supplicant"@);
        assert(w[2] == "password"@);
        assert(w[3] == "psk"@);
        assert(w[4] == "wrong"@);
        if mentions_auth_word(lower@) {
            let i = choose|i: int| 0 <= i < w.len() && contains_spec(lower@, #[trigger] w[i]);
            assert(i == 0 || i == 1 || i == 2 || i == 3 || i == 4);
        }
    }
    a || b || c || d || e
}

/// Whether an error text reads as a rejected password: its lower-cased form
/// mentions one of the words of `auth_failure_words`.
pub fn is_auth_failure(err: &str) -> (r: bool)
    ensures
        r == is_auth_failure_spec(err@),
{
    let lower = to_lowercase(err);
    mentions_auth_failure_word(lower.as_str())
}

/// How the password dialog reports a failed connection.
#[derive(Clone, Debug)]
pub enum ConnectFailure {
    /// "Wrong password, try again"; the password field is cleared and
    /// focused.
    WrongPassword,
    /// "✗ Failed: " followed by the error text.
    Failed { status: String },
}

/// The report of a failed connection with error text `err`.
pub fn connect_failure(err: &str) -> (r: ConnectFailure)
    ensures
        is_auth_failure_spec(err@) ==> r is WrongPassword,
        !is_auth_failure_spec(err@) ==> (r matches ConnectFailure::Failed { status } && status@
            == "✗ Failed: "@ + err@),
{
    if is_auth_failure(err) {
        ConnectFailure::WrongPassword
    } else {
        ConnectFailure::Failed { status: str_concat("✗ Failed: ", err) }
    }
}

impl ConnectFailure {
    /// The status text of the report.
    pub fn status_text(&self) -> (r: String)
        ensures
            *self is WrongPassword ==> r@ == "Wrong password, try again"@,
            self matches ConnectFailure::Failed { status } ==> r@ == status@,
    {
        match self {
            ConnectFailure::WrongPassword => "Wrong password, try again".to_owned(),
            ConnectFailure::Failed { status } => status.clone(),
        }
    }
}

/// What activating a network row does.
#[derive(Clone, Debug)]
pub enum RowAction {
    /// Connect at once with these credentials.
    Connect { credentials: WifiCredentials },
    /// Ask for a password first (and a user name for EAP networks).
    AskCredentials { is_eap: bool },
}

/// An open network is joined at once; a secured one with a saved profile is
/// joined with that profile (an empty key); a secured one without asks for
/// credentials.
pub fn row_action(net: &Network, has_saved_profile: bool) -> (a: RowAction)
    ensures
        !net.secured ==> (a matches RowAction::Connect { credentials } && credentials is Open),
        net.secured && has_saved_profile ==> (a matches RowAction::Connect { credentials }
            && credentials matches WifiCredentials::WpaPsk { psk } && psk@.len() == 0),
        net.secured && !has_saved_profile ==> (a matches RowAction::AskCredentials { is_eap }
            && is_eap == net.is_eap),
{
    if net.secured {
        if has_saved_profile {
            RowAction::Connect { credentials: WifiCredentials::WpaPsk { psk: String::new() } }
        } else {
            RowAction::AskCredentials { is_eap: net.is_eap }
        }
    } else {
        RowAction::Connect { credentials: WifiCredentials::Open }
    }
}

} // verus!
