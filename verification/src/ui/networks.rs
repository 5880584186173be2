//! The Wi-Fi network list: which scan results are listed, in which order,
//! and what each row shows.
use vstd::prelude::*;

use crate::model::{Network, SavedConnectionBrief};
use crate::order::{
    lemma_index_occurs, lemma_stable_desc_order_exists, stable_desc_order,
    stable_desc_order_of,
};
use crate::text::{str_concat, str_concat3, decimal, decimal_string, is_blank, is_blank_spec, views};
use crate::ui::{band_of, spec_band, Band};

verus! {

// ---------------------------------------------------------------------------
// Keys
// ---------------------------------------------------------------------------

/// The band a network's frequency falls in.
pub open spec fn band_key(n: Network) -> Option<Band> {
    match n.frequency {
        Some(f) => spec_band(f),
        None => None,
    }
}

/// A network's strength, 0 when unknown.
pub open spec fn strength_key(n: Network) -> u64 {
    match n.strength {
        Some(s) => s as u64,
        None => 0,
    }
}

/// Two scan results stand for the same list entry: same SSID on the same band.
pub open spec fn same_entry(a: Network, b: Network) -> bool {
    a.ssid@ == b.ssid@ && band_key(a) == band_key(b)
}

fn network_band(n: &Network) -> (r: Option<Band>)
    ensures
        r == band_key(*n),
{
    match n.frequency {
        Some(f) => band_of(f),
        None => None,
    }
}

fn strength_of(n: &Network) -> (r: u64)
    ensures
        r == strength_key(*n),
{
    match n.strength {
        Some(s) => s as u64,
        None => 0,
    }
}

fn band_eq(a: Option<Band>, b: Option<Band>) -> (r: bool)
    ensures
        r == (a == b),
{
    match (a, b) {
        (None, None) => true,
        (Some(Band::Ghz2_4), Some(Band::Ghz2_4)) => true,
        (Some(Band::Ghz5), Some(Band::Ghz5)) => true,
        (Some(Band::Ghz6), Some(Band::Ghz6)) => true,
        _ => false,
    }
}

fn same_entry_exec(a: &Network, b: &Network) -> (r: bool)
    ensures
        r == same_entry(*a, *b),
{
    a.ssid == b.ssid && band_eq(network_band(a), network_band(b))
}

// ---------------------------------------------------------------------------
// Strongest first, one entry per SSID and band
// ---------------------------------------------------------------------------

/// The strengths of `s`, in order.
pub open spec fn strength_keys(s: Seq<Network>) -> Seq<u64> {
    Seq::new(s.len(), |i: int| strength_key(s[i]))
}

/// The networks of `s` in the order `order` gives.
pub open spec fn permuted(s: Seq<Network>, order: Seq<usize>) -> Seq<Network> {
    Seq::new(order.len(), |i: int| s[order[i] as int])
}

/// `s` ordered strongest first; networks of equal strength keep their order
/// (a stable sort by descending strength, unknown strength counting as 0).
pub open spec fn strongest_first(s: Seq<Network>) -> Seq<Network> {
    permuted(s, stable_desc_order_of(strength_keys(s)))
}

/// The networks of `s` that no earlier network of `s` shares an entry with.
pub open spec fn first_per_entry(s: Seq<Network>) -> Seq<Network>
    decreases s.len(),
{
    if s.len() == 0 {
        Seq::<Network>::empty()
    } else {
        let rest = first_per_entry(s.drop_last());
        if exists|j: int| 0 <= j < s.len() - 1 && same_entry(#[trigger] s[j], s.last()) {
            rest
        } else {
            rest.push(s.last())
        }
    }
}

fn strength_keys_of(nets: &[Network]) -> (keys: Vec<u64>)
    ensures
        keys@ == strength_keys(nets@),
{
    let mut keys: Vec<u64> = Vec::new();
    let n = nets.len();
    let mut i: usize = 0;
    while i < n
        invariant
            i <= n == nets@.len(),
            keys@ == strength_keys(nets@.take(i as int)),
        decreases n - i,
    {
        keys.push(strength_of(&nets[i]));
        i = i + 1;
        assert(keys@ =~= strength_keys(nets@.take(i as int)));
    }
    assert(nets@.take(n as int) =~= nets@);
    keys
}

fn permute(nets: &[Network], order: &[usize]) -> (out: Vec<Network>)
    requires
        forall|a: int| 0 <= a < order@.len() ==> #[trigger] order@[a] < nets@.len(),
    ensures
        out@ == permuted(nets@, order@),
{
    let mut out: Vec<Network> = Vec::new();
    let n = order.len();
    let mut i: usize = 0;
    while i < n
        invariant
            i <= n == order@.len(),
            forall|a: int| 0 <= a < order@.len() ==> #[trigger] order@[a] < nets@.len(),
            out@ == permuted(nets@, order@.take(i as int)),
        decreases n - i,
    {
        let net = nets[order[i]].duplicate();
        out.push(net);
        i = i + 1;
        assert(out@ =~= permuted(nets@, order@.take(i as int)));
    }
    assert(order@.take(n as int) =~= order@);
    out
}

fn keep_first_per_entry(s: &[Network]) -> (out: Vec<Network>)
    ensures
        out@ == first_per_entry(s@),
{
    let mut out: Vec<Network> = Vec::new();
    let n = s.len();
    let mut i: usize = 0;
    // src[k]: where out[k] comes from; rep[j]: the kept network that s[j] shares an entry with
    let ghost mut src: Seq<int> = Seq::empty();
    let ghost mut rep: Seq<int> = Seq::empty();
    proof {
        assert(s@.take(0) =~= Seq::<Network>::empty());
    }
    while i < n
        invariant
            i <= n == s@.len(),
            out@ == first_per_entry(s@.take(i as int)),
            src.len() == out@.len(),
            rep.len() == i,
            forall|k: int| 0 <= k < out@.len() ==> 0 <= #[trigger] src[k] < i && out@[k] == s@[src[k]],
            forall|j: int| 0 <= j < i ==> 0 <= #[trigger] rep[j] < out@.len() && same_entry(out@[rep[j]], s@[j]),
        decreases n - i,
    {
        let mut found = false;
        let mut k: usize = 0;
        let ghost mut hit: int = 0;
        while k < out.len()
            invariant
                k <= out@.len(),
                i < n == s@.len(),
                !found ==> forall|t: int| 0 <= t < k ==> !same_entry(#[trigger] out@[t], s@[i as int]),
                found ==> 0 <= hit < out@.len() && same_entry(out@[hit], s@[i as int]),
            decreases out@.len() - k,
        {
            if !found && same_entry_exec(&out[k], &s[i]) {
                found = true;
                proof {
                    hit = k as int;
                }
            }
            k = k + 1;
        }
        let ghost prefix = s@.take(i + 1);
        proof {
            assert(prefix.drop_last() =~= s@.take(i as int));
            assert(prefix.last() == s@[i as int]);
            if found {
                let j = src[hit];
                assert(prefix[j] == s@[j]);
                assert(same_entry(prefix[j], prefix.last()));
            } else {
                assert forall|j: int| 0 <= j < prefix.len() - 1 implies !same_entry(#[trigger] prefix[j], prefix.last()) by {
                    assert(prefix[j] == s@[j]);
                    let t = rep[j];
                    assert(same_entry(out@[t], s@[j]));
                }
            }
        }
        if !found {
            let net = s[i].duplicate();
            let ghost old_len = out@.len();
            out.push(net);
            proof {
                src = src.push(i as int);
                rep = rep.push(old_len as int);
            }
        } else {
            proof {
                rep = rep.push(hit);
            }
        }
        i = i + 1;
    }
    assert(s@.take(n as int) =~= s@);
    out
}

/// The scan results to list: strongest first, and of several results with
/// the same SSID on the same band only the first (so the strongest).
pub fn strongest_per_band(nets: &[Network]) -> (out: Vec<Network>)
    ensures
        out@ == first_per_entry(strongest_first(nets@)),
{
    let keys = strength_keys_of(nets);
    let order = stable_desc_order(keys.as_slice());
    let sorted = permute(nets, order.as_slice());
    keep_first_per_entry(sorted.as_slice())
}

// ---------------------------------------------------------------------------
// The connected network
// ---------------------------------------------------------------------------

/// The view of an optional string.
pub open spec fn opt_view(o: Option<&str>) -> Option<Seq<char>> {
    match o {
        Some(s) => Some(s@),
        None => None,
    }
}

/// `n` is the network the machine is connected to: its SSID is the current
/// one and, when the current band is known, it is on that band.
pub open spec fn is_current_spec(n: Network, current_ssid: Option<Seq<char>>, current_band: Option<Seq<char>>) -> bool {
    match current_ssid {
        None => false,
        Some(ssid) => n.ssid@ == ssid && match current_band {
            None => true,
            Some(b) => match band_key(n) {
                Some(nb) => nb.spec_label() == b,
                None => false,
            },
        },
    }
}

/// Whether `net` is the network the machine is connected to.
pub fn is_current_network(net: &Network, current_ssid: Option<&str>, current_band: Option<&str>) -> (r: bool)
    ensures
        r == is_current_spec(*net, opt_view(current_ssid), opt_view(current_band)),
{
    let ssid = match current_ssid {
        Some(s) => s,
        None => return false,
    };
    if !crate::text::str_eq(net.ssid.as_str(), ssid) {
        return false;
    }
    if let Some(band) = current_band {
        return match network_band(net) {
            Some(nb) => crate::text::str_eq(nb.label(), band),
            None => false,
        };
    }
    true
}

// ---------------------------------------------------------------------------
// Order of the list
// ---------------------------------------------------------------------------

/// The networks of `s` whose SSID is not blank, in order.
pub open spec fn named(s: Seq<Network>) -> Seq<Network>
    decreases s.len(),
{
    if s.len() == 0 {
        Seq::<Network>::empty()
    } else if is_blank_spec(s.last().ssid@) {
        named(s.drop_last())
    } else {
        named(s.drop_last()).push(s.last())
    }
}

/// The sort key of the list: the connected network above all others, then
/// stronger above weaker (strengths are below 256).
pub open spec fn list_key(n: Network, cs: Option<Seq<char>>, cb: Option<Seq<char>>) -> u64 {
    ((if is_current_spec(n, cs, cb) { 256int } else { 0int }) + strength_key(n)) as u64
}

/// The list keys of `s`, in order.
pub open spec fn list_keys(s: Seq<Network>, cs: Option<Seq<char>>, cb: Option<Seq<char>>) -> Seq<u64> {
    Seq::new(s.len(), |i: int| list_key(s[i], cs, cb))
}

/// The order of the list: networks with a blank SSID left out, the connected
/// network first, the others strongest first, ties in their given order.
pub open spec fn list_order(s: Seq<Network>, cs: Option<Seq<char>>, cb: Option<Seq<char>>) -> Seq<Network> {
    let l = named(s);
    permuted(l, stable_desc_order_of(list_keys(l, cs, cb)))
}

fn named_networks(nets: &[Network]) -> (out: Vec<Network>)
    ensures
        out@ == named(nets@),
{
    let mut out: Vec<Network> = Vec::new();
    let n = nets.len();
    let mut i: usize = 0;
    proof {
        assert(nets@.take(0) =~= Seq::<Network>::empty());
    }
    while i < n
        invariant
            i <= n == nets@.len(),
            out@ == named(nets@.take(i as int)),
        decreases n - i,
    {
        proof {
            assert(nets@.take(i + 1).drop_last() =~= nets@.take(i as int));
        }
        if !is_blank(nets[i].ssid.as_str()) {
            out.push(nets[i].duplicate());
        }
        i = i + 1;
    }
    assert(nets@.take(n as int) =~= nets@);
    out
}

fn list_keys_of(nets: &[Network], current_ssid: Option<&str>, current_band: Option<&str>) -> (keys: Vec<u64>)
    ensures
        keys@ == list_keys(nets@, opt_view(current_ssid), opt_view(current_band)),
{
    let mut keys: Vec<u64> = Vec::new();
    let n = nets.len();
    let mut i: usize = 0;
    while i < n
        invariant
            i <= n == nets@.len(),
            keys@ == list_keys(nets@.take(i as int), opt_view(current_ssid), opt_view(current_band)),
        decreases n - i,
    {
        let base: u64 = if is_current_network(&nets[i], current_ssid, current_band) { 256 } else { 0 };
        keys.push(base + strength_of(&nets[i]));
        i = i + 1;
        assert(keys@ =~= list_keys(nets@.take(i as int), opt_view(current_ssid), opt_view(current_band)));
    }
    assert(nets@.take(n as int) =~= nets@);
    keys
}

/// The networks to list, in list order.
pub fn list_networks(networks: &[Network], current_ssid: Option<&str>, current_band: Option<&str>) -> (out: Vec<Network>)
    ensures
        out@ == list_order(networks@, opt_view(current_ssid), opt_view(current_band)),
{
    let l = named_networks(networks);
    let keys = list_keys_of(l.as_slice(), current_ssid, current_band);
    let order = stable_desc_order(keys.as_slice());
    permute(l.as_slice(), order.as_slice())
}

// ---------------------------------------------------------------------------
// Rows
// ---------------------------------------------------------------------------

/// The line under a network's name.
#[derive(Clone, Copy, Debug, PartialEq, Eq, Structural)]
pub enum RowNote {
    Connected,
    Saved,
    Plain,
}

impl RowNote {
    /// The subtitle the row shows, if any.
    pub fn subtitle(&self) -> (r: Option<&'static str>)
        ensures
            *self == RowNote::Connected ==> (r matches Some(t) && t@ == "Connected"@),
            *self == RowNote::Saved ==> (r matches Some(t) && t@ == "Saved"@),
            *self == RowNote::Plain ==> r is None,
    {
        match self {
            RowNote::Connected => Some("Connected"),
            RowNote::Saved => Some("Saved"),
            RowNote::Plain => None,
        }
    }
}

/// How a signal strength is coloured.
#[derive(Clone, Copy, Debug, PartialEq, Eq, Structural)]
pub enum SignalLevel {
    Good,
    Fair,
    Weak,
}

impl SignalLevel {
    /// The style class of the strength label.
    pub fn css_class(&self) -> (r: &'static str)
        ensures
            *self == SignalLevel::Good ==> r@ == "success"@,
            *self == SignalLevel::Fair ==> r@ == "warning"@,
            *self == SignalLevel::Weak ==> r@ == "error"@,
    {
        match self {
            SignalLevel::Good => "success",
            SignalLevel::Fair => "warning",
            SignalLevel::Weak => "error",
        }
    }
}

/// The strength label of a row.
#[derive(Clone, Debug)]
pub struct StrengthBadge {
    /// The strength in percent, as "N%".
    pub text: String,
    pub level: SignalLevel,
}

/// One row of the Wi-Fi list.
#[derive(Clone, Debug)]
pub struct NetworkRow {
    pub network: Network,
    pub title: String,
    pub note: RowNote,
    pub strength: Option<StrengthBadge>,
}

impl NetworkRow {
    /// The icon beside the strength: a lock for secured networks.
    pub fn icon_name(&self) -> (r: &'static str)
        ensures
            self.network.secured ==> r@ == "network-wireless-encrypted-symbolic"@,
            !self.network.secured ==> r@ == "network-wireless-signal-excellent-symbolic"@,
    {
        if self.network.secured {
            "network-wireless-encrypted-symbolic"
        } else {
            "network-wireless-signal-excellent-symbolic"
        }
    }

    /// The style class of that icon.
    pub fn icon_class(&self) -> (r: &'static str)
        ensures
            self.network.secured ==> r@ == "wifi-secure"@,
            !self.network.secured ==> r@ == "wifi-open"@,
    {
        if self.network.secured {
            "wifi-secure"
        } else {
            "wifi-open"
        }
    }
}

/// A network's name in the list: its SSID, followed by its band in
/// brackets when the band is known.
pub open spec fn display_name(n: Network) -> Seq<char> {
    match band_key(n) {
        Some(b) => n.ssid@ + " ("@ + b.spec_label() + ")"@,
        None => n.ssid@,
    }
}

/// "Connected" for the connected network, else "Saved" for a network with a
/// saved profile, else nothing.
pub open spec fn note_spec(n: Network, cs: Option<Seq<char>>, cb: Option<Seq<char>>, saved: Seq<Seq<char>>) -> RowNote {
    if is_current_spec(n, cs, cb) {
        RowNote::Connected
    } else if saved.contains(n.ssid@) {
        RowNote::Saved
    } else {
        RowNote::Plain
    }
}

/// Good from 75 %, fair above 65 %, weak below.
pub open spec fn level_spec(s: u8) -> SignalLevel {
    if s >= 75 {
        SignalLevel::Good
    } else if s > 65 {
        SignalLevel::Fair
    } else {
        SignalLevel::Weak
    }
}

/// `row` is the row of network `n`.
pub open spec fn is_row_of(row: NetworkRow, n: Network, cs: Option<Seq<char>>, cb: Option<Seq<char>>, saved: Seq<Seq<char>>) -> bool {
    &&& row.network == n
    &&& row.title@ == display_name(n)
    &&& row.note == note_spec(n, cs, cb, saved)
    &&& match n.strength {
        None => row.strength is None,
        Some(s) => (row.strength matches Some(b) && b.text@ == decimal(s as nat) + "%"@
            && b.level == level_spec(s)),
    }
}

fn title_of(n: &Network) -> (r: String)
    ensures
        r@ == display_name(*n),
{
    match network_band(n) {
        Some(b) => {
            let head = str_concat(n.ssid.as_str(), " (");
            str_concat3(head.as_str(), b.label(), ")")
        },
        None => n.ssid.clone(),
    }
}

/// Whether `list` holds `s`.
pub fn contains_string(list: &[String], s: &str) -> (r: bool)
    ensures
        r == views(list@).contains(s@),
{
    let n = list.len();
    let mut i: usize = 0;
    while i < n
        invariant
            i <= n == list@.len(),
            forall|k: int| 0 <= k < i ==> list@[k]@ != s@,
        decreases n - i,
    {
        if crate::text::str_eq(list[i].as_str(), s) {
            assert(views(list@)[i as int] == s@);
            return true;
        }
        i = i + 1;
    }
    proof {
        if views(list@).contains(s@) {
            let k = choose|k: int| 0 <= k < views(list@).len() && views(list@)[k] == s@;
            assert(list@[k]@ == s@);
        }
    }
    false
}

fn row_of(n: &Network, current_ssid: Option<&str>, current_band: Option<&str>, saved_ssids: &[String]) -> (row: NetworkRow)
    ensures
        is_row_of(row, *n, opt_view(current_ssid), opt_view(current_band), views(saved_ssids@)),
{
    let title = title_of(n);
    let note = if is_current_network(n, current_ssid, current_band) {
        RowNote::Connected
    } else if contains_string(saved_ssids, n.ssid.as_str()) {
        RowNote::Saved
    } else {
        RowNote::Plain
    };
    let strength = match n.strength {
        Some(s) => {
            let digits = decimal_string(s as u64);
            let text = str_concat(digits.as_str(), "%");
            let level = if s >= 75 {
                SignalLevel::Good
            } else if s > 65 {
                SignalLevel::Fair
            } else {
                SignalLevel::Weak
            };
            Some(StrengthBadge { text, level })
        },
        None => None,
    };
    NetworkRow { network: n.duplicate(), title, note, strength }
}

/// The rows of the Wi-Fi list, given the scan results, the connected SSID
/// and band, and the SSIDs that have a saved profile.
pub fn network_rows(
    networks: &[Network],
    current_ssid: Option<&str>,
    current_band: Option<&str>,
    saved_ssids: &[String],
) -> (rows: Vec<NetworkRow>)
    ensures
        rows@.len() == list_order(networks@, opt_view(current_ssid), opt_view(current_band)).len(),
        forall|i: int|
            0 <= i < rows@.len() ==> is_row_of(
                #[trigger] rows@[i],
                list_order(networks@, opt_view(current_ssid), opt_view(current_band))[i],
                opt_view(current_ssid),
                opt_view(current_band),
                views(saved_ssids@),
            ),
        forall|i: int|
            0 <= i < rows@.len() && is_current_spec(
                #[trigger] rows@[i].network,
                opt_view(current_ssid),
                opt_view(current_band),
            ) ==> rows@[i].note == RowNote::Connected,
        forall|i: int|
            0 <= i < rows@.len() && #[trigger] rows@[i].note == RowNote::Saved ==> !is_current_spec(
                rows@[i].network,
                opt_view(current_ssid),
                opt_view(current_band),
            ) && views(saved_ssids@).contains(rows@[i].network.ssid@),
{
    let listed = list_networks(networks, current_ssid, current_band);
    let ghost order = list_order(networks@, opt_view(current_ssid), opt_view(current_band));
    let mut rows: Vec<NetworkRow> = Vec::new();
    let n = listed.len();
    let mut i: usize = 0;
    while i < n
        invariant
            i <= n == listed@.len(),
            listed@ == order,
            rows@.len() == i,
            forall|k: int|
                0 <= k < i ==> is_row_of(
                    #[trigger] rows@[k],
                    order[k],
                    opt_view(current_ssid),
                    opt_view(current_band),
                    views(saved_ssids@),
                ),
        decreases n - i,
    {
        let row = row_of(&listed[i], current_ssid, current_band, saved_ssids);
        rows.push(row);
        i = i + 1;
    }
    proof {
        assert forall|i: int| 0 <= i < rows@.len() && #[trigger] rows@[i].note == RowNote::Saved implies !is_current_spec(
            rows@[i].network,
            opt_view(current_ssid),
            opt_view(current_band),
        ) && views(saved_ssids@).contains(rows@[i].network.ssid@) by {
            lemma_row_note(rows@[i], order[i], opt_view(current_ssid), opt_view(current_band), views(saved_ssids@));
        }
        assert forall|i: int| 0 <= i < rows@.len() && is_current_spec(
            #[trigger] rows@[i].network,
            opt_view(current_ssid),
            opt_view(current_band),
        ) implies rows@[i].note == RowNote::Connected by {
            lemma_row_note(rows@[i], order[i], opt_view(current_ssid), opt_view(current_band), views(saved_ssids@));
        }
    }
    rows
}

/// The note of a row: a row of the connected network (its SSID is the
/// connected one and, when the connected band is known, its frequency lies in
/// that band) says "Connected", whatever profiles are saved; "Saved" goes only
/// to a network that is not the connected one and whose SSID has a saved
/// profile; a plain row is neither connected nor saved.
pub proof fn lemma_row_note(
    row: NetworkRow,
    n: Network,
    cs: Option<Seq<char>>,
    cb: Option<Seq<char>>,
    saved: Seq<Seq<char>>,
)
    requires
        is_row_of(row, n, cs, cb, saved),
    ensures
        (cs == Some(n.ssid@) && match cb {
            None => true,
            Some(b) => n.frequency matches Some(f) && spec_band(f) matches Some(nb) && nb.spec_label() == b,
        }) ==> row.note == RowNote::Connected,
        is_current_spec(n, cs, cb) ==> row.note == RowNote::Connected,
        row.note == RowNote::Connected ==> cs == Some(n.ssid@),
        row.note == RowNote::Saved ==> saved.contains(n.ssid@) && !is_current_spec(n, cs, cb),
        row.note == RowNote::Plain ==> !saved.contains(n.ssid@) && !is_current_spec(n, cs, cb),
{
}

// ---------------------------------------------------------------------------
// Saved Wi-Fi profiles
// ---------------------------------------------------------------------------

/// The names of the saved profiles of type "802-11-wireless", in order.
pub open spec fn saved_wifi_ids_spec(saved: Seq<SavedConnectionBrief>) -> Seq<Seq<char>>
    decreases saved.len(),
{
    if saved.len() == 0 {
        Seq::<Seq<char>>::empty()
    } else if saved.last().connection_type@ == "802-11-wireless"@ {
        saved_wifi_ids_spec(saved.drop_last()).push(saved.last().id@)
    } else {
        saved_wifi_ids_spec(saved.drop_last())
    }
}

/// The names of the saved Wi-Fi profiles.
pub fn saved_network_ids(saved: &[SavedConnectionBrief]) -> (ids: Vec<String>)
    ensures
        views(ids@) == saved_wifi_ids_spec(saved@),
{
    let mut ids: Vec<String> = Vec::new();
    let n = saved.len();
    let mut i: usize = 0;
    proof {
        assert(saved@.take(0) =~= Seq::<SavedConnectionBrief>::empty());
        assert(views(ids@) =~= Seq::<Seq<char>>::empty());
    }
    while i < n
        invariant
            i <= n == saved@.len(),
            views(ids@) == saved_wifi_ids_spec(saved@.take(i as int)),
        decreases n - i,
    {
        proof {
            assert(saved@.take(i + 1).drop_last() =~= saved@.take(i as int));
        }
        if crate::text::str_eq(saved[i].connection_type.as_str(), "802-11-wireless") {
            let ghost old_ids = ids@;
            ids.push(saved[i].id.clone());
            assert(views(ids@) =~= views(old_ids).push(saved@[i as int].id@));
        }
        i = i + 1;
    }
    assert(saved@.take(n as int) =~= saved@);
    ids
}

// ---------------------------------------------------------------------------
// Laws
// ---------------------------------------------------------------------------

proof fn lemma_first_per_entry_distinct(s: Seq<Network>)
    ensures
        forall|a: int, b: int|
            0 <= a < b < first_per_entry(s).len() ==> !same_entry(
                #[trigger] first_per_entry(s)[a],
                #[trigger] first_per_entry(s)[b],
            ),
        forall|k: int|
            #![trigger first_per_entry(s)[k]]
            0 <= k < first_per_entry(s).len() ==> exists|j: int|
                0 <= j < s.len() && first_per_entry(s)[k] == #[trigger] s[j],
    decreases s.len(),
{
    if s.len() > 0 {
        let t = s.drop_last();
        lemma_first_per_entry_distinct(t);
        let rest = first_per_entry(t);
        let f = first_per_entry(s);
        if !(exists|j: int| 0 <= j < s.len() - 1 && same_entry(#[trigger] s[j], s.last())) {
            assert(f == rest.push(s.last()));
            assert forall|a: int, b: int| 0 <= a < b < f.len() implies !same_entry(
                #[trigger] f[a],
                #[trigger] f[b],
            ) by {
                if b == f.len() - 1 {
                    assert(f[a] == rest[a]);
                    let j = choose|j: int| 0 <= j < t.len() && rest[a] == #[trigger] t[j];
                    assert(t[j] == s[j]);
                } else {
                    assert(f[a] == rest[a]);
                    assert(f[b] == rest[b]);
                }
            }
            assert forall|k: int| #![trigger f[k]] 0 <= k < f.len() implies exists|j: int|
                0 <= j < s.len() && f[k] == #[trigger] s[j] by {
                if k == f.len() - 1 {
                    assert(f[k] == s[s.len() - 1]);
                } else {
                    assert(f[k] == rest[k]);
                    let j = choose|j: int| 0 <= j < t.len() && rest[k] == #[trigger] t[j];
                    assert(t[j] == s[j]);
                }
            }
        } else {
            assert(f == rest);
            assert forall|k: int| #![trigger f[k]] 0 <= k < f.len() implies exists|j: int|
                0 <= j < s.len() && f[k] == #[trigger] s[j] by {
                let j = choose|j: int| 0 <= j < t.len() && rest[k] == #[trigger] t[j];
                assert(t[j] == s[j]);
            }
        }
    }
}

proof fn lemma_first_per_entry_covers(s: Seq<Network>, p: int)
    requires
        0 <= p < s.len(),
    ensures
        exists|q: int|
            0 <= q <= p && same_entry(s[q], s[p]) && first_per_entry(s).contains(#[trigger] s[q]),
    decreases s.len(),
{
    let t = s.drop_last();
    let rest = first_per_entry(t);
    let f = first_per_entry(s);
    let earlier = exists|j: int| 0 <= j < s.len() - 1 && same_entry(#[trigger] s[j], s.last());
    if p < s.len() - 1 {
        lemma_first_per_entry_covers(t, p);
        let q = choose|q: int|
            0 <= q <= p && same_entry(t[q], t[p]) && rest.contains(#[trigger] t[q]);
        assert(t[q] == s[q] && t[p] == s[p]);
        if !earlier {
            assert(f == rest.push(s.last()));
            let m = choose|m: int| 0 <= m < rest.len() && rest[m] == t[q];
            assert(f[m] == s[q]);
        }
        assert(f.contains(s[q]));
    } else {
        if earlier {
            let j = choose|j: int| 0 <= j < s.len() - 1 && same_entry(#[trigger] s[j], s.last());
            lemma_first_per_entry_covers(t, j);
            let q = choose|q: int|
                0 <= q <= j && same_entry(t[q], t[j]) && rest.contains(#[trigger] t[q]);
            assert(t[q] == s[q] && t[j] == s[j]);
            assert(f.contains(s[q]));
        } else {
            assert(f == rest.push(s.last()));
            assert(f[f.len() - 1] == s[p]);
            assert(f.contains(s[p]));
        }
    }
}

/// No two listed Wi-Fi entries share both SSID and band.
pub proof fn lemma_listed_entries_distinct(nets: Seq<Network>)
    ensures
        forall|a: int, b: int|
            0 <= a < b < first_per_entry(strongest_first(nets)).len() ==> !same_entry(
                #[trigger] first_per_entry(strongest_first(nets))[a],
                #[trigger] first_per_entry(strongest_first(nets))[b],
            ),
{
    lemma_first_per_entry_distinct(strongest_first(nets));
}

/// Every scanned network is represented in the list by an entry with the
/// same SSID and band that is at least as strong: the strongest one.
pub proof fn lemma_listed_entry_is_strongest(nets: Seq<Network>, j: int)
    requires
        nets.len() <= usize::MAX,
        0 <= j < nets.len(),
    ensures
        exists|n: Network|
            first_per_entry(strongest_first(nets)).contains(n) && same_entry(n, nets[j])
                && strength_key(n) >= strength_key(nets[j]),
{
    let keys = strength_keys(nets);
    lemma_stable_desc_order_exists(keys);
    let order = stable_desc_order_of(keys);
    let sorted = strongest_first(nets);
    lemma_index_occurs(order, keys.len(), j as usize);
    let p = choose|p: int| 0 <= p < order.len() && order[p] == j as usize;
    assert(sorted[p] == nets[j]);
    lemma_first_per_entry_covers(sorted, p);
    let q = choose|q: int|
        0 <= q <= p && same_entry(sorted[q], sorted[p]) && first_per_entry(sorted).contains(
            #[trigger] sorted[q],
        );
    if q < p {
        assert(keys[order[q] as int] >= keys[order[p] as int]);
    }
    assert(strength_key(sorted[q]) == keys[order[q] as int]);
    assert(strength_key(sorted[p]) == keys[order[p] as int]);
}

proof fn lemma_named_not_blank(s: Seq<Network>)
    ensures
        forall|k: int| 0 <= k < named(s).len() ==> !is_blank_spec(#[trigger] named(s)[k].ssid@),
    decreases s.len(),
{
    if s.len() > 0 {
        lemma_named_not_blank(s.drop_last());
    }
}

/// The network list never shows a network whose SSID is blank.
pub proof fn lemma_list_has_no_blank_ssid(nets: Seq<Network>, cs: Option<Seq<char>>, cb: Option<Seq<char>>)
    requires
        nets.len() <= usize::MAX,
    ensures
        forall|k: int|
            0 <= k < list_order(nets, cs, cb).len() ==> !is_blank_spec(
                #[trigger] list_order(nets, cs, cb)[k].ssid@,
            ),
{
    let l = named(nets);
    lemma_named_not_blank(nets);
    lemma_named_len(nets);
    let keys = list_keys(l, cs, cb);
    lemma_stable_desc_order_exists(keys);
    let order = stable_desc_order_of(keys);
    assert forall|k: int| 0 <= k < list_order(nets, cs, cb).len() implies !is_blank_spec(
        #[trigger] list_order(nets, cs, cb)[k].ssid@,
    ) by {
        assert(order[k] < l.len());
        assert(list_order(nets, cs, cb)[k] == l[order[k] as int]);
    }
}

proof fn lemma_named_len(s: Seq<Network>)
    ensures
        named(s).len() <= s.len(),
    decreases s.len(),
{
    if s.len() > 0 {
        lemma_named_len(s.drop_last());
    }
}

/// In the network list the connected network comes before every network
/// that is not connected, and networks of the same kind are ordered
/// strongest first.
pub proof fn lemma_list_connected_first(nets: Seq<Network>, cs: Option<Seq<char>>, cb: Option<Seq<char>>, a: int, b: int)
    requires
        nets.len() <= usize::MAX,
        0 <= a < b < list_order(nets, cs, cb).len(),
    ensures
        is_current_spec(list_order(nets, cs, cb)[b], cs, cb) ==> is_current_spec(
            list_order(nets, cs, cb)[a],
            cs,
            cb,
        ),
        is_current_spec(list_order(nets, cs, cb)[a], cs, cb) == is_current_spec(
            list_order(nets, cs, cb)[b],
            cs,
            cb,
        ) ==> strength_key(list_order(nets, cs, cb)[a]) >= strength_key(
            list_order(nets, cs, cb)[b],
        ),
{
    let l = named(nets);
    lemma_named_len(nets);
    let keys = list_keys(l, cs, cb);
    lemma_stable_desc_order_exists(keys);
    let order = stable_desc_order_of(keys);
    let x = l[order[a] as int];
    let y = l[order[b] as int];
    assert(list_order(nets, cs, cb)[a] == x);
    assert(list_order(nets, cs, cb)[b] == y);
    assert(keys[order[a] as int] >= keys[order[b] as int]);
    assert(keys[order[a] as int] == list_key(x, cs, cb));
    assert(keys[order[b] as int] == list_key(y, cs, cb));
    assert(strength_key(x) <= 255 && strength_key(y) <= 255);
}

} // verus!
