//! The steps of refreshing the lists, as a state machine: the application
//! hands in what happened (an event) and performs what the step asks for (an
//! action). A refresh lists the wired devices; with a scan, it then asks for a
//! Wi-Fi scan and reads the results until they settle (at most
//! `SCAN_POLL_ROUNDS` times); then it builds the lists and ends. Only one
//! refresh runs at a time.
use vstd::prelude::*;

use crate::ui::header::{scan_settled, RefreshKind, ScanGate, SCAN_POLL_ROUNDS};

verus! {

/// Where a refresh stands.
#[derive(Clone, Copy, Debug, PartialEq, Eq, Structural)]
pub enum RefreshPhase {
    /// No refresh runs.
    Idle,
    /// Waiting for the wired devices to be listed.
    ListingWired,
    /// Waiting for the Wi-Fi scan.
    Scanning,
    /// Waiting for a count of the scanned networks.
    Counting,
    /// Waiting a second before counting again.
    Waiting,
    /// Waiting for the lists to be built.
    Building,
}

/// What the application reports to a refresh.
#[derive(Clone, Copy, Debug)]
pub enum RefreshEvent {
    /// A refresh of this kind is asked for.
    Requested(RefreshKind),
    /// The wired devices were listed (or listing them failed).
    WiredListed,
    /// The Wi-Fi scan ended, successfully or not.
    Scanned { ok: bool },
    /// The scan results were counted.
    Counted { len: usize },
    /// The second of waiting is over.
    Waited,
    /// The Wi-Fi list, the VPN list and the status were built.
    Built,
}

/// What a refresh asks the application to do next.
#[derive(Clone, Copy, Debug, PartialEq, Eq, Structural)]
pub enum RefreshAction {
    /// Nothing: a refresh already runs, or the event does not belong here.
    Ignore,
    /// Clear the lists, show the scan spinner if asked, and list the wired
    /// devices that a refresh of `kind` shows.
    ListWired { kind: RefreshKind, show_spinner: bool },
    /// Ask NetworkManager for a Wi-Fi scan.
    Scan,
    /// Count the networks found so far.
    CountNetworks,
    /// Wait one second.
    Wait,
    /// Build the Wi-Fi list (clearing the status text first if asked), the
    /// VPN list and the status.
    Build { clear_status: bool },
    /// Report that the scan failed and hide the spinner; the refresh ends.
    ReportScanFailure,
    /// Hide the spinner if asked; the refresh ends.
    Finish { hide_spinner: bool },
}

/// The actions that end a refresh.
pub open spec fn is_final(a: RefreshAction) -> bool {
    a is ReportScanFailure || a is Finish
}

/// The actions that read the list of Wi-Fi networks.
pub open spec fn is_listing(a: RefreshAction) -> bool {
    a is CountNetworks || a is Build
}

/// A refresh as plain values.
#[derive(Clone, Copy, Debug, PartialEq, Eq, Structural)]
pub struct RefreshView {
    /// Whether a refresh runs (the refresh flag is set).
    pub running: bool,
    pub phase: RefreshPhase,
    pub kind: RefreshKind,
    /// The counts asked for in this refresh.
    pub polls: u32,
    /// The last count read.
    pub last_len: usize,
    /// The readings of the Wi-Fi list in this refresh: counts and the build.
    pub listings: u32,
}

/// What holds of every refresh: the refresh flag is set exactly while a refresh
/// runs, at most `SCAN_POLL_ROUNDS` counts are asked for, and the Wi-Fi list
/// is read at most `SCAN_POLL_ROUNDS + 1` times.
pub open spec fn refresh_wf(v: RefreshView) -> bool {
    &&& v.running <==> v.phase != RefreshPhase::Idle
    &&& v.polls <= SCAN_POLL_ROUNDS
    &&& v.listings <= v.polls + 1
    &&& (v.phase == RefreshPhase::ListingWired || v.phase == RefreshPhase::Scanning) ==> v.polls == 0 && v.listings == 0 && v.last_len == 0
    &&& (v.phase == RefreshPhase::Counting || v.phase == RefreshPhase::Waiting) ==> v.polls >= 1 && v.listings == v.polls && v.kind == RefreshKind::Scan
    &&& v.phase == RefreshPhase::Scanning ==> v.kind == RefreshKind::Scan
    &&& v.phase == RefreshPhase::Building ==> v.listings == v.polls + 1
}

/// No refresh running.
pub open spec fn idle_view() -> RefreshView {
    RefreshView {
        running: false,
        phase: RefreshPhase::Idle,
        kind: RefreshKind::NoScan,
        polls: 0,
        last_len: 0,
        listings: 0,
    }
}

/// One step: the next state of a refresh and the action it asks for.
pub open spec fn refresh_next(v: RefreshView, e: RefreshEvent) -> (RefreshView, RefreshAction) {
    match e {
        RefreshEvent::Requested(kind) => if v.running {
            (v, RefreshAction::Ignore)
        } else {
            (
                RefreshView {
                    running: true,
                    phase: RefreshPhase::ListingWired,
                    kind,
                    polls: 0,
                    last_len: 0,
                    listings: 0,
                },
                RefreshAction::ListWired { kind, show_spinner: kind == RefreshKind::Scan },
            )
        },
        RefreshEvent::WiredListed => if v.phase != RefreshPhase::ListingWired {
            (v, RefreshAction::Ignore)
        } else if v.kind == RefreshKind::Scan {
            (RefreshView { phase: RefreshPhase::Scanning, ..v }, RefreshAction::Scan)
        } else {
            (
                RefreshView { phase: RefreshPhase::Building, listings: (v.listings + 1) as u32, ..v },
                RefreshAction::Build { clear_status: false },
            )
        },
        RefreshEvent::Scanned { ok } => if v.phase != RefreshPhase::Scanning {
            (v, RefreshAction::Ignore)
        } else if ok {
            (
                RefreshView { phase: RefreshPhase::Counting, polls: 1, listings: 1, ..v },
                RefreshAction::CountNetworks,
            )
        } else {
            (RefreshView { running: false, phase: RefreshPhase::Idle, ..v }, RefreshAction::ReportScanFailure)
        },
        RefreshEvent::Counted { len } => if v.phase != RefreshPhase::Counting {
            (v, RefreshAction::Ignore)
        } else if len == v.last_len && v.last_len > 0 {
            (
                RefreshView { phase: RefreshPhase::Building, listings: (v.listings + 1) as u32, ..v },
                RefreshAction::Build { clear_status: true },
            )
        } else {
            (RefreshView { phase: RefreshPhase::Waiting, last_len: len, ..v }, RefreshAction::Wait)
        },
        RefreshEvent::Waited => if v.phase != RefreshPhase::Waiting {
            (v, RefreshAction::Ignore)
        } else if v.polls < SCAN_POLL_ROUNDS {
            (
                RefreshView {
                    phase: RefreshPhase::Counting,
                    polls: (v.polls + 1) as u32,
                    listings: (v.listings + 1) as u32,
                    ..v
                },
                RefreshAction::CountNetworks,
            )
        } else {
            (
                RefreshView { phase: RefreshPhase::Building, listings: (v.listings + 1) as u32, ..v },
                RefreshAction::Build { clear_status: true },
            )
        },
        RefreshEvent::Built => if v.phase != RefreshPhase::Building {
            (v, RefreshAction::Ignore)
        } else {
            (
                RefreshView { running: false, phase: RefreshPhase::Idle, ..v },
                RefreshAction::Finish { hide_spinner: v.kind == RefreshKind::Scan },
            )
        },
    }
}

/// The state of the refresh of the lists.
#[derive(Debug)]
pub struct RefreshState {
    gate: ScanGate,
    phase: RefreshPhase,
    kind: RefreshKind,
    polls: u32,
    last_len: usize,
    listings: u32,
}

impl View for RefreshState {
    type V = RefreshView;

    closed spec fn view(&self) -> RefreshView {
        RefreshView {
            running: self.gate.spec_scanning(),
            phase: self.phase,
            kind: self.kind,
            polls: self.polls,
            last_len: self.last_len,
            listings: self.listings,
        }
    }
}

impl RefreshState {
    #[verifier::type_invariant]
    closed spec fn inv(self) -> bool {
        refresh_wf(self@)
    }

    /// No refresh running.
    pub fn new() -> (s: Self)
        ensures
            s@ == idle_view(),
    {
        RefreshState {
            gate: ScanGate::new(),
            phase: RefreshPhase::Idle,
            kind: RefreshKind::NoScan,
            polls: 0,
            last_len: 0,
            listings: 0,
        }
    }

    /// Whether a refresh runs.
    pub fn is_running(&self) -> (r: bool)
        ensures
            r == self@.running,
    {
        self.gate.is_scanning()
    }

    /// Takes one step on `e` and says what to do next. A request while a
    /// refresh runs changes nothing; the refresh flag is clear after every action
    /// that ends a refresh; a refresh asks for at most `SCAN_POLL_ROUNDS`
    /// counts and reads the Wi-Fi list at most `SCAN_POLL_ROUNDS + 1` times.
    pub fn step(&mut self, e: RefreshEvent) -> (a: RefreshAction)
        ensures
            (final(self)@, a) == refresh_next(old(self)@, e),
            refresh_wf(final(self)@),
            is_final(a) ==> !final(self)@.running,
            old(self)@.running && e is Requested ==> a == RefreshAction::Ignore && final(self)@ == old(self)@,
            a is CountNetworks ==> final(self)@.polls == old(self)@.polls + 1 && final(self)@.polls <= SCAN_POLL_ROUNDS,
            is_listing(a) ==> final(self)@.listings == old(self)@.listings + 1,
            final(self)@.listings <= SCAN_POLL_ROUNDS + 1,
            old(self)@.phase == RefreshPhase::Counting && e is Counted ==> ((a is Build) <==> (e->len
                == old(self)@.last_len && old(self)@.last_len > 0)),
    {
        proof {
            use_type_invariant(&*self);
        }
        let mut gate = self.gate;
        let mut phase = self.phase;
        let mut kind = self.kind;
        let mut polls = self.polls;
        let mut last_len = self.last_len;
        let mut listings = self.listings;
        let action = match e {
            RefreshEvent::Requested(k) => {
                if gate.try_begin() {
                    phase = RefreshPhase::ListingWired;
                    kind = k;
                    polls = 0;
                    last_len = 0;
                    listings = 0;
                    RefreshAction::ListWired { kind: k, show_spinner: k == RefreshKind::Scan }
                } else {
                    RefreshAction::Ignore
                }
            },
            RefreshEvent::WiredListed => {
                if phase != RefreshPhase::ListingWired {
                    RefreshAction::Ignore
                } else if kind == RefreshKind::Scan {
                    phase = RefreshPhase::Scanning;
                    RefreshAction::Scan
                } else {
                    phase = RefreshPhase::Building;
                    listings = listings + 1;
                    RefreshAction::Build { clear_status: false }
                }
            },
            RefreshEvent::Scanned { ok } => {
                if phase != RefreshPhase::Scanning {
                    RefreshAction::Ignore
                } else if ok {
                    phase = RefreshPhase::Counting;
                    polls = 1;
                    listings = 1;
                    RefreshAction::CountNetworks
                } else {
                    gate.finish();
                    phase = RefreshPhase::Idle;
                    RefreshAction::ReportScanFailure
                }
            },
            RefreshEvent::Counted { len } => {
                if phase != RefreshPhase::Counting {
                    RefreshAction::Ignore
                } else if scan_settled(last_len, len) {
                    phase = RefreshPhase::Building;
                    listings = listings + 1;
                    RefreshAction::Build { clear_status: true }
                } else {
                    phase = RefreshPhase::Waiting;
                    last_len = len;
                    RefreshAction::Wait
                }
            },
            RefreshEvent::Waited => {
                if phase != RefreshPhase::Waiting {
                    RefreshAction::Ignore
                } else if polls < SCAN_POLL_ROUNDS {
                    phase = RefreshPhase::Counting;
                    polls = polls + 1;
                    listings = listings + 1;
                    RefreshAction::CountNetworks
                } else {
                    phase = RefreshPhase::Building;
                    listings = listings + 1;
                    RefreshAction::Build { clear_status: true }
                }
            },
            RefreshEvent::Built => {
                if phase != RefreshPhase::Building {
                    RefreshAction::Ignore
                } else {
                    gate.finish();
                    phase = RefreshPhase::Idle;
                    RefreshAction::Finish { hide_spinner: kind == RefreshKind::Scan }
                }
            },
        };
        *self = RefreshState { gate, phase, kind, polls, last_len, listings };
        action
    }
}

/// A refresh without a scan, asked for while none runs, lists the wired
/// devices with the `NoScan` filter and no spinner, builds the lists without
/// clearing the status, and ends with the refresh flag clear, reading the Wi-Fi list
/// once.
pub proof fn lemma_plain_refresh_run(v: RefreshView)
    requires
        refresh_wf(v),
        !v.running,
    ensures
        ({
            let (v1, a1) = refresh_next(v, RefreshEvent::Requested(RefreshKind::NoScan));
            let (v2, a2) = refresh_next(v1, RefreshEvent::WiredListed);
            let (v3, a3) = refresh_next(v2, RefreshEvent::Built);
            &&& a1 == RefreshAction::ListWired { kind: RefreshKind::NoScan, show_spinner: false }
            &&& a2 == RefreshAction::Build { clear_status: false }
            &&& a3 == RefreshAction::Finish { hide_spinner: false }
            &&& !v3.running
            &&& v3.listings == 1
        }),
{
}

/// A refresh with a scan whose results settle at the first two counts lists
/// the wired devices with the `Scan` filter and the spinner shown, scans,
/// counts twice, builds the lists after clearing the status, and ends with
/// the spinner hidden and the refresh flag clear. It differs from a refresh without a
/// scan only in the device filter, the spinner, the scan and counts, and the
/// clearing of the status.
pub proof fn lemma_scan_refresh_run(v: RefreshView, len: usize)
    requires
        refresh_wf(v),
        !v.running,
        len > 0,
    ensures
        ({
            let (v1, a1) = refresh_next(v, RefreshEvent::Requested(RefreshKind::Scan));
            let (v2, a2) = refresh_next(v1, RefreshEvent::WiredListed);
            let (v3, a3) = refresh_next(v2, RefreshEvent::Scanned { ok: true });
            let (v4, a4) = refresh_next(v3, RefreshEvent::Counted { len });
            let (v5, a5) = refresh_next(v4, RefreshEvent::Waited);
            let (v6, a6) = refresh_next(v5, RefreshEvent::Counted { len });
            let (v7, a7) = refresh_next(v6, RefreshEvent::Built);
            &&& a1 == RefreshAction::ListWired { kind: RefreshKind::Scan, show_spinner: true }
            &&& a2 == RefreshAction::Scan
            &&& a3 == RefreshAction::CountNetworks
            &&& a4 == RefreshAction::Wait
            &&& a5 == RefreshAction::CountNetworks
            &&& a6 == RefreshAction::Build { clear_status: true }
            &&& a7 == RefreshAction::Finish { hide_spinner: true }
            &&& !v7.running
            &&& v7.listings == 3
        }),
{
}

/// A failed scan ends the refresh at once: the failure is reported, the
/// spinner hidden, and the refresh flag cleared; nothing is counted or built.
pub proof fn lemma_failed_scan_ends_refresh(v: RefreshView)
    requires
        refresh_wf(v),
        v.phase == RefreshPhase::Scanning,
    ensures
        refresh_next(v, RefreshEvent::Scanned { ok: false }).1 == RefreshAction::ReportScanFailure,
        !refresh_next(v, RefreshEvent::Scanned { ok: false }).0.running,
{
}

/// Counting goes on while the results change, but never past
/// `SCAN_POLL_ROUNDS` counts: after the last one the lists are built.
pub proof fn lemma_counts_are_bounded(v: RefreshView)
    requires
        refresh_wf(v),
        v.phase == RefreshPhase::Waiting,
        v.polls == SCAN_POLL_ROUNDS,
    ensures
        refresh_next(v, RefreshEvent::Waited).1 == (RefreshAction::Build { clear_status: true }),
{
}

/// Counting settles only on two equal counts in a row that are not zero:
/// from a count, the lists are built exactly when the new count equals the
/// previous one and that one is above zero; otherwise the refresh waits and
/// counts again.
pub proof fn lemma_count_settles_on_equal_nonzero(v: RefreshView, len: usize)
    requires
        refresh_wf(v),
        v.phase == RefreshPhase::Counting,
    ensures
        (refresh_next(v, RefreshEvent::Counted { len }).1 is Build) <==> (len == v.last_len && v.last_len > 0),
        !(len == v.last_len && v.last_len > 0) ==> refresh_next(v, RefreshEvent::Counted { len }).1 == RefreshAction::Wait,
        !(len == v.last_len && v.last_len > 0) ==> refresh_next(v, RefreshEvent::Counted { len }).0.last_len == len,
{
}

/// The first count after a scan never settles, whatever it finds (none
/// found yet included): the refresh waits and counts again.
pub proof fn lemma_first_count_waits(v: RefreshView, len: usize)
    requires
        refresh_wf(v),
        v.phase == RefreshPhase::Scanning,
    ensures
        ({
            let (v1, a1) = refresh_next(v, RefreshEvent::Scanned { ok: true });
            let (v2, a2) = refresh_next(v1, RefreshEvent::Counted { len });
            &&& a1 == RefreshAction::CountNetworks
            &&& a2 == RefreshAction::Wait
            &&& v2.last_len == len
        }),
{
}

/// Every step keeps what holds of every refresh.
pub proof fn lemma_refresh_keeps_wf(v: RefreshView, e: RefreshEvent)
    requires
        refresh_wf(v),
    ensures
        refresh_wf(refresh_next(v, e).0),
        is_final(refresh_next(v, e).1) ==> !refresh_next(v, e).0.running,
        refresh_next(v, e).0.listings <= SCAN_POLL_ROUNDS + 1,
{
}

} // verus!
