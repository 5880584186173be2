use nmrs_gui::ui::header::{RefreshKind, ThemeDef, SCAN_POLL_ROUNDS};
use nmrs_gui::ui::refresh::{RefreshAction, RefreshEvent, RefreshState};

#[test]
fn plain_refresh_runs_list_build_finish() {
    let mut r = RefreshState::new();
    assert!(!r.is_running());
    assert_eq!(
        r.step(RefreshEvent::Requested(RefreshKind::NoScan)),
        RefreshAction::ListWired { kind: RefreshKind::NoScan, show_spinner: false }
    );
    assert!(r.is_running());
    assert_eq!(r.step(RefreshEvent::Requested(RefreshKind::Scan)), RefreshAction::Ignore);
    assert_eq!(r.step(RefreshEvent::WiredListed), RefreshAction::Build { clear_status: false });
    assert_eq!(r.step(RefreshEvent::Built), RefreshAction::Finish { hide_spinner: false });
    assert!(!r.is_running());
}

#[test]
fn scan_refresh_counts_until_settled() {
    let mut r = RefreshState::new();
    assert_eq!(
        r.step(RefreshEvent::Requested(RefreshKind::Scan)),
        RefreshAction::ListWired { kind: RefreshKind::Scan, show_spinner: true }
    );
    assert_eq!(r.step(RefreshEvent::WiredListed), RefreshAction::Scan);
    assert_eq!(r.step(RefreshEvent::Scanned { ok: true }), RefreshAction::CountNetworks);
    assert_eq!(r.step(RefreshEvent::Counted { len: 3 }), RefreshAction::Wait);
    assert_eq!(r.step(RefreshEvent::Waited), RefreshAction::CountNetworks);
    assert_eq!(r.step(RefreshEvent::Counted { len: 3 }), RefreshAction::Build { clear_status: true });
    assert_eq!(r.step(RefreshEvent::Built), RefreshAction::Finish { hide_spinner: true });
    assert!(!r.is_running());
}

#[test]
fn scan_refresh_stops_counting_after_the_last_round() {
    let mut r = RefreshState::new();
    r.step(RefreshEvent::Requested(RefreshKind::Scan));
    r.step(RefreshEvent::WiredListed);
    let mut counts = 0;
    let mut action = r.step(RefreshEvent::Scanned { ok: true });
    let mut len = 0;
    while action == RefreshAction::CountNetworks {
        counts += 1;
        len += 1;
        assert_eq!(r.step(RefreshEvent::Counted { len }), RefreshAction::Wait);
        action = r.step(RefreshEvent::Waited);
    }
    assert_eq!(counts, SCAN_POLL_ROUNDS);
    assert_eq!(action, RefreshAction::Build { clear_status: true });
    assert_eq!(r.step(RefreshEvent::Built), RefreshAction::Finish { hide_spinner: true });
}

#[test]
fn failed_scan_ends_the_refresh() {
    let mut r = RefreshState::new();
    r.step(RefreshEvent::Requested(RefreshKind::Scan));
    r.step(RefreshEvent::WiredListed);
    assert_eq!(r.step(RefreshEvent::Scanned { ok: false }), RefreshAction::ReportScanFailure);
    assert!(!r.is_running());
    assert_eq!(
        r.step(RefreshEvent::Requested(RefreshKind::NoScan)),
        RefreshAction::ListWired { kind: RefreshKind::NoScan, show_spinner: false }
    );
}

#[test]
fn events_out_of_turn_are_ignored() {
    let mut r = RefreshState::new();
    assert_eq!(r.step(RefreshEvent::Built), RefreshAction::Ignore);
    assert_eq!(r.step(RefreshEvent::Waited), RefreshAction::Ignore);
    assert!(!r.is_running());
}

#[test]
fn theme_def_holds_its_texts() {
    let t = ThemeDef { key: "nord", name: "Nord", css: "window {}" };
    assert_eq!((t.key, t.name, t.css), ("nord", "Nord", "window {}"));
}
