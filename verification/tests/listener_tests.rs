use hft_executor::listener::{FileSnapshot, SignalListener};
use hft_executor::signal::{RawBestSignal, RawSignal};

const NOW: u64 = 1_700_000_000;

fn raw_signal(ts: i64) -> RawSignal {
    RawSignal {
        timestamp_s: Some(ts),
        confidence_milli: Some(900),
        production_validated: None,
        best: Some(RawBestSignal {
            asset: Some("BTC".to_string()),
            entry_price_cents: Some(5_000_000),
            stop_loss_cents: None,
            take_profit_1_cents: None,
            take_profit_2_cents: None,
            take_profit_3_cents: None,
        }),
    }
}

fn snapshot(mtime: u64, ts: i64) -> FileSnapshot {
    FileSnapshot { modified_ns: mtime, signal: Some(raw_signal(ts)) }
}

#[test]
fn admits_fresh_signal() {
    let mut l = SignalListener::new();
    let snap = snapshot(10, NOW as i64);
    let got = l.check_for_signals(Some(&snap), NOW, 15);
    assert!(got.is_some());
    assert_eq!(got.unwrap().timestamp_s, NOW);
    assert_eq!(l.last_signal_timestamp, NOW);
}

#[test]
fn missing_file_yields_none() {
    let mut l = SignalListener::new();
    assert!(l.check_for_signals(None, NOW, 15).is_none());
}

#[test]
fn repoll_without_file_change_yields_none() {
    let mut l = SignalListener::new();
    let snap = snapshot(10, NOW as i64);
    assert!(l.check_for_signals(Some(&snap), NOW, 15).is_some());
    // Same mtime again: the no-op path.
    let again = snapshot(10, (NOW + 5) as i64);
    assert!(l.check_for_signals(Some(&again), NOW + 5, 15).is_none());
    // Even an older mtime stays quiet.
    let older = snapshot(9, (NOW + 6) as i64);
    assert!(l.check_for_signals(Some(&older), NOW + 6, 15).is_none());
}

#[test]
fn never_admits_same_payload_timestamp_twice() {
    let mut l = SignalListener::new();
    let first = snapshot(10, NOW as i64);
    assert!(l.check_for_signals(Some(&first), NOW, 15).is_some());
    // The producer rewrote the file (newer mtime) with the same payload
    // timestamp: monotonic dedup turns it away.
    let rewrite = snapshot(11, NOW as i64);
    assert!(l.check_for_signals(Some(&rewrite), NOW, 15).is_none());
    // A strictly newer payload goes through.
    let newer = snapshot(12, (NOW + 1) as i64);
    let got = l.check_for_signals(Some(&newer), NOW + 1, 15);
    assert_eq!(got.unwrap().timestamp_s, NOW + 1);
}

#[test]
fn age_fifteen_accepted_sixteen_rejected() {
    let mut l = SignalListener::new();
    let snap = snapshot(10, NOW as i64);
    assert!(l.check_for_signals(Some(&snap), NOW + 15, 15).is_some());
    let mut l2 = SignalListener::new();
    let snap2 = snapshot(10, NOW as i64);
    assert!(l2.check_for_signals(Some(&snap2), NOW + 16, 15).is_none());
}

#[test]
fn stale_signal_leaves_no_trace() {
    let mut l = SignalListener::new();
    let snap = snapshot(10, (NOW - 20) as i64);
    assert!(l.check_for_signals(Some(&snap), NOW, 15).is_none());
    // The timestamp watermark did not move; the mtime watermark did.
    assert_eq!(l.last_signal_timestamp, 0);
    assert_eq!(l.last_file_modified, Some(10));
}

#[test]
fn unreadable_payload_yields_none() {
    let mut l = SignalListener::new();
    let snap = FileSnapshot { modified_ns: 10, signal: None };
    assert!(l.check_for_signals(Some(&snap), NOW, 15).is_none());
}

#[test]
fn rejects_structurally_bad_payload() {
    let mut l = SignalListener::new();
    let mut raw = raw_signal(NOW as i64);
    raw.confidence_milli = Some(2000);
    let snap = FileSnapshot { modified_ns: 10, signal: Some(raw) };
    assert!(l.check_for_signals(Some(&snap), NOW, 15).is_none());
}

#[test]
fn reports_file_status() {
    let mut l = SignalListener::new();
    let snap = snapshot(10, NOW as i64);
    l.check_for_signals(Some(&snap), NOW, 15);
    let status = l.get_signal_file_status(true, 321, 10);
    assert!(status.file_exists);
    assert_eq!(status.file_size, 321);
    assert_eq!(status.last_modified_ns, 10);
    assert_eq!(status.last_processed_timestamp, NOW);
    assert_eq!(status.file_path, "/tmp/signal.json");
    let missing = l.get_signal_file_status(false, 321, 10);
    assert!(!missing.file_exists);
    assert_eq!(missing.file_size, 0);
    assert_eq!(missing.last_modified_ns, 0);
}
