use hft_executor::config::Mode;
use hft_executor::executor::FillStatus;
use hft_executor::fills::{FillRecord, FillsLog};
use hft_executor::retry::{retry_delay_ms, should_retry_status, MAX_RETRY_ATTEMPTS};

fn record(n: u64) -> FillRecord {
    FillRecord {
        timestamp_s: n,
        asset: "BTC".to_string(),
        side: "sell".to_string(),
        entry_price_cents: 5_000_000,
        quantity_micro: 4000,
        confidence_milli: 900,
        mode: Mode::Dry,
        status: FillStatus::SimulatedFill,
        order_id: "sim_x".to_string(),
        execution_time_us: 250,
        validated: None,
    }
}

#[test]
fn log_grows_until_the_cap() {
    let mut log = FillsLog::new();
    for i in 0..1000u64 {
        log.append(record(i));
    }
    assert_eq!(log.len(), 1000);
    assert_eq!(log.entries[0].timestamp_s, 0);
}

#[test]
fn append_past_the_cap_drops_the_oldest_five_hundred() {
    let mut log = FillsLog::new();
    for i in 0..1001u64 {
        log.append(record(i));
    }
    // The 1001st append trimmed: 1001 - 500 = 501 records remain,
    // starting at the 501st written.
    assert_eq!(log.len(), 501);
    assert_eq!(log.entries[0].timestamp_s, 500);
    assert_eq!(log.entries[500].timestamp_s, 1000);
}

#[test]
fn log_never_exceeds_one_thousand() {
    let mut log = FillsLog::new();
    for i in 0..2500u64 {
        log.append(record(i));
        assert!(log.len() <= 1000);
    }
}

#[test]
fn rebuilding_keeps_the_newest_thousand() {
    let mut entries = Vec::new();
    for i in 0..1200u64 {
        entries.push(record(i));
    }
    let log = FillsLog::from_entries(entries);
    assert_eq!(log.len(), 1000);
    assert_eq!(log.entries[0].timestamp_s, 200);
    assert_eq!(log.entries[999].timestamp_s, 1199);
}

#[test]
fn backoff_doubles_from_one_hundred_and_caps_at_two_seconds() {
    assert_eq!(retry_delay_ms(0), 100);
    assert_eq!(retry_delay_ms(1), 200);
    assert_eq!(retry_delay_ms(2), 400);
    assert_eq!(retry_delay_ms(3), 800);
    assert_eq!(retry_delay_ms(4), 1600);
    assert_eq!(retry_delay_ms(5), 2000);
    assert_eq!(retry_delay_ms(60), 2000);
}

#[test]
fn three_attempts_in_all() {
    assert_eq!(MAX_RETRY_ATTEMPTS, 3);
}

#[test]
fn only_server_errors_and_rate_limits_retry() {
    assert!(should_retry_status(429));
    assert!(should_retry_status(500));
    assert!(should_retry_status(503));
    assert!(should_retry_status(599));
    assert!(!should_retry_status(200));
    assert!(!should_retry_status(400));
    assert!(!should_retry_status(404));
    assert!(!should_retry_status(600));
    assert!(!should_retry_status(428));
}
