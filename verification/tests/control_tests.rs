use hft_executor::config::Config;
use hft_executor::control::{
    make_status_summary, process_signal_dry, remaining_cycle_us, should_process_signal,
    ProcessOutcome,
};
use hft_executor::errors::RiskReason;
use hft_executor::executor::OkxExecutor;
use hft_executor::fills::FillsLog;
use hft_executor::position::PositionManager;
use hft_executor::risk::RiskEngine;
use hft_executor::signal::{BestSignal, Signal};

const NOW: u64 = 1_700_000_000;

fn btc_signal(ts: u64, confidence_milli: u64) -> Signal {
    Signal {
        timestamp_s: ts,
        confidence_milli,
        production_validated: Some(true),
        best: BestSignal {
            asset: "BTC".to_string(),
            entry_price_cents: 5_000_000,
            stop_loss_cents: None,
            take_profit_1_cents: None,
            take_profit_2_cents: None,
            take_profit_3_cents: None,
        },
    }
}

fn two_percent_config() -> Config {
    let mut cfg = Config::default();
    cfg.risk_pct_pm = 20;
    cfg
}

struct Rig {
    executor: OkxExecutor,
    pm: PositionManager,
    risk: RiskEngine,
    fills: FillsLog,
}

fn rig() -> Rig {
    let cfg = two_percent_config();
    Rig {
        executor: OkxExecutor::new(cfg, None).unwrap(),
        pm: PositionManager::new(),
        risk: RiskEngine::with_config(cfg, cfg.dry_balance_cents),
        fills: FillsLog::new(),
    }
}

#[test]
fn happy_path_opens_a_btc_short() {
    let mut r = rig();
    let signal = btc_signal(NOW, 900);
    let outcome = process_signal_dry(
        &signal, &r.executor, &mut r.pm, &mut r.risk, &mut r.fills, NOW, 250,
    );
    let fill = match outcome {
        ProcessOutcome::Executed(f) => f,
        _ => panic!("expected execution"),
    };
    // 2% of $10,000 at $50,000: 0.004 of a unit.
    assert_eq!(fill.quantity_micro, 4000);
    assert_eq!(fill.stop_loss_cents, 5_075_000);
    assert_eq!(fill.take_profit_1_cents, 4_925_000);
    assert_eq!(fill.take_profit_2_cents, 4_875_000);
    assert_eq!(fill.take_profit_3_cents, 4_825_000);
    let views = r.pm.get_positions();
    assert_eq!(views.len(), 1);
    assert_eq!(views[0].asset, "BTC");
    assert_eq!(views[0].quantity_micro, 4000);
    assert_eq!(views[0].stop_loss_cents, 5_075_000);
    assert!(!views[0].is_breakeven);
    assert_eq!(r.fills.len(), 1);
    assert_eq!(r.fills.entries[0].asset, "BTC");
    assert_eq!(r.fills.entries[0].confidence_milli, 900);
    assert_eq!(r.fills.entries[0].execution_time_us, 250);
    assert_eq!(r.fills.entries[0].validated, Some(true));
}

#[test]
fn low_confidence_is_rejected_below_minimum() {
    let mut r = rig();
    let signal = btc_signal(NOW, 600);
    let outcome = process_signal_dry(
        &signal, &r.executor, &mut r.pm, &mut r.risk, &mut r.fills, NOW, 250,
    );
    match outcome {
        ProcessOutcome::Rejected(reason) => {
            assert!(matches!(reason, RiskReason::ConfidenceBelowMinimum));
            assert_eq!(reason.message("BTC"), "Confidence below minimum");
        },
        _ => panic!("expected a risk rejection"),
    }
    assert_eq!(r.pm.get_positions().len(), 0);
    assert_eq!(r.fills.len(), 0);
}

#[test]
fn immediate_replay_is_blocked_by_the_open_position() {
    let mut r = rig();
    let signal = btc_signal(NOW, 900);
    let first = process_signal_dry(
        &signal, &r.executor, &mut r.pm, &mut r.risk, &mut r.fills, NOW, 250,
    );
    assert!(matches!(first, ProcessOutcome::Executed(_)));
    let second = process_signal_dry(
        &signal, &r.executor, &mut r.pm, &mut r.risk, &mut r.fills, NOW, 250,
    );
    assert!(matches!(second, ProcessOutcome::SkippedPositionExists));
    assert_eq!(r.pm.get_positions().len(), 1);
    assert_eq!(r.fills.len(), 1);
}

#[test]
fn cooldown_blocks_a_signal_a_minute_later() {
    let mut r = rig();
    let first = process_signal_dry(
        &btc_signal(NOW, 900), &r.executor, &mut r.pm, &mut r.risk, &mut r.fills, NOW, 250,
    );
    assert!(matches!(first, ProcessOutcome::Executed(_)));
    // The position stops out in between; only the cooldown remains.
    r.pm.update_positions(&vec![("BTC".to_string(), 5_100_000u64)]);
    assert_eq!(r.pm.get_positions().len(), 0);
    let second = process_signal_dry(
        &btc_signal(NOW + 60, 900), &r.executor, &mut r.pm, &mut r.risk, &mut r.fills,
        NOW + 60, 250,
    );
    match second {
        ProcessOutcome::Rejected(reason) => {
            assert!(matches!(reason, RiskReason::CooldownActive));
            assert_eq!(reason.message("BTC"), "Cooldown active for BTC");
        },
        _ => panic!("expected a cooldown rejection"),
    }
    assert_eq!(r.fills.len(), 1);
}

#[test]
fn breakeven_and_trailing_through_the_whole_pipeline() {
    let mut r = rig();
    let first = process_signal_dry(
        &btc_signal(NOW, 900), &r.executor, &mut r.pm, &mut r.risk, &mut r.fills, NOW, 250,
    );
    let fill = match first {
        ProcessOutcome::Executed(f) => f,
        _ => panic!("expected execution"),
    };
    // The dry fill entered at 50005.00 (one basis point of slippage);
    // its ladder was cut from that entry.
    assert_eq!(fill.entry_price_cents, 5_000_500);
    let tp1 = 5_000_500u64 * 985 / 1000;
    // Price falls through the first rung: breakeven promotion.
    r.pm.update_positions(&vec![("BTC".to_string(), tp1 - 100)]);
    let v = &r.pm.get_positions()[0];
    assert!(v.is_breakeven);
    assert_eq!(v.stop_loss_cents, 5_000_500);
    // Further fall: the stop trails halfway into the profit.
    r.pm.update_positions(&vec![("BTC".to_string(), 4_800_000u64)]);
    let expected = 4_800_000 + (5_000_500 - 4_800_000) / 2;
    assert_eq!(r.pm.get_positions()[0].stop_loss_cents, expected);
}

#[test]
fn prefilter_gates_confidence_age_and_recent_fills() {
    let cfg = Config::default();
    let fills = FillsLog::new();
    // Confident and fresh: through.
    assert!(should_process_signal(&btc_signal(NOW, 700), &cfg, &fills, NOW));
    // Under the loop threshold of 0.7.
    assert!(!should_process_signal(&btc_signal(NOW, 699), &cfg, &fills, NOW));
    // Stale by one second.
    assert!(!should_process_signal(&btc_signal(NOW - 16, 900), &cfg, &fills, NOW));
    assert!(should_process_signal(&btc_signal(NOW - 15, 900), &cfg, &fills, NOW));
}

#[test]
fn prefilter_blocks_assets_filled_within_five_minutes() {
    let mut r = rig();
    let cfg = two_percent_config();
    process_signal_dry(
        &btc_signal(NOW, 900), &r.executor, &mut r.pm, &mut r.risk, &mut r.fills, NOW, 250,
    );
    assert!(!should_process_signal(&btc_signal(NOW + 299, 900), &cfg, &r.fills, NOW + 299));
    assert!(should_process_signal(&btc_signal(NOW + 300, 900), &cfg, &r.fills, NOW + 300));
}

#[test]
fn status_summary_counts_the_book() {
    let mut r = rig();
    process_signal_dry(
        &btc_signal(NOW, 900), &r.executor, &mut r.pm, &mut r.risk, &mut r.fills, NOW, 250,
    );
    let s = make_status_summary(&r.pm, 60);
    assert_eq!(s.iteration, 60);
    assert_eq!(s.active_positions, 1);
    assert_eq!(s.total_pnl_cents, 0);
}

#[test]
fn long_iterations_collapse_the_sleep() {
    assert_eq!(remaining_cycle_us(1000, 250), 750);
    assert_eq!(remaining_cycle_us(1000, 1000), 0);
    assert_eq!(remaining_cycle_us(1000, 5000), 0);
}
