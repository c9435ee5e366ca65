use hft_executor::config::Config;
use hft_executor::errors::RiskReason;
use hft_executor::position::PositionView;
use hft_executor::position::TradeStatus;
use hft_executor::risk::RiskEngine;

const NOW: u64 = 1_700_000_000;

#[test]
fn confidence_at_750_accepted_749_rejected() {
    let mut engine = RiskEngine::new();
    let check = engine.validate_trade_risk("BTC", 5_000_000, 750, NOW);
    assert!(check.approved);
    assert!(matches!(check.reason, RiskReason::Passed));
    // 750 * 0.95 = 712 (floor), the adjusted score.
    assert_eq!(check.confidence_score_milli, 712);

    let mut engine2 = RiskEngine::new();
    let check2 = engine2.validate_trade_risk("BTC", 5_000_000, 749, NOW);
    assert!(!check2.approved);
    assert!(matches!(check2.reason, RiskReason::ConfidenceBelowMinimum));
    assert_eq!(check2.reason.message("BTC"), "Confidence below minimum");
    assert_eq!(check2.confidence_score_milli, 749);
}

#[test]
fn low_confidence_gives_below_minimum_reason() {
    let mut engine = RiskEngine::new();
    let check = engine.validate_trade_risk("BTC", 5_000_000, 600, NOW);
    assert!(!check.approved);
    assert!(matches!(check.reason, RiskReason::ConfidenceBelowMinimum));
    assert_eq!(check.reason.message("BTC"), "Confidence below minimum");
}

#[test]
fn position_value_at_cap_accepted_above_rejected() {
    // balance * risk / 1000 == 2_000_000 cents, exactly the $20,000 cap.
    let mut cfg = Config::default();
    cfg.risk_pct_pm = 20;
    let mut engine = RiskEngine::with_config(cfg, 100_000_000);
    let check = engine.validate_trade_risk("BTC", 5_000_000, 900, NOW);
    assert!(check.approved);

    // One more cent of balance share: $20,000.01 is over the cap.
    let mut engine2 = RiskEngine::with_config(cfg, 100_000_050);
    let check2 = engine2.validate_trade_risk("BTC", 5_000_000, 900, NOW);
    assert!(!check2.approved);
    assert!(matches!(check2.reason, RiskReason::PositionValueExceeded));
    assert_eq!(check2.reason.message("BTC"), "Position value exceeds limit");
}

#[test]
fn cooldown_blocks_second_trade() {
    let mut engine = RiskEngine::new();
    assert!(engine.validate_trade_risk("BTC", 5_000_000, 900, NOW).approved);
    let second = engine.validate_trade_risk("BTC", 5_000_000, 900, NOW + 60);
    assert!(!second.approved);
    assert!(matches!(second.reason, RiskReason::CooldownActive));
    assert_eq!(second.reason.message("BTC"), "Cooldown active for BTC");
    // A different asset is not in cooldown.
    let other = engine.validate_trade_risk("ETH", 300_000, 900, NOW + 60);
    assert!(other.approved);
}

#[test]
fn cooldown_expires_after_window() {
    let mut engine = RiskEngine::new();
    assert!(engine.validate_trade_risk("BTC", 5_000_000, 900, NOW).approved);
    // 15 minutes exactly: the stamp has aged out of the cooldown.
    let later = engine.validate_trade_risk("BTC", 5_000_000, 900, NOW + 15 * 60);
    assert!(later.approved);
}

#[test]
fn daily_trade_limit_enforced() {
    let mut engine = RiskEngine::new();
    for i in 0..10 {
        engine.record_trade_result("BTC", 0, NOW - 1000 + i);
    }
    let check = engine.validate_trade_risk("ETH", 300_000, 900, NOW);
    assert!(!check.approved);
    assert!(matches!(check.reason, RiskReason::DailyLimitExceeded));
    assert_eq!(check.reason.message("ETH"), "Daily trade limit exceeded");
}

#[test]
fn old_trades_prune_out_of_the_window() {
    let mut engine = RiskEngine::new();
    for i in 0..10 {
        engine.record_trade_result("BTC", 0, NOW - 90_000 + i);
    }
    // All ten happened more than 24 h ago: pruned, so the cap is clear.
    let check = engine.validate_trade_risk("ETH", 300_000, 900, NOW);
    assert!(check.approved);
    assert_eq!(engine.get_risk_metrics().daily_trade_count, 0);
}

#[test]
fn per_asset_daily_cap_enforced() {
    let mut engine = RiskEngine::new();
    for i in 0..3 {
        engine.record_trade_result("BTC", 0, NOW - 1000 + i);
    }
    let check = engine.validate_trade_risk("BTC", 5_000_000, 900, NOW);
    assert!(!check.approved);
    assert!(matches!(check.reason, RiskReason::AssetDailyCapExceeded));
    assert_eq!(check.reason.message("BTC"), "Daily limit for asset exceeded");
    // The cap is per asset.
    let other = engine.validate_trade_risk("ETH", 300_000, 900, NOW);
    assert!(other.approved);
}

#[test]
fn drawdown_blocks_trading() {
    let mut engine = RiskEngine::new();
    engine.record_trade_result("BTC", -301, NOW - 1000);
    let check = engine.validate_trade_risk("ETH", 300_000, 900, NOW);
    assert!(!check.approved);
    assert!(matches!(check.reason, RiskReason::DrawdownExceeded));
    assert_eq!(check.reason.message("ETH"), "Session drawdown exceeds limit");
}

#[test]
fn adjusted_confidence_floor_enforced() {
    let mut engine = RiskEngine::new();
    // 800 * 0.80 = 640 < 700 for an unlisted asset.
    let check = engine.validate_trade_risk("DOGE", 100, 800, NOW);
    assert!(!check.approved);
    assert!(matches!(check.reason, RiskReason::AdjustedConfidenceTooLow));
    assert_eq!(check.confidence_score_milli, 640);
    assert_eq!(
        check.reason.message("DOGE"),
        "Volatility-adjusted confidence too low"
    );
    // The same confidence on BTC clears it: 800 * 0.95 = 760.
    let mut engine2 = RiskEngine::new();
    let check2 = engine2.validate_trade_risk("BTC", 100, 800, NOW);
    assert!(check2.approved);
    assert_eq!(check2.confidence_score_milli, 760);
}

#[test]
fn evaluate_positions_refreshes_session_pnl() {
    let mut engine = RiskEngine::new();
    let positions = vec![
        view("BTC", 5_000_000, -30_000),
        view("ETH", 300_000, 1_000),
        // -5.1% of entry: a large loss.
        view("SOL", 10_000, -510),
    ];
    let warnings = engine.evaluate_positions(&positions);
    assert_eq!(engine.get_risk_metrics().session_pnl_cents, -29_000 - 510);
    // BTC at -0.6% and ETH positive are quiet; SOL crosses -5%.
    assert_eq!(warnings, 1);
}

#[test]
fn risk_metrics_report_the_ledger() {
    let mut engine = RiskEngine::new();
    engine.record_trade_result("BTC", 150, NOW - 100);
    assert!(engine.validate_trade_risk("ETH", 300_000, 900, NOW).approved);
    let m = engine.get_risk_metrics();
    assert_eq!(m.daily_trade_count, 1);
    assert_eq!(m.max_daily_trades, 10);
    assert_eq!(m.session_pnl_cents, 150);
    assert_eq!(m.max_drawdown_cents, 300);
    assert_eq!(m.active_cooldowns, 1);
    assert_eq!(m.cooldown_minutes, 15);
}

fn view(asset: &str, entry: u64, pnl: i64) -> PositionView {
    PositionView {
        id: "t".to_string(),
        asset: asset.to_string(),
        side: "sell".to_string(),
        entry_price_cents: entry,
        quantity_micro: 1000,
        stop_loss_cents: entry,
        take_profit_cents: entry,
        status: TradeStatus::Open,
        unrealized_pnl_cents: pnl,
        is_breakeven: false,
        timestamp_s: NOW,
    }
}
