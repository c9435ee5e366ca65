use hft_executor::config::{Config, Mode};
use hft_executor::errors::ExecError;
use hft_executor::executor::{
    account_balance_from_details, calculate_position_size, interpret_order_response,
    new_order_uuid, BalanceDetail, OkxExecutor,
};
use hft_executor::signal::{BestSignal, Signal};

const NOW: u64 = 1_700_000_000;

fn btc_signal() -> Signal {
    Signal {
        timestamp_s: NOW,
        confidence_milli: 900,
        production_validated: None,
        best: BestSignal {
            asset: "BTC".to_string(),
            entry_price_cents: 5_000_000,
            stop_loss_cents: None,
            take_profit_1_cents: None,
            take_profit_2_cents: None,
            take_profit_3_cents: None,
        },
    }
}

fn dry_executor() -> OkxExecutor {
    let mut cfg = Config::default();
    cfg.risk_pct_pm = 20;
    OkxExecutor::new(cfg, None).unwrap()
}

#[test]
fn sizes_two_percent_of_ten_thousand_at_fifty_thousand() {
    // $10,000 balance, 2% risk, $50,000 entry: 0.004 of a unit.
    assert_eq!(calculate_position_size(1_000_000, 20, 5_000_000, 1000), 4000);
}

#[test]
fn size_is_floored_at_the_minimum() {
    // $10 balance leaves a size far under the floor of 0.001.
    assert_eq!(calculate_position_size(1_000, 5, 5_000_000, 1000), 1000);
}

#[test]
fn dry_execution_synthesizes_a_fill() {
    let executor = dry_executor();
    let fill = executor.execute_short_order(&btc_signal(), NOW);
    assert_eq!(fill.asset, "BTC");
    assert_eq!(fill.side, "sell");
    // One basis point of slippage: 50000 + 5.00.
    assert_eq!(fill.entry_price_cents, 5_000_500);
    assert_eq!(fill.quantity_micro, 4000);
    // Defaults: stop at 1.015x, ladder at 0.985/0.975/0.965x.
    assert_eq!(fill.stop_loss_cents, 5_075_000);
    assert_eq!(fill.take_profit_1_cents, 4_925_000);
    assert_eq!(fill.take_profit_2_cents, 4_875_000);
    assert_eq!(fill.take_profit_3_cents, 4_825_000);
    assert!(matches!(fill.status, hft_executor::executor::FillStatus::SimulatedFill));
    assert_eq!(fill.timestamp_s, NOW);
    assert!(fill.order_id.starts_with("sim_"));
    assert_eq!(fill.order_id.len(), 4 + 36);
}

#[test]
fn dry_execution_honors_signal_prices() {
    let executor = dry_executor();
    let mut sig = btc_signal();
    sig.best.stop_loss_cents = Some(5_100_000);
    sig.best.take_profit_1_cents = Some(4_900_000);
    let fill = executor.execute_short_order(&sig, NOW);
    assert_eq!(fill.stop_loss_cents, 5_100_000);
    assert_eq!(fill.take_profit_1_cents, 4_900_000);
    assert_eq!(fill.take_profit_2_cents, 4_875_000);
}

#[test]
fn bracket_plan_lays_out_all_legs() {
    let executor = dry_executor();
    let plan = executor.plan_bracket(&btc_signal(), 1_000_000, "u-id", NOW);
    assert_eq!(plan.entry_order.inst_id, "BTC-USDT");
    assert_eq!(plan.entry_order.td_mode, "cross");
    assert_eq!(plan.entry_order.side, "sell");
    assert_eq!(plan.entry_order.ord_type, "market");
    assert_eq!(plan.entry_order.size_micro, 4000);
    assert_eq!(plan.entry_order.cl_ord_id, "hft_short_u-id");
    assert_eq!(plan.stop_order.ord_type, "conditional");
    assert_eq!(plan.stop_order.side, "buy");
    assert_eq!(plan.stop_order.sl_trigger_px_cents, Some(5_075_000));
    // Limit one per-mille past the trigger.
    assert_eq!(plan.stop_order.sl_ord_px_cents, Some(5_080_075));
    assert_eq!(plan.stop_order.cl_ord_id, "sl_u-id");
    assert_eq!(plan.tp1_order.px_cents, Some(4_925_000));
    assert_eq!(plan.tp2_order.px_cents, Some(4_875_000));
    assert_eq!(plan.tp3_order.px_cents, Some(4_825_000));
    assert_eq!(plan.tp1_order.size_micro, 2000);
    assert_eq!(plan.tp2_order.size_micro, 1200);
    assert_eq!(plan.tp3_order.size_micro, 800);
    assert_eq!(plan.tp1_order.cl_ord_id, "tp1_u-id");
    assert_eq!(plan.tp2_order.cl_ord_id, "tp2_u-id");
    assert_eq!(plan.tp3_order.cl_ord_id, "tp3_u-id");
    assert_eq!(plan.fill.quantity_micro, 4000);
    assert_eq!(plan.fill.order_id, "");
}

#[test]
fn live_mode_without_credentials_is_fatal() {
    let mut cfg = Config::default();
    cfg.mode = Mode::Live;
    let r = OkxExecutor::new(cfg, None);
    assert!(matches!(r, Err(ExecError::ConfigError)));
}

#[test]
fn order_response_with_zero_code_and_id_succeeds() {
    let r = interpret_order_response("0", Some("12345"), "{}");
    assert_eq!(r.unwrap(), "12345");
}

#[test]
fn order_response_with_nonzero_code_is_rejected() {
    let r = interpret_order_response("51000", Some("12345"), "{\"msg\":\"bad\"}");
    match r {
        Err(ExecError::ExchangeRejected { code, body }) => {
            assert_eq!(code, "51000");
            assert_eq!(body, "{\"msg\":\"bad\"}");
        },
        _ => panic!("expected a rejection"),
    }
}

#[test]
fn order_response_without_id_is_malformed() {
    assert!(matches!(
        interpret_order_response("0", None, "{}"),
        Err(ExecError::MalformedExchangeResponse)
    ));
    assert!(matches!(
        interpret_order_response("0", Some(""), "{}"),
        Err(ExecError::MalformedExchangeResponse)
    ));
}

#[test]
fn balance_walk_finds_the_usdt_row() {
    let details = vec![
        BalanceDetail { ccy: "BTC".to_string(), eq: "0.5".to_string() },
        BalanceDetail { ccy: "USDT".to_string(), eq: "not-a-number".to_string() },
        BalanceDetail { ccy: "USDT".to_string(), eq: "12345.67".to_string() },
    ];
    assert_eq!(account_balance_from_details(&details), 1_234_567);
}

#[test]
fn balance_walk_falls_back_to_ten_thousand() {
    let details = vec![BalanceDetail { ccy: "BTC".to_string(), eq: "0.5".to_string() }];
    assert_eq!(account_balance_from_details(&details), 1_000_000);
    assert_eq!(account_balance_from_details(&Vec::new()), 1_000_000);
}

#[test]
fn generated_order_ids_are_fresh_uuids() {
    let a = new_order_uuid();
    let b = new_order_uuid();
    assert_eq!(a.len(), 36);
    assert_eq!(b.len(), 36);
    assert_ne!(a, b);
}
