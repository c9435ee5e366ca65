use hft_executor::config::Config;
use hft_executor::errors::ExecError;
use hft_executor::executor::{Fill, FillStatus};
use hft_executor::position::{PositionManager, TradeStatus};

const NOW: u64 = 1_700_000_000;

fn btc_fill() -> Fill {
    Fill {
        order_id: "sim_test".to_string(),
        asset: "BTC".to_string(),
        side: "sell".to_string(),
        quantity_micro: 4000,
        entry_price_cents: 5_000_000,
        stop_loss_cents: 5_075_000,
        take_profit_1_cents: 4_925_000,
        take_profit_2_cents: 4_875_000,
        take_profit_3_cents: 4_825_000,
        status: FillStatus::SimulatedFill,
        timestamp_s: NOW,
    }
}

fn book_with_btc() -> PositionManager {
    let mut pm = PositionManager::new();
    pm.add_position("BTC", &btc_fill(), &Config::default()).unwrap();
    pm
}

#[test]
fn add_position_builds_the_ladder() {
    let pm = book_with_btc();
    let views = pm.get_positions();
    assert_eq!(views.len(), 1);
    let v = &views[0];
    assert_eq!(v.asset, "BTC");
    assert_eq!(v.side, "sell");
    assert_eq!(v.entry_price_cents, 5_000_000);
    assert_eq!(v.quantity_micro, 4000);
    assert_eq!(v.stop_loss_cents, 5_075_000);
    assert!(!v.is_breakeven);
    assert!(matches!(v.status, TradeStatus::Open));
    let levels = pm.positions[0].tp_levels();
    assert_eq!(levels[0].price_cents, 4_925_000);
    assert_eq!(levels[1].price_cents, 4_875_000);
    assert_eq!(levels[2].price_cents, 4_825_000);
    // Sizes half / three-tenths / remainder, covering the quantity.
    assert_eq!(levels[0].size_micro, 2000);
    assert_eq!(levels[1].size_micro, 1200);
    assert_eq!(levels[2].size_micro, 800);
    assert_eq!(
        levels[0].size_micro + levels[1].size_micro + levels[2].size_micro,
        v.quantity_micro
    );
}

#[test]
fn ladder_sizes_cover_odd_quantities_exactly() {
    let mut fill = btc_fill();
    fill.quantity_micro = 4001;
    let mut pm = PositionManager::new();
    pm.add_position("BTC", &fill, &Config::default()).unwrap();
    let levels = pm.positions[0].tp_levels();
    assert_eq!(levels[0].size_micro, 2000);
    assert_eq!(levels[1].size_micro, 1200);
    assert_eq!(levels[2].size_micro, 801);
    assert_eq!(
        levels[0].size_micro + levels[1].size_micro + levels[2].size_micro,
        4001
    );
}

#[test]
fn second_position_for_same_asset_is_refused() {
    let mut pm = book_with_btc();
    let err = pm.add_position("BTC", &btc_fill(), &Config::default());
    assert!(matches!(err, Err(ExecError::LedgerConflict)));
    assert_eq!(pm.get_positions().len(), 1);
    assert!(pm.has_position("BTC"));
    assert!(!pm.has_position("ETH"));
}

#[test]
fn first_take_profit_promotes_stop_to_breakeven() {
    let mut pm = book_with_btc();
    // Price drops below the first rung at 49250.
    pm.update_positions(&vec![("BTC".to_string(), 4_920_000u64)]);
    let views = pm.get_positions();
    assert_eq!(views.len(), 1);
    let v = &views[0];
    assert!(v.is_breakeven);
    assert_eq!(v.stop_loss_cents, 5_000_000);
    let levels = pm.positions[0].tp_levels();
    assert!(levels[0].filled);
    assert!(!levels[1].filled);
    // PnL: (50000 - 49200) * 0.004 = $3.20.
    assert_eq!(v.unrealized_pnl_cents, 320);
}

#[test]
fn trailing_stop_follows_profit_and_never_retreats() {
    let mut pm = book_with_btc();
    pm.update_positions(&vec![("BTC".to_string(), 4_920_000u64)]);
    // After breakeven, the price runs to 48000: the stop trails to
    // 48000 + (50000 - 48000) / 2 = 49000.
    pm.update_positions(&vec![("BTC".to_string(), 4_800_000u64)]);
    assert_eq!(pm.get_positions()[0].stop_loss_cents, 4_900_000);
    // A bounce to 48500 would trail at 49250 — adverse, so it holds.
    pm.update_positions(&vec![("BTC".to_string(), 4_850_000u64)]);
    assert_eq!(pm.get_positions()[0].stop_loss_cents, 4_900_000);
    // A bounce through the stop closes the trade with the stop where
    // the trail left it: it never moved back up.
    pm.update_positions(&vec![("BTC".to_string(), 4_950_000u64)]);
    assert_eq!(pm.get_positions().len(), 0);
    assert_eq!(pm.closed_positions[0].stop_loss_cents, 4_900_000);
}

#[test]
fn stop_trigger_closes_the_position() {
    let mut pm = book_with_btc();
    pm.update_positions(&vec![("BTC".to_string(), 5_075_000u64)]);
    assert_eq!(pm.get_positions().len(), 0);
    assert!(!pm.has_position("BTC"));
    assert_eq!(pm.closed_positions.len(), 1);
    let closed = &pm.closed_positions[0];
    assert!(matches!(closed.status, TradeStatus::Closed(_)));
    assert_eq!(closed.status_text(), "closed_stop_triggered");
    // Final PnL at the stop: (50000 - 50750) * 0.004 = -$3.00.
    assert_eq!(closed.unrealized_pnl_cents, -300);
}

#[test]
fn unknown_assets_stand_still() {
    let mut pm = book_with_btc();
    pm.update_positions(&vec![("ETH".to_string(), 300_000u64)]);
    let v = &pm.get_positions()[0];
    assert_eq!(v.stop_loss_cents, 5_075_000);
    assert_eq!(v.unrealized_pnl_cents, 0);
}

#[test]
fn total_pnl_sums_open_and_closed() {
    let mut pm = book_with_btc();
    let eth_fill = Fill {
        order_id: "sim_eth".to_string(),
        asset: "ETH".to_string(),
        side: "sell".to_string(),
        quantity_micro: 10_000,
        entry_price_cents: 300_000,
        stop_loss_cents: 304_500,
        take_profit_1_cents: 295_500,
        take_profit_2_cents: 292_500,
        take_profit_3_cents: 289_500,
        status: FillStatus::SimulatedFill,
        timestamp_s: NOW,
    };
    pm.add_position("ETH", &eth_fill, &Config::default()).unwrap();
    // BTC hits its stop (-300); ETH gains (3000 - 2990) * 0.01 = $0.10.
    pm.update_positions(&vec![
        ("BTC".to_string(), 5_075_000u64),
        ("ETH".to_string(), 299_000u64),
    ]);
    assert_eq!(pm.get_total_pnl(), -300 + 10);
}
