//! Run-time configuration: one explicit struct, fixed at construction.
//!
//! The thresholds mirror the tunable knobs of the execution layer. All
//! ratios are in per-mille (thousandths), prices and account values in
//! cents, quantities in millionths of a unit.

use vstd::prelude::*;

verus! {

/// Execution mode: `Dry` synthesizes fills, `Live` submits real orders.
#[derive(Clone, Copy, PartialEq, Eq, Structural, Debug)]
pub enum Mode {
    Dry,
    Live,
}

/// Largest price (in cents) the engine accepts: $10^10, far above any
/// crypto tick, small enough that all fixed-point products fit in 128 bits.
pub const MAX_PRICE_CENTS: u64 = 1_000_000_000_000;

/// Largest account balance (in cents) the engine accepts.
pub const MAX_BALANCE_CENTS: u64 = 1_000_000_000_000;

/// Largest order quantity (in millionths of a unit) the engine produces.
pub const MAX_QTY_MICRO: u64 = 1_000_000_000_000;

/// Scale of quantities: one unit is 10^6 micro.
pub const QTY_SCALE: u64 = 1_000_000;

#[derive(Clone, Copy, Debug)]
pub struct Config {
    pub mode: Mode,
    /// Admission gate used by the pre-filter (per-mille of certainty).
    pub confidence_threshold_milli: u64,
    /// Floor the risk engine demands of raw confidence (per-mille).
    pub min_confidence_milli: u64,
    /// Floor for volatility-adjusted confidence (per-mille).
    pub min_adjusted_confidence_milli: u64,
    /// A signal older than this many seconds is stale.
    pub max_signal_age_s: u64,
    /// Most trades admitted in any rolling 24 h window.
    pub max_daily_trades: u64,
    /// Most trades admitted per asset in the same window.
    pub per_asset_daily_cap: u64,
    /// Session drawdown limit, in cents of PnL below zero.
    pub max_drawdown_cents: u64,
    /// Minimum spacing between admitted signals on one asset, in minutes.
    pub cooldown_minutes: u64,
    /// Cap on the value of one position, in cents.
    pub max_position_value_cents: u64,
    /// Soft cap on simultaneously open positions.
    pub max_open_positions: u64,
    /// Share of the account balance risked per trade (per-mille).
    pub risk_pct_pm: u64,
    /// Smallest order quantity, in millionths of a unit.
    pub min_size_micro: u64,
    /// Balance assumed in dry mode, in cents.
    pub dry_balance_cents: u64,
    /// Default stop-loss as a per-mille ratio of entry (shorts: above entry).
    pub stop_ratio_pm: u64,
    /// Take-profit ladder as per-mille ratios of entry, best leg first
    /// (shorts: strictly decreasing, all below entry).
    pub tp1_ratio_pm: u64,
    pub tp2_ratio_pm: u64,
    pub tp3_ratio_pm: u64,
    /// Target length of one control cycle, in microseconds.
    pub cycle_micros: u64,
    /// A feed is healthy while its freshest tick is younger than this.
    pub feed_healthy_window_s: u64,
}

impl Config {
    /// Bounds under which every fixed-point computation of the engine
    /// stays inside 64-bit and 128-bit integers.
    pub open spec fn wf(&self) -> bool {
        &&& self.confidence_threshold_milli <= 1000
        &&& self.min_confidence_milli <= 1000
        &&& self.min_adjusted_confidence_milli <= 1000
        &&& self.max_signal_age_s <= 86_400
        &&& self.cooldown_minutes <= 1440
        &&& 0 < self.risk_pct_pm <= 1000
        &&& 0 < self.min_size_micro <= MAX_QTY_MICRO
        &&& 0 < self.dry_balance_cents <= MAX_BALANCE_CENTS
        &&& 1000 < self.stop_ratio_pm <= 2000
        &&& 0 < self.tp3_ratio_pm < self.tp2_ratio_pm < self.tp1_ratio_pm < 1000
        &&& self.max_position_value_cents <= MAX_BALANCE_CENTS
    }
}

/// The canonical parameter set, as a spec value.
pub open spec fn default_config() -> Config {
    Config {
        mode: Mode::Dry,
        confidence_threshold_milli: 700,
        min_confidence_milli: 750,
        min_adjusted_confidence_milli: 700,
        max_signal_age_s: 15,
        max_daily_trades: 10,
        per_asset_daily_cap: 3,
        max_drawdown_cents: 300,
        cooldown_minutes: 15,
        max_position_value_cents: 2_000_000,
        max_open_positions: 3,
        risk_pct_pm: 5,
        min_size_micro: 1000,
        dry_balance_cents: 1_000_000,
        stop_ratio_pm: 1015,
        tp1_ratio_pm: 985,
        tp2_ratio_pm: 975,
        tp3_ratio_pm: 965,
        cycle_micros: 1000,
        feed_healthy_window_s: 30,
    }
}

impl Default for Config {
    /// The canonical parameter set: dry mode, 15 s freshness, 0.75
    /// confidence floor, 0.70 adjusted floor, 10 trades/day (3 per asset),
    /// $3.00 drawdown stop, 15 min cooldown, $20,000 position cap, 0.5%
    /// risk on a $10,000 balance, stop at 1.015x entry, take-profits at
    /// 0.985/0.975/0.965x entry, 1 ms cycles.
    fn default() -> (c: Config)
        ensures
            c.wf(),
            c == default_config(),
    {
        Config {
            mode: Mode::Dry,
            confidence_threshold_milli: 700,
            min_confidence_milli: 750,
            min_adjusted_confidence_milli: 700,
            max_signal_age_s: 15,
            max_daily_trades: 10,
            per_asset_daily_cap: 3,
            max_drawdown_cents: 300,
            cooldown_minutes: 15,
            max_position_value_cents: 2_000_000,
            max_open_positions: 3,
            risk_pct_pm: 5,
            min_size_micro: 1000,
            dry_balance_cents: 1_000_000,
            stop_ratio_pm: 1015,
            tp1_ratio_pm: 985,
            tp2_ratio_pm: 975,
            tp3_ratio_pm: 965,
            cycle_micros: 1000,
            feed_healthy_window_s: 30,
        }
    }
}

} // verus!
