//! The control loop's decisions: the admission pre-filter, the
//! signal-to-position pipeline in dry mode, the periodic status summary
//! and the cycle-time bookkeeping. The loop itself — polling, sleeping,
//! writing files — runs outside the library and calls in here for every
//! decision.

use vstd::prelude::*;
use crate::config::Config;
use crate::errors::RiskReason;
use crate::executor::{Fill, OkxExecutor};
use crate::fills::{appended, FillRecord, FillsLog};
use crate::position::{has_asset, new_trade, sum_pnl, PositionManager};
use crate::risk::{
    cutoff, lookup_time, recent_times, recent_trades, risk_verdict, RiskEngine,
};
use crate::signal::Signal;

verus! {

/// How one signal ended.
pub enum ProcessOutcome {
    /// Entered the book; carries the fill.
    Executed(Fill),
    /// An open position already holds the asset.
    SkippedPositionExists,
    /// The risk engine said no.
    Rejected(RiskReason),
}

/// `now - ts`, floored at zero for stamps ahead of the clock.
pub open spec fn sat_sub(now: u64, ts: u64) -> u64 {
    if now >= ts {
        (now - ts) as u64
    } else {
        0
    }
}

/// Whether the log holds a fill for this asset younger than five
/// minutes: the duplicate-execution guard of the pre-filter.
pub open spec fn recent_fill_for_asset(entries: Seq<FillRecord>, a: Seq<char>, now_s: u64) -> bool {
    exists|i: int|
        0 <= i < entries.len() && (#[trigger] entries[i]).asset@ == a && sat_sub(
            now_s,
            entries[i].timestamp_s,
        ) < 300
}

/// The pre-filter: confident enough, fresh enough, and no fill for the
/// same asset in the last five minutes.
pub open spec fn should_process(sig: Signal, cfg: Config, entries: Seq<FillRecord>, now_s: u64) -> bool {
    &&& sig.confidence_milli >= cfg.confidence_threshold_milli
    &&& sat_sub(now_s, sig.timestamp_s) <= cfg.max_signal_age_s
    &&& !recent_fill_for_asset(entries, sig.best.asset@, now_s)
}

/// Decides [`should_process`].
pub fn should_process_signal(sig: &Signal, cfg: &Config, fills: &FillsLog, now_s: u64) -> (r: bool)
    ensures
        r == should_process(*sig, *cfg, fills.entries@, now_s),
{
    if sig.confidence_milli < cfg.confidence_threshold_milli {
        return false;
    }
    let age: u64 = if now_s >= sig.timestamp_s {
        now_s - sig.timestamp_s
    } else {
        0
    };
    if age > cfg.max_signal_age_s {
        return false;
    }
    let n = fills.entries.len();
    let mut i: usize = 0;
    while i < n
        invariant
            0 <= i <= n,
            n == fills.entries@.len(),
            forall|k: int|
                0 <= k < i ==> !((#[trigger] fills.entries@[k]).asset@ == sig.best.asset@
                    && sat_sub(now_s, fills.entries@[k].timestamp_s) < 300),
        decreases n - i,
    {
        let e = &fills.entries[i];
        if e.asset == sig.best.asset {
            let gap: u64 = if now_s >= e.timestamp_s {
                now_s - e.timestamp_s
            } else {
                0
            };
            if gap < 300 {
                return false;
            }
        }
        i = i + 1;
    }
    true
}

/// The audit record one fill leaves behind.
pub open spec fn fill_record_of(
    f: Fill,
    confidence_milli: u64,
    cfg: Config,
    execution_time_us: u64,
    validated: Option<bool>,
) -> FillRecord {
    FillRecord {
        timestamp_s: f.timestamp_s,
        asset: f.asset,
        side: f.side,
        entry_price_cents: f.entry_price_cents,
        quantity_micro: f.quantity_micro,
        confidence_milli,
        mode: cfg.mode,
        status: f.status,
        order_id: f.order_id,
        execution_time_us,
        validated,
    }
}

/// One admitted signal through the whole dry pipeline: the ledger guard,
/// the risk gate, the simulated execution, the book and the audit log.
/// Once a signal executes, the asset holds an open position and a fresh
/// cooldown stamp, so an identical signal right after is turned away by
/// the ledger guard — and by the cooldown even if the book were cleared.
pub fn process_signal_dry(
    signal: &Signal,
    executor: &OkxExecutor,
    pm: &mut PositionManager,
    risk: &mut RiskEngine,
    fills: &mut FillsLog,
    now_s: u64,
    execution_time_us: u64,
) -> (r: ProcessOutcome)
    requires
        signal.wf(),
        executor.wf(),
        executor.cfg.mode is Dry,
        old(pm).wf(),
        old(risk).wf(),
        old(fills).wf(),
    ensures
        final(pm).wf(),
        final(risk).wf(),
        final(fills).wf(),
        has_asset(old(pm).positions@, signal.best.asset@) ==> (r is SkippedPositionExists
            && *final(pm) == *old(pm) && *final(risk) == *old(risk)
            && *final(fills) == *old(fills)),
        !has_asset(old(pm).positions@, signal.best.asset@) ==> ({
            let trades_pruned = recent_trades(old(risk).daily_trades@, cutoff(now_s, 86_400));
            let times_pruned = recent_times(old(risk).last_trade_times@, cutoff(now_s, 3600));
            let verdict = risk_verdict(
                old(risk).cfg,
                old(risk).account_balance_cents,
                old(risk).session_pnl_cents,
                trades_pruned,
                times_pruned,
                signal.best.asset@,
                signal.confidence_milli,
                now_s,
            );
            &&& final(risk).daily_trades@ == trades_pruned
            &&& (!(verdict is Passed) ==> (r matches ProcessOutcome::Rejected(reason) && reason
                == verdict && *final(pm) == *old(pm) && *final(fills) == *old(fills)
                && final(risk).last_trade_times@ == times_pruned))
            &&& (verdict is Passed ==> (r matches ProcessOutcome::Executed(f) && {
                &&& f.wf()
                &&& f.asset@ == signal.best.asset@
                &&& f.status is SimulatedFill
                &&& f.timestamp_s == now_s
                &&& final(pm).positions@ == old(pm).positions@.push(
                    new_trade(f, executor.cfg))
                &&& final(pm).closed_positions@ == old(pm).closed_positions@
                &&& final(fills).entries@ == appended(
                    old(fills).entries@,
                    fill_record_of(
                        f,
                        signal.confidence_milli,
                        executor.cfg,
                        execution_time_us,
                        signal.production_validated,
                    ),
                )
                &&& lookup_time(final(risk).last_trade_times@, signal.best.asset@)
                    == Some(now_s)
                &&& has_asset(final(pm).positions@, signal.best.asset@)
            }))
        }),
{
    let asset: &str = signal.best.asset.as_str();
    if pm.has_position(asset) {
        return ProcessOutcome::SkippedPositionExists;
    }
    let check = risk.validate_trade_risk(
        asset,
        signal.best.entry_price_cents,
        signal.confidence_milli,
        now_s,
    );
    if !check.approved {
        return ProcessOutcome::Rejected(check.reason);
    }
    let fill = executor.execute_short_order(signal, now_s);
    let record = FillRecord {
        timestamp_s: fill.timestamp_s,
        asset: fill.asset.clone(),
        side: fill.side.clone(),
        entry_price_cents: fill.entry_price_cents,
        quantity_micro: fill.quantity_micro,
        confidence_milli: signal.confidence_milli,
        mode: executor.cfg.mode,
        status: fill.status,
        order_id: fill.order_id.clone(),
        execution_time_us,
        validated: signal.production_validated,
    };
    match pm.add_position(asset, &fill, &executor.cfg) {
        Ok(_) => {},
        Err(_) => {
            return vstd::pervasive::unreached();
        },
    }
    fills.append(record);
    proof {
        let n = pm.positions@.len();
        assert(pm.positions@[n - 1].asset@ == signal.best.asset@);
    }
    ProcessOutcome::Executed(fill)
}

/// The periodic status line's numbers: open positions and summed PnL.
pub struct StatusSummary {
    pub iteration: u64,
    pub active_positions: usize,
    pub total_pnl_cents: i128,
}

/// Reads the book into a status summary; observational.
pub fn make_status_summary(pm: &PositionManager, iteration: u64) -> (r: StatusSummary)
    requires
        pm.wf(),
    ensures
        r.iteration == iteration,
        r.active_positions == pm.positions@.len(),
        r.total_pnl_cents == sum_pnl(pm.positions@) + sum_pnl(pm.closed_positions@),
{
    StatusSummary {
        iteration,
        active_positions: pm.positions.len(),
        total_pnl_cents: pm.get_total_pnl(),
    }
}

/// What is left of the target cycle after one iteration: the sleep
/// collapses to zero when the iteration ran long.
pub fn remaining_cycle_us(target_us: u64, elapsed_us: u64) -> (r: u64)
    ensures
        r == sat_sub(target_us, elapsed_us),
{
    if target_us >= elapsed_us {
        target_us - elapsed_us
    } else {
        0
    }
}

} // verus!
