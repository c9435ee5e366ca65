//! The position manager: the in-memory ledger of open and closed trades.
//!
//! Each control cycle hands it a price snapshot; it recomputes unrealized
//! PnL, fires take-profit levels, promotes the stop to breakeven after the
//! first fill, trails the stop through accrued profit, and closes trades
//! whose stop triggered. One trade step is the spec function
//! [`step_trade`]; a whole pass is [`apply_prices`].

use vstd::prelude::*;
use crate::config::{Config, MAX_PRICE_CENTS, MAX_QTY_MICRO, QTY_SCALE};
use crate::errors::ExecError;
use crate::executor::{ratio_price, Fill};

verus! {

/// Why a trade left the book.
#[derive(Clone, Copy, PartialEq, Eq, Structural, Debug)]
pub enum CloseReason {
    StopTriggered,
}

#[derive(Clone, Copy, PartialEq, Eq, Structural, Debug)]
pub enum TradeStatus {
    Open,
    Closed(CloseReason),
}

/// One take-profit rung: price, share of the quantity, and whether it has
/// fired.
#[derive(Clone, Copy, PartialEq, Eq, Structural, Debug)]
pub struct TpLevel {
    pub price_cents: u64,
    pub size_micro: u64,
    pub filled: bool,
}

/// Magnitude bound on any single trade's PnL, in cents.
pub const TRADE_PNL_BOUND: i64 = 2_000_000_000_000_000_000;

/// One short position through its lifecycle.
pub struct Trade {
    pub id: String,
    pub asset: String,
    pub side: String,
    pub entry_price_cents: u64,
    pub quantity_micro: u64,
    pub stop_loss_cents: u64,
    pub take_profit_cents: u64,
    pub timestamp_s: u64,
    pub status: TradeStatus,
    pub unrealized_pnl_cents: i64,
    pub tp1: TpLevel,
    pub tp2: TpLevel,
    pub tp3: TpLevel,
    pub is_breakeven: bool,
}

impl Trade {
    /// The standing invariants of a trade: a short with a full ladder
    /// whose sizes cover the quantity exactly, prices ordered best-first,
    /// and — once breakeven — a stop at or under the entry.
    pub open spec fn wf(&self) -> bool {
        &&& self.side@ == "sell"@
        &&& 0 < self.entry_price_cents <= 2 * MAX_PRICE_CENTS
        &&& 0 < self.quantity_micro <= MAX_QTY_MICRO
        &&& self.stop_loss_cents <= 4 * MAX_PRICE_CENTS
        &&& self.tp1.price_cents >= self.tp2.price_cents >= self.tp3.price_cents
        &&& self.tp1.size_micro + self.tp2.size_micro + self.tp3.size_micro
            == self.quantity_micro
        &&& self.is_breakeven ==> self.stop_loss_cents <= self.entry_price_cents
        &&& self.tp1.filled ==> self.is_breakeven
        &&& -TRADE_PNL_BOUND <= self.unrealized_pnl_cents <= TRADE_PNL_BOUND
    }

    /// The ladder as a list, best rung first.
    pub fn tp_levels(&self) -> (r: Vec<TpLevel>)
        ensures
            r@ == seq![self.tp1, self.tp2, self.tp3],
    {
        let mut r: Vec<TpLevel> = Vec::new();
        r.push(self.tp1);
        r.push(self.tp2);
        r.push(self.tp3);
        proof {
            assert(r@ =~= seq![self.tp1, self.tp2, self.tp3]);
        }
        r
    }

    /// The status as the audit log spells it.
    pub fn status_text(&self) -> (r: String)
        ensures
            self.status is Open ==> r@ == "open"@,
            self.status matches TradeStatus::Closed(c) ==> r@ == "closed_stop_triggered"@,
    {
        match self.status {
            TradeStatus::Open => "open".to_owned(),
            TradeStatus::Closed(CloseReason::StopTriggered) => "closed_stop_triggered".to_owned(),
        }
    }
}

/// The PnL of a short in cents: entry minus current, times quantity.
pub open spec fn pnl_cents(entry: u64, cur: u64, qty: u64) -> int {
    if entry >= cur {
        (entry - cur) * qty / (QTY_SCALE as int)
    } else {
        -((cur - entry) * qty / (QTY_SCALE as int))
    }
}

/// A short's stop triggers when the price reaches or crosses it.
pub open spec fn stop_hit(t: Trade, p: u64) -> bool {
    p >= t.stop_loss_cents
}

/// A rung fires when the price reaches or crosses it from above.
pub open spec fn fill_level(l: TpLevel, p: u64) -> TpLevel {
    TpLevel { filled: l.filled || p <= l.price_cents, ..l }
}

/// Whether this pass fires a rung that was not yet filled.
pub open spec fn any_new_fill(t: Trade, p: u64) -> bool {
    ||| (!t.tp1.filled && p <= t.tp1.price_cents)
    ||| (!t.tp2.filled && p <= t.tp2.price_cents)
    ||| (!t.tp3.filled && p <= t.tp3.price_cents)
}

/// One update of an open trade that did not hit its stop: refresh PnL,
/// fire rungs, promote the stop to entry when the first rung fires, and —
/// only if the trade entered the pass already breakeven — trail the stop
/// halfway into the accrued profit, never adversely.
pub open spec fn step_trade(t: Trade, p: u64) -> Trade {
    let tp1 = fill_level(t.tp1, p);
    let tp2 = fill_level(t.tp2, p);
    let tp3 = fill_level(t.tp3, p);
    let promote = any_new_fill(t, p) && tp1.filled && !t.is_breakeven;
    let stop_after_promotion: u64 = if promote {
        t.entry_price_cents
    } else {
        t.stop_loss_cents
    };
    let stop: u64 = if t.is_breakeven && p < t.entry_price_cents {
        let trailing = (p + (t.entry_price_cents - p) / 2) as u64;
        if trailing < stop_after_promotion {
            trailing
        } else {
            stop_after_promotion
        }
    } else {
        stop_after_promotion
    };
    Trade {
        unrealized_pnl_cents: pnl_cents(t.entry_price_cents, p, t.quantity_micro) as i64,
        tp1,
        tp2,
        tp3,
        stop_loss_cents: stop,
        is_breakeven: t.is_breakeven || promote,
        ..t
    }
}

/// Closing a trade whose stop triggered: final PnL at the closing price.
pub open spec fn close_trade(t: Trade, p: u64) -> Trade {
    Trade {
        status: TradeStatus::Closed(CloseReason::StopTriggered),
        unrealized_pnl_cents: pnl_cents(t.entry_price_cents, p, t.quantity_micro) as i64,
        ..t
    }
}

/// The magnitude of a price move times the quantity, in cents.
fn pnl_magnitude(diff: u64, qty: u64) -> (r: u64)
    requires
        diff <= 2 * MAX_PRICE_CENTS,
        qty <= MAX_QTY_MICRO,
    ensures
        r == diff * qty / (QTY_SCALE as int),
        r <= TRADE_PNL_BOUND,
{
    proof {
        vstd::arithmetic::mul::lemma_mul_upper_bound(
            diff as int,
            2 * MAX_PRICE_CENTS as int,
            qty as int,
            MAX_QTY_MICRO as int,
        );
    }
    let v = (diff as u128) * (qty as u128) / (QTY_SCALE as u128);
    v as u64
}

/// The bound [`pnl_cents`] keeps under the engine's price and size caps.
pub proof fn lemma_pnl_bound(entry: u64, cur: u64, qty: u64)
    requires
        entry <= 2 * MAX_PRICE_CENTS,
        cur <= 2 * MAX_PRICE_CENTS,
        qty <= MAX_QTY_MICRO,
    ensures
        -TRADE_PNL_BOUND <= pnl_cents(entry, cur, qty) <= TRADE_PNL_BOUND,
{
    if entry >= cur {
        vstd::arithmetic::mul::lemma_mul_upper_bound(
            (entry - cur) as int,
            2 * MAX_PRICE_CENTS as int,
            qty as int,
            MAX_QTY_MICRO as int,
        );
    } else {
        vstd::arithmetic::mul::lemma_mul_upper_bound(
            (cur - entry) as int,
            2 * MAX_PRICE_CENTS as int,
            qty as int,
            MAX_QTY_MICRO as int,
        );
    }
}

/// Computes [`pnl_cents`] within the engine's bounds.
fn compute_pnl(entry: u64, cur: u64, qty: u64) -> (r: i64)
    requires
        entry <= 2 * MAX_PRICE_CENTS,
        cur <= 2 * MAX_PRICE_CENTS,
        qty <= MAX_QTY_MICRO,
    ensures
        r == pnl_cents(entry, cur, qty),
        -TRADE_PNL_BOUND <= r <= TRADE_PNL_BOUND,
{
    if entry >= cur {
        let v = pnl_magnitude(entry - cur, qty);
        v as i64
    } else {
        let v = pnl_magnitude(cur - entry, qty);
        0i64 - (v as i64)
    }
}

/// One in-place update of an open trade; returns whether the stop
/// triggered, in which case the trade is closed.
pub fn update_trade(t: &mut Trade, p: u64) -> (closed: bool)
    requires
        old(t).wf(),
        old(t).status is Open,
        p <= MAX_PRICE_CENTS,
    ensures
        closed == stop_hit(*old(t), p),
        closed ==> *final(t) == close_trade(*old(t), p),
        !closed ==> *final(t) == step_trade(*old(t), p),
        final(t).wf(),
        final(t).asset@ == old(t).asset@,
        closed ==> final(t).status matches TradeStatus::Closed(c),
        !closed ==> final(t).status is Open,
{
    let pnl = compute_pnl(t.entry_price_cents, p, t.quantity_micro);
    t.unrealized_pnl_cents = pnl;
    if p >= t.stop_loss_cents {
        t.status = TradeStatus::Closed(CloseReason::StopTriggered);
        return true;
    }
    let was_breakeven = t.is_breakeven;
    let mut newly_filled = false;
    if !t.tp1.filled && p <= t.tp1.price_cents {
        t.tp1.filled = true;
        newly_filled = true;
    }
    if !t.tp2.filled && p <= t.tp2.price_cents {
        t.tp2.filled = true;
        newly_filled = true;
    }
    if !t.tp3.filled && p <= t.tp3.price_cents {
        t.tp3.filled = true;
        newly_filled = true;
    }
    if newly_filled && t.tp1.filled && !t.is_breakeven {
        t.stop_loss_cents = t.entry_price_cents;
        t.is_breakeven = true;
    }
    if was_breakeven && p < t.entry_price_cents {
        let trailing = p + (t.entry_price_cents - p) / 2;
        if trailing < t.stop_loss_cents {
            t.stop_loss_cents = trailing;
        }
    }
    false
}

/// Whether some trade in the list carries this asset.
pub open spec fn has_asset(ts: Seq<Trade>, a: Seq<char>) -> bool {
    exists|i: int| 0 <= i < ts.len() && #[trigger] ts[i].asset@ == a
}

/// The first price recorded for an asset in a snapshot.
pub open spec fn lookup_price(ps: Seq<(String, u64)>, a: Seq<char>) -> Option<u64>
    decreases ps.len(),
{
    if ps.len() == 0 {
        None
    } else if ps.first().0@ == a {
        Some(ps.first().1)
    } else {
        lookup_price(ps.drop_first(), a)
    }
}

/// One whole pass over the book under a price snapshot: every trade with
/// a known price steps or closes; the rest stand still.
pub open spec fn apply_prices(ts: Seq<Trade>, ps: Seq<(String, u64)>) -> (Seq<Trade>, Seq<Trade>)
    decreases ts.len(),
{
    if ts.len() == 0 {
        (Seq::<Trade>::empty(), Seq::<Trade>::empty())
    } else {
        let r = apply_prices(ts.drop_last(), ps);
        let t = ts.last();
        match lookup_price(ps, t.asset@) {
            Some(p) => if stop_hit(t, p) {
                (r.0, r.1.push(close_trade(t, p)))
            } else {
                (r.0.push(step_trade(t, p)), r.1)
            },
            None => (r.0.push(t), r.1),
        }
    }
}

/// The flat value object the accessors hand out.
pub struct PositionView {
    pub id: String,
    pub asset: String,
    pub side: String,
    pub entry_price_cents: u64,
    pub quantity_micro: u64,
    pub stop_loss_cents: u64,
    pub take_profit_cents: u64,
    pub status: TradeStatus,
    pub unrealized_pnl_cents: i64,
    pub is_breakeven: bool,
    pub timestamp_s: u64,
}

pub open spec fn view_of_trade(t: Trade) -> PositionView {
    PositionView {
        id: t.id,
        asset: t.asset,
        side: t.side,
        entry_price_cents: t.entry_price_cents,
        quantity_micro: t.quantity_micro,
        stop_loss_cents: t.stop_loss_cents,
        take_profit_cents: t.take_profit_cents,
        status: t.status,
        unrealized_pnl_cents: t.unrealized_pnl_cents,
        is_breakeven: t.is_breakeven,
        timestamp_s: t.timestamp_s,
    }
}

/// The signed sum of the trades' PnL, in cents.
pub open spec fn sum_pnl(ts: Seq<Trade>) -> int
    decreases ts.len(),
{
    if ts.len() == 0 {
        0
    } else {
        sum_pnl(ts.drop_last()) + ts.last().unrealized_pnl_cents
    }
}

/// Every trade in bound keeps the sum in bound.
pub proof fn lemma_sum_pnl_bound(ts: Seq<Trade>)
    requires
        forall|i: int| 0 <= i < ts.len() ==> (#[trigger] ts[i]).wf(),
    ensures
        -(ts.len() as int) * (TRADE_PNL_BOUND as int) <= sum_pnl(ts) <= (ts.len() as int) * (
        TRADE_PNL_BOUND as int),
    decreases ts.len(),
{
    if ts.len() > 0 {
        assert(forall|i: int|
            0 <= i < ts.len() - 1 ==> (#[trigger] ts.drop_last()[i]) == ts[i]);
        lemma_sum_pnl_bound(ts.drop_last());
        assert(ts.last().wf());
    }
}

/// The ledger. Open positions are keyed by asset — never two for one.
pub struct PositionManager {
    pub positions: Vec<Trade>,
    pub closed_positions: Vec<Trade>,
}

impl PositionManager {
    /// The book's invariants: every open trade well-formed, open and
    /// uniquely keyed; every closed trade well-formed and closed.
    pub open spec fn wf(&self) -> bool {
        &&& forall|i: int|
            0 <= i < self.positions@.len() ==> (#[trigger] self.positions@[i]).wf()
                && self.positions@[i].status is Open
        &&& forall|i: int, j: int|
            0 <= i < j < self.positions@.len() ==> (#[trigger] self.positions@[i].asset@) != (
            #[trigger] self.positions@[j].asset@)
        &&& forall|i: int|
            0 <= i < self.closed_positions@.len() ==> (#[trigger] self.closed_positions@[i]).wf()
                && !(self.closed_positions@[i].status is Open)
    }

    pub fn new() -> (r: PositionManager)
        ensures
            r.wf(),
            r.positions@.len() == 0,
            r.closed_positions@.len() == 0,
    {
        PositionManager { positions: Vec::new(), closed_positions: Vec::new() }
    }

    /// Whether an open position for the asset exists.
    pub fn has_position(&self, asset: &str) -> (r: bool)
        ensures
            r == has_asset(self.positions@, asset@),
    {
        let n = self.positions.len();
        let mut i: usize = 0;
        while i < n
            invariant
                0 <= i <= n,
                n == self.positions@.len(),
                forall|k: int| 0 <= k < i ==> (#[trigger] self.positions@[k].asset@) != asset@,
            decreases n - i,
        {
            if self.positions[i].asset == asset.to_owned() {
                return true;
            }
            i = i + 1;
        }
        false
    }

    /// Registers a fill as a fresh trade: the ladder is cut from the entry
    /// price by the configured ratios, sized half / three-tenths / rest.
    /// Refuses an asset that already has an open position.
    pub fn add_position(&mut self, asset: &str, fill: &Fill, cfg: &Config) -> (r: Result<
        (),
        ExecError,
    >)
        requires
            old(self).wf(),
            fill.wf(),
            fill.asset@ == asset@,
            cfg.wf(),
        ensures
            final(self).wf(),
            has_asset(old(self).positions@, asset@) ==> (r matches Err(e) && e is LedgerConflict
                && *final(self) == *old(self)),
            !has_asset(old(self).positions@, asset@) ==> r is Ok && final(self).positions@.len()
                == old(self).positions@.len() + 1 && final(self).closed_positions@
                == old(self).closed_positions@ && (forall|i: int|
                0 <= i < old(self).positions@.len() ==> final(self).positions@[i] == old(
                    self,
                ).positions@[i]) && final(self).positions@.last() == new_trade(*fill, *cfg),
    {
        if self.has_position(asset) {
            return Err(ExecError::LedgerConflict);
        }
        let q = fill.quantity_micro;
        let entry = fill.entry_price_cents;
        let size1 = q / 2;
        let size2 = q * 3 / 10;
        let size3 = q - size1 - size2;
        proof {
            assert(entry * cfg.tp1_ratio_pm >= entry * cfg.tp2_ratio_pm) by (nonlinear_arith)
                requires
                    cfg.tp1_ratio_pm >= cfg.tp2_ratio_pm,
            ;
            assert(entry * cfg.tp2_ratio_pm >= entry * cfg.tp3_ratio_pm) by (nonlinear_arith)
                requires
                    cfg.tp2_ratio_pm >= cfg.tp3_ratio_pm,
            ;
            assert(entry * cfg.tp1_ratio_pm <= entry * 1000) by (nonlinear_arith)
                requires
                    cfg.tp1_ratio_pm <= 1000,
            ;
            assert(entry * cfg.tp1_ratio_pm <= 4 * MAX_PRICE_CENTS * 1000) by (nonlinear_arith)
                requires
                    entry <= 2 * MAX_PRICE_CENTS,
                    cfg.tp1_ratio_pm <= 1000,
            ;
            assert(entry * cfg.tp2_ratio_pm <= 4 * MAX_PRICE_CENTS * 1000) by (nonlinear_arith)
                requires
                    entry <= 2 * MAX_PRICE_CENTS,
                    cfg.tp2_ratio_pm <= 1000,
            ;
            assert(entry * cfg.tp3_ratio_pm <= 4 * MAX_PRICE_CENTS * 1000) by (nonlinear_arith)
                requires
                    entry <= 2 * MAX_PRICE_CENTS,
                    cfg.tp3_ratio_pm <= 1000,
            ;
        }
        let trade = Trade {
            id: fill.order_id.clone(),
            asset: fill.asset.clone(),
            side: fill.side.clone(),
            entry_price_cents: entry,
            quantity_micro: q,
            stop_loss_cents: fill.stop_loss_cents,
            take_profit_cents: fill.take_profit_1_cents,
            timestamp_s: fill.timestamp_s,
            status: TradeStatus::Open,
            unrealized_pnl_cents: 0,
            tp1: TpLevel {
                price_cents: entry * cfg.tp1_ratio_pm / 1000,
                size_micro: size1,
                filled: false,
            },
            tp2: TpLevel {
                price_cents: entry * cfg.tp2_ratio_pm / 1000,
                size_micro: size2,
                filled: false,
            },
            tp3: TpLevel {
                price_cents: entry * cfg.tp3_ratio_pm / 1000,
                size_micro: size3,
                filled: false,
            },
            is_breakeven: false,
        };
        self.positions.push(trade);
        Ok(())
    }

    /// One pass of the control cycle over the whole book, under a price
    /// snapshot whose entries stay within the engine's price bound.
    pub fn update_positions(&mut self, prices: &Vec<(String, u64)>)
        requires
            old(self).wf(),
            forall|i: int| 0 <= i < prices@.len() ==> (#[trigger] prices@[i]).1 <= MAX_PRICE_CENTS,
        ensures
            final(self).wf(),
            final(self).positions@ == apply_prices(old(self).positions@, prices@).0,
            final(self).closed_positions@ == old(self).closed_positions@ + apply_prices(
                old(self).positions@,
                prices@,
            ).1,
    {
        let n = self.positions.len();
        let mut remaining: Vec<Trade> = Vec::new();
        let mut newly_closed: Vec<Trade> = Vec::new();
        let mut i: usize = 0;
        proof {
            assert(self.positions@.subrange(0, 0) =~= Seq::<Trade>::empty());
        }
        while i < n
            invariant
                0 <= i <= n,
                n == self.positions@.len(),
                self.positions@ == old(self).positions@,
                self.closed_positions@ == old(self).closed_positions@,
                old(self).wf(),
                forall|k: int|
                    0 <= k < prices@.len() ==> (#[trigger] prices@[k]).1 <= MAX_PRICE_CENTS,
                (remaining@, newly_closed@) == apply_prices(
                    old(self).positions@.subrange(0, i as int),
                    prices@,
                ),
            decreases n - i,
        {
            proof {
                assert(old(self).positions@.subrange(0, i + 1).drop_last() =~= old(
                    self,
                ).positions@.subrange(0, i as int));
                assert(old(self).positions@.subrange(0, i + 1).last() == old(
                    self,
                ).positions@[i as int]);
            }
            let mut t = clone_trade(&self.positions[i]);
            proof {
                lemma_lookup_price_bound(prices@, t.asset@);
            }
            match get_price(prices, t.asset.as_str()) {
                Some(p) => {
                    let closed = update_trade(&mut t, p);
                    if closed {
                        newly_closed.push(t);
                    } else {
                        remaining.push(t);
                    }
                },
                None => {
                    remaining.push(t);
                },
            }
            i = i + 1;
        }
        proof {
            assert(old(self).positions@.subrange(0, n as int) =~= old(self).positions@);
            lemma_apply_prices_wf(old(self).positions@, prices@);
        }
        self.positions = remaining;
        let m = newly_closed.len();
        let mut j: usize = 0;
        while j < m
            invariant
                0 <= j <= m,
                m == newly_closed@.len(),
                self.positions@ == apply_prices(old(self).positions@, prices@).0,
                newly_closed@ == apply_prices(old(self).positions@, prices@).1,
                self.closed_positions@ == old(self).closed_positions@ + newly_closed@.subrange(
                    0,
                    j as int,
                ),
                old(self).wf(),
                forall|k: int|
                    0 <= k < newly_closed@.len() ==> (#[trigger] newly_closed@[k]).wf() && !(
                    newly_closed@[k].status is Open),
            decreases m - j,
        {
            proof {
                assert(newly_closed@.subrange(0, j + 1) =~= newly_closed@.subrange(
                    0,
                    j as int,
                ).push(newly_closed@[j as int]));
            }
            let c = clone_trade(&newly_closed[j]);
            self.closed_positions.push(c);
            j = j + 1;
        }
        proof {
            assert(newly_closed@.subrange(0, m as int) =~= newly_closed@);
        }
    }

    /// Flat copies of the open positions.
    pub fn get_positions(&self) -> (r: Vec<PositionView>)
        ensures
            r@.len() == self.positions@.len(),
            forall|i: int|
                0 <= i < r@.len() ==> r@[i] == view_of_trade(#[trigger] self.positions@[i]),
    {
        let n = self.positions.len();
        let mut r: Vec<PositionView> = Vec::new();
        let mut i: usize = 0;
        while i < n
            invariant
                0 <= i <= n,
                n == self.positions@.len(),
                r@.len() == i,
                forall|k: int|
                    0 <= k < i ==> r@[k] == view_of_trade(#[trigger] self.positions@[k]),
            decreases n - i,
        {
            let t = &self.positions[i];
            r.push(
                PositionView {
                    id: t.id.clone(),
                    asset: t.asset.clone(),
                    side: t.side.clone(),
                    entry_price_cents: t.entry_price_cents,
                    quantity_micro: t.quantity_micro,
                    stop_loss_cents: t.stop_loss_cents,
                    take_profit_cents: t.take_profit_cents,
                    status: t.status,
                    unrealized_pnl_cents: t.unrealized_pnl_cents,
                    is_breakeven: t.is_breakeven,
                    timestamp_s: t.timestamp_s,
                },
            );
            i = i + 1;
        }
        r
    }

    /// The summed PnL of the whole book, open and closed together.
    pub fn get_total_pnl(&self) -> (r: i128)
        requires
            self.wf(),
        ensures
            r == sum_pnl(self.positions@) + sum_pnl(self.closed_positions@),
    {
        let n1 = self.positions.len();
        let n2 = self.closed_positions.len();
        let a = sum_pnl_exec(&self.positions);
        let b = sum_pnl_exec(&self.closed_positions);
        proof {
            lemma_sum_pnl_bound(self.positions@);
            lemma_sum_pnl_bound(self.closed_positions@);
            assert(self.positions@.len() == n1 && self.closed_positions@.len() == n2);
        }
        a + b
    }
}

/// A field-for-field copy of a trade.
fn clone_trade(t: &Trade) -> (r: Trade)
    ensures
        r == *t,
{
    Trade {
        id: t.id.clone(),
        asset: t.asset.clone(),
        side: t.side.clone(),
        entry_price_cents: t.entry_price_cents,
        quantity_micro: t.quantity_micro,
        stop_loss_cents: t.stop_loss_cents,
        take_profit_cents: t.take_profit_cents,
        timestamp_s: t.timestamp_s,
        status: t.status,
        unrealized_pnl_cents: t.unrealized_pnl_cents,
        tp1: t.tp1,
        tp2: t.tp2,
        tp3: t.tp3,
        is_breakeven: t.is_breakeven,
    }
}

/// Walks a snapshot for the first price of an asset.
pub fn get_price(prices: &Vec<(String, u64)>, asset: &str) -> (r: Option<u64>)
    ensures
        r == lookup_price(prices@, asset@),
{
    let n = prices.len();
    proof {
        assert(prices@.skip(0) =~= prices@);
    }
    let mut i: usize = 0;
    while i < n
        invariant
            0 <= i <= n,
            n == prices@.len(),
            lookup_price(prices@, asset@) == lookup_price(prices@.skip(i as int), asset@),
        decreases n - i,
    {
        proof {
            assert(prices@.skip(i as int).drop_first() =~= prices@.skip(i + 1));
            assert(prices@.skip(i as int).first() == prices@[i as int]);
        }
        if prices[i].0 == asset.to_owned() {
            return Some(prices[i].1);
        }
        i = i + 1;
    }
    None
}

/// The trade a fill opens: ladder cut from the entry by the configured
/// ratios, sizes half / three-tenths / remainder, stop as filled.
pub open spec fn new_trade(fill: Fill, cfg: Config) -> Trade {
    let q = fill.quantity_micro;
    let entry = fill.entry_price_cents;
    Trade {
        id: fill.order_id,
        asset: fill.asset,
        side: fill.side,
        entry_price_cents: entry,
        quantity_micro: q,
        stop_loss_cents: fill.stop_loss_cents,
        take_profit_cents: fill.take_profit_1_cents,
        timestamp_s: fill.timestamp_s,
        status: TradeStatus::Open,
        unrealized_pnl_cents: 0,
        tp1: TpLevel {
            price_cents: ratio_price(entry, cfg.tp1_ratio_pm),
            size_micro: (q / 2) as u64,
            filled: false,
        },
        tp2: TpLevel {
            price_cents: ratio_price(entry, cfg.tp2_ratio_pm),
            size_micro: (q * 3 / 10) as u64,
            filled: false,
        },
        tp3: TpLevel {
            price_cents: ratio_price(entry, cfg.tp3_ratio_pm),
            size_micro: (q - q / 2 - q * 3 / 10) as u64,
            filled: false,
        },
        is_breakeven: false,
    }
}

/// Sums the stored PnL of a well-formed list.
fn sum_pnl_exec(ts: &Vec<Trade>) -> (r: i128)
    requires
        forall|i: int| 0 <= i < ts@.len() ==> (#[trigger] ts@[i]).wf(),
    ensures
        r == sum_pnl(ts@),
{
    let n = ts.len();
    let mut acc: i128 = 0;
    let mut i: usize = 0;
    proof {
        assert(ts@.subrange(0, 0) =~= Seq::<Trade>::empty());
    }
    while i < n
        invariant
            0 <= i <= n,
            n == ts@.len(),
            forall|k: int| 0 <= k < ts@.len() ==> (#[trigger] ts@[k]).wf(),
            acc == sum_pnl(ts@.subrange(0, i as int)),
            -(i as int) * (TRADE_PNL_BOUND as int) <= acc <= (i as int) * (TRADE_PNL_BOUND as int),
        decreases n - i,
    {
        proof {
            assert(ts@.subrange(0, i + 1).drop_last() =~= ts@.subrange(0, i as int));
            assert(ts@.subrange(0, i + 1).last() == ts@[i as int]);
            assert(ts@[i as int].wf());
        }
        acc = acc + (ts[i].unrealized_pnl_cents as i128);
        i = i + 1;
    }
    proof {
        assert(ts@.subrange(0, n as int) =~= ts@);
    }
    acc
}

/// A pass of [`apply_prices`] preserves well-formedness: the surviving
/// book is open, well-formed and still uniquely keyed; everything that
/// left is closed and well-formed.
pub proof fn lemma_apply_prices_wf(ts: Seq<Trade>, ps: Seq<(String, u64)>)
    requires
        forall|i: int|
            0 <= i < ts.len() ==> (#[trigger] ts[i]).wf() && ts[i].status is Open,
        forall|i: int, j: int|
            0 <= i < j < ts.len() ==> (#[trigger] ts[i].asset@) != (#[trigger] ts[j].asset@),
        forall|i: int| 0 <= i < ps.len() ==> (#[trigger] ps[i]).1 <= MAX_PRICE_CENTS,
    ensures
        forall|i: int|
            0 <= i < apply_prices(ts, ps).0.len() ==> (#[trigger] apply_prices(ts, ps).0[i]).wf()
                && apply_prices(ts, ps).0[i].status is Open,
        forall|i: int, j: int|
            0 <= i < j < apply_prices(ts, ps).0.len() ==> (#[trigger] apply_prices(
                ts,
                ps,
            ).0[i].asset@) != (#[trigger] apply_prices(ts, ps).0[j].asset@),
        forall|i: int|
            0 <= i < apply_prices(ts, ps).0.len() ==> has_asset(
                ts,
                #[trigger] apply_prices(ts, ps).0[i].asset@,
            ),
        forall|i: int|
            0 <= i < apply_prices(ts, ps).1.len() ==> (#[trigger] apply_prices(ts, ps).1[i]).wf()
                && !(apply_prices(ts, ps).1[i].status is Open),
    decreases ts.len(),
{
    if ts.len() > 0 {
        let prefix = ts.drop_last();
        let t = ts.last();
        assert(forall|i: int| 0 <= i < prefix.len() ==> prefix[i] == ts[i]);
        lemma_apply_prices_wf(prefix, ps);
        let r = apply_prices(prefix, ps);
        match lookup_price(ps, t.asset@) {
            Some(p) => {
                lemma_lookup_price_bound(ps, t.asset@);
                if stop_hit(t, p) {
                    lemma_close_trade_wf(t, p);
                } else {
                    lemma_step_trade_wf(t, p);
                    assert forall|i: int|
                        0 <= i < r.0.len() implies (#[trigger] r.0[i].asset@) != step_trade(
                        t,
                        p,
                    ).asset@ by {
                        assert(has_asset(prefix, r.0[i].asset@));
                        let w = choose|k: int|
                            0 <= k < prefix.len() && #[trigger] prefix[k].asset@ == r.0[i].asset@;
                        assert(ts[w].asset@ != t.asset@);
                    }
                }
            },
            None => {
                assert forall|i: int|
                    0 <= i < r.0.len() implies (#[trigger] r.0[i].asset@) != t.asset@ by {
                    assert(has_asset(prefix, r.0[i].asset@));
                    let w = choose|k: int|
                        0 <= k < prefix.len() && #[trigger] prefix[k].asset@ == r.0[i].asset@;
                    assert(ts[w].asset@ != t.asset@);
                }
            },
        }
    }
}

/// Every price a snapshot yields is within the engine's bound.
pub proof fn lemma_lookup_price_bound(ps: Seq<(String, u64)>, a: Seq<char>)
    requires
        forall|i: int| 0 <= i < ps.len() ==> (#[trigger] ps[i]).1 <= MAX_PRICE_CENTS,
    ensures
        lookup_price(ps, a) matches Some(p) ==> p <= MAX_PRICE_CENTS,
    decreases ps.len(),
{
    if ps.len() > 0 {
        assert(ps.first() == ps[0]);
        if ps.first().0@ != a {
            assert(forall|i: int|
                0 <= i < ps.drop_first().len() ==> (#[trigger] ps.drop_first()[i]) == ps[i + 1]);
            lemma_lookup_price_bound(ps.drop_first(), a);
        }
    }
}

/// Stepping preserves the trade's invariants and keeps it open.
pub proof fn lemma_step_trade_wf(t: Trade, p: u64)
    requires
        t.wf(),
        t.status is Open,
        p <= MAX_PRICE_CENTS,
    ensures
        step_trade(t, p).wf(),
        step_trade(t, p).status is Open,
        step_trade(t, p).asset@ == t.asset@,
{
    lemma_pnl_bound(t.entry_price_cents, p, t.quantity_micro);
}

/// Closing preserves the trade's invariants and marks it closed.
pub proof fn lemma_close_trade_wf(t: Trade, p: u64)
    requires
        t.wf(),
        p <= MAX_PRICE_CENTS,
    ensures
        close_trade(t, p).wf(),
        !(close_trade(t, p).status is Open),
        close_trade(t, p).asset@ == t.asset@,
{
    lemma_pnl_bound(t.entry_price_cents, p, t.quantity_micro);
}

/// Once the first take-profit has filled, the trade is breakeven and the
/// stop sits at or under the entry — and stepping keeps it there.
pub proof fn lemma_breakeven_stop_bound(t: Trade, p: u64)
    requires
        t.wf(),
        p <= MAX_PRICE_CENTS,
    ensures
        step_trade(t, p).tp1.filled ==> step_trade(t, p).is_breakeven,
        step_trade(t, p).is_breakeven ==> step_trade(t, p).stop_loss_cents <= step_trade(
            t,
            p,
        ).entry_price_cents,
        t.is_breakeven ==> step_trade(t, p).is_breakeven,
{
}

/// The trailing stop is monotone: for a trade already breakeven — or one
/// whose stop has not been moved under its entry by an external hand —
/// a step never moves the stop in the adverse direction.
pub proof fn lemma_trailing_stop_monotonic(t: Trade, p: u64)
    requires
        t.wf(),
        p <= MAX_PRICE_CENTS,
        t.is_breakeven || t.stop_loss_cents >= t.entry_price_cents,
    ensures
        step_trade(t, p).stop_loss_cents <= t.stop_loss_cents,
{
}

/// The ladder's sizes always cover the quantity exactly.
pub proof fn lemma_tp_sizes_cover_quantity(t: Trade)
    requires
        t.wf(),
    ensures
        t.tp1.size_micro + t.tp2.size_micro + t.tp3.size_micro == t.quantity_micro,
{
}

/// No two open positions share an asset.
pub proof fn lemma_one_position_per_asset(pm: PositionManager, i: int, j: int)
    requires
        pm.wf(),
        0 <= i < pm.positions@.len(),
        0 <= j < pm.positions@.len(),
        i != j,
    ensures
        pm.positions@[i].asset@ != pm.positions@[j].asset@,
{
}

} // verus!
