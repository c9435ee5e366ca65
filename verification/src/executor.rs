//! The order executor: turns an approved signal into a bracketed short —
//! one market entry, one conditional stop-loss, three laddered take-profit
//! limit orders — and interprets what the exchange answers.
//!
//! Everything here is pure planning and interpretation. The HTTP transport
//! lives outside the library; in dry mode [`OkxExecutor::execute_short_order`]
//! synthesizes the fill itself.

use vstd::prelude::*;
use vstd::string::StringExecFns;
use vstd::utf8::encode_utf8;
use crate::auth::AuthManager;
use crate::config::{Config, Mode, MAX_BALANCE_CENTS, MAX_PRICE_CENTS, MAX_QTY_MICRO, QTY_SCALE};
use crate::errors::ExecError;
use crate::numeric::dec_cents;
use crate::signal::Signal;

verus! {

/// Relies on uuid's `Uuid::new_v4` and its hyphenated rendering: a fresh
/// random identifier, 36 characters long.
#[verifier::external_body]
pub fn new_order_uuid() -> (r: String)
    ensures
        r@.len() == 36,
{
    uuid::Uuid::new_v4().to_string()
}

/// How an order submission ended.
#[derive(Clone, Copy, PartialEq, Eq, Structural, Debug)]
pub enum FillStatus {
    Filled,
    SimulatedFill,
}

/// One fill of a bracketed short: what the position manager registers and
/// the audit log records.
pub struct Fill {
    pub order_id: String,
    pub asset: String,
    pub side: String,
    pub quantity_micro: u64,
    pub entry_price_cents: u64,
    pub stop_loss_cents: u64,
    pub take_profit_1_cents: u64,
    pub take_profit_2_cents: u64,
    pub take_profit_3_cents: u64,
    pub status: FillStatus,
    pub timestamp_s: u64,
}

impl Fill {
    /// Bounds under which the position manager's arithmetic is safe.
    pub open spec fn wf(&self) -> bool {
        &&& self.side@ == "sell"@
        &&& self.asset@.len() > 0
        &&& 0 < self.entry_price_cents <= 2 * MAX_PRICE_CENTS
        &&& 0 < self.quantity_micro <= MAX_QTY_MICRO
        &&& self.stop_loss_cents <= 4 * MAX_PRICE_CENTS
        &&& self.take_profit_1_cents <= 2 * MAX_PRICE_CENTS
        &&& self.take_profit_2_cents <= 2 * MAX_PRICE_CENTS
        &&& self.take_profit_3_cents <= 2 * MAX_PRICE_CENTS
    }

    /// Runtime form of [`Fill::wf`], for callers outside the library.
    pub fn check(&self) -> (r: bool)
        ensures
            r == self.wf(),
    {
        let side_ok = self.side == "sell".to_owned();
        side_ok && !self.asset.as_str().is_empty() && 0 < self.entry_price_cents
            && self.entry_price_cents <= 2 * MAX_PRICE_CENTS && 0 < self.quantity_micro
            && self.quantity_micro <= MAX_QTY_MICRO && self.stop_loss_cents <= 4 * MAX_PRICE_CENTS
            && self.take_profit_1_cents <= 2 * MAX_PRICE_CENTS && self.take_profit_2_cents <= 2
            * MAX_PRICE_CENTS && self.take_profit_3_cents <= 2 * MAX_PRICE_CENTS
    }
}

/// One order submission, ready to be serialized and sent.
pub struct OrderSpec {
    pub inst_id: String,
    pub td_mode: String,
    pub side: String,
    pub ord_type: String,
    pub size_micro: u64,
    /// Limit price, for limit orders.
    pub px_cents: Option<u64>,
    /// Stop trigger, for conditional orders.
    pub sl_trigger_px_cents: Option<u64>,
    /// Stop limit price, for conditional orders.
    pub sl_ord_px_cents: Option<u64>,
    pub cl_ord_id: String,
}

/// The full bracket for one signal: entry first, then the protective legs.
pub struct BracketPlan {
    pub entry_order: OrderSpec,
    pub stop_order: OrderSpec,
    pub tp1_order: OrderSpec,
    pub tp2_order: OrderSpec,
    pub tp3_order: OrderSpec,
    /// The fill the bracket amounts to once the entry is confirmed; its
    /// `order_id` is filled in from the exchange's answer.
    pub fill: Fill,
}

/// A price derived from `entry` by a per-mille ratio, rounded down.
pub open spec fn ratio_price(entry: u64, ratio_pm: u64) -> u64 {
    ((entry * ratio_pm) / 1000) as u64
}

/// Computes [`ratio_price`] for in-range prices and ratios.
fn ratio_price_exec(entry: u64, ratio_pm: u64) -> (r: u64)
    requires
        entry <= 4 * MAX_PRICE_CENTS,
        ratio_pm <= 2001,
    ensures
        r == ratio_price(entry, ratio_pm),
        r <= 3 * entry,
        ratio_pm <= 2000 ==> r <= 2 * entry,
{
    proof {
        assert(entry * ratio_pm <= 4 * MAX_PRICE_CENTS * 2001) by (nonlinear_arith)
            requires
                entry <= 4 * MAX_PRICE_CENTS,
                ratio_pm <= 2001,
        ;
        assert(entry * ratio_pm <= entry * 2001) by (nonlinear_arith)
            requires
                ratio_pm <= 2001,
        ;
        if ratio_pm <= 2000 {
            assert(entry * ratio_pm <= entry * 2000) by (nonlinear_arith)
                requires
                    ratio_pm <= 2000,
            ;
        }
    }
    entry * ratio_pm / 1000
}

/// The stop-loss of a short: the signal's own, else `entry` scaled by the
/// configured ratio.
pub open spec fn resolved_stop(signal: Signal, cfg: Config) -> u64 {
    match signal.best.stop_loss_cents {
        Some(v) => v,
        None => ratio_price(signal.best.entry_price_cents, cfg.stop_ratio_pm),
    }
}

/// A bracket the executor derives itself protects from above: with no
/// stop in the signal, the resolved stop starts at or over the entry, so
/// the stop of such a trade only ever ratchets toward profit.
pub proof fn lemma_default_stop_at_or_above_entry(signal: Signal, cfg: Config)
    requires
        signal.wf(),
        cfg.wf(),
        signal.best.stop_loss_cents is None,
    ensures
        resolved_stop(signal, cfg) >= signal.best.entry_price_cents,
{
    let entry = signal.best.entry_price_cents;
    assert(entry * cfg.stop_ratio_pm >= entry * 1000) by (nonlinear_arith)
        requires
            cfg.stop_ratio_pm >= 1000,
    ;
    assert(entry * cfg.stop_ratio_pm <= MAX_PRICE_CENTS * 2000) by (nonlinear_arith)
        requires
            entry <= MAX_PRICE_CENTS,
            cfg.stop_ratio_pm <= 2000,
    ;
    assert(entry * 1000 / 1000 == entry);
    vstd::arithmetic::div_mod::lemma_div_is_ordered(
        entry * 1000,
        entry * cfg.stop_ratio_pm,
        1000,
    );
}

/// One take-profit level: the signal's own, else `entry` scaled.
pub open spec fn resolved_tp(given: Option<u64>, entry: u64, ratio_pm: u64) -> u64 {
    match given {
        Some(v) => v,
        None => ratio_price(entry, ratio_pm),
    }
}

/// Position size in millionths of a unit: the configured share of the
/// balance divided by the entry price, floored at the minimum order size
/// and capped at the engine's maximum.
pub open spec fn position_size_micro(
    balance_cents: u64,
    risk_pct_pm: u64,
    entry_cents: u64,
    min_size_micro: u64,
) -> u64
    recommends
        entry_cents > 0,
{
    let value_cents = (balance_cents * risk_pct_pm / 1000) as u64;
    let raw = (value_cents * QTY_SCALE / (entry_cents as int)) as u64;
    let floored: u64 = if raw > min_size_micro {
        raw
    } else {
        min_size_micro
    };
    if floored > MAX_QTY_MICRO {
        MAX_QTY_MICRO
    } else {
        floored
    }
}

/// The notional value (in cents) the risk engine checks against its cap.
pub open spec fn position_value_cents(balance_cents: u64, risk_pct_pm: u64) -> u64 {
    (balance_cents * risk_pct_pm / 1000) as u64
}

/// Computes [`position_size_micro`].
pub fn calculate_position_size(
    balance_cents: u64,
    risk_pct_pm: u64,
    entry_cents: u64,
    min_size_micro: u64,
) -> (r: u64)
    requires
        balance_cents <= MAX_BALANCE_CENTS,
        risk_pct_pm <= 1000,
        0 < entry_cents,
        0 < min_size_micro <= MAX_QTY_MICRO,
    ensures
        r == position_size_micro(balance_cents, risk_pct_pm, entry_cents, min_size_micro),
        0 < r <= MAX_QTY_MICRO,
{
    proof {
        assert(balance_cents * risk_pct_pm <= MAX_BALANCE_CENTS * 1000) by (nonlinear_arith)
            requires
                balance_cents <= MAX_BALANCE_CENTS,
                risk_pct_pm <= 1000,
        ;
    }
    let value_cents = balance_cents * risk_pct_pm / 1000;
    let raw = value_cents * QTY_SCALE / entry_cents;
    let floored = if raw > min_size_micro {
        raw
    } else {
        min_size_micro
    };
    if floored > MAX_QTY_MICRO {
        MAX_QTY_MICRO
    } else {
        floored
    }
}

/// A row of the exchange's balance response: currency and equity text.
pub struct BalanceDetail {
    pub ccy: String,
    pub eq: String,
}

/// The first USDT row whose equity text parses as a decimal, in cents.
pub open spec fn usdt_equity(ds: Seq<BalanceDetail>) -> Option<nat>
    decreases ds.len(),
{
    if ds.len() == 0 {
        None
    } else if ds.first().ccy@ == "USDT"@ && dec_cents(encode_utf8(ds.first().eq@)) is Some {
        dec_cents(encode_utf8(ds.first().eq@))
    } else {
        usdt_equity(ds.drop_first())
    }
}

/// Walks the balance rows for the USDT equity.
pub fn find_usdt_equity(details: &Vec<BalanceDetail>) -> (r: Option<u64>)
    ensures
        match r {
            Some(v) => usdt_equity(details@) == Some(v as nat),
            None => usdt_equity(details@) is None,
        },
{
    let n = details.len();
    proof {
        assert(details@.skip(0) =~= details@);
    }
    let mut i: usize = 0;
    while i < n
        invariant
            0 <= i <= n,
            n == details@.len(),
            usdt_equity(details@) == usdt_equity(details@.skip(i as int)),
        decreases n - i,
    {
        proof {
            assert(details@.skip(i as int).drop_first() =~= details@.skip(i + 1));
            assert(details@.skip(i as int).first() == details@[i as int]);
        }
        let d = &details[i];
        if d.ccy == "USDT".to_owned() {
            match crate::numeric::parse_decimal_cents(d.eq.as_str()) {
                Some(v) => {
                    return Some(v);
                },
                None => {},
            }
        }
        i = i + 1;
    }
    None
}

/// The balance the sizing uses: the parsed USDT equity when present and
/// within bounds, else the canonical fallback of $10,000.
pub open spec fn balance_or_default(found: Option<u64>) -> u64 {
    match found {
        Some(v) => if 0 < v <= MAX_BALANCE_CENTS {
            v
        } else {
            1_000_000
        },
        None => 1_000_000,
    }
}

/// Applies [`balance_or_default`] to what the balance walk found.
pub fn account_balance_from_details(details: &Vec<BalanceDetail>) -> (r: u64)
    ensures
        0 < r <= MAX_BALANCE_CENTS,
        match usdt_equity(details@) {
            Some(v) => r == if 0 < v <= MAX_BALANCE_CENTS {
                v
            } else {
                1_000_000 as nat
            },
            None => r == 1_000_000,
        },
{
    let found = find_usdt_equity(details);
    match found {
        Some(v) => {
            if 0 < v && v <= MAX_BALANCE_CENTS {
                v
            } else {
                1_000_000
            }
        },
        None => 1_000_000,
    }
}

/// Interprets the exchange's answer to an order submission. Success is
/// exactly `code == "0"` with a non-empty order id; a non-zero code is a
/// rejection carrying the payload; a zero code without an id is malformed.
pub fn interpret_order_response(code: &str, ord_id: Option<&str>, body: &str) -> (r: Result<
    String,
    ExecError,
>)
    ensures
        (code@ == "0"@ && (ord_id matches Some(id) && id@.len() > 0)) ==> (r matches Ok(s)
            && s@ == ord_id->0@),
        code@ != "0"@ ==> (r matches Err(e) && e matches ExecError::ExchangeRejected { code: c, body: b }
            && c@ == code@ && b@ == body@),
        (code@ == "0"@ && !(ord_id matches Some(id) && id@.len() > 0)) ==> (r matches Err(e)
            && e is MalformedExchangeResponse),
{
    let is_ok = code.to_owned() == "0".to_owned();
    if !is_ok {
        return Err(
            ExecError::ExchangeRejected { code: code.to_owned(), body: body.to_owned() },
        );
    }
    match ord_id {
        Some(id) => {
            if id.is_empty() {
                Err(ExecError::MalformedExchangeResponse)
            } else {
                Ok(id.to_owned())
            }
        },
        None => Err(ExecError::MalformedExchangeResponse),
    }
}

/// The REST path every order submission signs and posts to.
pub fn order_endpoint_path() -> (r: String)
    ensures
        r@ == "/api/v5/trade/order"@,
{
    "/api/v5/trade/order".to_owned()
}

/// The REST path of the balance lookup.
pub fn balance_endpoint_path() -> (r: String)
    ensures
        r@ == "/api/v5/account/balance"@,
{
    "/api/v5/account/balance".to_owned()
}

/// The executor: configuration, optional signer, and the REST base.
pub struct OkxExecutor {
    pub cfg: Config,
    pub auth: Option<AuthManager>,
    pub base_url: String,
}

impl OkxExecutor {
    pub open spec fn wf(&self) -> bool {
        &&& self.cfg.wf()
        &&& self.cfg.mode == Mode::Live ==> (self.auth matches Some(a) && a.wf())
    }

    /// Builds an executor. In live mode missing credentials are fatal.
    pub fn new(cfg: Config, auth: Option<AuthManager>) -> (r: Result<OkxExecutor, ExecError>)
        requires
            cfg.wf(),
            auth matches Some(a) ==> a.wf(),
        ensures
            match r {
                Ok(e) => {
                    &&& e.wf()
                    &&& e.cfg == cfg
                    &&& e.auth == auth
                    &&& e.base_url@ == "https://www.okx.com"@
                },
                Err(e) => e is ConfigError && cfg.mode == Mode::Live && auth is None,
            },
            (cfg.mode == Mode::Dry || auth is Some) ==> r is Ok,
    {
        if matches!(cfg.mode, Mode::Live) && auth.is_none() {
            return Err(ExecError::ConfigError);
        }
        Ok(OkxExecutor { cfg, auth, base_url: "https://www.okx.com".to_owned() })
    }

    /// Lays out the whole bracket for one signal: market entry, conditional
    /// stop (limit offset one per-mille above the trigger), and the ladder
    /// sized 50/30/20% of the total with the remainder on the last leg.
    pub fn plan_bracket(&self, signal: &Signal, balance_cents: u64, uid: &str, now_s: u64) -> (r:
        BracketPlan)
        requires
            self.wf(),
            signal.wf(),
            0 < balance_cents <= MAX_BALANCE_CENTS,
        ensures
            r.fill.wf(),
            r.fill.asset@ == signal.best.asset@,
            r.fill.side@ == "sell"@,
            r.fill.entry_price_cents == signal.best.entry_price_cents,
            r.fill.quantity_micro == position_size_micro(
                balance_cents,
                self.cfg.risk_pct_pm,
                signal.best.entry_price_cents,
                self.cfg.min_size_micro,
            ),
            r.fill.stop_loss_cents == resolved_stop(*signal, self.cfg),
            r.fill.take_profit_1_cents == resolved_tp(
                signal.best.take_profit_1_cents,
                signal.best.entry_price_cents,
                self.cfg.tp1_ratio_pm,
            ),
            r.fill.take_profit_2_cents == resolved_tp(
                signal.best.take_profit_2_cents,
                signal.best.entry_price_cents,
                self.cfg.tp2_ratio_pm,
            ),
            r.fill.take_profit_3_cents == resolved_tp(
                signal.best.take_profit_3_cents,
                signal.best.entry_price_cents,
                self.cfg.tp3_ratio_pm,
            ),
            r.fill.status is Filled,
            r.fill.timestamp_s == now_s,
            r.fill.order_id@.len() == 0,
            r.entry_order.inst_id@ == signal.best.asset@ + "-USDT"@,
            r.entry_order.side@ == "sell"@,
            r.entry_order.ord_type@ == "market"@,
            r.entry_order.td_mode@ == "cross"@,
            r.entry_order.size_micro == r.fill.quantity_micro,
            r.entry_order.cl_ord_id@ == "hft_short_"@ + uid@,
            r.stop_order.inst_id@ == r.entry_order.inst_id@,
            r.stop_order.side@ == "buy"@,
            r.stop_order.ord_type@ == "conditional"@,
            r.stop_order.size_micro == r.fill.quantity_micro,
            r.stop_order.sl_trigger_px_cents == Some(r.fill.stop_loss_cents),
            r.stop_order.sl_ord_px_cents == Some(ratio_price(r.fill.stop_loss_cents, 1001)),
            r.stop_order.cl_ord_id@ == "sl_"@ + uid@,
            r.tp1_order.px_cents == Some(r.fill.take_profit_1_cents),
            r.tp2_order.px_cents == Some(r.fill.take_profit_2_cents),
            r.tp3_order.px_cents == Some(r.fill.take_profit_3_cents),
            r.tp1_order.size_micro == r.fill.quantity_micro / 2,
            r.tp2_order.size_micro == r.fill.quantity_micro * 3 / 10,
            r.tp3_order.size_micro == r.fill.quantity_micro - r.fill.quantity_micro / 2
                - r.fill.quantity_micro * 3 / 10,
            r.tp1_order.size_micro + r.tp2_order.size_micro + r.tp3_order.size_micro
                == r.fill.quantity_micro,
            r.tp1_order.cl_ord_id@ == "tp1_"@ + uid@,
            r.tp2_order.cl_ord_id@ == "tp2_"@ + uid@,
            r.tp3_order.cl_ord_id@ == "tp3_"@ + uid@,
            r.tp1_order.ord_type@ == "limit"@ && r.tp2_order.ord_type@ == "limit"@
                && r.tp3_order.ord_type@ == "limit"@,
            r.tp1_order.side@ == "buy"@ && r.tp2_order.side@ == "buy"@ && r.tp3_order.side@
                == "buy"@,
            r.tp1_order.inst_id@ == r.entry_order.inst_id@ && r.tp2_order.inst_id@
                == r.entry_order.inst_id@ && r.tp3_order.inst_id@ == r.entry_order.inst_id@,
    {
        let entry = signal.best.entry_price_cents;
        let size = calculate_position_size(
            balance_cents,
            self.cfg.risk_pct_pm,
            entry,
            self.cfg.min_size_micro,
        );
        let inst_id = signal.best.asset.clone().concat("-USDT");
        let stop = match &signal.best.stop_loss_cents {
            Some(v) => *v,
            None => ratio_price_exec(entry, self.cfg.stop_ratio_pm),
        };
        let tp1 = match &signal.best.take_profit_1_cents {
            Some(v) => *v,
            None => ratio_price_exec(entry, self.cfg.tp1_ratio_pm),
        };
        let tp2 = match &signal.best.take_profit_2_cents {
            Some(v) => *v,
            None => ratio_price_exec(entry, self.cfg.tp2_ratio_pm),
        };
        let tp3 = match &signal.best.take_profit_3_cents {
            Some(v) => *v,
            None => ratio_price_exec(entry, self.cfg.tp3_ratio_pm),
        };
        let size1 = size / 2;
        let size2 = size * 3 / 10;
        let size3 = size - size1 - size2;
        let fill = Fill {
            order_id: String::new(),
            asset: signal.best.asset.clone(),
            side: "sell".to_owned(),
            quantity_micro: size,
            entry_price_cents: entry,
            stop_loss_cents: stop,
            take_profit_1_cents: tp1,
            take_profit_2_cents: tp2,
            take_profit_3_cents: tp3,
            status: FillStatus::Filled,
            timestamp_s: now_s,
        };
        let entry_order = OrderSpec {
            inst_id: inst_id.clone(),
            td_mode: "cross".to_owned(),
            side: "sell".to_owned(),
            ord_type: "market".to_owned(),
            size_micro: size,
            px_cents: None,
            sl_trigger_px_cents: None,
            sl_ord_px_cents: None,
            cl_ord_id: "hft_short_".to_owned().concat(uid),
        };
        let stop_order = OrderSpec {
            inst_id: inst_id.clone(),
            td_mode: "cross".to_owned(),
            side: "buy".to_owned(),
            ord_type: "conditional".to_owned(),
            size_micro: size,
            px_cents: None,
            sl_trigger_px_cents: Some(stop),
            sl_ord_px_cents: Some(ratio_price_exec(stop, 1001)),
            cl_ord_id: "sl_".to_owned().concat(uid),
        };
        let tp1_order = OrderSpec {
            inst_id: inst_id.clone(),
            td_mode: "cross".to_owned(),
            side: "buy".to_owned(),
            ord_type: "limit".to_owned(),
            size_micro: size1,
            px_cents: Some(tp1),
            sl_trigger_px_cents: None,
            sl_ord_px_cents: None,
            cl_ord_id: "tp1_".to_owned().concat(uid),
        };
        let tp2_order = OrderSpec {
            inst_id: inst_id.clone(),
            td_mode: "cross".to_owned(),
            side: "buy".to_owned(),
            ord_type: "limit".to_owned(),
            size_micro: size2,
            px_cents: Some(tp2),
            sl_trigger_px_cents: None,
            sl_ord_px_cents: None,
            cl_ord_id: "tp2_".to_owned().concat(uid),
        };
        let tp3_order = OrderSpec {
            inst_id,
            td_mode: "cross".to_owned(),
            side: "buy".to_owned(),
            ord_type: "limit".to_owned(),
            size_micro: size3,
            px_cents: Some(tp3),
            sl_trigger_px_cents: None,
            sl_ord_px_cents: None,
            cl_ord_id: "tp3_".to_owned().concat(uid),
        };
        BracketPlan { entry_order, stop_order, tp1_order, tp2_order, tp3_order, fill }
    }

    /// Synthesizes a dry-mode fill: one basis point of slippage on the
    /// entry, a generated order id, the same derived bracket prices a live
    /// execution would carry.
    pub fn execute_short_order(&self, signal: &Signal, now_s: u64) -> (r: Fill)
        requires
            self.wf(),
            signal.wf(),
            self.cfg.mode == Mode::Dry,
        ensures
            r.wf(),
            r.asset@ == signal.best.asset@,
            r.side@ == "sell"@,
            r.entry_price_cents == signal.best.entry_price_cents
                + signal.best.entry_price_cents / 10_000,
            r.quantity_micro == position_size_micro(
                self.cfg.dry_balance_cents,
                self.cfg.risk_pct_pm,
                signal.best.entry_price_cents,
                self.cfg.min_size_micro,
            ),
            r.stop_loss_cents == resolved_stop(*signal, self.cfg),
            r.take_profit_1_cents == resolved_tp(
                signal.best.take_profit_1_cents,
                signal.best.entry_price_cents,
                self.cfg.tp1_ratio_pm,
            ),
            r.take_profit_2_cents == resolved_tp(
                signal.best.take_profit_2_cents,
                signal.best.entry_price_cents,
                self.cfg.tp2_ratio_pm,
            ),
            r.take_profit_3_cents == resolved_tp(
                signal.best.take_profit_3_cents,
                signal.best.entry_price_cents,
                self.cfg.tp3_ratio_pm,
            ),
            r.status is SimulatedFill,
            r.timestamp_s == now_s,
            exists|uid: Seq<char>| uid.len() == 36 && r.order_id@ == "sim_"@ + uid,
    {
        let uid = new_order_uuid();
        let entry = signal.best.entry_price_cents;
        let slippage = entry / 10_000;
        let actual_entry = entry + slippage;
        let size = calculate_position_size(
            self.cfg.dry_balance_cents,
            self.cfg.risk_pct_pm,
            entry,
            self.cfg.min_size_micro,
        );
        let stop = match &signal.best.stop_loss_cents {
            Some(v) => *v,
            None => ratio_price_exec(entry, self.cfg.stop_ratio_pm),
        };
        let tp1 = match &signal.best.take_profit_1_cents {
            Some(v) => *v,
            None => ratio_price_exec(entry, self.cfg.tp1_ratio_pm),
        };
        let tp2 = match &signal.best.take_profit_2_cents {
            Some(v) => *v,
            None => ratio_price_exec(entry, self.cfg.tp2_ratio_pm),
        };
        let tp3 = match &signal.best.take_profit_3_cents {
            Some(v) => *v,
            None => ratio_price_exec(entry, self.cfg.tp3_ratio_pm),
        };
        Fill {
            order_id: "sim_".to_owned().concat(uid.as_str()),
            asset: signal.best.asset.clone(),
            side: "sell".to_owned(),
            quantity_micro: size,
            entry_price_cents: actual_entry,
            stop_loss_cents: stop,
            take_profit_1_cents: tp1,
            take_profit_2_cents: tp2,
            take_profit_3_cents: tp3,
            status: FillStatus::SimulatedFill,
            timestamp_s: now_s,
        }
    }
}

} // verus!
