//! The risk engine: the pre-trade gate and the session ledger.
//!
//! `validate_trade_risk` prunes the rolling windows and then runs the
//! gates in a fixed order — confidence floor, daily cap, drawdown,
//! per-asset cooldown, position-value cap, per-asset daily cap,
//! volatility-adjusted confidence — returning the first failure's reason.
//! The whole decision is the spec function [`risk_verdict`].

use vstd::prelude::*;
use vstd::string::StringExecFns;
use crate::config::{default_config, Config, MAX_BALANCE_CENTS};
use crate::errors::RiskReason;
use crate::executor::position_value_cents;
use crate::position::{PositionView, TRADE_PNL_BOUND};

verus! {

/// One admitted trade in the rolling 24 h window.
pub struct TradeRecord {
    pub timestamp_s: u64,
    pub asset: String,
    pub pnl_cents: i64,
}

/// The verdict of one pre-trade check.
pub struct RiskCheck {
    pub approved: bool,
    pub reason: RiskReason,
    pub confidence_score_milli: u64,
}

/// Magnitude bound on the session PnL, in cents: room for the largest
/// book of per-trade-bounded positions.
pub const SESSION_PNL_BOUND: i128 = 40_000_000_000_000_000_000_000_000_000_000_000_000;

pub struct RiskEngine {
    pub cfg: Config,
    pub account_balance_cents: u64,
    pub daily_trades: Vec<TradeRecord>,
    pub session_pnl_cents: i128,
    pub last_trade_times: Vec<(String, u64)>,
}

/// The lower edge of a rolling window ending now.
pub open spec fn cutoff(now: u64, window: u64) -> u64 {
    if now >= window {
        (now - window) as u64
    } else {
        0
    }
}

/// The records younger than the cutoff, in their original order.
pub open spec fn recent_trades(s: Seq<TradeRecord>, cut: u64) -> Seq<TradeRecord>
    decreases s.len(),
{
    if s.len() == 0 {
        Seq::empty()
    } else {
        let r = recent_trades(s.drop_last(), cut);
        if s.last().timestamp_s > cut {
            r.push(s.last())
        } else {
            r
        }
    }
}

/// The stamps younger than the cutoff, in their original order.
pub open spec fn recent_times(s: Seq<(String, u64)>, cut: u64) -> Seq<(String, u64)>
    decreases s.len(),
{
    if s.len() == 0 {
        Seq::empty()
    } else {
        let r = recent_times(s.drop_last(), cut);
        if s.last().1 > cut {
            r.push(s.last())
        } else {
            r
        }
    }
}

/// How many records in the window carry this asset.
pub open spec fn count_asset(s: Seq<TradeRecord>, a: Seq<char>) -> nat
    decreases s.len(),
{
    if s.len() == 0 {
        0
    } else {
        count_asset(s.drop_last(), a) + if s.last().asset@ == a {
            1nat
        } else {
            0nat
        }
    }
}

/// The first stamp recorded for an asset.
pub open spec fn lookup_time(s: Seq<(String, u64)>, a: Seq<char>) -> Option<u64>
    decreases s.len(),
{
    if s.len() == 0 {
        None
    } else if s.first().0@ == a {
        Some(s.first().1)
    } else {
        lookup_time(s.drop_first(), a)
    }
}

/// The stamps with every entry for one asset taken out.
pub open spec fn remove_key(s: Seq<(String, u64)>, a: Seq<char>) -> Seq<(String, u64)>
    decreases s.len(),
{
    if s.len() == 0 {
        Seq::empty()
    } else if s.first().0@ == a {
        remove_key(s.drop_first(), a)
    } else {
        seq![s.first()] + remove_key(s.drop_first(), a)
    }
}

/// Taking one asset's entries out moves no other asset's first stamp.
pub proof fn lemma_lookup_remove_key(s: Seq<(String, u64)>, a: Seq<char>, b: Seq<char>)
    requires
        a != b,
    ensures
        lookup_time(remove_key(s, a), b) == lookup_time(s, b),
    decreases s.len(),
{
    if s.len() > 0 {
        lemma_lookup_remove_key(s.drop_first(), a, b);
        if s.first().0@ != a {
            let t = seq![s.first()] + remove_key(s.drop_first(), a);
            assert(t.first() == s.first());
            assert(t.drop_first() =~= remove_key(s.drop_first(), a));
        }
    }
}

/// Taking entries out never lengthens the list.
pub proof fn lemma_remove_key_len(s: Seq<(String, u64)>, a: Seq<char>)
    ensures
        remove_key(s, a).len() <= s.len(),
    decreases s.len(),
{
    if s.len() > 0 {
        lemma_remove_key_len(s.drop_first(), a);
    }
}

/// The per-asset haircut on confidence, in hundredths.
pub open spec fn volatility_factor_pct(a: Seq<char>) -> u64 {
    if a == "BTC"@ {
        95
    } else if a == "ETH"@ {
        90
    } else if a == "SOL"@ {
        85
    } else {
        80
    }
}

/// Confidence after the volatility haircut, in thousandths.
pub open spec fn adjusted_confidence_milli(conf: u64, a: Seq<char>) -> u64 {
    ((conf * volatility_factor_pct(a)) / 100) as u64
}

/// Whole minutes since a stamp, zero for a stamp in the future.
pub open spec fn minutes_since(now: u64, t: u64) -> u64 {
    if now >= t {
        ((now - t) / 60) as u64
    } else {
        0
    }
}

/// Whether the asset's last admitted trade is still inside the cooldown.
pub open spec fn cooldown_active(
    times: Seq<(String, u64)>,
    a: Seq<char>,
    now: u64,
    cooldown_minutes: u64,
) -> bool {
    match lookup_time(times, a) {
        Some(t) => minutes_since(now, t) < cooldown_minutes,
        None => false,
    }
}

/// The whole decision over the already-pruned windows; the first
/// failing check names the verdict.
pub open spec fn risk_verdict(
    cfg: Config,
    balance_cents: u64,
    session_pnl_cents: i128,
    trades: Seq<TradeRecord>,
    times: Seq<(String, u64)>,
    a: Seq<char>,
    conf_milli: u64,
    now_s: u64,
) -> RiskReason {
    if conf_milli < cfg.min_confidence_milli {
        RiskReason::ConfidenceBelowMinimum
    } else if trades.len() >= cfg.max_daily_trades {
        RiskReason::DailyLimitExceeded
    } else if session_pnl_cents < -(cfg.max_drawdown_cents as int) {
        RiskReason::DrawdownExceeded
    } else if cooldown_active(times, a, now_s, cfg.cooldown_minutes) {
        RiskReason::CooldownActive
    } else if position_value_cents(balance_cents, cfg.risk_pct_pm)
        > cfg.max_position_value_cents {
        RiskReason::PositionValueExceeded
    } else if count_asset(trades, a) >= cfg.per_asset_daily_cap {
        RiskReason::AssetDailyCapExceeded
    } else if adjusted_confidence_milli(conf_milli, a) < cfg.min_adjusted_confidence_milli {
        RiskReason::AdjustedConfidenceTooLow
    } else {
        RiskReason::Passed
    }
}

/// The score the report carries: the adjusted confidence once the chain
/// arrived at the adjustment, the raw one before.
pub open spec fn reported_score(verdict: RiskReason, conf_milli: u64, a: Seq<char>) -> u64 {
    if verdict is Passed || verdict is AdjustedConfidenceTooLow {
        adjusted_confidence_milli(conf_milli, a)
    } else {
        conf_milli
    }
}

/// The signed sum of the views' PnL, in cents.
pub open spec fn sum_view_pnl(ps: Seq<PositionView>) -> int
    decreases ps.len(),
{
    if ps.len() == 0 {
        0
    } else {
        sum_view_pnl(ps.drop_last()) + ps.last().unrealized_pnl_cents
    }
}

/// A position counts as a large loss when it is more than five percent of
/// its entry under water.
pub open spec fn large_loss(v: PositionView) -> bool {
    v.entry_price_cents > 0 && v.unrealized_pnl_cents * 100 < -5 * v.entry_price_cents
}

pub open spec fn count_large_losses(ps: Seq<PositionView>) -> nat
    decreases ps.len(),
{
    if ps.len() == 0 {
        0
    } else {
        count_large_losses(ps.drop_last()) + if large_loss(ps.last()) {
            1nat
        } else {
            0nat
        }
    }
}

/// The counters the metrics export carries.
pub struct RiskMetrics {
    pub daily_trade_count: usize,
    pub max_daily_trades: u64,
    pub session_pnl_cents: i128,
    pub max_drawdown_cents: u64,
    pub active_cooldowns: usize,
    pub cooldown_minutes: u64,
}

impl RiskEngine {
    pub open spec fn wf(&self) -> bool {
        &&& self.cfg.wf()
        &&& 0 < self.account_balance_cents <= MAX_BALANCE_CENTS
        &&& -SESSION_PNL_BOUND <= self.session_pnl_cents <= SESSION_PNL_BOUND
    }

    /// A fresh engine under the canonical parameter set, on the dry
    /// balance.
    pub fn new() -> (r: RiskEngine)
        ensures
            r.wf(),
            r.cfg == default_config(),
            r.account_balance_cents == 1_000_000,
            r.daily_trades@.len() == 0,
            r.session_pnl_cents == 0,
            r.last_trade_times@.len() == 0,
    {
        RiskEngine {
            cfg: Config::default(),
            account_balance_cents: 1_000_000,
            daily_trades: Vec::new(),
            session_pnl_cents: 0,
            last_trade_times: Vec::new(),
        }
    }

    /// An engine under a given parameter set and account balance.
    pub fn with_config(cfg: Config, account_balance_cents: u64) -> (r: RiskEngine)
        requires
            cfg.wf(),
            0 < account_balance_cents <= MAX_BALANCE_CENTS,
        ensures
            r.wf(),
            r.cfg == cfg,
            r.account_balance_cents == account_balance_cents,
            r.daily_trades@.len() == 0,
            r.session_pnl_cents == 0,
            r.last_trade_times@.len() == 0,
    {
        RiskEngine {
            cfg,
            account_balance_cents,
            daily_trades: Vec::new(),
            session_pnl_cents: 0,
            last_trade_times: Vec::new(),
        }
    }

    /// Prunes the rolling windows — trades older than a day, stamps older
    /// than an hour — then runs the checks in order. On approval the asset's
    /// stamp is set to now; nothing else moves.
    pub fn validate_trade_risk(
        &mut self,
        asset: &str,
        entry_price_cents: u64,
        confidence_milli: u64,
        now_s: u64,
    ) -> (r: RiskCheck)
        requires
            old(self).wf(),
            confidence_milli <= 1000,
            entry_price_cents > 0,
        ensures
            final(self).wf(),
            final(self).cfg == old(self).cfg,
            final(self).account_balance_cents == old(self).account_balance_cents,
            final(self).session_pnl_cents == old(self).session_pnl_cents,
            final(self).daily_trades@ == recent_trades(
                old(self).daily_trades@,
                cutoff(now_s, 86_400),
            ),
            ({
                let times_pruned = recent_times(old(self).last_trade_times@, cutoff(now_s, 3600));
                let verdict = risk_verdict(
                    old(self).cfg,
                    old(self).account_balance_cents,
                    old(self).session_pnl_cents,
                    recent_trades(old(self).daily_trades@, cutoff(now_s, 86_400)),
                    times_pruned,
                    asset@,
                    confidence_milli,
                    now_s,
                );
                &&& r.reason == verdict
                &&& r.approved == (verdict is Passed)
                &&& r.confidence_score_milli == reported_score(verdict, confidence_milli, asset@)
                &&& (verdict is Passed ==> lookup_time(final(self).last_trade_times@, asset@)
                    == Some(now_s) && (forall|b: Seq<char>|
                    b != asset@ ==> lookup_time(final(self).last_trade_times@, b) == lookup_time(
                        times_pruned,
                        b,
                    )) && final(self).last_trade_times@.len() <= times_pruned.len() + 1)
                &&& (!(verdict is Passed) ==> final(self).last_trade_times@ == times_pruned)
            }),
    {
        self.cleanup_old_trades(now_s);
        let ghost times_pruned = self.last_trade_times@;
        if confidence_milli < self.cfg.min_confidence_milli {
            return RiskCheck {
                approved: false,
                reason: RiskReason::ConfidenceBelowMinimum,
                confidence_score_milli: confidence_milli,
            };
        }
        if self.daily_trades.len() as u64 >= self.cfg.max_daily_trades {
            return RiskCheck {
                approved: false,
                reason: RiskReason::DailyLimitExceeded,
                confidence_score_milli: confidence_milli,
            };
        }
        if self.session_pnl_cents < -(self.cfg.max_drawdown_cents as i128) {
            return RiskCheck {
                approved: false,
                reason: RiskReason::DrawdownExceeded,
                confidence_score_milli: confidence_milli,
            };
        }
        if self.cooldown_hit(asset, now_s) {
            return RiskCheck {
                approved: false,
                reason: RiskReason::CooldownActive,
                confidence_score_milli: confidence_milli,
            };
        }
        proof {
            vstd::arithmetic::mul::lemma_mul_upper_bound(
                self.account_balance_cents as int,
                MAX_BALANCE_CENTS as int,
                self.cfg.risk_pct_pm as int,
                1000,
            );
        }
        let value_cents = self.account_balance_cents * self.cfg.risk_pct_pm / 1000;
        if value_cents > self.cfg.max_position_value_cents {
            return RiskCheck {
                approved: false,
                reason: RiskReason::PositionValueExceeded,
                confidence_score_milli: confidence_milli,
            };
        }
        if self.count_asset_trades(asset) as u64 >= self.cfg.per_asset_daily_cap {
            return RiskCheck {
                approved: false,
                reason: RiskReason::AssetDailyCapExceeded,
                confidence_score_milli: confidence_milli,
            };
        }
        let factor = volatility_factor(asset);
        let adjusted = confidence_milli * factor / 100;
        if adjusted < self.cfg.min_adjusted_confidence_milli {
            return RiskCheck {
                approved: false,
                reason: RiskReason::AdjustedConfidenceTooLow,
                confidence_score_milli: adjusted,
            };
        }
        self.set_last_trade_time(asset, now_s);
        RiskCheck {
            approved: true,
            reason: RiskReason::Passed,
            confidence_score_milli: adjusted,
        }
    }

    /// Drops trades older than 24 h and stamps older than 1 h.
    fn cleanup_old_trades(&mut self, now_s: u64)
        ensures
            final(self).daily_trades@ == recent_trades(
                old(self).daily_trades@,
                cutoff(now_s, 86_400),
            ),
            final(self).last_trade_times@ == recent_times(
                old(self).last_trade_times@,
                cutoff(now_s, 3600),
            ),
            final(self).cfg == old(self).cfg,
            final(self).account_balance_cents == old(self).account_balance_cents,
            final(self).session_pnl_cents == old(self).session_pnl_cents,
    {
        let day_cut: u64 = if now_s >= 86_400 {
            now_s - 86_400
        } else {
            0
        };
        let hour_cut: u64 = if now_s >= 3600 {
            now_s - 3600
        } else {
            0
        };
        let n = self.daily_trades.len();
        let mut kept: Vec<TradeRecord> = Vec::new();
        let mut i: usize = 0;
        proof {
            assert(self.daily_trades@.subrange(0, 0) =~= Seq::<TradeRecord>::empty());
        }
        while i < n
            invariant
                0 <= i <= n,
                n == self.daily_trades@.len(),
                self.daily_trades@ == old(self).daily_trades@,
                kept@ == recent_trades(old(self).daily_trades@.subrange(0, i as int), day_cut),
                day_cut == cutoff(now_s, 86_400),
            decreases n - i,
        {
            proof {
                assert(old(self).daily_trades@.subrange(0, i + 1).drop_last() =~= old(
                    self,
                ).daily_trades@.subrange(0, i as int));
                assert(old(self).daily_trades@.subrange(0, i + 1).last() == old(
                    self,
                ).daily_trades@[i as int]);
            }
            let rec = &self.daily_trades[i];
            if rec.timestamp_s > day_cut {
                kept.push(
                    TradeRecord {
                        timestamp_s: rec.timestamp_s,
                        asset: rec.asset.clone(),
                        pnl_cents: rec.pnl_cents,
                    },
                );
            }
            i = i + 1;
        }
        proof {
            assert(old(self).daily_trades@.subrange(0, n as int) =~= old(self).daily_trades@);
        }
        self.daily_trades = kept;
        let m = self.last_trade_times.len();
        let mut kept_times: Vec<(String, u64)> = Vec::new();
        let mut j: usize = 0;
        proof {
            assert(self.last_trade_times@.subrange(0, 0) =~= Seq::<(String, u64)>::empty());
        }
        while j < m
            invariant
                0 <= j <= m,
                m == self.last_trade_times@.len(),
                self.last_trade_times@ == old(self).last_trade_times@,
                kept_times@ == recent_times(
                    old(self).last_trade_times@.subrange(0, j as int),
                    hour_cut,
                ),
                hour_cut == cutoff(now_s, 3600),
            decreases m - j,
        {
            proof {
                assert(old(self).last_trade_times@.subrange(0, j + 1).drop_last() =~= old(
                    self,
                ).last_trade_times@.subrange(0, j as int));
                assert(old(self).last_trade_times@.subrange(0, j + 1).last() == old(
                    self,
                ).last_trade_times@[j as int]);
            }
            let entry = &self.last_trade_times[j];
            if entry.1 > hour_cut {
                kept_times.push((entry.0.clone(), entry.1));
            }
            j = j + 1;
        }
        proof {
            assert(old(self).last_trade_times@.subrange(0, m as int) =~= old(
                self,
            ).last_trade_times@);
        }
        self.last_trade_times = kept_times;
    }

    /// Whether the asset's cooldown is still running.
    fn cooldown_hit(&self, asset: &str, now_s: u64) -> (r: bool)
        ensures
            r == cooldown_active(
                self.last_trade_times@,
                asset@,
                now_s,
                self.cfg.cooldown_minutes,
            ),
    {
        let n = self.last_trade_times.len();
        proof {
            assert(self.last_trade_times@.skip(0) =~= self.last_trade_times@);
        }
        let mut i: usize = 0;
        while i < n
            invariant
                0 <= i <= n,
                n == self.last_trade_times@.len(),
                lookup_time(self.last_trade_times@, asset@) == lookup_time(
                    self.last_trade_times@.skip(i as int),
                    asset@,
                ),
            decreases n - i,
        {
            proof {
                assert(self.last_trade_times@.skip(i as int).drop_first()
                    =~= self.last_trade_times@.skip(i + 1));
                assert(self.last_trade_times@.skip(i as int).first()
                    == self.last_trade_times@[i as int]);
            }
            if self.last_trade_times[i].0 == asset.to_owned() {
                let t = self.last_trade_times[i].1;
                let mins: u64 = if now_s >= t {
                    (now_s - t) / 60
                } else {
                    0
                };
                return mins < self.cfg.cooldown_minutes;
            }
            i = i + 1;
        }
        false
    }

    /// How many pruned records carry this asset.
    fn count_asset_trades(&self, asset: &str) -> (r: usize)
        ensures
            r == count_asset(self.daily_trades@, asset@),
    {
        let n = self.daily_trades.len();
        let mut count: usize = 0;
        let mut i: usize = 0;
        proof {
            assert(self.daily_trades@.subrange(0, 0) =~= Seq::<TradeRecord>::empty());
        }
        while i < n
            invariant
                0 <= i <= n,
                n == self.daily_trades@.len(),
                count == count_asset(self.daily_trades@.subrange(0, i as int), asset@),
                count <= i,
            decreases n - i,
        {
            proof {
                assert(self.daily_trades@.subrange(0, i + 1).drop_last()
                    =~= self.daily_trades@.subrange(0, i as int));
                assert(self.daily_trades@.subrange(0, i + 1).last()
                    == self.daily_trades@[i as int]);
            }
            if self.daily_trades[i].asset == asset.to_owned() {
                count = count + 1;
            }
            i = i + 1;
        }
        proof {
            assert(self.daily_trades@.subrange(0, n as int) =~= self.daily_trades@);
        }
        count
    }

    /// Rewrites the asset's stamp to now, shadowing nothing: every older
    /// entry for the asset is taken out first.
    fn set_last_trade_time(&mut self, asset: &str, now_s: u64)
        ensures
            lookup_time(final(self).last_trade_times@, asset@) == Some(now_s),
            forall|b: Seq<char>|
                b != asset@ ==> lookup_time(final(self).last_trade_times@, b) == lookup_time(
                    old(self).last_trade_times@,
                    b,
                ),
            final(self).last_trade_times@.len() <= old(self).last_trade_times@.len() + 1,
            final(self).daily_trades@ == old(self).daily_trades@,
            final(self).cfg == old(self).cfg,
            final(self).account_balance_cents == old(self).account_balance_cents,
            final(self).session_pnl_cents == old(self).session_pnl_cents,
    {
        let n = self.last_trade_times.len();
        let mut out: Vec<(String, u64)> = Vec::new();
        out.push((asset.to_owned(), now_s));
        let mut i: usize = 0;
        proof {
            assert(self.last_trade_times@.skip(0) =~= self.last_trade_times@);
            assert(out@ =~= seq![(out@[0])]);
        }
        while i < n
            invariant
                0 <= i <= n,
                n == self.last_trade_times@.len(),
                self.last_trade_times@ == old(self).last_trade_times@,
                out@.len() >= 1,
                out@[0].0@ == asset@,
                out@[0].1 == now_s,
                out@.len() <= 1 + i,
                out@.drop_first() + remove_key(
                    old(self).last_trade_times@.skip(i as int),
                    asset@,
                ) == remove_key(old(self).last_trade_times@, asset@),
            decreases n - i,
        {
            proof {
                assert(old(self).last_trade_times@.skip(i as int).drop_first() =~= old(
                    self,
                ).last_trade_times@.skip(i + 1));
                assert(old(self).last_trade_times@.skip(i as int).first() == old(
                    self,
                ).last_trade_times@[i as int]);
            }
            let entry = &self.last_trade_times[i];
            if !(entry.0 == asset.to_owned()) {
                let ghost prev = out@;
                out.push((entry.0.clone(), entry.1));
                proof {
                    assert(out@.drop_first() =~= prev.drop_first().push(out@.last()));
                    assert(prev.drop_first().push(out@.last()) + remove_key(
                        old(self).last_trade_times@.skip(i + 1),
                        asset@,
                    ) =~= prev.drop_first() + (seq![out@.last()] + remove_key(
                        old(self).last_trade_times@.skip(i + 1),
                        asset@,
                    )));
                }
            }
            i = i + 1;
        }
        proof {
            assert(old(self).last_trade_times@.skip(n as int) =~= Seq::<(String, u64)>::empty());
            assert(out@.drop_first() =~= remove_key(old(self).last_trade_times@, asset@));
            assert(out@.first() == out@[0]);
            lemma_remove_key_len(old(self).last_trade_times@, asset@);
            assert forall|b: Seq<char>| b != asset@ implies lookup_time(out@, b) == lookup_time(
                old(self).last_trade_times@,
                b,
            ) by {
                lemma_lookup_remove_key(old(self).last_trade_times@, asset@, b);
            }
        }
        self.last_trade_times = out;
    }

    /// Appends an admitted trade's outcome and moves the session PnL.
    pub fn record_trade_result(&mut self, asset: &str, pnl_cents: i64, now_s: u64)
        requires
            old(self).wf(),
            -TRADE_PNL_BOUND <= pnl_cents <= TRADE_PNL_BOUND,
            -SESSION_PNL_BOUND <= old(self).session_pnl_cents + pnl_cents <= SESSION_PNL_BOUND,
        ensures
            final(self).wf(),
            final(self).daily_trades@.len() == old(self).daily_trades@.len() + 1,
            final(self).daily_trades@.last().timestamp_s == now_s,
            final(self).daily_trades@.last().asset@ == asset@,
            final(self).daily_trades@.last().pnl_cents == pnl_cents,
            forall|i: int|
                0 <= i < old(self).daily_trades@.len() ==> final(self).daily_trades@[i] == old(
                    self,
                ).daily_trades@[i],
            final(self).session_pnl_cents == old(self).session_pnl_cents + pnl_cents,
            final(self).last_trade_times@ == old(self).last_trade_times@,
            final(self).cfg == old(self).cfg,
            final(self).account_balance_cents == old(self).account_balance_cents,
    {
        self.daily_trades.push(
            TradeRecord { timestamp_s: now_s, asset: asset.to_owned(), pnl_cents },
        );
        self.session_pnl_cents = self.session_pnl_cents + (pnl_cents as i128);
    }

    /// Refreshes the session PnL from the open book and counts positions
    /// more than five percent under water. Observational: mutates only
    /// the session PnL.
    pub fn evaluate_positions(&mut self, positions: &Vec<PositionView>) -> (warnings: usize)
        requires
            old(self).wf(),
            forall|i: int|
                0 <= i < positions@.len() ==> -TRADE_PNL_BOUND <= (
                #[trigger] positions@[i]).unrealized_pnl_cents <= TRADE_PNL_BOUND,
        ensures
            final(self).wf(),
            final(self).session_pnl_cents == sum_view_pnl(positions@),
            warnings == count_large_losses(positions@),
            final(self).daily_trades@ == old(self).daily_trades@,
            final(self).last_trade_times@ == old(self).last_trade_times@,
            final(self).cfg == old(self).cfg,
            final(self).account_balance_cents == old(self).account_balance_cents,
    {
        let n = positions.len();
        let mut total: i128 = 0;
        let mut warnings: usize = 0;
        let mut i: usize = 0;
        proof {
            assert(positions@.subrange(0, 0) =~= Seq::<PositionView>::empty());
        }
        while i < n
            invariant
                0 <= i <= n,
                n == positions@.len(),
                forall|k: int|
                    0 <= k < positions@.len() ==> -TRADE_PNL_BOUND <= (
                    #[trigger] positions@[k]).unrealized_pnl_cents <= TRADE_PNL_BOUND,
                total == sum_view_pnl(positions@.subrange(0, i as int)),
                -(i as int) * (TRADE_PNL_BOUND as int) <= total <= (i as int) * (
                TRADE_PNL_BOUND as int),
                warnings == count_large_losses(positions@.subrange(0, i as int)),
                warnings <= i,
            decreases n - i,
        {
            proof {
                assert(positions@.subrange(0, i + 1).drop_last() =~= positions@.subrange(
                    0,
                    i as int,
                ));
                assert(positions@.subrange(0, i + 1).last() == positions@[i as int]);
            }
            let v = &positions[i];
            total = total + (v.unrealized_pnl_cents as i128);
            if v.entry_price_cents > 0 {
                let loss_scaled: i128 = (v.unrealized_pnl_cents as i128) * 100;
                if loss_scaled < -5 * (v.entry_price_cents as i128) {
                    warnings = warnings + 1;
                }
            }
            i = i + 1;
        }
        proof {
            assert(positions@.subrange(0, n as int) =~= positions@);
        }
        self.session_pnl_cents = total;
        warnings
    }

    /// The counters the metrics export carries, exactly as held.
    pub fn get_risk_metrics(&self) -> (r: RiskMetrics)
        ensures
            r.daily_trade_count == self.daily_trades@.len(),
            r.max_daily_trades == self.cfg.max_daily_trades,
            r.session_pnl_cents == self.session_pnl_cents,
            r.max_drawdown_cents == self.cfg.max_drawdown_cents,
            r.active_cooldowns == self.last_trade_times@.len(),
            r.cooldown_minutes == self.cfg.cooldown_minutes,
    {
        RiskMetrics {
            daily_trade_count: self.daily_trades.len(),
            max_daily_trades: self.cfg.max_daily_trades,
            session_pnl_cents: self.session_pnl_cents,
            max_drawdown_cents: self.cfg.max_drawdown_cents,
            active_cooldowns: self.last_trade_times.len(),
            cooldown_minutes: self.cfg.cooldown_minutes,
        }
    }
}

/// Computes [`volatility_factor_pct`].
pub fn volatility_factor(asset: &str) -> (r: u64)
    ensures
        r == volatility_factor_pct(asset@),
        80 <= r <= 95,
{
    let a = asset.to_owned();
    if a == "BTC".to_owned() {
        95
    } else if a == "ETH".to_owned() {
        90
    } else if a == "SOL".to_owned() {
        85
    } else {
        80
    }
}

/// A running cooldown blocks approval, whatever else holds: the verdict
/// is never `Passed` while the asset's stamp is inside the window.
pub proof fn lemma_cooldown_blocks(
    cfg: Config,
    balance_cents: u64,
    session_pnl_cents: i128,
    trades: Seq<TradeRecord>,
    times: Seq<(String, u64)>,
    a: Seq<char>,
    conf_milli: u64,
    now_s: u64,
)
    requires
        cooldown_active(times, a, now_s, cfg.cooldown_minutes),
    ensures
        !(risk_verdict(cfg, balance_cents, session_pnl_cents, trades, times, a, conf_milli, now_s)
            is Passed),
{
}

} // verus!
