//! The market data feed's state: the latest tick per symbol, the health
//! view derived from tick freshness, the metrics snapshot, and the
//! deterministic dry-mode price simulator.
//!
//! The stream itself — the ticker subscription and its reconnects — runs
//! outside the library and hands each update in as plain strings;
//! [`DataFeed::apply_ticker`] parses and admits them.

use vstd::prelude::*;
use vstd::string::StringExecFns;
use vstd::string::StrSliceExecFns;
use vstd::utf8::encode_utf8;
use crate::config::{MAX_PRICE_CENTS, MAX_QTY_MICRO};
use crate::numeric::dec_cents;
use crate::position::{pnl_cents, PositionView, TRADE_PNL_BOUND};

verus! {

/// The latest tick of one symbol: price in cents, 24 h volume in
/// hundredths, and when it arrived.
pub struct TickData {
    pub symbol: String,
    pub price_cents: u64,
    pub volume_centi: u64,
    pub timestamp_s: u64,
}

/// The instrument suffix the ticker channel uses.
pub open spec fn usdt_suffix() -> Seq<char> {
    "-USDT"@
}

/// The symbol an instrument id names: the id without its `-USDT` tail;
/// `None` where the tail is missing or nothing precedes it.
pub open spec fn strip_usdt(inst: Seq<char>) -> Option<Seq<char>> {
    if inst.len() > 5 && inst.subrange(inst.len() - 5, inst.len() as int) == usdt_suffix() {
        Some(inst.subrange(0, inst.len() - 5))
    } else {
        None
    }
}

/// Computes [`strip_usdt`].
pub fn strip_usdt_suffix(inst: &str) -> (r: Option<&str>)
    ensures
        match r {
            Some(s) => strip_usdt(inst@) == Some(s@),
            None => strip_usdt(inst@) is None,
        },
{
    let n = inst.unicode_len();
    if n <= 5 {
        return None;
    }
    proof {
        reveal_strlit("-USDT");
    }
    let tail_ok = inst.get_char(n - 5) == '-' && inst.get_char(n - 4) == 'U' && inst.get_char(
        n - 3,
    ) == 'S' && inst.get_char(n - 2) == 'D' && inst.get_char(n - 1) == 'T';
    if !tail_ok {
        proof {
            assert(inst@.subrange(n - 5, n as int) == usdt_suffix() ==> inst@.subrange(
                n - 5,
                n as int,
            )[0] == usdt_suffix()[0] && inst@.subrange(n - 5, n as int)[1] == usdt_suffix()[1]
                && inst@.subrange(n - 5, n as int)[2] == usdt_suffix()[2] && inst@.subrange(
                n - 5,
                n as int,
            )[3] == usdt_suffix()[3] && inst@.subrange(n - 5, n as int)[4] == usdt_suffix()[4]);
        }
        return None;
    }
    proof {
        assert(inst@.subrange(n - 5, n as int) =~= usdt_suffix());
    }
    Some(inst.substring_char(0, n - 5))
}

/// The first tick recorded for a symbol.
pub open spec fn lookup_tick(ts: Seq<TickData>, sym: Seq<char>) -> Option<TickData>
    decreases ts.len(),
{
    if ts.len() == 0 {
        None
    } else if ts.first().symbol@ == sym {
        Some(ts.first())
    } else {
        lookup_tick(ts.drop_first(), sym)
    }
}

/// The ticks with one symbol's entries taken out.
pub open spec fn remove_symbol(ts: Seq<TickData>, sym: Seq<char>) -> Seq<TickData>
    decreases ts.len(),
{
    if ts.len() == 0 {
        Seq::empty()
    } else if ts.first().symbol@ == sym {
        remove_symbol(ts.drop_first(), sym)
    } else {
        seq![ts.first()] + remove_symbol(ts.drop_first(), sym)
    }
}

/// Taking one symbol out moves no other symbol's tick.
pub proof fn lemma_lookup_remove_symbol(ts: Seq<TickData>, a: Seq<char>, b: Seq<char>)
    requires
        a != b,
    ensures
        lookup_tick(remove_symbol(ts, a), b) == lookup_tick(ts, b),
    decreases ts.len(),
{
    if ts.len() > 0 {
        lemma_lookup_remove_symbol(ts.drop_first(), a, b);
        if ts.first().symbol@ != a {
            let t = seq![ts.first()] + remove_symbol(ts.drop_first(), a);
            assert(t.first() == ts.first());
            assert(t.drop_first() =~= remove_symbol(ts.drop_first(), a));
        }
    }
}

/// Every price the book holds stays under the engine's bound.
pub open spec fn ticks_bounded(ts: Seq<TickData>) -> bool {
    forall|i: int| 0 <= i < ts.len() ==> (#[trigger] ts[i]).price_cents <= MAX_PRICE_CENTS
}

/// The freshest tick timestamp on the book, zero when it is empty.
pub open spec fn freshest_tick_s(ts: Seq<TickData>) -> u64
    decreases ts.len(),
{
    if ts.len() == 0 {
        0
    } else {
        let rest = freshest_tick_s(ts.drop_last());
        if ts.last().timestamp_s > rest {
            ts.last().timestamp_s
        } else {
            rest
        }
    }
}

#[derive(Clone, Copy, PartialEq, Eq, Structural, Debug)]
pub enum HealthStatus {
    Healthy,
    Degraded,
}

/// The feed's health view: freshest tick against the clock.
pub struct FeedHealth {
    pub status: HealthStatus,
    pub last_update_s: u64,
    pub latency_s: u64,
}

/// The periodic metrics snapshot.
pub struct MetricsSnapshot {
    pub total_ticks: usize,
    pub active_symbols: Vec<String>,
    pub timestamp_s: u64,
}

/// The feed state: the tick book and the run flag that stops the stream.
pub struct DataFeed {
    pub ticks: Vec<TickData>,
    pub is_running: bool,
}

impl DataFeed {
    pub open spec fn wf(&self) -> bool {
        ticks_bounded(self.ticks@)
    }

    pub fn new() -> (r: DataFeed)
        ensures
            r.wf(),
            r.ticks@.len() == 0,
            !r.is_running,
    {
        DataFeed { ticks: Vec::new(), is_running: false }
    }

    /// Marks the feed running; idempotent.
    pub fn start(&mut self)
        requires
            old(self).wf(),
        ensures
            final(self).wf(),
            final(self).is_running,
            final(self).ticks@ == old(self).ticks@,
    {
        self.is_running = true;
    }

    /// Clears the run flag; the stream outside stops at its next check.
    pub fn stop(&mut self)
        requires
            old(self).wf(),
        ensures
            final(self).wf(),
            !final(self).is_running,
            final(self).ticks@ == old(self).ticks@,
    {
        self.is_running = false;
    }

    /// Admits one ticker update given as the channel delivers it —
    /// instrument id and decimal strings — when the id carries the
    /// `-USDT` tail, both numbers parse, and the price is inside the
    /// engine's bound. Returns whether the book moved.
    pub fn apply_ticker(&mut self, inst_id: &str, last: &str, vol24h: &str, now_s: u64) -> (r:
        bool)
        requires
            old(self).wf(),
        ensures
            final(self).wf(),
            ({
                let sym = strip_usdt(inst_id@);
                let price = dec_cents(encode_utf8(last@));
                let vol = dec_cents(encode_utf8(vol24h@));
                let ok = sym is Some && (price matches Some(p) && p <= MAX_PRICE_CENTS)
                    && vol is Some;
                &&& r == ok
                &&& !ok ==> final(self).ticks@ == old(self).ticks@
                &&& ok ==> {
                    let t = lookup_tick(final(self).ticks@, sym->0);
                    &&& t matches Some(td)
                    &&& td.price_cents == price->0
                    &&& td.volume_centi == vol->0
                    &&& td.timestamp_s == now_s
                    &&& forall|b: Seq<char>|
                        b != sym->0 ==> lookup_tick(final(self).ticks@, b) == lookup_tick(
                            old(self).ticks@,
                            b,
                        )
                }
            }),
            final(self).is_running == old(self).is_running,
    {
        let sym = match strip_usdt_suffix(inst_id) {
            Some(s) => s,
            None => {
                return false;
            },
        };
        let price = match crate::numeric::parse_decimal_cents(last) {
            Some(p) => p,
            None => {
                return false;
            },
        };
        if price > MAX_PRICE_CENTS {
            return false;
        }
        let vol = match crate::numeric::parse_decimal_cents(vol24h) {
            Some(v) => v,
            None => {
                return false;
            },
        };
        self.upsert_tick(
            TickData {
                symbol: sym.to_owned(),
                price_cents: price,
                volume_centi: vol,
                timestamp_s: now_s,
            },
        );
        true
    }

    /// Puts a tick at the front of the book, taking out every older tick
    /// of the same symbol.
    fn upsert_tick(&mut self, tick: TickData)
        requires
            old(self).wf(),
            tick.price_cents <= MAX_PRICE_CENTS,
        ensures
            final(self).wf(),
            lookup_tick(final(self).ticks@, tick.symbol@) == Some(tick),
            forall|b: Seq<char>|
                b != tick.symbol@ ==> lookup_tick(final(self).ticks@, b) == lookup_tick(
                    old(self).ticks@,
                    b,
                ),
            final(self).ticks@.len() <= old(self).ticks@.len() + 1,
            final(self).is_running == old(self).is_running,
    {
        let ghost sym = tick.symbol@;
        let symkey: String = tick.symbol.clone();
        let n = self.ticks.len();
        let mut out: Vec<TickData> = Vec::new();
        let ghost tick_snap = tick;
        out.push(tick);
        let mut i: usize = 0;
        proof {
            assert(self.ticks@.skip(0) =~= self.ticks@);
            assert(out@ =~= seq![tick_snap]);
        }
        while i < n
            invariant
                0 <= i <= n,
                n == self.ticks@.len(),
                self.ticks@ == old(self).ticks@,
                out@.len() >= 1,
                out@[0] == tick_snap,
                tick_snap.symbol@ == sym,
                symkey@ == sym,
                out@.len() <= 1 + i,
                forall|k: int|
                    0 <= k < out@.len() ==> (#[trigger] out@[k]).price_cents <= MAX_PRICE_CENTS,
                ticks_bounded(old(self).ticks@),
                tick_snap.price_cents <= MAX_PRICE_CENTS,
                out@.drop_first() + remove_symbol(old(self).ticks@.skip(i as int), sym)
                    == remove_symbol(old(self).ticks@, sym),
            decreases n - i,
        {
            proof {
                assert(old(self).ticks@.skip(i as int).drop_first() =~= old(self).ticks@.skip(
                    i + 1,
                ));
                assert(old(self).ticks@.skip(i as int).first() == old(self).ticks@[i as int]);
            }
            let entry = &self.ticks[i];
            if !(entry.symbol == symkey) {
                let ghost prev = out@;
                out.push(clone_tick(entry));
                proof {
                    assert(out@.drop_first() =~= prev.drop_first().push(out@.last()));
                    assert(prev.drop_first().push(out@.last()) + remove_symbol(
                        old(self).ticks@.skip(i + 1),
                        sym,
                    ) =~= prev.drop_first() + (seq![out@.last()] + remove_symbol(
                        old(self).ticks@.skip(i + 1),
                        sym,
                    )));
                }
            }
            i = i + 1;
        }
        proof {
            assert(old(self).ticks@.skip(n as int) =~= Seq::<TickData>::empty());
            assert(out@.drop_first() =~= remove_symbol(old(self).ticks@, sym));
            assert(out@.first() == out@[0]);
            lemma_remove_symbol_len(old(self).ticks@, sym);
            assert forall|b: Seq<char>| b != sym implies lookup_tick(out@, b) == lookup_tick(
                old(self).ticks@,
                b,
            ) by {
                lemma_lookup_remove_symbol(old(self).ticks@, sym, b);
            }
        }
        self.ticks = out;
    }

    /// The latest price of a symbol, if a tick arrived.
    pub fn get_current_price(&self, symbol: &str) -> (r: Option<u64>)
        ensures
            r == match lookup_tick(self.ticks@, symbol@) {
                Some(t) => Some(t.price_cents),
                None => None::<u64>,
            },
    {
        match self.find_tick(symbol) {
            Some(i) => Some(self.ticks[i].price_cents),
            None => None,
        }
    }

    /// A copy of the symbol's latest tick.
    pub fn get_tick_data(&self, symbol: &str) -> (r: Option<TickData>)
        ensures
            r == lookup_tick(self.ticks@, symbol@),
    {
        match self.find_tick(symbol) {
            Some(i) => Some(clone_tick(&self.ticks[i])),
            None => None,
        }
    }

    /// The index of the symbol's first tick.
    fn find_tick(&self, symbol: &str) -> (r: Option<usize>)
        ensures
            match r {
                Some(i) => i < self.ticks@.len() && lookup_tick(self.ticks@, symbol@) == Some(
                    self.ticks@[i as int],
                ),
                None => lookup_tick(self.ticks@, symbol@) is None,
            },
    {
        let n = self.ticks.len();
        proof {
            assert(self.ticks@.skip(0) =~= self.ticks@);
        }
        let mut i: usize = 0;
        while i < n
            invariant
                0 <= i <= n,
                n == self.ticks@.len(),
                lookup_tick(self.ticks@, symbol@) == lookup_tick(
                    self.ticks@.skip(i as int),
                    symbol@,
                ),
            decreases n - i,
        {
            proof {
                assert(self.ticks@.skip(i as int).drop_first() =~= self.ticks@.skip(i + 1));
                assert(self.ticks@.skip(i as int).first() == self.ticks@[i as int]);
            }
            if self.ticks[i].symbol == symbol.to_owned() {
                return Some(i);
            }
            i = i + 1;
        }
        None
    }

    /// The whole book as symbol–price pairs, ready for the position
    /// manager's pass.
    pub fn get_all_prices(&self) -> (r: Vec<(String, u64)>)
        requires
            self.wf(),
        ensures
            r@.len() == self.ticks@.len(),
            forall|i: int|
                0 <= i < r@.len() ==> (#[trigger] r@[i]).0@ == self.ticks@[i].symbol@ && r@[i].1
                    == self.ticks@[i].price_cents,
            forall|i: int| 0 <= i < r@.len() ==> (#[trigger] r@[i]).1 <= MAX_PRICE_CENTS,
    {
        let n = self.ticks.len();
        let mut r: Vec<(String, u64)> = Vec::new();
        let mut i: usize = 0;
        while i < n
            invariant
                0 <= i <= n,
                n == self.ticks@.len(),
                r@.len() == i,
                ticks_bounded(self.ticks@),
                forall|k: int|
                    0 <= k < i ==> (#[trigger] r@[k]).0@ == self.ticks@[k].symbol@ && r@[k].1
                        == self.ticks@[k].price_cents,
                forall|k: int| 0 <= k < i ==> (#[trigger] r@[k]).1 <= MAX_PRICE_CENTS,
            decreases n - i,
        {
            r.push((self.ticks[i].symbol.clone(), self.ticks[i].price_cents));
            i = i + 1;
        }
        r
    }

    /// The health view: healthy while the freshest tick is younger than
    /// the window.
    pub fn get_connection_health(&self, now_s: u64, healthy_window_s: u64) -> (r: FeedHealth)
        ensures
            r.last_update_s == freshest_tick_s(self.ticks@),
            r.latency_s == (if now_s >= r.last_update_s {
                (now_s - r.last_update_s) as u64
            } else {
                0u64
            }),
            (r.status is Healthy) == (r.latency_s < healthy_window_s),
    {
        let last = self.freshest_tick(self.ticks.len());
        proof {
            assert(self.ticks@.subrange(0, self.ticks@.len() as int) =~= self.ticks@);
        }
        let latency: u64 = if now_s >= last {
            now_s - last
        } else {
            0
        };
        FeedHealth {
            status: if latency < healthy_window_s {
                HealthStatus::Healthy
            } else {
                HealthStatus::Degraded
            },
            last_update_s: last,
            latency_s: latency,
        }
    }

    /// The freshest timestamp among the first `upto` ticks.
    fn freshest_tick(&self, upto: usize) -> (r: u64)
        requires
            upto <= self.ticks@.len(),
        ensures
            r == freshest_tick_s(self.ticks@.subrange(0, upto as int)),
    {
        let mut best: u64 = 0;
        let mut i: usize = 0;
        proof {
            assert(self.ticks@.subrange(0, 0) =~= Seq::<TickData>::empty());
        }
        while i < upto
            invariant
                0 <= i <= upto,
                upto <= self.ticks@.len(),
                best == freshest_tick_s(self.ticks@.subrange(0, i as int)),
            decreases upto - i,
        {
            proof {
                assert(self.ticks@.subrange(0, i + 1).drop_last() =~= self.ticks@.subrange(
                    0,
                    i as int,
                ));
                assert(self.ticks@.subrange(0, i + 1).last() == self.ticks@[i as int]);
            }
            if self.ticks[i].timestamp_s > best {
                best = self.ticks[i].timestamp_s;
            }
            i = i + 1;
        }
        best
    }

    /// The metrics export: tick count, the symbols on the book, the
    /// clock.
    pub fn metrics_snapshot(&self, now_s: u64) -> (r: MetricsSnapshot)
        ensures
            r.total_ticks == self.ticks@.len(),
            r.active_symbols@.len() == self.ticks@.len(),
            forall|i: int|
                0 <= i < r.active_symbols@.len() ==> (#[trigger] r.active_symbols@[i])@
                    == self.ticks@[i].symbol@,
            r.timestamp_s == now_s,
    {
        let n = self.ticks.len();
        let mut symbols: Vec<String> = Vec::new();
        let mut i: usize = 0;
        while i < n
            invariant
                0 <= i <= n,
                n == self.ticks@.len(),
                symbols@.len() == i,
                forall|k: int|
                    0 <= k < i ==> (#[trigger] symbols@[k])@ == self.ticks@[k].symbol@,
            decreases n - i,
        {
            symbols.push(self.ticks[i].symbol.clone());
            i = i + 1;
        }
        MetricsSnapshot { total_ticks: n, active_symbols: symbols, timestamp_s: now_s }
    }
}

/// One monitored position: its latest price and marked PnL.
pub struct PositionUpdate {
    pub asset: String,
    pub current_price_cents: u64,
    pub unrealized_pnl_cents: i64,
    pub timestamp_s: u64,
}

impl DataFeed {
    /// Marks each position against the book: one update per position
    /// whose asset has a tick, with the short PnL at that price.
    pub fn monitor_positions(&self, positions: &Vec<PositionView>, now_s: u64) -> (r: Vec<
        PositionUpdate,
    >)
        requires
            self.wf(),
            forall|i: int|
                0 <= i < positions@.len() ==> (#[trigger] positions@[i]).entry_price_cents <= 2
                    * MAX_PRICE_CENTS && positions@[i].quantity_micro <= MAX_QTY_MICRO,
        ensures
            forall|k: int|
                0 <= k < r@.len() ==> {
                    let u = #[trigger] r@[k];
                    &&& u.timestamp_s == now_s
                    &&& lookup_tick(self.ticks@, u.asset@) matches Some(t) && t.price_cents
                        == u.current_price_cents
                    &&& -TRADE_PNL_BOUND <= u.unrealized_pnl_cents <= TRADE_PNL_BOUND
                },
    {
        let n = positions.len();
        let mut r: Vec<PositionUpdate> = Vec::new();
        let mut i: usize = 0;
        while i < n
            invariant
                0 <= i <= n,
                n == positions@.len(),
                self.wf(),
                forall|k: int|
                    0 <= k < positions@.len() ==> (#[trigger] positions@[k]).entry_price_cents
                        <= 2 * MAX_PRICE_CENTS && positions@[k].quantity_micro <= MAX_QTY_MICRO,
                forall|k: int|
                    0 <= k < r@.len() ==> {
                        let u = #[trigger] r@[k];
                        &&& u.timestamp_s == now_s
                        &&& lookup_tick(self.ticks@, u.asset@) matches Some(t) && t.price_cents
                            == u.current_price_cents
                        &&& -TRADE_PNL_BOUND <= u.unrealized_pnl_cents <= TRADE_PNL_BOUND
                    },
            decreases n - i,
        {
            let v = &positions[i];
            match self.find_tick(v.asset.as_str()) {
                Some(ti) => {
                    let price = self.ticks[ti].price_cents;
                    proof {
                        lemma_lookup_tick_bounded(self.ticks@, v.asset@);
                    }
                    let pnl = monitor_pnl(v.entry_price_cents, price, v.quantity_micro);
                    r.push(
                        PositionUpdate {
                            asset: v.asset.clone(),
                            current_price_cents: price,
                            unrealized_pnl_cents: pnl,
                            timestamp_s: now_s,
                        },
                    );
                },
                None => {},
            }
            i = i + 1;
        }
        r
    }
}

/// Every tick a lookup yields on a bounded book is bounded.
pub proof fn lemma_lookup_tick_bounded(ts: Seq<TickData>, sym: Seq<char>)
    requires
        ticks_bounded(ts),
    ensures
        lookup_tick(ts, sym) matches Some(t) ==> t.price_cents <= MAX_PRICE_CENTS,
    decreases ts.len(),
{
    if ts.len() > 0 {
        assert(ts.first() == ts[0]);
        if ts.first().symbol@ != sym {
            assert(forall|i: int|
                0 <= i < ts.drop_first().len() ==> (#[trigger] ts.drop_first()[i]) == ts[i + 1]);
            lemma_lookup_tick_bounded(ts.drop_first(), sym);
        }
    }
}

/// The short PnL one monitored position shows, in cents.
fn monitor_pnl(entry: u64, cur: u64, qty: u64) -> (r: i64)
    requires
        entry <= 2 * MAX_PRICE_CENTS,
        cur <= MAX_PRICE_CENTS,
        qty <= MAX_QTY_MICRO,
    ensures
        r == pnl_cents(entry, cur, qty),
        -TRADE_PNL_BOUND <= r <= TRADE_PNL_BOUND,
{
    proof {
        crate::position::lemma_pnl_bound(entry, cur, qty);
    }
    if entry >= cur {
        let diff = (entry - cur) as u128;
        proof {
            vstd::arithmetic::mul::lemma_mul_upper_bound(
                diff as int,
                2 * MAX_PRICE_CENTS as int,
                qty as int,
                MAX_QTY_MICRO as int,
            );
        }
        ((diff * (qty as u128)) / 1_000_000u128) as i64
    } else {
        let diff = (cur - entry) as u128;
        proof {
            vstd::arithmetic::mul::lemma_mul_upper_bound(
                diff as int,
                2 * MAX_PRICE_CENTS as int,
                qty as int,
                MAX_QTY_MICRO as int,
            );
        }
        0i64 - (((diff * (qty as u128)) / 1_000_000u128) as i64)
    }
}

/// Dry-mode simulator bases, in cents.
pub const SIM_BTC_BASE_CENTS: u64 = 4_500_000_00;

pub const SIM_ETH_BASE_CENTS: u64 = 250_000_00;

pub const SIM_SOL_BASE_CENTS: u64 = 10_000_00;

/// Dry-mode simulator wobble, in per-mille of the base.
pub const SIM_BTC_VOL_PM: u64 = 2;

pub const SIM_ETH_VOL_PM: u64 = 3;

pub const SIM_SOL_VOL_PM: u64 = 5;

/// One step of the simulator's linear-congruential generator.
pub open spec fn lcg_next(s: u64) -> u64 {
    vstd::wrapping::u64_specs::wrapping_add(
        vstd::wrapping::u64_specs::wrapping_mul(s, 6364136223846793005),
        1442695040888963407,
    )
}

/// Computes [`lcg_next`].
pub fn lcg_step(s: u64) -> (r: u64)
    ensures
        r == lcg_next(s),
{
    s.wrapping_mul(6364136223846793005).wrapping_add(1442695040888963407)
}

/// The simulator's price: the base nudged by at most `vol_pm` per-mille,
/// the direction and size drawn from the seed.
pub open spec fn simulated_price(base: u64, vol_pm: u64, seed: u64) -> u64 {
    let noise = (seed % 2001) as u64;
    if noise >= 1000 {
        (base + base * vol_pm * ((noise - 1000) as u64) / 1_000_000) as u64
    } else {
        (base - base * vol_pm * ((1000 - noise) as u64) / 1_000_000) as u64
    }
}

/// Computes [`simulated_price`] for in-range bases and wobbles.
pub fn compute_simulated_price(base: u64, vol_pm: u64, seed: u64) -> (r: u64)
    requires
        0 < base <= MAX_PRICE_CENTS / 2,
        vol_pm <= 50,
    ensures
        r == simulated_price(base, vol_pm, seed),
        0 < r <= MAX_PRICE_CENTS,
{
    let noise = seed % 2001;
    let mag: u64 = if noise >= 1000 {
        noise - 1000
    } else {
        1000 - noise
    };
    proof {
        vstd::arithmetic::mul::lemma_mul_upper_bound(
            base as int,
            (MAX_PRICE_CENTS / 2) as int,
            vol_pm as int,
            50,
        );
        vstd::arithmetic::mul::lemma_mul_upper_bound(
            (base * vol_pm) as int,
            ((MAX_PRICE_CENTS / 2) * 50) as int,
            mag as int,
            1000,
        );
        assert(base * vol_pm * mag <= base * 50 * 1000) by (nonlinear_arith)
            requires
                vol_pm <= 50,
                mag <= 1000,
        ;
    }
    let delta = base * vol_pm * mag / 1_000_000;
    if noise >= 1000 {
        base + delta
    } else {
        base - delta
    }
}

impl DataFeed {
    /// One deterministic simulator pass: fresh BTC, ETH and SOL ticks cut
    /// from the seed, everything else untouched. Returns the advanced
    /// seed.
    #[verifier::rlimit(60)]
    pub fn simulate_ticks(&mut self, now_s: u64, seed: u64) -> (new_seed: u64)
        requires
            old(self).wf(),
        ensures
            final(self).wf(),
            new_seed == lcg_next(lcg_next(lcg_next(seed))),
            ({
                let s1 = lcg_next(seed);
                let s2 = lcg_next(s1);
                let s3 = lcg_next(s2);
                &&& (lookup_tick(final(self).ticks@, "BTC"@) matches Some(t) && t.price_cents
                    == simulated_price(SIM_BTC_BASE_CENTS, SIM_BTC_VOL_PM, s1) && t.timestamp_s
                    == now_s)
                &&& (lookup_tick(final(self).ticks@, "ETH"@) matches Some(t) && t.price_cents
                    == simulated_price(SIM_ETH_BASE_CENTS, SIM_ETH_VOL_PM, s2) && t.timestamp_s
                    == now_s)
                &&& (lookup_tick(final(self).ticks@, "SOL"@) matches Some(t) && t.price_cents
                    == simulated_price(SIM_SOL_BASE_CENTS, SIM_SOL_VOL_PM, s3) && t.timestamp_s
                    == now_s)
                &&& forall|b: Seq<char>|
                    b != "BTC"@ && b != "ETH"@ && b != "SOL"@ ==> lookup_tick(
                        final(self).ticks@,
                        b,
                    ) == lookup_tick(old(self).ticks@, b)
            }),
    {
        proof {
            reveal_strlit("BTC");
            reveal_strlit("ETH");
            reveal_strlit("SOL");
            assert("BTC"@[0] == 'B' && "ETH"@[0] == 'E' && "SOL"@[0] == 'S');
            assert("BTC"@ != "ETH"@ && "BTC"@ != "SOL"@ && "ETH"@ != "SOL"@);
        }
        let s1 = lcg_step(seed);
        let s2 = lcg_step(s1);
        let s3 = lcg_step(s2);
        let btc = compute_simulated_price(SIM_BTC_BASE_CENTS, SIM_BTC_VOL_PM, s1);
        let eth = compute_simulated_price(SIM_ETH_BASE_CENTS, SIM_ETH_VOL_PM, s2);
        let sol = compute_simulated_price(SIM_SOL_BASE_CENTS, SIM_SOL_VOL_PM, s3);
        self.upsert_tick(
            TickData {
                symbol: "BTC".to_owned(),
                price_cents: btc,
                volume_centi: 0,
                timestamp_s: now_s,
            },
        );
        self.upsert_tick(
            TickData {
                symbol: "ETH".to_owned(),
                price_cents: eth,
                volume_centi: 0,
                timestamp_s: now_s,
            },
        );
        self.upsert_tick(
            TickData {
                symbol: "SOL".to_owned(),
                price_cents: sol,
                volume_centi: 0,
                timestamp_s: now_s,
            },
        );
        s3
    }
}

/// Taking a symbol out never lengthens the book.
pub proof fn lemma_remove_symbol_len(ts: Seq<TickData>, sym: Seq<char>)
    ensures
        remove_symbol(ts, sym).len() <= ts.len(),
    decreases ts.len(),
{
    if ts.len() > 0 {
        lemma_remove_symbol_len(ts.drop_first(), sym);
    }
}

/// A field-for-field copy of a tick.
fn clone_tick(t: &TickData) -> (r: TickData)
    ensures
        r == *t,
{
    TickData {
        symbol: t.symbol.clone(),
        price_cents: t.price_cents,
        volume_centi: t.volume_centi,
        timestamp_s: t.timestamp_s,
    }
}

} // verus!
