//! Trade signals: the raw shape read from the inbox file and the validated
//! form the rest of the engine works on.
//!
//! The inbox is JSON written by an out-of-process strategy. Whatever reads
//! the file converts each JSON field to the plain values of [`RawSignal`]
//! (prices in cents, confidence in thousandths); validation then turns a
//! structurally sound `RawSignal` into a [`Signal`] whose invariants the
//! downstream code may assume.

use vstd::prelude::*;
use crate::config::MAX_PRICE_CENTS;

verus! {

/// The nested `best_signal` object, fields still unchecked.
pub struct RawBestSignal {
    pub asset: Option<String>,
    pub entry_price_cents: Option<i64>,
    pub stop_loss_cents: Option<i64>,
    pub take_profit_1_cents: Option<i64>,
    pub take_profit_2_cents: Option<i64>,
    pub take_profit_3_cents: Option<i64>,
}

/// One decoded inbox payload, fields still unchecked.
pub struct RawSignal {
    pub timestamp_s: Option<i64>,
    pub confidence_milli: Option<i64>,
    pub production_validated: Option<bool>,
    pub best: Option<RawBestSignal>,
}

/// A validated `best_signal`: non-empty asset, positive bounded prices.
pub struct BestSignal {
    pub asset: String,
    pub entry_price_cents: u64,
    pub stop_loss_cents: Option<u64>,
    pub take_profit_1_cents: Option<u64>,
    pub take_profit_2_cents: Option<u64>,
    pub take_profit_3_cents: Option<u64>,
}

/// A validated signal; everything downstream assumes [`Signal::wf`].
pub struct Signal {
    pub timestamp_s: u64,
    pub confidence_milli: u64,
    pub production_validated: Option<bool>,
    pub best: BestSignal,
}

/// An optional price field is sound when absent or positive and bounded.
pub open spec fn opt_price_ok(p: Option<i64>) -> bool {
    match p {
        Some(v) => 0 < v <= MAX_PRICE_CENTS,
        None => true,
    }
}

impl RawBestSignal {
    pub open spec fn valid(&self) -> bool {
        &&& match self.asset {
            Some(a) => a@.len() > 0,
            None => false,
        }
        &&& match self.entry_price_cents {
            Some(e) => 0 < e <= MAX_PRICE_CENTS,
            None => false,
        }
        &&& opt_price_ok(self.stop_loss_cents)
        &&& opt_price_ok(self.take_profit_1_cents)
        &&& opt_price_ok(self.take_profit_2_cents)
        &&& opt_price_ok(self.take_profit_3_cents)
    }
}

impl RawSignal {
    /// Structural soundness: every required field present and in range.
    pub open spec fn valid(&self) -> bool {
        &&& match self.timestamp_s {
            Some(t) => t >= 0,
            None => false,
        }
        &&& match self.confidence_milli {
            Some(c) => 0 <= c <= 1000,
            None => false,
        }
        &&& match self.best {
            Some(b) => b.valid(),
            None => false,
        }
    }
}

impl BestSignal {
    pub open spec fn wf(&self) -> bool {
        &&& self.asset@.len() > 0
        &&& 0 < self.entry_price_cents <= MAX_PRICE_CENTS
        &&& match self.stop_loss_cents {
            Some(v) => 0 < v <= MAX_PRICE_CENTS,
            None => true,
        }
        &&& match self.take_profit_1_cents {
            Some(v) => 0 < v <= MAX_PRICE_CENTS,
            None => true,
        }
        &&& match self.take_profit_2_cents {
            Some(v) => 0 < v <= MAX_PRICE_CENTS,
            None => true,
        }
        &&& match self.take_profit_3_cents {
            Some(v) => 0 < v <= MAX_PRICE_CENTS,
            None => true,
        }
    }
}

impl Signal {
    pub open spec fn wf(&self) -> bool {
        &&& self.confidence_milli <= 1000
        &&& self.best.wf()
    }
}

/// The optional price a valid raw field denotes.
pub open spec fn opt_price_of(p: Option<i64>) -> Option<u64> {
    match p {
        Some(v) => Some(v as u64),
        None => None,
    }
}

/// The signal a valid raw payload denotes.
pub open spec fn signal_of(raw: RawSignal) -> Signal
    recommends
        raw.valid(),
{
    let b = raw.best->0;
    Signal {
        timestamp_s: raw.timestamp_s->0 as u64,
        confidence_milli: raw.confidence_milli->0 as u64,
        production_validated: raw.production_validated,
        best: BestSignal {
            asset: b.asset->0,
            entry_price_cents: b.entry_price_cents->0 as u64,
            stop_loss_cents: opt_price_of(b.stop_loss_cents),
            take_profit_1_cents: opt_price_of(b.take_profit_1_cents),
            take_profit_2_cents: opt_price_of(b.take_profit_2_cents),
            take_profit_3_cents: opt_price_of(b.take_profit_3_cents),
        },
    }
}

fn check_opt_price(p: &Option<i64>) -> (ok: bool)
    ensures
        ok == opt_price_ok(*p),
{
    match p {
        Some(v) => 0 < *v && *v <= MAX_PRICE_CENTS as i64,
        None => true,
    }
}

fn take_opt_price(p: &Option<i64>) -> (r: Option<u64>)
    requires
        opt_price_ok(*p),
    ensures
        r == opt_price_of(*p),
{
    match p {
        Some(v) => Some(*v as u64),
        None => None,
    }
}

/// Validates a raw payload; returns the signal exactly when the payload is
/// structurally sound, and `None` otherwise.
pub fn validate_signal(raw: &RawSignal) -> (r: Option<Signal>)
    ensures
        raw.valid() ==> r == Some(signal_of(*raw)),
        !raw.valid() ==> r is None,
        r matches Some(s) ==> s.wf(),
{
    let timestamp_s: u64 = match &raw.timestamp_s {
        Some(t) => {
            if *t < 0 {
                return None;
            }
            *t as u64
        },
        None => {
            return None;
        },
    };
    let confidence_milli: u64 = match &raw.confidence_milli {
        Some(c) => {
            if *c < 0 || *c > 1000 {
                return None;
            }
            *c as u64
        },
        None => {
            return None;
        },
    };
    let b = match &raw.best {
        Some(b) => b,
        None => {
            return None;
        },
    };
    let asset: String = match &b.asset {
        Some(a) => {
            if a.as_str().is_empty() {
                return None;
            }
            a.clone()
        },
        None => {
            return None;
        },
    };
    let entry_price_cents: u64 = match &b.entry_price_cents {
        Some(e) => {
            if *e <= 0 || *e > MAX_PRICE_CENTS as i64 {
                return None;
            }
            *e as u64
        },
        None => {
            return None;
        },
    };
    if !check_opt_price(&b.stop_loss_cents) || !check_opt_price(&b.take_profit_1_cents)
        || !check_opt_price(&b.take_profit_2_cents) || !check_opt_price(&b.take_profit_3_cents) {
        return None;
    }
    Some(Signal {
        timestamp_s,
        confidence_milli,
        production_validated: raw.production_validated,
        best: BestSignal {
            asset,
            entry_price_cents,
            stop_loss_cents: take_opt_price(&b.stop_loss_cents),
            take_profit_1_cents: take_opt_price(&b.take_profit_1_cents),
            take_profit_2_cents: take_opt_price(&b.take_profit_2_cents),
            take_profit_3_cents: take_opt_price(&b.take_profit_3_cents),
        },
    })
}

} // verus!
