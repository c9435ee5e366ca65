//! The append-only fills audit log, bounded by construction: when an
//! append takes the log past 1000 records, the oldest 500 are dropped in
//! one stroke. Whatever persists it writes the records verbatim.

use vstd::prelude::*;
use crate::config::Mode;
use crate::executor::FillStatus;

verus! {

/// Most records the log ever holds.
pub const FILLS_LOG_CAP: usize = 1000;

/// How many of the oldest records one trim drops.
pub const FILLS_LOG_DROP: usize = 500;

/// One audited fill, as the log file carries it.
pub struct FillRecord {
    pub timestamp_s: u64,
    pub asset: String,
    pub side: String,
    pub entry_price_cents: u64,
    pub quantity_micro: u64,
    pub confidence_milli: u64,
    pub mode: Mode,
    pub status: FillStatus,
    pub order_id: String,
    pub execution_time_us: u64,
    pub validated: Option<bool>,
}

/// The log after one append: the record at the end, and a trim of the
/// oldest five hundred where the thousand was passed.
pub open spec fn appended(s: Seq<FillRecord>, rec: FillRecord) -> Seq<FillRecord> {
    let t = s.push(rec);
    if t.len() > FILLS_LOG_CAP {
        t.skip(FILLS_LOG_DROP as int)
    } else {
        t
    }
}

pub struct FillsLog {
    pub entries: Vec<FillRecord>,
}

impl FillsLog {
    /// The log never exceeds its cap.
    pub open spec fn wf(&self) -> bool {
        self.entries@.len() <= FILLS_LOG_CAP
    }

    pub fn new() -> (r: FillsLog)
        ensures
            r.wf(),
            r.entries@.len() == 0,
    {
        FillsLog { entries: Vec::new() }
    }

    /// Rebuilds the log from persisted records, keeping the newest
    /// thousand where the file held more.
    pub fn from_entries(entries: Vec<FillRecord>) -> (r: FillsLog)
        ensures
            r.wf(),
            entries@.len() <= FILLS_LOG_CAP ==> r.entries@ == entries@,
            entries@.len() > FILLS_LOG_CAP ==> r.entries@ == entries@.skip(
                entries@.len() - FILLS_LOG_CAP,
            ),
    {
        let n = entries.len();
        if n <= FILLS_LOG_CAP {
            return FillsLog { entries };
        }
        let start = n - FILLS_LOG_CAP;
        let mut kept: Vec<FillRecord> = Vec::new();
        let mut i: usize = start;
        proof {
            assert(entries@.subrange(start as int, start as int) =~= Seq::<FillRecord>::empty());
        }
        while i < n
            invariant
                start <= i <= n,
                n == entries@.len(),
                kept@ == entries@.subrange(start as int, i as int),
            decreases n - i,
        {
            proof {
                assert(entries@.subrange(start as int, i + 1) =~= entries@.subrange(
                    start as int,
                    i as int,
                ).push(entries@[i as int]));
            }
            kept.push(clone_fill_record(&entries[i]));
            i = i + 1;
        }
        proof {
            assert(entries@.subrange(start as int, n as int) =~= entries@.skip(start as int));
        }
        FillsLog { entries: kept }
    }

    /// Appends one record, trimming the oldest five hundred when the log
    /// would pass its cap; the log never exceeds the cap.
    pub fn append(&mut self, rec: FillRecord)
        requires
            old(self).wf(),
        ensures
            final(self).wf(),
            final(self).entries@ == appended(old(self).entries@, rec),
            final(self).entries@.len() <= FILLS_LOG_CAP,
    {
        self.entries.push(rec);
        let n = self.entries.len();
        if n > FILLS_LOG_CAP {
            let mut kept: Vec<FillRecord> = Vec::new();
            let mut i: usize = FILLS_LOG_DROP;
            proof {
                assert(self.entries@.subrange(FILLS_LOG_DROP as int, FILLS_LOG_DROP as int)
                    =~= Seq::<FillRecord>::empty());
            }
            while i < n
                invariant
                    FILLS_LOG_DROP <= i <= n,
                    n == self.entries@.len(),
                    self.entries@ == old(self).entries@.push(rec),
                    kept@ == self.entries@.subrange(FILLS_LOG_DROP as int, i as int),
                decreases n - i,
            {
                proof {
                    assert(self.entries@.subrange(FILLS_LOG_DROP as int, i + 1)
                        =~= self.entries@.subrange(FILLS_LOG_DROP as int, i as int).push(
                        self.entries@[i as int],
                    ));
                }
                kept.push(clone_fill_record(&self.entries[i]));
                i = i + 1;
            }
            proof {
                assert(self.entries@.subrange(FILLS_LOG_DROP as int, n as int)
                    =~= self.entries@.skip(FILLS_LOG_DROP as int));
            }
            self.entries = kept;
        }
    }

    /// How many records stand in the log.
    pub fn len(&self) -> (r: usize)
        ensures
            r == self.entries@.len(),
    {
        self.entries.len()
    }
}

/// A field-for-field copy of a record.
fn clone_fill_record(r: &FillRecord) -> (out: FillRecord)
    ensures
        out == *r,
{
    FillRecord {
        timestamp_s: r.timestamp_s,
        asset: r.asset.clone(),
        side: r.side.clone(),
        entry_price_cents: r.entry_price_cents,
        quantity_micro: r.quantity_micro,
        confidence_milli: r.confidence_milli,
        mode: r.mode,
        status: r.status,
        order_id: r.order_id.clone(),
        execution_time_us: r.execution_time_us,
        validated: r.validated,
    }
}

} // verus!
