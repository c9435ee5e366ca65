//! The signal listener: sole owner of the inbox watermarks.
//!
//! Whatever polls the inbox file hands the listener a [`FileSnapshot`] —
//! the file's modification time and its decoded payload, if it could be
//! read and decoded — together with the current time. The listener decides
//! admission: fresh file, sound structure, strictly increasing payload
//! timestamp, bounded age. All decisions are pure functions of the
//! snapshot, the clock and the watermarks, stated below as spec functions.

use vstd::prelude::*;
use crate::signal::{RawSignal, Signal, signal_of};

verus! {

/// What one poll of the inbox file saw: its modification time (nanoseconds
/// since the epoch) and the decoded payload, or `None` where the file could
/// not be read or was not syntactically sound.
pub struct FileSnapshot {
    pub modified_ns: u64,
    pub signal: Option<RawSignal>,
}

pub struct SignalListener {
    pub signal_file_path: String,
    pub last_signal_timestamp: u64,
    pub last_file_modified: Option<u64>,
}

/// The file counts as changed when no mtime was recorded yet or the
/// recorded one is strictly older.
pub open spec fn file_changed(pre: SignalListener, modified_ns: u64) -> bool {
    match pre.last_file_modified {
        Some(m) => modified_ns > m,
        None => true,
    }
}

/// A signal's age, with a clock that may lag the producer's.
pub open spec fn signal_age_s(timestamp_s: u64, now_s: u64) -> u64 {
    if now_s >= timestamp_s {
        (now_s - timestamp_s) as u64
    } else {
        0
    }
}

/// Whether the snapshot carries a signal the listener admits: changed
/// file, sound structure, strictly newer payload timestamp, age within
/// `max_age_s`.
pub open spec fn poll_admits(
    pre: SignalListener,
    snap: Option<FileSnapshot>,
    now_s: u64,
    max_age_s: u64,
) -> bool {
    match snap {
        Some(f) => {
            &&& file_changed(pre, f.modified_ns)
            &&& match f.signal {
                Some(raw) => {
                    &&& raw.valid()
                    &&& signal_of(raw).timestamp_s > pre.last_signal_timestamp
                    &&& signal_age_s(signal_of(raw).timestamp_s, now_s) <= max_age_s
                },
                None => false,
            }
        },
        None => false,
    }
}

/// The watermarks after one poll: the mtime watermark advances on any
/// changed file (even one whose payload is then rejected), the timestamp
/// watermark only on admission.
pub open spec fn poll_state(
    pre: SignalListener,
    snap: Option<FileSnapshot>,
    now_s: u64,
    max_age_s: u64,
) -> SignalListener {
    match snap {
        Some(f) => {
            if file_changed(pre, f.modified_ns) {
                SignalListener {
                    last_file_modified: Some(f.modified_ns),
                    last_signal_timestamp: if poll_admits(pre, snap, now_s, max_age_s) {
                        signal_of(f.signal->0).timestamp_s
                    } else {
                        pre.last_signal_timestamp
                    },
                    ..pre
                }
            } else {
                pre
            }
        },
        None => pre,
    }
}

/// Strips the reference from an optional snapshot, for use in contracts.
pub open spec fn snap_of(snap: Option<&FileSnapshot>) -> Option<FileSnapshot> {
    match snap {
        Some(f) => Some(*f),
        None => None,
    }
}

impl SignalListener {
    /// A fresh listener on the canonical inbox path, with no watermarks.
    pub fn new() -> (r: SignalListener)
        ensures
            r.signal_file_path@ == "/tmp/signal.json"@,
            r.last_signal_timestamp == 0,
            r.last_file_modified is None,
    {
        SignalListener {
            signal_file_path: "/tmp/signal.json".to_owned(),
            last_signal_timestamp: 0,
            last_file_modified: None,
        }
    }

    /// One poll: admits the snapshot's signal exactly under
    /// [`poll_admits`], and moves the watermarks per [`poll_state`].
    pub fn check_for_signals(
        &mut self,
        snap: Option<&FileSnapshot>,
        now_s: u64,
        max_age_s: u64,
    ) -> (r: Option<Signal>)
        ensures
            *final(self) == poll_state(*old(self), snap_of(snap), now_s, max_age_s),
            poll_admits(*old(self), snap_of(snap), now_s, max_age_s)
                ==> r == Some(signal_of(snap_of(snap)->0.signal->0)),
            !poll_admits(*old(self), snap_of(snap), now_s, max_age_s) ==> r is None,
            r matches Some(s) ==> s.wf() && s.timestamp_s > old(self).last_signal_timestamp
                && final(self).last_signal_timestamp == s.timestamp_s,
    {
        let f = match snap {
            Some(f) => f,
            None => {
                return None;
            },
        };
        let changed = match &self.last_file_modified {
            Some(m) => f.modified_ns > *m,
            None => true,
        };
        if !changed {
            return None;
        }
        self.last_file_modified = Some(f.modified_ns);
        let raw = match &f.signal {
            Some(raw) => raw,
            None => {
                return None;
            },
        };
        let sig = match crate::signal::validate_signal(raw) {
            Some(sig) => sig,
            None => {
                return None;
            },
        };
        if sig.timestamp_s <= self.last_signal_timestamp {
            return None;
        }
        let age_s: u64 = if now_s >= sig.timestamp_s {
            now_s - sig.timestamp_s
        } else {
            0
        };
        if age_s > max_age_s {
            return None;
        }
        self.last_signal_timestamp = sig.timestamp_s;
        Some(sig)
    }
}

/// What one status inquiry on the inbox file reports.
pub struct SignalFileStatus {
    pub file_exists: bool,
    pub file_size: u64,
    pub last_modified_ns: u64,
    pub last_processed_timestamp: u64,
    pub file_path: String,
}

impl SignalListener {
    /// Assembles the status report from what the file system said —
    /// size and mtime of the inbox, zero where it is missing — and the
    /// listener's own watermark.
    pub fn get_signal_file_status(&self, present: bool, file_size: u64, modified_ns: u64) -> (r:
        SignalFileStatus)
        ensures
            r.file_exists == present,
            r.file_size == if present {
                file_size
            } else {
                0u64
            },
            r.last_modified_ns == if present {
                modified_ns
            } else {
                0u64
            },
            r.last_processed_timestamp == self.last_signal_timestamp,
            r.file_path@ == self.signal_file_path@,
    {
        SignalFileStatus {
            file_exists: present,
            file_size: if present {
                file_size
            } else {
                0
            },
            last_modified_ns: if present {
                modified_ns
            } else {
                0
            },
            last_processed_timestamp: self.last_signal_timestamp,
            file_path: self.signal_file_path.clone(),
        }
    }
}

/// Re-polling an unchanged file admits nothing and moves nothing: the
/// listener is idempotent on a quiet inbox.
pub proof fn lemma_repoll_unchanged_is_noop(
    pre: SignalListener,
    f: FileSnapshot,
    now_s: u64,
    max_age_s: u64,
)
    requires
        pre.last_file_modified == Some(f.modified_ns),
    ensures
        !poll_admits(pre, Some(f), now_s, max_age_s),
        poll_state(pre, Some(f), now_s, max_age_s) == pre,
{
}

/// Two consecutive admissions never carry the same payload timestamp: the
/// second is strictly newer.
pub proof fn lemma_no_duplicate_admission(
    s0: SignalListener,
    snap1: Option<FileSnapshot>,
    now1: u64,
    snap2: Option<FileSnapshot>,
    now2: u64,
    max_age_s: u64,
)
    requires
        poll_admits(s0, snap1, now1, max_age_s),
        poll_admits(poll_state(s0, snap1, now1, max_age_s), snap2, now2, max_age_s),
    ensures
        signal_of(snap2->0.signal->0).timestamp_s > signal_of(snap1->0.signal->0).timestamp_s,
{
}

} // verus!
