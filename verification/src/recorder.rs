//! Process-wide benchmark recorder for the request/response variant.
//!
//! Every request increments a request counter and a byte total, and the
//! first request to arrive sets the shared start timestamp, exactly once:
//! later requests leave it untouched. The benchmark summary is evaluated
//! once, at the reporting trigger: the request that brings the count to the
//! expected number yields the one summary of the bytes seen over the time
//! elapsed since the first request; no earlier or later request yields one.
//! The caller holds the recorder behind a serialized-access primitive and
//! feeds it one request at a time, so lost updates and duplicate timestamp
//! initialization cannot occur.

use crate::report::{make_summary, spec_summary, Summary};
use vstd::prelude::*;

verus! {

/// Shared benchmark state: request count, byte total, one-shot start time.
pub struct Recorder {
    /// Requests seen so far.
    pub count: u64,
    /// Bytes seen so far, over all requests (one-directional, no doubling).
    pub total_bytes: u64,
    /// Wall-clock milliseconds at the first request; set once, then kept.
    pub start_ms: Option<u64>,
    /// Request count at which the one summary is emitted.
    pub expected: u64,
}

/// What one recorded request tells the caller.
pub struct RecordOutcome {
    /// One-based index of this request.
    pub count: u64,
    /// Whether this request was the first event, the one that set the
    /// start timestamp.
    pub first_event: bool,
    /// The one summary, owed exactly at the request that reaches the
    /// expected count.
    pub summary: Option<Summary>,
}

impl Recorder {
    /// Internal invariant: the start timestamp exists exactly from the first
    /// recorded request on.
    pub open spec fn wf(self) -> bool {
        &&& 1 <= self.expected
        &&& (self.start_ms is Some <==> 1 <= self.count)
    }

    /// A fresh recorder: created empty, its start time not yet set.
    pub fn new(expected: u64) -> (r: Recorder)
        requires
            1 <= expected,
        ensures
            r.wf(),
            r.expected == expected,
            r.count == 0,
            r.total_bytes == 0,
            r.start_ms is None,
    {
        Recorder { count: 0, total_bytes: 0, start_ms: None, expected }
    }

    /// Record one request of `size` bytes observed at `now_ms`. The count
    /// and byte total grow by exactly this request; the start timestamp is
    /// set to `now_ms` if this is the first request and is never overwritten
    /// afterwards. The summary over the running totals is evaluated once, at
    /// the reporting trigger: it is returned if and only if this request is
    /// the one that brings the count to the expected number.
    pub fn record(&mut self, size: u64, now_ms: u64) -> (o: RecordOutcome)
        requires
            old(self).wf(),
            old(self).count < u64::MAX,
            old(self).total_bytes + size <= u64::MAX,
            old(self).start_ms matches Some(t) ==> t <= now_ms,
        ensures
            final(self).wf(),
            final(self).expected == old(self).expected,
            final(self).count == old(self).count + 1,
            final(self).total_bytes == old(self).total_bytes + size,
            old(self).start_ms is Some ==> final(self).start_ms == old(self).start_ms,
            old(self).start_ms is None ==> final(self).start_ms == Some(now_ms),
            o.count == final(self).count,
            o.first_event == (old(self).start_ms is None),
            o.summary == (if final(self).count == final(self).expected {
                Some(
                    spec_summary(
                        final(self).total_bytes,
                        (now_ms - final(self).start_ms->Some_0) as u64,
                    ),
                )
            } else {
                None::<Summary>
            }),
    {
        let first = self.start_ms.is_none();
        if first {
            self.start_ms = Some(now_ms);
        }
        self.count = self.count + 1;
        self.total_bytes = self.total_bytes + size;
        let summary = if self.count == self.expected {
            let start = match self.start_ms {
                Some(t) => t,
                None => 0,
            };
            Some(make_summary(self.total_bytes, now_ms - start))
        } else {
            None
        };
        RecordOutcome { count: self.count, first_event: first, summary }
    }
}

} // verus!
