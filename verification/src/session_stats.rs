//! Rolling performance counters and their two-sample snapshot.
//!
//! `CountersAggregator` accumulates monotonic counters and gauges in one
//! densely indexed array of signed 64-bit values. Every stats pull returns
//! the current array together with the array of the previous pull and both
//! timestamps, so a consumer can compute rates without the aggregator
//! tracking any rate state itself.

use vstd::prelude::*;

use crate::metrics::Metrics;
use crate::metrics::NUM_METRICS;

verus! {

/// The abstract content of a counters aggregator: the live array, the array
/// as it was handed out by the previous pull, and that pull's timestamp.
pub struct CountersView {
    pub cur: Seq<i64>,
    pub prev: Seq<i64>,
    pub prev_timestamp: int,
}

/// The abstract content of a two-sample snapshot.
pub struct StatsSnapshotView {
    pub stats: Seq<i64>,
    pub timestamp: int,
    pub prev_stats: Seq<i64>,
    pub prev_timestamp: int,
}

/// A pair of counter samples: the array at this pull and the array at the
/// previous pull, each with its timestamp.
#[derive(Debug)]
pub struct TwoSessionStats {
    pub stats: Vec<i64>,
    pub timestamp: i64,
    pub prev_stats: Vec<i64>,
    pub prev_timestamp: i64,
}

impl View for TwoSessionStats {
    type V = StatsSnapshotView;

    open spec fn view(&self) -> StatsSnapshotView {
        StatsSnapshotView {
            stats: self.stats@,
            timestamp: self.timestamp as int,
            prev_stats: self.prev_stats@,
            prev_timestamp: self.prev_timestamp as int,
        }
    }
}

impl Default for TwoSessionStats {
    /// An empty snapshot: no samples, both timestamps zero.
    fn default() -> (r: TwoSessionStats)
        ensures
            r.stats@.len() == 0,
            r.timestamp == 0,
            r.prev_stats@.len() == 0,
            r.prev_timestamp == 0,
    {
        TwoSessionStats { stats: Vec::new(), timestamp: 0, prev_stats: Vec::new(), prev_timestamp: 0 }
    }
}

/// The session-stats answer handed to callers.
#[derive(Debug)]
pub struct SessionStats {
    pub two_session_stats: TwoSessionStats,
}

impl Default for SessionStats {
    /// An empty answer around an empty snapshot.
    fn default() -> (r: SessionStats)
        ensures
            r.two_session_stats.stats@.len() == 0,
            r.two_session_stats.timestamp == 0,
            r.two_session_stats.prev_stats@.len() == 0,
            r.two_session_stats.prev_timestamp == 0,
    {
        SessionStats { two_session_stats: TwoSessionStats::default() }
    }
}

/// What a pull returns, as a function of the aggregator's state and the
/// pull's timestamp.
pub open spec fn pull_snapshot(v: CountersView, now: int) -> StatsSnapshotView {
    StatsSnapshotView {
        stats: v.cur,
        timestamp: now,
        prev_stats: v.prev,
        prev_timestamp: v.prev_timestamp,
    }
}

/// The aggregator's state after a pull: "previous" becomes what "current"
/// held at this pull; the live array itself is untouched.
pub open spec fn pull_post(v: CountersView, now: int) -> CountersView {
    CountersView { cur: v.cur, prev: v.cur, prev_timestamp: now }
}

/// `x + y` clamped to the `i64` range from above.
pub open spec fn saturating_add_i64(x: i64, y: i64) -> i64 {
    if x + y > i64::MAX {
        i64::MAX
    } else {
        (x + y) as i64
    }
}

/// Accumulates the session's performance counters and serves two-sample
/// snapshots. Monotonic counters are only ever incremented; gauges are
/// overwritten in place.
pub struct CountersAggregator {
    cur: Vec<i64>,
    prev: Vec<i64>,
    prev_timestamp: i64,
}

impl View for CountersAggregator {
    type V = CountersView;

    closed spec fn view(&self) -> CountersView {
        CountersView {
            cur: self.cur@,
            prev: self.prev@,
            prev_timestamp: self.prev_timestamp as int,
        }
    }
}

impl CountersAggregator {
    /// The counter arrays always hold exactly one slot per metric.
    pub proof fn lemma_wf_len(self)
        requires
            self.wf(),
        ensures
            self@.cur.len() == NUM_METRICS,
            self@.prev.len() == NUM_METRICS,
    {
    }

    /// Both arrays always hold exactly one slot per metric.
    pub closed spec fn wf(self) -> bool {
        &&& self.cur@.len() == NUM_METRICS
        &&& self.prev@.len() == NUM_METRICS
    }

    /// A fresh aggregator: every slot zero, previous timestamp zero.
    pub fn new() -> (r: CountersAggregator)
        ensures
            r.wf(),
            forall|i: int| 0 <= i < NUM_METRICS ==> r@.cur[i] == 0 && r@.prev[i] == 0,
            r@.prev_timestamp == 0,
    {
        let mut cur: Vec<i64> = Vec::new();
        let mut prev: Vec<i64> = Vec::new();
        let mut i: usize = 0;
        while i < NUM_METRICS
            invariant
                i <= NUM_METRICS,
                cur@.len() == i,
                prev@.len() == i,
                forall|j: int| 0 <= j < i ==> cur@[j] == 0 && prev@[j] == 0,
            decreases NUM_METRICS - i,
        {
            cur.push(0);
            prev.push(0);
            i = i + 1;
        }
        CountersAggregator { cur, prev, prev_timestamp: 0 }
    }

    /// Adds `amount` to a monotonic counter, clamping at the top of the
    /// `i64` range; no other slot and nothing of the previous sample moves.
    pub fn inc(&mut self, m: Metrics, amount: i64)
        requires
            old(self).wf(),
            amount >= 0,
        ensures
            final(self).wf(),
            final(self)@.cur.len() == old(self)@.cur.len(),
            final(self)@.cur == old(self)@.cur.update(
                m.index_spec() as int,
                saturating_add_i64(old(self)@.cur[m.index_spec() as int], amount),
            ),
            final(self)@.prev == old(self)@.prev,
            final(self)@.prev_timestamp == old(self)@.prev_timestamp,
    {
        let i = m.index();
        let v = self.cur[i];
        if v <= i64::MAX - amount {
            self.cur[i] = v + amount;
        } else {
            self.cur[i] = i64::MAX;
        }
    }

    /// Overwrites a gauge slot in place; no other slot and nothing of the
    /// previous sample moves.
    pub fn set_gauge(&mut self, m: Metrics, value: i64)
        requires
            old(self).wf(),
        ensures
            final(self).wf(),
            final(self)@.cur.len() == old(self)@.cur.len(),
            final(self)@.cur == old(self)@.cur.update(m.index_spec() as int, value),
            final(self)@.prev == old(self)@.prev,
            final(self)@.prev_timestamp == old(self)@.prev_timestamp,
    {
        let i = m.index();
        self.cur[i] = value;
    }

    /// The value currently held in a slot.
    pub fn get(&self, m: Metrics) -> (r: i64)
        requires
            self.wf(),
        ensures
            r == self@.cur[m.index_spec() as int],
    {
        self.cur[m.index()]
    }

    /// Serves a snapshot: the live array with `now`, paired with the array
    /// and timestamp of the previous pull. Afterwards "previous" is exactly
    /// what "current" held at this pull.
    pub fn pull(&mut self, now: i64) -> (snap: TwoSessionStats)
        requires
            old(self).wf(),
        ensures
            final(self).wf(),
            snap@ == pull_snapshot(old(self)@, now as int),
            final(self)@ == pull_post(old(self)@, now as int),
    {
        let stats = copy_counter_array(&self.cur);
        let prev_stats = copy_counter_array(&self.prev);
        let prev_timestamp = self.prev_timestamp;
        self.prev = copy_counter_array(&self.cur);
        self.prev_timestamp = now;
        let snap = TwoSessionStats { stats, timestamp: now, prev_stats, prev_timestamp };
        assert(snap@ =~= pull_snapshot(old(self)@, now as int));
        snap
    }
}

/// An element-for-element copy of a counter array.
fn copy_counter_array(v: &Vec<i64>) -> (r: Vec<i64>)
    ensures
        r@ == v@,
{
    let mut r: Vec<i64> = Vec::new();
    let mut i: usize = 0;
    while i < v.len()
        invariant
            i <= v@.len(),
            r@ == v@.subrange(0, i as int),
        decreases v@.len() - i,
    {
        r.push(v[i]);
        assert(r@ =~= v@.subrange(0, i + 1 as int));
        i = i + 1;
    }
    assert(r@ =~= v@);
    r
}

/// Law: snapshots are deterministic. Two consecutive pulls with no
/// intervening activity return identical current arrays, and the second
/// pull's previous sample equals its current sample, so every per-counter
/// delta of the second pull is zero.
pub proof fn lemma_counters_snapshot_determinism(v: CountersView, t1: int, t2: int)
    ensures
        ({
            let s1 = pull_snapshot(v, t1);
            let s2 = pull_snapshot(pull_post(v, t1), t2);
            &&& s2.stats == s1.stats
            &&& s2.prev_stats == s2.stats
            &&& s2.prev_timestamp == t1
            &&& forall|i: int|
                0 <= i < s2.stats.len() ==> s2.stats[i] - s2.prev_stats[i] == 0
        }),
{
}

} // verus!
