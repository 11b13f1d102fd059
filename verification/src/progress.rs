//! Monotonic percent-complete reporting.
//!
//! One `Progress` value exists per run. Every unit routes its observations
//! through it (under the run's lock, or from a single owning reporter), so
//! a report is emitted only when the percent grew past the last reported
//! value: reports never go backwards and never repeat.

use vstd::prelude::*;
use vstd::arithmetic::div_mod::{lemma_div_is_ordered, lemma_div_multiples_vanish};

verus! {

/// Percent complete, rounded down.
pub open spec fn spec_percent(completed: u64, total: u64) -> int {
    100 * (completed as int) / (total as int)
}

/// The last-reported value after one observation of percent `p`.
pub open spec fn spec_observe_last(last: int, p: int) -> int {
    if p > last {
        p
    } else {
        last
    }
}

/// The last-reported value after a whole sequence of observations.
pub open spec fn last_after(last0: int, ps: Seq<int>) -> int
    decreases ps.len(),
{
    if ps.len() == 0 {
        last0
    } else {
        spec_observe_last(last_after(last0, ps.drop_last()), ps.last())
    }
}

/// The percents actually emitted over a sequence of observations, in
/// emission order.
pub open spec fn reports_of(last0: int, ps: Seq<int>) -> Seq<int>
    decreases ps.len(),
{
    if ps.len() == 0 {
        Seq::empty()
    } else {
        let prev = reports_of(last0, ps.drop_last());
        if ps.last() > last_after(last0, ps.drop_last()) {
            prev.push(ps.last())
        } else {
            prev
        }
    }
}

/// The shared progress state of a run: the last percent written out.
/// A fresh run has reported nothing, so even 0% is emitted once.
pub struct Progress {
    pub last: i64,
}

impl Progress {
    /// A run that has reported nothing yet.
    pub fn new() -> (r: Progress)
        ensures
            r.last == -1,
    {
        Progress { last: -1 }
    }

    /// Computes `100 * completed / total` and emits it if it exceeds the
    /// last reported percent; duplicate or stale observations emit
    /// nothing and leave the state unchanged.
    pub fn observe(&mut self, completed: u64, total: u64) -> (r: Option<u64>)
        requires
            0 < total,
            completed <= total,
        ensures
            ({
                let p = spec_percent(completed, total);
                &&& final(self).last == spec_observe_last(old(self).last as int, p)
                &&& (p > old(self).last ==> r == Some(p as u64))
                &&& (p <= old(self).last ==> r is None && *final(self) == *old(self))
                &&& final(self).last >= old(self).last
            }),
    {
        let p = percent(completed, total);
        if self.last < 0 || p > self.last as u64 {
            self.last = p as i64;
            Some(p)
        } else {
            None
        }
    }
}

/// `100 * completed / total`, rounded down; at most 100.
pub fn percent(completed: u64, total: u64) -> (r: u64)
    requires
        0 < total,
        completed <= total,
    ensures
        r == spec_percent(completed, total),
        r <= 100,
{
    let p = (100u128 * (completed as u128)) / (total as u128);
    proof {
        lemma_div_is_ordered(100 * completed as int, 100 * total as int, total as int);
        lemma_div_multiples_vanish(100, total as int);
    }
    p as u64
}

/// Progress reports are strictly increasing over time: whatever completed
/// counts the units observe and in whatever interleaving, an emitted
/// percent is always greater than every percent emitted before it, so
/// progress is never reported out of order and never repeated.
pub proof fn lemma_progress_reports_increasing(last0: int, ps: Seq<int>)
    ensures
        last_after(last0, ps) >= last0,
        forall|i: int|
            0 <= i < reports_of(last0, ps).len() ==> reports_of(last0, ps)[i] <= last_after(
                last0,
                ps,
            ),
        forall|i: int, j: int|
            0 <= i < j < reports_of(last0, ps).len() ==> reports_of(last0, ps)[i] < reports_of(
                last0,
                ps,
            )[j],
    decreases ps.len(),
{
    if ps.len() == 0 {
    } else {
        let prefix = ps.drop_last();
        lemma_progress_reports_increasing(last0, prefix);
        assert(last_after(last0, ps) >= last_after(last0, prefix));
        if ps.last() > last_after(last0, prefix) {
            let prev = reports_of(last0, prefix);
            assert(forall|i: int| 0 <= i < prev.len() ==> prev[i] == reports_of(last0, ps)[i]);
            assert(reports_of(last0, ps)[prev.len() as int] == ps.last());
        }
    }
}

} // verus!
