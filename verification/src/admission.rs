//! Admission control: bounding in-flight schedulable units to the
//! configured concurrency.
//!
//! In the thread-per-unit runner the bound is implicit (exactly
//! `concurrency` threads exist). In the batched runner an explicit
//! counting semaphore must be acquired before a batch is dispatched and
//! released when it completes, and the run may be declared complete only
//! once every permit has returned.

use vstd::prelude::*;

verus! {

/// A counting semaphore: at most `capacity` units are in flight at once.
pub struct Admission {
    pub capacity: u64,
    pub in_flight: u64,
}

/// The semaphore invariant: in-flight work never exceeds the capacity.
pub open spec fn admission_wf(a: Admission) -> bool {
    a.in_flight <= a.capacity
}

/// One event the semaphore sees: a dispatch attempt or a completed unit.
#[derive(Clone, Copy, Debug, PartialEq, Eq, Structural)]
pub enum AdmissionEvent {
    Acquire,
    Release,
}

/// The in-flight count after one event: an acquire succeeds only below
/// capacity, a release only returns an outstanding permit.
pub open spec fn spec_admission_step(a: Admission, e: AdmissionEvent) -> Admission {
    match e {
        AdmissionEvent::Acquire => if a.in_flight < a.capacity {
            Admission { in_flight: (a.in_flight + 1) as u64, ..a }
        } else {
            a
        },
        AdmissionEvent::Release => if a.in_flight > 0 {
            Admission { in_flight: (a.in_flight - 1) as u64, ..a }
        } else {
            a
        },
    }
}

/// The semaphore state once a whole sequence of events has been applied.
pub open spec fn admission_after(a: Admission, es: Seq<AdmissionEvent>) -> Admission
    decreases es.len(),
{
    if es.len() == 0 {
        a
    } else {
        spec_admission_step(admission_after(a, es.drop_last()), es.last())
    }
}

impl Admission {
    /// A fresh semaphore with `capacity` permits and nothing in flight.
    pub fn new(capacity: u64) -> (r: Admission)
        ensures
            r.capacity == capacity,
            r.in_flight == 0,
            admission_wf(r),
    {
        Admission { capacity, in_flight: 0 }
    }

    /// Admits one unit if a permit is free; refuses (changing nothing)
    /// when `capacity` units are already in flight.
    pub fn try_acquire(&mut self) -> (r: bool)
        ensures
            *final(self) == spec_admission_step(*old(self), AdmissionEvent::Acquire),
            r == (old(self).in_flight < old(self).capacity),
            admission_wf(*old(self)) ==> admission_wf(*final(self)),
    {
        if self.in_flight < self.capacity {
            self.in_flight = self.in_flight + 1;
            true
        } else {
            false
        }
    }

    /// Returns the permit of a completed unit.
    pub fn release(&mut self)
        requires
            old(self).in_flight > 0,
        ensures
            *final(self) == spec_admission_step(*old(self), AdmissionEvent::Release),
            final(self).in_flight == old(self).in_flight - 1,
            final(self).capacity == old(self).capacity,
    {
        self.in_flight = self.in_flight - 1;
    }

    /// Whether every admitted unit has completed: only then may the run
    /// be declared complete.
    pub fn drained(&self) -> (r: bool)
        ensures
            r == (self.in_flight == 0),
    {
        self.in_flight == 0
    }
}

/// Admission control bounds concurrency: starting from a fresh semaphore,
/// whatever sequence of dispatch attempts and completions occurs and in
/// whatever order, the number of units in flight never exceeds the
/// capacity, and the capacity never changes.
pub proof fn lemma_admission_bounded(a0: Admission, es: Seq<AdmissionEvent>)
    requires
        admission_wf(a0),
    ensures
        admission_wf(admission_after(a0, es)),
        admission_after(a0, es).capacity == a0.capacity,
    decreases es.len(),
{
    if es.len() == 0 {
    } else {
        lemma_admission_bounded(a0, es.drop_last());
    }
}

} // verus!
