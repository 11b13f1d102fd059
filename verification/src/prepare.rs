//! The statement-preparation coordinator.
//!
//! A round-robin load-balancing policy may route any execution to any
//! node, and the driver does not broadcast a prepare across the cluster;
//! so before a prepared statement may be executed, `prepare` must have
//! been issued once per node the policy can route to — `node_count` times
//! in all, once per statement per run. All handles but the last are
//! discarded, since every node returns an equivalent handle for the same
//! statement text.

use vstd::prelude::*;

verus! {

/// Tracks how many prepare calls a statement still needs before
/// round-robin execution is safe.
pub struct PrepCoordinator {
    pub node_count: u64,
    pub issued: u64,
}

impl PrepCoordinator {
    /// A statement not yet prepared anywhere, for a policy that can route
    /// to `node_count` nodes.
    pub fn new(node_count: u64) -> (r: PrepCoordinator)
        ensures
            r.node_count == node_count,
            r.issued == 0,
    {
        PrepCoordinator { node_count, issued: 0 }
    }

    /// Whether another prepare call must be issued before the statement
    /// may be executed.
    pub fn needs_prepare(&self) -> (r: bool)
        ensures
            r == (self.issued < self.node_count),
    {
        self.issued < self.node_count
    }

    /// Records one issued prepare call.
    pub fn record_prepare(&mut self)
        requires
            old(self).issued < old(self).node_count,
        ensures
            final(self).issued == old(self).issued + 1,
            final(self).node_count == old(self).node_count,
    {
        self.issued = self.issued + 1;
    }

    /// Whether the statement is prepared on every node the policy can
    /// route to, so execution may begin.
    pub fn ready(&self) -> (r: bool)
        ensures
            r == (self.issued >= self.node_count),
    {
        self.issued >= self.node_count
    }
}

/// Driving a fresh coordinator until it stops demanding prepare calls
/// issues exactly `node_count` of them — no fewer, since it is not ready
/// before, and no more, since it demands none once ready. This is the
/// loop the run performs per statement, with the driver call left to the
/// caller.
pub fn prepare_call_count(node_count: u64) -> (r: u64)
    ensures
        r == node_count,
{
    let mut coordinator = PrepCoordinator::new(node_count);
    let mut count: u64 = 0;
    while coordinator.needs_prepare()
        invariant
            coordinator.node_count == node_count,
            coordinator.issued <= node_count,
            count == coordinator.issued,
        decreases node_count - coordinator.issued,
    {
        coordinator.record_prepare();
        count = count + 1;
    }
    count
}

} // verus!
