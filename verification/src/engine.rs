//! The life of one run: `Configured → SchemaReady → Prepared → Executing
//! → Draining → Completed`, with the schema and statement steps optional,
//! and two terminal failures (`ConfigFailed`, `ConnectFailed`) that may
//! occur only before any execution. Mid-run request errors never move the
//! machine: there is no transition from `Executing` to a failure state,
//! and the run can only be declared complete once every unit has really
//! finished.

use vstd::prelude::*;
use crate::prepare::PrepCoordinator;

verus! {

/// Where a run stands.
#[derive(Clone, Copy, Debug, PartialEq, Eq, Structural)]
pub enum RunState {
    /// Flags parsed and accepted; nothing touched yet.
    Configured,
    /// Keyspace and table provisioned.
    SchemaReady,
    /// Every statement prepared on every node the policy routes to.
    Prepared,
    /// Units are draining their partitions.
    Executing,
    /// No new work is dispatched; waiting on outstanding units.
    Draining,
    /// Every unit finished and was joined.
    Completed,
    /// Conflicting or invalid flags: fatal, nothing was attempted.
    ConfigFailed,
    /// The cluster was unreachable: fatal, nothing was executed.
    ConnectFailed,
}

/// The run's state and how many concurrency units are still outstanding.
pub struct RunMachine {
    pub state: RunState,
    pub outstanding: u64,
}

impl RunMachine {
    /// A run whose configuration was accepted.
    pub fn new() -> (r: RunMachine)
        ensures
            r.state is Configured,
            r.outstanding == 0,
    {
        RunMachine { state: RunState::Configured, outstanding: 0 }
    }

    /// The configuration turned out invalid: terminal, before any I/O.
    pub fn fail_config(&mut self)
        requires
            old(self).state is Configured,
        ensures
            final(self).state is ConfigFailed,
            final(self).outstanding == old(self).outstanding,
    {
        self.state = RunState::ConfigFailed;
    }

    /// The cluster could not be reached: terminal, before any execution.
    pub fn fail_connect(&mut self)
        requires
            old(self).state is Configured,
        ensures
            final(self).state is ConnectFailed,
            final(self).outstanding == old(self).outstanding,
    {
        self.state = RunState::ConnectFailed;
    }

    /// Keyspace and table were provisioned.
    pub fn schema_ready(&mut self)
        requires
            old(self).state is Configured,
        ensures
            final(self).state is SchemaReady,
            final(self).outstanding == old(self).outstanding,
    {
        self.state = RunState::SchemaReady;
    }

    /// Statements are usable on every node: only a coordinator that has
    /// issued all its prepare calls admits this step.
    pub fn statements_prepared(&mut self, coordinator: &PrepCoordinator)
        requires
            old(self).state is Configured || old(self).state is SchemaReady,
            coordinator.issued >= coordinator.node_count,
        ensures
            final(self).state is Prepared,
            final(self).outstanding == old(self).outstanding,
    {
        self.state = RunState::Prepared;
    }

    /// `units` concurrency units were spawned, each owning its partition.
    pub fn begin_execution(&mut self, units: u64)
        requires
            old(self).state is Configured || old(self).state is SchemaReady || old(
                self,
            ).state is Prepared,
        ensures
            final(self).state is Executing,
            final(self).outstanding == units,
    {
        self.state = RunState::Executing;
        self.outstanding = units;
    }

    /// All work was dispatched; the run now only waits.
    pub fn begin_drain(&mut self)
        requires
            old(self).state is Executing,
        ensures
            final(self).state is Draining,
            final(self).outstanding == old(self).outstanding,
    {
        self.state = RunState::Draining;
    }

    /// One unit ran to completion and was joined.
    pub fn unit_completed(&mut self)
        requires
            old(self).state is Executing || old(self).state is Draining,
            old(self).outstanding > 0,
        ensures
            final(self).state == old(self).state,
            final(self).outstanding == old(self).outstanding - 1,
    {
        self.outstanding = self.outstanding - 1;
    }

    /// Declares the run complete. Only a drained run admits this: a run
    /// with any unit outstanding cannot report completion.
    pub fn finish(&mut self)
        requires
            old(self).state is Draining,
            old(self).outstanding == 0,
        ensures
            final(self).state is Completed,
            final(self).outstanding == 0,
    {
        self.state = RunState::Completed;
    }
}

} // verus!
