//! Per-task execution: build the row, issue the write and/or the read,
//! verify what a read returns, and classify the outcome. A transient
//! request error makes the task skip the rest of its work and the run
//! continue; a read that returns wrong content is a verification fault, a
//! correctness problem distinguishable from any transient error.

use vstd::prelude::*;
use crate::config::{spec_does_reads, spec_does_writes, workload_does_reads, workload_does_writes,
    WorkloadMode};
use crate::row::{build_row, id_in_i64_range, row_for, row_matches, Row};
use crate::store::MockStore;

verus! {

/// How one task ended.
#[derive(Clone, Copy, Debug, PartialEq, Eq, Structural)]
pub enum TaskOutcome {
    /// Every enabled operation succeeded and every returned row verified.
    Completed,
    /// The insert failed with a transient request error; the task was
    /// skipped and the run went on.
    WriteFailed,
    /// The point lookup failed with a transient request error; tolerated,
    /// since the written row may not be visible yet.
    ReadFailed,
    /// A read returned a row that contradicts the deterministic formula:
    /// fatal for the run.
    VerificationFault,
}

/// One operation of a task's plan.
#[derive(Clone, Copy, Debug, PartialEq, Eq, Structural)]
pub enum TaskOp {
    Write(Row),
    Read(i64),
}

/// The operations task `id` performs, in order: in `ReadsAndWrites` mode
/// one write followed by one read of the same `pk`.
pub fn task_ops(mode: WorkloadMode, id: u64) -> (r: Vec<TaskOp>)
    requires
        id_in_i64_range(id),
    ensures
        mode is Writes ==> r@ == seq![TaskOp::Write(row_for(id))],
        mode is Reads ==> r@ == seq![TaskOp::Read(id as i64)],
        mode is ReadsAndWrites ==> r@ == seq![
            TaskOp::Write(row_for(id)),
            TaskOp::Read(id as i64),
        ],
{
    let mut r: Vec<TaskOp> = Vec::new();
    if workload_does_writes(mode) {
        r.push(TaskOp::Write(build_row(id)));
    }
    if workload_does_reads(mode) {
        r.push(TaskOp::Read(id as i64));
    }
    proof {
        if mode is Writes {
            assert(r@ =~= seq![TaskOp::Write(row_for(id))]);
        }
        if mode is Reads {
            assert(r@ =~= seq![TaskOp::Read(id as i64)]);
        }
        if mode is ReadsAndWrites {
            assert(r@ =~= seq![TaskOp::Write(row_for(id)), TaskOp::Read(id as i64)]);
        }
    }
    r
}

/// The store after task `id`'s write, if the mode writes at all.
pub open spec fn spec_write_map(
    mode: WorkloadMode,
    m: Map<i64, (i64, i64)>,
    id: u64,
) -> Map<i64, (i64, i64)> {
    if spec_does_writes(mode) {
        m.insert(row_for(id).pk, (row_for(id).v1, row_for(id).v2))
    } else {
        m
    }
}

/// How task `id` ends against table contents `m`, with a transient error
/// injected into its write and/or its read.
pub open spec fn spec_task_outcome(
    mode: WorkloadMode,
    m: Map<i64, (i64, i64)>,
    id: u64,
    fail_write: bool,
    fail_read: bool,
) -> TaskOutcome {
    if spec_does_writes(mode) && fail_write {
        TaskOutcome::WriteFailed
    } else {
        let m2 = spec_write_map(mode, m, id);
        if spec_does_reads(mode) {
            if fail_read {
                TaskOutcome::ReadFailed
            } else if m2.contains_key(id as i64) && m2[id as i64] != (
                row_for(id).v1,
                row_for(id).v2,
            ) {
                TaskOutcome::VerificationFault
            } else {
                TaskOutcome::Completed
            }
        } else {
            TaskOutcome::Completed
        }
    }
}

/// Runs one task against the store. `fail_write` / `fail_read` stand for
/// a transient request error of the corresponding operation, as a failing
/// client would produce it.
pub fn run_task(
    mode: WorkloadMode,
    store: &mut MockStore,
    id: u64,
    fail_write: bool,
    fail_read: bool,
) -> (r: TaskOutcome)
    requires
        id_in_i64_range(id),
    ensures
        final(store)@ == (if spec_does_writes(mode) && !fail_write {
            spec_write_map(mode, old(store)@, id)
        } else {
            old(store)@
        }),
        r == spec_task_outcome(mode, old(store)@, id, fail_write, fail_read),
{
    if workload_does_writes(mode) {
        if fail_write {
            return TaskOutcome::WriteFailed;
        }
        store.upsert(build_row(id));
    }
    if workload_does_reads(mode) {
        if fail_read {
            return TaskOutcome::ReadFailed;
        }
        match store.get(id as i64) {
            Some(found) => {
                if !row_matches(&found, id) {
                    return TaskOutcome::VerificationFault;
                }
            },
            None => {},
        }
    }
    TaskOutcome::Completed
}

/// The table after a unit has drained the tasks `ids`, with the writes at
/// the marked positions failing.
pub open spec fn store_after(
    mode: WorkloadMode,
    m0: Map<i64, (i64, i64)>,
    ids: Seq<u64>,
    fail_writes: Seq<bool>,
) -> Map<i64, (i64, i64)>
    decreases ids.len(),
{
    if ids.len() == 0 {
        m0
    } else {
        let prev = store_after(mode, m0, ids.drop_last(), fail_writes.drop_last());
        if fail_writes.last() {
            prev
        } else {
            spec_write_map(mode, prev, ids.last())
        }
    }
}

/// How the task at position `k` of a unit's partition ends, given the
/// injected failures of the whole run.
pub open spec fn spec_outcome_at(
    mode: WorkloadMode,
    m0: Map<i64, (i64, i64)>,
    ids: Seq<u64>,
    fail_writes: Seq<bool>,
    fail_reads: Seq<bool>,
    k: int,
) -> TaskOutcome {
    spec_task_outcome(
        mode,
        store_after(mode, m0, ids.take(k), fail_writes.take(k)),
        ids[k],
        fail_writes[k],
        fail_reads[k],
    )
}

/// Drains a partition in order, one task at a time. A task whose request
/// fails is skipped and never aborts the unit: every later task still
/// runs, and its outcome is recorded at its own position.
pub fn run_partition(
    mode: WorkloadMode,
    store: &mut MockStore,
    ids: &Vec<u64>,
    fail_writes: &Vec<bool>,
    fail_reads: &Vec<bool>,
) -> (outcomes: Vec<TaskOutcome>)
    requires
        fail_writes@.len() == ids@.len(),
        fail_reads@.len() == ids@.len(),
        forall|k: int| 0 <= k < ids@.len() ==> id_in_i64_range(#[trigger] ids@[k]),
    ensures
        outcomes@.len() == ids@.len(),
        final(store)@ == store_after(mode, old(store)@, ids@, fail_writes@),
        forall|k: int|
            0 <= k < ids@.len() ==> outcomes@[k] == spec_outcome_at(
                mode,
                old(store)@,
                ids@,
                fail_writes@,
                fail_reads@,
                k,
            ),
{
    let ghost m0 = store@;
    let mut outcomes: Vec<TaskOutcome> = Vec::new();
    let mut i: usize = 0;
    while i < ids.len()
        invariant
            i <= ids@.len(),
            outcomes@.len() == i,
            fail_writes@.len() == ids@.len(),
            fail_reads@.len() == ids@.len(),
            forall|k: int| 0 <= k < ids@.len() ==> id_in_i64_range(#[trigger] ids@[k]),
            store@ == store_after(mode, m0, ids@.take(i as int), fail_writes@.take(i as int)),
            forall|k: int|
                0 <= k < i ==> outcomes@[k] == spec_outcome_at(
                    mode,
                    m0,
                    ids@,
                    fail_writes@,
                    fail_reads@,
                    k,
                ),
        decreases ids@.len() - i,
    {
        let outcome = run_task(mode, store, ids[i], fail_writes[i], fail_reads[i]);
        outcomes.push(outcome);
        proof {
            assert(ids@.take(i + 1).drop_last() =~= ids@.take(i as int));
            assert(fail_writes@.take(i + 1).drop_last() =~= fail_writes@.take(i as int));
            assert(ids@.take(i + 1).last() == ids@[i as int]);
        }
        i = i + 1;
    }
    proof {
        assert(ids@.take(ids@.len() as int) =~= ids@);
        assert(fail_writes@.take(ids@.len() as int) =~= fail_writes@);
    }
    outcomes
}

/// A write of the row for `id` followed immediately by a read of the same
/// key verifies: against any prior table contents, a task of a mode that
/// both writes and reads, with no injected failure, completes and never
/// raises a verification fault.
pub proof fn lemma_write_then_read_verifies(mode: WorkloadMode, m: Map<i64, (i64, i64)>, id: u64)
    requires
        id_in_i64_range(id),
        spec_does_writes(mode),
        spec_does_reads(mode),
    ensures
        spec_task_outcome(mode, m, id, false, false) == TaskOutcome::Completed,
{
}

/// The table a run leaves behind agrees with the initial table on every
/// key that no task of the run wrote.
proof fn lemma_store_after_other_key(
    mode: WorkloadMode,
    m0: Map<i64, (i64, i64)>,
    ids: Seq<u64>,
    fail_writes: Seq<bool>,
    pk: i64,
)
    requires
        fail_writes.len() == ids.len(),
        forall|i: int| 0 <= i < ids.len() ==> row_for(#[trigger] ids[i]).pk != pk,
    ensures
        store_after(mode, m0, ids, fail_writes).contains_key(pk) == m0.contains_key(pk),
        m0.contains_key(pk) ==> store_after(mode, m0, ids, fail_writes)[pk] == m0[pk],
    decreases ids.len(),
{
    if ids.len() > 0 {
        lemma_store_after_other_key(mode, m0, ids.drop_last(), fail_writes.drop_last(), pk);
    }
}

/// What one task does is decided by that task alone: in a properly
/// partitioned run (no task id appears twice), the outcome at position `k`
/// is a function of the initial table, the task's own id, and the failures
/// injected into that task itself — the failures and writes of every other
/// task leave it untouched.
pub proof fn lemma_task_outcome_isolated(
    mode: WorkloadMode,
    m0: Map<i64, (i64, i64)>,
    ids: Seq<u64>,
    fail_writes: Seq<bool>,
    fail_reads: Seq<bool>,
    k: int,
)
    requires
        fail_writes.len() == ids.len(),
        fail_reads.len() == ids.len(),
        0 <= k < ids.len(),
        forall|i: int| 0 <= i < ids.len() ==> id_in_i64_range(#[trigger] ids[i]),
        forall|i: int, j: int| 0 <= i < j < ids.len() ==> ids[i] != ids[j],
    ensures
        spec_outcome_at(mode, m0, ids, fail_writes, fail_reads, k) == spec_task_outcome(
            mode,
            m0,
            ids[k],
            fail_writes[k],
            fail_reads[k],
        ),
{
    let prefix_ids = ids.take(k);
    let prefix_fw = fail_writes.take(k);
    let pk = row_for(ids[k]).pk;
    assert forall|i: int| 0 <= i < prefix_ids.len() implies row_for(
        #[trigger] prefix_ids[i],
    ).pk != pk by {
        assert(ids[i] != ids[k]);
        assert(id_in_i64_range(ids[i]) && id_in_i64_range(ids[k]));
    }
    lemma_store_after_other_key(mode, m0, prefix_ids, prefix_fw, pk);
    let mp = store_after(mode, m0, prefix_ids, prefix_fw);
    if spec_does_writes(mode) && !fail_writes[k] {
        assert(spec_write_map(mode, mp, ids[k])[pk] == spec_write_map(mode, m0, ids[k])[pk]);
    }
}

/// A forced request error on one task never prevents the other tasks of
/// the run from completing: if every task id is distinct and failures are
/// injected only at position `f`, every other position ends exactly as it
/// would in a run with no failures at all.
pub proof fn lemma_request_error_does_not_spread(
    mode: WorkloadMode,
    m0: Map<i64, (i64, i64)>,
    ids: Seq<u64>,
    fail_writes: Seq<bool>,
    fail_reads: Seq<bool>,
    f: int,
    k: int,
)
    requires
        fail_writes.len() == ids.len(),
        fail_reads.len() == ids.len(),
        0 <= k < ids.len(),
        k != f,
        forall|i: int| 0 <= i < ids.len() && i != f ==> !fail_writes[i] && !fail_reads[i],
        forall|i: int| 0 <= i < ids.len() ==> id_in_i64_range(#[trigger] ids[i]),
        forall|i: int, j: int| 0 <= i < j < ids.len() ==> ids[i] != ids[j],
    ensures
        spec_outcome_at(mode, m0, ids, fail_writes, fail_reads, k) == spec_outcome_at(
            mode,
            m0,
            ids,
            Seq::new(ids.len(), |i: int| false),
            Seq::new(ids.len(), |i: int| false),
            k,
        ),
{
    lemma_task_outcome_isolated(mode, m0, ids, fail_writes, fail_reads, k);
    lemma_task_outcome_isolated(
        mode,
        m0,
        ids,
        Seq::new(ids.len(), |i: int| false),
        Seq::new(ids.len(), |i: int| false),
        k,
    );
}

} // verus!
