use cdrs_bench::config::{effective_task_count, WorkloadMode};
use cdrs_bench::executor::{run_partition, run_task, task_ops, TaskOp, TaskOutcome};
use cdrs_bench::row::{build_row, row_matches, Row};
use cdrs_bench::store::MockStore;

#[test]
fn row_content_follows_the_formula() {
    let row = build_row(7);
    assert_eq!(row, Row { pk: 7, v1: 14, v2: 21 });
    assert!(row_matches(&row, 7));
    assert!(!row_matches(&row, 8));
    let big = build_row(1000000);
    assert_eq!(big, Row { pk: 1000000, v1: 2000000, v2: 3000000 });
}

#[test]
fn store_returns_the_latest_write() {
    let mut store = MockStore::new();
    assert!(store.get(7).is_none());
    store.upsert(Row { pk: 7, v1: 1, v2: 2 });
    store.upsert(Row { pk: 7, v1: 14, v2: 21 });
    store.upsert(Row { pk: 9, v1: 18, v2: 27 });
    let row = store.get(7).unwrap();
    assert_eq!((row.pk, row.v1, row.v2), (7, 14, 21));
    let row9 = store.get(9).unwrap();
    assert_eq!((row9.pk, row9.v1, row9.v2), (9, 18, 27));
    assert!(store.get(8).is_none());
}

#[test]
fn write_then_read_returns_the_written_values() {
    // A write of Row{pk:7, v1:14, v2:21} followed immediately by a read of
    // pk 7 against a fresh store.
    let mut store = MockStore::new();
    store.upsert(Row { pk: 7, v1: 14, v2: 21 });
    let row = store.get(7).unwrap();
    assert_eq!(row.v1, 14);
    assert_eq!(row.v2, 21);

    // The same through a whole mixed-mode task.
    let mut fresh = MockStore::new();
    let outcome = run_task(WorkloadMode::ReadsAndWrites, &mut fresh, 7, false, false);
    assert_eq!(outcome, TaskOutcome::Completed);
    let row = fresh.get(7).unwrap();
    assert_eq!((row.v1, row.v2), (14, 21));
}

#[test]
fn mixed_workload_runs_half_the_tasks_write_before_read() {
    // workload = mixed with tasks = 100: 50 effective tasks, each one
    // write followed by one read of the same pk.
    let tasks = effective_task_count(WorkloadMode::ReadsAndWrites, 100);
    assert_eq!(tasks, 50);
    for id in 0..tasks {
        let ops = task_ops(WorkloadMode::ReadsAndWrites, id);
        assert_eq!(
            ops,
            vec![
                TaskOp::Write(Row {
                    pk: id as i64,
                    v1: 2 * id as i64,
                    v2: 3 * id as i64,
                }),
                TaskOp::Read(id as i64),
            ]
        );
    }
}

#[test]
fn single_mode_tasks_do_one_operation() {
    assert_eq!(
        task_ops(WorkloadMode::Writes, 3),
        vec![TaskOp::Write(Row { pk: 3, v1: 6, v2: 9 })]
    );
    assert_eq!(task_ops(WorkloadMode::Reads, 3), vec![TaskOp::Read(3)]);
}

#[test]
fn request_error_on_one_task_does_not_stop_the_others() {
    // A forced request error on task 42 must not prevent tasks 0..=41 and
    // 43..=99 from completing.
    let ids: Vec<u64> = (0..100).collect();
    let mut fail_writes = vec![false; 100];
    fail_writes[42] = true;
    let fail_reads = vec![false; 100];
    let mut store = MockStore::new();
    let outcomes = run_partition(
        WorkloadMode::ReadsAndWrites,
        &mut store,
        &ids,
        &fail_writes,
        &fail_reads,
    );
    assert_eq!(outcomes.len(), 100);
    for (id, outcome) in outcomes.iter().enumerate() {
        if id == 42 {
            assert_eq!(*outcome, TaskOutcome::WriteFailed);
        } else {
            assert_eq!(*outcome, TaskOutcome::Completed);
        }
    }
    // Every task but 42 wrote its row; 42 was skipped.
    for id in 0..100i64 {
        if id == 42 {
            assert!(store.get(id).is_none());
        } else {
            let row = store.get(id).unwrap();
            assert_eq!((row.v1, row.v2), (2 * id, 3 * id));
        }
    }
}

#[test]
fn read_error_is_tolerated_and_classified() {
    let mut store = MockStore::new();
    let outcome = run_task(WorkloadMode::ReadsAndWrites, &mut store, 5, false, true);
    assert_eq!(outcome, TaskOutcome::ReadFailed);
    // The write still happened before the read failed.
    assert!(store.get(5).is_some());
}

#[test]
fn corrupted_row_is_a_verification_fault() {
    let mut store = MockStore::new();
    store.upsert(Row { pk: 5, v1: 10, v2: 16 });
    let outcome = run_task(WorkloadMode::Reads, &mut store, 5, false, false);
    assert_eq!(outcome, TaskOutcome::VerificationFault);
}

#[test]
fn reading_an_absent_row_is_not_a_fault() {
    let mut store = MockStore::new();
    let outcome = run_task(WorkloadMode::Reads, &mut store, 5, false, false);
    assert_eq!(outcome, TaskOutcome::Completed);
}
