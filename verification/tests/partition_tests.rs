use std::collections::HashSet;

use cdrs_bench::partition::{batch_bounds, batch_count, strided_tasks};

/// A mock executor that just records every task id it is handed.
struct RecordingExecutor {
    visited: HashSet<u64>,
    duplicates: u64,
}

impl RecordingExecutor {
    fn new() -> RecordingExecutor {
        RecordingExecutor {
            visited: HashSet::new(),
            duplicates: 0,
        }
    }

    fn run(&mut self, id: u64) {
        if !self.visited.insert(id) {
            self.duplicates += 1;
        }
    }
}

fn expect_exact_cover_strided(concurrency: u64, task_count: u64) {
    let mut recorder = RecordingExecutor::new();
    for unit in 0..concurrency {
        for id in strided_tasks(unit, concurrency, task_count) {
            recorder.run(id);
        }
    }
    assert_eq!(recorder.duplicates, 0, "a task id was assigned twice");
    assert_eq!(recorder.visited.len() as u64, task_count);
    for id in 0..task_count {
        assert!(recorder.visited.contains(&id), "task {} was never assigned", id);
    }
}

#[test]
fn strided_partition_covers_every_id_exactly_once() {
    expect_exact_cover_strided(1, 17);
    expect_exact_cover_strided(3, 100);
    expect_exact_cover_strided(8, 64);
    expect_exact_cover_strided(7, 1);
    expect_exact_cover_strided(100, 100);
    expect_exact_cover_strided(256, 1000);
}

#[test]
fn strided_partition_of_empty_task_space_is_empty() {
    for unit in 0..4 {
        assert!(strided_tasks(unit, 4, 0).is_empty());
    }
}

#[test]
fn strided_unit_owns_its_arithmetic_progression() {
    assert_eq!(strided_tasks(1, 3, 10), vec![1, 4, 7]);
    assert_eq!(strided_tasks(0, 3, 10), vec![0, 3, 6, 9]);
    assert_eq!(strided_tasks(2, 3, 10), vec![2, 5, 8]);
}

fn expect_exact_cover_batched(batch_size: u64, task_count: u64) {
    let mut recorder = RecordingExecutor::new();
    let batches = batch_count(task_count, batch_size);
    for index in 0..batches {
        let (begin, end) = batch_bounds(index, batch_size, task_count);
        for id in begin..end {
            recorder.run(id);
        }
    }
    assert_eq!(recorder.duplicates, 0, "a task id was assigned twice");
    assert_eq!(recorder.visited.len() as u64, task_count);
    for id in 0..task_count {
        assert!(recorder.visited.contains(&id), "task {} was never assigned", id);
    }
}

#[test]
fn batched_partition_covers_every_id_exactly_once() {
    expect_exact_cover_batched(256, 1000);
    expect_exact_cover_batched(256, 256);
    expect_exact_cover_batched(1, 17);
    expect_exact_cover_batched(10, 95);
    expect_exact_cover_batched(100, 7);
}

#[test]
fn batch_count_rounds_up() {
    assert_eq!(batch_count(1000, 256), 4);
    assert_eq!(batch_count(1024, 256), 4);
    assert_eq!(batch_count(1025, 256), 5);
    assert_eq!(batch_count(0, 256), 0);
    assert_eq!(batch_count(1, 256), 1);
}

#[test]
fn batch_bounds_clip_the_last_batch() {
    assert_eq!(batch_bounds(0, 256, 1000), (0, 256));
    assert_eq!(batch_bounds(3, 256, 1000), (768, 1000));
    assert_eq!(batch_bounds(0, 256, 100), (0, 100));
}
