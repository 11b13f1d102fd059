use cdrs_bench::progress::{percent, Progress};

#[test]
fn percent_is_rounded_down_and_bounded() {
    assert_eq!(percent(0, 1000), 0);
    assert_eq!(percent(5, 1000), 0);
    assert_eq!(percent(10, 1000), 1);
    assert_eq!(percent(999, 1000), 99);
    assert_eq!(percent(1000, 1000), 100);
    assert_eq!(percent(1, 3), 33);
    assert_eq!(percent(u64::MAX, u64::MAX), 100);
}

#[test]
fn first_observation_reports_zero_percent() {
    let mut progress = Progress::new();
    assert_eq!(progress.observe(0, 100), Some(0));
    assert_eq!(progress.observe(0, 100), None);
}

#[test]
fn duplicate_percents_are_reported_once() {
    let mut progress = Progress::new();
    assert_eq!(progress.observe(10, 100), Some(10));
    assert_eq!(progress.observe(10, 100), None);
    assert_eq!(progress.observe(10, 100), None);
    assert_eq!(progress.observe(11, 100), Some(11));
}

#[test]
fn stale_observations_never_report_backwards() {
    let mut progress = Progress::new();
    assert_eq!(progress.observe(60, 100), Some(60));
    // A unit that computed its percent before the one above reported.
    assert_eq!(progress.observe(50, 100), None);
    assert_eq!(progress.observe(70, 100), Some(70));
}

/// Simulates `concurrency` units completing tasks in an adversarial
/// interleaving: each unit observes the shared completed counter some
/// steps late, so stale and duplicate observations reach the reporter.
/// Whatever the interleaving, the emitted reports must be strictly
/// increasing (hence non-decreasing over time).
fn reports_of_interleaved_run(concurrency: u64) -> Vec<u64> {
    let total: u64 = 1000;
    let mut progress = Progress::new();
    let mut reports: Vec<u64> = Vec::new();
    for completed in 1..=total {
        // The unit that just finished sees the up-to-date count...
        if let Some(p) = progress.observe(completed, total) {
            reports.push(p);
        }
        // ...while another unit reports a count it read before up to
        // `concurrency` other completions landed.
        let stale = completed.saturating_sub(completed % (concurrency + 1));
        if stale > 0 {
            if let Some(p) = progress.observe(stale, total) {
                reports.push(p);
            }
        }
    }
    reports
}

#[test]
fn reports_are_non_decreasing_for_each_concurrency() {
    for concurrency in [1u64, 8, 256] {
        let reports = reports_of_interleaved_run(concurrency);
        assert!(!reports.is_empty());
        for pair in reports.windows(2) {
            assert!(
                pair[0] < pair[1],
                "progress went backwards at concurrency {}: {} then {}",
                concurrency,
                pair[0],
                pair[1]
            );
        }
        assert_eq!(*reports.last().unwrap(), 100);
    }
}
