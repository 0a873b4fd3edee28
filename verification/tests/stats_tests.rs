use hydra_core::stats::HydraStats;
use hydra_core::stats::REPORT_INTERVAL_SECS;

#[test]
fn fresh_collector_is_zeroed() {
    let stats = HydraStats::new(500);
    assert_eq!(stats.total_attempts(), 0);
    assert_eq!(stats.total_successes(), 0);
    let snap = stats.snapshot(500);
    assert_eq!(snap.attempts, 0);
    assert_eq!(snap.successes, 0);
    assert_eq!(snap.elapsed_ms, 0);
}

#[test]
fn counters_increment_independently() {
    let mut stats = HydraStats::new(0);
    stats.record_attempt();
    stats.record_attempt();
    stats.record_attempt();
    stats.record_success();
    assert_eq!(stats.total_attempts(), 3);
    assert_eq!(stats.total_successes(), 1);
}

#[test]
fn snapshot_reports_elapsed_from_start() {
    let mut stats = HydraStats::new(2_000);
    stats.record_attempt();
    let snap = stats.snapshot(7_500);
    assert_eq!(snap.attempts, 1);
    assert_eq!(snap.successes, 0);
    assert_eq!(snap.elapsed_ms, 5_500);
}

#[test]
fn snapshot_successes_bounded_by_attempts() {
    let mut stats = HydraStats::new(0);
    for _ in 0..10 {
        stats.record_attempt();
        stats.record_success();
        let snap = stats.snapshot(1);
        assert!(snap.successes <= snap.attempts);
    }
}

#[test]
fn elapsed_is_non_decreasing_across_snapshots() {
    let mut stats = HydraStats::new(100);
    let mut last_elapsed = 0u64;
    for now in [100u64, 150, 150, 900, 4_000] {
        stats.record_attempt();
        let snap = stats.snapshot(now);
        assert!(snap.elapsed_ms >= last_elapsed);
        last_elapsed = snap.elapsed_ms;
    }
}

#[test]
fn progress_rate_is_attempts_per_second_in_hundredths() {
    let mut stats = HydraStats::new(0);
    for _ in 0..7 {
        stats.record_attempt();
    }
    let rep = stats.progress_report(2_000);
    assert_eq!(rep.attempts, 7);
    assert_eq!(rep.elapsed_secs, 2);
    // 7 attempts over 2 seconds: 3.50 attempts/sec.
    assert_eq!(rep.rate_centi_per_sec, 350);
}

#[test]
fn progress_rate_is_zero_before_one_second() {
    let mut stats = HydraStats::new(0);
    stats.record_attempt();
    let rep = stats.progress_report(999);
    assert_eq!(rep.elapsed_secs, 0);
    assert_eq!(rep.rate_centi_per_sec, 0);
}

#[test]
fn report_interval_is_five_seconds() {
    assert_eq!(REPORT_INTERVAL_SECS, 5);
}
