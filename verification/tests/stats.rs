use benchy::stats::{compute_stats, sort_latencies};

#[test]
fn empty_series_is_all_zero() {
    // N=0: no requests dispatched, every reported value is a defined zero.
    let series: Vec<u64> = Vec::new();
    let s = compute_stats(&series);
    assert_eq!(s.avg, 0);
    assert_eq!(s.p50, 0);
    assert_eq!(s.p95, 0);
    assert_eq!(s.p99, 0);
}

#[test]
fn uniform_latency_collapses_percentiles() {
    // 100 requests all completing in the same latency d: every percentile
    // and the average report d.
    let d: u64 = 42_000_000;
    let mut series = vec![d; 100];
    sort_latencies(&mut series);
    let s = compute_stats(&series);
    assert_eq!(s.p50, d);
    assert_eq!(s.p95, d);
    assert_eq!(s.p99, d);
    assert_eq!(s.avg, d);
}

#[test]
fn exact_ranks_and_average() {
    // L = 4: p50 = series[2], p95 = series[4*95/100] = series[3],
    // p99 = series[3], avg = 10/4 = 2 (truncated).
    let series = vec![1, 2, 3, 4];
    let s = compute_stats(&series);
    assert_eq!(s.p50, 3);
    assert_eq!(s.p95, 4);
    assert_eq!(s.p99, 4);
    assert_eq!(s.avg, 2);
}

#[test]
fn percentiles_ordered_on_sorted_series() {
    let mut series = vec![90, 5, 30, 12, 77, 3, 41, 55, 8, 61, 23, 17];
    sort_latencies(&mut series);
    let s = compute_stats(&series);
    assert!(s.p50 <= s.p95);
    assert!(s.p95 <= s.p99);
    assert!(series[0] <= s.avg);
    assert!(s.avg <= series[series.len() - 1]);
}

#[test]
fn stats_are_idempotent() {
    // A pure function: computing twice over one sorted series gives
    // identical results.
    let mut series = vec![7, 1, 9, 4, 4, 2];
    sort_latencies(&mut series);
    let a = compute_stats(&series);
    let b = compute_stats(&series);
    assert_eq!(a, b);
}

#[test]
fn sorting_reorders_the_series() {
    let mut series = vec![3, 1, 2];
    sort_latencies(&mut series);
    assert_eq!(series, vec![1, 2, 3]);
}

#[test]
fn singleton_series() {
    let series = vec![5];
    let s = compute_stats(&series);
    assert_eq!(s.p50, 5);
    assert_eq!(s.p95, 5);
    assert_eq!(s.p99, 5);
    assert_eq!(s.avg, 5);
}
