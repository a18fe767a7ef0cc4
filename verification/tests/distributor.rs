use benchy::distributor::worker_quota;

#[test]
fn quotas_ten_across_three() {
    // N=10, C=3 gives quotas {4, 3, 3} in worker index order.
    assert_eq!(worker_quota(10, 3, 0), 4);
    assert_eq!(worker_quota(10, 3, 1), 3);
    assert_eq!(worker_quota(10, 3, 2), 3);
}

#[test]
fn quotas_sum_to_total() {
    for (n, c) in [(0u64, 1u64), (1, 7), (100, 10), (13, 5), (999, 7)] {
        let mut sum: u64 = 0;
        for i in 0..c {
            sum += worker_quota(n, c, i);
        }
        assert_eq!(sum, n);
    }
}

#[test]
fn extra_units_go_to_first_workers() {
    // 13 across 5: remainder 3, so the first three workers take one extra.
    let quotas: Vec<u64> = (0..5).map(|i| worker_quota(13, 5, i)).collect();
    assert_eq!(quotas, vec![3, 3, 3, 2, 2]);
}

#[test]
fn zero_requests_yield_zero_quotas() {
    for i in 0..4 {
        assert_eq!(worker_quota(0, 4, i), 0);
    }
}

#[test]
fn single_worker_takes_everything() {
    assert_eq!(worker_quota(u64::MAX, 1, 0), u64::MAX);
}
