use benchy::outcome::ErrorDetails;
use benchy::report::{finish_run, RunReport};

#[test]
fn captured_error_aborts_with_failure_status() {
    // fail-fast tripped on an HTTP 500: the run reports the error block
    // instead of statistics and exits with status 1.
    let err = ErrorDetails {
        message: String::from("HTTP 500 Internal Server Error"),
        status: Some(500),
        headers: Some(String::from("content-length: 0")),
        body: None,
    };
    let report = finish_run(vec![4, 1], Some(err), 0, 1);
    assert_eq!(report.exit_status(), 1);
    match report {
        RunReport::Aborted { error } => {
            assert_eq!(error.status, Some(500));
            assert_eq!(error.message, "HTTP 500 Internal Server Error");
        }
        RunReport::Completed { .. } => panic!("an aborted run reports no statistics"),
    }
}

#[test]
fn normal_run_reports_statistics_of_the_sorted_series() {
    let report = finish_run(vec![30, 10, 20, 40], None, 3, 1);
    assert_eq!(report.exit_status(), 0);
    match report {
        RunReport::Completed { stats, success, failed } => {
            assert_eq!(success, 3);
            assert_eq!(failed, 1);
            // sorted series [10,20,30,40]: ranks 2, 3, 3; avg 25
            assert_eq!(stats.p50, 30);
            assert_eq!(stats.p95, 40);
            assert_eq!(stats.p99, 40);
            assert_eq!(stats.avg, 25);
        }
        RunReport::Aborted { .. } => panic!("nothing was captured"),
    }
}

#[test]
fn empty_run_reports_zeroes() {
    let report = finish_run(Vec::new(), None, 0, 0);
    assert_eq!(report.exit_status(), 0);
    match report {
        RunReport::Completed { stats, success, failed } => {
            assert_eq!((success, failed), (0, 0));
            assert_eq!((stats.avg, stats.p50, stats.p95, stats.p99), (0, 0, 0, 0));
        }
        RunReport::Aborted { .. } => panic!("nothing was captured"),
    }
}
