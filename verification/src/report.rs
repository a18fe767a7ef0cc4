//! Closing a run: either a statistics block or the captured error.

use vstd::prelude::*;
use crate::outcome::ErrorDetails;
use crate::stats::{compute_stats, sort_latencies, sorted, spec_stats, LatencyStats};

verus! {

/// What a finished run reports: statistics after a normal drain, or the
/// first captured error after a fail-fast abort.
pub enum RunReport {
    Completed { stats: LatencyStats, success: u64, failed: u64 },
    Aborted { error: ErrorDetails },
}

impl RunReport {
    /// An aborted run ends the process with a failure status.
    pub fn exit_status(&self) -> (r: i32)
        ensures
            r == (if self matches RunReport::Aborted { .. } {
                1int
            } else {
                0int
            }),
    {
        match self {
            RunReport::Aborted { .. } => 1,
            _ => 0,
        }
    }
}

/// Closes a run. A captured error aborts the run and is reported in place
/// of statistics; otherwise the latency series is sorted in place and
/// summarised beside the final counters. The summary is the one of the
/// ascending permutation of the collected series.
pub fn finish_run(
    latencies: Vec<u64>,
    first_error: Option<ErrorDetails>,
    success: u64,
    failed: u64,
) -> (r: RunReport)
    ensures
        first_error matches Some(e) ==> r == (RunReport::Aborted { error: e }),
        first_error is None ==> (r matches RunReport::Completed { stats, success: s, failed: f }
            && s == success && f == failed && exists|t: Seq<u64>|
            sorted(t) && #[trigger] t.to_multiset() == latencies@.to_multiset() && stats
                == spec_stats(t)),
{
    let ghost orig = latencies@;
    match first_error {
        Some(error) => RunReport::Aborted { error },
        None => {
            let mut series = latencies;
            sort_latencies(&mut series);
            let stats = compute_stats(&series);
            proof {
                assert(sorted(series@) && series@.to_multiset() == orig.to_multiset() && stats
                    == spec_stats(series@));
            }
            RunReport::Completed { stats, success, failed }
        },
    }
}

} // verus!
