//! Outcome model: the classified result of one completed request, the
//! shared counters, and the fail-fast classification rules.

use vstd::prelude::*;

verus! {

/// Diagnostic detail carried by a fatal outcome: what the failing
/// exchange looked like on the wire.
pub struct ErrorDetails {
    pub message: String,
    pub status: Option<u16>,
    pub headers: Option<String>,
    pub body: Option<String>,
}

/// The classified result of one completed request. Latencies are
/// wall-clock nanoseconds from dispatch to completion.
pub enum Outcome {
    /// a 2xx response
    Success { latency: u64 },
    /// a non-2xx response or a non-fatal transport failure
    Failed { latency: u64 },
    /// a fatal condition; produced only in fail-fast mode
    Error { details: ErrorDetails },
}

impl Outcome {
    pub open spec fn is_error(&self) -> bool {
        self matches Outcome::Error { .. }
    }

    /// A fatal outcome stops its worker and, through the collector,
    /// the whole run.
    pub fn is_fatal(&self) -> (r: bool)
        ensures
            r == self.is_error(),
    {
        matches!(self, Outcome::Error { .. })
    }
}

/// An HTTP status in the 2xx range counts as a success.
pub open spec fn spec_status_ok(status: u16) -> bool {
    200 <= status < 300
}

pub fn status_ok(status: u16) -> (r: bool)
    ensures
        r == spec_status_ok(status),
{
    200 <= status && status < 300
}

/// Which shared counter a completed request bumps.
#[derive(Clone, Copy, Debug, PartialEq, Eq, Structural)]
pub enum Counter {
    Success,
    Failed,
}

/// The counter directive an outcome carries: one bump per completed
/// `Success`/`Failed` outcome, and none for a fatal outcome, which is
/// reported but not counted.
pub open spec fn counter_for(o: Outcome) -> Option<Counter> {
    match o {
        Outcome::Success { .. } => Some(Counter::Success),
        Outcome::Failed { .. } => Some(Counter::Failed),
        Outcome::Error { .. } => None,
    }
}

/// Process-wide counters, incremented exactly once per completed
/// `Success`/`Failed` outcome and never decremented or reset.
pub struct Stats {
    pub success: u64,
    pub failed: u64,
}

impl Stats {
    pub fn new() -> (r: Stats)
        ensures
            r.success == 0,
            r.failed == 0,
    {
        Stats { success: 0, failed: 0 }
    }

    /// Bumps exactly the named counter by one.
    pub fn record(&mut self, which: Counter)
        requires
            which == Counter::Success ==> old(self).success < u64::MAX,
            which == Counter::Failed ==> old(self).failed < u64::MAX,
        ensures
            which == Counter::Success ==> final(self).success == old(self).success + 1
                && final(self).failed == old(self).failed,
            which == Counter::Failed ==> final(self).failed == old(self).failed + 1
                && final(self).success == old(self).success,
    {
        match which {
            Counter::Success => {
                self.success = self.success + 1;
            },
            Counter::Failed => {
                self.failed = self.failed + 1;
            },
        }
    }
}

/// Classifies a completed HTTP exchange. A 2xx response is a success; any
/// other status counts as failed or, under fail-fast, is promoted to a
/// fatal outcome carrying the full diagnostic detail the transport
/// produced (message, status, serialized headers, body text) instead of
/// being counted — a fatal outcome carries no counter directive.
pub fn classify_response(
    fail_fast: bool,
    status: u16,
    latency: u64,
    message: String,
    headers: String,
    body: Option<String>,
) -> (r: (Outcome, Option<Counter>))
    ensures
        r.1 == counter_for(r.0),
        spec_status_ok(status) ==> r == ((Outcome::Success { latency }, Some(Counter::Success))),
        !spec_status_ok(status) && !fail_fast ==> r == ((
            Outcome::Failed { latency },
            Some(Counter::Failed),
        )),
        !spec_status_ok(status) && fail_fast ==> r.0 == (Outcome::Error {
            details: ErrorDetails {
                message,
                status: Some(status),
                headers: Some(headers),
                body,
            },
        }) && r.1 is None,
        !fail_fast ==> !r.0.is_error(),
{
    if status_ok(status) {
        (Outcome::Success { latency }, Some(Counter::Success))
    } else if fail_fast {
        (
            Outcome::Error {
                details: ErrorDetails { message, status: Some(status), headers: Some(headers), body },
            },
            None,
        )
    } else {
        (Outcome::Failed { latency }, Some(Counter::Failed))
    }
}

/// Classifies a transport-level failure (connection refused, timeout,
/// protocol error): counted as failed or, under fail-fast, promoted to a
/// fatal outcome with no response headers or body to report and no
/// counter directive.
pub fn classify_transport_failure(
    fail_fast: bool,
    latency: u64,
    message: String,
    status: Option<u16>,
) -> (r: (Outcome, Option<Counter>))
    ensures
        r.1 == counter_for(r.0),
        !fail_fast ==> r == ((Outcome::Failed { latency }, Some(Counter::Failed))),
        fail_fast ==> r.0 == (Outcome::Error {
            details: ErrorDetails { message, status, headers: None, body: None },
        }) && r.1 is None,
        !fail_fast ==> !r.0.is_error(),
{
    if fail_fast {
        (
            Outcome::Error { details: ErrorDetails { message, status, headers: None, body: None } },
            None,
        )
    } else {
        (Outcome::Failed { latency }, Some(Counter::Failed))
    }
}

/// Number of `Success` outcomes in a series.
pub open spec fn count_success(s: Seq<Outcome>) -> int
    decreases s.len(),
{
    if s.len() == 0 {
        0
    } else {
        count_success(s.drop_last()) + if s.last() matches Outcome::Success { .. } {
            1int
        } else {
            0int
        }
    }
}

/// Number of `Failed` outcomes in a series.
pub open spec fn count_failed(s: Seq<Outcome>) -> int
    decreases s.len(),
{
    if s.len() == 0 {
        0
    } else {
        count_failed(s.drop_last()) + if s.last() matches Outcome::Failed { .. } {
            1int
        } else {
            0int
        }
    }
}

/// Number of `Error` outcomes in a series.
pub open spec fn count_error(s: Seq<Outcome>) -> int
    decreases s.len(),
{
    if s.len() == 0 {
        0
    } else {
        count_error(s.drop_last()) + if s.last() matches Outcome::Error { .. } {
            1int
        } else {
            0int
        }
    }
}

/// Every completed request falls in exactly one class.
pub proof fn lemma_counts_partition(s: Seq<Outcome>)
    ensures
        count_success(s) + count_failed(s) + count_error(s) == s.len(),
    decreases s.len(),
{
    if s.len() > 0 {
        lemma_counts_partition(s.drop_last());
    }
}

/// A series without fatal outcomes has none counted.
pub proof fn lemma_count_error_zero(s: Seq<Outcome>)
    requires
        forall|i: int| 0 <= i < s.len() ==> !(#[trigger] s[i]).is_error(),
    ensures
        count_error(s) == 0,
    decreases s.len(),
{
    if s.len() > 0 {
        assert forall|i: int| 0 <= i < s.drop_last().len() implies !(#[trigger] s.drop_last()[i]).is_error() by {
            assert(s.drop_last()[i] == s[i]);
        }
        lemma_count_error_zero(s.drop_last());
    }
}

/// With fail-fast disabled no fatal outcome is ever produced, so the
/// success and failure counts together cover every completed request.
pub proof fn lemma_counts_cover_without_fatal(s: Seq<Outcome>)
    requires
        forall|i: int| 0 <= i < s.len() ==> !(#[trigger] s[i]).is_error(),
    ensures
        count_success(s) + count_failed(s) == s.len(),
{
    lemma_count_error_zero(s);
    lemma_counts_partition(s);
}

/// The counter totals after folding the directives of a series of
/// outcomes, `(success, failed)`.
pub open spec fn spec_totals(s: Seq<Outcome>) -> (int, int)
    decreases s.len(),
{
    if s.len() == 0 {
        (0, 0)
    } else {
        let t = spec_totals(s.drop_last());
        match counter_for(s.last()) {
            Some(Counter::Success) => (t.0 + 1, t.1),
            Some(Counter::Failed) => (t.0, t.1 + 1),
            None => t,
        }
    }
}

/// Folding the counter directives of a run's outcomes bumps `success`
/// once per `Success` outcome and `failed` once per `Failed` outcome, and
/// nothing for a fatal outcome: `success + failed` equals the number of
/// requests that produced a `Success`/`Failed` outcome.
pub proof fn lemma_totals_match_classes(s: Seq<Outcome>)
    ensures
        spec_totals(s).0 == count_success(s),
        spec_totals(s).1 == count_failed(s),
    decreases s.len(),
{
    if s.len() > 0 {
        lemma_totals_match_classes(s.drop_last());
    }
}

} // verus!
