//! Result collector: the single consumer that drains all worker outcomes
//! into one latency series and at most one captured error.

use vstd::prelude::*;
use crate::outcome::{count_failed, count_success, ErrorDetails, Outcome};

verus! {

/// Durations a series of outcomes contributes to the latency series: one
/// entry per `Success` or `Failed` outcome, in arrival order; fatal
/// outcomes contribute none.
pub open spec fn durations_of(s: Seq<Outcome>) -> Seq<u64>
    decreases s.len(),
{
    if s.len() == 0 {
        Seq::empty()
    } else {
        match s.last() {
            Outcome::Success { latency } => durations_of(s.drop_last()).push(latency),
            Outcome::Failed { latency } => durations_of(s.drop_last()).push(latency),
            Outcome::Error { .. } => durations_of(s.drop_last()),
        }
    }
}

/// The detail of the first fatal outcome of a series, captured only when
/// fail-fast is on; `None` otherwise.
pub open spec fn captured_error_of(s: Seq<Outcome>, fail_fast: bool) -> Option<ErrorDetails>
    decreases s.len(),
{
    if !fail_fast || s.len() == 0 {
        None
    } else if captured_error_of(s.drop_last(), fail_fast) is Some {
        captured_error_of(s.drop_last(), fail_fast)
    } else {
        match s.last() {
            Outcome::Error { details } => Some(details),
            _ => None,
        }
    }
}

/// Single consumer of worker outcomes. It accumulates the latency series
/// and, in fail-fast mode, captures the first fatal error; capturing it
/// raises the shared abort signal.
pub struct Collector {
    /// latencies of completed requests, in arrival order
    pub latencies: Vec<u64>,
    /// the first fatal error, when fail-fast capture is on
    pub first_error: Option<ErrorDetails>,
    /// whether fail-fast capture is enabled
    pub fail_fast: bool,
    /// the outcomes absorbed so far
    pub history: Ghost<Seq<Outcome>>,
}

impl Collector {
    /// Everything the collector holds is a fold of its history.
    pub open spec fn wf(&self) -> bool {
        &&& self.latencies@ == durations_of(self.history@)
        &&& self.first_error == captured_error_of(self.history@, self.fail_fast)
    }

    pub fn new(fail_fast: bool) -> (r: Collector)
        ensures
            r.wf(),
            r.fail_fast == fail_fast,
            r.history@ == Seq::<Outcome>::empty(),
            r.latencies@ == Seq::<u64>::empty(),
            r.first_error is None,
    {
        Collector {
            latencies: Vec::new(),
            first_error: None,
            fail_fast,
            history: Ghost(Seq::empty()),
        }
    }

    /// Absorbs one outcome: a completed request contributes its latency;
    /// a fatal outcome is captured if it is the first one and fail-fast is
    /// on, and is discarded otherwise. Returns whether the abort signal
    /// must be raised, which happens exactly on capture.
    pub fn absorb(&mut self, outcome: Outcome) -> (raise_abort: bool)
        requires
            old(self).wf(),
        ensures
            final(self).wf(),
            final(self).history@ == old(self).history@.push(outcome),
            final(self).fail_fast == old(self).fail_fast,
            raise_abort == (old(self).fail_fast && old(self).first_error is None
                && outcome.is_error()),
            raise_abort ==> (outcome matches Outcome::Error { details }
                && final(self).first_error == Some(details)),
            !raise_abort ==> final(self).first_error == old(self).first_error,
            (outcome matches Outcome::Success { latency } ==> final(self).latencies@ == old(
                self,
            ).latencies@.push(latency)),
            (outcome matches Outcome::Failed { latency } ==> final(self).latencies@ == old(
                self,
            ).latencies@.push(latency)),
            outcome.is_error() ==> final(self).latencies@ == old(self).latencies@,
    {
        let ghost h = self.history@;
        proof {
            assert(h.push(outcome).drop_last() =~= h);
            assert(h.push(outcome).last() == outcome);
        }
        self.history = Ghost(h.push(outcome));
        match outcome {
            Outcome::Success { latency } => {
                self.latencies.push(latency);
                false
            },
            Outcome::Failed { latency } => {
                self.latencies.push(latency);
                false
            },
            Outcome::Error { details } => {
                if self.fail_fast && self.first_error.is_none() {
                    self.first_error = Some(details);
                    true
                } else {
                    false
                }
            },
        }
    }
}

/// The captured error is the first fatal outcome of the history, and at
/// most one is ever captured: when nothing is captured the history holds
/// no fatal outcome at all, and when one is, every earlier outcome is not
/// fatal.
pub proof fn lemma_captured_is_first(s: Seq<Outcome>)
    ensures
        captured_error_of(s, true) is None ==> forall|i: int|
            0 <= i < s.len() ==> !(#[trigger] s[i]).is_error(),
        captured_error_of(s, true) matches Some(d) ==> exists|i: int|
            0 <= i < s.len() && (#[trigger] s[i]) == (Outcome::Error { details: d }) && (
            forall|j: int| 0 <= j < i ==> !(#[trigger] s[j]).is_error()),
    decreases s.len(),
{
    if s.len() > 0 {
        let pre = s.drop_last();
        lemma_captured_is_first(pre);
        assert(forall|i: int| 0 <= i < pre.len() ==> pre[i] == s[i]);
        let cap_pre = captured_error_of(pre, true);
        if cap_pre is Some {
            let d = cap_pre.unwrap();
            let i = choose|i: int|
                0 <= i < pre.len() && (#[trigger] pre[i]) == (Outcome::Error { details: d }) && (
                forall|j: int| 0 <= j < i ==> !(#[trigger] pre[j]).is_error());
            assert(0 <= i < s.len() && s[i] == (Outcome::Error { details: d }) && (forall|j: int|
                0 <= j < i ==> !(#[trigger] s[j]).is_error()));
        } else {
            match s.last() {
                Outcome::Error { details } => {
                    let i = s.len() - 1;
                    assert(s[i] == (Outcome::Error { details }));
                    assert(forall|j: int| 0 <= j < i ==> !(#[trigger] s[j]).is_error());
                },
                _ => {
                    assert(forall|i: int| 0 <= i < s.len() ==> !(#[trigger] s[i]).is_error())
                        by {
                        assert(!s.last().is_error());
                        assert(s[s.len() - 1] == s.last());
                    }
                },
            }
        }
    }
}

/// With fail-fast off the collector never captures anything.
pub proof fn lemma_nothing_captured_without_fail_fast(s: Seq<Outcome>)
    ensures
        captured_error_of(s, false) is None,
{
}

/// Every completed request — and nothing else — contributes one entry to
/// the latency series: its length is the number of `Success` outcomes
/// plus the number of `Failed` outcomes. In particular, with fail-fast
/// off no outcome is fatal and the series covers every absorbed outcome.
pub proof fn lemma_series_covers_completions(s: Seq<Outcome>)
    ensures
        durations_of(s).len() == count_success(s) + count_failed(s),
    decreases s.len(),
{
    if s.len() > 0 {
        lemma_series_covers_completions(s.drop_last());
    }
}

} // verus!
