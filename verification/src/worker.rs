//! Pipelined worker: sliding-window admission control over one logical
//! connection, with cooperative abort.

use vstd::prelude::*;

verus! {

/// One worker's admission-control state. The worker owns one logical
/// connection, a quota of requests, and a window of at most `pipeline`
/// requests concurrently in flight.
pub struct Worker {
    /// requests this worker must issue in total
    pub quota: u64,
    /// upper bound on concurrently outstanding requests
    pub pipeline: usize,
    /// requests dispatched so far
    pub sent: u64,
    /// requests currently outstanding
    pub in_flight: usize,
    /// set once the worker stops: abort observed or fatal outcome emitted
    pub done: bool,
}

impl Worker {
    /// The window never exceeds the pipeline depth, and no more requests
    /// are dispatched than the quota allows.
    pub open spec fn wf(&self) -> bool {
        &&& self.pipeline >= 1
        &&& self.sent <= self.quota
        &&& self.in_flight <= self.pipeline
        &&& self.in_flight as int <= self.sent as int
    }

    pub fn new(quota: u64, pipeline: usize) -> (r: Worker)
        requires
            pipeline >= 1,
        ensures
            r.wf(),
            r.quota == quota,
            r.pipeline == pipeline,
            r.sent == 0,
            r.in_flight == 0,
            !r.done,
    {
        Worker { quota, pipeline, sent: 0, in_flight: 0, done: false }
    }

    /// Admission check, used both to seed the window and to refill it: a
    /// new request may be dispatched only while the worker is live, its
    /// quota is not exhausted, its window has room, and no abort has been
    /// observed. In particular, once the abort signal is observed no new
    /// request is admitted.
    pub fn may_dispatch(&self, abort: bool) -> (r: bool)
        ensures
            r == (!self.done && self.sent < self.quota && self.in_flight < self.pipeline
                && !abort),
    {
        !self.done && self.sent < self.quota && self.in_flight < self.pipeline && !abort
    }

    /// Records one dispatched request.
    pub fn note_dispatch(&mut self)
        requires
            old(self).wf(),
            !old(self).done,
            old(self).sent < old(self).quota,
            old(self).in_flight < old(self).pipeline,
        ensures
            final(self).wf(),
            final(self).sent == old(self).sent + 1,
            final(self).in_flight == old(self).in_flight + 1,
            final(self).quota == old(self).quota,
            final(self).pipeline == old(self).pipeline,
            final(self).done == old(self).done,
    {
        self.sent = self.sent + 1;
        self.in_flight = self.in_flight + 1;
    }

    /// The decision taken at each completion, `r == (emit, stop)`:
    /// observing the abort signal stops the worker at once, without
    /// emitting the just-completed outcome and without dispatching
    /// further requests; a fatal outcome is emitted and then stops the
    /// worker; any other outcome is emitted and the worker goes on.
    pub fn observe_completion(&mut self, abort: bool, fatal: bool) -> (r: (bool, bool))
        requires
            old(self).wf(),
            !old(self).done,
            old(self).in_flight >= 1,
        ensures
            final(self).wf(),
            final(self).in_flight == old(self).in_flight - 1,
            final(self).sent == old(self).sent,
            final(self).quota == old(self).quota,
            final(self).pipeline == old(self).pipeline,
            r.0 == !abort,
            r.1 == (abort || fatal),
            final(self).done == (abort || fatal),
    {
        self.in_flight = self.in_flight - 1;
        if abort {
            self.done = true;
            (false, true)
        } else if fatal {
            self.done = true;
            (true, true)
        } else {
            (true, false)
        }
    }
}

} // verus!
