use benchy::worker::Worker;

/// Seeds the window as the run loop does: dispatch while admission allows.
fn seed(w: &mut Worker, abort: bool) -> u64 {
    let mut dispatched = 0;
    while w.may_dispatch(abort) {
        w.note_dispatch();
        dispatched += 1;
    }
    dispatched
}

#[test]
fn seeding_fills_the_window_up_to_the_pipeline() {
    let mut w = Worker::new(10, 3);
    assert_eq!(seed(&mut w, false), 3);
    assert_eq!(w.sent, 3);
    assert_eq!(w.in_flight, 3);
}

#[test]
fn seeding_stops_at_the_quota() {
    let mut w = Worker::new(2, 8);
    assert_eq!(seed(&mut w, false), 2);
    assert_eq!(w.sent, 2);
}

#[test]
fn abort_admits_nothing() {
    let mut w = Worker::new(10, 3);
    assert_eq!(seed(&mut w, true), 0);
    assert_eq!(w.sent, 0);
}

#[test]
fn completions_refill_until_quota_exhausted() {
    // quota 5, pipeline 2: seed 2, then each completion admits a
    // replacement until all 5 are dispatched and the window drains.
    let mut w = Worker::new(5, 2);
    let mut emitted = 0;
    seed(&mut w, false);
    while w.in_flight > 0 {
        let (emit, stop) = w.observe_completion(false, false);
        assert!(emit);
        assert!(!stop);
        emitted += 1;
        if w.may_dispatch(false) {
            w.note_dispatch();
        }
    }
    assert_eq!(w.sent, 5);
    assert_eq!(emitted, 5);
}

#[test]
fn observed_abort_stops_without_emitting() {
    let mut w = Worker::new(10, 4);
    seed(&mut w, false);
    let (emit, stop) = w.observe_completion(true, false);
    assert!(!emit);
    assert!(stop);
    assert!(w.done);
    assert!(!w.may_dispatch(false));
}

#[test]
fn fatal_outcome_is_emitted_then_stops() {
    let mut w = Worker::new(10, 4);
    seed(&mut w, false);
    let (emit, stop) = w.observe_completion(false, true);
    assert!(emit);
    assert!(stop);
    assert!(w.done);
    assert!(!w.may_dispatch(false));
}

#[test]
fn zero_quota_dispatches_nothing() {
    let mut w = Worker::new(0, 4);
    assert_eq!(seed(&mut w, false), 0);
    assert_eq!(w.sent, 0);
    assert_eq!(w.in_flight, 0);
}
