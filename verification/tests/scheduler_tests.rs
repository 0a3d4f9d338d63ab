use redraw_scheduler::RedrawScheduler;

/// A fresh scheduler draws on its first tick and not on its second.
#[test]
fn first_tick_draws() {
    let mut s = RedrawScheduler::new();
    assert!(s.should_draw(0));
    assert!(!s.should_draw(1));
}

/// Many `queue_next_frame` calls before a tick yield exactly one `true`.
#[test]
fn flag_is_idempotent() {
    let mut s = RedrawScheduler::new();
    assert!(s.should_draw(0));
    s.queue_next_frame();
    s.queue_next_frame();
    s.queue_next_frame();
    assert!(s.should_draw(1));
    assert!(!s.should_draw(2));
}

/// A later, less urgent request does not displace an earlier deadline.
#[test]
fn earliest_wins_earlier_request_first() {
    let mut s = RedrawScheduler::new();
    assert!(s.should_draw(0));
    s.schedule(10);
    s.schedule(20);
    assert!(!s.should_draw(9));
    assert!(s.should_draw(10));
    assert!(!s.should_draw(25));
}

/// An earlier, more urgent request displaces a later deadline.
#[test]
fn earliest_wins_later_request_first() {
    let mut s = RedrawScheduler::new();
    assert!(s.should_draw(0));
    s.schedule(20);
    s.schedule(10);
    assert!(!s.should_draw(9));
    assert!(s.should_draw(10));
    assert!(!s.should_draw(25));
}

/// A deadline in the past is consumed by the next tick, exactly once.
#[test]
fn expired_deadline_consumed_once() {
    let mut s = RedrawScheduler::new();
    assert!(s.should_draw(0));
    s.schedule(5);
    assert!(s.should_draw(50));
    assert!(!s.should_draw(51));
}

/// A deadline equal to the current time counts as due.
#[test]
fn deadline_due_at_exact_time() {
    let mut s = RedrawScheduler::new();
    assert!(s.should_draw(0));
    s.schedule(7);
    assert!(s.should_draw(7));
    assert!(!s.should_draw(8));
}

/// A deadline in the future does not draw until the time passes it.
#[test]
fn future_deadline_not_yet_due() {
    let mut s = RedrawScheduler::new();
    assert!(s.should_draw(0));
    s.schedule(100);
    assert!(!s.should_draw(1));
    assert!(!s.should_draw(50));
    assert!(!s.should_draw(99));
    assert!(s.should_draw(100));
}

/// With the flag set and an expired deadline both pending, the flag is
/// consumed first, the deadline on the very next tick, and nothing is lost.
#[test]
fn flag_takes_priority_and_deadline_survives() {
    let mut s = RedrawScheduler::new();
    assert!(s.should_draw(0));
    s.schedule(3);
    s.queue_next_frame();
    assert!(s.should_draw(10));
    assert!(s.should_draw(11));
    assert!(!s.should_draw(12));
}

/// A batch of requests in scrambled order keeps exactly their minimum.
#[test]
fn batch_keeps_minimum() {
    let mut s = RedrawScheduler::new();
    assert!(s.should_draw(0));
    for t in [44_u64, 12, 93, 8, 57, 8, 31] {
        s.schedule(t);
    }
    assert!(!s.should_draw(7));
    assert!(s.should_draw(8));
    assert!(!s.should_draw(95));
}

/// `queue_next_frame` leaves a pending deadline untouched.
#[test]
fn queue_leaves_deadline_pending() {
    let mut s = RedrawScheduler::new();
    assert!(s.should_draw(0));
    s.schedule(40);
    s.queue_next_frame();
    assert!(s.should_draw(5));
    assert!(!s.should_draw(6));
    assert!(s.should_draw(40));
}

/// `schedule` leaves the flag untouched: the flag still draws first, and a
/// fresh scheduler's queued first frame is not lost to a schedule call.
#[test]
fn schedule_leaves_flag_set() {
    let mut s = RedrawScheduler::new();
    s.schedule(1_000);
    assert!(s.should_draw(0));
    assert!(!s.should_draw(1));
    assert!(s.should_draw(1_000));
}

/// Timestamps at the extremes of the range behave like any others.
#[test]
fn extreme_timestamps() {
    let mut s = RedrawScheduler::new();
    assert!(s.should_draw(0));
    s.schedule(u64::MAX);
    assert!(!s.should_draw(u64::MAX - 1));
    s.schedule(0);
    assert!(s.should_draw(0));
    assert!(!s.should_draw(u64::MAX));
}
