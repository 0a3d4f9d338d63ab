//! Laws of the scheduler, stated and proved over the abstract state.
//!
//! Each law speaks of the spec-level transitions in [`crate::scheduler`];
//! the executable methods are tied to those transitions by their `ensures`
//! clauses, so a law about `after_draw` is a law about `should_draw`.

use vstd::prelude::*;

use crate::scheduler::SchedulerView;
use crate::scheduler::after_draw;
use crate::scheduler::after_queue;
use crate::scheduler::after_schedule;
use crate::scheduler::draw_decision;
use crate::scheduler::fresh_view;

verus! {

/// A freshly constructed scheduler draws on its first tick, whatever the
/// current time.
pub proof fn lemma_first_tick_draws(now: u64)
    ensures
        draw_decision(fresh_view(), now),
{
}

/// Setting the immediate-redraw flag is idempotent: a second
/// `queue_next_frame` before the next tick changes nothing.
pub proof fn lemma_queue_idempotent(v: SchedulerView)
    ensures
        after_queue(after_queue(v)) == after_queue(v),
{
}

/// The flag is a one-shot signal: after `queue_next_frame`, the next tick
/// draws, and — with no deadline pending — the tick after that does not.
pub proof fn lemma_flag_one_shot(v: SchedulerView, now1: u64, now2: u64)
    requires
        v.scheduled_frame is None,
    ensures
        draw_decision(after_queue(v), now1),
        !draw_decision(after_draw(after_queue(v), now1), now2),
{
}

/// Two `schedule` calls leave the earlier of the two deadlines pending, in
/// whichever order they arrive.
pub proof fn lemma_earliest_wins(v: SchedulerView, t1: u64, t2: u64)
    requires
        v.scheduled_frame is None,
        t1 < t2,
    ensures
        after_schedule(after_schedule(v, t2), t1).scheduled_frame == Some(t1),
        after_schedule(after_schedule(v, t1), t2).scheduled_frame == Some(t1),
{
}

/// `schedule` calls commute: two requests end in the same state in either
/// order, whatever was pending before.
pub proof fn lemma_schedule_commutes(v: SchedulerView, t1: u64, t2: u64)
    ensures
        after_schedule(after_schedule(v, t1), t2) == after_schedule(after_schedule(v, t2), t1),
{
}

/// An already-passed deadline is consumed by the next tick: that tick draws
/// and clears the deadline, and the following tick does not draw.
pub proof fn lemma_deadline_expiry(v: SchedulerView, t: u64, now1: u64, now2: u64)
    requires
        !v.frame_queued,
        t <= now1,
    ensures
        draw_decision(after_schedule(v, t), now1),
        after_draw(after_schedule(v, t), now1).scheduled_frame is None,
        !draw_decision(after_draw(after_schedule(v, t), now1), now2),
{
}

/// A deadline still in the future neither draws nor changes any state.
pub proof fn lemma_deadline_not_due(v: SchedulerView, t: u64, now: u64)
    requires
        !v.frame_queued,
        v.scheduled_frame is None,
        now < t,
    ensures
        !draw_decision(after_schedule(v, t), now),
        after_draw(after_schedule(v, t), now) == after_schedule(v, t),
{
}

/// Abstract state after a batch of `schedule` calls, one per element of
/// `ts`, in arrival order.
pub open spec fn after_schedules(v: SchedulerView, ts: Seq<u64>) -> SchedulerView
    decreases ts.len(),
{
    if ts.len() == 0 {
        v
    } else {
        after_schedules(after_schedule(v, ts[0]), ts.drop_first())
    }
}

/// A batch of requests on top of a pending deadline leaves the minimum of
/// all of them pending, and never touches the flag.
proof fn lemma_batch_pending(v: SchedulerView, ts: Seq<u64>)
    requires
        v.scheduled_frame is Some,
    ensures
        after_schedules(v, ts).frame_queued == v.frame_queued,
        after_schedules(v, ts).scheduled_frame matches Some(m) && (m == v.scheduled_frame.unwrap()
            || ts.contains(m)) && m <= v.scheduled_frame.unwrap() && (forall|i: int|
            0 <= i < ts.len() ==> m <= ts[i]),
    decreases ts.len(),
{
    if ts.len() > 0 {
        let v1 = after_schedule(v, ts[0]);
        let rest = ts.drop_first();
        lemma_batch_pending(v1, rest);
        let m = after_schedules(v, ts).scheduled_frame.unwrap();
        if rest.contains(m) {
            let j = choose|j: int| 0 <= j < rest.len() && rest[j] == m;
            assert(ts[j + 1] == m);
            assert(ts.contains(m));
        }
        assert forall|i: int| 0 <= i < ts.len() implies m <= ts[i] by {
            if i == 0 {
                assert(m <= v1.scheduled_frame.unwrap() <= ts[0]);
            } else {
                assert(rest[i - 1] == ts[i]);
            }
        }
    }
}

/// No request of a batch is lost: after any batch of `schedule` calls on a
/// scheduler with nothing pending, the pending deadline is an element of
/// the batch no later than every other, and the flag is untouched.
pub proof fn lemma_batch_min(v: SchedulerView, ts: Seq<u64>)
    requires
        v.scheduled_frame is None,
        ts.len() > 0,
    ensures
        after_schedules(v, ts).frame_queued == v.frame_queued,
        after_schedules(v, ts).scheduled_frame matches Some(m) && ts.contains(m) && (forall|i: int|
            0 <= i < ts.len() ==> m <= ts[i]),
{
    let v1 = after_schedule(v, ts[0]);
    let rest = ts.drop_first();
    lemma_batch_pending(v1, rest);
    let m = after_schedules(v, ts).scheduled_frame.unwrap();
    if rest.contains(m) {
        let j = choose|j: int| 0 <= j < rest.len() && rest[j] == m;
        assert(ts[j + 1] == m);
        assert(ts.contains(m));
    } else {
        assert(ts[0] == m);
        assert(ts.contains(m));
    }
    assert forall|i: int| 0 <= i < ts.len() implies m <= ts[i] by {
        if i == 0 {
            assert(m <= v1.scheduled_frame.unwrap());
        } else {
            assert(rest[i - 1] == ts[i]);
        }
    }
}

/// The outcome of a batch does not depend on arrival order: two
/// interleavings that deliver the same requests leave the same state.
pub proof fn lemma_batch_order_irrelevant(v: SchedulerView, ts1: Seq<u64>, ts2: Seq<u64>)
    requires
        v.scheduled_frame is None,
        ts1.to_multiset() == ts2.to_multiset(),
    ensures
        after_schedules(v, ts1) == after_schedules(v, ts2),
{
    broadcast use vstd::seq_lib::group_to_multiset_ensures;

    assert(ts1.to_multiset().len() == ts1.len());
    assert(ts2.to_multiset().len() == ts2.len());
    if ts1.len() == 0 {
        assert(ts2.len() == 0);
    } else {
        lemma_batch_min(v, ts1);
        lemma_batch_min(v, ts2);
        let m1 = after_schedules(v, ts1).scheduled_frame.unwrap();
        let m2 = after_schedules(v, ts2).scheduled_frame.unwrap();
        assert(ts1.to_multiset().count(m1) > 0);
        assert(ts2.contains(m1));
        assert(ts2.to_multiset().count(m2) > 0);
        assert(ts1.contains(m2));
        let i2 = choose|i: int| 0 <= i < ts2.len() && ts2[i] == m1;
        let i1 = choose|i: int| 0 <= i < ts1.len() && ts1[i] == m2;
        assert(m2 <= ts2[i2]);
        assert(m1 <= ts1[i1]);
    }
}

/// A batch whose deadlines have all elapsed is consumed exactly once: the
/// next tick draws and clears the deadline, and the tick after that does
/// not draw.
pub proof fn lemma_batch_consumed_once(v: SchedulerView, ts: Seq<u64>, now1: u64, now2: u64)
    requires
        !v.frame_queued,
        v.scheduled_frame is None,
        ts.len() > 0,
        forall|i: int| 0 <= i < ts.len() ==> ts[i] <= now1,
    ensures
        draw_decision(after_schedules(v, ts), now1),
        after_draw(after_schedules(v, ts), now1).scheduled_frame is None,
        !draw_decision(after_draw(after_schedules(v, ts), now1), now2),
{
    lemma_batch_min(v, ts);
    let m = after_schedules(v, ts).scheduled_frame.unwrap();
    let i = choose|i: int| 0 <= i < ts.len() && ts[i] == m;
    assert(ts[i] <= now1);
}

/// The flag takes priority, and neither signal is lost: with the flag set
/// and an expired deadline both pending, the first tick draws and consumes
/// only the flag, the second tick draws and consumes the deadline, and the
/// third tick does not draw.
pub proof fn lemma_flag_priority_no_loss(
    v: SchedulerView,
    t: u64,
    now1: u64,
    now2: u64,
    now3: u64,
)
    requires
        v.frame_queued,
        v.scheduled_frame == Some(t),
        t <= now1,
        now1 <= now2,
    ensures
        draw_decision(v, now1),
        after_draw(v, now1).scheduled_frame == Some(t),
        !after_draw(v, now1).frame_queued,
        draw_decision(after_draw(v, now1), now2),
        after_draw(after_draw(v, now1), now2).scheduled_frame is None,
        !draw_decision(after_draw(after_draw(v, now1), now2), now3),
{
}

} // verus!
