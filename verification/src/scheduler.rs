//! The redraw scheduler: two pieces of pending state and the rules that
//! update them.
//!
//! Time is a plain `u64` tick count from a monotonic clock; the scheduler
//! only compares timestamps, so any strictly increasing encoding works.

use vstd::prelude::*;

verus! {

/// Abstract state of a scheduler: the immediate-redraw flag and the earliest
/// pending deadline, if any.
pub struct SchedulerView {
    /// One-shot request for an immediate redraw on the next tick.
    pub frame_queued: bool,
    /// Earliest deadline requested since the last consumption, if any.
    pub scheduled_frame: Option<u64>,
}

/// State of a freshly constructed scheduler: the first tick draws, and no
/// deadline is pending.
pub open spec fn fresh_view() -> SchedulerView {
    SchedulerView { frame_queued: true, scheduled_frame: None }
}

/// Effect of `schedule(t)` on the abstract state: the pending deadline
/// becomes the earlier of the previous one and `t` (earliest wins); the
/// immediate-redraw flag is untouched.
pub open spec fn after_schedule(v: SchedulerView, t: u64) -> SchedulerView {
    SchedulerView {
        frame_queued: v.frame_queued,
        scheduled_frame: match v.scheduled_frame {
            None => Some(t),
            Some(p) => if t < p {
                Some(t)
            } else {
                Some(p)
            },
        },
    }
}

/// Effect of `queue_next_frame` on the abstract state: the flag is set, the
/// deadline is untouched.
pub open spec fn after_queue(v: SchedulerView) -> SchedulerView {
    SchedulerView { frame_queued: true, scheduled_frame: v.scheduled_frame }
}

/// Whether a pending deadline has passed at time `now` (a deadline equal to
/// `now` counts as due).
pub open spec fn deadline_due(v: SchedulerView, now: u64) -> bool {
    v.scheduled_frame matches Some(t) && t <= now
}

/// The answer `should_draw` gives at time `now`: draw if the flag is set or
/// a pending deadline has passed.
pub open spec fn draw_decision(v: SchedulerView, now: u64) -> bool {
    v.frame_queued || deadline_due(v, now)
}

/// The abstract state after `should_draw` at time `now`. A `true` answer
/// consumes exactly one signal: the flag if it was set — a deadline, due or
/// not, is then left pending for a later tick — otherwise the expired
/// deadline. A `false` answer changes nothing.
pub open spec fn after_draw(v: SchedulerView, now: u64) -> SchedulerView {
    if v.frame_queued {
        SchedulerView { frame_queued: false, scheduled_frame: v.scheduled_frame }
    } else if deadline_due(v, now) {
        SchedulerView { frame_queued: false, scheduled_frame: None }
    } else {
        v
    }
}

/// Coalesces redraw requests into a single per-tick decision.
///
/// Producers call [`RedrawScheduler::queue_next_frame`] or
/// [`RedrawScheduler::schedule`]; one consumer calls
/// [`RedrawScheduler::should_draw`] once per tick with the current time and
/// draws when it answers `true`.
pub struct RedrawScheduler {
    frame_queued: bool,
    scheduled_frame: Option<u64>,
}

impl View for RedrawScheduler {
    type V = SchedulerView;

    closed spec fn view(&self) -> SchedulerView {
        SchedulerView { frame_queued: self.frame_queued, scheduled_frame: self.scheduled_frame }
    }
}

impl RedrawScheduler {
    /// A fresh scheduler: the first frame is queued, so the first tick
    /// draws, and no deadline is pending.
    pub fn new() -> (s: RedrawScheduler)
        ensures
            s@ == fresh_view(),
    {
        RedrawScheduler { frame_queued: true, scheduled_frame: None }
    }

    /// Requests a redraw no later than `new_scheduled`. The pending deadline
    /// afterwards is the earlier of the previous one and `new_scheduled`: a
    /// later request never displaces an earlier, more urgent one.
    pub fn schedule(&mut self, new_scheduled: u64)
        ensures
            final(self)@ == after_schedule(old(self)@, new_scheduled),
    {
        match self.scheduled_frame {
            Some(previous_scheduled) => {
                if new_scheduled < previous_scheduled {
                    self.scheduled_frame = Some(new_scheduled);
                }
            },
            None => {
                self.scheduled_frame = Some(new_scheduled);
            },
        }
    }

    /// Requests an immediate redraw on the next tick. Idempotent, and
    /// independent of any pending deadline.
    pub fn queue_next_frame(&mut self)
        ensures
            final(self)@ == after_queue(old(self)@),
    {
        self.frame_queued = true;
    }

    /// The per-tick decision at time `now`: `true` if the immediate-redraw
    /// flag was set or a pending deadline has passed, else `false`. A `true`
    /// answer consumes exactly one of the two signals, the flag first; an
    /// expired deadline alongside a set flag stays pending for the next
    /// tick, so no request is ever dropped.
    pub fn should_draw(&mut self, now: u64) -> (draw: bool)
        ensures
            draw == draw_decision(old(self)@, now),
            final(self)@ == after_draw(old(self)@, now),
    {
        if self.frame_queued {
            self.frame_queued = false;
            true
        } else {
            match self.scheduled_frame {
                Some(scheduled_frame) => {
                    if scheduled_frame <= now {
                        self.scheduled_frame = None;
                        true
                    } else {
                        false
                    }
                },
                None => false,
            }
        }
    }
}

} // verus!
