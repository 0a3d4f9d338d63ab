//! A frame-redraw coalescing scheduler.
//!
//! Many independent producers (input handlers, timers, animations) may ask
//! for a redraw, either immediately or no later than some point in time.
//! [`RedrawScheduler`] coalesces all such requests into a single per-tick
//! decision — draw now, or wait — without missed deadlines and without
//! redundant wake-ups.
//!
//! The scheduler itself neither draws nor reads a clock: the driving loop
//! passes the current time into [`RedrawScheduler::should_draw`] and acts on
//! the answer.

pub mod laws;
pub mod scheduler;

pub use scheduler::RedrawScheduler;
pub use scheduler::SchedulerView;
