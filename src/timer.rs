//! The state of a repeating timer.
//!
//! The timer thread loops: sleep one interval, run the callback, then check
//! whether a stop was requested. A stop therefore takes effect at the end of
//! the tick in progress; the callback then in flight is allowed to finish.

use vstd::prelude::*;

verus! {

/// Where a timer stands in its lifecycle. There is no paused phase.
#[derive(Clone, Copy, Debug, PartialEq, Eq, Structural)]
pub enum TimerPhase {
    Running,
    /// A stop was requested; the thread exits at the end of its tick.
    Stopping,
    /// The thread has exited. A timer never leaves this phase.
    Stopped,
}

pub struct TimerModel {
    pub interval: u64,
    pub phase: TimerPhase,
}

pub open spec fn model_running(m: TimerModel) -> bool {
    m.phase != TimerPhase::Stopped
}

pub open spec fn model_stop(m: TimerModel) -> TimerModel {
    if m.phase == TimerPhase::Running {
        TimerModel { phase: TimerPhase::Stopping, ..m }
    } else {
        m
    }
}

/// Whether the thread runs another tick after the one that just ended.
pub open spec fn model_tick_result(m: TimerModel) -> bool {
    m.phase == TimerPhase::Running
}

pub open spec fn model_tick(m: TimerModel) -> TimerModel {
    if m.phase == TimerPhase::Running {
        m
    } else {
        TimerModel { phase: TimerPhase::Stopped, ..m }
    }
}

/// A stop takes effect at the end of the tick in progress: after `stop`, the
/// thread's next check ends the loop and the timer no longer runs. A stopped
/// timer stays stopped, and stopping again changes nothing.
pub proof fn lemma_timer_stop_bound(m: TimerModel)
    ensures
        !model_tick_result(model_stop(m)),
        !model_running(model_tick(model_stop(m))),
        model_stop(model_stop(m)) == model_stop(m),
        !model_running(m) ==> !model_running(model_stop(m)) && !model_running(model_tick(m)),
{
}

/// The state shared by a timer handle and its thread.
pub struct TimerState {
    interval: u64,
    phase: TimerPhase,
}

impl View for TimerState {
    type V = TimerModel;

    closed spec fn view(&self) -> TimerModel {
        TimerModel { interval: self.interval, phase: self.phase }
    }
}

impl TimerState {
    /// A running timer that ticks every `interval` milliseconds.
    pub fn new(interval: u64) -> (r: Self)
        ensures
            r@ == (TimerModel { interval, phase: TimerPhase::Running }),
    {
        TimerState { interval, phase: TimerPhase::Running }
    }

    pub fn interval(&self) -> (r: u64)
        ensures
            r == self@.interval,
    {
        self.interval
    }

    pub fn is_running(&self) -> (r: bool)
        ensures
            r == model_running(self@),
    {
        self.phase != TimerPhase::Stopped
    }

    /// Requests a stop; requesting it again changes nothing.
    pub fn stop(&mut self)
        ensures
            final(self)@ == model_stop(old(self)@),
    {
        if self.phase == TimerPhase::Running {
            self.phase = TimerPhase::Stopping;
        }
    }

    /// Called by the timer thread after each callback: `true` to run another
    /// tick, `false` to exit.
    pub fn end_tick(&mut self) -> (r: bool)
        ensures
            r == model_tick_result(old(self)@),
            final(self)@ == model_tick(old(self)@),
    {
        if self.phase == TimerPhase::Running {
            true
        } else {
            self.phase = TimerPhase::Stopped;
            false
        }
    }
}

} // verus!
