//! The state of a one-shot background task.
//!
//! The task thread first sleeps until the configured delay has elapsed, then
//! runs the callback once and records its result, or records that the
//! callback failed. The owner polls `value`, which yields the result exactly
//! once; a failed callback yields no result rather than propagating.

use vstd::prelude::*;

verus! {

/// What became of the task's callback.
#[derive(Clone, Copy, Debug, PartialEq, Eq, Structural)]
pub enum TaskOutcome {
    /// Not finished yet.
    Pending,
    /// Finished; its result is not yet handed out.
    Completed,
    /// The callback failed before producing a result.
    Failed,
    /// The result was handed out.
    Taken,
}

/// What the task thread does next.
#[derive(Clone, Copy, Debug, PartialEq, Eq, Structural)]
pub enum TaskStep {
    /// Sleep this many more milliseconds, then report them with `advance`.
    Sleep(u64),
    /// Run the callback now.
    Run,
}

/// What the owner sees when asking for the value.
pub enum TaskPoll<T> {
    /// The task has not finished: ask again later.
    Pending,
    /// The task has finished; a failed or already consumed task gives `None`.
    Ready(Option<T>),
}

pub struct TaskModel<T> {
    pub delay: u64,
    pub elapsed: u64,
    pub started: bool,
    pub outcome: TaskOutcome,
    pub result: Option<T>,
}

/// The callback starts only once the delay has elapsed, and finishes only
/// after it started.
pub open spec fn model_wf<T>(m: TaskModel<T>) -> bool {
    &&& m.started ==> m.elapsed >= m.delay
    &&& m.outcome != TaskOutcome::Pending ==> m.started
}

pub open spec fn model_fresh<T>(delay: u64) -> TaskModel<T> {
    TaskModel { delay, elapsed: 0, started: false, outcome: TaskOutcome::Pending, result: None }
}

pub open spec fn model_step_result<T>(m: TaskModel<T>) -> TaskStep {
    if m.elapsed >= m.delay {
        TaskStep::Run
    } else {
        TaskStep::Sleep((m.delay - m.elapsed) as u64)
    }
}

pub open spec fn model_step<T>(m: TaskModel<T>) -> TaskModel<T> {
    if m.elapsed >= m.delay {
        TaskModel { started: true, ..m }
    } else {
        m
    }
}

/// Time passing on the task thread; the clock saturates at `u64::MAX`.
pub open spec fn model_advance<T>(m: TaskModel<T>, ms: u64) -> TaskModel<T> {
    let e = m.elapsed + ms;
    TaskModel { elapsed: if e > u64::MAX { u64::MAX } else { e as u64 }, ..m }
}

pub open spec fn model_complete<T>(m: TaskModel<T>, result: Option<T>) -> TaskModel<T> {
    if m.started && m.outcome == TaskOutcome::Pending {
        TaskModel { outcome: TaskOutcome::Completed, result, ..m }
    } else {
        m
    }
}

pub open spec fn model_fail<T>(m: TaskModel<T>) -> TaskModel<T> {
    if m.started && m.outcome == TaskOutcome::Pending {
        TaskModel { outcome: TaskOutcome::Failed, ..m }
    } else {
        m
    }
}

pub open spec fn model_has_completed<T>(m: TaskModel<T>) -> bool {
    m.outcome != TaskOutcome::Pending
}

pub open spec fn model_value_result<T>(m: TaskModel<T>) -> TaskPoll<T> {
    match m.outcome {
        TaskOutcome::Pending => TaskPoll::Pending,
        TaskOutcome::Completed => TaskPoll::Ready(m.result),
        _ => TaskPoll::Ready(None),
    }
}

pub open spec fn model_value<T>(m: TaskModel<T>) -> TaskModel<T> {
    if m.outcome == TaskOutcome::Completed {
        TaskModel { outcome: TaskOutcome::Taken, result: None, ..m }
    } else {
        m
    }
}

/// The task yields a value only once its delay has elapsed: whenever `value`
/// would return `Ready`, the task's clock has reached the configured delay.
pub proof fn lemma_task_value_after_delay<T>(m: TaskModel<T>)
    requires
        model_wf(m),
        model_value_result(m) is Ready,
    ensures
        m.elapsed >= m.delay,
        model_has_completed(m),
{
}

/// Every transition keeps the task well formed, so the previous law holds in
/// every state reachable from a new task.
pub proof fn lemma_task_wf_preserved<T>(m: TaskModel<T>, ms: u64, result: Option<T>)
    requires
        model_wf(m),
    ensures
        model_wf(model_step(m)),
        model_wf(model_advance(m, ms)),
        model_wf(model_complete(m, result)),
        model_wf(model_fail(m)),
        model_wf(model_value(m)),
{
}

/// A task that fails while running is contained: it counts as completed and
/// `value` yields `None`, now and on every later call.
pub proof fn lemma_task_failure_contained<T>(m: TaskModel<T>)
    requires
        model_wf(m),
        m.started,
        m.outcome == TaskOutcome::Pending,
    ensures
        model_has_completed(model_fail(m)),
        model_value_result(model_fail(m)) == TaskPoll::<T>::Ready(None),
        model_value_result(model_value(model_fail(m))) == TaskPoll::<T>::Ready(None),
{
}

/// The task's clock and progress, which always satisfy `model_wf`.
struct TaskClock {
    delay: u64,
    elapsed: u64,
    started: bool,
    outcome: TaskOutcome,
}

impl TaskClock {
    #[verifier::type_invariant]
    spec fn inv(&self) -> bool {
        &&& self.started ==> self.elapsed >= self.delay
        &&& self.outcome != TaskOutcome::Pending ==> self.started
    }

    fn new(delay: u64) -> (r: Self)
        ensures
            r.delay == delay,
            r.elapsed == 0,
            !r.started,
            r.outcome == TaskOutcome::Pending,
    {
        TaskClock { delay, elapsed: 0, started: false, outcome: TaskOutcome::Pending }
    }

    fn step(&mut self) -> (r: TaskStep)
        ensures
            final(self).delay == old(self).delay,
            final(self).outcome == old(self).outcome,
            final(self).elapsed == old(self).elapsed,
            final(self).started == (old(self).started || old(self).elapsed >= old(self).delay),
            r == (if old(self).elapsed >= old(self).delay {
                TaskStep::Run
            } else {
                TaskStep::Sleep((old(self).delay - old(self).elapsed) as u64)
            }),
    {
        proof {
            use_type_invariant(&*self);
        }
        if self.elapsed >= self.delay {
            self.started = true;
            TaskStep::Run
        } else {
            TaskStep::Sleep(self.delay - self.elapsed)
        }
    }

    fn advance(&mut self, ms: u64)
        ensures
            final(self).delay == old(self).delay,
            final(self).outcome == old(self).outcome,
            final(self).started == old(self).started,
            final(self).elapsed == (if old(self).elapsed + ms > u64::MAX {
                u64::MAX
            } else {
                (old(self).elapsed + ms) as u64
            }),
    {
        proof {
            use_type_invariant(&*self);
        }
        if ms > u64::MAX - self.elapsed {
            self.elapsed = u64::MAX;
        } else {
            self.elapsed = self.elapsed + ms;
        }
    }

    /// Moves a started, unfinished task to `to`; anything else is unchanged.
    fn finish(&mut self, to: TaskOutcome) -> (r: bool)
        ensures
            r == (old(self).started && old(self).outcome == TaskOutcome::Pending),
            final(self).delay == old(self).delay,
            final(self).elapsed == old(self).elapsed,
            final(self).started == old(self).started,
            final(self).outcome == (if r { to } else { old(self).outcome }),
    {
        proof {
            use_type_invariant(&*self);
        }
        if self.started && self.outcome == TaskOutcome::Pending {
            self.outcome = to;
            true
        } else {
            false
        }
    }

    /// Marks a completed task's result as handed out.
    fn take(&mut self) -> (r: bool)
        ensures
            r == (old(self).outcome == TaskOutcome::Completed),
            final(self).delay == old(self).delay,
            final(self).elapsed == old(self).elapsed,
            final(self).started == old(self).started,
            final(self).outcome == (if r { TaskOutcome::Taken } else { old(self).outcome }),
    {
        proof {
            use_type_invariant(&*self);
        }
        if self.outcome == TaskOutcome::Completed {
            self.outcome = TaskOutcome::Taken;
            true
        } else {
            false
        }
    }
}

/// The state shared by a task handle and its thread.
pub struct TaskState<T> {
    clock: TaskClock,
    result: Option<T>,
}

impl<T> View for TaskState<T> {
    type V = TaskModel<T>;

    closed spec fn view(&self) -> TaskModel<T> {
        TaskModel {
            delay: self.clock.delay,
            elapsed: self.clock.elapsed,
            started: self.clock.started,
            outcome: self.clock.outcome,
            result: self.result,
        }
    }
}

impl<T> TaskState<T> {
    /// A task that runs its callback once `delay` milliseconds have elapsed.
    pub fn new(delay: u64) -> (r: Self)
        ensures
            r@ == model_fresh::<T>(delay),
            model_wf(r@),
    {
        TaskState { clock: TaskClock::new(delay), result: None }
    }

    pub fn delay(&self) -> (r: u64)
        ensures
            r == self@.delay,
    {
        self.clock.delay
    }

    /// Called by the task thread: how long to sleep still, or run now.
    pub fn step(&mut self) -> (r: TaskStep)
        ensures
            r == model_step_result(old(self)@),
            final(self)@ == model_step(old(self)@),
            model_wf(final(self)@),
    {
        let r = self.clock.step();
        proof {
            use_type_invariant(&self.clock);
        }
        r
    }

    /// Called by the task thread after sleeping `ms` milliseconds.
    pub fn advance(&mut self, ms: u64)
        ensures
            final(self)@ == model_advance(old(self)@, ms),
            model_wf(final(self)@),
    {
        self.clock.advance(ms);
        proof {
            use_type_invariant(&self.clock);
        }
    }

    /// Called by the task thread with the callback's result.
    pub fn complete(&mut self, result: Option<T>)
        ensures
            final(self)@ == model_complete(old(self)@, result),
            model_wf(final(self)@),
    {
        if self.clock.finish(TaskOutcome::Completed) {
            self.result = result;
        }
        proof {
            use_type_invariant(&self.clock);
        }
    }

    /// Called by the task thread when the callback failed.
    pub fn fail(&mut self)
        ensures
            final(self)@ == model_fail(old(self)@),
            model_wf(final(self)@),
    {
        let _ = self.clock.finish(TaskOutcome::Failed);
        proof {
            use_type_invariant(&self.clock);
        }
    }

    /// Whether the callback has finished, one way or the other.
    pub fn has_completed(&self) -> (r: bool)
        ensures
            r == model_has_completed(self@),
            r ==> self@.elapsed >= self@.delay,
            model_wf(self@),
    {
        proof {
            use_type_invariant(&self.clock);
        }
        self.clock.outcome != TaskOutcome::Pending
    }

    /// The task's result, handed out once; `Pending` until the task finished.
    pub fn value(&mut self) -> (r: TaskPoll<T>)
        ensures
            r == model_value_result(old(self)@),
            r is Ready ==> old(self)@.elapsed >= old(self)@.delay,
            final(self)@ == model_value(old(self)@),
            model_wf(final(self)@),
    {
        proof {
            use_type_invariant(&self.clock);
        }
        let r = if self.clock.outcome == TaskOutcome::Pending {
            TaskPoll::Pending
        } else if self.clock.take() {
            TaskPoll::Ready(self.result.take())
        } else {
            TaskPoll::Ready(None)
        };
        proof {
            use_type_invariant(&self.clock);
        }
        r
    }
}

} // verus!
