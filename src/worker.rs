//! The state shared between a worker handle and its dedicated thread.
//!
//! The owner posts messages into an inbound FIFO queue; the worker thread takes
//! them one at a time, runs its callback and delivers each result into an
//! outbound FIFO queue, which the owner drains. Terminating closes the inbound
//! queue: the thread still processes what was queued, then stops.

use vstd::prelude::*;
use crate::protocol::CProtocolError;

verus! {

/// Where a worker stands in its lifecycle.
#[derive(Clone, Copy, Debug, PartialEq, Eq, Structural)]
pub enum WorkerPhase {
    /// Accepting messages.
    Running,
    /// Terminated by its owner; the thread drains what is queued.
    Closing,
    /// The thread has exited. A worker never leaves this phase.
    Stopped,
}

/// What the worker thread does next.
pub enum WorkerAction<T> {
    /// Run the callback on this message and deliver the result.
    Process(T),
    /// Block until a message arrives or the worker is terminated.
    Wait,
    /// Exit the thread loop.
    Exit,
}

/// The mathematical model of a worker.
pub struct WorkerModel<T> {
    pub id: Seq<char>,
    pub inbound: Seq<T>,
    pub outbound: Seq<T>,
    pub phase: WorkerPhase,
    /// Every message the worker accepted, in posting order.
    pub accepted: Seq<T>,
    /// Every message handed to the thread, in order.
    pub handed: Seq<T>,
    /// Every result the thread delivered, in order.
    pub delivered: Seq<T>,
    /// Every result the owner received, in order.
    pub received: Seq<T>,
}

/// A worker that was just created.
pub open spec fn model_fresh<T>(id: Seq<char>) -> WorkerModel<T> {
    WorkerModel {
        id,
        inbound: seq![],
        outbound: seq![],
        phase: WorkerPhase::Running,
        accepted: seq![],
        handed: seq![],
        delivered: seq![],
        received: seq![],
    }
}

pub open spec fn model_running<T>(m: WorkerModel<T>) -> bool {
    m.phase != WorkerPhase::Stopped
}

/// Posting appends to the inbound queue while the worker runs, and is refused
/// afterwards.
pub open spec fn model_post<T>(m: WorkerModel<T>, v: T) -> WorkerModel<T> {
    if m.phase == WorkerPhase::Running {
        WorkerModel { inbound: m.inbound.push(v), accepted: m.accepted.push(v), ..m }
    } else {
        m
    }
}

pub open spec fn model_post_result<T>(m: WorkerModel<T>) -> Result<(), CProtocolError> {
    if m.phase == WorkerPhase::Running {
        Ok(())
    } else {
        Err(CProtocolError::Closed)
    }
}

/// The thread's next step: the oldest queued message first; with none queued,
/// wait while running and exit once terminated.
pub open spec fn model_action<T>(m: WorkerModel<T>) -> WorkerAction<T> {
    if m.inbound.len() > 0 {
        WorkerAction::Process(m.inbound[0])
    } else if m.phase == WorkerPhase::Running {
        WorkerAction::Wait
    } else {
        WorkerAction::Exit
    }
}

/// The state after the thread took its next step.
pub open spec fn model_take<T>(m: WorkerModel<T>) -> WorkerModel<T> {
    if m.inbound.len() > 0 {
        WorkerModel { inbound: m.inbound.drop_first(), handed: m.handed.push(m.inbound[0]), ..m }
    } else if m.phase == WorkerPhase::Running {
        m
    } else {
        WorkerModel { phase: WorkerPhase::Stopped, ..m }
    }
}

/// Delivering appends a result to the outbound queue.
pub open spec fn model_deliver<T>(m: WorkerModel<T>, r: T) -> WorkerModel<T> {
    WorkerModel { outbound: m.outbound.push(r), delivered: m.delivered.push(r), ..m }
}

/// What the owner receives: the oldest undrained result, nothing yet while
/// the thread may still produce, or a disconnect once it has stopped.
pub open spec fn model_get_result<T>(m: WorkerModel<T>) -> Result<Option<T>, CProtocolError> {
    if m.outbound.len() > 0 {
        Ok(Some(m.outbound[0]))
    } else if m.phase == WorkerPhase::Stopped {
        Err(CProtocolError::Disconnected)
    } else {
        Ok(None)
    }
}

pub open spec fn model_get<T>(m: WorkerModel<T>) -> WorkerModel<T> {
    if m.outbound.len() > 0 {
        WorkerModel {
            outbound: m.outbound.drop_first(),
            received: m.received.push(m.outbound[0]),
            ..m
        }
    } else {
        m
    }
}

/// Terminating closes a running worker and leaves any other unchanged.
pub open spec fn model_terminate<T>(m: WorkerModel<T>) -> WorkerModel<T> {
    if m.phase == WorkerPhase::Running {
        WorkerModel { phase: WorkerPhase::Closing, ..m }
    } else {
        m
    }
}

/// Both queues are first in, first out: the messages handed to the thread,
/// then those still queued, are the accepted messages in posting order; the
/// results received, then those waiting, are the delivered results in order.
pub open spec fn model_fifo<T>(m: WorkerModel<T>) -> bool {
    &&& m.handed + m.inbound == m.accepted
    &&& m.received + m.outbound == m.delivered
}

/// Every operation keeps both queues first in, first out, for any number of
/// calls: so the thread takes messages in posting order, and the owner
/// receives results in the order the thread delivered them.
pub proof fn lemma_worker_queues_fifo<T>(m: WorkerModel<T>)
    requires
        model_fifo(m),
    ensures
        forall|v: T| #[trigger] model_fifo(model_post(m, v)),
        model_fifo(model_take(m)),
        forall|v: T| #[trigger] model_fifo(model_deliver(m, v)),
        model_fifo(model_get(m)),
        model_fifo(model_terminate(m)),
{
    assert forall|v: T| #[trigger] model_fifo(model_post(m, v)) by {
        if m.phase == WorkerPhase::Running {
            assert(m.handed + m.inbound.push(v) =~= (m.handed + m.inbound).push(v));
        }
    }
    if m.inbound.len() > 0 {
        assert(m.handed.push(m.inbound[0]) + m.inbound.drop_first() =~= m.handed + m.inbound);
    }
    assert forall|v: T| #[trigger] model_fifo(model_deliver(m, v)) by {
        assert(m.received + m.outbound.push(v) =~= (m.received + m.outbound).push(v));
    }
    if m.outbound.len() > 0 {
        assert(m.received.push(m.outbound[0]) + m.outbound.drop_first() =~= m.received
            + m.outbound);
    }
}

/// Posts each of `msgs`, in order.
pub open spec fn model_post_all<T>(m: WorkerModel<T>, msgs: Seq<T>) -> WorkerModel<T>
    decreases msgs.len(),
{
    if msgs.len() == 0 {
        m
    } else {
        model_post(model_post_all(m, msgs.drop_last()), msgs.last())
    }
}

/// One round of the worker thread with callback `f`: take the next step and,
/// for a message, deliver what `f` makes of it.
pub open spec fn model_serve_one<T>(m: WorkerModel<T>, f: spec_fn(T) -> T) -> WorkerModel<T> {
    match model_action(m) {
        WorkerAction::Process(v) => model_deliver(model_take(m), f(v)),
        _ => model_take(m),
    }
}

/// `n` rounds of the worker thread with callback `f`.
pub open spec fn model_serve<T>(m: WorkerModel<T>, f: spec_fn(T) -> T, n: nat) -> WorkerModel<T>
    decreases n,
{
    if n == 0 {
        m
    } else {
        model_serve_one(model_serve(m, f, (n - 1) as nat), f)
    }
}

/// What `n` successive calls of `get_message` yield, up to the first one that
/// yields no result.
pub open spec fn model_received<T>(m: WorkerModel<T>, n: nat) -> Seq<T>
    decreases n,
{
    if n == 0 {
        seq![]
    } else {
        match model_get_result(m) {
            Ok(Some(v)) => seq![v] + model_received(model_get(m), (n - 1) as nat),
            _ => seq![],
        }
    }
}

proof fn lemma_post_all<T>(m: WorkerModel<T>, msgs: Seq<T>)
    requires
        m.phase == WorkerPhase::Running,
    ensures
        model_post_all(m, msgs).inbound == m.inbound + msgs,
        model_post_all(m, msgs).outbound == m.outbound,
        model_post_all(m, msgs).phase == m.phase,
    decreases msgs.len(),
{
    if msgs.len() == 0 {
        assert(m.inbound + msgs =~= m.inbound);
    } else {
        lemma_post_all(m, msgs.drop_last());
        assert((m.inbound + msgs.drop_last()).push(msgs.last()) =~= m.inbound + msgs);
    }
}

proof fn lemma_serve<T>(m: WorkerModel<T>, f: spec_fn(T) -> T, n: nat)
    requires
        n <= m.inbound.len(),
    ensures
        model_serve(m, f, n).inbound == m.inbound.subrange(n as int, m.inbound.len() as int),
        model_serve(m, f, n).outbound == m.outbound + m.inbound.subrange(0, n as int).map_values(f),
        model_serve(m, f, n).phase == m.phase,
    decreases n,
{
    if n == 0 {
        assert(m.inbound.subrange(0, m.inbound.len() as int) =~= m.inbound);
        assert(m.outbound + m.inbound.subrange(0, 0).map_values(f) =~= m.outbound);
    } else {
        lemma_serve(m, f, (n - 1) as nat);
        let prev = model_serve(m, f, (n - 1) as nat);
        assert(prev.inbound[0] == m.inbound[n - 1]);
        assert(prev.inbound.drop_first() =~= m.inbound.subrange(n as int, m.inbound.len() as int));
        assert(prev.outbound.push(f(prev.inbound[0])) =~= m.outbound + m.inbound.subrange(
            0,
            n as int,
        ).map_values(f));
    }
}

proof fn lemma_received<T>(m: WorkerModel<T>, n: nat)
    requires
        n <= m.outbound.len(),
    ensures
        model_received(m, n) == m.outbound.subrange(0, n as int),
    decreases n,
{
    if n == 0 {
        assert(m.outbound.subrange(0, 0) =~= seq![]);
    } else {
        lemma_received(model_get(m), (n - 1) as nat);
        assert(seq![m.outbound[0]] + m.outbound.drop_first().subrange(0, n - 1)
            =~= m.outbound.subrange(0, n as int));
    }
}

/// Messages are handled first in, first out: after posting `msgs` to a new
/// worker in order and letting its thread serve one round per message with
/// callback `f`, receiving as many times yields `f` of each message, in the
/// order the messages were posted.
pub proof fn lemma_worker_fifo<T>(id: Seq<char>, msgs: Seq<T>, f: spec_fn(T) -> T)
    ensures
        model_received(
            model_serve(model_post_all(model_fresh(id), msgs), f, msgs.len()),
            msgs.len(),
        ) == msgs.map_values(f),
{
    let m0 = model_fresh::<T>(id);
    lemma_post_all(m0, msgs);
    let m1 = model_post_all(m0, msgs);
    assert(m1.inbound =~= msgs);
    lemma_serve(m1, f, msgs.len());
    let m2 = model_serve(m1, f, msgs.len());
    assert(m1.inbound.subrange(0, msgs.len() as int) =~= msgs);
    assert(m2.outbound =~= msgs.map_values(f));
    lemma_received(m2, msgs.len());
    assert(m2.outbound.subrange(0, msgs.len() as int) =~= m2.outbound);
}

/// One step of a worker's life, by its owner or by its thread.
pub enum WorkerOp<T> {
    /// The owner posts a message.
    Post(T),
    /// The thread serves one round.
    Serve,
    /// The owner asks for a result.
    Receive,
    /// The owner terminates the worker.
    Terminate,
}

/// A worker together with the messages it accepted and the results its
/// owner received so far.
pub struct WorkerRun<T> {
    pub state: WorkerModel<T>,
    pub accepted: Seq<T>,
    pub received: Seq<T>,
}

pub open spec fn run_op<T>(r: WorkerRun<T>, f: spec_fn(T) -> T, op: WorkerOp<T>) -> WorkerRun<T> {
    match op {
        WorkerOp::Post(v) => WorkerRun {
            state: model_post(r.state, v),
            accepted: if r.state.phase == WorkerPhase::Running {
                r.accepted.push(v)
            } else {
                r.accepted
            },
            received: r.received,
        },
        WorkerOp::Serve => WorkerRun { state: model_serve_one(r.state, f), ..r },
        WorkerOp::Receive => match model_get_result(r.state) {
            Ok(Some(v)) => WorkerRun {
                state: model_get(r.state),
                received: r.received.push(v),
                ..r
            },
            _ => WorkerRun { state: model_get(r.state), ..r },
        },
        WorkerOp::Terminate => WorkerRun { state: model_terminate(r.state), ..r },
    }
}

/// Applies `ops` in order.
pub open spec fn run_ops<T>(r: WorkerRun<T>, f: spec_fn(T) -> T, ops: Seq<WorkerOp<T>>) -> WorkerRun<T>
    decreases ops.len(),
{
    if ops.len() == 0 {
        r
    } else {
        run_op(run_ops(r, f, ops.drop_last()), f, ops.last())
    }
}

/// Every accepted message is, in order, either received, delivered and
/// waiting, or still queued.
pub open spec fn run_in_order<T>(r: WorkerRun<T>, f: spec_fn(T) -> T) -> bool {
    r.received + r.state.outbound + r.state.inbound.map_values(f) == r.accepted.map_values(f)
}

proof fn lemma_run_op_in_order<T>(r: WorkerRun<T>, f: spec_fn(T) -> T, op: WorkerOp<T>)
    requires
        run_in_order(r, f),
    ensures
        run_in_order(run_op(r, f, op), f),
{
    let m = r.state;
    let next = run_op(r, f, op);
    match op {
        WorkerOp::Post(v) => {
            if m.phase == WorkerPhase::Running {
                assert(m.inbound.push(v).map_values(f) =~= m.inbound.map_values(f).push(f(v)));
                assert(r.accepted.push(v).map_values(f) =~= r.accepted.map_values(f).push(f(v)));
                assert(next.received + next.state.outbound + next.state.inbound.map_values(f)
                    =~= (r.received + m.outbound + m.inbound.map_values(f)).push(f(v)));
            }
        },
        WorkerOp::Serve => {
            if m.inbound.len() > 0 {
                assert(m.inbound.map_values(f) =~= seq![f(m.inbound[0])] + m.inbound.drop_first().map_values(
                    f,
                ));
                assert(next.received + next.state.outbound + next.state.inbound.map_values(f)
                    =~= r.received + m.outbound + m.inbound.map_values(f));
            }
        },
        WorkerOp::Receive => {
            if m.outbound.len() > 0 {
                assert(next.received + next.state.outbound =~= r.received + m.outbound);
                assert(next.received + next.state.outbound + next.state.inbound.map_values(f)
                    =~= r.received + m.outbound + m.inbound.map_values(f));
            }
        },
        WorkerOp::Terminate => {},
    }
}

proof fn lemma_run_ops_in_order<T>(r: WorkerRun<T>, f: spec_fn(T) -> T, ops: Seq<WorkerOp<T>>)
    requires
        run_in_order(r, f),
    ensures
        run_in_order(run_ops(r, f, ops), f),
    decreases ops.len(),
{
    if ops.len() > 0 {
        lemma_run_ops_in_order(r, f, ops.drop_last());
        lemma_run_op_in_order(run_ops(r, f, ops.drop_last()), f, ops.last());
    }
}

/// Messages are handled first in, first out, however posting, serving,
/// receiving and terminating interleave: starting from a new worker, the
/// results received so far, then those delivered and waiting, then `f` of
/// the messages still queued, are exactly `f` of the accepted messages in
/// posting order. In particular what was received is a prefix of that.
pub proof fn lemma_worker_fifo_interleaved<T>(id: Seq<char>, f: spec_fn(T) -> T, ops: Seq<WorkerOp<T>>)
    ensures
        run_in_order(
            run_ops(WorkerRun { state: model_fresh(id), accepted: seq![], received: seq![] }, f, ops),
            f,
        ),
        ({
            let r = run_ops(
                WorkerRun { state: model_fresh(id), accepted: seq![], received: seq![] },
                f,
                ops,
            );
            r.received == r.accepted.map_values(f).subrange(0, r.received.len() as int)
        }),
{
    let start = WorkerRun { state: model_fresh::<T>(id), accepted: seq![], received: seq![] };
    assert(start.received + start.state.outbound + start.state.inbound.map_values(f)
        =~= start.accepted.map_values(f));
    lemma_run_ops_in_order(start, f, ops);
    let r = run_ops(start, f, ops);
    let all = r.received + r.state.outbound + r.state.inbound.map_values(f);
    assert(all.subrange(0, r.received.len() as int) =~= r.received);
}

/// Terminating twice leaves a worker as terminating once does; and either
/// way, once its thread has drained the queue, the worker no longer runs.
pub proof fn lemma_worker_terminate_idempotent<T>(m: WorkerModel<T>, f: spec_fn(T) -> T)
    ensures
        model_terminate(model_terminate(m)) == model_terminate(m),
        !model_running(model_serve(model_terminate(m), f, m.inbound.len() + 1)),
{
    let t = model_terminate(m);
    lemma_serve(t, f, m.inbound.len());
    let drained = model_serve(t, f, m.inbound.len());
    assert(drained.inbound.len() == 0);
}

/// Once a worker has stopped, no operation makes it run again, posting is
/// refused and nothing but already delivered results can be received.
pub proof fn lemma_worker_stopped_stays<T>(m: WorkerModel<T>, v: T)
    requires
        !model_running(m),
    ensures
        !model_running(model_post(m, v)),
        !model_running(model_take(m)),
        !model_running(model_deliver(m, v)),
        !model_running(model_get(m)),
        !model_running(model_terminate(m)),
        model_post_result(m) == Err::<(), CProtocolError>(CProtocolError::Closed),
        m.outbound.len() == 0 ==> model_get_result(m) == Err::<Option<T>, CProtocolError>(
            CProtocolError::Disconnected,
        ),
{
}

/// The state shared by a worker handle and its thread.
pub struct WorkerState<T> {
    id: String,
    inbound: Vec<T>,
    outbound: Vec<T>,
    phase: WorkerPhase,
    accepted: Ghost<Seq<T>>,
    handed: Ghost<Seq<T>>,
    delivered: Ghost<Seq<T>>,
    received: Ghost<Seq<T>>,
}

impl<T> View for WorkerState<T> {
    type V = WorkerModel<T>;

    closed spec fn view(&self) -> WorkerModel<T> {
        WorkerModel {
            id: self.id@,
            inbound: self.inbound@,
            outbound: self.outbound@,
            phase: self.phase,
            accepted: self.accepted@,
            handed: self.handed@,
            delivered: self.delivered@,
            received: self.received@,
        }
    }
}

impl<T> WorkerState<T> {
    /// A running worker named `id` with both queues empty.
    pub fn new(id: &str) -> (r: Self)
        ensures
            r@ == model_fresh::<T>(id@),
            model_fifo(r@),
    {
        let r = WorkerState {
            id: String::from_str(id),
            inbound: Vec::new(),
            outbound: Vec::new(),
            phase: WorkerPhase::Running,
            accepted: Ghost(Seq::empty()),
            handed: Ghost(Seq::empty()),
            delivered: Ghost(Seq::empty()),
            received: Ghost(Seq::empty()),
        };
        assert(r@.handed + r@.inbound =~= r@.accepted);
        assert(r@.received + r@.outbound =~= r@.delivered);
        r
    }

    pub fn id(&self) -> (r: String)
        ensures
            r@ == self@.id,
    {
        self.id.clone()
    }

    pub fn phase(&self) -> (r: WorkerPhase)
        ensures
            r == self@.phase,
    {
        self.phase
    }

    pub fn is_running(&self) -> (r: bool)
        ensures
            r == model_running(self@),
    {
        self.phase != WorkerPhase::Stopped
    }

    /// Queues `data` behind every message posted before it; refused with
    /// `Closed` once the worker was terminated.
    pub fn post_message(&mut self, data: T) -> (r: Result<(), CProtocolError>)
        ensures
            final(self)@ == model_post(old(self)@, data),
            r == model_post_result(old(self)@),
            model_fifo(old(self)@) ==> model_fifo(final(self)@),
    {
        proof {
            if model_fifo(old(self)@) {
                lemma_worker_queues_fifo(old(self)@);
            }
        }
        if self.phase == WorkerPhase::Running {
            self.accepted = Ghost(self.accepted@.push(data));
            self.inbound.push(data);
            Ok(())
        } else {
            Err(CProtocolError::Closed)
        }
    }

    /// Called by the worker thread: hands out the oldest queued message, or
    /// says to wait, or to exit once the worker was terminated and drained.
    pub fn next_action(&mut self) -> (a: WorkerAction<T>)
        ensures
            a == model_action(old(self)@),
            final(self)@ == model_take(old(self)@),
            model_fifo(old(self)@) ==> model_fifo(final(self)@),
    {
        proof {
            if model_fifo(old(self)@) {
                lemma_worker_queues_fifo(old(self)@);
            }
        }
        if self.inbound.len() > 0 {
            let v = self.inbound.remove(0);
            self.handed = Ghost(self.handed@.push(v));
            WorkerAction::Process(v)
        } else if self.phase == WorkerPhase::Running {
            WorkerAction::Wait
        } else {
            self.phase = WorkerPhase::Stopped;
            WorkerAction::Exit
        }
    }

    /// Called by the worker thread with the callback's result.
    pub fn deliver(&mut self, result: T)
        ensures
            final(self)@ == model_deliver(old(self)@, result),
            model_fifo(old(self)@) ==> model_fifo(final(self)@),
    {
        proof {
            if model_fifo(old(self)@) {
                lemma_worker_queues_fifo(old(self)@);
            }
        }
        self.delivered = Ghost(self.delivered@.push(result));
        self.outbound.push(result);
    }

    /// Takes the oldest undelivered result, if any.
    pub fn get_message(&mut self) -> (r: Result<Option<T>, CProtocolError>)
        ensures
            r == model_get_result(old(self)@),
            final(self)@ == model_get(old(self)@),
            model_fifo(old(self)@) ==> model_fifo(final(self)@),
    {
        proof {
            if model_fifo(old(self)@) {
                lemma_worker_queues_fifo(old(self)@);
            }
        }
        if self.outbound.len() > 0 {
            let v = self.outbound.remove(0);
            self.received = Ghost(self.received@.push(v));
            Ok(Some(v))
        } else if self.phase == WorkerPhase::Stopped {
            Err(CProtocolError::Disconnected)
        } else {
            Ok(None)
        }
    }

    /// Closes the inbound queue; the thread exits once it has drained it.
    pub fn terminate(&mut self)
        ensures
            final(self)@ == model_terminate(old(self)@),
            model_fifo(old(self)@) ==> model_fifo(final(self)@),
    {
        proof {
            if model_fifo(old(self)@) {
                lemma_worker_queues_fifo(old(self)@);
            }
        }

        if self.phase == WorkerPhase::Running {
            self.phase = WorkerPhase::Closing;
        }
    }
}

} // verus!
