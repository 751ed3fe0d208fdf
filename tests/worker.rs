use codemelted::protocol::CProtocolError;
use codemelted::worker::{WorkerAction, WorkerPhase, WorkerState};

/// Runs one round of the worker thread with `f`, as a driver would.
fn serve_one(w: &mut WorkerState<i64>, f: fn(i64) -> i64) -> bool {
    match w.next_action() {
        WorkerAction::Process(v) => {
            w.deliver(f(v));
            true
        }
        WorkerAction::Wait => true,
        WorkerAction::Exit => false,
    }
}

fn add_one(x: i64) -> i64 {
    x + 1
}

#[test]
fn worker_adds_one_then_terminates() {
    let mut w: WorkerState<i64> = WorkerState::new("test_worker");
    assert!(w.is_running());
    assert_eq!(w.post_message(41), Ok(()));
    assert!(serve_one(&mut w, add_one));
    assert_eq!(w.get_message(), Ok(Some(42)));
    assert_eq!(w.get_message(), Ok(None));
    w.terminate();
    assert!(!serve_one(&mut w, add_one));
    assert!(!w.is_running());
}

#[test]
fn worker_results_come_back_in_posting_order() {
    let mut w: WorkerState<i64> = WorkerState::new("fifo");
    for m in 1..=5 {
        assert_eq!(w.post_message(m * 10), Ok(()));
    }
    for _ in 0..5 {
        assert!(serve_one(&mut w, add_one));
    }
    let mut got = Vec::new();
    while let Ok(Some(v)) = w.get_message() {
        got.push(v);
    }
    assert_eq!(got, vec![11, 21, 31, 41, 51]);
}

#[test]
fn worker_waits_when_idle() {
    let mut w: WorkerState<i64> = WorkerState::new("idle");
    assert!(matches!(w.next_action(), WorkerAction::Wait));
    assert_eq!(w.phase(), WorkerPhase::Running);
    assert_eq!(w.get_message(), Ok(None));
}

#[test]
fn worker_terminate_twice_is_harmless() {
    let mut w: WorkerState<i64> = WorkerState::new("twice");
    w.terminate();
    w.terminate();
    assert_eq!(w.phase(), WorkerPhase::Closing);
    assert!(!serve_one(&mut w, add_one));
    assert!(!w.is_running());
    w.terminate();
    assert!(!w.is_running());
    assert_eq!(w.phase(), WorkerPhase::Stopped);
}

#[test]
fn worker_drains_queue_after_terminate() {
    let mut w: WorkerState<i64> = WorkerState::new("drain");
    assert_eq!(w.post_message(1), Ok(()));
    assert_eq!(w.post_message(2), Ok(()));
    w.terminate();
    assert_eq!(w.post_message(3), Err(CProtocolError::Closed));
    assert!(serve_one(&mut w, add_one));
    assert!(serve_one(&mut w, add_one));
    assert!(w.is_running());
    assert!(!serve_one(&mut w, add_one));
    assert!(!w.is_running());
    assert_eq!(w.get_message(), Ok(Some(2)));
    assert_eq!(w.get_message(), Ok(Some(3)));
    assert_eq!(w.get_message(), Err(CProtocolError::Disconnected));
    assert!(!w.is_running());
}

#[test]
fn worker_keeps_its_id() {
    let w: WorkerState<i64> = WorkerState::new("named");
    assert_eq!(w.id(), "named");
}

#[test]
fn protocol_error_text() {
    assert_eq!(CProtocolError::Closed.as_string(), "protocol closed");
    assert_eq!(CProtocolError::Disconnected.as_string(), "protocol disconnected");
    assert_eq!(CProtocolError::InvalidData.as_string(), "invalid data for protocol");
}
