use codemelted::task::{TaskPoll, TaskState, TaskStep};

#[test]
fn task_runs_only_after_its_delay() {
    let mut t: TaskState<i64> = TaskState::new(500);
    assert_eq!(t.step(), TaskStep::Sleep(500));
    t.advance(200);
    assert_eq!(t.step(), TaskStep::Sleep(300));
    assert!(matches!(t.value(), TaskPoll::Pending));
    t.complete(Some(1));
    assert!(!t.has_completed());
    t.advance(300);
    assert_eq!(t.step(), TaskStep::Run);
    t.complete(Some(66));
    assert!(t.has_completed());
    assert!(matches!(t.value(), TaskPoll::Ready(Some(66))));
    assert!(matches!(t.value(), TaskPoll::Ready(None)));
}

#[test]
fn task_without_delay_runs_at_once() {
    let mut t: TaskState<i64> = TaskState::new(0);
    assert_eq!(t.delay(), 0);
    assert_eq!(t.step(), TaskStep::Run);
    t.complete(None);
    assert!(matches!(t.value(), TaskPoll::Ready(None)));
}

#[test]
fn task_failure_yields_none() {
    let mut t: TaskState<i64> = TaskState::new(10);
    t.advance(10);
    assert_eq!(t.step(), TaskStep::Run);
    t.fail();
    assert!(t.has_completed());
    assert!(matches!(t.value(), TaskPoll::Ready(None)));
    t.complete(Some(5));
    assert!(matches!(t.value(), TaskPoll::Ready(None)));
}

#[test]
fn task_clock_saturates() {
    let mut t: TaskState<i64> = TaskState::new(u64::MAX);
    t.advance(u64::MAX - 1);
    assert_eq!(t.step(), TaskStep::Sleep(1));
    t.advance(5);
    assert_eq!(t.step(), TaskStep::Run);
}
