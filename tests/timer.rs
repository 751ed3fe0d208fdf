use codemelted::timer::TimerState;

#[test]
fn timer_stops_at_end_of_tick() {
    let mut t = TimerState::new(250);
    assert_eq!(t.interval(), 250);
    assert!(t.is_running());
    assert!(t.end_tick());
    assert!(t.end_tick());
    t.stop();
    assert!(t.is_running());
    assert!(!t.end_tick());
    assert!(!t.is_running());
}

#[test]
fn timer_stop_twice_is_harmless() {
    let mut t = TimerState::new(10);
    t.stop();
    t.stop();
    assert!(!t.end_tick());
    t.stop();
    assert!(!t.is_running());
    assert!(!t.end_tick());
}
