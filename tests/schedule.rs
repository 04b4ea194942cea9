use monitoring_app::schedule::Scheduler;

#[test]
fn new_scheduler_is_idle() {
    let s = Scheduler::new(2);
    assert_eq!(s.units(), 2);
    assert!(s.tick_complete());
    assert_eq!(s.outcome(0), None);
}

#[test]
fn one_failure_does_not_stop_the_other_unit() {
    let mut s = Scheduler::new(2);
    assert!(s.begin_tick());
    s.finish(0, false);
    assert!(s.is_running(1));
    assert!(!s.tick_complete());
    s.finish(1, true);
    assert_eq!(s.outcome(0), Some(false));
    assert_eq!(s.outcome(1), Some(true));
    assert!(s.tick_complete());
}

#[test]
fn next_tick_waits_for_every_unit() {
    let mut s = Scheduler::new(2);
    assert!(s.begin_tick());
    s.finish(1, true);
    assert!(!s.begin_tick());
    assert!(s.is_running(0));
    assert_eq!(s.outcome(1), Some(true));
    s.finish(0, true);
    assert!(s.begin_tick());
    assert!(s.is_running(0) && s.is_running(1));
    assert_eq!(s.outcome(0), None);
    assert_eq!(s.outcome(1), None);
}

#[test]
fn idle_unit_cannot_finish() {
    let mut s = Scheduler::new(1);
    s.finish(0, false);
    assert_eq!(s.outcome(0), None);
    assert!(s.tick_complete());
}
