//! Emulated time against the wall clock.
use ue2emu::pacing::{Course, Pacer, Shift, DISPLAY_PERIOD_MS};

#[test]
fn pacer_sleeps_when_ahead_and_reanchors_when_far_behind() {
    let mut pacer = Pacer::new(0);
    assert_eq!(pacer.delay_at(10, 9), None, "within the slack");
    assert_eq!(pacer.delay_at(10, 5), Some(5));
    assert_eq!(pacer.delay_at(10, 50), None);
    assert_eq!(pacer.anchor_emu_ms, 0);
    assert_eq!(pacer.delay_at(10, 500), None);
    assert_eq!(pacer.anchor_emu_ms, 10, "backlog dropped");
}

#[test]
fn a_lag_is_told_before_the_anchor_moves() {
    let mut pacer = Pacer::new(0);
    assert!(!pacer.lags(10, 110));
    assert!(pacer.lags(10, 111));
    pacer.delay_at(10, 111);
    assert!(!pacer.lags(10, 0), "anchored anew");
}

#[test]
fn displays_come_at_their_period() {
    let mut s = Shift::new();
    assert!(s.display_due(0));
    assert!(!s.display_due(DISPLAY_PERIOD_MS - 1));
    assert!(s.display_due(DISPLAY_PERIOD_MS));
}

#[test]
fn quitting_waits_for_the_guest_to_finish_writing() {
    let mut s = Shift::new();
    assert_eq!(s.course(5, false, false, true, 100), Course::Run);
    assert_eq!(s.course(10, false, true, true, 100), Course::Linger { first: true });
    assert_eq!(s.course(20, false, false, true, 100), Course::Linger { first: false });
    assert_eq!(s.course(20, true, false, true, 100), Course::Halt, "a halt comes first");
    assert_eq!(s.course(30, false, false, false, 100), Course::Finish);
    assert_eq!(s.course(110, false, false, true, 100), Course::Finish, "out of patience");
}
