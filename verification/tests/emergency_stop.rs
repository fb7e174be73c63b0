use grant_contracts::emergency_stop::{EmergencyStop, EmergencyStopper};
use grant_contracts::types::Address;

fn stop() -> EmergencyStop {
    EmergencyStop::new(vec![Address(1), Address(2), Address(3)], 100)
}

#[test]
fn two_auditors_pause() {
    let mut s = stop();
    assert!(!s.sign_pause(Address(1), 10));
    assert!(!s.check_paused(10));
    // The same auditor twice does not pause.
    assert!(!s.sign_pause(Address(1), 11));
    assert!(s.sign_pause(Address(2), 20));
    assert!(s.check_paused(20));
    assert!(s.check_paused(119));
    assert!(!s.check_paused(120));
    s.resume_if_expired(120);
    assert!(!s.is_paused);
}

#[test]
fn stopper_by_value() {
    let s = EmergencyStopper::init_emergency_stop(vec![Address(1), Address(2), Address(3)], 50);
    let s = EmergencyStopper::sign_pause(s, Address(3), 5);
    let s = EmergencyStopper::sign_pause(s, Address(2), 6);
    assert!(EmergencyStopper::is_paused(s.clone(), 10));
    let s = EmergencyStopper::resume_if_expired(s, 60);
    assert!(!EmergencyStopper::is_paused(s, 60));
}
