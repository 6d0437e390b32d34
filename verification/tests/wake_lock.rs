use gonk_hal::wake_lock::{Wakelock, WakelockLevel};

#[test]
fn levels_carry_their_native_codes() {
    assert_eq!(WakelockLevel::Partial.native_code(), 1);
    assert_eq!(WakelockLevel::Full.native_code(), 2);
}

#[test]
fn a_zero_acquire_status_yields_a_held_lock() {
    let lock = Wakelock::new("cpu", WakelockLevel::Partial, 0).expect("acquired");
    assert!(lock.holds());
    assert_eq!(lock.name_str(), "cpu");
}

#[test]
fn a_failed_acquire_yields_nothing() {
    assert!(Wakelock::new("cpu", WakelockLevel::Partial, -1).is_none());
    assert!(Wakelock::new("screen", WakelockLevel::Full, 13).is_none());
}

#[test]
fn release_is_idempotent() {
    let mut lock = Wakelock::new("cpu", WakelockLevel::Full, 0).unwrap();
    lock.release();
    assert!(!lock.holds());
    lock.release();
    lock.release();
    assert!(!lock.holds());
    assert_eq!(lock.name_str(), "cpu");
}
