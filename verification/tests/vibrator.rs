use gonk_hal::vibrator::{PatternTask, Vibrator, VibratorCall};

#[test]
fn new_reports_absence_of_the_hardware() {
    assert!(Vibrator::new(false).is_none());
    let vibrator = Vibrator::new(true).expect("hardware present");
    assert!(vibrator.present);
    assert!(vibrator.calls.is_empty());
}

#[test]
fn on_and_off_reach_the_native_layer_and_report_success() {
    let mut vibrator = Vibrator::new(true).unwrap();
    assert!(vibrator.on(120));
    assert!(vibrator.off());
    assert_eq!(
        vibrator.calls,
        vec![VibratorCall::On { duration_ms: 120 }, VibratorCall::Off]
    );
}

#[test]
fn a_failing_native_call_is_reported_but_still_issued() {
    let mut vibrator = Vibrator::new(true).unwrap();
    vibrator.healthy = false;
    assert!(!vibrator.on(50));
    assert!(!vibrator.off());
    assert_eq!(vibrator.calls.len(), 2);
}

#[test]
fn full_run_issues_the_even_indices_and_waits_every_duration() {
    let mut vibrator = Vibrator::new(true).unwrap();
    let (guard, mut task) = vibrator.pattern(vec![100, 30, 100, 30, 100]);
    let waits = task.run(&mut vibrator, &guard);
    assert_eq!(waits, vec![100, 30, 100, 30, 100]);
    assert_eq!(waits.iter().sum::<u64>(), 360);
    assert_eq!(
        vibrator.calls,
        vec![
            VibratorCall::On { duration_ms: 100 },
            VibratorCall::On { duration_ms: 100 },
            VibratorCall::On { duration_ms: 100 },
        ]
    );
}

#[test]
fn native_failures_never_abort_a_pattern() {
    let mut vibrator = Vibrator::new(true).unwrap();
    vibrator.healthy = false;
    let (guard, mut task) = vibrator.pattern(vec![10, 20, 30]);
    let waits = task.run(&mut vibrator, &guard);
    assert_eq!(waits, vec![10, 20, 30]);
    assert_eq!(vibrator.calls.len(), 2);
}

#[test]
fn cancel_mid_pattern_forces_off_and_stops_the_engine() {
    let mut vibrator = Vibrator::new(true).unwrap();
    let (mut guard, mut task) = vibrator.pattern(vec![3000]);

    // Step 0 begins: the single on-phase is issued, then the engine waits.
    let wait = task.step(&mut vibrator, guard.is_canceled());
    assert_eq!(wait, Some(3000));
    assert_eq!(vibrator.calls, vec![VibratorCall::On { duration_ms: 3000 }]);

    // At t = 1000 ms the caller cancels: the device is forced off at once.
    guard.cancel(&mut vibrator);
    assert_eq!(
        vibrator.calls,
        vec![VibratorCall::On { duration_ms: 3000 }, VibratorCall::Off]
    );

    // The engine observes the flag before any further step: nothing more
    // is issued, and in particular no on-phase follows the forced off.
    assert_eq!(task.step(&mut vibrator, guard.is_canceled()), None);
    assert_eq!(
        vibrator.calls,
        vec![VibratorCall::On { duration_ms: 3000 }, VibratorCall::Off]
    );
}

#[test]
fn canceled_guard_stops_a_run_before_anything_is_issued() {
    let mut vibrator = Vibrator::new(true).unwrap();
    let (mut guard, mut task) = vibrator.pattern(vec![100, 30, 100]);
    guard.cancel(&mut vibrator);
    let calls_after_cancel = vibrator.calls.clone();
    let waits = task.run(&mut vibrator, &guard);
    assert!(waits.is_empty());
    assert_eq!(vibrator.calls, calls_after_cancel);
}

#[test]
fn cancel_is_idempotent_and_sticky() {
    let mut vibrator = Vibrator::new(true).unwrap();
    let (mut guard, _task) = vibrator.pattern(vec![500]);
    assert!(!guard.is_canceled());
    guard.cancel(&mut vibrator);
    assert!(guard.is_canceled());
    guard.cancel(&mut vibrator);
    guard.cancel(&mut vibrator);
    assert!(guard.is_canceled());
    // Every cancel forces the device off; the flag stays set throughout.
    assert_eq!(vibrator.calls, vec![VibratorCall::Off, VibratorCall::Off, VibratorCall::Off]);
}

#[test]
fn cancel_without_hardware_touches_nothing() {
    let mut absent = Vibrator { present: false, healthy: false, calls: Vec::new() };
    let (mut guard, _task) = absent.pattern(vec![500]);
    guard.cancel(&mut absent);
    assert!(guard.is_canceled());
    assert!(absent.calls.is_empty());
}

#[test]
fn empty_pattern_finishes_at_once() {
    let mut vibrator = Vibrator::new(true).unwrap();
    let (guard, mut task) = vibrator.pattern(Vec::new());
    let waits = task.run(&mut vibrator, &guard);
    assert!(waits.is_empty());
    assert!(vibrator.calls.is_empty());
    assert_eq!(task.step(&mut vibrator, guard.is_canceled()), None);
}

#[test]
fn step_by_step_matches_the_parity_rule() {
    let mut vibrator = Vibrator::new(true).unwrap();
    let mut task = PatternTask::new(vec![5, 6, 7, 8]);
    assert_eq!(task.step(&mut vibrator, false), Some(5));
    assert_eq!(task.step(&mut vibrator, false), Some(6));
    assert_eq!(task.step(&mut vibrator, false), Some(7));
    assert_eq!(task.step(&mut vibrator, false), Some(8));
    assert_eq!(task.step(&mut vibrator, false), None);
    assert_eq!(
        vibrator.calls,
        vec![VibratorCall::On { duration_ms: 5 }, VibratorCall::On { duration_ms: 7 }]
    );
}
