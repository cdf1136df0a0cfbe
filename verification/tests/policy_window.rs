use examroom::policy::{phase, schedule_ok, Phase};

#[test]
fn phase_before_start_is_not_started() {
    assert_eq!(phase(999, 1000, 2000), Phase::NotStarted);
}

#[test]
fn phase_at_start_is_open() {
    assert_eq!(phase(1000, 1000, 2000), Phase::Open);
}

#[test]
fn phase_within_window_is_open() {
    assert_eq!(phase(1500, 1000, 2000), Phase::Open);
}

#[test]
fn phase_at_end_is_open() {
    assert_eq!(phase(2000, 1000, 2000), Phase::Open);
}

#[test]
fn phase_after_end_is_closed() {
    assert_eq!(phase(2001, 1000, 2000), Phase::Closed);
}

#[test]
fn schedule_accepts_start_now() {
    assert!(schedule_ok(1000, 1000, 1000));
}

#[test]
fn schedule_rejects_start_in_past() {
    assert!(!schedule_ok(1000, 999, 2000));
}

#[test]
fn schedule_rejects_end_before_start() {
    assert!(!schedule_ok(1000, 2000, 1999));
}
