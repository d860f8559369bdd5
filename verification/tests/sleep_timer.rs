use pmocontrol::music_renderer::sleep_timer::{expired_at, remaining_at};
use pmocontrol::music_renderer::SleepTimer;
use pmocontrol::online::DeviceConnectionState;

#[test]
fn test_timer_creation() {
    let timer = SleepTimer::new();
    assert!(!timer.is_active());
    assert_eq!(timer.remaining_seconds(), None);
    assert_eq!(timer.duration_seconds(), 0);
}

#[test]
fn test_timer_start() {
    let mut timer = SleepTimer::new();
    assert!(timer.start(60).is_ok());
    assert!(timer.is_active());
    assert_eq!(timer.duration_seconds(), 60);

    let remaining = timer.remaining_seconds().unwrap();
    assert!(remaining <= 60 && remaining > 58);
}

#[test]
fn test_timer_validation() {
    let mut timer = SleepTimer::new();
    assert!(timer.start(0).is_err());
    assert!(timer.start(SleepTimer::MAX_DURATION + 1).is_err());
    assert!(timer.start(1).is_ok());
    assert!(timer.start(SleepTimer::MAX_DURATION).is_ok());
}

#[test]
fn test_timer_cancel() {
    let mut timer = SleepTimer::new();
    timer.start(60).unwrap();
    assert!(timer.is_active());

    timer.cancel();
    assert!(!timer.is_active());
    assert_eq!(timer.remaining_seconds(), None);
    assert_eq!(timer.duration_seconds(), 0);
}

#[test]
fn timer_error_messages() {
    let mut timer = SleepTimer::new();
    assert_eq!(timer.start(0).unwrap_err(), "Duration must be greater than 0");
    assert_eq!(timer.update(7201).unwrap_err(), "Duration cannot exceed 7200 seconds (2 hours)");
    assert!(!timer.is_active());
    assert!(!timer.is_expired());
}

#[test]
fn timer_update_resets_duration() {
    let mut timer = SleepTimer::new();
    timer.start(60).unwrap();
    timer.update(30).unwrap();
    assert_eq!(timer.duration_seconds(), 30);
    let remaining = timer.remaining_seconds().unwrap();
    assert!(remaining <= 30 && remaining > 28);
    assert!(!timer.is_expired());
}

#[test]
fn countdown_at_clock_readings() {
    let start: u128 = 5_000_000_000;
    let deadline = start + 60 * 1_000_000_000;
    assert_eq!(remaining_at(deadline, start), 60);
    assert_eq!(remaining_at(deadline, start + 500_000_000), 59);
    assert_eq!(remaining_at(deadline, deadline), 0);
    assert_eq!(remaining_at(deadline, deadline + 7), 0);
    assert!(!expired_at(deadline, deadline - 1));
    assert!(expired_at(deadline, deadline));
}

#[test]
fn seen_device_is_online_again() {
    let mut s = DeviceConnectionState::make();
    assert!(!s.is_online());
    s.has_been_seen_now(900);
    assert!(s.is_online());
    assert_eq!(s.max_age(), 900);
    s.mark_as_offline();
    assert!(!s.is_online());
    s.has_been_seen_now(1800);
    assert!(s.is_online());
}
