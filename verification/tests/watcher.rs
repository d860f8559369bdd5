use pmocontrol::model::PlaybackState;
use pmocontrol::music_renderer::watcher::{
    compute_logical_playback_state, parse_hms_to_secs, parse_optional_hms_to_secs, playback_position_equal,
    playback_state_equal, WatchStrategy,
};
use pmocontrol::music_renderer::PlaybackPositionInfo;
use std::time::Duration;

#[test]
fn test_parse_hms_to_secs() {
    assert_eq!(parse_hms_to_secs("00:00:00"), Some(0));
    assert_eq!(parse_hms_to_secs("00:01:30"), Some(90));
    assert_eq!(parse_hms_to_secs("01:00:00"), Some(3600));
    assert_eq!(parse_hms_to_secs("01:30:45"), Some(5445));
    assert_eq!(parse_hms_to_secs("NOT_IMPLEMENTED"), None);
    assert_eq!(parse_hms_to_secs("-:--:--"), None);
    assert_eq!(parse_hms_to_secs(""), None);
    assert_eq!(parse_hms_to_secs("invalid"), None);
}

#[test]
fn test_playback_state_equal() {
    assert!(playback_state_equal(&PlaybackState::Playing, &PlaybackState::Playing));
    assert!(playback_state_equal(&PlaybackState::Stopped, &PlaybackState::Stopped));
    assert!(!playback_state_equal(&PlaybackState::Playing, &PlaybackState::Stopped));
    assert!(playback_state_equal(
        &PlaybackState::Unknown("foo".to_string()),
        &PlaybackState::Unknown("foo".to_string())
    ));
    assert!(!playback_state_equal(
        &PlaybackState::Unknown("foo".to_string()),
        &PlaybackState::Unknown("bar".to_string())
    ));
}

#[test]
fn test_watch_strategy_polling_interval() {
    let polling = WatchStrategy::Polling { interval_ms: 500 };
    assert_eq!(polling.polling_interval(), Some(Duration::from_millis(500)));

    let hybrid = WatchStrategy::Hybrid { polling_interval_ms: 1000 };
    assert_eq!(hybrid.polling_interval(), Some(Duration::from_millis(1000)));

    let push = WatchStrategy::Push;
    assert_eq!(push.polling_interval(), None);
}

fn pos(rel: &str, dur: Option<&str>) -> PlaybackPositionInfo {
    PlaybackPositionInfo {
        track: Some(1),
        rel_time: Some(rel.to_string()),
        abs_time: None,
        track_duration: dur.map(|d| d.to_string()),
        track_metadata: None,
        track_uri: Some("http://x/a".to_string()),
    }
}

#[test]
fn hms_parse_trims_and_rejects_other_shapes() {
    assert_eq!(parse_hms_to_secs("  00:00:05 \n"), Some(5));
    assert_eq!(parse_hms_to_secs("1:2"), None);
    assert_eq!(parse_optional_hms_to_secs(&None), None);
    assert_eq!(parse_optional_hms_to_secs(&Some("00:02:00".to_string())), Some(120));
}

#[test]
fn stopped_with_advancing_time_is_playing() {
    let prev = pos("00:00:10", None);
    let cur = pos("00:00:11", None);
    let r = compute_logical_playback_state(&PlaybackState::Stopped, Some(&prev), Some(&cur));
    assert!(playback_state_equal(&r, &PlaybackState::Playing));
    let far = pos("00:00:20", None);
    let r = compute_logical_playback_state(&PlaybackState::Stopped, Some(&prev), Some(&far));
    assert!(playback_state_equal(&r, &PlaybackState::Stopped));
    let r = compute_logical_playback_state(&PlaybackState::Stopped, Some(&prev), Some(&prev));
    assert!(playback_state_equal(&r, &PlaybackState::Stopped));
}

#[test]
fn no_media_with_duration_is_stopped() {
    let cur = pos("00:00:00", Some("00:03:00"));
    let r = compute_logical_playback_state(&PlaybackState::NoMedia, None, Some(&cur));
    assert!(playback_state_equal(&r, &PlaybackState::Stopped));
    let prev = pos("00:00:00", Some("00:03:00"));
    let cur = pos("00:00:00", None);
    let r = compute_logical_playback_state(&PlaybackState::NoMedia, Some(&prev), Some(&cur));
    assert!(playback_state_equal(&r, &PlaybackState::Stopped));
    let zero = pos("00:00:00", Some("00:00:00"));
    let r = compute_logical_playback_state(&PlaybackState::NoMedia, None, Some(&zero));
    assert!(playback_state_equal(&r, &PlaybackState::NoMedia));
    let r = compute_logical_playback_state(&PlaybackState::Paused, Some(&prev), Some(&cur));
    assert!(playback_state_equal(&r, &PlaybackState::Paused));
}

#[test]
fn positions_compare_field_by_field() {
    let a = pos("00:00:10", None);
    let b = pos("00:00:10", None);
    let c = pos("00:00:11", None);
    assert!(playback_position_equal(&a, &b));
    assert!(!playback_position_equal(&a, &c));
}

#[test]
fn polling_interval_in_milliseconds() {
    assert_eq!(WatchStrategy::Polling { interval_ms: 500 }.polling_interval_ms(), Some(500));
    assert_eq!(WatchStrategy::Hybrid { polling_interval_ms: 1000 }.polling_interval_ms(), Some(1000));
    assert_eq!(WatchStrategy::Push.polling_interval_ms(), None);
}
