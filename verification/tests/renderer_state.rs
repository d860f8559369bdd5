use pmocontrol::model::PlaybackState;
use pmocontrol::music_renderer::renderer_state::{MusicRendererState, PlaybackSource};
use pmocontrol::music_renderer::watcher::{watch_changes, PollResult, WatchChange, WatchedState};
use pmocontrol::music_renderer::PlaybackPositionInfo;

#[test]
fn stop_after_played_queue_track_advances() {
    let mut s = MusicRendererState::new();
    s.set_playback_source(PlaybackSource::FromQueue);
    assert!(!s.handle_state_change(&PlaybackState::Stopped));
    assert!(!s.handle_state_change(&PlaybackState::Playing));
    assert!(s.has_played_since_track_start);
    assert!(s.handle_state_change(&PlaybackState::Stopped));
    assert!(!s.handle_state_change(&PlaybackState::Stopped));
}

#[test]
fn user_stop_never_advances() {
    let mut s = MusicRendererState::new();
    s.set_playback_source(PlaybackSource::FromQueue);
    s.handle_state_change(&PlaybackState::Playing);
    s.mark_user_stop_requested();
    assert!(!s.handle_state_change(&PlaybackState::Stopped));
    assert_eq!(s.playback_source, PlaybackSource::Idle);
}

#[test]
fn playing_marks_external() {
    let mut s = MusicRendererState::new();
    s.handle_state_change(&PlaybackState::Playing);
    assert_eq!(s.playback_source, PlaybackSource::External);
    assert!(!s.is_playing_from_queue());
    assert_eq!(s.start_sleep_timer(0).unwrap_err().message(), "Duration must be greater than 0");
    assert!(s.start_sleep_timer(10).unwrap() <= 10);
    let (active, d, rem) = s.sleep_timer_state();
    assert!(active && d == 10 && rem.is_some());
}

fn pos(rel: &str) -> PlaybackPositionInfo {
    PlaybackPositionInfo {
        track: Some(1),
        rel_time: Some(rel.to_string()),
        abs_time: None,
        track_duration: Some("00:03:00".to_string()),
        track_metadata: None,
        track_uri: None,
    }
}

#[test]
fn watcher_reports_changes_once() {
    let mut w = WatchedState::default();
    let poll = PollResult { position: Some(pos("00:00:01")), metadata: None, raw_state: Some(PlaybackState::Playing), volume: Some(30), mute: Some(false) };
    let c = watch_changes(&mut w, 0, poll);
    assert_eq!(c.len(), 4);
    assert!(matches!(c[0], WatchChange::PositionChanged(_)));
    assert!(matches!(c[1], WatchChange::StateChanged(PlaybackState::Playing)));
    let poll = PollResult { position: Some(pos("00:00:01")), metadata: None, raw_state: Some(PlaybackState::Playing), volume: Some(31), mute: Some(false) };
    let c = watch_changes(&mut w, 1, poll);
    assert_eq!(c.len(), 0);
    let poll = PollResult { position: Some(pos("00:00:02")), metadata: None, raw_state: Some(PlaybackState::Stopped), volume: Some(31), mute: None };
    let c = watch_changes(&mut w, 2, poll);
    assert_eq!(c.len(), 2);
    assert!(matches!(c[1], WatchChange::VolumeChanged(31)));
    assert_eq!(w.volume, Some(31));
}
