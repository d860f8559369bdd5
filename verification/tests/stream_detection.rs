use pmocontrol::model::TrackMetadata;
use pmocontrol::music_renderer::is_continuous_stream;
use pmocontrol::music_renderer::stream_detection::{is_known_stream_pattern, matches_stream_pattern, metadata_says_stream, stream_from_headers, StreamCheck, StreamDetector};

#[test]
fn test_known_stream_patterns() {
    assert!(is_known_stream_pattern("http://example.com/stream"));
    assert!(is_known_stream_pattern("http://example.com/live"));
    assert!(is_known_stream_pattern("http://example.com/radio.mp3"));
    assert!(is_known_stream_pattern("http://example.com:8000/"));
    assert!(is_known_stream_pattern("http://example.com/playlist.m3u"));

    assert!(!is_known_stream_pattern("http://example.com/music.mp3"));
    assert!(!is_known_stream_pattern("http://example.com/file.flac"));
}

#[test]
fn known_stream_patterns_ignore_case_and_ports() {
    assert!(is_known_stream_pattern("HTTP://EXAMPLE.COM/STREAM"));
    assert!(is_known_stream_pattern("http://example.com:8080"));
    assert!(is_known_stream_pattern("http://example.com/list.PLS"));
    assert!(!is_known_stream_pattern("http://example.com:9000/"));
}

#[test]
fn headers_decide_stream() {
    assert!(stream_from_headers(true, true, None, None));
    assert!(stream_from_headers(false, false, None, Some("Audio/MPEG")));
    assert!(stream_from_headers(false, false, Some("Chunked"), None));
    assert!(!stream_from_headers(false, true, Some("chunked"), Some("audio/mpeg")));
    assert!(!stream_from_headers(false, false, None, Some("audio/flac")));
    assert!(stream_from_headers(false, false, None, Some("application/ogg")));
}

fn meta(stream: bool) -> TrackMetadata {
    TrackMetadata {
        title: None,
        artist: None,
        album: None,
        genre: None,
        album_art_uri: None,
        date: None,
        track_number: None,
        creator: None,
        duration: None,
        is_continuous_stream: stream,
    }
}

#[test]
fn continuous_stream_uses_flag_first() {
    let m = meta(true);
    assert!(is_continuous_stream(Some(&m), "http://x/a.flac", |_u: &str| false));
    let n = meta(false);
    assert!(!is_continuous_stream(Some(&n), "http://x/a.flac", |_u: &str| false));
    assert!(is_continuous_stream(Some(&n), "http://x/a.flac", |_u: &str| true));
    assert!(is_continuous_stream(None, "http://x/live", |u: &str| is_known_stream_pattern(u)));
}

#[test]
fn flagged_metadata_skips_url_probe() {
    let m = meta(true);
    assert!(metadata_says_stream(Some(&m)));
    assert!(!metadata_says_stream(Some(&meta(false))));
    assert!(!metadata_says_stream(None));
    let probes = std::cell::Cell::new(0);
    assert!(is_continuous_stream(Some(&m), "http://x/live", |_u: &str| {
        probes.set(probes.get() + 1);
        false
    }));
    assert_eq!(probes.get(), 0);
}

#[test]
fn detector_starts_one_check_then_reads_its_result() {
    let mut d = StreamDetector::new();
    let url = "http://example.com/track.mp3";
    assert_eq!(d.lookup(url), StreamCheck::Start);
    assert!(!d.lookup(url).answer());
    assert_eq!(d.lookup(url), StreamCheck::InProgress);
    d.record::<String>(url, Ok(true));
    assert_eq!(d.lookup(url), StreamCheck::Known(true));
    assert!(d.lookup(url).answer());
}

#[test]
fn detector_takes_failed_checks_for_bounded_media() {
    let mut d = StreamDetector::new();
    let url = "http://example.com/song.flac";
    assert_eq!(d.lookup(url), StreamCheck::Start);
    d.record(url, Err("HTTP HEAD request failed".to_string()));
    assert_eq!(d.lookup(url), StreamCheck::Known(false));
    assert!(!d.lookup(url).answer());
}

#[test]
fn detector_answers_stream_patterns_without_a_check() {
    let mut d = StreamDetector::new();
    assert_eq!(d.lookup("http://radio.example.com/live"), StreamCheck::Known(true));
    assert_eq!(d.lookup("http://example.com/other.mp3"), StreamCheck::Start);
}

#[test]
fn lower_cased_pattern_check() {
    assert!(matches_stream_pattern("http://radio.example/live"));
    assert!(matches_stream_pattern("http://host:8000/"));
    assert!(!matches_stream_pattern("http://host:8080/"));
    assert!(!matches_stream_pattern("http://host/track.flac"));
}
