use pmocontrol::model::{DeviceId, TrackMetadata};
use pmocontrol::music_renderer::openhome_renderer::{format_seconds, map_openhome_state, parse_hms, OpenHomeRenderer};
use pmocontrol::model::PlaybackState;
use pmocontrol::queue::openhome::{build_metadata_xml, FastPathResult, PlaylistCaches};
use pmocontrol::queue::PlaybackItem;
use pmocontrol::queue_interne::InternalQueue as FirstQueue;

fn meta(title: &str, duration: &str, stream: bool) -> TrackMetadata {
    TrackMetadata {
        title: Some(title.to_string()),
        artist: Some("a".to_string()),
        album: None,
        genre: None,
        album_art_uri: None,
        date: None,
        track_number: None,
        creator: None,
        duration: Some(duration.to_string()),
        is_continuous_stream: stream,
    }
}

fn item(id: &str, uri: &str) -> PlaybackItem {
    PlaybackItem {
        media_server_id: DeviceId("s".to_string()),
        backend_id: 0,
        didl_id: id.to_string(),
        uri: uri.to_string(),
        protocol_info: "http-get:*:audio/flac:*".to_string(),
        metadata: None,
    }
}

#[test]
fn metadata_xml_for_inserted_track() {
    let mut it = item("d1", "http://x/1");
    it.metadata = Some(meta("T", "00:03:00", false));
    let xml = build_metadata_xml(&it);
    assert!(xml.starts_with("<DIDL-Lite"));
    assert!(xml.contains("<item id=\"d1\" parentID=\"-1\" restricted=\"1\"><dc:title>T</dc:title><upnp:artist>a</upnp:artist>"));
    assert!(xml.contains("<res protocolInfo=\"http-get:*:audio/flac:*\" duration=\"00:03:00\">http://x/1</res>"));
    let bare = build_metadata_xml(&item("d2", "u"));
    assert!(bare.contains("<dc:title>Unknown</dc:title><res protocolInfo"));
}

#[test]
fn cache_protects_stream_duration() {
    let mut c = PlaylistCaches::new();
    c.cache_metadata(7, Some(meta("song", "00:03:00", true)), "http://radio");
    c.cache_metadata(7, Some(meta("song", "00:01:00", true)), "");
    let d = c.cached_metadata(7).unwrap().unwrap().duration.unwrap();
    assert_eq!(d, "00:03:00");
    c.cache_metadata(7, Some(meta("other", "00:01:00", true)), "");
    let d = c.cached_metadata(7).unwrap().unwrap().duration.unwrap();
    assert_eq!(d, "00:01:00");
    c.forget_metadata(7);
    assert!(c.cached_metadata(7).is_none());
}

#[test]
fn fast_paths() {
    let mut c = PlaylistCaches::new();
    c.cache_metadata(10, None, "u1");
    c.cache_metadata(11, None, "u2");
    let grown = vec![item("a", "u1"), item("b", "u2"), item("c", "u3")];
    match c.try_fast_path(&[10, 11], &grown) {
        FastPathResult::AppendOnly { new_items } => assert_eq!(new_items.len(), 1),
        _ => panic!("expected an append"),
    }
    match c.try_fast_path(&[10, 11, 12], &grown[..1]) {
        FastPathResult::DeleteFromEnd { delete_ids } => assert_eq!(delete_ids, vec![11, 12]),
        _ => panic!("expected a deletion"),
    }
    assert!(matches!(c.try_fast_path(&[10, 11], &grown[..2]), FastPathResult::NeedFullSync));
    assert!(matches!(c.try_fast_path(&[11], &grown), FastPathResult::NeedFullSync));
    assert!(c.check_prefix_matches(&[10], &grown[..1]));
}

#[test]
fn openhome_state_names() {
    assert!(matches!(map_openhome_state(" playing "), PlaybackState::Playing));
    assert!(matches!(map_openhome_state("Paused_Playback"), PlaybackState::Paused));
    assert!(matches!(map_openhome_state("Buffering"), PlaybackState::Transitioning));
    match map_openhome_state("weird") {
        PlaybackState::Unknown(s) => assert_eq!(s, "WEIRD"),
        _ => panic!("expected unknown"),
    }
    assert_eq!(format_seconds(3725), "01:02:05");
    assert_eq!(parse_hms("1:02:05"), Some(3725));
    assert_eq!(parse_hms("1:2:3:4"), None);
}

#[test]
fn renderer_without_services() {
    let r = OpenHomeRenderer::new(None, None, None, None, None, None);
    assert!(!r.has_any_openhome_service());
    let e = r.volume(&|_req| panic!("no call expected")).unwrap_err();
    assert_eq!(e.message(), "volume");
}

#[test]
fn first_queue_keeps_valid_index() {
    let mut q = FirstQueue::from_items(vec![item("a", "u1"), item("b", "u2")], true);
    assert_eq!(q.current_index(), Some(0));
    q.set_index(Some(5)).unwrap();
    assert_eq!(q.current_index(), None);
    q.replace_queue(vec![item("c", "u3")], Some(0)).unwrap();
    assert_eq!(q.items().len(), 1);
    assert!(q.get_item(3).unwrap().is_none());
    q.replace_item(0, item("d", "u4")).unwrap();
    assert_eq!(q.queue_snapshot().unwrap().items[0].uri, "u4");
}
