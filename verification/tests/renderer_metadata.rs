use pmocontrol::model::{DeviceId, TrackMetadata};
use pmocontrol::music_renderer::musicrenderer::{build_didl_lite_metadata, position_with_queue_item};
use pmocontrol::music_renderer::PlaybackPositionInfo;
use pmocontrol::queue::PlaybackItem;

fn bare_meta() -> TrackMetadata {
    TrackMetadata {
        title: None,
        artist: None,
        album: None,
        genre: None,
        album_art_uri: None,
        date: None,
        track_number: None,
        creator: None,
        duration: None,
        is_continuous_stream: false,
    }
}

const HEAD: &str = "<DIDL-Lite xmlns=\"urn:schemas-upnp-org:metadata-1-0/DIDL-Lite/\" xmlns:dc=\"http://purl.org/dc/elements/1.1/\" xmlns:upnp=\"urn:schemas-upnp-org:metadata-1-0/upnp/\">\n<item id=\"0\" parentID=\"-1\" restricted=\"1\">\n";

#[test]
fn didl_lite_metadata_uses_defaults() {
    let xml = build_didl_lite_metadata(&bare_meta(), "http://h/a.flac", "http-get:*:audio/flac:*");
    let expected = format!(
        "{}<dc:title>Unknown Title</dc:title>\n<dc:creator>Unknown Artist</dc:creator>\n<upnp:artist>Unknown Artist</upnp:artist>\n<upnp:album>Unknown Album</upnp:album>\n\n<res protocolInfo=\"http-get:*:audio/flac:*\">http://h/a.flac</res>\n</item>\n</DIDL-Lite>",
        HEAD
    );
    assert_eq!(xml, expected);
}

#[test]
fn didl_lite_metadata_creator_falls_back_to_artist() {
    let mut m = bare_meta();
    m.title = Some("Song".to_string());
    m.artist = Some("Band".to_string());
    m.album = Some("LP".to_string());
    m.album_art_uri = Some("http://h/c.jpg".to_string());
    let xml = build_didl_lite_metadata(&m, "u", "p");
    let expected = format!(
        "{}<dc:title>Song</dc:title>\n<dc:creator>Band</dc:creator>\n<upnp:artist>Band</upnp:artist>\n<upnp:album>LP</upnp:album>\n<upnp:albumArtURI>http://h/c.jpg</upnp:albumArtURI>\n<res protocolInfo=\"p\">u</res>\n</item>\n</DIDL-Lite>",
        HEAD
    );
    assert_eq!(xml, expected);
    m.creator = Some("Composer".to_string());
    assert!(build_didl_lite_metadata(&m, "u", "p").contains("<dc:creator>Composer</dc:creator>"));
}

fn position() -> PlaybackPositionInfo {
    PlaybackPositionInfo {
        track: Some(2),
        rel_time: Some("00:00:10".to_string()),
        abs_time: None,
        track_duration: Some("00:03:00".to_string()),
        track_metadata: Some("<device/>".to_string()),
        track_uri: Some("http://device/uri".to_string()),
    }
}

#[test]
fn position_is_completed_from_queue_item() {
    let mut m = bare_meta();
    m.title = Some("Queued".to_string());
    let item = PlaybackItem {
        media_server_id: DeviceId("s".to_string()),
        backend_id: 0,
        didl_id: "d".to_string(),
        uri: "http://server/q.flac".to_string(),
        protocol_info: "pi".to_string(),
        metadata: Some(m.clone()),
    };
    let p = position_with_queue_item(position(), Some(&item));
    assert_eq!(p.track_uri.as_deref(), Some("http://server/q.flac"));
    assert_eq!(p.track_metadata, Some(build_didl_lite_metadata(&m, "http://server/q.flac", "pi")));
    assert_eq!(p.rel_time.as_deref(), Some("00:00:10"));
    assert_eq!(p.track, Some(2));

    let bare = PlaybackItem { metadata: None, ..item.clone() };
    let p = position_with_queue_item(position(), Some(&bare));
    assert_eq!(p.track_metadata.as_deref(), Some("<device/>"));
    assert_eq!(p.track_uri.as_deref(), Some("http://server/q.flac"));

    let p = position_with_queue_item(position(), None);
    assert_eq!(p.track_uri.as_deref(), Some("http://device/uri"));
}
