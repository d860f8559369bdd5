use pmocontrol::playback_queue::{PlaybackItem, PlaybackQueue};

#[test]
fn didl_for_minimal_item() {
    let item = PlaybackItem::new("http://h/a&b.flac");
    let didl = item.to_didl_metadata();
    assert_eq!(
        didl,
        "<DIDL-Lite xmlns=\"urn:schemas-upnp-org:metadata-1-0/DIDL-Lite/\" xmlns:dc=\"http://purl.org/dc/elements/1.1/\" xmlns:upnp=\"urn:schemas-upnp-org:metadata-1-0/upnp/\"><item id=\"0\" parentID=\"-1\" restricted=\"1\"><dc:title>Unknown</dc:title><res protocolInfo=\"http-get:*:audio/*:*\">http://h/a&amp;b.flac</res><upnp:class>object.item.audioItem.musicTrack</upnp:class></item></DIDL-Lite>"
    );
}

#[test]
fn didl_with_tags() {
    let mut item = PlaybackItem::new("u");
    item.title = Some("A <b>".to_string());
    item.artist = Some("Me".to_string());
    item.object_id = Some("42".to_string());
    item.protocol_info = Some("http-get:*:audio/flac:'x'".to_string());
    let didl = item.to_didl_metadata();
    assert!(didl.contains("<item id=\"42\""));
    assert!(didl.contains("<dc:title>A &lt;b&gt;</dc:title>"));
    assert!(didl.contains("<upnp:artist>Me</upnp:artist><dc:creator>Me</dc:creator>"));
    assert!(didl.contains("protocolInfo=\"http-get:*:audio/flac:'x'\""));
}

#[test]
fn simple_queue_cursor() {
    let mut q = PlaybackQueue::new();
    assert!(q.is_empty());
    q.enqueue(PlaybackItem::new("a"));
    q.enqueue_many(vec![PlaybackItem::new("b"), PlaybackItem::new("c")]);
    assert_eq!(q.len(), 3);
    assert_eq!(q.peek().unwrap().uri, "a");
    assert_eq!(q.dequeue().unwrap().uri, "a");
    q.enqueue_front(PlaybackItem::new("x"));
    let (all, idx) = q.full_snapshot();
    let uris: Vec<&str> = all.iter().map(|i| i.uri.as_str()).collect();
    assert_eq!(uris, vec!["a", "x", "b", "c"]);
    assert_eq!(idx, Some(0));
    assert_eq!(q.upcoming_len(), 3);
    assert_eq!(q.snapshot().len(), 3);
    assert_eq!(q.dequeue().unwrap().uri, "x");
    q.set_current_index(Some(9));
    assert!(q.peek().unwrap().uri == "a");
    q.clear();
    assert!(q.dequeue().is_none());
}
