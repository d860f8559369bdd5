use pmocontrol::model::{DeviceId, TrackMetadata};
use pmocontrol::queue::lcs::{items_match, lcs_flags, lcs_flags_optimized};
use pmocontrol::queue::{EnqueueMode, InternalQueue, PlaybackItem, QueueBackend};

fn meta(title: &str, duration: &str, stream: bool) -> TrackMetadata {
    TrackMetadata {
        title: Some(title.to_string()),
        artist: Some("artist".to_string()),
        album: None,
        genre: None,
        album_art_uri: None,
        date: None,
        track_number: None,
        creator: None,
        duration: Some(duration.to_string()),
        is_continuous_stream: stream,
    }
}

fn item(id: &str, uri: &str) -> PlaybackItem {
    PlaybackItem {
        media_server_id: DeviceId("server".to_string()),
        backend_id: 99,
        didl_id: id.to_string(),
        uri: uri.to_string(),
        protocol_info: "http-get:*:audio/flac:*".to_string(),
        metadata: None,
    }
}

fn uris(q: &InternalQueue) -> Vec<String> {
    q.items().iter().map(|i| i.uri.clone()).collect()
}

#[test]
fn new_queue_is_empty() {
    let q = InternalQueue::new(DeviceId("r".to_string()));
    assert_eq!(q.len().unwrap(), 0);
    assert!(q.is_empty().unwrap());
    assert_eq!(q.current_index().unwrap(), None);
    assert_eq!(q.next_index().unwrap(), None);
}

#[test]
fn replace_queue_settles_index() {
    let mut q = InternalQueue::new(DeviceId("r".to_string()));
    q.replace_queue(vec![item("a", "u1"), item("b", "u2")], Some(5)).unwrap();
    assert_eq!(q.current_index().unwrap(), Some(0));
    q.replace_queue(vec![item("a", "u1"), item("b", "u2")], Some(1)).unwrap();
    assert_eq!(q.current_index().unwrap(), Some(1));
    q.replace_queue(vec![], Some(1)).unwrap();
    assert_eq!(q.current_index().unwrap(), None);
}

#[test]
fn snapshot_numbers_items() {
    let mut q = InternalQueue::new(DeviceId("r".to_string()));
    q.replace_all(vec![item("a", "u1"), item("b", "u2"), item("c", "u3")]).unwrap();
    let s = q.queue_snapshot().unwrap();
    let ids: Vec<usize> = s.items.iter().map(|i| i.backend_id).collect();
    assert_eq!(ids, vec![0, 1, 2]);
    assert_eq!(s.current_index, Some(0));
    assert_eq!(q.track_ids().unwrap(), vec![0, 1, 2]);
}

#[test]
fn set_index_out_of_bound_fails() {
    let mut q = InternalQueue::new(DeviceId("r".to_string()));
    q.replace_all(vec![item("a", "u1")]).unwrap();
    let e = q.set_index(Some(3)).unwrap_err();
    assert_eq!(e.message(), "Index out of bound 3 >= 1");
    assert_eq!(q.current_index().unwrap(), Some(0));
    q.set_index(None).unwrap();
    assert_eq!(q.current_index().unwrap(), None);
}

#[test]
fn advance_and_rewind() {
    let mut q = InternalQueue::new(DeviceId("r".to_string()));
    q.replace_all(vec![item("a", "u1"), item("b", "u2"), item("c", "u3")]).unwrap();
    assert!(q.advance().unwrap());
    assert_eq!(q.current_index().unwrap(), Some(1));
    assert!(q.rewind().unwrap());
    assert_eq!(q.current_index().unwrap(), Some(0));
    assert!(!q.rewind().unwrap());
    assert!(q.advance().unwrap());
    assert!(q.advance().unwrap());
    assert!(!q.advance().unwrap());
    assert_eq!(q.current_index().unwrap(), Some(2));
    assert_eq!(q.upcoming_len().unwrap(), 0);
}

#[test]
fn dequeue_and_peek() {
    let mut q = InternalQueue::new(DeviceId("r".to_string()));
    q.replace_queue(vec![item("a", "u1"), item("b", "u2")], None).unwrap();
    let (it, rest) = q.peek_current().unwrap().unwrap();
    assert_eq!(it.uri, "u1");
    assert_eq!(rest, 1);
    let (it, rest) = q.dequeue_next().unwrap().unwrap();
    assert_eq!(it.uri, "u2");
    assert_eq!(rest, 0);
    assert!(q.dequeue_next().unwrap().is_none());
    assert_eq!(q.upcoming_items().unwrap().len(), 0);
}

#[test]
fn enqueue_modes() {
    let mut q = InternalQueue::new(DeviceId("r".to_string()));
    q.enqueue_items(vec![item("a", "u1"), item("b", "u2")], EnqueueMode::AppendToEnd).unwrap();
    assert_eq!(q.current_index().unwrap(), Some(0));
    q.enqueue_items(vec![item("x", "ux")], EnqueueMode::InsertAfterCurrent).unwrap();
    assert_eq!(uris(&q), vec!["u1", "ux", "u2"]);
    q.enqueue_items(vec![item("z", "uz")], EnqueueMode::ReplaceAll).unwrap();
    assert_eq!(uris(&q), vec!["uz"]);
    assert_eq!(q.current_index().unwrap(), Some(0));
    q.append_or_init_index(vec![item("y", "uy")]).unwrap();
    assert_eq!(uris(&q), vec!["uz", "uy"]);
}

#[test]
fn sync_keeps_current_track() {
    let mut q = InternalQueue::new(DeviceId("r".to_string()));
    q.replace_queue(vec![item("a", "u1"), item("b", "u2"), item("c", "u3")], Some(1)).unwrap();
    q.sync_queue(vec![item("c", "u3"), item("b", "u2")]).unwrap();
    assert_eq!(q.current_index().unwrap(), Some(1));
    q.sync_queue(vec![item("d", "u4")]).unwrap();
    assert_eq!(uris(&q), vec!["u2", "u4"]);
    assert_eq!(q.current_index().unwrap(), Some(0));
    q.sync_queue(vec![]).unwrap();
    assert!(q.is_empty().unwrap());
}

#[test]
fn stream_duration_is_protected() {
    let mut q = InternalQueue::new(DeviceId("r".to_string()));
    let mut a = item("a", "radio");
    a.metadata = Some(meta("song", "00:03:00", true));
    q.replace_all(vec![a]).unwrap();
    let mut b = item("a", "radio");
    b.metadata = Some(meta("song", "00:01:00", true));
    q.sync_queue(vec![b]).unwrap();
    let d = q.get_item(0).unwrap().unwrap().metadata.unwrap().duration.unwrap();
    assert_eq!(d, "00:03:00");
    let mut c = item("a", "radio");
    c.metadata = Some(meta("other song", "00:01:00", true));
    q.sync_queue(vec![c]).unwrap();
    let d = q.get_item(0).unwrap().unwrap().metadata.unwrap().duration.unwrap();
    assert_eq!(d, "00:01:00");
}

#[test]
fn get_and_replace_item_errors() {
    let mut q = InternalQueue::new(DeviceId("r".to_string()));
    q.replace_all(vec![item("a", "u1")]).unwrap();
    assert_eq!(q.get_item(1).unwrap_err().message(), "get_item index out of bound 1 >= 1");
    assert!(q.replace_item(1, item("b", "u2")).is_err());
    q.replace_item(0, item("b", "u2")).unwrap();
    assert_eq!(uris(&q), vec!["u2"]);
    q.clear_queue().unwrap();
    assert!(q.is_empty().unwrap());
}

#[test]
fn current_track_and_positions() {
    let mut q = InternalQueue::new(DeviceId("r".to_string()));
    q.replace_queue(vec![item("a", "u1"), item("b", "u2")], Some(1)).unwrap();
    assert_eq!(q.current_track().unwrap(), Some(1));
    assert_eq!(q.id_to_position(7).unwrap(), 7);
    assert_eq!(q.position_to_id(5).unwrap(), 5);
    assert_eq!(q.previous_index().unwrap(), Some(0));
}

#[test]
fn lcs_keeps_common_tracks() {
    let cur = vec![item("a", "u1"), item("b", "u2"), item("c", "u3")];
    let want = vec![item("b", "u2"), item("x", "ux"), item("c", "u3")];
    let (kc, kd) = lcs_flags(&cur, &want);
    assert_eq!(kc, vec![false, true, true]);
    assert_eq!(kd, vec![true, false, true]);
    let (oc, od) = lcs_flags_optimized(&cur, &want);
    assert_eq!(oc, vec![false, true, true]);
    assert_eq!(od, vec![true, false, true]);
    assert!(items_match(&item("q", "u2"), &item("b", "zz")) == false);
    assert!(items_match(&item("b", "u9"), &item("b", "zz")));
}

#[test]
fn lcs_optimized_edges() {
    let cur = vec![item("a", "u1")];
    let (oc, od) = lcs_flags_optimized(&[], &cur);
    assert!(oc.is_empty());
    assert_eq!(od, vec![true]);
    let (oc, od) = lcs_flags_optimized(&cur, &cur);
    assert_eq!(oc, vec![true]);
    assert_eq!(od, vec![true]);
}

#[test]
fn lcs_optimized_pairs_head_middle_and_tail() {
    let cur = vec![item("h", "u0"), item("a", "u1"), item("m", "u5"), item("t", "u9")];
    let want = vec![item("h", "u0"), item("m", "u5"), item("n", "u6"), item("t", "u9")];
    let (oc, od) = lcs_flags_optimized(&cur, &want);
    assert_eq!(oc, vec![true, false, true, true]);
    assert_eq!(od, vec![true, true, false, true]);
    let kept: Vec<&str> = cur.iter().zip(oc.iter()).filter(|(_, k)| **k).map(|(i, _)| i.uri.as_str()).collect();
    let present: Vec<&str> = want.iter().zip(od.iter()).filter(|(_, k)| **k).map(|(i, _)| i.uri.as_str()).collect();
    assert_eq!(kept, present);
}
