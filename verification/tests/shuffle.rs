use pmocontrol::error::ControlPointError;
use pmocontrol::model::DeviceId;
use pmocontrol::music_renderer::musicrenderer::shuffle_queue;
use pmocontrol::music_renderer::renderer_state::PlaylistBinding;
use pmocontrol::queue::{InternalQueue, PlaybackItem, QueueBackend};
use std::cell::RefCell;

fn item(id: &str) -> PlaybackItem {
    PlaybackItem {
        media_server_id: DeviceId("srv".to_string()),
        backend_id: 0,
        didl_id: id.to_string(),
        uri: format!("http://srv/{}.flac", id),
        protocol_info: "http-get:*:audio/flac:*".to_string(),
        metadata: None,
    }
}

fn binding() -> Option<PlaylistBinding> {
    Some(PlaylistBinding {
        server_id: DeviceId("srv".to_string()),
        container_id: "pl".to_string(),
        has_seen_update: false,
        pending_refresh: false,
        auto_play_on_refresh: false,
    })
}

#[test]
fn shuffle_keeps_the_items_and_plays_the_first() {
    let ids = ["a", "b", "c", "d", "e", "f"];
    let mut q = InternalQueue::new(DeviceId("r".to_string()));
    q.replace_queue(ids.iter().map(|i| item(i)).collect(), Some(3)).unwrap();
    let mut slot = binding();
    let stops = RefCell::new(0);
    let seen = RefCell::new(Vec::new());
    let stop = || -> Result<(), ControlPointError> {
        *stops.borrow_mut() += 1;
        Err(ControlPointError::QueueError("already stopped".to_string()))
    };
    let play = |it: &PlaybackItem| -> Result<(), ControlPointError> {
        seen.borrow_mut().push(it.didl_id.clone());
        Ok(())
    };
    shuffle_queue(&mut q, &mut slot, &stop, &mut false, &|_: &str| false, &play).unwrap();
    assert!(slot.is_none());
    assert_eq!(*stops.borrow(), 1);
    let snapshot = q.queue_snapshot().unwrap();
    assert_eq!(snapshot.current_index, Some(0));
    let mut after: Vec<String> = snapshot.items.iter().map(|i| i.didl_id.clone()).collect();
    assert_eq!(seen.borrow().clone(), vec![after[0].clone()]);
    after.sort();
    assert_eq!(after, ids.iter().map(|s| s.to_string()).collect::<Vec<_>>());
}

#[test]
fn shuffle_of_an_empty_queue_is_refused() {
    let mut q = InternalQueue::new(DeviceId("r".to_string()));
    let mut slot = binding();
    let stop = || -> Result<(), ControlPointError> { Ok(()) };
    let play = |_: &PlaybackItem| -> Result<(), ControlPointError> { panic!("nothing to play") };
    match shuffle_queue(&mut q, &mut slot, &stop, &mut false, &|_: &str| false, &play) {
        Err(ControlPointError::QueueError(m)) => assert_eq!(m, "Cannot shuffle an empty queue"),
        other => panic!("unexpected {:?}", other),
    }
    assert!(slot.is_none());
}
