use pmocontrol::error::ControlPointError;
use pmocontrol::model::DeviceId;
use pmocontrol::music_renderer::capabilities::{
    play_from_index, play_from_queue, play_next, play_previous, queue_item_to_play, step_queue_back,
    step_queue_forward,
};
use pmocontrol::queue::{InternalQueue, PlaybackItem, QueueBackend};
use std::cell::RefCell;

fn item(id: &str) -> PlaybackItem {
    PlaybackItem {
        media_server_id: DeviceId("srv".to_string()),
        backend_id: 0,
        didl_id: id.to_string(),
        uri: format!("http://srv/{}.flac", id),
        protocol_info: "http-get:*:audio/flac:*".to_string(),
        metadata: None,
    }
}

fn queue_of(ids: &[&str], current: Option<usize>) -> InternalQueue {
    let mut q = InternalQueue::new(DeviceId("r".to_string()));
    q.replace_queue(ids.iter().map(|i| item(i)).collect(), current).unwrap();
    q
}

fn no_stream(_: &str) -> bool {
    false
}

fn queue_error_text(r: Result<(), ControlPointError>) -> String {
    match r {
        Err(ControlPointError::QueueError(m)) => m,
        other => panic!("unexpected {:?}", other),
    }
}

#[test]
fn item_to_play_starts_at_first_when_none_is_current() {
    let mut q = queue_of(&["a", "b"], None);
    q.set_index(None).unwrap();
    let it = queue_item_to_play(&mut q).unwrap();
    assert_eq!(it.didl_id, "a");
    assert_eq!(q.current_index().unwrap(), Some(0));
}

#[test]
fn item_to_play_is_current_item() {
    let mut q = queue_of(&["a", "b", "c"], Some(2));
    assert_eq!(queue_item_to_play(&mut q).unwrap().didl_id, "c");
    assert_eq!(q.current_index().unwrap(), Some(2));
}

#[test]
fn empty_queue_is_refused() {
    let mut q = InternalQueue::new(DeviceId("r".to_string()));
    let seen = RefCell::new(Vec::new());
    let play = |it: &PlaybackItem| {
        seen.borrow_mut().push(it.uri.clone());
        Ok(())
    };
    assert_eq!(queue_error_text(play_from_queue(&mut q, &mut false, &no_stream, &play)), "Queue is empty");
    assert!(seen.borrow().is_empty());
}

#[test]
fn play_from_queue_hands_current_item_to_player() {
    let mut q = queue_of(&["a", "b"], Some(1));
    let seen = RefCell::new(Vec::new());
    let play = |it: &PlaybackItem| {
        seen.borrow_mut().push(it.uri.clone());
        Ok(())
    };
    play_from_queue(&mut q, &mut false, &no_stream, &play).unwrap();
    assert_eq!(*seen.borrow(), vec!["http://srv/b.flac".to_string()]);
}

#[test]
fn stepping_the_queue() {
    let mut q = queue_of(&["a", "b"], Some(0));
    step_queue_forward(&mut q).unwrap();
    assert_eq!(q.current_index().unwrap(), Some(1));
    assert_eq!(queue_error_text(step_queue_forward(&mut q)), "No next track");
    assert_eq!(q.current_index().unwrap(), Some(1));
    step_queue_back(&mut q).unwrap();
    assert_eq!(q.current_index().unwrap(), Some(0));
    assert_eq!(queue_error_text(step_queue_back(&mut q)), "No previous track");
}

#[test]
fn play_from_index_plays_the_chosen_item() {
    let mut q = queue_of(&["a", "b", "c"], Some(0));
    let seen = RefCell::new(Vec::new());
    let play = |it: &PlaybackItem| -> Result<(), ControlPointError> {
        seen.borrow_mut().push(it.didl_id.clone());
        Ok(())
    };
    play_from_index(&mut q, 1, &mut false, &no_stream, &play).unwrap();
    assert_eq!(seen.borrow().clone(), vec!["b".to_string()]);
    assert_eq!(q.current_index().unwrap(), Some(1));
}

#[test]
fn play_from_index_past_the_end_is_refused() {
    let mut q = queue_of(&["a"], Some(0));
    let seen = RefCell::new(Vec::new());
    let play = |it: &PlaybackItem| -> Result<(), ControlPointError> {
        seen.borrow_mut().push(it.didl_id.clone());
        Ok(())
    };
    assert!(play_from_index(&mut q, 3, &mut false, &no_stream, &play).is_err());
    assert!(seen.borrow().is_empty());
    assert_eq!(q.current_index().unwrap(), Some(0));
}

#[test]
fn play_next_and_previous_move_and_play() {
    let mut q = queue_of(&["a", "b", "c"], Some(1));
    let seen = RefCell::new(Vec::new());
    let play = |it: &PlaybackItem| -> Result<(), ControlPointError> {
        seen.borrow_mut().push(it.didl_id.clone());
        Ok(())
    };
    play_next(&mut q, &mut false, &no_stream, &play).unwrap();
    assert_eq!(q.current_index().unwrap(), Some(2));
    assert_eq!(queue_error_text(play_next(&mut q, &mut false, &no_stream, &play)), "No next track");
    play_previous(&mut q, &mut false, &no_stream, &play).unwrap();
    play_previous(&mut q, &mut false, &no_stream, &play).unwrap();
    assert_eq!(q.current_index().unwrap(), Some(0));
    assert_eq!(queue_error_text(play_previous(&mut q, &mut false, &no_stream, &play)), "No previous track");
    assert_eq!(seen.borrow().clone(), vec!["c".to_string(), "b".to_string(), "a".to_string()]);
}

#[test]
fn playing_records_whether_the_item_is_a_stream() {
    let mut q = queue_of(&["a", "radio"], Some(0));
    let play = |_: &PlaybackItem| -> Result<(), ControlPointError> { Ok(()) };
    let detect = |u: &str| u.contains("radio");
    let mut flag = true;
    play_from_queue(&mut q, &mut flag, &detect, &play).unwrap();
    assert!(!flag);
    play_next(&mut q, &mut flag, &detect, &play).unwrap();
    assert!(flag);
}
