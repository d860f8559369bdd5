use pmocontrol::model::DeviceId;
use pmocontrol::queue::interne::InternalQueue;
use pmocontrol::queue::music_queue::{MusicQueue, SyncFlags, SyncScheduleOutcome, WorkerNext};

#[test]
fn second_request_cancels_and_asks_another_round() {
    let mut flags = SyncFlags::idle();
    assert_eq!(flags.request(), SyncScheduleOutcome::Scheduled);
    assert_eq!(flags, SyncFlags { in_progress: true, pending: false, cancel: false });
    assert_eq!(flags.after_round(), WorkerNext::Finish);
    assert_eq!(flags.request(), SyncScheduleOutcome::AlreadyRunning);
    assert_eq!(flags, SyncFlags { in_progress: true, pending: true, cancel: true });
    assert_eq!(flags.after_round(), WorkerNext::Refetch);
    flags.begin_round();
    assert_eq!(flags, SyncFlags { in_progress: true, pending: false, cancel: false });
    flags.finish();
    assert!(!flags.in_progress);
    assert_eq!(flags.request(), SyncScheduleOutcome::Scheduled);
}

#[test]
fn internal_music_queue_is_not_openhome() {
    let q = MusicQueue::from_internal(InternalQueue::new(DeviceId("r".to_string())));
    assert!(!q.is_openhome());
    assert!(q.as_openhome().is_none());
    assert!(!q.sync.in_progress);
}
