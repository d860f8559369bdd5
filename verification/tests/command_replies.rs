use pmocontrol::command_replies::{
    add_content_action, openhome_error_reply, play_content_action, queue_command_reply, snapshot_error_reply,
    toggle_mute_reply, transport_reply, transport_timeout_secs, volume_step_reply, CommandOutcome, ContentAction,
    QueueCommand, TransportCommand,
};

fn err_of<T>(r: Result<T, (u16, pmocontrol::openapi::ErrorResponse)>) -> (u16, String) {
    match r {
        Ok(_) => panic!("expected an error reply"),
        Err((s, e)) => (s, e.error),
    }
}

#[test]
fn play_success_and_refusals() {
    let ok = transport_reply("r1", &TransportCommand::Play, CommandOutcome::Done(())).unwrap();
    assert_eq!(ok.message, "Playback started");
    assert_eq!(
        err_of(transport_reply("r1", &TransportCommand::Play, CommandOutcome::UnknownRenderer)),
        (404, "Renderer r1 not found".to_string())
    );
    assert_eq!(
        err_of(transport_reply("r1", &TransportCommand::Play, CommandOutcome::TimedOut)),
        (504, "Play command timed out after 5s".to_string())
    );
    assert_eq!(
        err_of(transport_reply("r1", &TransportCommand::Play, CommandOutcome::TaskFailed("panicked".to_string()))),
        (500, "Internal task error: panicked".to_string())
    );
    assert_eq!(
        err_of(transport_reply("r1", &TransportCommand::Play, CommandOutcome::Failed("no route".to_string()))),
        (500, "Failed to play: no route".to_string())
    );
}

#[test]
fn transport_success_messages() {
    let msg = |c: TransportCommand| transport_reply("x", &c, CommandOutcome::Done(())).unwrap().message;
    assert_eq!(msg(TransportCommand::Pause), "Playback paused");
    assert_eq!(msg(TransportCommand::Stop), "Playback stopped");
    assert_eq!(msg(TransportCommand::Resume), "Playback resumed");
    assert_eq!(msg(TransportCommand::Next), "Skipped to next track");
    assert_eq!(msg(TransportCommand::SetVolume(37)), "Volume set to 37");
    assert_eq!(
        msg(TransportCommand::AttachPlaylist("pl:7".to_string())),
        "Playlist pl:7 attached to renderer"
    );
}

#[test]
fn transport_time_limits() {
    assert_eq!(transport_timeout_secs(&TransportCommand::Stop), 5);
    assert_eq!(transport_timeout_secs(&TransportCommand::SetVolume(1)), 3);
    assert_eq!(transport_timeout_secs(&TransportCommand::AttachPlaylist(String::new())), 60);
    assert_eq!(
        err_of(transport_reply("r", &TransportCommand::AttachPlaylist("c".to_string()), CommandOutcome::TimedOut)),
        (504, "Attach playlist timed out after 60s".to_string())
    );
    assert_eq!(
        err_of(transport_reply("r", &TransportCommand::Next, CommandOutcome::Failed("empty".to_string()))),
        (500, "Failed to skip to next track: empty".to_string())
    );
}

#[test]
fn volume_step_replies() {
    assert_eq!(volume_step_reply("r", true, CommandOutcome::Done(55)).unwrap().message, "Volume increased to 55");
    assert_eq!(volume_step_reply("r", false, CommandOutcome::Done(0)).unwrap().message, "Volume decreased to 0");
    assert_eq!(
        err_of(volume_step_reply("r", true, CommandOutcome::TimedOut)),
        (504, "Volume up command timed out after 3s".to_string())
    );
    assert_eq!(
        err_of(volume_step_reply("r", false, CommandOutcome::Failed("x".to_string()))),
        (500, "Failed to decrease volume: x".to_string())
    );
}

#[test]
fn toggle_mute_replies() {
    assert_eq!(toggle_mute_reply("r", CommandOutcome::Done(true)).unwrap().message, "Mute enabled");
    assert_eq!(toggle_mute_reply("r", CommandOutcome::Done(false)).unwrap().message, "Mute disabled");
    assert_eq!(
        err_of(toggle_mute_reply("r", CommandOutcome::TimedOut)),
        (504, "Toggle mute command timed out after 3s".to_string())
    );
    assert_eq!(
        err_of(toggle_mute_reply("zz", CommandOutcome::UnknownRenderer)),
        (404, "Renderer zz not found".to_string())
    );
}

#[test]
fn snapshot_error_is_not_found() {
    let (status, e) = snapshot_error_reply("uuid:r1");
    assert_eq!(status, 404);
    assert_eq!(e.error, "Renderer uuid:r1 not found");
}

#[test]
fn openhome_errors_are_not_found_or_bad_gateway() {
    let (status, e) = openhome_error_reply("uuid:r1", true, "Renderer has no OpenHome playlist", "read playlist");
    assert_eq!(status, 404);
    assert_eq!(e.error, "Renderer has no OpenHome playlist");
    let (status, e) = openhome_error_reply("uuid:r1", false, "timeout", "read playlist");
    assert_eq!(status, 502);
    assert_eq!(e.error, "Failed to read playlist for renderer uuid:r1: timeout");
}

#[test]
fn content_actions() {
    assert_eq!(play_content_action(0).unwrap_err(), "No playable content found");
    assert_eq!(play_content_action(1).unwrap(), ContentAction::PlaySingle);
    assert_eq!(play_content_action(7).unwrap(), ContentAction::AttachPlaylist);
    assert_eq!(add_content_action(0).unwrap_err(), "No playable content found");
    assert_eq!(add_content_action(3).unwrap(), ContentAction::Enqueue);
}

#[test]
fn queue_command_replies() {
    let ok = queue_command_reply("r1", &QueueCommand::PlayContent, CommandOutcome::Done(()), false).unwrap();
    assert_eq!(ok.message, "Content playing");
    let ok = queue_command_reply("r1", &QueueCommand::PlayOpenHomeTrack(42), CommandOutcome::Done(()), false).unwrap();
    assert_eq!(ok.message, "Playing OpenHome track 42");
    assert_eq!(
        err_of(queue_command_reply("r1", &QueueCommand::AddToQueue, CommandOutcome::TimedOut, false)),
        (504, "Add to queue timed out after 10s".to_string())
    );
    assert_eq!(
        err_of(queue_command_reply(
            "r1",
            &QueueCommand::PlayContent,
            CommandOutcome::Failed("No playable content found".to_string()),
            false
        )),
        (500, "Failed to play content: No playable content found".to_string())
    );
    assert_eq!(
        err_of(queue_command_reply(
            "r1",
            &QueueCommand::ClearOpenHomePlaylist,
            CommandOutcome::Failed("SOAP fault".to_string()),
            false
        )),
        (502, "Failed to clear OpenHome playlist for renderer r1: SOAP fault".to_string())
    );
    assert_eq!(
        err_of(queue_command_reply(
            "r1",
            &QueueCommand::AddOpenHomeTrack,
            CommandOutcome::Failed("no OpenHome playlist".to_string()),
            true
        )),
        (404, "no OpenHome playlist".to_string())
    );
    assert_eq!(
        err_of(queue_command_reply("r1", &QueueCommand::PlayOpenHomeTrack(3), CommandOutcome::TimedOut, false)),
        (504, "Play track timed out after 10s".to_string())
    );
}
