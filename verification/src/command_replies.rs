//! The answers of the REST API to the commands it hands to a renderer.
//!
//! A command runs in a task with a time limit; whatever happens to it (the
//! renderer is unknown, the time runs out, the task dies, the command fails
//! or succeeds) is answered with an HTTP status and a message.
use crate::didl::push_text;
use crate::error::msg2;
use crate::openapi::{ErrorResponse, SuccessResponse};
use crate::text::{dec, push_dec, string_from_chars};
use vstd::prelude::*;

verus! {

/// Time limit of play, pause, stop, resume and next, in seconds.
pub const TRANSPORT_COMMAND_TIMEOUT_SECS: u64 = 5;

/// Time limit of the volume and mute commands, in seconds.
pub const VOLUME_COMMAND_TIMEOUT_SECS: u64 = 3;

/// Time limit of attaching a playlist (browse, cache and queue update), in
/// seconds.
pub const ATTACH_PLAYLIST_TIMEOUT_SECS: u64 = 60;

/// Status of an unknown renderer.
pub const STATUS_NOT_FOUND: u16 = 404;

/// Status of a command that failed or whose task died.
pub const STATUS_INTERNAL_ERROR: u16 = 500;

/// Status of a command that ran out of time.
pub const STATUS_GATEWAY_TIMEOUT: u16 = 504;

/// A command that changes what a renderer plays, or its volume.
#[derive(Debug, Clone)]
pub enum TransportCommand {
    Play,
    Pause,
    Stop,
    /// Plays the current item of the queue again.
    Resume,
    /// Plays the next item of the queue.
    Next,
    SetVolume(u8),
    /// Attaches the queue to the playlist container with this id.
    AttachPlaylist(String),
}

/// How a command handed to a renderer ended.
#[derive(Debug, Clone)]
pub enum CommandOutcome<T> {
    /// No renderer has the requested id.
    UnknownRenderer,
    /// The command did not end within its time limit.
    TimedOut,
    /// The task that ran the command failed, with this message.
    TaskFailed(String),
    /// The command failed, with this message.
    Failed(String),
    /// The command succeeded with this value.
    Done(T),
}

/// The answer to a command as plain text: a success message, or a status and
/// an error message.
pub open spec fn reply_view(r: Result<SuccessResponse, (u16, ErrorResponse)>) -> Result<Seq<char>, (u16, Seq<char>)> {
    match r {
        Ok(s) => Ok(s.message@),
        Err((status, e)) => Err((status, e.error@)),
    }
}

/// The answer to an outcome other than success.
pub open spec fn spec_refusal<T>(
    renderer_id: Seq<char>,
    name: Seq<char>,
    secs: u64,
    failure: Seq<char>,
    outcome: CommandOutcome<T>,
) -> (u16, Seq<char>) {
    match outcome {
        CommandOutcome::UnknownRenderer => (404u16, "Renderer "@ + renderer_id + " not found"@),
        CommandOutcome::TimedOut => (504u16, name + " timed out after "@ + dec(secs as nat) + "s"@),
        CommandOutcome::TaskFailed(m) => (500u16, "Internal task error: "@ + m@),
        CommandOutcome::Failed(m) => (500u16, failure + m@),
        CommandOutcome::Done(_) => (500u16, Seq::empty()),
    }
}

/// The answer to an outcome: `success` when the command succeeded.
pub open spec fn spec_reply<T>(
    renderer_id: Seq<char>,
    name: Seq<char>,
    secs: u64,
    failure: Seq<char>,
    outcome: CommandOutcome<T>,
    success: Seq<char>,
) -> Result<Seq<char>, (u16, Seq<char>)> {
    match outcome {
        CommandOutcome::Done(_) => Ok(success),
        _ => Err(spec_refusal(renderer_id, name, secs, failure, outcome)),
    }
}

/// How a transport command is named when it runs out of time.
pub open spec fn spec_transport_name(c: TransportCommand) -> Seq<char> {
    match c {
        TransportCommand::Play => "Play command"@,
        TransportCommand::Pause => "Pause command"@,
        TransportCommand::Stop => "Stop command"@,
        TransportCommand::Resume => "Resume command"@,
        TransportCommand::Next => "Next command"@,
        TransportCommand::SetVolume(_) => "Set volume command"@,
        TransportCommand::AttachPlaylist(_) => "Attach playlist"@,
    }
}

/// What precedes the message of a failed transport command.
pub open spec fn spec_transport_failure(c: TransportCommand) -> Seq<char> {
    match c {
        TransportCommand::Play => "Failed to play: "@,
        TransportCommand::Pause => "Failed to pause: "@,
        TransportCommand::Stop => "Failed to stop: "@,
        TransportCommand::Resume => "Failed to resume playback: "@,
        TransportCommand::Next => "Failed to skip to next track: "@,
        TransportCommand::SetVolume(_) => "Failed to set volume: "@,
        TransportCommand::AttachPlaylist(_) => "Failed to attach playlist: "@,
    }
}

/// The message of a transport command that succeeded.
pub open spec fn spec_transport_success(c: TransportCommand) -> Seq<char> {
    match c {
        TransportCommand::Play => "Playback started"@,
        TransportCommand::Pause => "Playback paused"@,
        TransportCommand::Stop => "Playback stopped"@,
        TransportCommand::Resume => "Playback resumed"@,
        TransportCommand::Next => "Skipped to next track"@,
        TransportCommand::SetVolume(v) => "Volume set to "@ + dec(v as nat),
        TransportCommand::AttachPlaylist(id) => "Playlist "@ + id@ + " attached to renderer"@,
    }
}

/// The time limit of a transport command, in seconds.
pub open spec fn spec_transport_timeout(c: TransportCommand) -> u64 {
    match c {
        TransportCommand::SetVolume(_) => VOLUME_COMMAND_TIMEOUT_SECS,
        TransportCommand::AttachPlaylist(_) => ATTACH_PLAYLIST_TIMEOUT_SECS,
        _ => TRANSPORT_COMMAND_TIMEOUT_SECS,
    }
}

/// The time limit of a transport command, in seconds.
pub fn transport_timeout_secs(command: &TransportCommand) -> (r: u64)
    ensures
        r == spec_transport_timeout(*command),
{
    match command {
        TransportCommand::SetVolume(_) => VOLUME_COMMAND_TIMEOUT_SECS,
        TransportCommand::AttachPlaylist(_) => ATTACH_PLAYLIST_TIMEOUT_SECS,
        _ => TRANSPORT_COMMAND_TIMEOUT_SECS,
    }
}

/// The answer to an outcome other than success.
fn refusal<T>(renderer_id: &str, name: &str, secs: u64, failure: &str, outcome: CommandOutcome<T>) -> (r: (
    u16,
    ErrorResponse,
))
    requires
        !(outcome is Done),
    ensures
        (r.0, r.1.error@) == spec_refusal(renderer_id@, name@, secs, failure@, outcome),
{
    match outcome {
        CommandOutcome::UnknownRenderer => {
            let mut out: Vec<char> = Vec::new();
            push_text(&mut out, "Renderer ");
            push_text(&mut out, renderer_id);
            push_text(&mut out, " not found");
            (STATUS_NOT_FOUND, ErrorResponse { error: string_from_chars(out.as_slice()) })
        },
        CommandOutcome::TimedOut => {
            let mut out: Vec<char> = Vec::new();
            push_text(&mut out, name);
            push_text(&mut out, " timed out after ");
            push_dec(&mut out, secs);
            push_text(&mut out, "s");
            (STATUS_GATEWAY_TIMEOUT, ErrorResponse { error: string_from_chars(out.as_slice()) })
        },
        CommandOutcome::TaskFailed(m) => (
            STATUS_INTERNAL_ERROR,
            ErrorResponse { error: msg2("Internal task error: ", m.as_str()) },
        ),
        CommandOutcome::Failed(m) => (STATUS_INTERNAL_ERROR, ErrorResponse { error: msg2(failure, m.as_str()) }),
        CommandOutcome::Done(_) => (STATUS_INTERNAL_ERROR, ErrorResponse { error: String::new() }),
    }
}

/// The answer to a transport command: 404 for an unknown renderer, 504
/// when it ran out of time, 500 when its task or the command failed, and a
/// message naming what was done otherwise.
pub fn transport_reply(renderer_id: &str, command: &TransportCommand, outcome: CommandOutcome<()>) -> (r: Result<
    SuccessResponse,
    (u16, ErrorResponse),
>)
    ensures
        reply_view(r) == spec_reply(
            renderer_id@,
            spec_transport_name(*command),
            spec_transport_timeout(*command),
            spec_transport_failure(*command),
            outcome,
            spec_transport_success(*command),
        ),
{
    let (name, failure): (&str, &str) = match command {
        TransportCommand::Play => ("Play command", "Failed to play: "),
        TransportCommand::Pause => ("Pause command", "Failed to pause: "),
        TransportCommand::Stop => ("Stop command", "Failed to stop: "),
        TransportCommand::Resume => ("Resume command", "Failed to resume playback: "),
        TransportCommand::Next => ("Next command", "Failed to skip to next track: "),
        TransportCommand::SetVolume(_) => ("Set volume command", "Failed to set volume: "),
        TransportCommand::AttachPlaylist(_) => ("Attach playlist", "Failed to attach playlist: "),
    };
    let secs = transport_timeout_secs(command);
    match outcome {
        CommandOutcome::Done(_) => {
            let mut out: Vec<char> = Vec::new();
            match command {
                TransportCommand::Play => push_text(&mut out, "Playback started"),
                TransportCommand::Pause => push_text(&mut out, "Playback paused"),
                TransportCommand::Stop => push_text(&mut out, "Playback stopped"),
                TransportCommand::Resume => push_text(&mut out, "Playback resumed"),
                TransportCommand::Next => push_text(&mut out, "Skipped to next track"),
                TransportCommand::SetVolume(v) => {
                    push_text(&mut out, "Volume set to ");
                    push_dec(&mut out, *v as u64);
                },
                TransportCommand::AttachPlaylist(id) => {
                    push_text(&mut out, "Playlist ");
                    push_text(&mut out, id.as_str());
                    push_text(&mut out, " attached to renderer");
                },
            }
            Ok(SuccessResponse { message: string_from_chars(out.as_slice()) })
        },
        _ => Err(refusal(renderer_id, name, secs, failure, outcome)),
    }
}

/// The answer to a step of the volume (`up` or down by five), whose outcome
/// carries the new volume.
pub fn volume_step_reply(renderer_id: &str, up: bool, outcome: CommandOutcome<u16>) -> (r: Result<
    SuccessResponse,
    (u16, ErrorResponse),
>)
    ensures
        reply_view(r) == spec_reply(
            renderer_id@,
            if up { "Volume up command"@ } else { "Volume down command"@ },
            VOLUME_COMMAND_TIMEOUT_SECS,
            if up { "Failed to increase volume: "@ } else { "Failed to decrease volume: "@ },
            outcome,
            match outcome {
                CommandOutcome::Done(v) => if up {
                    "Volume increased to "@ + dec(v as nat)
                } else {
                    "Volume decreased to "@ + dec(v as nat)
                },
                _ => Seq::empty(),
            },
        ),
{
    let (name, failure): (&str, &str) = if up {
        ("Volume up command", "Failed to increase volume: ")
    } else {
        ("Volume down command", "Failed to decrease volume: ")
    };
    match outcome {
        CommandOutcome::Done(v) => {
            let mut out: Vec<char> = Vec::new();
            if up {
                push_text(&mut out, "Volume increased to ");
            } else {
                push_text(&mut out, "Volume decreased to ");
            }
            push_dec(&mut out, v as u64);
            Ok(SuccessResponse { message: string_from_chars(out.as_slice()) })
        },
        _ => Err(refusal(renderer_id, name, VOLUME_COMMAND_TIMEOUT_SECS, failure, outcome)),
    }
}

/// The answer to a toggle of the mute, whose outcome carries the new mute
/// state.
pub fn toggle_mute_reply(renderer_id: &str, outcome: CommandOutcome<bool>) -> (r: Result<
    SuccessResponse,
    (u16, ErrorResponse),
>)
    ensures
        reply_view(r) == spec_reply(
            renderer_id@,
            "Toggle mute command"@,
            VOLUME_COMMAND_TIMEOUT_SECS,
            "Failed to toggle mute: "@,
            outcome,
            match outcome {
                CommandOutcome::Done(m) => if m { "Mute enabled"@ } else { "Mute disabled"@ },
                _ => Seq::empty(),
            },
        ),
{
    match outcome {
        CommandOutcome::Done(m) => {
            let text = if m {
                "Mute enabled"
            } else {
                "Mute disabled"
            };
            let mut out: Vec<char> = Vec::new();
            push_text(&mut out, text);
            Ok(SuccessResponse { message: string_from_chars(out.as_slice()) })
        },
        _ => Err(refusal(renderer_id, "Toggle mute command", VOLUME_COMMAND_TIMEOUT_SECS, "Failed to toggle mute: ", outcome)),
    }
}

/// A request that did not succeed is never answered with a success, and
/// every refusal carries one of the three error statuses; only an unknown
/// renderer is answered 404, only a timeout 504.
pub proof fn law_refusals_carry_error_status<T>(
    renderer_id: Seq<char>,
    name: Seq<char>,
    secs: u64,
    failure: Seq<char>,
    outcome: CommandOutcome<T>,
    success: Seq<char>,
)
    ensures
        spec_reply(renderer_id, name, secs, failure, outcome, success) is Ok <==> outcome is Done,
        spec_reply(renderer_id, name, secs, failure, outcome, success) matches Err((s, _)) ==> (s == 404 || s
            == 500 || s == 504),
        spec_reply(renderer_id, name, secs, failure, outcome, success) matches Err((s, _)) ==> (s == 404
            <==> outcome is UnknownRenderer),
        spec_reply(renderer_id, name, secs, failure, outcome, success) matches Err((s, _)) ==> (s == 504
            <==> outcome is TimedOut),
{
}

/// The answer when a renderer's snapshot could not be built: the renderer
/// is reported as not found.
pub fn snapshot_error_reply(renderer_id: &str) -> (r: (u16, ErrorResponse))
    ensures
        r.0 == STATUS_NOT_FOUND,
        r.1.error@ == "Renderer "@ + renderer_id@ + " not found"@,
{
    let mut out: Vec<char> = Vec::new();
    push_text(&mut out, "Renderer ");
    push_text(&mut out, renderer_id);
    push_text(&mut out, " not found");
    (STATUS_NOT_FOUND, ErrorResponse { error: string_from_chars(out.as_slice()) })
}

/// Status of a request the renderer could not serve.
pub const STATUS_BAD_GATEWAY: u16 = 502;

/// The answer to a failed OpenHome playlist request: an OpenHome service
/// the renderer lacks is answered 404 with the error's message, any other
/// failure 502, naming what was attempted (`context`) and the renderer.
pub fn openhome_error_reply(renderer_id: &str, access_error: bool, message: &str, context: &str) -> (r: (
    u16,
    ErrorResponse,
))
    ensures
        access_error ==> r.0 == STATUS_NOT_FOUND && r.1.error@ == message@,
        !access_error ==> r.0 == STATUS_BAD_GATEWAY && r.1.error@ == "Failed to "@ + context@ + " for renderer "@
            + renderer_id@ + ": "@ + message@,
{
    if access_error {
        let mut out: Vec<char> = Vec::new();
        push_text(&mut out, message);
        (STATUS_NOT_FOUND, ErrorResponse { error: string_from_chars(out.as_slice()) })
    } else {
        let mut out: Vec<char> = Vec::new();
        push_text(&mut out, "Failed to ");
        push_text(&mut out, context);
        push_text(&mut out, " for renderer ");
        push_text(&mut out, renderer_id);
        push_text(&mut out, ": ");
        push_text(&mut out, message);
        (STATUS_BAD_GATEWAY, ErrorResponse { error: string_from_chars(out.as_slice()) })
    }
}

/// Time limit of the commands that change a queue or an OpenHome playlist,
/// in seconds.
pub const QUEUE_COMMAND_TIMEOUT_SECS: u64 = 10;

/// What a request to play or queue a server's content does with the items
/// found under the requested object.
#[derive(Debug, Clone, Copy, PartialEq, Eq, Structural)]
pub enum ContentAction {
    /// Several items: the queue is bound to the container, playing at once.
    AttachPlaylist,
    /// One item: the queue is cleared, the item enqueued and played.
    PlaySingle,
    /// The items are added to the queue.
    Enqueue,
}

/// What playing content does with `item_count` items; nothing playable is
/// refused.
pub fn play_content_action(item_count: usize) -> (r: Result<ContentAction, String>)
    ensures
        item_count == 0 ==> (r matches Err(m) && m@ == "No playable content found"@),
        item_count == 1 ==> r == Ok::<ContentAction, String>(ContentAction::PlaySingle),
        item_count > 1 ==> r == Ok::<ContentAction, String>(ContentAction::AttachPlaylist),
{
    if item_count == 0 {
        Err(crate::error::msg("No playable content found"))
    } else if item_count > 1 {
        Ok(ContentAction::AttachPlaylist)
    } else {
        Ok(ContentAction::PlaySingle)
    }
}

/// What adding content to a queue does with `item_count` items; nothing
/// playable is refused.
pub fn add_content_action(item_count: usize) -> (r: Result<ContentAction, String>)
    ensures
        item_count == 0 ==> (r matches Err(m) && m@ == "No playable content found"@),
        item_count > 0 ==> r == Ok::<ContentAction, String>(ContentAction::Enqueue),
{
    if item_count == 0 {
        Err(crate::error::msg("No playable content found"))
    } else {
        Ok(ContentAction::Enqueue)
    }
}

/// A command that changes a renderer's queue or OpenHome playlist.
#[derive(Debug, Clone)]
pub enum QueueCommand {
    /// Plays a server's content at once.
    PlayContent,
    /// Adds a server's content to the queue.
    AddToQueue,
    /// Empties the OpenHome playlist.
    ClearOpenHomePlaylist,
    /// Adds a track to the OpenHome playlist.
    AddOpenHomeTrack,
    /// Plays the OpenHome track with this id.
    PlayOpenHomeTrack(u32),
}

/// How a queue command is named when it runs out of time.
pub open spec fn spec_queue_name(c: QueueCommand) -> Seq<char> {
    match c {
        QueueCommand::PlayContent => "Play content"@,
        QueueCommand::AddToQueue => "Add to queue"@,
        QueueCommand::ClearOpenHomePlaylist => "Clear playlist"@,
        QueueCommand::AddOpenHomeTrack => "Add track"@,
        QueueCommand::PlayOpenHomeTrack(_) => "Play track"@,
    }
}

/// What a queue command reports when it succeeded.
pub open spec fn spec_queue_success(c: QueueCommand) -> Seq<char> {
    match c {
        QueueCommand::PlayContent => "Content playing"@,
        QueueCommand::AddToQueue => "Content added to queue"@,
        QueueCommand::ClearOpenHomePlaylist => "OpenHome playlist cleared"@,
        QueueCommand::AddOpenHomeTrack => "Track added to OpenHome playlist"@,
        QueueCommand::PlayOpenHomeTrack(id) => "Playing OpenHome track "@ + dec(id as nat),
    }
}

/// What an OpenHome playlist command was attempting, in its failures.
pub open spec fn spec_openhome_context(c: QueueCommand) -> Seq<char> {
    match c {
        QueueCommand::ClearOpenHomePlaylist => "clear OpenHome playlist"@,
        QueueCommand::AddOpenHomeTrack => "add OpenHome track"@,
        _ => "play OpenHome track"@,
    }
}

/// The answer to a queue command. The content commands are answered as the
/// transport commands are, a failure with 500; a failure of an OpenHome
/// playlist command is answered 404 when the renderer lacks the service
/// (`access_error`), 502 otherwise.
pub open spec fn spec_queue_reply(
    renderer_id: Seq<char>,
    c: QueueCommand,
    outcome: CommandOutcome<()>,
    access_error: bool,
) -> Result<Seq<char>, (u16, Seq<char>)> {
    match (c, outcome) {
        (QueueCommand::PlayContent, _) => spec_reply(
            renderer_id,
            spec_queue_name(c),
            QUEUE_COMMAND_TIMEOUT_SECS,
            "Failed to play content: "@,
            outcome,
            spec_queue_success(c),
        ),
        (QueueCommand::AddToQueue, _) => spec_reply(
            renderer_id,
            spec_queue_name(c),
            QUEUE_COMMAND_TIMEOUT_SECS,
            "Failed to add to queue: "@,
            outcome,
            spec_queue_success(c),
        ),
        (_, CommandOutcome::Failed(m)) => if access_error {
            Err((404u16, m@))
        } else {
            Err((502u16, "Failed to "@ + spec_openhome_context(c) + " for renderer "@ + renderer_id + ": "@ + m@))
        },
        _ => spec_reply(renderer_id, spec_queue_name(c), QUEUE_COMMAND_TIMEOUT_SECS, Seq::empty(), outcome, spec_queue_success(c)),
    }
}

/// The answer to a queue or OpenHome playlist command (see
/// [`spec_queue_reply`]).
pub fn queue_command_reply(
    renderer_id: &str,
    command: &QueueCommand,
    outcome: CommandOutcome<()>,
    access_error: bool,
) -> (r: Result<SuccessResponse, (u16, ErrorResponse)>)
    ensures
        reply_view(r) == spec_queue_reply(renderer_id@, *command, outcome, access_error),
{
    let name: &str = match command {
        QueueCommand::PlayContent => "Play content",
        QueueCommand::AddToQueue => "Add to queue",
        QueueCommand::ClearOpenHomePlaylist => "Clear playlist",
        QueueCommand::AddOpenHomeTrack => "Add track",
        QueueCommand::PlayOpenHomeTrack(_) => "Play track",
    };
    match outcome {
        CommandOutcome::Done(_) => {
            let mut out: Vec<char> = Vec::new();
            match command {
                QueueCommand::PlayContent => push_text(&mut out, "Content playing"),
                QueueCommand::AddToQueue => push_text(&mut out, "Content added to queue"),
                QueueCommand::ClearOpenHomePlaylist => push_text(&mut out, "OpenHome playlist cleared"),
                QueueCommand::AddOpenHomeTrack => push_text(&mut out, "Track added to OpenHome playlist"),
                QueueCommand::PlayOpenHomeTrack(id) => {
                    push_text(&mut out, "Playing OpenHome track ");
                    push_dec(&mut out, *id as u64);
                },
            }
            Ok(SuccessResponse { message: string_from_chars(out.as_slice()) })
        },
        CommandOutcome::Failed(m) => match command {
            QueueCommand::PlayContent => Err(
                refusal(renderer_id, name, QUEUE_COMMAND_TIMEOUT_SECS, "Failed to play content: ", CommandOutcome::<()>::Failed(m)),
            ),
            QueueCommand::AddToQueue => Err(
                refusal(renderer_id, name, QUEUE_COMMAND_TIMEOUT_SECS, "Failed to add to queue: ", CommandOutcome::<()>::Failed(m)),
            ),
            QueueCommand::ClearOpenHomePlaylist => Err(openhome_error_reply(renderer_id, access_error, m.as_str(), "clear OpenHome playlist")),
            QueueCommand::AddOpenHomeTrack => Err(openhome_error_reply(renderer_id, access_error, m.as_str(), "add OpenHome track")),
            QueueCommand::PlayOpenHomeTrack(_) => Err(openhome_error_reply(renderer_id, access_error, m.as_str(), "play OpenHome track")),
        },
        _ => Err(refusal(renderer_id, name, QUEUE_COMMAND_TIMEOUT_SECS, "", outcome)),
    }
}

/// A queue or OpenHome playlist command that did not succeed is never
/// answered with a success; every refusal carries 404, 500, 502 or 504, and
/// 502 only answers an OpenHome playlist command that failed on a renderer
/// offering the service.
pub proof fn law_queue_refusals_carry_error_status(
    renderer_id: Seq<char>,
    c: QueueCommand,
    outcome: CommandOutcome<()>,
    access_error: bool,
)
    ensures
        spec_queue_reply(renderer_id, c, outcome, access_error) is Ok <==> outcome is Done,
        spec_queue_reply(renderer_id, c, outcome, access_error) matches Err((s, _)) ==> (s == 404 || s == 500 || s
            == 502 || s == 504),
        spec_queue_reply(renderer_id, c, outcome, access_error) matches Err((s, _)) ==> (s == 502 <==> (
        outcome is Failed && !access_error && !(c is PlayContent) && !(c is AddToQueue))),
{
}

} // verus!
