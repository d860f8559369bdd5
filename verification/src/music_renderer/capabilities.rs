//! Capabilities a renderer backend offers: position, status, transport and
//! volume, independently of the protocol that drives it.
use crate::error::{msg, ControlPointError};
use crate::model::PlaybackState;
use crate::queue::backend::{erase_id, index_within, spec_next_index, spec_previous_index, QueueBackend};
use crate::queue::snapshot::PlaybackItem;
use vstd::prelude::*;

verus! {

/// Logical playback position across backends. Times are `HH:MM:SS` texts.
#[derive(Debug)]
pub struct PlaybackPositionInfo {
    /// Track number.
    pub track: Option<u32>,
    /// Current position in the track.
    pub rel_time: Option<String>,
    /// Absolute position, where relevant.
    pub abs_time: Option<String>,
    /// Total duration of the track.
    pub track_duration: Option<String>,
    /// DIDL-Lite XML of the track.
    pub track_metadata: Option<String>,
    /// URI of the current track.
    pub track_uri: Option<String>,
}

impl Clone for PlaybackPositionInfo {
    fn clone(&self) -> (r: Self)
        ensures
            r == *self,
    {
        PlaybackPositionInfo {
            track: self.track,
            rel_time: self.rel_time.clone(),
            abs_time: self.abs_time.clone(),
            track_duration: self.track_duration.clone(),
            track_metadata: self.track_metadata.clone(),
            track_uri: self.track_uri.clone(),
        }
    }
}

/// Provides the current playback position and track metadata.
pub trait PlaybackPosition {
    /// The current playback position; `Err` when the renderer cannot be
    /// queried.
    fn playback_position(&self) -> Result<PlaybackPositionInfo, ControlPointError>;
}

/// The current transport state.
pub trait PlaybackStatus {
    /// The current transport state of the renderer.
    fn playback_state(&self) -> Result<PlaybackState, ControlPointError>;
}

/// Transport control (play / pause / stop / seek), whatever the protocol.
pub trait TransportControl {
    /// Loads a resource (URI and DIDL-Lite metadata) and starts playback.
    fn play_uri(&self, uri: &str, meta: &str) -> Result<(), ControlPointError>;

    /// Starts or resumes playback of the loaded resource.
    fn play(&self) -> Result<(), ControlPointError>;

    /// Pauses playback.
    fn pause(&self) -> Result<(), ControlPointError>;

    /// Stops playback.
    fn stop(&self) -> Result<(), ControlPointError>;

    /// Seeks to a position given as `HH:MM:SS`.
    fn seek_rel_time(&self, hhmmss: &str) -> Result<(), ControlPointError>;
}

/// Volume and mute control, on the renderer's own scale.
pub trait VolumeControl {
    /// The current volume.
    fn volume(&self) -> Result<u16, ControlPointError>;

    /// Sets the volume.
    fn set_volume(&self, v: u16) -> Result<(), ControlPointError>;

    /// Whether the renderer is muted.
    fn mute(&self) -> Result<bool, ControlPointError>;

    /// Mutes or unmutes.
    fn set_mute(&self, m: bool) -> Result<(), ControlPointError>;
}

/// `r` is the queue error with message `m`.
pub open spec fn queue_error<T>(r: Result<T, ControlPointError>, m: Seq<char>) -> bool {
    r matches Err(ControlPointError::QueueError(e)) && e@ == m
}

/// The item to play from a queue: the current item; when no item is
/// current, the first one, which becomes current. An empty queue without a
/// current item is refused.
pub fn queue_item_to_play<Q: QueueBackend>(queue: &mut Q) -> (r: Result<PlaybackItem, ControlPointError>)
    ensures
        final(queue).reliable() == old(queue).reliable(),
        final(queue).queue_items() == old(queue).queue_items(),
        r matches Ok(item) ==> {
            let k: usize = match old(queue).queue_index() {
                Some(i) => i,
                None => 0usize,
            };
            &&& k < old(queue).queue_items().len()
            &&& final(queue).queue_index() == Some(k)
            &&& erase_id(item) == erase_id(old(queue).queue_items()[k as int])
        },
        old(queue).reliable() ==> (r is Ok <==> (old(queue).queue_items().len() > 0 && index_within(
            old(queue).queue_items().len(),
            old(queue).queue_index(),
        ))),
        old(queue).reliable() && old(queue).queue_items().len() == 0 && old(queue).queue_index() is None ==> queue_error(
            r,
            "Queue is empty"@,
        ),
{
    let current = match queue.current_index() {
        Ok(c) => c,
        Err(e) => {
            return Err(e);
        },
    };
    let index = match current {
        Some(i) => i,
        None => {
            let len = match queue.len() {
                Ok(n) => n,
                Err(e) => {
                    return Err(e);
                },
            };
            if len > 0 {
                match queue.set_index(Some(0)) {
                    Ok(()) => {},
                    Err(e) => {
                        return Err(e);
                    },
                }
                0
            } else {
                return Err(ControlPointError::QueueError(msg("Queue is empty")));
            }
        },
    };
    match queue.get_item(index) {
        Ok(Some(item)) => Ok(item),
        Ok(None) => Err(ControlPointError::QueueError(msg("Current item not found"))),
        Err(e) => Err(e),
    }
}

/// `play` accepted `item` for playing and answered `r`.
pub open spec fn played<P: Fn(&PlaybackItem) -> Result<(), ControlPointError>>(
    play: P,
    item: PlaybackItem,
    r: Result<(), ControlPointError>,
) -> bool {
    exists|it: &PlaybackItem| *it == item && #[trigger] play.ensures((it,), r)
}

/// `b` records whether `item` is a continuous stream: its metadata says so,
/// or else `detect` said so of its URI.
pub open spec fn stream_flag<S: Fn(&str) -> bool>(detect: S, item: PlaybackItem, b: bool) -> bool {
    match item.metadata {
        Some(m) if m.is_continuous_stream => b,
        _ => exists|u: &str| u@ == item.uri@ && #[trigger] detect.ensures((u,), b),
    }
}

/// Plays the item the queue designates (see [`queue_item_to_play`]) with
/// `play`, which loads and starts one item on the renderer, after recording
/// in `continuous_stream` whether that item is a continuous stream (its
/// metadata says so, or else `detect` says so of its URI).
pub fn play_from_queue<
    Q: QueueBackend,
    S: Fn(&str) -> bool,
    P: Fn(&PlaybackItem) -> Result<(), ControlPointError>,
>(queue: &mut Q, continuous_stream: &mut bool, detect: &S, play: &P) -> (r: Result<(), ControlPointError>)
    requires
        forall|u: &str| #[trigger] detect.requires((u,)),
        forall|it: &PlaybackItem| #[trigger] play.requires((it,)),
    ensures
        final(queue).reliable() == old(queue).reliable(),
        final(queue).queue_items() == old(queue).queue_items(),
        r is Ok || (old(queue).reliable() && old(queue).queue_items().len() > 0 && index_within(
            old(queue).queue_items().len(),
            old(queue).queue_index(),
        )) ==> exists|item: PlaybackItem| {
            let k: usize = match old(queue).queue_index() {
                Some(i) => i,
                None => 0usize,
            };
            &&& k < old(queue).queue_items().len()
            &&& final(queue).queue_index() == Some(k)
            &&& erase_id(item) == erase_id(old(queue).queue_items()[k as int])
            &&& stream_flag(*detect, item, *final(continuous_stream))
            &&& #[trigger] played(*play, item, r)
        },
        old(queue).reliable() && old(queue).queue_items().len() == 0 && old(queue).queue_index() is None ==> queue_error(
            r,
            "Queue is empty"@,
        ),
{
    let item = match queue_item_to_play(queue) {
        Ok(it) => it,
        Err(e) => {
            return Err(e);
        },
    };
    let flag = match &item.metadata {
        Some(m) => if m.is_continuous_stream {
            true
        } else {
            detect(item.uri.as_str())
        },
        None => detect(item.uri.as_str()),
    };
    *continuous_stream = flag;
    let r = play(&item);
    proof {
        assert(played(*play, item, r));
    }
    r
}

/// Makes the item at `index` current and plays it with `play` (see
/// [`play_from_queue`]); an index past the end is refused by the queue.
pub fn play_from_index<
    Q: QueueBackend,
    S: Fn(&str) -> bool,
    P: Fn(&PlaybackItem) -> Result<(), ControlPointError>,
>(queue: &mut Q, index: usize, continuous_stream: &mut bool, detect: &S, play: &P) -> (r: Result<
    (),
    ControlPointError,
>)
    requires
        forall|u: &str| #[trigger] detect.requires((u,)),
        forall|it: &PlaybackItem| #[trigger] play.requires((it,)),
    ensures
        final(queue).reliable() == old(queue).reliable(),
        final(queue).queue_items() == old(queue).queue_items(),
        r is Ok ==> index < old(queue).queue_items().len(),
        r is Ok || (old(queue).reliable() && index < old(queue).queue_items().len()) ==> {
            &&& final(queue).queue_index() == Some(index)
            &&& exists|item: PlaybackItem|
                erase_id(item) == erase_id(old(queue).queue_items()[index as int]) && stream_flag(
                    *detect,
                    item,
                    *final(continuous_stream),
                ) && #[trigger] played(*play, item, r)
        },
        old(queue).reliable() && index >= old(queue).queue_items().len() ==> r is Err,
{
    match queue.set_index(Some(index)) {
        Ok(()) => {},
        Err(e) => {
            return Err(e);
        },
    }
    play_from_queue(queue, continuous_stream, detect, play)
}

/// Moves the queue to its next item; refused when there is none.
pub fn step_queue_forward<Q: QueueBackend>(queue: &mut Q) -> (r: Result<(), ControlPointError>)
    ensures
        final(queue).reliable() == old(queue).reliable(),
        final(queue).queue_items() == old(queue).queue_items(),
        r is Ok ==> (spec_next_index(old(queue).queue_items().len(), old(queue).queue_index()) matches Some(n)
            && final(queue).queue_index() == Some(n)),
        old(queue).reliable() ==> match spec_next_index(old(queue).queue_items().len(), old(queue).queue_index()) {
            Some(_) => r is Ok,
            None => queue_error(r, "No next track"@) && final(queue).queue_index() == old(queue).queue_index(),
        },
{
    match queue.advance() {
        Ok(true) => Ok(()),
        Ok(false) => Err(ControlPointError::QueueError(msg("No next track"))),
        Err(e) => Err(e),
    }
}

/// Moves the queue to its previous item; refused when there is none.
pub fn step_queue_back<Q: QueueBackend>(queue: &mut Q) -> (r: Result<(), ControlPointError>)
    ensures
        final(queue).reliable() == old(queue).reliable(),
        final(queue).queue_items() == old(queue).queue_items(),
        r is Ok ==> (spec_previous_index(old(queue).queue_index()) matches Some(p) && final(queue).queue_index()
            == Some(p)),
        old(queue).reliable() && index_within(old(queue).queue_items().len(), old(queue).queue_index()) ==> match spec_previous_index(old(queue).queue_index()) {
            Some(_) => r is Ok,
            None => queue_error(r, "No previous track"@) && final(queue).queue_index() == old(queue).queue_index(),
        },
{
    match queue.rewind() {
        Ok(true) => Ok(()),
        Ok(false) => Err(ControlPointError::QueueError(msg("No previous track"))),
        Err(e) => Err(e),
    }
}

/// Moves the queue to its next item and plays it with `play`; refused
/// when there is no next item.
pub fn play_next<
    Q: QueueBackend,
    S: Fn(&str) -> bool,
    P: Fn(&PlaybackItem) -> Result<(), ControlPointError>,
>(queue: &mut Q, continuous_stream: &mut bool, detect: &S, play: &P) -> (r: Result<(), ControlPointError>)
    requires
        forall|u: &str| #[trigger] detect.requires((u,)),
        forall|it: &PlaybackItem| #[trigger] play.requires((it,)),
    ensures
        final(queue).reliable() == old(queue).reliable(),
        final(queue).queue_items() == old(queue).queue_items(),
        old(queue).reliable() && spec_next_index(old(queue).queue_items().len(), old(queue).queue_index()) is None
            ==> queue_error(r, "No next track"@),
        r is Ok || (old(queue).reliable() && spec_next_index(old(queue).queue_items().len(), old(queue).queue_index())
            is Some) ==> (spec_next_index(old(queue).queue_items().len(), old(queue).queue_index()) matches Some(n) && {
            &&& final(queue).queue_index() == Some(n)
            &&& exists|item: PlaybackItem|
                erase_id(item) == erase_id(old(queue).queue_items()[n as int]) && stream_flag(
                    *detect,
                    item,
                    *final(continuous_stream),
                ) && #[trigger] played(*play, item, r)
        }),
{
    match step_queue_forward(queue) {
        Ok(()) => {},
        Err(e) => {
            return Err(e);
        },
    }
    play_from_queue(queue, continuous_stream, detect, play)
}

/// Moves the queue to its previous item and plays it with `play`; refused
/// when there is no previous item.
pub fn play_previous<
    Q: QueueBackend,
    S: Fn(&str) -> bool,
    P: Fn(&PlaybackItem) -> Result<(), ControlPointError>,
>(queue: &mut Q, continuous_stream: &mut bool, detect: &S, play: &P) -> (r: Result<(), ControlPointError>)
    requires
        forall|u: &str| #[trigger] detect.requires((u,)),
        forall|it: &PlaybackItem| #[trigger] play.requires((it,)),
    ensures
        final(queue).reliable() == old(queue).reliable(),
        final(queue).queue_items() == old(queue).queue_items(),
        old(queue).reliable() && index_within(old(queue).queue_items().len(), old(queue).queue_index())
            && spec_previous_index(old(queue).queue_index()) is None ==> queue_error(r, "No previous track"@),
        r is Ok || (old(queue).reliable() && index_within(old(queue).queue_items().len(), old(queue).queue_index())
            && spec_previous_index(old(queue).queue_index()) is Some) ==> (spec_previous_index(old(queue).queue_index()) matches Some(p) && {
            &&& final(queue).queue_index() == Some(p)
            &&& exists|item: PlaybackItem|
                erase_id(item) == erase_id(old(queue).queue_items()[p as int]) && stream_flag(
                    *detect,
                    item,
                    *final(continuous_stream),
                ) && #[trigger] played(*play, item, r)
        }),
{
    match step_queue_back(queue) {
        Ok(()) => {},
        Err(e) => {
            return Err(e);
        },
    }
    play_from_queue(queue, continuous_stream, detect, play)
}

} // verus!
