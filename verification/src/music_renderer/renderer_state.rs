//! The playback bookkeeping of a renderer: where playback comes from, the
//! flags that decide auto-advance, and the sleep timer.
use crate::error::ControlPointError;
use crate::model::{DeviceId, PlaybackState, TrackMetadata};
use crate::music_renderer::sleep_timer::{duration_error, SleepTimer};
use vstd::prelude::*;

verus! {

/// Where the current playback comes from.
#[derive(Debug, Clone, Copy, PartialEq, Eq, Structural)]
pub enum PlaybackSource {
    /// Nothing is playing.
    Idle,
    /// Playback is driven by the control point's queue.
    FromQueue,
    /// Something else started playback on the renderer.
    External,
}

/// Playback bookkeeping of a renderer.
#[derive(Debug)]
pub struct MusicRendererState {
    /// Last known track metadata.
    pub last_metadata: Option<TrackMetadata>,
    /// Where the current playback comes from.
    pub playback_source: PlaybackSource,
    /// The user asked for the current stop.
    pub user_stop_requested: bool,
    /// Sleep timer.
    pub sleep_timer: SleepTimer,
    /// A `PLAYING` state was seen since the current track started.
    pub has_played_since_track_start: bool,
}

/// Bookkeeping after a state change is seen, and whether to move to the next
/// queue item: a stop asked by the user ends playback; a stop after queue
/// playback that was seen playing moves on; a stop during queue playback
/// never seen playing is ignored; any other stop ends playback; `PLAYING`
/// marks idle playback as external and records that the track played.
pub open spec fn spec_state_change(s: MusicRendererState, state: PlaybackState) -> (MusicRendererState, bool) {
    match state {
        PlaybackState::Stopped => if s.user_stop_requested {
            (
                MusicRendererState {
                    user_stop_requested: false,
                    playback_source: PlaybackSource::Idle,
                    has_played_since_track_start: false,
                    ..s
                },
                false,
            )
        } else if s.playback_source == PlaybackSource::FromQueue {
            (MusicRendererState { has_played_since_track_start: false, ..s }, s.has_played_since_track_start)
        } else {
            (
                MusicRendererState {
                    playback_source: PlaybackSource::Idle,
                    has_played_since_track_start: false,
                    ..s
                },
                false,
            )
        },
        PlaybackState::Playing => (
            MusicRendererState {
                playback_source: if s.playback_source == PlaybackSource::Idle {
                    PlaybackSource::External
                } else {
                    s.playback_source
                },
                has_played_since_track_start: true,
                ..s
            },
            false,
        ),
        _ => (s, false),
    }
}

impl MusicRendererState {
    /// Idle bookkeeping.
    pub fn new() -> (r: Self)
        ensures
            r.last_metadata is None,
            r.playback_source == PlaybackSource::Idle,
            !r.user_stop_requested,
            !r.has_played_since_track_start,
            !r.sleep_timer.active(),
    {
        MusicRendererState {
            last_metadata: None,
            playback_source: PlaybackSource::Idle,
            user_stop_requested: false,
            sleep_timer: SleepTimer::new(),
            has_played_since_track_start: false,
        }
    }

    /// Records where playback comes from.
    pub fn set_playback_source(&mut self, source: PlaybackSource)
        ensures
            *final(self) == (MusicRendererState { playback_source: source, ..*old(self) }),
    {
        self.playback_source = source;
    }

    /// Whether playback is driven by the queue.
    pub fn is_playing_from_queue(&self) -> (r: bool)
        ensures
            r == (self.playback_source == PlaybackSource::FromQueue),
    {
        match self.playback_source {
            PlaybackSource::FromQueue => true,
            _ => false,
        }
    }

    /// Marks playback as external when nothing was playing.
    pub fn mark_external_if_idle(&mut self)
        ensures
            *final(self) == (MusicRendererState {
                playback_source: if old(self).playback_source == PlaybackSource::Idle {
                    PlaybackSource::External
                } else {
                    old(self).playback_source
                },
                ..*old(self)
            }),
    {
        match self.playback_source {
            PlaybackSource::Idle => {
                self.playback_source = PlaybackSource::External;
            },
            _ => {},
        }
    }

    /// Records that the user asked for a stop.
    pub fn mark_user_stop_requested(&mut self)
        ensures
            *final(self) == (MusicRendererState { user_stop_requested: true, ..*old(self) }),
    {
        self.user_stop_requested = true;
    }

    /// Whether the user asked for a stop; the request is cleared.
    pub fn check_and_clear_user_stop_requested(&mut self) -> (r: bool)
        ensures
            r == old(self).user_stop_requested,
            *final(self) == (MusicRendererState { user_stop_requested: false, ..*old(self) }),
    {
        let was = self.user_stop_requested;
        self.user_stop_requested = false;
        was
    }

    /// Records that a `PLAYING` state was seen.
    pub fn set_has_played_flag(&mut self)
        ensures
            *final(self) == (MusicRendererState { has_played_since_track_start: true, ..*old(self) }),
    {
        self.has_played_since_track_start = true;
    }

    /// Forgets that the track played.
    pub fn clear_has_played_flag(&mut self)
        ensures
            *final(self) == (MusicRendererState { has_played_since_track_start: false, ..*old(self) }),
    {
        self.has_played_since_track_start = false;
    }

    /// Whether the track played since it started; the flag is cleared.
    pub fn check_and_clear_has_played_flag(&mut self) -> (r: bool)
        ensures
            r == old(self).has_played_since_track_start,
            *final(self) == (MusicRendererState { has_played_since_track_start: false, ..*old(self) }),
    {
        let played = self.has_played_since_track_start;
        self.has_played_since_track_start = false;
        played
    }

    /// Updates the bookkeeping for a state change seen by the watcher and
    /// tells whether to move to the next queue item.
    pub fn handle_state_change(&mut self, state: &PlaybackState) -> (advance: bool)
        ensures
            (*final(self), advance) == spec_state_change(*old(self), *state),
    {
        match state {
            PlaybackState::Stopped => {
                if self.check_and_clear_user_stop_requested() {
                    self.set_playback_source(PlaybackSource::Idle);
                    self.clear_has_played_flag();
                    false
                } else if self.is_playing_from_queue() {
                    self.check_and_clear_has_played_flag()
                } else {
                    self.set_playback_source(PlaybackSource::Idle);
                    self.clear_has_played_flag();
                    false
                }
            },
            PlaybackState::Playing => {
                self.mark_external_if_idle();
                self.set_has_played_flag();
                false
            },
            _ => false,
        }
    }

    /// Starts the sleep timer and gives the seconds left.
    pub fn start_sleep_timer(&mut self, duration_seconds: u32) -> (r: Result<u32, ControlPointError>)
        ensures
            match duration_error(duration_seconds) {
                Some(m) => r matches Err(ControlPointError::ControlPoint(e)) && e@ == m,
                None => r is Ok && final(self).sleep_timer.active() && final(self).sleep_timer.configured()
                    == duration_seconds,
            },
    {
        match self.sleep_timer.start(duration_seconds) {
            Ok(()) => {},
            Err(e) => {
                return Err(ControlPointError::ControlPoint(e));
            },
        }
        match self.sleep_timer.remaining_seconds() {
            Some(s) => Ok(s),
            None => Ok(0),
        }
    }

    /// Resets the sleep timer to a new duration and gives the seconds left.
    pub fn update_sleep_timer(&mut self, duration_seconds: u32) -> (r: Result<u32, ControlPointError>)
        ensures
            match duration_error(duration_seconds) {
                Some(m) => r matches Err(ControlPointError::ControlPoint(e)) && e@ == m,
                None => r is Ok && final(self).sleep_timer.active() && final(self).sleep_timer.configured()
                    == duration_seconds,
            },
    {
        match self.sleep_timer.update(duration_seconds) {
            Ok(()) => {},
            Err(e) => {
                return Err(ControlPointError::ControlPoint(e));
            },
        }
        match self.sleep_timer.remaining_seconds() {
            Some(s) => Ok(s),
            None => Ok(0),
        }
    }

    /// The sleep timer as (active, configured duration, seconds left).
    pub fn sleep_timer_state(&self) -> (r: (bool, u32, Option<u32>))
        ensures
            r.0 == self.sleep_timer.active(),
            r.1 == self.sleep_timer.configured(),
            r.2 is Some <==> self.sleep_timer.active(),
    {
        proof {
            self.sleep_timer.lemma_active_has_deadline();
        }
        (self.sleep_timer.is_active(), self.sleep_timer.duration_seconds(), self.sleep_timer.remaining_seconds())
    }
}

/// A renderer's queue attached to a playlist container of a MediaServer:
/// the queue is refreshed when the container changes.
#[derive(Debug)]
pub struct PlaylistBinding {
    /// MediaServer that owns the container.
    pub server_id: DeviceId,
    /// DIDL-Lite id of the container.
    pub container_id: String,
    /// A change of the container has been seen.
    pub has_seen_update: bool,
    /// The queue is to be refreshed from the container.
    pub pending_refresh: bool,
    /// The next refresh starts playback when the renderer is idle.
    pub auto_play_on_refresh: bool,
}

impl Clone for PlaylistBinding {
    fn clone(&self) -> (r: Self)
        ensures
            r == *self,
    {
        PlaylistBinding {
            server_id: self.server_id.clone(),
            container_id: self.container_id.clone(),
            has_seen_update: self.has_seen_update,
            pending_refresh: self.pending_refresh,
            auto_play_on_refresh: self.auto_play_on_refresh,
        }
    }
}

/// Sets the binding; tells whether a change is to be announced (always,
/// except when there was none and there is still none).
pub fn set_playlist_binding(slot: &mut Option<PlaylistBinding>, binding: Option<PlaylistBinding>) -> (announce: bool)
    ensures
        *final(slot) == binding,
        announce == ((*old(slot)) is Some || binding is Some),
{
    let announce = slot.is_some() || binding.is_some();
    *slot = binding;
    announce
}

/// A copy of the binding.
pub fn get_playlist_binding(slot: &Option<PlaylistBinding>) -> (r: Option<PlaylistBinding>)
    ensures
        r == *slot,
{
    slot.clone()
}

/// Removes the binding; tells whether there was one to announce.
pub fn clear_playlist_binding(slot: &mut Option<PlaylistBinding>) -> (announce: bool)
    ensures
        *final(slot) is None,
        announce == (*old(slot)) is Some,
{
    let had = slot.is_some();
    *slot = None;
    had
}

/// The container ids hold the bound container.
pub open spec fn lists_container(ids: Seq<String>, c: Seq<char>) -> bool {
    exists|i: int| 0 <= i < ids.len() && (#[trigger] ids[i])@ == c
}

/// When the updated containers of a server hold the bound container, marks
/// the binding for refresh and as updated; tells whether it did.
pub fn mark_binding_for_refresh(slot: &mut Option<PlaylistBinding>, server_id: &DeviceId, container_ids: &[String]) -> (r: bool)
    ensures
        r == (*old(slot) matches Some(b) && b.server_id.0@ == server_id.0@ && lists_container(container_ids@, b.container_id@)),
        r ==> *final(slot) == Some(PlaylistBinding { pending_refresh: true, has_seen_update: true, ..(*old(slot))->0 }),
        !r ==> *final(slot) == *old(slot),
{
    let cur = slot.clone();
    let hit = match &cur {
        Some(b) => {
            if crate::text::string_eq(&b.server_id.0, &server_id.0) {
                let mut found = false;
                let mut i: usize = 0;
                while i < container_ids.len() && !found
                    invariant
                        i <= container_ids@.len(),
                        found ==> lists_container(container_ids@, b.container_id@),
                        !found ==> forall|k: int| 0 <= k < i ==> (#[trigger] container_ids@[k])@ != b.container_id@,
                    decreases container_ids@.len() - i, (if found { 0int } else { 1int }),
                {
                    if crate::text::string_eq(&container_ids[i], &b.container_id) {
                        found = true;
                    } else {
                        i = i + 1;
                    }
                }
                found
            } else {
                false
            }
        },
        None => false,
    };
    if hit {
        match cur {
            Some(b) => {
                *slot = Some(PlaylistBinding { pending_refresh: true, has_seen_update: true, ..b });
            },
            None => {},
        }
    }
    hit
}

/// Whether the binding waits for a refresh (never without a binding).
pub fn has_pending_refresh(slot: &Option<PlaylistBinding>) -> (r: bool)
    ensures
        r == (slot matches Some(b) && b.pending_refresh),
{
    match slot {
        Some(b) => b.pending_refresh,
        None => false,
    }
}

/// The binding no longer waits for a refresh.
pub fn reset_pending_refresh(slot: &mut Option<PlaylistBinding>)
    ensures
        *final(slot) == match *old(slot) {
            Some(b) => Some(PlaylistBinding { pending_refresh: false, ..b }),
            None => None,
        },
{
    let cur = slot.clone();
    match cur {
        Some(b) => {
            *slot = Some(PlaylistBinding { pending_refresh: false, ..b });
        },
        None => {},
    }
}

/// Marks the binding for refresh; tells whether there is a binding.
pub fn mark_pending_refresh(slot: &mut Option<PlaylistBinding>) -> (r: bool)
    ensures
        r == (*old(slot)) is Some,
        *final(slot) == match *old(slot) {
            Some(b) => Some(PlaylistBinding { pending_refresh: true, ..b }),
            None => None,
        },
{
    let cur = slot.clone();
    match cur {
        Some(b) => {
            *slot = Some(PlaylistBinding { pending_refresh: true, ..b });
            true
        },
        None => false,
    }
}

/// Takes the auto-play request of the binding (false without a binding).
pub fn consume_auto_play(slot: &mut Option<PlaylistBinding>) -> (r: bool)
    ensures
        r == (*old(slot) matches Some(b) && b.auto_play_on_refresh),
        *final(slot) == match *old(slot) {
            Some(b) => Some(PlaylistBinding { auto_play_on_refresh: false, ..b }),
            None => None,
        },
{
    let cur = slot.clone();
    match cur {
        Some(b) => {
            let auto = b.auto_play_on_refresh;
            *slot = Some(PlaylistBinding { auto_play_on_refresh: false, ..b });
            auto
        },
        None => false,
    }
}

/// An auto-play request is taken at most once.
pub proof fn law_auto_play_taken_once(b: PlaylistBinding)
    ensures
        !(PlaylistBinding { auto_play_on_refresh: false, ..b }).auto_play_on_refresh,
{
}

/// Auto-advance happens only when a stop follows queue playback that was
/// seen playing and the user did not ask for the stop; after any stop, the
/// next stop cannot advance until `PLAYING` is seen again.
pub proof fn law_auto_advance_only_after_played_queue_stop(s: MusicRendererState, state: PlaybackState)
    ensures
        spec_state_change(s, state).1 <==> (state is Stopped && !s.user_stop_requested
            && s.playback_source == PlaybackSource::FromQueue && s.has_played_since_track_start),
        state is Stopped ==> !spec_state_change(s, state).0.has_played_since_track_start,
        state is Stopped ==> !spec_state_change(s, state).0.user_stop_requested,
{
}

/// A user stop is never followed by auto-advance, whatever the source.
pub proof fn law_user_stop_never_advances(s: MusicRendererState)
    requires
        s.user_stop_requested,
    ensures
        !spec_state_change(s, PlaybackState::Stopped).1,
        spec_state_change(s, PlaybackState::Stopped).0.playback_source == PlaybackSource::Idle,
{
}

} // verus!
