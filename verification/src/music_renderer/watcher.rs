//! Change detection for the renderer watchers: how a renderer is watched,
//! the state cached between two polls, and the comparisons and corrections
//! applied to what a renderer reports.
use crate::model::{PlaybackState, TrackMetadata};
use crate::music_renderer::capabilities::PlaybackPositionInfo;
use crate::text::{
    chars_eq_str, opt_string_eq, opt_view, parse_uint, spec_parse_uint, split_chars, split_seq,
    str_chars, string_eq, trim_chars, trim_seq,
};
use vstd::prelude::*;

verus! {

/// Name for the span that `Duration::from_millis` makes of a number of
/// milliseconds: the same number gives the same span.
pub uninterp spec fn millis_span(ms: u64) -> core::time::Duration;

/// A span of milliseconds (`Duration::from_millis`, which never panics).
#[verifier::external_body]
fn duration_from_millis(ms: u64) -> (r: core::time::Duration)
    ensures
        r == millis_span(ms),
{
    core::time::Duration::from_millis(ms)
}

/// How the state of a renderer is monitored.
#[derive(Clone, Debug)]
pub enum WatchStrategy {
    /// Poll the backend at regular intervals.
    Polling { interval_ms: u64 },
    /// The backend pushes notifications.
    Push,
    /// Push when available, polling as a fallback.
    Hybrid { polling_interval_ms: u64 },
}

/// The polling interval of a strategy in milliseconds, if it polls.
pub open spec fn spec_polling_ms(s: WatchStrategy) -> Option<u64> {
    match s {
        WatchStrategy::Polling { interval_ms } => Some(interval_ms),
        WatchStrategy::Hybrid { polling_interval_ms } => Some(polling_interval_ms),
        WatchStrategy::Push => None,
    }
}

impl WatchStrategy {
    /// The polling interval in milliseconds if the strategy polls (`None`
    /// for pure push).
    pub fn polling_interval_ms(&self) -> (r: Option<u64>)
        ensures
            r == spec_polling_ms(*self),
    {
        match self {
            WatchStrategy::Polling { interval_ms } => Some(*interval_ms),
            WatchStrategy::Hybrid { polling_interval_ms } => Some(*polling_interval_ms),
            WatchStrategy::Push => None,
        }
    }

    /// The polling interval if the strategy polls (`None` for pure push): a
    /// span of [`Self::polling_interval_ms`] milliseconds.
    pub fn polling_interval(&self) -> (r: Option<core::time::Duration>)
        ensures
            r == match spec_polling_ms(*self) {
                Some(ms) => Some(millis_span(ms)),
                None => None,
            },
    {
        match self.polling_interval_ms() {
            Some(ms) => Some(duration_from_millis(ms)),
            None => None,
        }
    }
}

/// State cached from the last poll, used to detect changes.
#[derive(Clone, Default, Debug)]
pub struct WatchedState {
    /// Last known transport state.
    pub state: Option<PlaybackState>,
    /// Last known position.
    pub position: Option<PlaybackPositionInfo>,
    /// Last known volume.
    pub volume: Option<u16>,
    /// Last known mute state.
    pub mute: Option<bool>,
    /// Last known track metadata.
    pub metadata: Option<TrackMetadata>,
}

/// Two transport states are the same state (an unknown state by its text).
pub open spec fn spec_state_equal(a: PlaybackState, b: PlaybackState) -> bool {
    match (a, b) {
        (PlaybackState::Unknown(l), PlaybackState::Unknown(r)) => l@ == r@,
        (PlaybackState::Playing, PlaybackState::Playing) => true,
        (PlaybackState::Paused, PlaybackState::Paused) => true,
        (PlaybackState::Stopped, PlaybackState::Stopped) => true,
        (PlaybackState::Transitioning, PlaybackState::Transitioning) => true,
        (PlaybackState::NoMedia, PlaybackState::NoMedia) => true,
        _ => false,
    }
}

/// Whether two transport states are the same state; unknown states are
/// compared by their text.
pub fn playback_state_equal(a: &PlaybackState, b: &PlaybackState) -> (r: bool)
    ensures
        r == spec_state_equal(*a, *b),
{
    match (a, b) {
        (PlaybackState::Unknown(lhs), PlaybackState::Unknown(rhs)) => string_eq(lhs, rhs),
        (PlaybackState::Playing, PlaybackState::Playing) => true,
        (PlaybackState::Paused, PlaybackState::Paused) => true,
        (PlaybackState::Stopped, PlaybackState::Stopped) => true,
        (PlaybackState::Transitioning, PlaybackState::Transitioning) => true,
        (PlaybackState::NoMedia, PlaybackState::NoMedia) => true,
        _ => false,
    }
}

/// Two positions report the same thing.
pub open spec fn spec_position_equal(a: PlaybackPositionInfo, b: PlaybackPositionInfo) -> bool {
    &&& a.track == b.track
    &&& opt_view(&a.rel_time) == opt_view(&b.rel_time)
    &&& opt_view(&a.abs_time) == opt_view(&b.abs_time)
    &&& opt_view(&a.track_duration) == opt_view(&b.track_duration)
    &&& opt_view(&a.track_metadata) == opt_view(&b.track_metadata)
    &&& opt_view(&a.track_uri) == opt_view(&b.track_uri)
}

/// Whether two positions report the same thing, field by field.
pub fn playback_position_equal(a: &PlaybackPositionInfo, b: &PlaybackPositionInfo) -> (r: bool)
    ensures
        r == spec_position_equal(*a, *b),
{
    a.track == b.track && opt_string_eq(&a.rel_time, &b.rel_time) && opt_string_eq(&a.abs_time, &b.abs_time)
        && opt_string_eq(&a.track_duration, &b.track_duration) && opt_string_eq(&a.track_metadata, &b.track_metadata)
        && opt_string_eq(&a.track_uri, &b.track_uri)
}

/// The three numbers of an `H:M:S` text (after trimming), each a `u64`; no
/// result for an empty text and for the sentinels `NOT_IMPLEMENTED` and
/// `-:--:--`.
pub open spec fn hms_fields(s: Seq<char>) -> Option<(nat, nat, nat)> {
    let t = trim_seq(s);
    if t.len() == 0 || t == "NOT_IMPLEMENTED"@ || t == "-:--:--"@ {
        None
    } else {
        let parts = split_seq(t, ':');
        if parts.len() != 3 {
            None
        } else {
            match (
                spec_parse_uint(parts[0], u64::MAX as nat),
                spec_parse_uint(parts[1], u64::MAX as nat),
                spec_parse_uint(parts[2], u64::MAX as nat),
            ) {
                (Some(h), Some(m), Some(x)) => Some((h, m, x)),
                _ => None,
            }
        }
    }
}

/// Seconds of an `H:M:S` text, if it reads as one.
pub open spec fn spec_hms_to_secs(s: Seq<char>) -> Option<nat> {
    match hms_fields(s) {
        Some((h, m, x)) => Some(h * 3600 + m * 60 + x),
        None => None,
    }
}

/// The seconds of an `H:M:S` text fit in a `u64`.
pub open spec fn hms_fits(s: Seq<char>) -> bool {
    match spec_hms_to_secs(s) {
        Some(v) => v <= u64::MAX,
        None => true,
    }
}

/// Seconds of an optional `H:M:S` text.
pub open spec fn opt_hms_to_secs(v: Option<String>) -> Option<nat> {
    match v {
        Some(s) => spec_hms_to_secs(s@),
        None => None,
    }
}

/// An optional `H:M:S` text fits in a `u64`.
pub open spec fn opt_hms_fits(v: Option<String>) -> bool {
    match v {
        Some(s) => hms_fits(s@),
        None => true,
    }
}

/// Parses an `HH:MM:SS` text to seconds; `None` for empty or sentinel values
/// (`NOT_IMPLEMENTED`, `-:--:--`) and for anything that is not three numbers.
pub fn parse_hms_to_secs(s: &str) -> (r: Option<u64>)
    requires
        hms_fits(s@),
    ensures
        match r {
            Some(v) => spec_hms_to_secs(s@) == Some(v as nat),
            None => spec_hms_to_secs(s@) is None,
        },
{
    let cs = str_chars(s);
    let t = trim_chars(cs.as_slice());
    if t.len() == 0 || chars_eq_str(t.as_slice(), "NOT_IMPLEMENTED") || chars_eq_str(t.as_slice(), "-:--:--") {
        return None;
    }
    let parts = split_chars(t.as_slice(), ':');
    if parts.len() != 3 {
        return None;
    }
    let hours = match parse_uint(parts[0].as_slice(), u64::MAX) {
        Some(v) => v,
        None => {
            return None;
        },
    };
    let minutes = match parse_uint(parts[1].as_slice(), u64::MAX) {
        Some(v) => v,
        None => {
            return None;
        },
    };
    let seconds = match parse_uint(parts[2].as_slice(), u64::MAX) {
        Some(v) => v,
        None => {
            return None;
        },
    };
    Some(hours * 3600 + minutes * 60 + seconds)
}

/// Parses an optional `HH:MM:SS` text to seconds.
pub fn parse_optional_hms_to_secs(value: &Option<String>) -> (r: Option<u64>)
    requires
        opt_hms_fits(*value),
    ensures
        match r {
            Some(v) => opt_hms_to_secs(*value) == Some(v as nat),
            None => opt_hms_to_secs(*value) is None,
        },
{
    match value {
        Some(s) => parse_hms_to_secs(s.as_str()),
        None => None,
    }
}

/// The times of a position that the state correction reads fit in a `u64`.
pub open spec fn position_fits(p: Option<&PlaybackPositionInfo>) -> bool {
    match p {
        Some(q) => opt_hms_fits(q.rel_time) && opt_hms_fits(q.track_duration),
        None => true,
    }
}

/// Seconds of the track duration of an optional position.
pub open spec fn duration_of(p: Option<&PlaybackPositionInfo>) -> Option<nat> {
    match p {
        Some(q) => opt_hms_to_secs(q.track_duration),
        None => None,
    }
}

/// The logical transport state: a `STOPPED` report while the position
/// advanced by one to five seconds between two polls is `Playing`; a
/// `NO_MEDIA_PRESENT` report with a known non-zero duration is `Stopped`;
/// anything else is the report itself.
pub open spec fn spec_logical_state(
    raw: PlaybackState,
    prev: Option<&PlaybackPositionInfo>,
    cur: Option<&PlaybackPositionInfo>,
) -> PlaybackState {
    let advanced = match (prev, cur) {
        (Some(p), Some(c)) => match (opt_hms_to_secs(p.rel_time), opt_hms_to_secs(c.rel_time)) {
            (Some(a), Some(b)) => b > a && b - a <= 5,
            _ => false,
        },
        _ => false,
    };
    let duration = match duration_of(cur) {
        Some(d) => Some(d),
        None => duration_of(prev),
    };
    if raw is Stopped && advanced {
        PlaybackState::Playing
    } else if raw is NoMedia && (duration matches Some(d) && d > 0) {
        PlaybackState::Stopped
    } else {
        raw
    }
}

/// Combines the raw transport state with the previous and current
/// positions, to compensate for devices that report `STOPPED` while the time
/// advances, or `NO_MEDIA_PRESENT` while a duration is known.
pub fn compute_logical_playback_state(
    raw: &PlaybackState,
    prev_position: Option<&PlaybackPositionInfo>,
    current_position: Option<&PlaybackPositionInfo>,
) -> (r: PlaybackState)
    requires
        position_fits(prev_position),
        position_fits(current_position),
    ensures
        r == spec_logical_state(*raw, prev_position, current_position),
{
    if let PlaybackState::Stopped = raw {
        if let (Some(prev), Some(curr)) = (prev_position, current_position) {
            if let (Some(prev_rel), Some(curr_rel)) = (
                parse_optional_hms_to_secs(&prev.rel_time),
                parse_optional_hms_to_secs(&curr.rel_time),
            ) {
                if curr_rel > prev_rel {
                    let delta = curr_rel - prev_rel;
                    if delta <= 5 {
                        return PlaybackState::Playing;
                    }
                }
            }
        }
    }
    if let PlaybackState::NoMedia = raw {
        let from_current = match current_position {
            Some(p) => parse_optional_hms_to_secs(&p.track_duration),
            None => None,
        };
        let duration_secs = match from_current {
            Some(d) => Some(d),
            None => match prev_position {
                Some(p) => parse_optional_hms_to_secs(&p.track_duration),
                None => None,
            },
        };
        if let Some(d) = duration_secs {
            if d > 0 {
                return PlaybackState::Stopped;
            }
        }
    }
    raw.clone()
}

/// A change noticed between two polls of a renderer.
#[derive(Debug)]
pub enum WatchChange {
    PositionChanged(PlaybackPositionInfo),
    MetadataChanged(TrackMetadata),
    StateChanged(PlaybackState),
    VolumeChanged(u16),
    MuteChanged(bool),
}

/// Two metadata records describe the same track, field by field.
pub open spec fn spec_metadata_equal(a: TrackMetadata, b: TrackMetadata) -> bool {
    &&& opt_view(&a.title) == opt_view(&b.title)
    &&& opt_view(&a.artist) == opt_view(&b.artist)
    &&& opt_view(&a.album) == opt_view(&b.album)
    &&& opt_view(&a.genre) == opt_view(&b.genre)
    &&& opt_view(&a.album_art_uri) == opt_view(&b.album_art_uri)
    &&& opt_view(&a.date) == opt_view(&b.date)
    &&& opt_view(&a.track_number) == opt_view(&b.track_number)
    &&& opt_view(&a.creator) == opt_view(&b.creator)
    &&& opt_view(&a.duration) == opt_view(&b.duration)
    &&& a.is_continuous_stream == b.is_continuous_stream
}

/// Whether two metadata records describe the same track, field by field.
pub fn metadata_equal(a: &TrackMetadata, b: &TrackMetadata) -> (r: bool)
    ensures
        r == spec_metadata_equal(*a, *b),
{
    opt_string_eq(&a.title, &b.title) && opt_string_eq(&a.artist, &b.artist) && opt_string_eq(&a.album, &b.album)
        && opt_string_eq(&a.genre, &b.genre) && opt_string_eq(&a.album_art_uri, &b.album_art_uri)
        && opt_string_eq(&a.date, &b.date) && opt_string_eq(&a.track_number, &b.track_number)
        && opt_string_eq(&a.creator, &b.creator) && opt_string_eq(&a.duration, &b.duration)
        && a.is_continuous_stream == b.is_continuous_stream
}

/// What a poll brought back: the position (with the metadata read from it),
/// the transport state, and, on even ticks, the volume and mute state; each
/// is absent when its query failed or was not made.
pub struct PollResult {
    pub position: Option<PlaybackPositionInfo>,
    pub metadata: Option<TrackMetadata>,
    pub raw_state: Option<PlaybackState>,
    pub volume: Option<u16>,
    pub mute: Option<bool>,
}

/// The position changes unless it equals the cached one.
pub open spec fn position_changed(prev: Option<PlaybackPositionInfo>, p: PlaybackPositionInfo) -> bool {
    match prev {
        Some(q) => !spec_position_equal(q, p),
        None => true,
    }
}

/// The metadata changes unless it equals the cached one.
pub open spec fn metadata_changed(prev: Option<TrackMetadata>, m: TrackMetadata) -> bool {
    match prev {
        Some(q) => !spec_metadata_equal(q, m),
        None => true,
    }
}

/// The state changes unless it equals the cached one.
pub open spec fn state_changed(prev: Option<PlaybackState>, s: PlaybackState) -> bool {
    match prev {
        Some(q) => !spec_state_equal(q, s),
        None => true,
    }
}

/// Cached state after the position part of a poll.
pub open spec fn after_position(prev: WatchedState, poll: PollResult) -> WatchedState {
    match poll.position {
        Some(p) => WatchedState {
            position: Some(p),
            metadata: match poll.metadata {
                Some(m) => if metadata_changed(prev.metadata, m) {
                    Some(m)
                } else {
                    prev.metadata
                },
                None => prev.metadata,
            },
            ..prev
        },
        None => prev,
    }
}

/// The logical state derived from the raw state of the poll.
pub open spec fn polled_state(prev: WatchedState, poll: PollResult) -> Option<PlaybackState> {
    match poll.raw_state {
        Some(r) => Some(spec_logical_state(
            r,
            match prev.position {
                Some(p) => Some(&p),
                None => None,
            },
            match after_position(prev, poll).position {
                Some(p) => Some(&p),
                None => None,
            },
        )),
        None => None,
    }
}

/// The cached state after a whole poll.
pub open spec fn spec_watch_state(prev: WatchedState, tick: u32, poll: PollResult) -> WatchedState {
    let a = after_position(prev, poll);
    let b = match polled_state(prev, poll) {
        Some(s) => WatchedState { state: Some(s), ..a },
        None => a,
    };
    if tick % 2 == 0 {
        WatchedState {
            volume: match poll.volume {
                Some(v) => Some(v),
                None => b.volume,
            },
            mute: match poll.mute {
                Some(m) => Some(m),
                None => b.mute,
            },
            ..b
        }
    } else {
        b
    }
}

/// The changes a poll reports, in order: position, metadata, state (never
/// a transitioning one), volume and mute (on even ticks only).
pub open spec fn spec_watch_changes(prev: WatchedState, tick: u32, poll: PollResult) -> Seq<WatchChange> {
    let pos = match poll.position {
        Some(p) => if position_changed(prev.position, p) {
            seq![WatchChange::PositionChanged(p)]
        } else {
            Seq::empty()
        },
        None => Seq::empty(),
    };
    let meta = match (poll.position, poll.metadata) {
        (Some(_), Some(m)) => if metadata_changed(prev.metadata, m) {
            seq![WatchChange::MetadataChanged(m)]
        } else {
            Seq::empty()
        },
        _ => Seq::empty(),
    };
    let st = match polled_state(prev, poll) {
        Some(s) => if state_changed(prev.state, s) && !(s is Transitioning) {
            seq![WatchChange::StateChanged(s)]
        } else {
            Seq::empty()
        },
        None => Seq::empty(),
    };
    let vol = match poll.volume {
        Some(v) => if tick % 2 == 0 && prev.volume != Some(v) {
            seq![WatchChange::VolumeChanged(v)]
        } else {
            Seq::empty()
        },
        None => Seq::empty(),
    };
    let mute = match poll.mute {
        Some(m) => if tick % 2 == 0 && prev.mute != Some(m) {
            seq![WatchChange::MuteChanged(m)]
        } else {
            Seq::empty()
        },
        None => Seq::empty(),
    };
    pos + meta + st + vol + mute
}

/// The times read by the state correction fit in a `u64`.
pub open spec fn watch_fits(prev: WatchedState, poll: PollResult) -> bool {
    &&& match prev.position {
        Some(p) => position_fits(Some(&p)),
        None => true,
    }
    &&& match poll.position {
        Some(p) => position_fits(Some(&p)),
        None => true,
    }
}

/// One step of a renderer watcher: compares what a poll brought back with
/// the cached state, updates the cache and lists the changes to report.
pub fn watch_changes(watched: &mut WatchedState, tick: u32, poll: PollResult) -> (r: Vec<WatchChange>)
    requires
        watch_fits(*old(watched), poll),
    ensures
        *final(watched) == spec_watch_state(*old(watched), tick, poll),
        r@ == spec_watch_changes(*old(watched), tick, poll),
{
    let ghost prev = *watched;
    let ghost g_poll = poll;
    let PollResult { position, metadata, raw_state, volume, mute } = poll;
    let mut changes: Vec<WatchChange> = Vec::new();
    let prev_position = watched.position.clone();
    match position {
        Some(p) => {
            let changed = match &watched.position {
                Some(q) => !playback_position_equal(q, &p),
                None => true,
            };
            if changed {
                changes.push(WatchChange::PositionChanged(p.clone()));
            }
            match metadata {
                Some(m) => {
                    let mchanged = match &watched.metadata {
                        Some(q) => !metadata_equal(q, &m),
                        None => true,
                    };
                    if mchanged {
                        changes.push(WatchChange::MetadataChanged(m.clone()));
                        watched.metadata = Some(m);
                    }
                },
                None => {},
            }
            watched.position = Some(p);
        },
        None => {},
    }
    assert(*watched == after_position(prev, g_poll));
    match raw_state {
        Some(raw) => {
            let logical = compute_logical_playback_state(&raw, prev_position.as_ref(), watched.position.as_ref());
            let changed = match &watched.state {
                Some(q) => !playback_state_equal(q, &logical),
                None => true,
            };
            let transitioning = match &logical {
                PlaybackState::Transitioning => true,
                _ => false,
            };
            if changed && !transitioning {
                changes.push(WatchChange::StateChanged(logical.clone()));
            }
            watched.state = Some(logical);
        },
        None => {},
    }
    if tick % 2 == 0 {
        match volume {
            Some(v) => {
                if watched.volume != Some(v) {
                    changes.push(WatchChange::VolumeChanged(v));
                    watched.volume = Some(v);
                }
            },
            None => {},
        }
        match mute {
            Some(m) => {
                if watched.mute != Some(m) {
                    changes.push(WatchChange::MuteChanged(m));
                    watched.mute = Some(m);
                }
            },
            None => {},
        }
    }
    assert(changes@ =~= spec_watch_changes(prev, tick, g_poll));
    changes
}

/// The correction only ever turns `STOPPED` into `Playing` and
/// `NO_MEDIA_PRESENT` into `Stopped`; every other report is kept.
pub proof fn law_logical_state_only_corrects_two_reports(
    raw: PlaybackState,
    prev: Option<&PlaybackPositionInfo>,
    cur: Option<&PlaybackPositionInfo>,
)
    ensures
        spec_logical_state(raw, prev, cur) != raw ==> (raw is Stopped && spec_logical_state(raw, prev, cur) is Playing)
            || (raw is NoMedia && spec_logical_state(raw, prev, cur) is Stopped),
        !(raw is Stopped) && !(raw is NoMedia) ==> spec_logical_state(raw, prev, cur) == raw,
{
}

/// State equality is an equivalence.
pub proof fn law_state_equal_is_equivalence(a: PlaybackState, b: PlaybackState, c: PlaybackState)
    ensures
        spec_state_equal(a, a),
        spec_state_equal(a, b) ==> spec_state_equal(b, a),
        spec_state_equal(a, b) && spec_state_equal(b, c) ==> spec_state_equal(a, c),
{
}

/// What a poll caches and what it reports agree: when the cached metadata
/// changes, the new metadata is reported; metadata reported is the one now
/// cached; metadata polled with a position that differs from the cached one
/// (or with none cached) is both cached and reported. The same holds of
/// the volume and the mute state.
pub proof fn law_reported_changes_match_cache(prev: WatchedState, tick: u32, poll: PollResult)
    ensures
        ({
            let next = spec_watch_state(prev, tick, poll);
            let changes = spec_watch_changes(prev, tick, poll);
            &&& next.metadata != prev.metadata ==> (next.metadata matches Some(m) && changes.contains(
                WatchChange::MetadataChanged(m),
            ))
            &&& forall|m: TrackMetadata| #[trigger] changes.contains(WatchChange::MetadataChanged(m)) ==> next.metadata
                == Some(m)
            &&& forall|m: TrackMetadata|
                poll.position is Some && poll.metadata == Some(m) && match prev.metadata {
                    Some(q) => !spec_metadata_equal(q, m),
                    None => true,
                } ==> next.metadata == Some(m) && #[trigger] changes.contains(WatchChange::MetadataChanged(m))
            &&& next.volume != prev.volume ==> (next.volume matches Some(v) && changes.contains(WatchChange::VolumeChanged(v)))
            &&& forall|v: u16| #[trigger] changes.contains(WatchChange::VolumeChanged(v)) ==> next.volume == Some(v)
            &&& next.mute != prev.mute ==> (next.mute matches Some(b) && changes.contains(WatchChange::MuteChanged(b)))
            &&& forall|b: bool| #[trigger] changes.contains(WatchChange::MuteChanged(b)) ==> next.mute == Some(b)
        }),
{
    let changes = spec_watch_changes(prev, tick, poll);
    let pos = match poll.position {
        Some(p) => if position_changed(prev.position, p) {
            seq![WatchChange::PositionChanged(p)]
        } else {
            Seq::empty()
        },
        None => Seq::empty(),
    };
    let meta = match (poll.position, poll.metadata) {
        (Some(_), Some(m)) => if metadata_changed(prev.metadata, m) {
            seq![WatchChange::MetadataChanged(m)]
        } else {
            Seq::empty()
        },
        _ => Seq::empty(),
    };
    let st = match polled_state(prev, poll) {
        Some(s) => if state_changed(prev.state, s) && !(s is Transitioning) {
            seq![WatchChange::StateChanged(s)]
        } else {
            Seq::empty()
        },
        None => Seq::empty(),
    };
    let vol = match poll.volume {
        Some(v) => if tick % 2 == 0 && prev.volume != Some(v) {
            seq![WatchChange::VolumeChanged(v)]
        } else {
            Seq::empty()
        },
        None => Seq::empty(),
    };
    let mute = match poll.mute {
        Some(m) => if tick % 2 == 0 && prev.mute != Some(m) {
            seq![WatchChange::MuteChanged(m)]
        } else {
            Seq::empty()
        },
        None => Seq::empty(),
    };
    assert(changes =~= pos + meta + st + vol + mute);
    assert forall|w: WatchChange| #[trigger] changes.contains(w) implies (pos.contains(w) || meta.contains(w) || st.contains(w)
        || vol.contains(w) || mute.contains(w)) by {
        let k = choose|k: int| 0 <= k < changes.len() && changes[k] == w;
        if k < pos.len() {
            assert(pos[k] == w);
        } else if k < pos.len() + meta.len() {
            assert(meta[k - pos.len()] == w);
        } else if k < pos.len() + meta.len() + st.len() {
            assert(st[k - pos.len() - meta.len()] == w);
        } else if k < pos.len() + meta.len() + st.len() + vol.len() {
            assert(vol[k - pos.len() - meta.len() - st.len()] == w);
        } else {
            assert(mute[k - pos.len() - meta.len() - st.len() - vol.len()] == w);
        }
    }
    if meta.len() > 0 {
        assert(changes[pos.len() as int] == meta[0]);
    }
    if vol.len() > 0 {
        assert(changes[(pos.len() + meta.len() + st.len()) as int] == vol[0]);
    }
    if mute.len() > 0 {
        assert(changes[(pos.len() + meta.len() + st.len() + vol.len()) as int] == mute[0]);
    }
}

} // verus!
