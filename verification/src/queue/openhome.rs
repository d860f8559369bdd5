//! The decisions of the local mirror of an OpenHome playlist: the DIDL-Lite
//! sent with each inserted track, the metadata kept per playlist id (a
//! stream track's duration never shrinks), and the shortcuts that avoid a
//! full diff when the playlist only grows or shrinks at its end.
use crate::didl::{element, opt_element, push_element, push_opt_element, push_text};
use crate::model::TrackMetadata;
use crate::music_renderer::time_utils::flexible_fits;
use crate::queue::durations::{spec_stream_duration_decreased, stream_duration_decreased};
use crate::queue::snapshot::PlaybackItem;
use crate::text::{opt_string_eq, opt_view, str_to_string, string_eq};
use crate::xml::{push_escaped, xml_escape};
use std::collections::HashMap;
use vstd::prelude::*;

verus! {

broadcast use vstd::std_specs::hash::group_hash_axioms;

/// The artist of a track as `upnp:artist` and `dc:creator`, and its other
/// known tags.
pub open spec fn metadata_elements(m: TrackMetadata) -> Seq<char> {
    (match m.artist {
        Some(a) => element("<upnp:artist>"@, a@, "</upnp:artist>"@) + element("<dc:creator>"@, a@, "</dc:creator>"@),
        None => Seq::empty(),
    }) + opt_element("<upnp:album>"@, m.album, "</upnp:album>"@) + opt_element("<upnp:genre>"@, m.genre, "</upnp:genre>"@)
        + opt_element("<upnp:albumArtURI>"@, m.album_art_uri, "</upnp:albumArtURI>"@)
        + opt_element("<dc:date>"@, m.date, "</dc:date>"@)
        + opt_element("<upnp:originalTrackNumber>"@, m.track_number, "</upnp:originalTrackNumber>"@)
}

/// The DIDL-Lite sent with a track inserted in an OpenHome playlist.
pub open spec fn spec_metadata_xml(item: PlaybackItem) -> Seq<char> {
    let title = match item.metadata {
        Some(m) => match m.title {
            Some(t) => t@,
            None => "Unknown"@,
        },
        None => "Unknown"@,
    };
    "<DIDL-Lite xmlns=\"urn:schemas-upnp-org:metadata-1-0/DIDL-Lite/\" xmlns:dc=\"http://purl.org/dc/elements/1.1/\" xmlns:upnp=\"urn:schemas-upnp-org:metadata-1-0/upnp/\">"@
        + "<item id=\""@ + xml_escape(item.didl_id@) + "\" parentID=\"-1\" restricted=\"1\">"@
        + element("<dc:title>"@, title, "</dc:title>"@) + (match item.metadata {
        Some(m) => metadata_elements(m),
        None => Seq::empty(),
    }) + "<res protocolInfo=\""@ + xml_escape(item.protocol_info@) + "\""@ + (match item.metadata {
        Some(m) => match m.duration {
            Some(d) => " duration=\""@ + xml_escape(d@) + "\""@,
            None => Seq::empty(),
        },
        None => Seq::empty(),
    }) + ">"@ + xml_escape(item.uri@) + "</res>"@
        + "<upnp:class>object.item.audioItem.musicTrack</upnp:class></item></DIDL-Lite>"@
}

/// Appends the tags of a track's metadata.
fn push_metadata_elements(out: &mut Vec<char>, m: &TrackMetadata)
    ensures
        final(out)@ == old(out)@ + metadata_elements(*m),
{
    let ghost start = out@;
    match &m.artist {
        Some(a) => {
            push_element(out, "<upnp:artist>", a.as_str(), "</upnp:artist>");
            push_element(out, "<dc:creator>", a.as_str(), "</dc:creator>");
        },
        None => {},
    }
    push_opt_element(out, "<upnp:album>", &m.album, "</upnp:album>");
    push_opt_element(out, "<upnp:genre>", &m.genre, "</upnp:genre>");
    push_opt_element(out, "<upnp:albumArtURI>", &m.album_art_uri, "</upnp:albumArtURI>");
    push_opt_element(out, "<dc:date>", &m.date, "</dc:date>");
    push_opt_element(out, "<upnp:originalTrackNumber>", &m.track_number, "</upnp:originalTrackNumber>");
    assert(out@ =~= start + metadata_elements(*m));
}

/// The DIDL-Lite sent with a track inserted in an OpenHome playlist: its
/// DIDL id, title (`Unknown` when unknown), known tags, and a resource with
/// its protocolInfo and, when known, its duration.
pub fn build_metadata_xml(item: &PlaybackItem) -> (r: String)
    ensures
        r@ == spec_metadata_xml(*item),
{
    let mut out: Vec<char> = Vec::new();
    push_text(&mut out, "<DIDL-Lite xmlns=\"urn:schemas-upnp-org:metadata-1-0/DIDL-Lite/\" xmlns:dc=\"http://purl.org/dc/elements/1.1/\" xmlns:upnp=\"urn:schemas-upnp-org:metadata-1-0/upnp/\">");
    push_text(&mut out, "<item id=\"");
    push_escaped(&mut out, item.didl_id.as_str());
    push_text(&mut out, "\" parentID=\"-1\" restricted=\"1\">");
    let title: &str = match &item.metadata {
        Some(m) => match &m.title {
            Some(t) => t.as_str(),
            None => "Unknown",
        },
        None => "Unknown",
    };
    push_element(&mut out, "<dc:title>", title, "</dc:title>");
    match &item.metadata {
        Some(m) => push_metadata_elements(&mut out, m),
        None => {},
    }
    push_text(&mut out, "<res protocolInfo=\"");
    push_escaped(&mut out, item.protocol_info.as_str());
    push_text(&mut out, "\"");
    match &item.metadata {
        Some(m) => match &m.duration {
            Some(d) => {
                push_text(&mut out, " duration=\"");
                push_escaped(&mut out, d.as_str());
                push_text(&mut out, "\"");
            },
            None => {},
        },
        None => {},
    }
    push_text(&mut out, ">");
    push_escaped(&mut out, item.uri.as_str());
    push_text(&mut out, "</res>");
    push_text(&mut out, "<upnp:class>object.item.audioItem.musicTrack</upnp:class></item></DIDL-Lite>");
    assert(out@ =~= spec_metadata_xml(*item));
    crate::text::string_from_chars(out.as_slice())
}

/// The duration of optional metadata reads with the flexible parser
/// without overflow.
pub open spec fn meta_fits(m: Option<TrackMetadata>) -> bool {
    match m {
        Some(t) => match t.duration {
            Some(d) => flexible_fits(d@),
            None => true,
        },
        None => true,
    }
}

/// Title of optional metadata.
pub open spec fn title_of(m: Option<TrackMetadata>) -> Option<Seq<char>> {
    match m {
        Some(t) => opt_view(&t.title),
        None => None,
    }
}

/// Artist of optional metadata.
pub open spec fn artist_of(m: Option<TrackMetadata>) -> Option<Seq<char>> {
    match m {
        Some(t) => opt_view(&t.artist),
        None => None,
    }
}

/// Duration of optional metadata.
pub open spec fn duration_of(m: Option<TrackMetadata>) -> Option<Seq<char>> {
    match m {
        Some(t) => opt_view(&t.duration),
        None => None,
    }
}

/// The metadata cache after new metadata arrives for a playlist id: a first
/// entry is taken; for a stream, the same track (same title and artist)
/// keeps its cached metadata when the new duration is shorter; any other
/// update is taken.
pub open spec fn spec_cache_update(
    cache: Map<u32, Option<TrackMetadata>>,
    id: u32,
    new: Option<TrackMetadata>,
) -> Map<u32, Option<TrackMetadata>> {
    if !cache.contains_key(id) {
        cache.insert(id, new)
    } else {
        let cached = cache[id];
        let is_stream = new matches Some(m) && m.is_continuous_stream;
        if is_stream && title_of(cached) == title_of(new) && artist_of(cached) == artist_of(new) && (match (
            duration_of(cached),
            duration_of(new),
        ) {
            (Some(c), Some(n)) => spec_stream_duration_decreased(c, n),
            _ => false,
        }) {
            cache
        } else {
            cache.insert(id, new)
        }
    }
}

/// The metadata of a playlist entry matches the cached one by title and
/// artist, or its URI is the cached one.
pub open spec fn entry_matches(
    meta: Map<u32, Option<TrackMetadata>>,
    uris: Map<u32, String>,
    id: u32,
    item: PlaybackItem,
) -> bool {
    ||| (meta.contains_key(id) && meta[id] is Some && item.metadata is Some && title_of(meta[id]) == title_of(
        item.metadata,
    ) && artist_of(meta[id]) == artist_of(item.metadata))
    ||| (item.uri@.len() > 0 && uris.contains_key(id) && uris[id]@ == item.uri@)
}

/// Every current id matches the item at the same position.
pub open spec fn spec_prefix_matches(
    meta: Map<u32, Option<TrackMetadata>>,
    uris: Map<u32, String>,
    ids: Seq<u32>,
    items: Seq<PlaybackItem>,
) -> bool {
    ids.len() == items.len() && forall|i: int| 0 <= i < ids.len() ==> #[trigger] entry_matches(meta, uris, ids[i], items[i])
}

/// What a queue synchronisation can do without a full diff.
#[derive(Debug)]
pub enum FastPathResult {
    /// The new items extend the playlist: only these are to be inserted.
    AppendOnly { new_items: Vec<PlaybackItem> },
    /// The playlist lost its tail: only these ids are to be deleted.
    DeleteFromEnd { delete_ids: Vec<u32> },
    /// No shortcut applies.
    NeedFullSync,
}

/// Metadata and URI remembered per playlist id for an OpenHome renderer.
#[derive(Debug)]
pub struct PlaylistCaches {
    metadata_cache: HashMap<u32, Option<TrackMetadata>>,
    uri_by_id: HashMap<u32, String>,
}

/// Whether two optional metadata records have the same title and artist.
fn same_title_and_artist(a: &Option<TrackMetadata>, b: &Option<TrackMetadata>) -> (r: bool)
    ensures
        r == (title_of(*a) == title_of(*b) && artist_of(*a) == artist_of(*b)),
{
    match (a, b) {
        (Some(x), Some(y)) => opt_string_eq(&x.title, &y.title) && opt_string_eq(&x.artist, &y.artist),
        (Some(x), None) => x.title.is_none() && x.artist.is_none(),
        (None, Some(y)) => y.title.is_none() && y.artist.is_none(),
        (None, None) => true,
    }
}

/// Whether the stream duration of `new` is shorter than the cached one.
fn shorter_duration(cached: &Option<TrackMetadata>, new: &Option<TrackMetadata>) -> (r: bool)
    requires
        meta_fits(*cached),
        meta_fits(*new),
    ensures
        r == match (duration_of(*cached), duration_of(*new)) {
            (Some(c), Some(n)) => spec_stream_duration_decreased(c, n),
            _ => false,
        },
{
    match (cached, new) {
        (Some(x), Some(y)) => match (&x.duration, &y.duration) {
            (Some(c), Some(n)) => stream_duration_decreased(c.as_str(), n.as_str()),
            _ => false,
        },
        _ => false,
    }
}

impl PlaylistCaches {
    /// Every cached duration reads with the flexible parser.
    pub closed spec fn wf(&self) -> bool {
        forall|id: u32| #[trigger] self.metadata_cache@.contains_key(id) ==> meta_fits(self.metadata_cache@[id])
    }

    /// Cached metadata reads without overflow.
    pub proof fn lemma_wf_fits(&self, id: u32)
        requires
            self.wf(),
            self.metadata_view().contains_key(id),
        ensures
            meta_fits(self.metadata_view()[id]),
    {
    }

    /// Metadata per playlist id.
    pub closed spec fn metadata_view(&self) -> Map<u32, Option<TrackMetadata>> {
        self.metadata_cache@
    }

    /// URI per playlist id.
    pub closed spec fn uri_view(&self) -> Map<u32, String> {
        self.uri_by_id@
    }

    /// Empty caches.
    pub fn new() -> (r: Self)
        ensures
            r.wf(),
            r.metadata_view() == Map::<u32, Option<TrackMetadata>>::empty(),
            r.uri_view() == Map::<u32, String>::empty(),
    {
        PlaylistCaches { metadata_cache: HashMap::new(), uri_by_id: HashMap::new() }
    }

    /// The metadata cached for a playlist id.
    pub fn cached_metadata(&self, id: u32) -> (r: Option<Option<TrackMetadata>>)
        ensures
            match r {
                Some(m) => self.metadata_view().contains_key(id) && m == self.metadata_view()[id],
                None => !self.metadata_view().contains_key(id),
            },
    {
        match self.metadata_cache.get(&id) {
            Some(m) => Some(m.clone()),
            None => None,
        }
    }

    /// Records metadata (and, when not empty, the URI) for a playlist id; a
    /// stream track's duration never shrinks.
    pub fn cache_metadata(&mut self, track_id: u32, new_metadata: Option<TrackMetadata>, uri: &str)
        requires
            old(self).wf(),
            meta_fits(new_metadata),
        ensures
            final(self).wf(),
            final(self).metadata_view() == spec_cache_update(old(self).metadata_view(), track_id, new_metadata),
            uri@.len() == 0 ==> final(self).uri_view() == old(self).uri_view(),
            uri@.len() > 0 ==> final(self).uri_view().dom() == old(self).uri_view().dom().insert(track_id)
                && final(self).uri_view()[track_id]@ == uri@ && forall|k: u32|
                k != track_id && #[trigger] old(self).uri_view().contains_key(k) ==> final(self).uri_view()[k]
                    == old(self).uri_view()[k],
    {
        if uri.unicode_len() > 0 {
            self.uri_by_id.insert(track_id, str_to_string(uri));
        }
        let replace: bool = match self.metadata_cache.get(&track_id) {
            None => true,
            Some(cached) => {
                let is_stream = match &new_metadata {
                    Some(m) => m.is_continuous_stream,
                    None => false,
                };
                if is_stream && same_title_and_artist(cached, &new_metadata) {
                    !shorter_duration(cached, &new_metadata)
                } else {
                    true
                }
            },
        };
        if replace {
            self.metadata_cache.insert(track_id, new_metadata);
        }
        assert(self.metadata_cache@ =~= spec_cache_update(old(self).metadata_cache@, track_id, new_metadata));
    }

    /// Forgets the metadata of a playlist id.
    pub fn forget_metadata(&mut self, track_id: u32)
        requires
            old(self).wf(),
        ensures
            final(self).wf(),
            final(self).metadata_view() == old(self).metadata_view().remove(track_id),
            final(self).uri_view() == old(self).uri_view(),
    {
        self.metadata_cache.remove(&track_id);
    }

    /// Forgets the URI of a playlist id.
    pub fn forget_uri(&mut self, track_id: u32)
        requires
            old(self).wf(),
        ensures
            final(self).wf(),
            final(self).metadata_view() == old(self).metadata_view(),
            final(self).uri_view() == old(self).uri_view().remove(track_id),
    {
        self.uri_by_id.remove(&track_id);
    }

    /// Forgets all metadata.
    pub fn clear_metadata(&mut self)
        ensures
            final(self).wf(),
            final(self).metadata_view() == Map::<u32, Option<TrackMetadata>>::empty(),
            final(self).uri_view() == old(self).uri_view(),
    {
        self.metadata_cache.clear();
    }

    /// Remembers the URI of a playlist id (an empty URI is not remembered).
    pub fn remember_uri(&mut self, track_id: u32, uri: &str)
        requires
            old(self).wf(),
        ensures
            final(self).wf(),
            final(self).metadata_view() == old(self).metadata_view(),
            uri@.len() == 0 ==> final(self).uri_view() == old(self).uri_view(),
            uri@.len() > 0 ==> final(self).uri_view().dom() == old(self).uri_view().dom().insert(track_id)
                && final(self).uri_view()[track_id]@ == uri@ && forall|k: u32|
                k != track_id && #[trigger] old(self).uri_view().contains_key(k) ==> final(self).uri_view()[k]
                    == old(self).uri_view()[k],
    {
        if uri.unicode_len() > 0 {
            self.uri_by_id.insert(track_id, str_to_string(uri));
        }
    }

    /// Forgets all URIs.
    pub fn clear_uris(&mut self)
        requires
            old(self).wf(),
        ensures
            final(self).wf(),
            final(self).metadata_view() == old(self).metadata_view(),
            final(self).uri_view() == Map::<u32, String>::empty(),
    {
        self.uri_by_id.clear();
    }

    /// Whether the entry with playlist id `id` is the item: same title and
    /// artist as the cached metadata, or else the cached URI.
    fn entry_matches_item(&self, id: u32, item: &PlaybackItem) -> (r: bool)
        ensures
            r == entry_matches(self.metadata_view(), self.uri_view(), id, *item),
    {
        let by_metadata = match self.metadata_cache.get(&id) {
            Some(cached) => match (cached, &item.metadata) {
                (Some(_), Some(_)) => same_title_and_artist(cached, &item.metadata),
                _ => false,
            },
            None => false,
        };
        if by_metadata {
            return true;
        }
        if item.uri.as_str().unicode_len() == 0 {
            return false;
        }
        match self.uri_by_id.get(&id) {
            Some(u) => string_eq(u, &item.uri),
            None => false,
        }
    }

    /// Whether the current ids stand, position by position, for the items.
    pub fn check_prefix_matches(&self, current_ids: &[u32], new_items: &[PlaybackItem]) -> (r: bool)
        ensures
            r == spec_prefix_matches(self.metadata_view(), self.uri_view(), current_ids@, new_items@),
    {
        if current_ids.len() != new_items.len() {
            return false;
        }
        let mut i: usize = 0;
        while i < current_ids.len()
            invariant
                current_ids@.len() == new_items@.len(),
                i <= current_ids@.len(),
                forall|k: int| 0 <= k < i ==> #[trigger] entry_matches(self.metadata_view(), self.uri_view(), current_ids@[k], new_items@[k]),
            decreases current_ids@.len() - i,
        {
            if !self.entry_matches_item(current_ids[i], &new_items[i]) {
                return false;
            }
            i = i + 1;
        }
        true
    }

    /// Detects a playlist that only grows or only loses its tail, given the
    /// current playlist ids; anything else needs a full diff.
    pub fn try_fast_path(&self, current_ids: &[u32], new_items: &[PlaybackItem]) -> (r: FastPathResult)
        ensures
            ({
                let ids = current_ids@;
                let items = new_items@;
                let m = self.metadata_view();
                let u = self.uri_view();
                match r {
                    FastPathResult::AppendOnly { new_items: rest } => items.len() > ids.len()
                        && spec_prefix_matches(m, u, ids, items.take(ids.len() as int)) && rest@ == items.skip(ids.len() as int),
                    FastPathResult::DeleteFromEnd { delete_ids } => items.len() < ids.len()
                        && spec_prefix_matches(m, u, ids.take(items.len() as int), items) && delete_ids@ == ids.skip(items.len() as int),
                    FastPathResult::NeedFullSync => !(items.len() > ids.len() && spec_prefix_matches(m, u, ids, items.take(ids.len() as int)))
                        && !(items.len() < ids.len() && spec_prefix_matches(m, u, ids.take(items.len() as int), items)),
                }
            }),
    {
        let current_len = current_ids.len();
        let new_len = new_items.len();
        if new_len > current_len {
            let head = take_items(new_items, current_len);
            if self.check_prefix_matches(current_ids, head.as_slice()) {
                return FastPathResult::AppendOnly { new_items: skip_items(new_items, current_len) };
            }
        } else if new_len < current_len {
            let head = take_ids(current_ids, new_len);
            if self.check_prefix_matches(head.as_slice(), new_items) {
                return FastPathResult::DeleteFromEnd { delete_ids: skip_ids(current_ids, new_len) };
            }
        }
        FastPathResult::NeedFullSync
    }
}

/// The first `k` items.
fn take_items(items: &[PlaybackItem], k: usize) -> (r: Vec<PlaybackItem>)
    requires
        k <= items@.len(),
    ensures
        r@ == items@.take(k as int),
{
    let mut out: Vec<PlaybackItem> = Vec::new();
    let mut i: usize = 0;
    while i < k
        invariant
            i <= k <= items@.len(),
            out@ == items@.take(i as int),
        decreases k - i,
    {
        out.push(items[i].clone());
        i = i + 1;
        assert(out@ =~= items@.take(i as int));
    }
    out
}

/// The items from position `k` on.
fn skip_items(items: &[PlaybackItem], k: usize) -> (r: Vec<PlaybackItem>)
    requires
        k <= items@.len(),
    ensures
        r@ == items@.skip(k as int),
{
    let mut out: Vec<PlaybackItem> = Vec::new();
    let mut i: usize = k;
    while i < items.len()
        invariant
            k <= i <= items@.len(),
            out@ == items@.subrange(k as int, i as int),
        decreases items@.len() - i,
    {
        out.push(items[i].clone());
        i = i + 1;
        assert(out@ =~= items@.subrange(k as int, i as int));
    }
    assert(out@ =~= items@.skip(k as int));
    out
}

/// The first `k` ids.
fn take_ids(ids: &[u32], k: usize) -> (r: Vec<u32>)
    requires
        k <= ids@.len(),
    ensures
        r@ == ids@.take(k as int),
{
    let mut out: Vec<u32> = Vec::new();
    let mut i: usize = 0;
    while i < k
        invariant
            i <= k <= ids@.len(),
            out@ == ids@.take(i as int),
        decreases k - i,
    {
        out.push(ids[i]);
        i = i + 1;
        assert(out@ =~= ids@.take(i as int));
    }
    out
}

/// The ids from position `k` on.
fn skip_ids(ids: &[u32], k: usize) -> (r: Vec<u32>)
    requires
        k <= ids@.len(),
    ensures
        r@ == ids@.skip(k as int),
{
    let mut out: Vec<u32> = Vec::new();
    let mut i: usize = k;
    while i < ids.len()
        invariant
            k <= i <= ids@.len(),
            out@ == ids@.subrange(k as int, i as int),
        decreases ids@.len() - i,
    {
        out.push(ids[i]);
        i = i + 1;
        assert(out@ =~= ids@.subrange(k as int, i as int));
    }
    assert(out@ =~= ids@.skip(k as int));
    out
}

/// The cached duration of a stream track never shrinks while the track
/// stays the same (same title and artist).
pub proof fn law_cached_stream_duration_never_shrinks(
    cache: Map<u32, Option<TrackMetadata>>,
    id: u32,
    new: Option<TrackMetadata>,
)
    requires
        cache.contains_key(id),
        new matches Some(m) && m.is_continuous_stream,
        title_of(cache[id]) == title_of(new),
        artist_of(cache[id]) == artist_of(new),
        duration_of(cache[id]) is Some,
        duration_of(new) is Some,
    ensures
        !spec_stream_duration_decreased(
            duration_of(cache[id])->0,
            duration_of(spec_cache_update(cache, id, new)[id])->0,
        ),
{
}

} // verus!
