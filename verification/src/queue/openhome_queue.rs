//! The local mirror of a renderer's OpenHome playlist: a queue whose items
//! live on the renderer. Every operation goes through the SOAP transport the
//! caller hands in; short-lived caches spare repeated `IdArray`, `Id` and
//! `ReadList` requests.
use crate::error::{msg, msg2, ControlPointError};
use crate::model::{DeviceId, RendererInfo, TrackMetadata};
use crate::queue::backend::EnqueueMode;
use crate::queue::openhome::{build_metadata_xml, meta_fits, spec_cache_update, FastPathResult, PlaylistCaches};
use crate::queue::openhome_sync::{
    backend_ids, choose_full_sync, items_fit, pivot_plan_at, plan_for_pivot, plan_for_standard, plan_performed,
    plan_preserve, run_plan, spec_preserve_plan, standard_plan_for, Anchor, FullSync, PlaylistOp,
};
use crate::queue::snapshot::{PlaybackItem, QueueSnapshot};
use crate::upnp_clients::openhome_client::OPENHOME_PLAYLIST_HEAD_ID;
use crate::soap::{agrees, answered, spec_u32_field, transport_total, SoapCallResult, SoapRequest};
use crate::upnp_clients::openhome_client::{
    source_selection, spec_id_array, OhInfoClient, OhPlaylistClient, OhProductClient, OhTrackEntry,
};
use vstd::prelude::*;

verus! {

/// The span from `earlier` to `later` (`SystemTime::duration_since`);
/// `None` when `later` reads earlier. Nothing is promised of the span: it
/// depends on the clock readings.
#[verifier::external_body]
fn system_duration_since(later: &std::time::SystemTime, earlier: &std::time::SystemTime) -> Option<core::time::Duration> {
    later.duration_since(*earlier).ok()
}

/// Whole milliseconds of a span (`Duration::as_millis`).
#[verifier::external_body]
fn duration_as_millis(d: &core::time::Duration) -> u128 {
    d.as_millis()
}

/// The current system time (`SystemTime::now`); nothing is promised of it.
#[verifier::external_body]
fn now() -> std::time::SystemTime {
    std::time::SystemTime::now()
}

/// Whether a value stamped at `stamp` is younger than `ttl_ms`.
fn fresh_since(stamp: &Option<std::time::SystemTime>, ttl_ms: u128) -> (r: bool)
    ensures
        stamp is None ==> !r,
{
    match stamp {
        Some(t) => {
            let current = now();
            match system_duration_since(&current, t) {
                Some(elapsed) => duration_as_millis(&elapsed) < ttl_ms,
                None => false,
            }
        },
        None => false,
    }
}

/// The playlist ids, kept for a short time.
#[derive(Debug)]
pub struct TrackIdsCache {
    ids: Option<Vec<u32>>,
    last_update: Option<std::time::SystemTime>,
}

impl TrackIdsCache {
    /// The ids held, fresh or not.
    pub closed spec fn held(&self) -> Option<Seq<u32>> {
        match self.ids {
            Some(v) => Some(v@),
            None => None,
        }
    }

    /// Nothing held.
    pub fn new() -> (r: Self)
        ensures
            r.held() is None,
    {
        TrackIdsCache { ids: None, last_update: None }
    }

    /// The ids, when held and younger than `ttl_ms`.
    pub fn get(&self, ttl_ms: u128) -> (r: Option<Vec<u32>>)
        ensures
            r matches Some(v) ==> self.held() == Some(v@),
            self.held() is None ==> r is None,
    {
        match &self.ids {
            Some(v) => if fresh_since(&self.last_update, ttl_ms) {
                let c = v.clone();
                assert(c@ =~= v@);
                Some(c)
            } else {
                None
            },
            None => None,
        }
    }

    /// Holds ids from now on.
    pub fn set(&mut self, ids: Vec<u32>)
        ensures
            final(self).held() == Some(ids@),
    {
        self.ids = Some(ids);
        self.last_update = Some(now());
    }

    /// Drops what is held.
    pub fn invalidate(&mut self)
        ensures
            final(self).held() is None,
    {
        self.ids = None;
        self.last_update = None;
    }
}

/// The current track id, kept for a short time.
#[derive(Debug)]
pub struct CurrentTrackIdCache {
    current_id: Option<Option<u32>>,
    last_update: Option<std::time::SystemTime>,
}

impl CurrentTrackIdCache {
    /// The current track held, fresh or not.
    pub closed spec fn held(&self) -> Option<Option<u32>> {
        self.current_id
    }

    /// Nothing held.
    pub fn new() -> (r: Self)
        ensures
            r.held() is None,
    {
        CurrentTrackIdCache { current_id: None, last_update: None }
    }

    /// The current track, when held and younger than `ttl_ms`.
    pub fn get(&self, ttl_ms: u128) -> (r: Option<Option<u32>>)
        ensures
            r matches Some(v) ==> self.held() == Some(v),
            self.held() is None ==> r is None,
    {
        match self.current_id {
            Some(v) => if fresh_since(&self.last_update, ttl_ms) {
                Some(v)
            } else {
                None
            },
            None => None,
        }
    }

    /// Holds a current track from now on.
    pub fn set(&mut self, id: Option<u32>)
        ensures
            final(self).held() == Some(id),
    {
        self.current_id = Some(id);
        self.last_update = Some(now());
    }

    /// Drops what is held.
    pub fn invalidate(&mut self)
        ensures
            final(self).held() is None,
    {
        self.current_id = None;
        self.last_update = None;
    }
}

/// The entries `ReadList` gave for a list of ids, kept for a short time.
#[derive(Debug)]
pub struct ReadListCache {
    ids: Option<Vec<u32>>,
    entries: Option<Vec<OhTrackEntry>>,
    last_update: Option<std::time::SystemTime>,
}

impl ReadListCache {
    /// The ids whose entries are held, fresh or not.
    pub closed spec fn held_ids(&self) -> Option<Seq<u32>> {
        match (self.ids, self.entries) {
            (Some(v), Some(_)) => Some(v@),
            _ => None,
        }
    }

    /// Nothing held.
    pub fn new() -> (r: Self)
        ensures
            r.held_ids() is None,
    {
        ReadListCache { ids: None, entries: None, last_update: None }
    }

    /// The entries held for exactly these ids, when younger than `ttl_ms`.
    pub fn get(&self, id_list: &[u32], ttl_ms: u128) -> (r: Option<Vec<OhTrackEntry>>)
        ensures
            r is Some ==> self.held_ids() == Some(id_list@),
            self.held_ids() != Some(id_list@) ==> r is None,
    {
        match (&self.ids, &self.entries) {
            (Some(ids), Some(entries)) => if fresh_since(&self.last_update, ttl_ms) && same_ids(ids.as_slice(), id_list) {
                Some(entries.clone())
            } else {
                None
            },
            _ => None,
        }
    }

    /// Holds the entries of these ids from now on.
    pub fn set(&mut self, ids: Vec<u32>, entries: Vec<OhTrackEntry>)
        ensures
            final(self).held_ids() == Some(ids@),
    {
        self.ids = Some(ids);
        self.entries = Some(entries);
        self.last_update = Some(now());
    }

    /// Drops what is held.
    pub fn invalidate(&mut self)
        ensures
            final(self).held_ids() is None,
    {
        self.ids = None;
        self.entries = None;
        self.last_update = None;
    }
}

/// Whether two id lists are equal.
pub fn same_ids(a: &[u32], b: &[u32]) -> (r: bool)
    ensures
        r == (a@ == b@),
{
    if a.len() != b.len() {
        return false;
    }
    let mut i: usize = 0;
    while i < a.len()
        invariant
            a@.len() == b@.len(),
            i <= a@.len(),
            forall|k: int| 0 <= k < i ==> a@[k] == b@[k],
        decreases a@.len() - i,
    {
        if a[i] != b[i] {
            return false;
        }
        i = i + 1;
    }
    assert(a@ =~= b@);
    true
}

/// Position of the first `id` in `ids`.
pub fn position_of(ids: &[u32], id: u32) -> (r: Option<usize>)
    ensures
        match r {
            Some(p) => p < ids@.len() && ids@[p as int] == id && forall|k: int| 0 <= k < p ==> ids@[k] != id,
            None => forall|k: int| 0 <= k < ids@.len() ==> ids@[k] != id,
        },
{
    let mut i: usize = 0;
    while i < ids.len()
        invariant
            i <= ids@.len(),
            forall|k: int| 0 <= k < i ==> ids@[k] != id,
        decreases ids@.len() - i,
    {
        if ids[i] == id {
            return Some(i);
        }
        i = i + 1;
    }
    None
}

/// `ids` is what the renderer listed for `IdArray`.
pub open spec fn listed<F: Fn(SoapRequest) -> SoapCallResult>(t: F, pl: OhPlaylistClient, ids: Seq<u32>) -> bool {
    exists|reply: SoapCallResult| answered(t, pl.request("IdArray"@, seq![]), reply) && spec_id_array(reply) == Some(ids)
}

/// `id` is what the renderer answered to `Id`.
pub open spec fn current_id<F: Fn(SoapRequest) -> SoapCallResult>(t: F, pl: OhPlaylistClient, id: u32) -> bool {
    exists|reply: SoapCallResult|
        answered(t, pl.request("Id"@, seq![]), reply) && spec_u32_field(reply, "IdResponse"@, seq!["Value"@]) == Some(id)
}

/// The track id as the queue sees it: 0 means no track.
pub open spec fn track_of(id: u32) -> Option<u32> {
    if id == 0 {
        None
    } else {
        Some(id)
    }
}

/// The renderer's answer to `IdArray` could not be read as a list of ids.
pub open spec fn ids_unreadable<F: Fn(SoapRequest) -> SoapCallResult>(t: F, pl: OhPlaylistClient) -> bool {
    exists|reply: SoapCallResult| answered(t, pl.request("IdArray"@, seq![]), reply) && spec_id_array(reply) is None
}

/// The renderer's answer to `Id` could not be read as a track id.
pub open spec fn id_unreadable<F: Fn(SoapRequest) -> SoapCallResult>(t: F, pl: OhPlaylistClient) -> bool {
    exists|reply: SoapCallResult|
        answered(t, pl.request("Id"@, seq![]), reply) && spec_u32_field(reply, "IdResponse"@, seq!["Value"@]) is None
}

/// The renderer refused the playlist action `action` (with `args`).
pub open spec fn refused<F: Fn(SoapRequest) -> SoapCallResult>(
    t: F,
    pl: OhPlaylistClient,
    action: Seq<char>,
    args: Seq<(Seq<char>, Seq<char>)>,
) -> bool {
    exists|reply: SoapCallResult| answered(t, pl.request(action, args), reply) && crate::soap::spec_success(reply) is None
}

/// `ids` is a listing of the playlist: the renderer's answer to `IdArray`, or
/// the ids held.
pub open spec fn known_ids<F: Fn(SoapRequest) -> SoapCallResult>(
    t: F,
    pl: OhPlaylistClient,
    held: Option<Seq<u32>>,
    ids: Seq<u32>,
) -> bool {
    listed(t, pl, ids) || held == Some(ids)
}

/// The ids held after a read: those held before, none, or a listing the
/// renderer gave.
pub open spec fn held_after<F: Fn(SoapRequest) -> SoapCallResult>(
    t: F,
    pl: OhPlaylistClient,
    before: Option<Seq<u32>>,
    after: Option<Seq<u32>>,
) -> bool {
    after == before || after is None || (after matches Some(v) && listed(t, pl, v))
}

/// `o` is the position of the current track: the current track (as the
/// renderer answered `Id`, or as held) is none and so is `o`, or `o` is the
/// first position of that track in a listing of the playlist.
pub open spec fn current_reading<F: Fn(SoapRequest) -> SoapCallResult>(
    t: F,
    pl: OhPlaylistClient,
    held: Option<Seq<u32>>,
    held_current: Option<Option<u32>>,
    o: Option<usize>,
) -> bool {
    exists|cur: Option<u32>| #[trigger] reading_of(t, pl, held, held_current, cur, o)
}

/// `o` is the position of the current track `cur`, as [`current_reading`]
/// says.
pub open spec fn reading_of<F: Fn(SoapRequest) -> SoapCallResult>(
    t: F,
    pl: OhPlaylistClient,
    held: Option<Seq<u32>>,
    held_current: Option<Option<u32>>,
    cur: Option<u32>,
    o: Option<usize>,
) -> bool {
    &&& (exists|id: u32| current_id(t, pl, id) && cur == track_of(id)) || held_current == Some(cur)
    &&& match cur {
        None => o is None,
        Some(id) => o matches Some(p) && exists|ids: Seq<u32>|
            #[trigger] known_ids(t, pl, held, ids) && p < ids.len() && ids[p as int] == id && (forall|k: int|
                0 <= k < p ==> ids[k] != id),
    }
}

/// The renderer answered the insertion of `item` after the track `after`
/// with the new id `id`.
pub open spec fn inserted_at<F: Fn(SoapRequest) -> SoapCallResult>(
    t: F,
    pl: OhPlaylistClient,
    item: PlaybackItem,
    after: u32,
    id: u32,
) -> bool {
    exists|reply: SoapCallResult|
        answered(
            t,
            pl.request(
                "Insert"@,
                seq![("AfterId"@, crate::text::dec(after as nat)), ("Uri"@, item.uri@), ("Metadata"@, crate::queue::openhome::spec_metadata_xml(item))],
            ),
            reply,
        ) && spec_u32_field(reply, "InsertResponse"@, seq!["NewId"@, "Value"@]) == Some(id)
}

/// The items were inserted one after the other, the first after the track
/// `after`, receiving the ids `fresh`.
pub open spec fn chain_inserted<F: Fn(SoapRequest) -> SoapCallResult>(
    t: F,
    pl: OhPlaylistClient,
    items: Seq<PlaybackItem>,
    after: u32,
    fresh: Seq<u32>,
) -> bool {
    &&& fresh.len() == items.len()
    &&& forall|i: int|
        0 <= i < items.len() ==> #[trigger] inserted_at(t, pl, items[i], prev_of(after, fresh, i), fresh[i])
}

/// The track the `i`-th insertion of a chain goes after.
pub open spec fn prev_of(after: u32, fresh: Seq<u32>, i: int) -> u32 {
    if i == 0 {
        after
    } else {
        fresh[i - 1]
    }
}

/// The last track of a listing, or the head of the playlist when it is empty.
pub open spec fn last_or_head(ids: Seq<u32>) -> u32 {
    if ids.len() > 0 {
        ids.last()
    } else {
        0
    }
}

/// What is held after `b` when `a` was held before `b` and `b` before `c`.
proof fn lemma_held_after_trans<F: Fn(SoapRequest) -> SoapCallResult>(
    t: F,
    pl: OhPlaylistClient,
    a: Option<Seq<u32>>,
    b: Option<Seq<u32>>,
    c: Option<Seq<u32>>,
)
    requires
        held_after(t, pl, a, b),
        held_after(t, pl, b, c),
    ensures
        held_after(t, pl, a, c),
{
}

/// Ids known from what was held later were known from what was held
/// before.
proof fn lemma_known_before<F: Fn(SoapRequest) -> SoapCallResult>(
    t: F,
    pl: OhPlaylistClient,
    a: Option<Seq<u32>>,
    b: Option<Seq<u32>>,
    ids: Seq<u32>,
)
    requires
        held_after(t, pl, a, b),
        known_ids(t, pl, b, ids),
    ensures
        known_ids(t, pl, a, ids),
{
}

/// The last listed track as an anchor, or the head of an empty playlist.
pub open spec fn tail_anchor(ids: Seq<u32>) -> Anchor {
    if ids.len() > 0 {
        Anchor::Existing(ids.last())
    } else {
        Anchor::Head
    }
}

/// Deleting the listed tracks after the first `n`, the last one first.
pub open spec fn delete_tail_plan(ids: Seq<u32>, n: nat) -> Seq<PlaylistOp> {
    Seq::new((ids.len() - n) as nat, |i: int| PlaylistOp::DeleteStrict(ids[ids.len() - 1 - i]))
}

/// A synchronisation from a snapshot of the playlist was performed: around
/// the playing track kept in place, around a playing track no longer
/// desired (kept first, every other listed track deleted), by appending to
/// the playlist, or by the diff of the whole playlist (with no failure in
/// its bookkeeping).
pub open spec fn full_synced<F: Fn(SoapRequest) -> SoapCallResult>(
    t: F,
    pl: OhPlaylistClient,
    held: Option<Seq<u32>>,
    items: Seq<PlaybackItem>,
) -> bool {
    ||| exists|current: Seq<PlaybackItem>, pid: usize, pivot: nat, ops: Seq<PlaylistOp>, fresh: Seq<u32>, at: int|
        #[trigger] pivot_plan_at(current, items, pid, pivot, ops, at) && #[trigger] plan_performed(t, pl, ops, fresh, items)
    ||| exists|ids: Seq<u32>, playing: u32, fresh: Seq<u32>|
        known_ids(t, pl, held, ids) && #[trigger] plan_performed(t, pl, spec_preserve_plan(ids, playing, items.len()), fresh, items)
    ||| exists|h: Option<Seq<u32>>| held_after(t, pl, held, h) && #[trigger] appended(t, pl, h, items)
    ||| exists|current: Seq<PlaybackItem>, track: Option<u32>, fresh: Seq<u32>|
        #[trigger] plan_performed(t, pl, standard_plan_for(current, items, track).0, fresh, items)
            && standard_plan_for(current, items, track).1 is None
}

/// The playlist was brought to `items` (some) with few operations, from a
/// listing of its ids (read from the renderer, or held): the new items
/// appended after the listed ones, or the listed tracks past the items
/// deleted, or a synchronisation from a snapshot.
pub open spec fn synced<F: Fn(SoapRequest) -> SoapCallResult>(
    t: F,
    pl: OhPlaylistClient,
    held: Option<Seq<u32>>,
    items: Seq<PlaybackItem>,
) -> bool {
    ||| exists|ids: Seq<u32>, last: Seq<u32>, fresh: Seq<u32>|
        known_ids(t, pl, held, ids) && known_ids(t, pl, held, last) && ids.len() < items.len() && #[trigger] plan_performed(
            t,
            pl,
            chain_plan(tail_anchor(last), (items.len() - ids.len()) as nat, true),
            fresh,
            items.skip(ids.len() as int),
        )
    ||| exists|ids: Seq<u32>, fresh: Seq<u32>|
        known_ids(t, pl, held, ids) && items.len() < ids.len() && #[trigger] plan_performed(
            t,
            pl,
            delete_tail_plan(ids, items.len()),
            fresh,
            items,
        )
    ||| (exists|ids: Seq<u32>| #[trigger] known_ids(t, pl, held, ids)) && full_synced(t, pl, held, items)
}

/// The playlist was emptied (`DeleteAll` succeeded) and the items were
/// inserted in order from its head, each after the one before.
pub open spec fn replaced<F: Fn(SoapRequest) -> SoapCallResult>(
    t: F,
    pl: OhPlaylistClient,
    items: Seq<PlaybackItem>,
) -> bool {
    &&& exists|reply: SoapCallResult|
        answered(t, pl.request("DeleteAll"@, seq![]), reply) && crate::soap::spec_success(reply) is Some
    &&& exists|fresh: Seq<u32>| #[trigger] plan_performed(t, pl, chain_plan(Anchor::Head, items.len(), false), fresh, items)
}

/// The items were inserted after the last track of a listing of the
/// playlist.
pub open spec fn appended<F: Fn(SoapRequest) -> SoapCallResult>(
    t: F,
    pl: OhPlaylistClient,
    held: Option<Seq<u32>>,
    items: Seq<PlaybackItem>,
) -> bool {
    exists|ids: Seq<u32>, fresh: Seq<u32>|
        #![trigger known_ids(t, pl, held, ids), chain_inserted(t, pl, items, last_or_head(ids), fresh)]
        known_ids(t, pl, held, ids) && chain_inserted(t, pl, items, last_or_head(ids), fresh)
}

/// `cur` is the current track: as the renderer answered `Id`, or as held.
pub open spec fn current_read<F: Fn(SoapRequest) -> SoapCallResult>(
    t: F,
    pl: OhPlaylistClient,
    held_current: Option<Option<u32>>,
    cur: Option<u32>,
) -> bool {
    (exists|id: u32| current_id(t, pl, id) && cur == track_of(id)) || held_current == Some(cur)
}

/// The items were inserted after the current track, or appended when there
/// is none.
pub open spec fn inserted_after_current<F: Fn(SoapRequest) -> SoapCallResult>(
    t: F,
    pl: OhPlaylistClient,
    held: Option<Seq<u32>>,
    held_current: Option<Option<u32>>,
    items: Seq<PlaybackItem>,
) -> bool {
    exists|cur: Option<u32>|
        #[trigger] current_read(t, pl, held_current, cur) && match cur {
            Some(id) => exists|fresh: Seq<u32>| #[trigger] chain_inserted(t, pl, items, id, fresh),
            None => appended(t, pl, held, items),
        }
}

/// An appending seen with the ids held later is one seen with those held
/// before.
proof fn lemma_appended_earlier<F: Fn(SoapRequest) -> SoapCallResult>(
    t: F,
    pl: OhPlaylistClient,
    before: Option<Seq<u32>>,
    after: Option<Seq<u32>>,
    items: Seq<PlaybackItem>,
)
    requires
        held_after(t, pl, before, after),
        appended(t, pl, after, items),
    ensures
        appended(t, pl, before, items),
{
    let (ids, fresh) = choose|ids: Seq<u32>, fresh: Seq<u32>|
        #![trigger known_ids(t, pl, after, ids), chain_inserted(t, pl, items, last_or_head(ids), fresh)]
        known_ids(t, pl, after, ids) && chain_inserted(t, pl, items, last_or_head(ids), fresh);
    assert(known_ids(t, pl, before, ids));
}

/// The renderer accepted the deletion of the track `id`.
pub open spec fn deleted<F: Fn(SoapRequest) -> SoapCallResult>(t: F, pl: OhPlaylistClient, id: u32) -> bool {
    exists|reply: SoapCallResult|
        answered(t, pl.request("DeleteId"@, seq![("Value"@, crate::text::dec(id as nat))]), reply)
            && crate::soap::spec_success(reply) is Some
}

/// The track before position `index` of a listing, or the head of the
/// playlist for the first position.
pub open spec fn before_position(ids: Seq<u32>, index: int) -> u32 {
    if index == 0 {
        0
    } else {
        ids[index - 1]
    }
}

/// A reading made with the ids held later is a reading with those held
/// before.
proof fn lemma_reading_earlier<F: Fn(SoapRequest) -> SoapCallResult>(
    t: F,
    pl: OhPlaylistClient,
    before: Option<Seq<u32>>,
    after: Option<Seq<u32>>,
    held_current: Option<Option<u32>>,
    o: Option<usize>,
)
    requires
        held_after(t, pl, before, after),
        current_reading(t, pl, after, held_current, o),
    ensures
        current_reading(t, pl, before, held_current, o),
{
    let cur = choose|cur: Option<u32>| #[trigger] reading_of(t, pl, after, held_current, cur, o);
    match cur {
        None => {
            assert(reading_of(t, pl, before, held_current, cur, o));
        },
        Some(id) => {
            let p = o->0;
            let ids = choose|ids: Seq<u32>|
                known_ids(t, pl, after, ids) && p < ids.len() && ids[p as int] == id && (forall|k: int|
                    0 <= k < p ==> ids[k] != id);
            assert(known_ids(t, pl, before, ids));
            assert(reading_of(t, pl, before, held_current, cur, o));
        },
    }
}

/// Local mirror of an OpenHome playlist for a single renderer.
#[derive(Debug)]
pub struct OpenHomeQueue {
    renderer_id: DeviceId,
    playlist_client: OhPlaylistClient,
    info_client: Option<OhInfoClient>,
    product_client: Option<OhProductClient>,
    caches: PlaylistCaches,
    track_ids_cache: TrackIdsCache,
    current_track_id_cache: CurrentTrackIdCache,
    read_list_cache: ReadListCache,
}

/// Time to live of the cached playlist ids, in milliseconds.
pub const TRACK_IDS_TTL_MS: u128 = 1000;

/// Time to live of the cached current track id, in milliseconds.
pub const CURRENT_TRACK_TTL_MS: u128 = 250;

/// Time to live of the cached `ReadList` answer, in milliseconds.
pub const READ_LIST_TTL_MS: u128 = 500;

impl OpenHomeQueue {
    /// The metadata and URI caches are well formed.
    pub closed spec fn wf(&self) -> bool {
        self.caches.wf()
    }

    /// The playlist service the queue drives.
    pub closed spec fn playlist(&self) -> OhPlaylistClient {
        self.playlist_client
    }

    /// The product service, when the renderer has one.
    pub closed spec fn product(&self) -> Option<OhProductClient> {
        self.product_client
    }

    /// The playlist ids held by the short-lived cache.
    pub closed spec fn held_ids(&self) -> Option<Seq<u32>> {
        self.track_ids_cache.held()
    }

    /// The current track id held by the short-lived cache.
    pub closed spec fn held_current(&self) -> Option<Option<u32>> {
        self.current_track_id_cache.held()
    }

    /// The renderer the queue mirrors.
    pub closed spec fn renderer(&self) -> DeviceId {
        self.renderer_id
    }

    /// A mirror of the playlist reached through `playlist`, with empty caches.
    pub fn new(
        renderer_id: DeviceId,
        playlist: OhPlaylistClient,
        info_client: Option<OhInfoClient>,
        product_client: Option<OhProductClient>,
    ) -> (r: Self)
        ensures
            r.wf(),
            r.playlist() == playlist,
            r.product() == product_client,
            r.renderer() == renderer_id,
            r.held_ids() is None,
            r.held_current() is None,
    {
        OpenHomeQueue {
            renderer_id,
            playlist_client: playlist,
            info_client,
            product_client,
            caches: PlaylistCaches::new(),
            track_ids_cache: TrackIdsCache::new(),
            current_track_id_cache: CurrentTrackIdCache::new(),
            read_list_cache: ReadListCache::new(),
        }
    }

    /// The mirror of a renderer's playlist: its Playlist service is required,
    /// its Info and Product services are used when present.
    pub fn from_renderer_info(info: &RendererInfo) -> (r: Result<Self, ControlPointError>)
        ensures
            r is Ok <==> (info.oh_playlist_control_url is Some && info.oh_playlist_service_type is Some),
            r matches Ok(q) ==> q.wf() && q.renderer() == info.id && info.oh_playlist_control_url == Some(
                q.playlist().control_url,
            ) && info.oh_playlist_service_type == Some(q.playlist().service_type) && (q.product() is Some <==> (
            info.oh_product_control_url is Some && info.oh_product_service_type is Some)),
    {
        let playlist_client = match OhPlaylistClient::from_renderer_info(info) {
            Ok(c) => c,
            Err(e) => {
                return Err(e);
            },
        };
        let info_client = match OhInfoClient::from_renderer_info(info) {
            Ok(c) => Some(c),
            Err(_) => None,
        };
        let product_client = match OhProductClient::from_renderer_info(info) {
            Ok(c) => Some(c),
            Err(_) => None,
        };
        Ok(OpenHomeQueue::new(info.id.clone(), playlist_client, info_client, product_client))
    }

    /// Selects the playlist source when the renderer has a Product service.
    fn ensure_playlist_source_selected<F: Fn(SoapRequest) -> SoapCallResult>(&self, transport: &F) -> (r: Result<
        (),
        ControlPointError,
    >)
        requires
            transport_total(*transport),
        ensures
            self.product() is None ==> r is Ok,
            r is Ok ==> crate::music_renderer::openhome_renderer::playlist_ready(self.product(), *transport),
            self.product() matches Some(c) ==> source_selection(*transport, c, r is Ok),
    {
        match &self.product_client {
            Some(product) => product.ensure_playlist_source_selected(transport),
            None => Ok(()),
        }
    }

    /// Drops the cached ids and `ReadList` answer (after inserting or
    /// deleting without touching the current track).
    fn invalidate_track_caches(&mut self)
        ensures
            final(self).wf() == old(self).wf(),
            final(self).held_ids() is None,
            final(self).held_current() == old(self).held_current(),
            final(self).playlist() == old(self).playlist(),
            final(self).product() == old(self).product(),
            final(self).renderer() == old(self).renderer(),
    {
        self.track_ids_cache.invalidate();
        self.read_list_cache.invalidate();
    }

    /// Drops every short-lived cache and the remembered URIs (after
    /// `DeleteAll`, a seek or a stop, which change the current track).
    fn invalidate_all_caches(&mut self)
        requires
            old(self).wf(),
        ensures
            final(self).wf(),
            final(self).held_ids() is None,
            final(self).held_current() is None,
            final(self).playlist() == old(self).playlist(),
            final(self).product() == old(self).product(),
            final(self).renderer() == old(self).renderer(),
    {
        self.track_ids_cache.invalidate();
        self.read_list_cache.invalidate();
        self.current_track_id_cache.invalidate();
        self.caches.clear_uris();
    }

    /// The playlist ids in order: those cached within the last second, else
    /// those the renderer lists (then cached).
    pub fn track_ids<F: Fn(SoapRequest) -> SoapCallResult>(&mut self, transport: &F) -> (r: Result<
        Vec<u32>,
        ControlPointError,
    >)
        requires
            transport_total(*transport),
            old(self).wf(),
        ensures
            final(self).wf(),
            final(self).playlist() == old(self).playlist(),
            final(self).product() == old(self).product(),
            final(self).renderer() == old(self).renderer(),
            final(self).held_current() == old(self).held_current(),
            final(self).metadata_view() == old(self).metadata_view(),
            r matches Ok(ids) ==> listed(*transport, old(self).playlist(), ids@) || old(self).held_ids() == Some(ids@),
            held_after(*transport, old(self).playlist(), old(self).held_ids(), final(self).held_ids()),
            old(self).product() is None && r is Err ==> ids_unreadable(*transport, old(self).playlist()),
    {
        match self.ensure_playlist_source_selected(transport) {
            Ok(()) => {},
            Err(e) => {
                return Err(e);
            },
        }
        match self.track_ids_cache.get(TRACK_IDS_TTL_MS) {
            Some(ids) => {
                return Ok(ids);
            },
            None => {},
        }
        let ids = match self.playlist_client.id_array(transport) {
            Ok(ids) => ids,
            Err(e) => {
                return Err(e);
            },
        };
        self.track_ids_cache.set(ids.clone());
        Ok(ids)
    }

    /// Number of tracks in the playlist.
    pub fn len<F: Fn(SoapRequest) -> SoapCallResult>(&mut self, transport: &F) -> (r: Result<usize, ControlPointError>)
        requires
            transport_total(*transport),
            old(self).wf(),
        ensures
            final(self).wf(),
            final(self).playlist() == old(self).playlist(),
            final(self).product() == old(self).product(),
            final(self).renderer() == old(self).renderer(),
            final(self).metadata_view() == old(self).metadata_view(),
            r matches Ok(n) ==> exists|ids: Vec<u32>|
                ids@.len() == n && (listed(*transport, old(self).playlist(), ids@) || old(self).held_ids() == Some(
                    ids@,
                )),
            final(self).held_current() == old(self).held_current(),
            held_after(*transport, old(self).playlist(), old(self).held_ids(), final(self).held_ids()),
            old(self).product() is None && r is Err ==> ids_unreadable(*transport, old(self).playlist()),
    {
        match self.track_ids(transport) {
            Ok(ids) => Ok(ids.len()),
            Err(e) => Err(e),
        }
    }

    /// Position of the track `id` in the playlist.
    pub fn id_to_position<F: Fn(SoapRequest) -> SoapCallResult>(&mut self, transport: &F, id: u32) -> (r: Result<
        usize,
        ControlPointError,
    >)
        requires
            transport_total(*transport),
            old(self).wf(),
        ensures
            final(self).wf(),
            final(self).playlist() == old(self).playlist(),
            final(self).product() == old(self).product(),
            final(self).renderer() == old(self).renderer(),
            final(self).metadata_view() == old(self).metadata_view(),
            r matches Ok(p) ==> exists|ids: Vec<u32>|
                p < ids@.len() && ids@[p as int] == id && (forall|k: int| 0 <= k < p ==> ids@[k] != id) && (listed(
                    *transport,
                    old(self).playlist(),
                    ids@,
                ) || old(self).held_ids() == Some(ids@)),
            held_after(*transport, old(self).playlist(), old(self).held_ids(), final(self).held_ids()),
            old(self).product() is None && r is Err ==> ids_unreadable(*transport, old(self).playlist()) || exists|ids: Seq<u32>|
                #[trigger] known_ids(*transport, old(self).playlist(), old(self).held_ids(), ids) && !ids.contains(id),
    {
        let ghost pl = self.playlist();
        let ghost h0 = self.held_ids();
        let ids = match self.track_ids(transport) {
            Ok(ids) => ids,
            Err(e) => {
                return Err(e);
            },
        };
        assert(known_ids(*transport, pl, h0, ids@));
        match position_of(ids.as_slice(), id) {
            Some(p) => {
                return Ok(p);
            },
            None => {},
        }
        let mut text: Vec<char> = Vec::new();
        crate::didl::push_text(&mut text, "Item ");
        crate::text::push_dec(&mut text, id as u64);
        crate::didl::push_text(&mut text, " id is not present in the queue");
        Err(ControlPointError::QueueError(crate::text::string_from_chars(text.as_slice())))
    }

    /// Id of the track at a position of the playlist.
    pub fn position_to_id<F: Fn(SoapRequest) -> SoapCallResult>(&mut self, transport: &F, index: usize) -> (r: Result<
        u32,
        ControlPointError,
    >)
        requires
            transport_total(*transport),
            old(self).wf(),
        ensures
            final(self).wf(),
            final(self).playlist() == old(self).playlist(),
            final(self).product() == old(self).product(),
            final(self).renderer() == old(self).renderer(),
            final(self).metadata_view() == old(self).metadata_view(),
            r matches Ok(id) ==> exists|ids: Vec<u32>|
                index < ids@.len() && ids@[index as int] == id && (listed(*transport, old(self).playlist(), ids@)
                    || old(self).held_ids() == Some(ids@)),
            held_after(*transport, old(self).playlist(), old(self).held_ids(), final(self).held_ids()),
            old(self).product() is None && r is Err ==> ids_unreadable(*transport, old(self).playlist()) || exists|ids: Seq<u32>|
                #[trigger] known_ids(*transport, old(self).playlist(), old(self).held_ids(), ids) && index >= ids.len(),
    {
        let ghost pl = self.playlist();
        let ghost h0 = self.held_ids();
        let ids = match self.track_ids(transport) {
            Ok(ids) => ids,
            Err(e) => {
                return Err(e);
            },
        };
        assert(known_ids(*transport, pl, h0, ids@));
        if index < ids.len() {
            Ok(ids[index])
        } else {
            let mut text: Vec<char> = Vec::new();
            crate::didl::push_text(&mut text, "Index out of bound ");
            crate::text::push_dec(&mut text, index as u64);
            crate::didl::push_text(&mut text, " >= ");
            crate::text::push_dec(&mut text, ids.len() as u64);
            Err(ControlPointError::QueueError(crate::text::string_from_chars(text.as_slice())))
        }
    }

    /// The current track: the one cached within the last 250 ms, else the
    /// renderer's answer to `Id` (0 meaning none), then cached.
    pub fn current_track<F: Fn(SoapRequest) -> SoapCallResult>(&mut self, transport: &F) -> (r: Result<
        Option<u32>,
        ControlPointError,
    >)
        requires
            transport_total(*transport),
            old(self).wf(),
        ensures
            final(self).wf(),
            final(self).playlist() == old(self).playlist(),
            final(self).product() == old(self).product(),
            final(self).renderer() == old(self).renderer(),
            final(self).held_ids() == old(self).held_ids(),
            final(self).metadata_view() == old(self).metadata_view(),
            r matches Ok(t) ==> (exists|id: u32| current_id(*transport, old(self).playlist(), id) && t == track_of(id))
                || old(self).held_current() == Some(t),
            r is Err ==> id_unreadable(*transport, old(self).playlist()),
    {
        match self.current_track_id_cache.get(CURRENT_TRACK_TTL_MS) {
            Some(t) => {
                return Ok(t);
            },
            None => {},
        }
        let id = match self.playlist_client.id(transport) {
            Ok(id) => id,
            Err(e) => {
                return Err(e);
            },
        };
        proof {
            let reply = choose|reply: SoapCallResult|
                answered(*transport, self.playlist_client.request("Id"@, seq![]), reply) && agrees(
                    Ok::<u32, ControlPointError>(id),
                    spec_u32_field(reply, "IdResponse"@, seq!["Value"@]),
                );
            assert(current_id(*transport, self.playlist_client, id));
        }
        let result = if id == 0 {
            None
        } else {
            Some(id)
        };
        self.current_track_id_cache.set(result);
        assert(result == track_of(id));
        assert(exists|i: u32| current_id(*transport, old(self).playlist(), i) && result == track_of(i));
        Ok(result)
    }

    /// Position of the current track, if any.
    pub fn current_index<F: Fn(SoapRequest) -> SoapCallResult>(&mut self, transport: &F) -> (r: Result<
        Option<usize>,
        ControlPointError,
    >)
        requires
            transport_total(*transport),
            old(self).wf(),
        ensures
            final(self).wf(),
            final(self).playlist() == old(self).playlist(),
            final(self).product() == old(self).product(),
            final(self).renderer() == old(self).renderer(),
            final(self).metadata_view() == old(self).metadata_view(),
            held_after(*transport, old(self).playlist(), old(self).held_ids(), final(self).held_ids()),
            r matches Ok(o) ==> current_reading(
                *transport,
                old(self).playlist(),
                old(self).held_ids(),
                old(self).held_current(),
                o,
            ),
            old(self).product() is None && r is Err ==> id_unreadable(*transport, old(self).playlist()) || ids_unreadable(
                *transport,
                old(self).playlist(),
            ) || exists|id: u32, ids: Seq<u32>|
                #![trigger current_read(*transport, old(self).playlist(), old(self).held_current(), Some(id)), known_ids(*transport, old(self).playlist(), old(self).held_ids(), ids)]
                current_read(*transport, old(self).playlist(), old(self).held_current(), Some(id)) && known_ids(
                    *transport,
                    old(self).playlist(),
                    old(self).held_ids(),
                    ids,
                ) && !ids.contains(id),
    {
        let ghost held0 = self.held_ids();
        let current = match self.current_track(transport) {
            Ok(c) => c,
            Err(e) => {
                return Err(e);
            },
        };
        let ghost pl = self.playlist();
        assert((exists|id: u32| current_id(*transport, pl, id) && current == track_of(id)) || old(self).held_current()
            == Some(current));
        match current {
            Some(id) => match self.id_to_position(transport, id) {
                Ok(p) => {
                    proof {
                        let ids = choose|ids: Vec<u32>|
                            p < ids@.len() && ids@[p as int] == id && (forall|k: int| 0 <= k < p ==> ids@[k] != id)
                                && (listed(*transport, pl, ids@) || held0 == Some(ids@));
                        assert(known_ids(*transport, pl, held0, ids@));
                        assert(p < ids@.len() && ids@[p as int] == id && (forall|k: int| 0 <= k < p ==> ids@[k] != id));
                        assert((exists|i: u32| current_id(*transport, pl, i) && current == track_of(i)) || old(self).held_current() == Some(current));
                        assert(reading_of(*transport, pl, held0, old(self).held_current(), current, Some(p)));
                    }
                    Ok(Some(p))
                },
                Err(e) => {
                    assert(current_read(*transport, pl, old(self).held_current(), Some(id)));
                    Err(e)
                },
            },
            None => {
                assert(reading_of(*transport, pl, held0, old(self).held_current(), current, None));
                Ok(None)
            },
        }
    }

    /// An item standing for a playlist entry: the metadata cached for its id
    /// (on a first read, the metadata its DIDL-Lite gives, then cached), the
    /// DIDL id its DIDL-Lite gives (else `openhome:<id>`), and a generic
    /// protocolInfo.
    fn playback_item_from_entry<D: Fn(String) -> EntryDidl>(&mut self, entry: &OhTrackEntry, describe: &D) -> (r:
        PlaybackItem)
        requires
            old(self).wf(),
            describe_ok(*describe),
        ensures
            final(self).wf(),
            final(self).playlist() == old(self).playlist(),
            final(self).product() == old(self).product(),
            final(self).renderer() == old(self).renderer(),
            final(self).held_ids() == old(self).held_ids(),
            r.backend_id == entry.id as usize,
            r.uri@ == entry.uri@,
            r.protocol_info@ == "http-get:*:audio/*:*"@,
            r.media_server_id.0@ == "openhome:"@ + old(self).renderer().0@,
            meta_fits(r.metadata),
    {
        let described: Option<EntryDidl> = if entry.metadata_xml.as_str().unicode_len() > 0 {
            Some(describe(entry.metadata_xml.clone()))
        } else {
            None
        };
        let metadata = match self.caches.cached_metadata(entry.id) {
            Some(m) => {
                proof {
                    self.caches.lemma_wf_fits(entry.id);
                }
                m
            },
            None => {
                let fresh: Option<TrackMetadata> = match &described {
                    Some(d) => d.metadata.clone(),
                    None => None,
                };
                self.caches.cache_metadata(entry.id, fresh.clone(), entry.uri.as_str());
                fresh
            },
        };
        let didl_id = match described {
            Some(d) => match d.item_id {
                Some(id) => id,
                None => openhome_id(entry.id),
            },
            None => openhome_id(entry.id),
        };
        PlaybackItem {
            media_server_id: DeviceId(msg2("openhome:", self.renderer_id.0.as_str())),
            backend_id: entry.id as usize,
            didl_id,
            uri: entry.uri.clone(),
            protocol_info: msg("http-get:*:audio/*:*"),
            metadata,
        }
    }

    /// The playlist as a snapshot: its entries read with `ReadList` in
    /// batches of 256 ids (a failed batch is read id by id; an answer of the
    /// last half second for the same ids is reused), each turned into an
    /// item, and the position of the renderer's current track.
    pub fn queue_snapshot<F: Fn(SoapRequest) -> SoapCallResult, D: Fn(String) -> EntryDidl>(
        &mut self,
        transport: &F,
        describe: &D,
    ) -> (r: Result<QueueSnapshot, ControlPointError>)
        requires
            transport_total(*transport),
            old(self).wf(),
            describe_ok(*describe),
        ensures
            final(self).wf(),
            final(self).playlist() == old(self).playlist(),
            final(self).product() == old(self).product(),
            final(self).renderer() == old(self).renderer(),
            r matches Ok(s) ==> s.playlist_id is None && (s.current_index matches Some(k) ==> k < s.items@.len())
                && items_fit(s.items@) && forall|i: int| 0 <= i < s.items@.len() ==> (#[trigger] s.items@[i]).backend_id
                <= u32::MAX,
            r is Ok ==> exists|ids: Seq<u32>| #[trigger] known_ids(*transport, old(self).playlist(), old(self).held_ids(), ids),
            held_after(*transport, old(self).playlist(), old(self).held_ids(), final(self).held_ids()),
    {
        match self.ensure_playlist_source_selected(transport) {
            Ok(()) => {},
            Err(e) => {
                return Err(e);
            },
        }
        let ghost h0 = self.held_ids();
        let ghost pl = self.playlist();
        let ids = match self.track_ids(transport) {
            Ok(ids) => ids,
            Err(e) => {
                return Err(e);
            },
        };
        let ghost hs = self.held_ids();
        assert(known_ids(*transport, pl, h0, ids@));
        if ids.len() == 0 {
            return Ok(QueueSnapshot { items: Vec::new(), current_index: None, playlist_id: None });
        }
        let mut entries: Vec<OhTrackEntry> = Vec::new();
        let mut start: usize = 0;
        while start < ids.len()
            invariant
                transport_total(*transport),
                start <= ids@.len(),
                self.wf(),
                self.playlist() == old(self).playlist(),
                self.product() == old(self).product(),
                self.renderer() == old(self).renderer(),
                self.held_ids() == hs,
                held_after(*transport, old(self).playlist(), old(self).held_ids(), hs),
            decreases ids@.len() - start,
        {
            let end: usize = if ids.len() - start > 256 {
                start + 256
            } else {
                ids.len()
            };
            let chunk = crate::queue::openhome_sync::take_u32(
                crate::queue::openhome_sync::skip_u32(ids.as_slice(), start).as_slice(),
                end - start,
            );
            match self.read_list_cache.get(chunk.as_slice(), READ_LIST_TTL_MS) {
                Some(cached) => {
                    append_entries(&mut entries, cached);
                },
                None => match self.playlist_client.read_list(transport, chunk.as_slice()) {
                    Ok(batch) => {
                        self.read_list_cache.set(chunk.clone(), batch.clone());
                        append_entries(&mut entries, batch);
                    },
                    Err(err) => {
                        if chunk.len() > 1 {
                            let mut k: usize = 0;
                            while k < chunk.len()
                                invariant
                                    transport_total(*transport),
                                    k <= chunk@.len(),
                                    self.wf(),
                                    self.playlist() == old(self).playlist(),
                                    self.product() == old(self).product(),
                                    self.renderer() == old(self).renderer(),
                                    self.held_ids() == hs,
                held_after(*transport, old(self).playlist(), old(self).held_ids(), hs),
                                decreases chunk@.len() - k,
                            {
                                let one: Vec<u32> = vec![chunk[k]];
                                match self.playlist_client.read_list(transport, one.as_slice()) {
                                    Ok(single) => append_entries(&mut entries, single),
                                    Err(inner) => {
                                        return Err(inner);
                                    },
                                }
                                k = k + 1;
                            }
                        } else {
                            return Err(err);
                        }
                    },
                },
            }
            start = end;
        }
        let mut items: Vec<PlaybackItem> = Vec::new();
        let mut i: usize = 0;
        while i < entries.len()
            invariant
                i <= entries@.len(),
                items@.len() == i,
                self.wf(),
                self.playlist() == old(self).playlist(),
                self.product() == old(self).product(),
                self.renderer() == old(self).renderer(),
                self.held_ids() == hs,
                held_after(*transport, old(self).playlist(), old(self).held_ids(), hs),
                describe_ok(*describe),
                items_fit(items@),
                forall|k: int| 0 <= k < items@.len() ==> (#[trigger] items@[k]).backend_id <= u32::MAX,
            decreases entries@.len() - i,
        {
            let item = self.playback_item_from_entry(&entries[i], describe);
            items.push(item);
            i = i + 1;
        }
        let current_index = match self.playlist_client.id(transport) {
            Ok(id) => {
                let mut found: Option<usize> = None;
                let mut k: usize = 0;
                while k < items.len()
                    invariant
                        k <= items@.len(),
                        found matches Some(p) ==> p < items@.len(),
                    decreases items@.len() - k,
                {
                    if items[k].backend_id == id as usize {
                        found = Some(k);
                        break;
                    }
                    k = k + 1;
                }
                found
            },
            Err(_) => None,
        };
        Ok(QueueSnapshot { items, current_index, playlist_id: None })
    }

    /// Moves the current track: seeks to the track at `index`, or stops when
    /// there is none; every short-lived cache is dropped.
    pub fn set_index<F: Fn(SoapRequest) -> SoapCallResult>(&mut self, transport: &F, index: Option<usize>) -> (r:
        Result<(), ControlPointError>)
        requires
            transport_total(*transport),
            old(self).wf(),
        ensures
            final(self).wf(),
            final(self).playlist() == old(self).playlist(),
            final(self).product() == old(self).product(),
            final(self).renderer() == old(self).renderer(),
            r is Ok ==> final(self).held_ids() is None && final(self).held_current() is None,
            r is Ok && index is None ==> exists|reply: SoapCallResult|
                answered(*transport, old(self).playlist().request("Stop"@, seq![]), reply),
            r is Ok && index is Some ==> exists|id: u32, reply: SoapCallResult|
                answered(
                    *transport,
                    old(self).playlist().request("SeekId"@, seq![("Value"@, crate::text::dec(id as nat))]),
                    reply,
                ),
            old(self).product() is None && r is Err ==> match index {
                None => refused(*transport, old(self).playlist(), "Stop"@, seq![]),
                Some(i) => ids_unreadable(*transport, old(self).playlist()) || (exists|ids: Seq<u32>|
                    #[trigger] known_ids(*transport, old(self).playlist(), old(self).held_ids(), ids) && i >= ids.len())
                    || exists|id: u32|
                    #[trigger] refused(
                        *transport,
                        old(self).playlist(),
                        "SeekId"@,
                        seq![("Value"@, crate::text::dec(id as nat))],
                    ),
            },
    {
        match index {
            Some(i) => {
                let track_id = match self.position_to_id(transport, i) {
                    Ok(id) => id,
                    Err(e) => {
                        return Err(e);
                    },
                };
                match self.ensure_playlist_source_selected(transport) {
                    Ok(()) => {},
                    Err(e) => {
                        return Err(e);
                    },
                }
                match self.playlist_client.seek_id(transport, track_id) {
                    Ok(()) => {},
                    Err(e) => {
                        assert(refused(
                            *transport,
                            self.playlist_client,
                            "SeekId"@,
                            seq![("Value"@, crate::text::dec(track_id as nat))],
                        ));
                        return Err(e);
                    },
                }
            },
            None => {
                match self.ensure_playlist_source_selected(transport) {
                    Ok(()) => {},
                    Err(e) => {
                        return Err(e);
                    },
                }
                match self.playlist_client.stop(transport) {
                    Ok(()) => {},
                    Err(e) => {
                        return Err(e);
                    },
                }
            },
        }
        self.invalidate_all_caches();
        Ok(())
    }

    /// Inserts the items after `after` one after the other, caching their
    /// metadata (or only their URIs, `uri_only`); cancellation is checked
    /// before each insertion.
    fn insert_chain<F: Fn(SoapRequest) -> SoapCallResult, C: Fn() -> bool>(
        &mut self,
        transport: &F,
        items: &[PlaybackItem],
        after: Anchor,
        uri_only: bool,
        cancelled: &C,
    ) -> (r: Result<Vec<u32>, ControlPointError>)
        requires
            transport_total(*transport),
            forall|u: ()| #[trigger] cancelled.requires(u),
            old(self).wf(),
            items_fit(items@),
            items@.len() < usize::MAX - 1,
            !(after is Inserted),
        ensures
            final(self).wf(),
            final(self).playlist() == old(self).playlist(),
            final(self).product() == old(self).product(),
            final(self).renderer() == old(self).renderer(),
            final(self).held_ids() == old(self).held_ids(),
            final(self).held_current() == old(self).held_current(),
            r matches Ok(fresh) ==> fresh@.len() == items@.len(),
            items@.len() == 0 ==> r is Ok,
            r matches Ok(fresh) ==> plan_performed(
                *transport,
                old(self).playlist(),
                chain_plan(after, items@.len(), uri_only),
                fresh@,
                items@,
            ),
    {
        let mut ops: Vec<PlaylistOp> = Vec::new();
        let mut i: usize = 0;
        while i < items.len()
            invariant
                i <= items@.len(),
                items@.len() < usize::MAX - 1,
                !(after is Inserted),
                ops@.len() == i,
                forall|k: int| 0 <= k < i ==> #[trigger] ops@[k] == chain_op(after, k, uri_only),
            decreases items@.len() - i,
        {
            let anchor = if i == 0 {
                after
            } else {
                Anchor::Inserted(i - 1)
            };
            if uri_only {
                ops.push(PlaylistOp::Append(anchor, i));
            } else {
                ops.push(PlaylistOp::Insert(anchor, i));
            }
            i = i + 1;
        }
        proof {
            lemma_chain_wf(ops@, after, uri_only, items@.len());
            lemma_chain_count(ops@, after, uri_only);
            assert(ops@ =~= chain_plan(after, items@.len(), uri_only));
        }
        let ghost pl = self.playlist_client;
        let r = run_plan(transport, &self.playlist_client, &mut self.caches, ops.as_slice(), items, cancelled);
        proof {
            if r is Ok {
                assert(plan_performed(*transport, pl, ops@, r->Ok_0@, items@));
            }
        }
        r
    }

    /// Replaces the whole playlist: `DeleteAll`, then the items inserted in
    /// order from the head. A current index must designate an item (it is
    /// otherwise not used).
    pub fn replace_queue<F: Fn(SoapRequest) -> SoapCallResult>(
        &mut self,
        transport: &F,
        items: Vec<PlaybackItem>,
        current_index: Option<usize>,
    ) -> (r: Result<(), ControlPointError>)
        requires
            transport_total(*transport),
            old(self).wf(),
            items_fit(items@),
            items@.len() < usize::MAX - 1,
        ensures
            final(self).wf(),
            final(self).playlist() == old(self).playlist(),
            final(self).product() == old(self).product(),
            final(self).renderer() == old(self).renderer(),
            (current_index matches Some(ci) && ci >= items@.len()) ==> r matches Err(ControlPointError::QueueError(_)),
            r is Ok ==> replaced(*transport, old(self).playlist(), items@),
            r is Ok ==> (old(self).product() matches Some(c) ==> source_selection(*transport, c, true)),
            r is Err && old(self).product() is None && !(current_index matches Some(ci) && ci >= items@.len()) ==> (
            exists|reply: SoapCallResult|
                answered(*transport, old(self).playlist().request("DeleteAll"@, seq![]), reply)
                    && (crate::soap::spec_success(reply) is None || items@.len() > 0)),
    {
        match current_index {
            Some(ci) => {
                if ci >= items.len() {
                    let mut text: Vec<char> = Vec::new();
                    crate::didl::push_text(&mut text, "Invalid Current index parameter ");
                    crate::text::push_dec(&mut text, ci as u64);
                    crate::didl::push_text(&mut text, " >= ");
                    crate::text::push_dec(&mut text, items.len() as u64);
                    return Err(ControlPointError::QueueError(crate::text::string_from_chars(text.as_slice())));
                }
            },
            None => {},
        }
        match self.ensure_playlist_source_selected(transport) {
            Ok(()) => {},
            Err(e) => {
                return Err(e);
            },
        }
        let ghost pl = self.playlist_client;
        assert(pl == old(self).playlist());
        let cleared = self.playlist_client.delete_all(transport);
        let ghost rd = choose|reply: SoapCallResult|
            answered(*transport, pl.request("DeleteAll"@, seq![]), reply) && crate::soap::agrees_unit(
                cleared,
                crate::soap::spec_success(reply) is Some,
            );
        assert(answered(*transport, pl.request("DeleteAll"@, seq![]), rd));
        match cleared {
            Ok(()) => {},
            Err(e) => {
                return Err(e);
            },
        }
        self.caches.clear_metadata();
        self.invalidate_all_caches();
        if items.len() == 0 {
            proof {
                let none = Seq::<u32>::empty();
                assert(chain_plan(Anchor::Head, 0, false) =~= Seq::<PlaylistOp>::empty());
                assert(plan_performed(*transport, pl, chain_plan(Anchor::Head, items@.len(), false), none, items@));
            }
            return Ok(());
        }
        let never = || -> (b: bool)
            ensures
                !b,
        { false };
        match self.insert_chain(transport, items.as_slice(), Anchor::Head, false, &never) {
            Ok(fresh) => {
                assert(plan_performed(*transport, pl, chain_plan(Anchor::Head, items@.len(), false), fresh@, items@));
            },
            Err(e) => {
                return Err(e);
            },
        }
        self.invalidate_track_caches();
        Ok(())
    }

    /// Inserts an item after the track `after_id` (selecting the playlist
    /// source first) and caches its metadata under the new id.
    fn add_playback_item<F: Fn(SoapRequest) -> SoapCallResult>(&mut self, transport: &F, item: PlaybackItem, after_id: u32) -> (r:
        Result<u32, ControlPointError>)
        requires
            transport_total(*transport),
            old(self).wf(),
            meta_fits(item.metadata),
        ensures
            final(self).wf(),
            final(self).playlist() == old(self).playlist(),
            final(self).product() == old(self).product(),
            final(self).renderer() == old(self).renderer(),
            final(self).held_ids() == old(self).held_ids(),
            final(self).held_current() == old(self).held_current(),
            r matches Ok(id) ==> exists|reply: SoapCallResult|
                answered(
                    *transport,
                    old(self).playlist().request(
                        "Insert"@,
                        seq![("AfterId"@, crate::text::dec(after_id as nat)), ("Uri"@, item.uri@), ("Metadata"@, crate::queue::openhome::spec_metadata_xml(item))],
                    ),
                    reply,
                ) && spec_u32_field(reply, "InsertResponse"@, seq!["NewId"@, "Value"@]) == Some(id),
            old(self).product() is None && r is Err ==> exists|reply: SoapCallResult|
                answered(
                    *transport,
                    old(self).playlist().request(
                        "Insert"@,
                        seq![("AfterId"@, crate::text::dec(after_id as nat)), ("Uri"@, item.uri@), ("Metadata"@, crate::queue::openhome::spec_metadata_xml(item))],
                    ),
                    reply,
                ) && spec_u32_field(reply, "InsertResponse"@, seq!["NewId"@, "Value"@]) is None,
    {
        match self.ensure_playlist_source_selected(transport) {
            Ok(()) => {},
            Err(e) => {
                return Err(e);
            },
        }
        let metadata_xml = build_metadata_xml(&item);
        let ins = self.playlist_client.insert(transport, after_id, item.uri.as_str(), metadata_xml.as_str());
        let new_id = match ins {
            Ok(id) => id,
            Err(e) => {
                proof {
                    let reply = choose|reply: SoapCallResult|
                        answered(
                            *transport,
                            self.playlist_client.request(
                                "Insert"@,
                                seq![("AfterId"@, crate::text::dec(after_id as nat)), ("Uri"@, item.uri@), ("Metadata"@, metadata_xml@)],
                            ),
                            reply,
                        ) && agrees(ins, spec_u32_field(reply, "InsertResponse"@, seq!["NewId"@, "Value"@]));
                    assert(metadata_xml@ == crate::queue::openhome::spec_metadata_xml(item));
                    assert(answered(
                        *transport,
                        old(self).playlist().request(
                            "Insert"@,
                            seq![("AfterId"@, crate::text::dec(after_id as nat)), ("Uri"@, item.uri@), ("Metadata"@, crate::queue::openhome::spec_metadata_xml(item))],
                        ),
                        reply,
                    ));
                    assert(spec_u32_field(reply, "InsertResponse"@, seq!["NewId"@, "Value"@]) is None);
                }
                return Err(e);
            },
        };
        self.caches.cache_metadata(new_id, item.metadata, item.uri.as_str());
        Ok(new_id)
    }

    /// Adds the items one after the other after the track `after_id`.
    fn add_items_after<F: Fn(SoapRequest) -> SoapCallResult>(&mut self, transport: &F, items: Vec<PlaybackItem>, after_id: u32) -> (r:
        Result<(), ControlPointError>)
        requires
            transport_total(*transport),
            old(self).wf(),
            items_fit(items@),
        ensures
            final(self).wf(),
            final(self).playlist() == old(self).playlist(),
            final(self).product() == old(self).product(),
            final(self).renderer() == old(self).renderer(),
            r is Ok ==> exists|fresh: Seq<u32>| #[trigger] chain_inserted(*transport, old(self).playlist(), items@, after_id, fresh),
    {
        let mut after = after_id;
        let mut i: usize = 0;
        let ghost mut fresh: Seq<u32> = Seq::empty();
        while i < items.len()
            invariant
                transport_total(*transport),
                i <= items@.len(),
                items_fit(items@),
                self.wf(),
                self.playlist() == old(self).playlist(),
                self.product() == old(self).product(),
                self.renderer() == old(self).renderer(),
                fresh.len() == i,
                after == (if i == 0 { after_id } else { fresh[i - 1] }),
                forall|k: int|
                    0 <= k < i ==> #[trigger] inserted_at(
                        *transport,
                        old(self).playlist(),
                        items@[k],
                        prev_of(after_id, fresh, k),
                        fresh[k],
                    ),
            decreases items@.len() - i,
        {
            let item = items[i].clone();
            let ghost before = after;
            after = match self.add_playback_item(transport, item, after) {
                Ok(id) => id,
                Err(e) => {
                    return Err(e);
                },
            };
            proof {
                assert(inserted_at(*transport, old(self).playlist(), items@[i as int], before, after));
                let f0 = fresh;
                fresh = fresh.push(after);
                assert forall|k: int| 0 <= k < i + 1 implies #[trigger] inserted_at(
                    *transport,
                    old(self).playlist(),
                    items@[k],
                    prev_of(after_id, fresh, k),
                    fresh[k],
                ) by {
                    if k < i {
                        assert(prev_of(after_id, fresh, k) == prev_of(after_id, f0, k));
                        assert(fresh[k] == f0[k]);
                    } else {
                        assert(prev_of(after_id, fresh, k) == before);
                    }
                }
            }
            i = i + 1;
        }
        assert(chain_inserted(*transport, old(self).playlist(), items@, after_id, fresh));
        Ok(())
    }

    /// Adds items to the playlist: at its end, after the current track (at
    /// the end when there is none), or in place of everything.
    pub fn enqueue_items<F: Fn(SoapRequest) -> SoapCallResult>(&mut self, transport: &F, items: Vec<PlaybackItem>, mode: EnqueueMode) -> (r:
        Result<(), ControlPointError>)
        requires
            transport_total(*transport),
            old(self).wf(),
            items_fit(items@),
            items@.len() < usize::MAX - 1,
        ensures
            final(self).wf(),
            final(self).playlist() == old(self).playlist(),
            final(self).product() == old(self).product(),
            final(self).renderer() == old(self).renderer(),
            items@.len() == 0 ==> r is Ok,
            r is Ok && items@.len() > 0 ==> match mode {
                EnqueueMode::AppendToEnd => appended(*transport, old(self).playlist(), old(self).held_ids(), items@),
                EnqueueMode::InsertAfterCurrent => inserted_after_current(
                    *transport,
                    old(self).playlist(),
                    old(self).held_ids(),
                    old(self).held_current(),
                    items@,
                ),
                EnqueueMode::ReplaceAll => exists|reply: SoapCallResult|
                    answered(*transport, old(self).playlist().request("DeleteAll"@, seq![]), reply),
            },
    {
        if items.len() == 0 {
            return Ok(());
        }
        let ghost pl = self.playlist();
        let ghost h0 = self.held_ids();
        let ghost c0 = self.held_current();
        let ghost iv = items@;
        match mode {
            EnqueueMode::AppendToEnd => {
                match self.append_items(transport, items) {
                    Ok(()) => {},
                    Err(e) => {
                        return Err(e);
                    },
                }
            },
            EnqueueMode::InsertAfterCurrent => {
                let current = match self.current_track(transport) {
                    Ok(c) => c,
                    Err(e) => {
                        return Err(e);
                    },
                };
                assert(current_read(*transport, pl, c0, current));
                match current {
                    Some(after) => match self.add_items_after(transport, items, after) {
                        Ok(()) => {
                            assert(inserted_after_current(*transport, pl, h0, c0, iv));
                        },
                        Err(e) => {
                            return Err(e);
                        },
                    },
                    None => {
                        match self.append_items(transport, items) {
                            Ok(()) => {
                                assert(inserted_after_current(*transport, pl, h0, c0, iv));
                            },
                            Err(e) => {
                                return Err(e);
                            },
                        }
                        self.invalidate_track_caches();
                    },
                }
            },
            EnqueueMode::ReplaceAll => {
                return self.replace_queue(transport, items, None);
            },
        }
        self.invalidate_track_caches();
        Ok(())
    }

    /// Adds items after the last track of the playlist.
    fn append_items<F: Fn(SoapRequest) -> SoapCallResult>(&mut self, transport: &F, items: Vec<PlaybackItem>) -> (r: Result<
        (),
        ControlPointError,
    >)
        requires
            transport_total(*transport),
            old(self).wf(),
            items_fit(items@),
        ensures
            final(self).wf(),
            final(self).playlist() == old(self).playlist(),
            final(self).product() == old(self).product(),
            final(self).renderer() == old(self).renderer(),
            r is Ok ==> appended(*transport, old(self).playlist(), old(self).held_ids(), items@),
    {
        let ghost pl = self.playlist();
        let ghost h0 = self.held_ids();
        let ids = match self.track_ids(transport) {
            Ok(ids) => ids,
            Err(e) => {
                return Err(e);
            },
        };
        assert(known_ids(*transport, pl, h0, ids@));
        let after = if ids.len() > 0 {
            ids[ids.len() - 1]
        } else {
            OPENHOME_PLAYLIST_HEAD_ID
        };
        assert(after == last_or_head(ids@));
        let r = self.add_items_after(transport, items, after);
        proof {
            if r is Ok {
                let fresh = choose|fresh: Seq<u32>| #[trigger] chain_inserted(*transport, pl, items@, after, fresh);
                assert(chain_inserted(*transport, pl, items@, last_or_head(ids@), fresh));
            }
        }
        r
    }

    /// Empties the playlist (`DeleteAll`); every short-lived cache is dropped.
    pub fn clear_queue<F: Fn(SoapRequest) -> SoapCallResult>(&mut self, transport: &F) -> (r: Result<(), ControlPointError>)
        requires
            transport_total(*transport),
            old(self).wf(),
        ensures
            final(self).wf(),
            final(self).playlist() == old(self).playlist(),
            final(self).product() == old(self).product(),
            final(self).renderer() == old(self).renderer(),
            r is Ok ==> exists|reply: SoapCallResult|
                answered(*transport, old(self).playlist().request("DeleteAll"@, seq![]), reply) && crate::soap::spec_success(
                    reply,
                ) is Some,
            old(self).product() is None && r is Err ==> refused(*transport, old(self).playlist(), "DeleteAll"@, seq![]),
    {
        match self.ensure_playlist_source_selected(transport) {
            Ok(()) => {},
            Err(e) => {
                return Err(e);
            },
        }
        let ghost pl = self.playlist_client;
        match self.playlist_client.delete_all(transport) {
            Ok(()) => {},
            Err(e) => {
                return Err(e);
            },
        }
        assert(exists|reply: SoapCallResult|
            answered(*transport, pl.request("DeleteAll"@, seq![]), reply) && crate::soap::spec_success(reply) is Some);
        self.invalidate_all_caches();
        Ok(())
    }

    /// Whether the playlist has no track.
    pub fn is_empty<F: Fn(SoapRequest) -> SoapCallResult>(&mut self, transport: &F) -> (r: Result<bool, ControlPointError>)
        requires
            transport_total(*transport),
            old(self).wf(),
        ensures
            final(self).wf(),
            final(self).playlist() == old(self).playlist(),
            final(self).product() == old(self).product(),
            final(self).renderer() == old(self).renderer(),
            r matches Ok(b) ==> exists|ids: Seq<u32>|
                b == (ids.len() == 0) && (listed(*transport, old(self).playlist(), ids) || old(self).held_ids() == Some(ids)),
            held_after(*transport, old(self).playlist(), old(self).held_ids(), final(self).held_ids()),
            old(self).product() is None && r is Err ==> ids_unreadable(*transport, old(self).playlist()),
    {
        match self.track_ids(transport) {
            Ok(ids) => Ok(ids.len() == 0),
            Err(e) => Err(e),
        }
    }

    /// Number of tracks after the current one (all of them without one).
    pub fn upcoming_len<F: Fn(SoapRequest) -> SoapCallResult>(&mut self, transport: &F) -> (r: Result<usize, ControlPointError>)
        requires
            transport_total(*transport),
            old(self).wf(),
        ensures
            final(self).wf(),
            final(self).playlist() == old(self).playlist(),
            r matches Ok(n) ==> exists|ids: Seq<u32>, o: Option<usize>|
                #![trigger known_ids(*transport, old(self).playlist(), old(self).held_ids(), ids), current_reading(*transport, old(self).playlist(), old(self).held_ids(), old(self).held_current(), o)]
                known_ids(*transport, old(self).playlist(), old(self).held_ids(), ids) && current_reading(
                    *transport,
                    old(self).playlist(),
                    old(self).held_ids(),
                    old(self).held_current(),
                    o,
                ) && n == crate::queue::backend::spec_upcoming_len(ids.len(), o),
    {
        let ghost pl = self.playlist();
        let ghost h0 = self.held_ids();
        let ghost c0 = self.held_current();
        let len = match self.len(transport) {
            Ok(n) => n,
            Err(e) => {
                return Err(e);
            },
        };
        let ghost ids = choose|ids: Vec<u32>| ids@.len() == len && (listed(*transport, pl, ids@) || h0 == Some(ids@));
        assert(known_ids(*transport, pl, h0, ids@));
        let ghost h1 = self.held_ids();
        let r = match self.current_index(transport) {
            Ok(None) => {
                proof {
                    lemma_reading_earlier(*transport, pl, h0, h1, c0, None);
                }
                Ok(len)
            },
            Ok(Some(idx)) => {
                proof {
                    lemma_reading_earlier(*transport, pl, h0, h1, c0, Some(idx));
                }
                Ok(crate::queue::backend::remaining_after(len, idx))
            },
            Err(e) => Err(e),
        };
        r
    }

    /// The item at a position of the playlist, read from a snapshot.
    pub fn get_item<F: Fn(SoapRequest) -> SoapCallResult, D: Fn(String) -> EntryDidl>(
        &mut self,
        transport: &F,
        index: usize,
        describe: &D,
    ) -> (r: Result<Option<PlaybackItem>, ControlPointError>)
        requires
            transport_total(*transport),
            old(self).wf(),
            describe_ok(*describe),
        ensures
            final(self).wf(),
            final(self).playlist() == old(self).playlist(),
            final(self).product() == old(self).product(),
            final(self).renderer() == old(self).renderer(),
            r matches Ok(o) ==> o is Some,
    {
        let snapshot = match self.queue_snapshot(transport, describe) {
            Ok(s) => s,
            Err(e) => {
                return Err(e);
            },
        };
        if index < snapshot.items.len() {
            return Ok(Some(snapshot.items[index].clone()));
        }
        let mut text: Vec<char> = Vec::new();
        crate::didl::push_text(&mut text, "get_item index out of bound ");
        crate::text::push_dec(&mut text, index as u64);
        crate::didl::push_text(&mut text, " >= ");
        crate::text::push_dec(&mut text, snapshot.items.len() as u64);
        Err(ControlPointError::QueueError(crate::text::string_from_chars(text.as_slice())))
    }

    /// Replaces the track at a position: the old track is deleted, the item
    /// inserted where it was (and played when the old one was current).
    pub fn replace_item<F: Fn(SoapRequest) -> SoapCallResult>(&mut self, transport: &F, index: usize, item: PlaybackItem) -> (r:
        Result<(), ControlPointError>)
        requires
            transport_total(*transport),
            old(self).wf(),
            meta_fits(item.metadata),
        ensures
            final(self).wf(),
            final(self).playlist() == old(self).playlist(),
            final(self).product() == old(self).product(),
            final(self).renderer() == old(self).renderer(),
            r is Ok ==> exists|ids: Seq<u32>, new_id: u32|
                #![trigger known_ids(*transport, old(self).playlist(), old(self).held_ids(), ids), inserted_at(*transport, old(self).playlist(), item, before_position(ids, index as int), new_id)]
                known_ids(*transport, old(self).playlist(), old(self).held_ids(), ids) && index < ids.len() && deleted(
                    *transport,
                    old(self).playlist(),
                    ids[index as int],
                ) && inserted_at(*transport, old(self).playlist(), item, before_position(ids, index as int), new_id),
    {
        let ghost pl = self.playlist();
        let ghost h0 = self.held_ids();
        let metadata = build_metadata_xml(&item);
        let ids = match self.track_ids(transport) {
            Ok(ids) => ids,
            Err(e) => {
                return Err(e);
            },
        };
        assert(known_ids(*transport, pl, h0, ids@));
        if index >= ids.len() {
            let mut text: Vec<char> = Vec::new();
            crate::didl::push_text(&mut text, "get_item index out of bound ");
            crate::text::push_dec(&mut text, index as u64);
            crate::didl::push_text(&mut text, " >= ");
            crate::text::push_dec(&mut text, ids.len() as u64);
            return Err(ControlPointError::QueueError(crate::text::string_from_chars(text.as_slice())));
        }
        match self.ensure_playlist_source_selected(transport) {
            Ok(()) => {},
            Err(e) => {
                return Err(e);
            },
        }
        let track_id = ids[index];
        let before_id = if index == 0 {
            OPENHOME_PLAYLIST_HEAD_ID
        } else {
            ids[index - 1]
        };
        let ci = match self.current_index(transport) {
            Ok(c) => c,
            Err(e) => {
                return Err(e);
            },
        };
        match self.playlist_client.delete_id(transport, track_id) {
            Ok(()) => {},
            Err(e) => {
                return Err(e);
            },
        }
        assert(deleted(*transport, pl, track_id));
        let new_id = match self.playlist_client.insert(transport, before_id, item.uri.as_str(), metadata.as_str()) {
            Ok(id) => id,
            Err(e) => {
                return Err(e);
            },
        };
        assert(before_id == before_position(ids@, index as int));
        assert(inserted_at(*transport, pl, item, before_position(ids@, index as int), new_id));
        self.caches.forget_metadata(track_id);
        self.caches.forget_uri(track_id);
        self.caches.cache_metadata(new_id, item.metadata, item.uri.as_str());
        if ci == Some(index) {
            match self.playlist_client.seek_id(transport, new_id) {
                Ok(()) => {},
                Err(e) => {
                    return Err(e);
                },
            }
        }
        self.invalidate_track_caches();
        Ok(())
    }

    /// The current item (the first when none is current) and how many tracks
    /// follow it.
    pub fn peek_current<F: Fn(SoapRequest) -> SoapCallResult, D: Fn(String) -> EntryDidl>(&mut self, transport: &F, describe: &D) -> (r:
        Result<Option<(PlaybackItem, usize)>, ControlPointError>)
        requires
            transport_total(*transport),
            old(self).wf(),
            describe_ok(*describe),
        ensures
            final(self).wf(),
            final(self).playlist() == old(self).playlist(),
            r matches Ok(None) ==> exists|ids: Seq<u32>| #[trigger] known_ids(*transport, old(self).playlist(), old(self).held_ids(), ids) && ids.len() == 0,
            r matches Ok(Some((item, n))) ==> exists|ids: Seq<u32>, o: Option<usize>|
                #![trigger known_ids(*transport, old(self).playlist(), old(self).held_ids(), ids), current_reading(*transport, old(self).playlist(), old(self).held_ids(), old(self).held_current(), o)]
                known_ids(*transport, old(self).playlist(), old(self).held_ids(), ids) && ids.len() > 0 && current_reading(*transport, old(self).playlist(), old(self).held_ids(), old(self).held_current(), o) && n == match o {
                    Some(i) => if i < ids.len() {
                        (ids.len() - i - 1) as nat
                    } else {
                        ids.len()
                    },
                    None => ids.len(),
                },
    {
        let ghost pl = self.playlist();
        let ghost h0 = self.held_ids();
        let ghost c0 = self.held_current();
        let len = match self.len(transport) {
            Ok(n) => n,
            Err(e) => {
                return Err(e);
            },
        };
        let ghost ids = choose|ids: Vec<u32>| ids@.len() == len && (listed(*transport, pl, ids@) || h0 == Some(ids@));
        assert(known_ids(*transport, pl, h0, ids@));
        if len == 0 {
            return Ok(None);
        }
        let ghost h1 = self.held_ids();
        let current_idx = match self.current_index(transport) {
            Ok(c) => c,
            Err(e) => {
                return Err(e);
            },
        };
        proof {
            lemma_reading_earlier(*transport, pl, h0, h1, c0, current_idx);
        }
        let resolved: Option<usize> = match current_idx {
            Some(idx) => if idx < len {
                Some(idx)
            } else {
                None
            },
            None => None,
        };
        let item_index: usize = match resolved {
            Some(idx) => idx,
            None => 0,
        };
        let item = match self.get_item(transport, item_index, describe) {
            Ok(Some(item)) => item,
            Ok(None) => {
                return Ok(None);
            },
            Err(e) => {
                return Err(e);
            },
        };
        let remaining = match resolved {
            Some(idx) => crate::queue::backend::remaining_after(len, idx),
            None => len,
        };
        Ok(Some((item, remaining)))
    }

    /// Moves to the next item (the first when none is current) and returns
    /// it with how many tracks follow it; `None` at the end.
    pub fn dequeue_next<F: Fn(SoapRequest) -> SoapCallResult, D: Fn(String) -> EntryDidl>(&mut self, transport: &F, describe: &D) -> (r:
        Result<Option<(PlaybackItem, usize)>, ControlPointError>)
        requires
            transport_total(*transport),
            old(self).wf(),
            describe_ok(*describe),
        ensures
            final(self).wf(),
            final(self).playlist() == old(self).playlist(),
            r matches Ok(None) ==> exists|ids: Seq<u32>|
                #[trigger] known_ids(*transport, old(self).playlist(), old(self).held_ids(), ids) && (ids.len() == 0 || exists|o: Option<usize>|
                    #[trigger] current_reading(*transport, old(self).playlist(), old(self).held_ids(), old(self).held_current(), o) && crate::queue::backend::spec_dequeue_position(ids.len(), o) is None),
            r matches Ok(Some((item, n))) ==> exists|ids: Seq<u32>, o: Option<usize>|
                #![trigger known_ids(*transport, old(self).playlist(), old(self).held_ids(), ids), current_reading(*transport, old(self).playlist(), old(self).held_ids(), old(self).held_current(), o)]
                known_ids(*transport, old(self).playlist(), old(self).held_ids(), ids) && current_reading(*transport, old(self).playlist(), old(self).held_ids(), old(self).held_current(), o) && (crate::queue::backend::spec_dequeue_position(ids.len(), o) matches Some(p) && n
                    == ids.len() - p - 1),
    {
        let ghost pl = self.playlist();
        let ghost h0 = self.held_ids();
        let ghost c0 = self.held_current();
        let len = match self.len(transport) {
            Ok(n) => n,
            Err(e) => {
                return Err(e);
            },
        };
        let ghost ids = choose|ids: Vec<u32>| ids@.len() == len && (listed(*transport, pl, ids@) || h0 == Some(ids@));
        assert(known_ids(*transport, pl, h0, ids@));
        if len == 0 {
            return Ok(None);
        }
        let ghost h1 = self.held_ids();
        let current_idx = match self.current_index(transport) {
            Ok(c) => c,
            Err(e) => {
                return Err(e);
            },
        };
        proof {
            lemma_reading_earlier(*transport, pl, h0, h1, c0, current_idx);
        }
        let next_index: usize = match current_idx {
            None => 0,
            Some(idx) => {
                if idx >= len - 1 {
                    return Ok(None);
                }
                idx + 1
            },
        };
        let item = match self.get_item(transport, next_index, describe) {
            Ok(Some(item)) => item,
            Ok(None) => {
                return Ok(None);
            },
            Err(e) => {
                return Err(e);
            },
        };
        let remaining = crate::queue::backend::remaining_after(len, next_index);
        match self.set_index(transport, Some(next_index)) {
            Ok(()) => {},
            Err(e) => {
                return Err(e);
            },
        }
        Ok(Some((item, remaining)))
    }

    /// Appends items; when the playlist was empty and no longer is, its
    /// first track becomes current.
    pub fn append_or_init_index<F: Fn(SoapRequest) -> SoapCallResult>(&mut self, transport: &F, items: Vec<PlaybackItem>) -> (r:
        Result<(), ControlPointError>)
        requires
            transport_total(*transport),
            old(self).wf(),
            items_fit(items@),
            items@.len() < usize::MAX - 1,
        ensures
            final(self).wf(),
            final(self).playlist() == old(self).playlist(),
            r is Ok && items@.len() > 0 ==> appended(*transport, old(self).playlist(), old(self).held_ids(), items@),
    {
        let ghost pl = self.playlist();
        let ghost h0 = self.held_ids();
        let ghost iv = items@;
        let was_empty = match self.is_empty(transport) {
            Ok(b) => b,
            Err(e) => {
                return Err(e);
            },
        };
        let ghost h1 = self.held_ids();
        match self.enqueue_items(transport, items, EnqueueMode::AppendToEnd) {
            Ok(()) => {
                proof {
                    if iv.len() > 0 {
                        lemma_appended_earlier(*transport, pl, h0, h1, iv);
                    }
                }
            },
            Err(e) => {
                return Err(e);
            },
        }
        if was_empty {
            let now_empty = match self.is_empty(transport) {
                Ok(b) => b,
                Err(e) => {
                    return Err(e);
                },
            };
            if !now_empty {
                match self.set_index(transport, Some(0)) {
                    Ok(()) => {},
                    Err(e) => {
                        return Err(e);
                    },
                }
            }
        }
        Ok(())
    }

    /// Records new metadata for the track at a position: the renderer keeps
    /// its own, the queue serves this one from then on (a stream track's
    /// duration never shrinks).
    pub fn update_item_metadata<F: Fn(SoapRequest) -> SoapCallResult>(
        &mut self,
        transport: &F,
        index: usize,
        metadata: Option<TrackMetadata>,
    ) -> (r: Result<(), ControlPointError>)
        requires
            transport_total(*transport),
            old(self).wf(),
            meta_fits(metadata),
        ensures
            final(self).wf(),
            final(self).playlist() == old(self).playlist(),
            r is Ok ==> exists|id: u32| #[trigger] final(self).metadata_view() == spec_cache_update(
                old(self).metadata_view(),
                id,
                metadata,
            ),
            old(self).product() is None && r is Err ==> ids_unreadable(*transport, old(self).playlist()) || exists|ids: Seq<u32>|
                #[trigger] known_ids(*transport, old(self).playlist(), old(self).held_ids(), ids) && index >= ids.len(),
    {
        let track_id = match self.position_to_id(transport, index) {
            Ok(id) => id,
            Err(e) => {
                return Err(e);
            },
        };
        let ghost m0 = self.caches.metadata_view();
        self.caches.cache_metadata(track_id, metadata, "");
        proof {
            assert(m0 == old(self).metadata_view());
            assert(self.metadata_view() == spec_cache_update(old(self).metadata_view(), track_id, metadata));
        }
        Ok(())
    }

    /// Metadata per playlist id.
    pub closed spec fn metadata_view(&self) -> Map<u32, Option<TrackMetadata>> {
        self.caches.metadata_view()
    }

    /// Synchronisation around the playing track, listed at `playing` and
    /// desired again at `pivot`: the listed items before and after it are
    /// diffed with the desired items before and after it, and the resulting
    /// plan is performed step by step.
    fn replace_queue_with_pivot<F: Fn(SoapRequest) -> SoapCallResult, C: Fn() -> bool>(
        &mut self,
        transport: &F,
        items: &[PlaybackItem],
        current: &[PlaybackItem],
        playing: usize,
        pivot: usize,
        cancelled: &C,
    ) -> (r: Result<(), ControlPointError>)
        requires
            transport_total(*transport),
            forall|u: ()| #[trigger] cancelled.requires(u),
            old(self).wf(),
            items_fit(items@),
            playing < current@.len(),
            pivot < items@.len(),
            current@.len() < u32::MAX,
            items@.len() < usize::MAX,
        ensures
            final(self).wf(),
            final(self).playlist() == old(self).playlist(),
            final(self).product() == old(self).product(),
            final(self).renderer() == old(self).renderer(),
            r is Ok ==> exists|ops: Seq<PlaylistOp>, fresh: Seq<u32>, at: int|
                #[trigger] pivot_plan_at(current@, items@, current@[playing as int].backend_id, pivot as nat, ops, at)
                    && #[trigger] plan_performed(*transport, old(self).playlist(), ops, fresh, items@),
    {
        let ops = match plan_for_pivot(current, playing, items, pivot) {
            Ok(ops) => ops,
            Err(e) => {
                return Err(e);
            },
        };
        let ghost at = choose|at: int| #[trigger] pivot_plan_at(
            current@,
            items@,
            current@[playing as int].backend_id,
            pivot as nat,
            ops@,
            at,
        );
        match run_plan(transport, &self.playlist_client, &mut self.caches, ops.as_slice(), items, cancelled) {
            Ok(fresh) => {
                assert(plan_performed(*transport, self.playlist_client, ops@, fresh@, items@));
                assert(pivot_plan_at(current@, items@, current@[playing as int].backend_id, pivot as nat, ops@, at));
                Ok(())
            },
            Err(e) => Err(e),
        }
    }

    /// Synchronisation when the playing track is not desired any more: every
    /// other track is deleted and the desired items are inserted after it.
    fn replace_queue_preserve_current<F: Fn(SoapRequest) -> SoapCallResult, C: Fn() -> bool>(
        &mut self,
        transport: &F,
        items: &[PlaybackItem],
        playing_id: u32,
        cancelled: &C,
    ) -> (r: Result<(), ControlPointError>)
        requires
            transport_total(*transport),
            forall|u: ()| #[trigger] cancelled.requires(u),
            old(self).wf(),
            items_fit(items@),
        ensures
            final(self).wf(),
            final(self).playlist() == old(self).playlist(),
            final(self).product() == old(self).product(),
            final(self).renderer() == old(self).renderer(),
            r is Ok ==> exists|ids: Seq<u32>, fresh: Seq<u32>|
                (listed(*transport, old(self).playlist(), ids) || old(self).held_ids() == Some(ids))
                    && #[trigger] plan_performed(
                    *transport,
                    old(self).playlist(),
                    spec_preserve_plan(ids, playing_id, items@.len()),
                    fresh,
                    items@,
                ),
    {
        let ids = match self.track_ids(transport) {
            Ok(ids) => ids,
            Err(e) => {
                return Err(e);
            },
        };
        let ops = plan_preserve(ids.as_slice(), playing_id, items.len());
        match run_plan(transport, &self.playlist_client, &mut self.caches, ops.as_slice(), items, cancelled) {
            Ok(fresh) => {
                assert(plan_performed(*transport, self.playlist_client, ops@, fresh@, items@));
                Ok(())
            },
            Err(e) => Err(e),
        }
    }

    /// Synchronisation without a playing track: the listed items are diffed
    /// with the desired ones, the tracks not kept are deleted (all of them
    /// at once when nothing is kept, unless the renderer's current track is
    /// desired), and the desired items not present are inserted in place.
    /// Fails after performing the plan when its bookkeeping does not add up.
    fn replace_queue_standard_lcs<F: Fn(SoapRequest) -> SoapCallResult, C: Fn() -> bool>(
        &mut self,
        transport: &F,
        items: &[PlaybackItem],
        current: &[PlaybackItem],
        cancelled: &C,
    ) -> (r: Result<(), ControlPointError>)
        requires
            transport_total(*transport),
            forall|u: ()| #[trigger] cancelled.requires(u),
            old(self).wf(),
            items_fit(items@),
            current@.len() < u32::MAX,
            items@.len() < usize::MAX,
        ensures
            final(self).wf(),
            final(self).playlist() == old(self).playlist(),
            final(self).product() == old(self).product(),
            final(self).renderer() == old(self).renderer(),
            r is Ok ==> exists|track: Option<u32>, fresh: Seq<u32>|
                #[trigger] plan_performed(
                    *transport,
                    old(self).playlist(),
                    standard_plan_for(current@, items@, track).0,
                    fresh,
                    items@,
                ) && standard_plan_for(current@, items@, track).1 is None,
    {
        let track = match self.playlist_client.id(transport) {
            Ok(id) => if id != 0 {
                Some(id)
            } else {
                None
            },
            Err(_) => None,
        };
        let plan = plan_for_standard(current, items, track);
        match run_plan(transport, &self.playlist_client, &mut self.caches, plan.ops.as_slice(), items, cancelled) {
            Ok(fresh) => {
                assert(plan_performed(*transport, self.playlist_client, plan.ops@, fresh@, items@));
                assert(standard_plan_for(current@, items@, track).0 == plan.ops@);
                match plan.failure {
                    Some(f) => Err(ControlPointError::OpenHomeError(f)),
                    None => {
                        assert(standard_plan_for(current@, items@, track).1 is None);
                        assert(plan_performed(
                            *transport,
                            self.playlist_client,
                            standard_plan_for(current@, items@, track).0,
                            fresh@,
                            items@,
                        ));
                        assert(self.playlist_client == old(self).playlist());
                        assert(exists|t: Option<u32>, fr: Seq<u32>|
                            #[trigger] plan_performed(
                                *transport,
                                old(self).playlist(),
                                standard_plan_for(current@, items@, t).0,
                                fr,
                                items@,
                            ) && standard_plan_for(current@, items@, t).1 is None);
                        Ok(())
                    },
                }
            },
            Err(e) => Err(e),
        }
    }

    /// Makes the playlist hold the desired items with few operations:
    /// - nothing desired: `DeleteAll`;
    /// - the items only extend the playlist, or it only lost its tail (by the
    ///   cached metadata and URIs): insert the new items at the end, or delete
    ///   the tail;
    /// - otherwise, from a snapshot: around a playing item that stays desired,
    ///   diff both sides and keep it in place; around a playing item no longer
    ///   desired, keep it first and insert the items after it; with nothing
    ///   listed, append the items; without a playing item, diff the whole
    ///   playlist.
    /// Cancellation is checked before each playlist operation.
    #[verifier::spinoff_prover]
    pub fn sync_queue<F: Fn(SoapRequest) -> SoapCallResult, C: Fn() -> bool, D: Fn(String) -> EntryDidl>(
        &mut self,
        transport: &F,
        items: Vec<PlaybackItem>,
        cancelled: &C,
        describe: &D,
    ) -> (r: Result<(), ControlPointError>)
        requires
            transport_total(*transport),
            forall|u: ()| #[trigger] cancelled.requires(u),
            describe_ok(*describe),
            old(self).wf(),
            items_fit(items@),
            items@.len() < usize::MAX - 1,
        ensures
            final(self).wf(),
            final(self).playlist() == old(self).playlist(),
            final(self).product() == old(self).product(),
            final(self).renderer() == old(self).renderer(),
            items@.len() == 0 && r is Ok ==> exists|reply: SoapCallResult|
                answered(*transport, old(self).playlist().request("DeleteAll"@, seq![]), reply)
                    && crate::soap::spec_success(reply) is Some,
            items@.len() > 0 && r is Ok ==> synced(*transport, old(self).playlist(), old(self).held_ids(), items@),
            r is Ok ==> (old(self).product() matches Some(c) ==> source_selection(*transport, c, true)),
    {
        match self.ensure_playlist_source_selected(transport) {
            Ok(()) => {},
            Err(e) => {
                return Err(e);
            },
        }
        if cancelled() {
            return Err(ControlPointError::SyncCancelled);
        }
        if items.len() == 0 {
            let ghost pl = self.playlist_client;
            match self.playlist_client.delete_all(transport) {
                Ok(()) => {},
                Err(e) => {
                    return Err(e);
                },
            }
            assert(exists|reply: SoapCallResult|
                answered(*transport, pl.request("DeleteAll"@, seq![]), reply) && crate::soap::spec_success(reply) is Some);
            self.caches.clear_metadata();
            self.invalidate_all_caches();
            return Ok(());
        }
        let ghost pl = self.playlist();
        let ghost h0 = self.held_ids();
        let ghost mut ids1: Seq<u32> = Seq::empty();
        let fast = match self.track_ids(transport) {
            Ok(ids) => {
                proof {
                    ids1 = ids@;
                }
                self.caches.try_fast_path(ids.as_slice(), items.as_slice())
            },
            Err(_) => FastPathResult::NeedFullSync,
        };
        let ghost h1 = self.held_ids();
        assert(held_after(*transport, pl, h0, h1));
        assert(!(fast is NeedFullSync) ==> known_ids(*transport, pl, h0, ids1));
        match fast {
            FastPathResult::AppendOnly { new_items } => {
                assert(items@.len() > ids1.len() && new_items@ == items@.skip(ids1.len() as int));
                let ids = match self.track_ids(transport) {
                    Ok(ids) => ids,
                    Err(e) => {
                        return Err(e);
                    },
                };
                proof {
                    lemma_known_before(*transport, pl, h0, h1, ids@);
                }
                let after = if ids.len() > 0 {
                    Anchor::Existing(ids[ids.len() - 1])
                } else {
                    Anchor::Head
                };
                proof {
                    assert forall|i: int| 0 <= i < new_items@.len() implies meta_fits(#[trigger] new_items@[i].metadata) by {
                        assert(new_items@[i] == items@[i + (items@.len() - new_items@.len())]);
                    }
                }
                assert(after == tail_anchor(ids@));
                match self.insert_chain(transport, new_items.as_slice(), after, true, cancelled) {
                    Ok(fresh) => {
                        proof {
                            assert(plan_performed(
                                *transport,
                                pl,
                                chain_plan(tail_anchor(ids@), (items@.len() - ids1.len()) as nat, true),
                                fresh@,
                                items@.skip(ids1.len() as int),
                            ));
                            assert(synced(*transport, pl, h0, items@));
                        }
                    },
                    Err(e) => {
                        return Err(e);
                    },
                }
                self.invalidate_track_caches();
                return Ok(());
            },
            FastPathResult::DeleteFromEnd { delete_ids } => {
                assert(items@.len() < ids1.len() && delete_ids@ == ids1.skip(items@.len() as int));
                let mut ops: Vec<PlaylistOp> = Vec::new();
                let mut k: usize = delete_ids.len();
                while k > 0
                    invariant
                        k <= delete_ids@.len(),
                        ops@.len() == delete_ids@.len() - k,
                        forall|i: int| 0 <= i < ops@.len() ==> (#[trigger] ops@[i]) is DeleteStrict,
                        forall|i: int| 0 <= i < ops@.len() ==> #[trigger] ops@[i] == PlaylistOp::DeleteStrict(
                            delete_ids@[delete_ids@.len() - 1 - i],
                        ),
                    decreases k,
                {
                    ops.push(PlaylistOp::DeleteStrict(delete_ids[k - 1]));
                    k = k - 1;
                }
                proof {
                    assert forall|i: int| 0 <= i < ops@.len() implies crate::queue::openhome_sync::op_wf(
                        #[trigger] ops@[i],
                        crate::queue::openhome_sync::count_inserts(ops@.take(i)),
                        items@.len(),
                    ) by {
                        assert(ops@[i] is DeleteStrict);
                    }
                }
                proof {
                    assert(ops@ =~= delete_tail_plan(ids1, items@.len()));
                }
                match run_plan(transport, &self.playlist_client, &mut self.caches, ops.as_slice(), items.as_slice(), cancelled) {
                    Ok(fresh) => {
                        proof {
                            assert(plan_performed(*transport, pl, delete_tail_plan(ids1, items@.len()), fresh@, items@));
                            assert(synced(*transport, pl, h0, items@));
                        }
                    },
                    Err(e) => {
                        return Err(e);
                    },
                }
                self.invalidate_all_caches();
                return Ok(());
            },
            FastPathResult::NeedFullSync => {},
        }
        let snapshot = match self.queue_snapshot(transport, describe) {
            Ok(s) => s,
            Err(e) => {
                return Err(e);
            },
        };
        let ghost h2 = self.held_ids();
        proof {
            let ids_s = choose|ids: Seq<u32>| #[trigger] known_ids(*transport, pl, h1, ids);
            lemma_known_before(*transport, pl, h0, h1, ids_s);
            lemma_held_after_trans(*transport, pl, h0, h1, h2);
            assert(exists|ids: Seq<u32>| #[trigger] known_ids(*transport, pl, h0, ids));
        }
        if snapshot.items.len() >= 0xffff_ffff {
            return Err(ControlPointError::OpenHomeError(msg("OpenHome playlist too long to diff")));
        }
        match choose_full_sync(snapshot.items.as_slice(), snapshot.current_index, items.as_slice()) {
            FullSync::Pivot { playing, pivot } => {
                match self.replace_queue_with_pivot(
                    transport,
                    items.as_slice(),
                    snapshot.items.as_slice(),
                    playing,
                    pivot,
                    cancelled,
                ) {
                    Ok(()) => {
                        proof {
                            assert(full_synced(*transport, pl, h0, items@));
                        }
                    },
                    Err(e) => {
                        return Err(e);
                    },
                }
            },
            FullSync::Preserve { playing } => {
                let playing_id = snapshot.items[playing].backend_id as u32;
                match self.replace_queue_preserve_current(transport, items.as_slice(), playing_id, cancelled) {
                    Ok(()) => {
                        proof {
                            let (ids, fresh) = choose|ids: Seq<u32>, fresh: Seq<u32>|
                                (listed(*transport, pl, ids) || h2 == Some(ids)) && #[trigger] plan_performed(
                                    *transport,
                                    pl,
                                    spec_preserve_plan(ids, playing_id, items@.len()),
                                    fresh,
                                    items@,
                                );
                            lemma_known_before(*transport, pl, h0, h2, ids);
                            assert(full_synced(*transport, pl, h0, items@));
                        }
                    },
                    Err(e) => {
                        return Err(e);
                    },
                }
            },
            FullSync::AppendAll => {
                let ghost iv = items@;
                let r = self.enqueue_items(transport, items, EnqueueMode::AppendToEnd);
                proof {
                    if r is Ok {
                        assert(appended(*transport, pl, h2, iv));
                        assert(full_synced(*transport, pl, h0, iv));
                    }
                }
                return r;
            },
            FullSync::Standard => {
                match self.replace_queue_standard_lcs(transport, items.as_slice(), snapshot.items.as_slice(), cancelled) {
                    Ok(()) => {
                        proof {
                            assert(full_synced(*transport, pl, h0, items@));
                        }
                    },
                    Err(e) => {
                        return Err(e);
                    },
                }
            },
        }
        self.invalidate_track_caches();
        Ok(())
    }
}

/// What the DIDL-Lite of a playlist entry says of its track: its metadata,
/// and the id of its item.
#[derive(Debug, Clone)]
pub struct EntryDidl {
    pub metadata: Option<TrackMetadata>,
    pub item_id: Option<String>,
}

/// `describe` reads any DIDL-Lite, and the durations it gives read without
/// overflow.
pub open spec fn describe_ok<D: Fn(String) -> EntryDidl>(describe: D) -> bool {
    &&& forall|x: String| #[trigger] describe.requires((x,))
    &&& forall|x: String, d: EntryDidl| #[trigger] describe.ensures((x,), d) ==> meta_fits(d.metadata)
}

/// `openhome:<id>`.
fn openhome_id(id: u32) -> (r: String)
    ensures
        r@ == "openhome:"@ + crate::text::dec(id as nat),
{
    let mut text: Vec<char> = Vec::new();
    crate::didl::push_text(&mut text, "openhome:");
    crate::text::push_dec(&mut text, id as u64);
    crate::text::string_from_chars(text.as_slice())
}

/// Moves the entries of `more` to the end of `entries`.
fn append_entries(entries: &mut Vec<OhTrackEntry>, more: Vec<OhTrackEntry>)
    ensures
        final(entries)@ == old(entries)@ + more@,
{
    let mut more = more;
    entries.append(&mut more);
}

/// The insertions of a chain of `n` items after `after`.
pub open spec fn chain_plan(after: Anchor, n: nat, uri_only: bool) -> Seq<PlaylistOp> {
    Seq::new(n, |k: int| chain_op(after, k, uri_only))
}

/// The `k`-th insertion of a chain after `after`.
pub open spec fn chain_op(after: Anchor, k: int, uri_only: bool) -> PlaylistOp {
    let anchor = if k == 0 {
        after
    } else {
        Anchor::Inserted((k - 1) as usize)
    };
    if uri_only {
        PlaylistOp::Append(anchor, k as usize)
    } else {
        PlaylistOp::Insert(anchor, k as usize)
    }
}

proof fn lemma_chain_count(ops: Seq<PlaylistOp>, after: Anchor, uri_only: bool)
    requires
        forall|k: int| 0 <= k < ops.len() ==> #[trigger] ops[k] == chain_op(after, k, uri_only),
    ensures
        crate::queue::openhome_sync::count_inserts(ops) == ops.len(),
    decreases ops.len(),
{
    if ops.len() > 0 {
        let rest = ops.drop_first();
        assert forall|k: int| 0 <= k < rest.len() implies #[trigger] rest[k] == chain_op_shift(after, k, uri_only) by {
            assert(rest[k] == ops[k + 1]);
        }
        lemma_shift_count(rest, after, uri_only);
    }
}

/// The `k`-th operation of a chain seen from its second operation on.
pub open spec fn chain_op_shift(after: Anchor, k: int, uri_only: bool) -> PlaylistOp {
    chain_op(after, k + 1, uri_only)
}

proof fn lemma_shift_count(ops: Seq<PlaylistOp>, after: Anchor, uri_only: bool)
    requires
        forall|k: int| 0 <= k < ops.len() ==> #[trigger] ops[k] == chain_op_shift(after, k, uri_only),
    ensures
        crate::queue::openhome_sync::count_inserts(ops) == ops.len(),
    decreases ops.len(),
{
    if ops.len() > 0 {
        let rest = ops.drop_first();
        assert forall|k: int| 0 <= k < rest.len() implies #[trigger] rest[k] == chain_op_shift(after, k + 1, uri_only) by {
            assert(rest[k] == ops[k + 1]);
        }
        assert(crate::queue::openhome_sync::inserts(ops[0]));
        lemma_shift_count_from(rest, after, uri_only, 1);
    }
}

proof fn lemma_shift_count_from(ops: Seq<PlaylistOp>, after: Anchor, uri_only: bool, d: int)
    requires
        d >= 0,
        forall|k: int| 0 <= k < ops.len() ==> #[trigger] ops[k] == chain_op_shift(after, k + d, uri_only),
    ensures
        crate::queue::openhome_sync::count_inserts(ops) == ops.len(),
    decreases ops.len(),
{
    if ops.len() > 0 {
        let rest = ops.drop_first();
        assert forall|k: int| 0 <= k < rest.len() implies #[trigger] rest[k] == chain_op_shift(after, k + (d + 1), uri_only) by {
            assert(rest[k] == ops[k + 1]);
        }
        assert(ops[0] == chain_op_shift(after, d, uri_only));
        lemma_shift_count_from(rest, after, uri_only, d + 1);
    }
}

proof fn lemma_chain_wf(ops: Seq<PlaylistOp>, after: Anchor, uri_only: bool, n: nat)
    requires
        ops.len() == n,
        forall|k: int| 0 <= k < ops.len() ==> #[trigger] ops[k] == chain_op(after, k, uri_only),
        !(after is Inserted),
    ensures
        crate::queue::openhome_sync::plan_wf(ops, n),
{
    assert forall|i: int| 0 <= i < ops.len() implies crate::queue::openhome_sync::op_wf(
        #[trigger] ops[i],
        crate::queue::openhome_sync::count_inserts(ops.take(i)),
        n,
    ) by {
        let t = ops.take(i);
        assert forall|k: int| 0 <= k < t.len() implies #[trigger] t[k] == chain_op(after, k, uri_only) by {}
        lemma_chain_count(t, after, uri_only);
        assert(ops[i] == chain_op(after, i, uri_only));
    }
}

} // verus!
