//! Properties of the local queue that span several operations.
use crate::queue::backend::{spec_next_index, spec_previous_index};
use crate::queue::durations::spec_duration_decreased;
use crate::queue::interne::{
    first_with_didl, first_with_uri, lemma_stream_ref, protect, protect_item, relocate, settle_index, spec_enqueue,
    spec_sync, stream_ref,
};
use crate::queue::backend::EnqueueMode;
use crate::queue::snapshot::PlaybackItem;
use crate::text::opt_view;
use vstd::prelude::*;

verus! {

/// What `first_with_uri` finds carries the URI.
proof fn lemma_first_with_uri(s: Seq<PlaybackItem>, uri: Seq<char>, i: int)
    requires
        0 <= i,
    ensures
        first_with_uri(s, uri, i) matches Some(k) ==> i <= k < s.len() && s[k].uri@ == uri,
    decreases s.len() - i,
{
    if i < s.len() && s[i].uri@ != uri {
        lemma_first_with_uri(s, uri, i + 1);
    }
}

/// What `first_with_didl` finds carries the DIDL id.
proof fn lemma_first_with_didl(s: Seq<PlaybackItem>, didl: Seq<char>, i: int)
    requires
        0 <= i,
    ensures
        first_with_didl(s, didl, i) matches Some(k) ==> i <= k < s.len() && s[k].didl_id@ == didl,
    decreases s.len() - i,
{
    if i < s.len() && s[i].didl_id@ != didl {
        lemma_first_with_didl(s, didl, i + 1);
    }
}

/// Protection only ever touches the metadata of an item.
proof fn lemma_protect_keeps_identity(old: Seq<PlaybackItem>, item: PlaybackItem)
    ensures
        protect_item(old, item).uri == item.uri,
        protect_item(old, item).didl_id == item.didl_id,
        protect_item(old, item).media_server_id == item.media_server_id,
{
}

/// After any structural change, a non-empty queue has a current item, and
/// the current index always designates an item.
pub proof fn law_settled_index_designates_item(len: nat, idx: Option<usize>)
    ensures
        settle_index(len, idx) matches Some(i) ==> i < len,
        len > 0 ==> settle_index(len, idx) is Some,
        len == 0 ==> settle_index(len, idx) is None,
{
}

/// Synchronising a queue with a non-empty list keeps the current track
/// current: the new current item has the URI or the DIDL id of the old
/// current item, or is that item itself, kept first.
pub proof fn law_sync_keeps_current_track(items: Seq<PlaybackItem>, ci: usize, new: Seq<PlaybackItem>)
    requires
        ci < items.len(),
        new.len() > 0,
        new.len() < usize::MAX,
    ensures
        ({
            let (ni, nidx) = spec_sync(items, Some(ci), new);
            nidx matches Some(k) && k < ni.len() && (ni[k as int].uri@ == items[ci as int].uri@
                || ni[k as int].didl_id@ == items[ci as int].didl_id@)
        }),
{
    let p = protect(items, new);
    let cur = items[ci as int];
    lemma_first_with_uri(p, cur.uri@, 0);
    lemma_first_with_didl(p, cur.didl_id@, 0);
    match relocate(p, cur) {
        Some(k) => {
            assert(0 <= k < p.len());
            assert(p[k].uri@ == cur.uri@ || p[k].didl_id@ == cur.didl_id@);
        },
        None => {
            let ni = seq![cur] + p;
            assert(ni[0] == cur);
        },
    }
}

/// Synchronising with an empty list empties the queue.
pub proof fn law_sync_with_nothing_empties(items: Seq<PlaybackItem>, idx: Option<usize>)
    ensures
        spec_sync(items, idx, Seq::empty()) == (Seq::<PlaybackItem>::empty(), None::<usize>),
{
}

/// Synchronising keeps the tracks it is given, in order: apart from a kept
/// current item in front, the queue holds the new items, with the same URIs
/// and DIDL ids.
pub proof fn law_sync_keeps_new_tracks(items: Seq<PlaybackItem>, idx: Option<usize>, new: Seq<PlaybackItem>)
    ensures
        ({
            let ni = spec_sync(items, idx, new).0;
            let off = ni.len() - new.len();
            &&& off == 0 || off == 1
            &&& forall|i: int| 0 <= i < new.len() ==> (#[trigger] ni[i + off]).uri == new[i].uri
                && ni[i + off].didl_id == new[i].didl_id
        }),
{
    assert forall|i: int| 0 <= i < new.len() implies #[trigger] protect(items, new)[i].uri == new[i].uri
        && protect(items, new)[i].didl_id == new[i].didl_id by {
        lemma_protect_keeps_identity(items, new[i]);
    }
}

/// The known duration of a stream track never shrinks: when a new item is
/// the same stream track (same URI, title and artist) as a known stream
/// item, the duration it ends up with is never shorter than the known one.
pub proof fn law_stream_duration_never_shrinks(old: Seq<PlaybackItem>, new: Seq<PlaybackItem>, i: int)
    requires
        0 <= i < new.len(),
        stream_ref(old, new[i].uri@) is Some,
        new[i].metadata is Some,
        new[i].metadata->0.is_continuous_stream,
        new[i].metadata->0.duration is Some,
        ({
            let j = stream_ref(old, new[i].uri@)->0;
            let om = old[j].metadata->0;
            let m = new[i].metadata->0;
            opt_view(&m.title) == opt_view(&om.title) && opt_view(&m.artist) == opt_view(&om.artist)
        }),
    ensures
        ({
            let j = stream_ref(old, new[i].uri@)->0;
            let known = old[j].metadata->0.duration->0;
            let r = protect(old, new)[i];
            r.metadata is Some && r.metadata->0.duration is Some
                && !spec_duration_decreased(known@, r.metadata->0.duration->0@)
        }),
{
    let p = protect(old, new);
    lemma_stream_ref(old, new[i].uri@);
    assert(p[i] == protect_item(old, new[i]));
    let j = stream_ref(old, new[i].uri@)->0;
    let om = old[j].metadata->0;
    let m = new[i].metadata->0;
    if om.duration is Some && spec_duration_decreased(om.duration->0@, m.duration->0@) {
        assert(p[i].metadata->0.duration == om.duration);
    } else {
        assert(p[i] == new[i]);
    }
}

/// Appending keeps the queue in front and the current index where it was.
pub proof fn law_append_keeps_prefix(items: Seq<PlaybackItem>, ci: usize, new: Seq<PlaybackItem>)
    requires
        ci < items.len(),
    ensures
        ({
            let (ni, nidx) = spec_enqueue(items, Some(ci), new, EnqueueMode::AppendToEnd);
            ni.take(items.len() as int) == items && nidx == Some(ci) && ni.len() == items.len() + new.len()
        }),
{
    let (ni, nidx) = spec_enqueue(items, Some(ci), new, EnqueueMode::AppendToEnd);
    assert(ni.take(items.len() as int) =~= items);
}

/// Inserting after the current item keeps the current item current, and the
/// new items follow it directly.
pub proof fn law_insert_after_current(items: Seq<PlaybackItem>, ci: usize, new: Seq<PlaybackItem>)
    requires
        ci < items.len(),
    ensures
        ({
            let (ni, nidx) = spec_enqueue(items, Some(ci), new, EnqueueMode::InsertAfterCurrent);
            &&& nidx == Some(ci)
            &&& ni[ci as int] == items[ci as int]
            &&& ni.len() == items.len() + new.len()
            &&& forall|k: int| 0 <= k < new.len() ==> (#[trigger] ni[ci + 1 + k]).uri == new[k].uri
        }),
{
    let p = protect(items, new);
    let pos = (ci + 1) as int;
    let all = items.take(pos) + p + items.skip(pos);
    assert(all[ci as int] == items[ci as int]);
    assert forall|k: int| 0 <= k < new.len() implies #[trigger] all[ci + 1 + k].uri == new[k].uri by {
        assert(all[ci + 1 + k] == p[k]);
        lemma_protect_keeps_identity(items, new[k]);
    }
}

/// Moving forward then back returns to the same index.
pub proof fn law_advance_then_rewind(len: nat, i: usize)
    requires
        i + 1 < len,
        len <= usize::MAX,
    ensures
        spec_next_index(len, Some(i)) == Some((i + 1) as usize),
        spec_previous_index(spec_next_index(len, Some(i))) == Some(i),
{
}

/// Moving back then forward returns to the same index.
pub proof fn law_rewind_then_advance(len: nat, i: usize)
    requires
        0 < i < len,
    ensures
        spec_previous_index(Some(i)) == Some((i - 1) as usize),
        spec_next_index(len, spec_previous_index(Some(i))) == Some(i),
{
}

} // verus!
