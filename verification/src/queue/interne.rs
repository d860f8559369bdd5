//! Internal (local) queue: a list of items and an optional current index,
//! fully managed by the control point. It never starts playback.
use crate::error::{error_text, msg, msg_num, msg_nums, ControlPointError};
use crate::text::dec;
use crate::model::{DeviceId, RendererInfo, TrackMetadata};
use crate::queue::backend::{
    erase_id, erase_ids, items_after, remaining_after, spec_dequeue_position, spec_upcoming,
    spec_upcoming_len, EnqueueMode, QueueBackend,
};
use crate::queue::durations::{duration_decreased, spec_duration_decreased};
use crate::queue::snapshot::{clone_items, PlaybackItem, QueueSnapshot};
use crate::text::{opt_string_eq, opt_view, string_eq};
use vstd::prelude::*;

verus! {

/// Index of the last item of `old` that is a continuous stream with a known
/// duration and the URI `uri`.
pub open spec fn stream_ref(old: Seq<PlaybackItem>, uri: Seq<char>) -> Option<int>
    decreases old.len(),
{
    if old.len() == 0 {
        None
    } else if old.last().uri@ == uri && old.last().metadata is Some
        && old.last().metadata->0.is_continuous_stream && old.last().metadata->0.duration is Some {
        Some(old.len() - 1)
    } else {
        stream_ref(old.drop_last(), uri)
    }
}

/// What `stream_ref` finds is such a stream item.
pub proof fn lemma_stream_ref(old: Seq<PlaybackItem>, uri: Seq<char>)
    ensures
        stream_ref(old, uri) matches Some(j) ==> 0 <= j < old.len() && old[j].uri@ == uri
            && old[j].metadata is Some && old[j].metadata->0.is_continuous_stream
            && old[j].metadata->0.duration is Some,
    decreases old.len(),
{
    if old.len() > 0 {
        lemma_stream_ref(old.drop_last(), uri);
    }
}

/// `item`, whose stream duration is put back to the known one when it is the
/// same stream track (same URI, title and artist) and its duration shrank.
pub open spec fn protect_item(old: Seq<PlaybackItem>, item: PlaybackItem) -> PlaybackItem {
    match (item.metadata, stream_ref(old, item.uri@)) {
        (Some(m), Some(j)) => {
            let om = old[j].metadata->0;
            if m.is_continuous_stream && opt_view(&m.title) == opt_view(&om.title) && opt_view(&m.artist)
                == opt_view(&om.artist) && m.duration is Some && spec_duration_decreased(
                om.duration->0@,
                m.duration->0@,
            ) {
                PlaybackItem {
                    metadata: Some(TrackMetadata { duration: om.duration, ..m }),
                    ..item
                }
            } else {
                item
            }
        },
        _ => item,
    }
}

/// The new items with their stream durations protected against `old`.
pub open spec fn protect(old: Seq<PlaybackItem>, new: Seq<PlaybackItem>) -> Seq<PlaybackItem> {
    Seq::new(new.len(), |i: int| protect_item(old, new[i]))
}

/// The current index after a structural change: kept when in range, and the
/// first item made current when the queue is not empty.
pub open spec fn settle_index(len: nat, idx: Option<usize>) -> Option<usize> {
    let kept = match idx {
        Some(i) => if i < len {
            Some(i)
        } else {
            None
        },
        None => None,
    };
    if len > 0 && kept is None {
        Some(0usize)
    } else {
        kept
    }
}

/// Position of the first item with the given URI.
pub open spec fn first_with_uri(s: Seq<PlaybackItem>, uri: Seq<char>, i: int) -> Option<int>
    decreases s.len() - i,
{
    if i < 0 || i >= s.len() {
        None
    } else if s[i].uri@ == uri {
        Some(i)
    } else {
        first_with_uri(s, uri, i + 1)
    }
}

/// Position of the first item with the given DIDL id.
pub open spec fn first_with_didl(s: Seq<PlaybackItem>, didl: Seq<char>, i: int) -> Option<int>
    decreases s.len() - i,
{
    if i < 0 || i >= s.len() {
        None
    } else if s[i].didl_id@ == didl {
        Some(i)
    } else {
        first_with_didl(s, didl, i + 1)
    }
}

/// Where the current item lands in the new list: first by URI, then by DIDL id.
pub open spec fn relocate(new: Seq<PlaybackItem>, cur: PlaybackItem) -> Option<int> {
    match first_with_uri(new, cur.uri@, 0) {
        Some(k) => Some(k),
        None => first_with_didl(new, cur.didl_id@, 0),
    }
}

/// Items and current index after a synchronisation with `new`.
pub open spec fn spec_sync(items: Seq<PlaybackItem>, idx: Option<usize>, new: Seq<PlaybackItem>) -> (Seq<PlaybackItem>, Option<usize>) {
    if new.len() == 0 {
        (Seq::empty(), None)
    } else {
        let p = protect(items, new);
        match idx {
            Some(ci) => if ci < items.len() {
                match relocate(p, items[ci as int]) {
                    Some(k) => (p, Some(k as usize)),
                    None => (seq![items[ci as int]] + p, Some(0usize)),
                }
            } else {
                (p, settle_index(p.len(), None))
            },
            None => (p, settle_index(p.len(), None)),
        }
    }
}

/// Position where `InsertAfterCurrent` inserts.
pub open spec fn insert_position(len: nat, idx: Option<usize>) -> nat {
    match idx {
        Some(i) => if i + 1 <= len {
            (i + 1) as nat
        } else {
            len
        },
        None => 0,
    }
}

/// Items and current index after enqueuing `new` with `mode`.
pub open spec fn spec_enqueue(items: Seq<PlaybackItem>, idx: Option<usize>, new: Seq<PlaybackItem>, mode: EnqueueMode) -> (Seq<PlaybackItem>, Option<usize>) {
    let p = protect(items, new);
    match mode {
        EnqueueMode::AppendToEnd => (items + p, settle_index((items + p).len(), idx)),
        EnqueueMode::InsertAfterCurrent => {
            let pos = insert_position(items.len(), idx) as int;
            let all = items.take(pos) + p + items.skip(pos);
            (all, settle_index(all.len(), idx))
        },
        EnqueueMode::ReplaceAll => (p, settle_index(p.len(), None)),
    }
}

/// The items of a snapshot: the queue's items numbered by position.
pub open spec fn numbered(items: Seq<PlaybackItem>) -> Seq<PlaybackItem> {
    Seq::new(items.len(), |i: int| PlaybackItem { backend_id: i as usize, ..items[i] })
}

/// Metadata merged for a stream: for the same stream track (same title and
/// artist) whose duration shrank, the old metadata stays; otherwise the new
/// metadata is taken.
pub open spec fn spec_merge_metadata(old: Option<TrackMetadata>, new: Option<TrackMetadata>) -> Option<TrackMetadata> {
    match (old, new) {
        (Some(o), Some(n)) => if n.is_continuous_stream && opt_view(&o.title) == opt_view(&n.title)
            && opt_view(&o.artist) == opt_view(&n.artist) && o.duration is Some && n.duration is Some
            && spec_duration_decreased(o.duration->0@, n.duration->0@) {
            Some(o)
        } else {
            Some(n)
        },
        (_, n) => n,
    }
}

/// Internal/local queue: a list of items and an optional current index.
#[derive(Debug)]
pub struct InternalQueue {
    renderer_id: DeviceId,
    items: Vec<PlaybackItem>,
    current_index: Option<usize>,
}

impl InternalQueue {
    /// The current index always designates an item.
    #[verifier::type_invariant]
    spec fn index_in_range(&self) -> bool {
        match self.current_index {
            Some(i) => i < self.items@.len(),
            None => true,
        }
    }

    /// The items of the queue.
    pub closed spec fn items_view(&self) -> Seq<PlaybackItem> {
        self.items@
    }

    /// The current index.
    pub closed spec fn index_view(&self) -> Option<usize> {
        self.current_index
    }

    /// The renderer the queue belongs to.
    pub closed spec fn renderer_view(&self) -> DeviceId {
        self.renderer_id
    }

    /// The current index designates an item of the queue.
    pub open spec fn index_ok(&self) -> bool {
        match self.index_view() {
            Some(i) => i < self.items_view().len(),
            None => true,
        }
    }

    /// The index of a queue always designates one of its items.
    pub fn check_index(&self)
        ensures
            self.index_ok(),
    {
        proof {
            use_type_invariant(self);
        }
    }

    /// Creates an empty internal queue.
    pub fn new(renderer_id: DeviceId) -> (r: Self)
        ensures
            r.items_view() == Seq::<PlaybackItem>::empty(),
            r.index_view() is None,
            r.renderer_view() == renderer_id,
    {
        Self { renderer_id, items: Vec::new(), current_index: None }
    }

    /// An empty queue for a renderer.
    pub fn from_renderer_info(info: &RendererInfo) -> (r: Result<InternalQueue, ControlPointError>)
        ensures
            r matches Ok(q) && q.items_view() == Seq::<PlaybackItem>::empty() && q.index_view() is None
                && q.renderer_view() == info.id,
    {
        Ok(InternalQueue::new(info.id()))
    }

    /// Read-only view of the items.
    pub fn items(&self) -> (r: &[PlaybackItem])
        ensures
            r@ == self.items_view(),
    {
        self.items.as_slice()
    }

    /// Makes the first item current when there are items and none is current.
    fn ensure_current_index_invariant(&mut self)
        ensures
            final(self).items_view() == old(self).items_view(),
            final(self).renderer_view() == old(self).renderer_view(),
            final(self).index_view() == settle_index(old(self).items_view().len(), old(self).index_view()),
    {
        proof {
            use_type_invariant(&*self);
        }
        if self.items.len() > 0 && self.current_index.is_none() {
            self.current_index = Some(0);
        }
    }

    /// Whether a duration decreased (three-piece `H:M:S` texts).
    pub fn duration_decreased(old_duration: &str, new_duration: &str) -> (r: bool)
        ensures
            r == spec_duration_decreased(old_duration@, new_duration@),
    {
        duration_decreased(old_duration, new_duration)
    }

    /// Index of the last stream item of the queue with a known duration and
    /// the given URI.
    fn find_stream_ref(&self, uri: &String) -> (r: Option<usize>)
        ensures
            match r {
                Some(j) => stream_ref(self.items_view(), uri@) == Some(j as int) && j < self.items_view().len(),
                None => stream_ref(self.items_view(), uri@) is None,
            },
    {
        let mut k: usize = self.items.len();
        proof {
            assert(self.items@.take(k as int) =~= self.items@);
        }
        while k > 0
            invariant
                k <= self.items@.len(),
                stream_ref(self.items@, uri@) == stream_ref(self.items@.take(k as int), uri@),
            decreases k,
        {
            let it = &self.items[k - 1];
            let ghost pre = self.items@.take(k as int);
            proof {
                assert(pre.drop_last() =~= self.items@.take(k - 1));
                assert(pre.last() == *it);
            }
            if string_eq(&it.uri, uri) {
                match &it.metadata {
                    Some(m) => {
                        if m.is_continuous_stream && m.duration.is_some() {
                            return Some(k - 1);
                        }
                    },
                    None => {},
                }
            }
            k = k - 1;
        }
        None
    }

    /// Protects stream durations: a new item that is the same stream track
    /// (same URI, title and artist) as a known stream item keeps the known
    /// duration when its own is shorter.
    fn protect_stream_durations(&self, new_items: Vec<PlaybackItem>) -> (r: Vec<PlaybackItem>)
        ensures
            r@ == protect(self.items_view(), new_items@),
    {
        let mut out: Vec<PlaybackItem> = Vec::new();
        let mut rest = new_items;
        let ghost orig = rest@;
        let mut i: usize = 0;
        let n = rest.len();
        let mut items_rev: Vec<PlaybackItem> = Vec::new();
        while rest.len() > 0
            invariant
                items_rev@.len() + rest@.len() == orig.len(),
                forall|k: int| 0 <= k < rest@.len() ==> #[trigger] rest@[k] == orig[k],
                forall|k: int| 0 <= k < items_rev@.len() ==> #[trigger] items_rev@[k] == orig[orig.len() - 1 - k],
            decreases rest@.len(),
        {
            let it = rest.pop().unwrap();
            items_rev.push(it);
        }
        while items_rev.len() > 0
            invariant
                items_rev@.len() + out@.len() == orig.len(),
                forall|k: int| 0 <= k < items_rev@.len() ==> #[trigger] items_rev@[k] == orig[orig.len() - 1 - k],
                forall|k: int| 0 <= k < out@.len() ==> #[trigger] out@[k] == protect_item(self.items_view(), orig[k]),
            decreases items_rev@.len(),
        {
            let item = items_rev.pop().unwrap();
            let protected = self.protect_one(item);
            out.push(protected);
        }
        assert(out@ =~= protect(self.items_view(), orig));
        out
    }

    fn protect_one(&self, item: PlaybackItem) -> (r: PlaybackItem)
        ensures
            r == protect_item(self.items_view(), item),
    {
        proof {
            lemma_stream_ref(self.items_view(), item.uri@);
        }
        let j = match self.find_stream_ref(&item.uri) {
            Some(j) => j,
            None => {
                return item;
            },
        };
        let mut item = item;
        let ghost orig = item;
        let old_meta = match &self.items[j].metadata {
            Some(m) => m,
            None => {
                return item;
            },
        };
        let old_duration = match &old_meta.duration {
            Some(d) => d,
            None => {
                return item;
            },
        };
        let decreased = match &item.metadata {
            Some(m) => {
                m.is_continuous_stream && opt_string_eq(&m.title, &old_meta.title) && opt_string_eq(
                    &m.artist,
                    &old_meta.artist,
                ) && match &m.duration {
                    Some(nd) => duration_decreased(old_duration.as_str(), nd.as_str()),
                    None => false,
                }
            },
            None => false,
        };
        if decreased {
            let m = item.metadata.take().unwrap();
            let d = old_meta.duration.clone();
            item.metadata = Some(TrackMetadata { duration: d, ..m });
            proof {
                assert(item == PlaybackItem {
                    metadata: Some(TrackMetadata { duration: old_meta.duration, ..orig.metadata->0 }),
                    ..orig
                });
            }
        }
        item
    }

    /// Metadata merge that protects streams: see [`spec_merge_metadata`].
    pub fn merge_metadata_protecting_streams(old_metadata: &Option<TrackMetadata>, new_metadata: &Option<TrackMetadata>, uri: &str) -> (r: Option<TrackMetadata>)
        ensures
            r == spec_merge_metadata(*old_metadata, *new_metadata),
    {
        match (old_metadata, new_metadata) {
            (Some(old_meta), Some(new_meta)) => {
                if new_meta.is_continuous_stream && opt_string_eq(&old_meta.title, &new_meta.title)
                    && opt_string_eq(&old_meta.artist, &new_meta.artist) {
                    match (&old_meta.duration, &new_meta.duration) {
                        (Some(od), Some(nd)) => {
                            if duration_decreased(od.as_str(), nd.as_str()) {
                                Some(old_meta.clone())
                            } else {
                                Some(new_meta.clone())
                            }
                        },
                        _ => Some(new_meta.clone()),
                    }
                } else {
                    Some(new_meta.clone())
                }
            },
            (_, new_meta) => new_meta.clone(),
        }
    }
}

/// Items with their backend ids cleared are the same after numbering.
proof fn lemma_erase_numbered(s: Seq<PlaybackItem>)
    ensures
        erase_ids(numbered(s)) == erase_ids(s),
{
    assert(erase_ids(numbered(s)) =~= erase_ids(s));
}

/// Position of the first item with the given URI.
fn position_by_uri(items: &Vec<PlaybackItem>, uri: &String) -> (r: Option<usize>)
    ensures
        match r {
            Some(k) => first_with_uri(items@, uri@, 0) == Some(k as int) && k < items@.len(),
            None => first_with_uri(items@, uri@, 0) is None,
        },
{
    let mut i: usize = 0;
    while i < items.len()
        invariant
            i <= items@.len(),
            first_with_uri(items@, uri@, 0) == first_with_uri(items@, uri@, i as int),
        decreases items@.len() - i,
    {
        if string_eq(&items[i].uri, uri) {
            return Some(i);
        }
        i = i + 1;
    }
    None
}

/// Position of the first item with the given DIDL id.
fn position_by_didl(items: &Vec<PlaybackItem>, didl: &String) -> (r: Option<usize>)
    ensures
        match r {
            Some(k) => first_with_didl(items@, didl@, 0) == Some(k as int) && k < items@.len(),
            None => first_with_didl(items@, didl@, 0) is None,
        },
{
    let mut i: usize = 0;
    while i < items.len()
        invariant
            i <= items@.len(),
            first_with_didl(items@, didl@, 0) == first_with_didl(items@, didl@, i as int),
        decreases items@.len() - i,
    {
        if string_eq(&items[i].didl_id, didl) {
            return Some(i);
        }
        i = i + 1;
    }
    None
}

/// `items` with `new` inserted at `pos`.
fn insert_all_at(items: &Vec<PlaybackItem>, pos: usize, new: Vec<PlaybackItem>) -> (r: Vec<PlaybackItem>)
    requires
        pos <= items@.len(),
    ensures
        r@ == items@.take(pos as int) + new@ + items@.skip(pos as int),
{
    let mut out: Vec<PlaybackItem> = Vec::new();
    let mut i: usize = 0;
    while i < pos
        invariant
            i <= pos <= items@.len(),
            out@ == items@.take(i as int),
        decreases pos - i,
    {
        out.push(items[i].clone());
        i = i + 1;
        assert(out@ =~= items@.take(i as int));
    }
    let mut more = new;
    let ghost new_v = more@;
    out.append(&mut more);
    let mut j: usize = pos;
    while j < items.len()
        invariant
            pos <= j <= items@.len(),
            out@ == items@.take(pos as int) + new_v + items@.subrange(pos as int, j as int),
        decreases items@.len() - j,
    {
        out.push(items[j].clone());
        j = j + 1;
        assert(out@ =~= items@.take(pos as int) + new_v + items@.subrange(pos as int, j as int));
    }
    assert(items@.subrange(pos as int, items@.len() as int) =~= items@.skip(pos as int));
    out
}

impl QueueBackend for InternalQueue {
    open spec fn queue_items(&self) -> Seq<PlaybackItem> {
        numbered(self.items_view())
    }

    open spec fn queue_index(&self) -> Option<usize> {
        self.index_view()
    }

    open spec fn reliable(&self) -> bool {
        true
    }

    fn len(&self) -> (r: Result<usize, ControlPointError>)
        ensures
            r == Ok::<usize, ControlPointError>(self.items_view().len() as usize),
    {
        Ok(self.items.len())
    }

    fn track_ids(&self) -> (r: Result<Vec<u32>, ControlPointError>)
        ensures
            r matches Ok(ids) && ids@.len() == self.items_view().len() && forall|i: int|
                0 <= i < ids@.len() ==> #[trigger] ids@[i] == i as u32,
    {
        let n = self.items.len();
        let mut ids: Vec<u32> = Vec::new();
        let mut i: usize = 0;
        while i < n
            invariant
                n == self.items@.len(),
                i <= n,
                ids@.len() == i,
                forall|k: int| 0 <= k < i ==> #[trigger] ids@[k] == k as u32,
            decreases n - i,
        {
            ids.push(i as u32);
            i = i + 1;
        }
        Ok(ids)
    }

    fn id_to_position(&self, id: u32) -> (r: Result<usize, ControlPointError>)
        ensures
            r == Ok::<usize, ControlPointError>(id as usize),
    {
        Ok(id as usize)
    }

    fn position_to_id(&self, id: usize) -> (r: Result<u32, ControlPointError>)
        ensures
            id <= u32::MAX ==> r == Ok::<u32, ControlPointError>(id as u32),
            id > u32::MAX ==> (r matches Err(ControlPointError::QueueError(m))
                && m@ == "Position "@ + dec(id as nat) + " exceeds u32::MAX"@),
    {
        if id <= u32::MAX as usize {
            Ok(id as u32)
        } else {
            Err(ControlPointError::QueueError(msg_num("Position ", id as u64, " exceeds u32::MAX")))
        }
    }

    fn current_track(&self) -> (r: Result<Option<u32>, ControlPointError>)
        ensures
            match self.index_view() {
                None => r == Ok::<Option<u32>, ControlPointError>(None),
                Some(i) => if i <= u32::MAX {
                    r == Ok::<Option<u32>, ControlPointError>(Some(i as u32))
                } else {
                    r matches Err(ControlPointError::QueueError(m))
                        && m@ == "Current index "@ + dec(i as nat) + " exceeds u32::MAX"@
                },
            },
    {
        match self.current_index {
            None => Ok(None),
            Some(i) => {
                if i <= u32::MAX as usize {
                    Ok(Some(i as u32))
                } else {
                    Err(ControlPointError::QueueError(msg_num("Current index ", i as u64, " exceeds u32::MAX")))
                }
            },
        }
    }

    fn current_index(&self) -> (r: Result<Option<usize>, ControlPointError>)
        ensures
            r == Ok::<Option<usize>, ControlPointError>(self.index_view()),
    {
        Ok(self.current_index)
    }

    fn queue_snapshot(&self) -> (r: Result<QueueSnapshot, ControlPointError>)
        ensures
            r matches Ok(s) && s.items@ == numbered(self.items_view()) && s.current_index == self.index_view()
                && s.playlist_id is None,
    {
        let mut items: Vec<PlaybackItem> = Vec::new();
        let mut i: usize = 0;
        while i < self.items.len()
            invariant
                i <= self.items@.len(),
                items@ == numbered(self.items@).take(i as int),
            decreases self.items@.len() - i,
        {
            let mut it = self.items[i].clone();
            it.backend_id = i;
            items.push(it);
            i = i + 1;
            assert(items@ =~= numbered(self.items@).take(i as int));
        }
        assert(items@ =~= numbered(self.items@));
        Ok(QueueSnapshot { items, current_index: self.current_index, playlist_id: None })
    }

    fn set_index(&mut self, index: Option<usize>) -> (r: Result<(), ControlPointError>)
        ensures
            final(self).items_view() == old(self).items_view(),
            final(self).renderer_view() == old(self).renderer_view(),
            match index {
                None => r is Ok && final(self).index_view() is None,
                Some(i) => if i < old(self).items_view().len() {
                    r is Ok && final(self).index_view() == Some(i)
                } else {
                    final(self).index_view() == old(self).index_view() && (r matches Err(ControlPointError::QueueError(m))
                        && m@ == "Index out of bound "@ + dec(i as nat) + " >= "@ + dec(old(self).items_view().len()))
                },
            },
    {
        match index {
            None => {
                self.current_index = None;
            },
            Some(i) => {
                if i < self.items.len() {
                    self.current_index = Some(i);
                } else {
                    return Err(ControlPointError::QueueError(msg_nums("Index out of bound ", i as u64, " >= ", self.items.len() as u64)));
                }
            },
        }
        Ok(())
    }

    fn replace_queue(&mut self, items: Vec<PlaybackItem>, current_index: Option<usize>) -> (r: Result<(), ControlPointError>)
        ensures
            r is Ok,
            final(self).items_view() == items@,
            final(self).index_view() == settle_index(items@.len(), current_index),
            final(self).renderer_view() == old(self).renderer_view(),
    {
        proof {
            lemma_erase_numbered(items@);
        }
        self.current_index = None;
        self.items = items;
        let idx = match current_index {
            Some(i) => if i < self.items.len() {
                Some(i)
            } else {
                None
            },
            None => None,
        };
        self.current_index = idx;
        self.ensure_current_index_invariant();
        Ok(())
    }

    fn sync_queue(&mut self, items: Vec<PlaybackItem>) -> (r: Result<(), ControlPointError>)
        ensures
            r is Ok,
            (final(self).items_view(), final(self).index_view()) == spec_sync(old(self).items_view(), old(self).index_view(), items@),
            final(self).renderer_view() == old(self).renderer_view(),
    {
        proof {
            use_type_invariant(&*self);
        }
        if items.len() == 0 {
            return self.replace_queue(Vec::new(), None);
        }
        let updated = self.protect_stream_durations(items);
        match self.current_index {
            Some(ci) => {
                let found = match position_by_uri(&updated, &self.items[ci].uri) {
                    Some(k) => Some(k),
                    None => position_by_didl(&updated, &self.items[ci].didl_id),
                };
                match found {
                    Some(k) => self.replace_queue(updated, Some(k)),
                    None => {
                        let current_item = self.items[ci].clone();
                        let mut new_items: Vec<PlaybackItem> = Vec::new();
                        new_items.push(current_item);
                        let mut rest = updated;
                        new_items.append(&mut rest);
                        self.replace_queue(new_items, Some(0))
                    },
                }
            },
            None => self.replace_queue(updated, None),
        }
    }

    fn get_item(&self, index: usize) -> (r: Result<Option<PlaybackItem>, ControlPointError>)
        ensures
            index < self.items_view().len() ==> r == Ok::<Option<PlaybackItem>, ControlPointError>(Some(self.items_view()[index as int])),
            index >= self.items_view().len() ==> (r matches Err(ControlPointError::QueueError(m))
                && m@ == "get_item index out of bound "@ + dec(index as nat) + " >= "@ + dec(self.items_view().len())),
    {
        if index < self.items.len() {
            Ok(Some(self.items[index].clone()))
        } else {
            Err(ControlPointError::QueueError(msg_nums("get_item index out of bound ", index as u64, " >= ", self.items.len() as u64)))
        }
    }

    fn replace_item(&mut self, index: usize, item: PlaybackItem) -> (r: Result<(), ControlPointError>)
        ensures
            final(self).renderer_view() == old(self).renderer_view(),
            final(self).index_view() == old(self).index_view(),
            index < old(self).items_view().len() ==> r is Ok && final(self).items_view() == old(self).items_view().update(index as int, item),
            index >= old(self).items_view().len() ==> final(self).items_view() == old(self).items_view()
                && (r matches Err(ControlPointError::QueueError(m))
                && m@ == "Index out of bound "@ + dec(index as nat) + " >= "@ + dec(old(self).items_view().len())),
    {
        proof {
            use_type_invariant(&*self);
        }
        if index < self.items.len() {
            let ghost before = self.items@;
            let mut all = clone_items(self.items.as_slice());
            all.set(index, item);
            self.items = all;
            proof {
                assert(erase_ids(numbered(self.items@)) =~= erase_ids(numbered(before)).update(index as int, erase_id(item)));
            }
            Ok(())
        } else {
            Err(ControlPointError::QueueError(msg_nums("Index out of bound ", index as u64, " >= ", self.items.len() as u64)))
        }
    }

    fn enqueue_items(&mut self, items: Vec<PlaybackItem>, mode: EnqueueMode) -> (r: Result<(), ControlPointError>)
        ensures
            r is Ok,
            (final(self).items_view(), final(self).index_view()) == spec_enqueue(old(self).items_view(), old(self).index_view(), items@, mode),
            final(self).renderer_view() == old(self).renderer_view(),
    {
        proof {
            use_type_invariant(&*self);
        }
        let protected = self.protect_stream_durations(items);
        match mode {
            EnqueueMode::AppendToEnd => {
                let len = self.items.len();
                let all = insert_all_at(&self.items, len, protected);
                proof {
                    assert(all@ =~= old(self).items@ + protect(old(self).items@, items@));
                }
                self.items = all;
            },
            EnqueueMode::InsertAfterCurrent => {
                let len = self.items.len();
                let pos = match self.current_index {
                    Some(i) => if i + 1 <= len {
                        i + 1
                    } else {
                        len
                    },
                    None => 0,
                };
                let all = insert_all_at(&self.items, pos, protected);
                self.items = all;
            },
            EnqueueMode::ReplaceAll => {
                self.current_index = None;
                self.items = protected;
            },
        }
        self.ensure_current_index_invariant();
        Ok(())
    }

    fn clear_queue(&mut self) -> (r: Result<(), ControlPointError>)
        ensures
            r is Ok,
            final(self).items_view().len() == 0,
            final(self).index_view() is None,
            final(self).renderer_view() == old(self).renderer_view(),
    {
        self.current_index = None;
        self.items = Vec::new();
        Ok(())
    }

    fn is_empty(&self) -> (r: Result<bool, ControlPointError>)
        ensures
            r == Ok::<bool, ControlPointError>(self.items_view().len() == 0),
    {
        Ok(self.items.len() == 0)
    }

    fn upcoming_len(&self) -> (r: Result<usize, ControlPointError>)
        ensures
            r == Ok::<usize, ControlPointError>(spec_upcoming_len(self.items_view().len(), self.index_view()) as usize),
    {
        let len = self.items.len();
        match self.current_index {
            None => Ok(len),
            Some(idx) => Ok(remaining_after(len, idx)),
        }
    }

    fn upcoming_items(&self) -> (r: Result<Vec<PlaybackItem>, ControlPointError>)
        ensures
            r matches Ok(v) && v@ == spec_upcoming(self.items_view(), self.index_view()),
    {
        let items = match self.current_index {
            None => clone_items(self.items.as_slice()),
            Some(idx) => items_after(&self.items, idx),
        };
        proof {
            let q = numbered(self.items@);
            match self.current_index {
                Some(i) => if i < self.items@.len() {
                    assert(erase_ids(items@) =~= erase_ids(q.skip(i + 1)));
                } else {
                    assert(erase_ids(items@) =~= erase_ids(spec_upcoming(q, self.current_index)));
                },
                None => lemma_erase_numbered(self.items@),
            }
        }
        Ok(items)
    }

    fn peek_current(&mut self) -> (r: Result<Option<(PlaybackItem, usize)>, ControlPointError>)
        ensures
            final(self).items_view() == old(self).items_view(),
            final(self).renderer_view() == old(self).renderer_view(),
            old(self).items_view().len() == 0 ==> r == Ok::<Option<(PlaybackItem, usize)>, ControlPointError>(None)
                && final(self).index_view() == old(self).index_view(),
            old(self).items_view().len() > 0 ==> match old(self).index_view() {
                Some(i) if i < old(self).items_view().len() => final(self).index_view() == Some(i)
                    && r == Ok::<Option<(PlaybackItem, usize)>, ControlPointError>(
                    Some((old(self).items_view()[i as int], (old(self).items_view().len() - i - 1) as usize)),
                ),
                _ => final(self).index_view() == Some(0usize)
                    && r == Ok::<Option<(PlaybackItem, usize)>, ControlPointError>(
                    Some((old(self).items_view()[0], (old(self).items_view().len() - 1) as usize)),
                ),
            },
    {
        let len = self.items.len();
        if len == 0 {
            return Ok(None);
        }
        match self.current_index {
            Some(idx) => {
                if idx < len {
                    return Ok(Some((self.items[idx].clone(), len - idx - 1)));
                }
            },
            None => {},
        }
        self.current_index = Some(0);
        Ok(Some((self.items[0].clone(), len - 1)))
    }

    fn dequeue_next(&mut self) -> (r: Result<Option<(PlaybackItem, usize)>, ControlPointError>)
        ensures
            final(self).items_view() == old(self).items_view(),
            final(self).renderer_view() == old(self).renderer_view(),
            match spec_dequeue_position(old(self).items_view().len(), old(self).index_view()) {
                None => r == Ok::<Option<(PlaybackItem, usize)>, ControlPointError>(None) && final(self).index_view() == old(self).index_view(),
                Some(p) => final(self).index_view() == Some(p) && r == Ok::<Option<(PlaybackItem, usize)>, ControlPointError>(
                    Some((old(self).items_view()[p as int], (old(self).items_view().len() - p - 1) as usize)),
                ),
            },
    {
        let len = self.items.len();
        if len == 0 {
            return Ok(None);
        }
        let next_index = match self.current_index {
            None => 0,
            Some(idx) => {
                if idx >= len - 1 {
                    return Ok(None);
                }
                idx + 1
            },
        };
        let item = self.items[next_index].clone();
        self.current_index = Some(next_index);
        Ok(Some((item, len - next_index - 1)))
    }

    fn append_or_init_index(&mut self, items: Vec<PlaybackItem>) -> (r: Result<(), ControlPointError>)
        ensures
            r is Ok,
            final(self).items_view() == old(self).items_view() + protect(old(self).items_view(), items@),
            final(self).index_view() == settle_index(final(self).items_view().len(), old(self).index_view()),
            final(self).renderer_view() == old(self).renderer_view(),
    {
        proof {
            use_type_invariant(&*self);
        }
        let protected = self.protect_stream_durations(items);
        let ghost before = self.items@;
        let len = self.items.len();
        let all = insert_all_at(&self.items, len, protected);
        proof {
            assert(all@ =~= before + protect(before, items@));
        }
        self.items = all;
        self.ensure_current_index_invariant();
        proof {
            assert(erase_ids(numbered(self.items@)).take(before.len() as int) =~= erase_ids(numbered(before)));
        }
        Ok(())
    }
}

} // verus!
