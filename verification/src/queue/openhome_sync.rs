//! Turning a renderer's OpenHome playlist into a desired list of items with
//! few operations.
//!
//! A synchronisation is first planned as a list of playlist operations, then
//! performed. The plan refers to the tracks it inserts by their number in the
//! plan, since the renderer only gives their ids when it inserts them.
//!
//! What the operations do is stated over the ids of the playlist, as the
//! OpenHome Playlist service describes them: `Insert` puts a new track with a
//! fresh id right after the track `AfterId` (at the head for id 0), `DeleteId`
//! removes a track, `DeleteAll` empties the playlist.
use crate::error::{msg, ControlPointError};
use crate::model::TrackMetadata;
use crate::queue::lcs::{
    all_true, count_true, law_lcs_flags_optimized_counts_agree, lcs_flags_optimized, spec_lcs_flags_optimized,
};
use crate::queue::openhome::{build_metadata_xml, meta_fits, spec_cache_update, spec_metadata_xml, PlaylistCaches};
use crate::queue::snapshot::PlaybackItem;
use crate::soap::{answered, spec_success, spec_u32_field, transport_total, SoapCallResult, SoapRequest};
use crate::text::dec;
use crate::upnp_clients::openhome_client::OhPlaylistClient;
use vstd::prelude::*;

verus! {

/// Where an insertion goes.
#[derive(Debug, Clone, Copy, PartialEq, Eq, Structural)]
pub enum Anchor {
    /// At the head of the playlist.
    Head,
    /// After the track with this id.
    Existing(u32),
    /// After the track created by the insertion with this number (counted from
    /// 0 in the plan).
    Inserted(usize),
}

/// One step of a synchronisation plan; `usize` fields are positions in the
/// desired list.
#[derive(Debug, Clone, Copy, PartialEq, Eq, Structural)]
pub enum PlaylistOp {
    /// Empties the playlist and forgets all cached metadata.
    DeleteAll,
    /// Deletes a track (an id already gone is no failure) and forgets its
    /// cached metadata.
    Delete(u32),
    /// Deletes a track, failing when it is gone; caches are left alone.
    DeleteStrict(u32),
    /// Inserts a desired item after the anchor and caches its metadata and URI
    /// under the new id.
    Insert(Anchor, usize),
    /// Inserts a desired item after the anchor and remembers only its URI.
    Append(Anchor, usize),
    /// Keeps an existing track for a desired item, caching the item's
    /// metadata and URI under the track's id.
    Keep(u32, usize),
}

// ---------------------------------------------------------------------------
// What the operations do to the ids of the playlist
// ---------------------------------------------------------------------------

/// The id an anchor designates, given the ids the insertions received
/// (0 for the head).
pub open spec fn resolve(a: Anchor, fresh: Seq<u32>) -> u32 {
    match a {
        Anchor::Head => 0u32,
        Anchor::Existing(id) => id,
        Anchor::Inserted(k) => fresh[k as int],
    }
}

/// The playlist after inserting `id` right after `after` (at the head for 0).
pub open spec fn insert_after(s: Seq<u32>, after: u32, id: u32) -> Seq<u32> {
    if after == 0 {
        seq![id] + s
    } else {
        s.take(s.index_of(after) + 1) + seq![id] + s.skip(s.index_of(after) + 1)
    }
}

/// The playlist after deleting `id` (unchanged when absent).
pub open spec fn delete_one(s: Seq<u32>, id: u32) -> Seq<u32> {
    if s.contains(id) {
        s.remove(s.index_of(id))
    } else {
        s
    }
}

/// Whether an operation inserts a track.
pub open spec fn inserts(op: PlaylistOp) -> bool {
    op is Insert || op is Append
}

/// Number of insertions of a plan.
pub open spec fn count_inserts(ops: Seq<PlaylistOp>) -> nat
    decreases ops.len(),
{
    if ops.len() == 0 {
        0
    } else {
        (if inserts(ops[0]) {
            1nat
        } else {
            0nat
        }) + count_inserts(ops.drop_first())
    }
}

/// The ids of the playlist after the operations, the insertion numbered `k`
/// (from `j` on) receiving the id `fresh[k]`.
pub open spec fn apply_ops(s: Seq<u32>, ops: Seq<PlaylistOp>, fresh: Seq<u32>, j: nat) -> Seq<u32>
    decreases ops.len(),
{
    if ops.len() == 0 {
        s
    } else {
        let rest = ops.drop_first();
        match ops[0] {
            PlaylistOp::DeleteAll => apply_ops(Seq::empty(), rest, fresh, j),
            PlaylistOp::Delete(id) => apply_ops(delete_one(s, id), rest, fresh, j),
            PlaylistOp::DeleteStrict(id) => apply_ops(delete_one(s, id), rest, fresh, j),
            PlaylistOp::Insert(a, _) => apply_ops(insert_after(s, resolve(a, fresh), fresh[j as int]), rest, fresh, j + 1),
            PlaylistOp::Append(a, _) => apply_ops(insert_after(s, resolve(a, fresh), fresh[j as int]), rest, fresh, j + 1),
            PlaylistOp::Keep(_, _) => apply_ops(s, rest, fresh, j),
        }
    }
}

/// Playlist ids as a renderer gives them: distinct and never 0.
pub open spec fn ids_ok(s: Seq<u32>) -> bool {
    s.no_duplicates() && forall|i: int| 0 <= i < s.len() ==> #[trigger] s[i] != 0
}

/// The ids given to insertions from number `j` on are distinct, never 0,
/// and new to the playlist `s`.
pub open spec fn fresh_ok(fresh: Seq<u32>, j: nat, s: Seq<u32>) -> bool {
    &&& forall|k: int| j <= k < fresh.len() ==> #[trigger] fresh[k] != 0 && !s.contains(fresh[k])
    &&& forall|k1: int, k2: int| j <= k1 < fresh.len() && j <= k2 < fresh.len() && k1 != k2 ==> #[trigger] fresh[k1]
        != #[trigger] fresh[k2]
}

// ---------------------------------------------------------------------------
// Plans
// ---------------------------------------------------------------------------

/// Number of `false` flags.
pub open spec fn count_false(s: Seq<bool>) -> nat {
    (s.len() - count_true(s)) as nat
}

/// The ids whose flag is set, in order.
pub open spec fn select(ids: Seq<u32>, keep: Seq<bool>) -> Seq<u32>
    decreases ids.len(),
{
    if ids.len() == 0 {
        Seq::empty()
    } else {
        select(ids.drop_last(), keep.take(ids.len() - 1)) + if keep[ids.len() - 1] {
            seq![ids.last()]
        } else {
            Seq::<u32>::empty()
        }
    }
}

/// Deletions of the ids whose flag is clear, from the last to the first.
pub open spec fn spec_deletes(ids: Seq<u32>, keep: Seq<bool>) -> Seq<PlaylistOp>
    decreases ids.len(),
{
    if ids.len() == 0 {
        Seq::empty()
    } else {
        (if keep[ids.len() - 1] {
            Seq::<PlaylistOp>::empty()
        } else {
            seq![PlaylistOp::Delete(ids.last())]
        }) + spec_deletes(ids.drop_last(), keep.take(ids.len() - 1))
    }
}

/// Rebuilding a section of the playlist for desired items whose flags say
/// which are already present: a present item keeps the next of the `kept`
/// tracks, any other is inserted after the previous item; the first goes
/// after `anchor`. Items are numbered from `base`, insertions from `j`.
pub open spec fn spec_rebuild(flags: Seq<bool>, kept: Seq<u32>, anchor: Anchor, base: nat, j: nat) -> Seq<PlaylistOp>
    decreases flags.len(),
{
    if flags.len() == 0 {
        Seq::empty()
    } else if flags[0] {
        seq![PlaylistOp::Keep(kept[0], base as usize)] + spec_rebuild(
            flags.drop_first(),
            kept.drop_first(),
            Anchor::Existing(kept[0]),
            base + 1,
            j,
        )
    } else {
        seq![PlaylistOp::Insert(anchor, base as usize)] + spec_rebuild(
            flags.drop_first(),
            kept,
            Anchor::Inserted(j as usize),
            base + 1,
            j + 1,
        )
    }
}

/// The ids a rebuilt section ends with: the kept tracks and the inserted
/// ones, in the order of the desired items.
pub open spec fn spec_layout(flags: Seq<bool>, kept: Seq<u32>, fresh: Seq<u32>, j: nat) -> Seq<u32>
    decreases flags.len(),
{
    if flags.len() == 0 {
        Seq::empty()
    } else if flags[0] {
        seq![kept[0]] + spec_layout(flags.drop_first(), kept.drop_first(), fresh, j)
    } else {
        seq![fresh[j as int]] + spec_layout(flags.drop_first(), kept, fresh, j + 1)
    }
}

/// `anchor` designates the last track of `pre`, or the head when `pre` is
/// empty.
pub open spec fn anchor_at(anchor: Anchor, pre: Seq<u32>, fresh: Seq<u32>) -> bool {
    if pre.len() == 0 {
        resolve(anchor, fresh) == 0
    } else {
        resolve(anchor, fresh) == pre.last()
    }
}

// ---------------------------------------------------------------------------
// Lemmas
// ---------------------------------------------------------------------------

proof fn lemma_count_true_first(s: Seq<bool>)
    requires
        s.len() > 0,
    ensures
        count_true(s) == (if s[0] {
            1nat
        } else {
            0nat
        }) + count_true(s.drop_first()),
        count_true(s) <= s.len(),
    decreases s.len(),
{
    if s.len() == 1 {
        assert(s.drop_last() =~= Seq::<bool>::empty());
        assert(s.drop_first() =~= Seq::<bool>::empty());
    } else {
        lemma_count_true_first(s.drop_last());
        assert(s.drop_last().drop_first() =~= s.drop_first().drop_last());
        assert(s.drop_first().last() == s.last());
    }
}

proof fn lemma_count_true_bound(s: Seq<bool>)
    ensures
        count_true(s) <= s.len(),
    decreases s.len(),
{
    if s.len() > 0 {
        lemma_count_true_bound(s.drop_last());
    }
}

/// Running two plans one after the other.
proof fn lemma_apply_concat(s: Seq<u32>, a: Seq<PlaylistOp>, b: Seq<PlaylistOp>, fresh: Seq<u32>, j: nat)
    ensures
        apply_ops(s, a + b, fresh, j) == apply_ops(apply_ops(s, a, fresh, j), b, fresh, j + count_inserts(a)),
        count_inserts(a + b) == count_inserts(a) + count_inserts(b),
    decreases a.len(),
{
    if a.len() == 0 {
        assert(a + b =~= b);
    } else {
        assert((a + b).drop_first() =~= a.drop_first() + b);
        assert((a + b)[0] == a[0]);
        let rest = a.drop_first();
        match a[0] {
            PlaylistOp::DeleteAll => lemma_apply_concat(Seq::empty(), rest, b, fresh, j),
            PlaylistOp::Delete(id) => lemma_apply_concat(delete_one(s, id), rest, b, fresh, j),
            PlaylistOp::DeleteStrict(id) => lemma_apply_concat(delete_one(s, id), rest, b, fresh, j),
            PlaylistOp::Insert(x, _) => lemma_apply_concat(
                insert_after(s, resolve(x, fresh), fresh[j as int]),
                rest,
                b,
                fresh,
                j + 1,
            ),
            PlaylistOp::Append(x, _) => lemma_apply_concat(
                insert_after(s, resolve(x, fresh), fresh[j as int]),
                rest,
                b,
                fresh,
                j + 1,
            ),
            PlaylistOp::Keep(_, _) => lemma_apply_concat(s, rest, b, fresh, j),
        }
    }
}

/// Running a plan of one operation.
proof fn lemma_apply_single(s: Seq<u32>, op: PlaylistOp, fresh: Seq<u32>, j: nat)
    ensures
        apply_ops(s, seq![op], fresh, j) == match op {
            PlaylistOp::DeleteAll => Seq::<u32>::empty(),
            PlaylistOp::Delete(id) => delete_one(s, id),
            PlaylistOp::DeleteStrict(id) => delete_one(s, id),
            PlaylistOp::Insert(a, _) => insert_after(s, resolve(a, fresh), fresh[j as int]),
            PlaylistOp::Append(a, _) => insert_after(s, resolve(a, fresh), fresh[j as int]),
            PlaylistOp::Keep(_, _) => s,
        },
        count_inserts(seq![op]) == if inserts(op) {
            1nat
        } else {
            0nat
        },
{
    let one = seq![op];
    let none = Seq::<PlaylistOp>::empty();
    assert(one[0] == op);
    assert(one.drop_first() =~= none);
    assert(count_inserts(none) == 0);
    match op {
        PlaylistOp::DeleteAll => assert(apply_ops(Seq::<u32>::empty(), none, fresh, j) == Seq::<u32>::empty()),
        PlaylistOp::Delete(id) => assert(apply_ops(delete_one(s, id), none, fresh, j) == delete_one(s, id)),
        PlaylistOp::DeleteStrict(id) => assert(apply_ops(delete_one(s, id), none, fresh, j) == delete_one(s, id)),
        PlaylistOp::Insert(a, _) => {
            let x = insert_after(s, resolve(a, fresh), fresh[j as int]);
            assert(apply_ops(x, none, fresh, j + 1) == x);
        },
        PlaylistOp::Append(a, _) => {
            let x = insert_after(s, resolve(a, fresh), fresh[j as int]);
            assert(apply_ops(x, none, fresh, j + 1) == x);
        },
        PlaylistOp::Keep(_, _) => assert(apply_ops(s, none, fresh, j) == s),
    }
}

/// Inserting a fresh id right after the last of `pre`.
proof fn lemma_insert_step(pre: Seq<u32>, kept: Seq<u32>, post: Seq<u32>, after: u32, f: u32, fresh: Seq<u32>, j: nat)
    requires
        ids_ok(pre + kept + post),
        fresh_ok(fresh, j, pre + kept + post),
        j < fresh.len(),
        f == fresh[j as int],
        if pre.len() == 0 {
            after == 0
        } else {
            after == pre.last()
        },
    ensures
        insert_after(pre + kept + post, after, f) == pre.push(f) + kept + post,
        ids_ok(pre.push(f) + kept + post),
        fresh_ok(fresh, j + 1, pre.push(f) + kept + post),
{
    let s = pre + kept + post;
    let s2 = pre.push(f) + kept + post;
    let q = pre.len() as int;
    if pre.len() == 0 {
        assert(seq![f] + s =~= s2);
    } else {
        let p = pre.len() - 1;
        assert(s[p] == after);
        lemma_index_of_unique(s, p);
        assert(s.take(p + 1) =~= pre);
        assert(s.skip(p + 1) =~= kept + post);
        assert(s.take(p + 1) + seq![f] + s.skip(p + 1) =~= s2);
    }
    assert(!s.contains(f));
    assert forall|a: int| 0 <= a < s2.len() && a != q implies #[trigger] s2[a] == s[if a < q { a } else { a - 1 }] by {}
    assert(s2[q] == f);
    assert forall|a: int, b: int| 0 <= a < s2.len() && 0 <= b < s2.len() && a != b implies s2[a] != s2[b] by {
        if a == q {
            let ib = if b < q { b } else { b - 1 };
            assert(s2[b] == s[ib]);
        } else if b == q {
            let ia = if a < q { a } else { a - 1 };
            assert(s2[a] == s[ia]);
        } else {
            let ia = if a < q { a } else { a - 1 };
            let ib = if b < q { b } else { b - 1 };
            assert(s2[a] == s[ia]);
            assert(s2[b] == s[ib]);
        }
    }
    assert forall|i: int| 0 <= i < s2.len() implies #[trigger] s2[i] != 0 by {
        if i < q {
            assert(s2[i] == s[i]);
        } else if i > q {
            assert(s2[i] == s[i - 1]);
        }
    }
    assert forall|k: int| j + 1 <= k < fresh.len() implies #[trigger] fresh[k] != 0 && !s2.contains(fresh[k]) by {
        assert(fresh[k] != fresh[j as int]);
        if s2.contains(fresh[k]) {
            let i = choose|i: int| 0 <= i < s2.len() && s2[i] == fresh[k];
            if i < q {
                assert(s[i] == fresh[k]);
            } else if i > q {
                assert(s[i - 1] == fresh[k]);
            }
        }
    }
}

/// In a sequence without duplicates, the index of an element is its position.
proof fn lemma_index_of_unique(s: Seq<u32>, p: int)
    requires
        s.no_duplicates(),
        0 <= p < s.len(),
    ensures
        s.contains(s[p]),
        s.index_of(s[p]) == p,
{
    assert(s[p] == s[p]);
    let q = s.index_of(s[p]);
    assert(0 <= q < s.len() && s[q] == s[p]);
}

/// Removing an element keeps the others distinct.
proof fn lemma_no_dup_remove(s: Seq<u32>, p: int)
    requires
        s.no_duplicates(),
        0 <= p < s.len(),
    ensures
        s.remove(p).no_duplicates(),
{
    let r = s.remove(p);
    assert forall|a: int, b: int| 0 <= a < r.len() && 0 <= b < r.len() && a != b implies r[a] != r[b] by {
        let ia = if a < p { a } else { a + 1 };
        let ib = if b < p { b } else { b + 1 };
        assert(r[a] == s[ia]);
        assert(r[b] == s[ib]);
    }
}

/// Deleting the flagged-off ids of a block leaves the flagged-on ones in
/// place.
proof fn lemma_deletes(pre: Seq<u32>, ids: Seq<u32>, post: Seq<u32>, keep: Seq<bool>, fresh: Seq<u32>, j: nat)
    requires
        ids_ok(pre + ids + post),
        keep.len() == ids.len(),
        fresh_ok(fresh, j, pre + ids + post),
    ensures
        apply_ops(pre + ids + post, spec_deletes(ids, keep), fresh, j) == pre + select(ids, keep) + post,
        count_inserts(spec_deletes(ids, keep)) == 0,
        ids_ok(pre + select(ids, keep) + post),
        fresh_ok(fresh, j, pre + select(ids, keep) + post),
    decreases ids.len(),
{
    let s = pre + ids + post;
    if ids.len() == 0 {
        assert(pre + ids + post =~= pre + select(ids, keep) + post);
    } else {
        let n = ids.len() - 1;
        let front = ids.drop_last();
        let kf = keep.take(n);
        let head: Seq<PlaylistOp> = if keep[n] {
            Seq::empty()
        } else {
            seq![PlaylistOp::Delete(ids.last())]
        };
        lemma_apply_concat(s, head, spec_deletes(front, kf), fresh, j);
        if keep[n] {
            assert(head =~= Seq::<PlaylistOp>::empty());
            assert(apply_ops(s, head, fresh, j) == s);
            let post2 = seq![ids.last()] + post;
            assert(pre + front + post2 =~= s);
            lemma_deletes(pre, front, post2, kf, fresh, j);
            assert(pre + select(front, kf) + post2 =~= pre + select(ids, keep) + post);
        } else {
            let p = pre.len() + n;
            assert(s[p] == ids.last());
            lemma_index_of_unique(s, p);
            assert(s.remove(p) =~= pre + front + post);
            lemma_no_dup_remove(s, p);
            let s2 = pre + front + post;
            lemma_apply_single(s, PlaylistOp::Delete(ids.last()), fresh, j);
            assert forall|i: int| 0 <= i < s2.len() implies #[trigger] s2[i] != 0 by {
                if i < p {
                    assert(s2[i] == s[i]);
                } else {
                    assert(s2[i] == s[i + 1]);
                }
            }
            assert forall|k: int| j <= k < fresh.len() implies #[trigger] fresh[k] != 0 && !s2.contains(fresh[k]) by {
                if s2.contains(fresh[k]) {
                    let i = choose|i: int| 0 <= i < s2.len() && s2[i] == fresh[k];
                    if i < p {
                        assert(s[i] == fresh[k]);
                    } else {
                        assert(s[i + 1] == fresh[k]);
                    }
                }
            }
            lemma_deletes(pre, front, post, kf, fresh, j);
            assert(select(ids, keep) =~= select(front, kf));
        }
    }
}

/// Rebuilding a section puts the layout of its items between what precedes
/// and what follows it.
proof fn lemma_rebuild(
    pre: Seq<u32>,
    kept: Seq<u32>,
    post: Seq<u32>,
    flags: Seq<bool>,
    anchor: Anchor,
    base: nat,
    fresh: Seq<u32>,
    j: nat,
)
    requires
        ids_ok(pre + kept + post),
        fresh_ok(fresh, j, pre + kept + post),
        j + count_false(flags) <= fresh.len(),
        fresh.len() <= usize::MAX,
        count_true(flags) == kept.len(),
        anchor_at(anchor, pre, fresh),
    ensures
        apply_ops(pre + kept + post, spec_rebuild(flags, kept, anchor, base, j), fresh, j) == pre + spec_layout(
            flags,
            kept,
            fresh,
            j,
        ) + post,
        count_inserts(spec_rebuild(flags, kept, anchor, base, j)) == count_false(flags),
        ids_ok(pre + spec_layout(flags, kept, fresh, j) + post),
        fresh_ok(fresh, j + count_false(flags), pre + spec_layout(flags, kept, fresh, j) + post),
    decreases flags.len(),
{
    let s = pre + kept + post;
    lemma_count_true_bound(flags);
    if flags.len() == 0 {
        assert(kept =~= Seq::<u32>::empty());
        assert(pre + kept + post =~= pre + spec_layout(flags, kept, fresh, j) + post);
    } else {
        lemma_count_true_first(flags);
        let rest = flags.drop_first();
        lemma_count_true_bound(rest);
        if flags[0] {
            let op = PlaylistOp::Keep(kept[0], base as usize);
            let tail = spec_rebuild(rest, kept.drop_first(), Anchor::Existing(kept[0]), base + 1, j);
            lemma_apply_concat(s, seq![op], tail, fresh, j);
            lemma_apply_single(s, op, fresh, j);
            let pre2 = pre.push(kept[0]);
            assert(pre2 + kept.drop_first() + post =~= s);
            lemma_rebuild(pre2, kept.drop_first(), post, rest, Anchor::Existing(kept[0]), base + 1, fresh, j);
            assert(pre2 + spec_layout(rest, kept.drop_first(), fresh, j) + post =~= pre + spec_layout(flags, kept, fresh, j) + post);
        } else {
            let f = fresh[j as int];
            let after = resolve(anchor, fresh);
            let op = PlaylistOp::Insert(anchor, base as usize);
            let tail = spec_rebuild(rest, kept, Anchor::Inserted(j as usize), base + 1, j + 1);
            lemma_apply_concat(s, seq![op], tail, fresh, j);
            let pre2 = pre.push(f);
            lemma_insert_step(pre, kept, post, after, f, fresh, j);
            lemma_apply_single(s, op, fresh, j);
            assert(resolve(Anchor::Inserted(j as usize), fresh) == f);
            lemma_rebuild(pre2, kept, post, rest, Anchor::Inserted(j as usize), base + 1, fresh, j + 1);
            assert(pre2 + spec_layout(rest, kept, fresh, j + 1) + post =~= pre + spec_layout(flags, kept, fresh, j) + post);
        }
    }
}

// ---------------------------------------------------------------------------
// The plans of a full synchronisation
// ---------------------------------------------------------------------------

/// How the tracks that are not kept go away when no track is playing: all at
/// once when none is kept (unless the current track is among the desired
/// items, then none goes), one by one otherwise.
pub open spec fn spec_clearing(ids: Seq<u32>, keep: Seq<bool>, current_in_new: bool) -> Seq<PlaylistOp> {
    if count_true(keep) == 0 && count_false(keep) > 0 {
        if current_in_new {
            Seq::empty()
        } else {
            seq![PlaylistOp::DeleteAll]
        }
    } else {
        spec_deletes(ids, keep)
    }
}

/// The plan without a playing track: clearing, then rebuilding the whole
/// playlist from its head.
pub open spec fn spec_standard_plan(ids: Seq<u32>, keep_c: Seq<bool>, keep_d: Seq<bool>, current_in_new: bool) -> Seq<
    PlaylistOp,
> {
    spec_clearing(ids, keep_c, current_in_new) + spec_rebuild(keep_d, select(ids, keep_c), Anchor::Head, 0, 0)
}

/// The plan around a playing track that is also desired (the pivot, at
/// position `pivot_new` among the desired items): the tracks before and
/// after it are diffed apart; deletions come first (after it, then before
/// it), then the part before it is rebuilt from the head, the pivot keeps
/// its track, and the part after it is rebuilt after the pivot.
pub open spec fn spec_pivot_plan(
    before: Seq<u32>,
    keep_ob: Seq<bool>,
    after: Seq<u32>,
    keep_oa: Seq<bool>,
    keep_nb: Seq<bool>,
    keep_na: Seq<bool>,
    pivot: u32,
    pivot_new: nat,
) -> Seq<PlaylistOp> {
    spec_deletes(after, keep_oa) + spec_deletes(before, keep_ob) + spec_rebuild(
        keep_nb,
        select(before, keep_ob),
        Anchor::Head,
        0,
        0,
    ) + seq![PlaylistOp::Keep(pivot, pivot_new as usize)] + spec_rebuild(
        keep_na,
        select(after, keep_oa),
        Anchor::Existing(pivot),
        pivot_new + 1,
        count_false(keep_nb),
    )
}

/// Flags set exactly on the occurrences of `p`.
pub open spec fn flags_is(ids: Seq<u32>, p: u32) -> Seq<bool> {
    Seq::new(ids.len(), |i: int| ids[i] == p)
}

/// `n` clear flags.
pub open spec fn all_false(n: nat) -> Seq<bool> {
    Seq::new(n, |i: int| false)
}

/// The plan around a playing track that is not desired: every other track
/// is deleted (from the last), and the `n` desired items are inserted after
/// the playing one, which stays first.
pub open spec fn spec_preserve_plan(ids: Seq<u32>, playing: u32, n: nat) -> Seq<PlaylistOp> {
    spec_deletes(ids, flags_is(ids, playing)) + spec_rebuild(all_false(n), Seq::empty(), Anchor::Existing(playing), 0, 0)
}

proof fn lemma_select_len(ids: Seq<u32>, keep: Seq<bool>)
    requires
        keep.len() == ids.len(),
    ensures
        select(ids, keep).len() == count_true(keep),
    decreases ids.len(),
{
    if ids.len() > 0 {
        let n = ids.len() - 1;
        assert(keep.take(n) =~= keep.drop_last());
        lemma_select_len(ids.drop_last(), keep.take(n));
    }
}

proof fn lemma_select_none(ids: Seq<u32>, p: u32)
    requires
        !ids.contains(p),
    ensures
        select(ids, flags_is(ids, p)) == Seq::<u32>::empty(),
    decreases ids.len(),
{
    if ids.len() > 0 {
        let n = ids.len() - 1;
        assert(flags_is(ids, p).take(n) =~= flags_is(ids.drop_last(), p));
        assert(!ids.drop_last().contains(p)) by {
            if ids.drop_last().contains(p) {
                let i = choose|i: int| 0 <= i < n && ids.drop_last()[i] == p;
                assert(ids[i] == p);
            }
        }
        assert(ids[n] != p);
        lemma_select_none(ids.drop_last(), p);
    }
}

proof fn lemma_select_one(ids: Seq<u32>, p: u32)
    requires
        ids.no_duplicates(),
        ids.contains(p),
    ensures
        select(ids, flags_is(ids, p)) == seq![p],
    decreases ids.len(),
{
    let n = ids.len() - 1;
    let front = ids.drop_last();
    assert(flags_is(ids, p).take(n) =~= flags_is(front, p));
    assert(front.no_duplicates());
    if ids[n] == p {
        assert(!front.contains(p)) by {
            if front.contains(p) {
                let i = choose|i: int| 0 <= i < n && front[i] == p;
                assert(ids[i] == ids[n]);
            }
        }
        lemma_select_none(front, p);
        assert(select(ids, flags_is(ids, p)) =~= seq![p]);
    } else {
        assert(front.contains(p)) by {
            let i = choose|i: int| 0 <= i < ids.len() && ids[i] == p;
            assert(front[i] == p);
        }
        lemma_select_one(front, p);
        assert(select(ids, flags_is(ids, p)) =~= seq![p]);
    }
}

proof fn lemma_all_false(n: nat, kept: Seq<u32>, fresh: Seq<u32>, j: nat)
    requires
        j + n <= fresh.len(),
    ensures
        count_true(all_false(n)) == 0,
        count_false(all_false(n)) == n,
        spec_layout(all_false(n), kept, fresh, j) == fresh.subrange(j as int, (j + n) as int),
    decreases n,
{
    if n > 0 {
        assert(all_false(n).drop_last() =~= all_false((n - 1) as nat));
        assert(all_false(n).drop_first() =~= all_false((n - 1) as nat));
        lemma_all_false((n - 1) as nat, kept, fresh, j);
        lemma_all_false((n - 1) as nat, kept, fresh, j + 1);
        assert(seq![fresh[j as int]] + fresh.subrange((j + 1) as int, (j + n) as int) =~= fresh.subrange(j as int, (j + n) as int));
    } else {
        assert(fresh.subrange(j as int, j as int) =~= Seq::<u32>::empty());
    }
}

/// Without a playing track, a synchronisation whose diff pairs up as many
/// kept tracks as present items leaves the playlist laid out as the desired
/// items: kept tracks and new ones in the desired order, nothing else. It
/// holds whenever the tracks go away (see `spec_clearing`): the one case
/// where none goes although none is kept leaves the old tracks after the new
/// ones.
pub proof fn law_standard_sync_lays_out_desired_items(
    ids: Seq<u32>,
    keep_c: Seq<bool>,
    keep_d: Seq<bool>,
    current_in_new: bool,
    fresh: Seq<u32>,
)
    requires
        ids_ok(ids),
        keep_c.len() == ids.len(),
        count_true(keep_d) == count_true(keep_c),
        !(count_true(keep_c) == 0 && count_false(keep_c) > 0 && current_in_new),
        fresh_ok(fresh, 0, ids),
        count_false(keep_d) <= fresh.len() <= usize::MAX,
    ensures
        apply_ops(ids, spec_standard_plan(ids, keep_c, keep_d, current_in_new), fresh, 0) == spec_layout(
            keep_d,
            select(ids, keep_c),
            fresh,
            0,
        ),
{
    let e = Seq::<u32>::empty();
    let kept = select(ids, keep_c);
    let clear = spec_clearing(ids, keep_c, current_in_new);
    let build = spec_rebuild(keep_d, kept, Anchor::Head, 0, 0);
    lemma_select_len(ids, keep_c);
    lemma_apply_concat(ids, clear, build, fresh, 0);
    if count_true(keep_c) == 0 && count_false(keep_c) > 0 {
        lemma_apply_single(ids, PlaylistOp::DeleteAll, fresh, 0);
        assert(kept =~= e);
        assert(e + kept + e =~= e);
        assert(fresh_ok(fresh, 0, e + kept + e));
        lemma_rebuild(e, kept, e, keep_d, Anchor::Head, 0, fresh, 0);
        assert(e + spec_layout(keep_d, kept, fresh, 0) + e =~= spec_layout(keep_d, kept, fresh, 0));
    } else {
        assert(e + ids + e =~= ids);
        lemma_deletes(e, ids, e, keep_c, fresh, 0);
        assert(e + kept + e =~= kept);
        lemma_rebuild(e, kept, e, keep_d, Anchor::Head, 0, fresh, 0);
        assert(e + spec_layout(keep_d, kept, fresh, 0) + e =~= spec_layout(keep_d, kept, fresh, 0));
    }
}

/// Around a playing track that stays desired, a synchronisation whose diffs
/// pair up on both sides keeps the playing track (same id) and lays out the
/// desired items before and after it.
pub proof fn law_pivot_sync_keeps_playing_track(
    before: Seq<u32>,
    pivot: u32,
    after: Seq<u32>,
    keep_ob: Seq<bool>,
    keep_oa: Seq<bool>,
    keep_nb: Seq<bool>,
    keep_na: Seq<bool>,
    pivot_new: nat,
    fresh: Seq<u32>,
)
    requires
        ids_ok(before + seq![pivot] + after),
        keep_ob.len() == before.len(),
        keep_oa.len() == after.len(),
        count_true(keep_nb) == count_true(keep_ob),
        count_true(keep_na) == count_true(keep_oa),
        fresh_ok(fresh, 0, before + seq![pivot] + after),
        count_false(keep_nb) + count_false(keep_na) <= fresh.len() <= usize::MAX,
        pivot_new < usize::MAX,
    ensures
        apply_ops(
            before + seq![pivot] + after,
            spec_pivot_plan(before, keep_ob, after, keep_oa, keep_nb, keep_na, pivot, pivot_new),
            fresh,
            0,
        ) == spec_layout(keep_nb, select(before, keep_ob), fresh, 0) + seq![pivot] + spec_layout(
            keep_na,
            select(after, keep_oa),
            fresh,
            count_false(keep_nb),
        ),
{
    let e = Seq::<u32>::empty();
    let p = seq![pivot];
    let s0 = before + p + after;
    let sb = select(before, keep_ob);
    let sa = select(after, keep_oa);
    let nb = count_false(keep_nb);
    let d_after = spec_deletes(after, keep_oa);
    let d_before = spec_deletes(before, keep_ob);
    let r_before = spec_rebuild(keep_nb, sb, Anchor::Head, 0, 0);
    let k = seq![PlaylistOp::Keep(pivot, pivot_new as usize)];
    let r_after = spec_rebuild(keep_na, sa, Anchor::Existing(pivot), pivot_new + 1, nb);
    lemma_select_len(before, keep_ob);
    lemma_select_len(after, keep_oa);
    // deletions after the pivot
    assert((before + p) + after + e =~= s0);
    lemma_deletes(before + p, after, e, keep_oa, fresh, 0);
    let s1 = before + p + sa;
    assert((before + p) + sa + e =~= s1);
    // deletions before the pivot
    assert(e + before + (p + sa) =~= s1);
    lemma_deletes(e, before, p + sa, keep_ob, fresh, 0);
    let s2 = sb + p + sa;
    assert(e + sb + (p + sa) =~= s2);
    // rebuilding before the pivot
    lemma_rebuild(e, sb, p + sa, keep_nb, Anchor::Head, 0, fresh, 0);
    let lb = spec_layout(keep_nb, sb, fresh, 0);
    let s3 = lb + p + sa;
    assert(e + lb + (p + sa) =~= s3);
    // rebuilding after the pivot
    assert((lb + p).last() == pivot);
    assert((lb + p) + sa + e =~= s3);
    lemma_rebuild(lb + p, sa, e, keep_na, Anchor::Existing(pivot), pivot_new + 1, fresh, nb);
    let la = spec_layout(keep_na, sa, fresh, nb);
    assert((lb + p) + la + e =~= lb + p + la);
    // composing the plan
    lemma_apply_concat(s0, d_after, d_before, fresh, 0);
    lemma_apply_concat(s0, d_after + d_before, r_before, fresh, 0);
    lemma_apply_concat(s0, d_after + d_before + r_before, k, fresh, 0);
    lemma_apply_concat(s0, d_after + d_before + r_before + k, r_after, fresh, 0);
    lemma_apply_single(s3, PlaylistOp::Keep(pivot, pivot_new as usize), fresh, nb);
}

/// Around a playing track that is no longer desired, the synchronisation
/// leaves the playing track first, followed by the desired items.
pub proof fn law_preserve_sync_keeps_playing_first(ids: Seq<u32>, playing: u32, n: nat, fresh: Seq<u32>)
    requires
        ids_ok(ids),
        ids.contains(playing),
        fresh_ok(fresh, 0, ids),
        n <= fresh.len() <= usize::MAX,
    ensures
        apply_ops(ids, spec_preserve_plan(ids, playing, n), fresh, 0) == seq![playing] + fresh.take(n as int),
{
    let e = Seq::<u32>::empty();
    let fl = flags_is(ids, playing);
    lemma_select_one(ids, playing);
    assert(e + ids + e =~= ids);
    lemma_deletes(e, ids, e, fl, fresh, 0);
    let s1 = seq![playing];
    assert(e + select(ids, fl) + e =~= s1);
    lemma_all_false(n, e, fresh, 0);
    assert(s1 + e + e =~= s1);
    lemma_rebuild(s1, e, e, all_false(n), Anchor::Existing(playing), 0, fresh, 0);
    lemma_apply_concat(ids, spec_deletes(ids, fl), spec_rebuild(all_false(n), e, Anchor::Existing(playing), 0, 0), fresh, 0);
    assert(s1 + fresh.subrange(0, n as int) + e =~= seq![playing] + fresh.take(n as int));
}

// ---------------------------------------------------------------------------
// Building the plans
// ---------------------------------------------------------------------------

/// Rebuilding a section, stopping where a present item finds no kept track
/// left (then the flag is set).
pub open spec fn spec_rebuild_checked(flags: Seq<bool>, kept: Seq<u32>, anchor: Anchor, base: nat, j: nat) -> (Seq<
    PlaylistOp,
>, bool)
    decreases flags.len(),
{
    if flags.len() == 0 {
        (Seq::empty(), false)
    } else if flags[0] {
        if kept.len() == 0 {
            (Seq::empty(), true)
        } else {
            let (o, u) = spec_rebuild_checked(
                flags.drop_first(),
                kept.drop_first(),
                Anchor::Existing(kept[0]),
                base + 1,
                j,
            );
            (seq![PlaylistOp::Keep(kept[0], base as usize)] + o, u)
        }
    } else {
        let (o, u) = spec_rebuild_checked(flags.drop_first(), kept, Anchor::Inserted(j as usize), base + 1, j + 1);
        (seq![PlaylistOp::Insert(anchor, base as usize)] + o, u)
    }
}

proof fn lemma_checked(flags: Seq<bool>, kept: Seq<u32>, anchor: Anchor, base: nat, j: nat)
    ensures
        spec_rebuild_checked(flags, kept, anchor, base, j).1 == (count_true(flags) > kept.len()),
        count_true(flags) <= kept.len() ==> spec_rebuild_checked(flags, kept, anchor, base, j).0 == spec_rebuild(
            flags,
            kept,
            anchor,
            base,
            j,
        ),
    decreases flags.len(),
{
    if flags.len() > 0 {
        lemma_count_true_first(flags);
        let rest = flags.drop_first();
        lemma_count_true_bound(rest);
        if flags[0] {
            if kept.len() > 0 {
                lemma_checked(rest, kept.drop_first(), Anchor::Existing(kept[0]), base + 1, j);
            }
        } else {
            lemma_checked(rest, kept, Anchor::Inserted(j as usize), base + 1, j + 1);
        }
    }
}

/// Every operation refers to an item below `n` and to an insertion made
/// before it, `done` insertions having been made before the plan.
pub open spec fn wf_from(ops: Seq<PlaylistOp>, done: nat, n: nat) -> bool {
    forall|i: int| 0 <= i < ops.len() ==> op_wf(#[trigger] ops[i], done + count_inserts(ops.take(i)), n)
}

proof fn lemma_wf_concat(a: Seq<PlaylistOp>, b: Seq<PlaylistOp>, done: nat, n: nat)
    requires
        wf_from(a, done, n),
        wf_from(b, done + count_inserts(a), n),
    ensures
        wf_from(a + b, done, n),
{
    let c = a + b;
    assert forall|i: int| 0 <= i < c.len() implies op_wf(#[trigger] c[i], done + count_inserts(c.take(i)), n) by {
        if i < a.len() {
            assert(c.take(i) =~= a.take(i));
            assert(c[i] == a[i]);
        } else {
            let k = i - a.len();
            assert(c.take(i) =~= a + b.take(k));
            lemma_apply_concat(Seq::empty(), a, b.take(k), Seq::empty(), 0);
            assert(c[i] == b[k]);
        }
    }
}

proof fn lemma_wf_deletes(ids: Seq<u32>, keep: Seq<bool>, done: nat, n: nat)
    ensures
        wf_from(spec_deletes(ids, keep), done, n),
        count_inserts(spec_deletes(ids, keep)) == 0,
    decreases ids.len(),
{
    if ids.len() > 0 {
        let m = ids.len() - 1;
        let head: Seq<PlaylistOp> = if keep[m] {
            Seq::empty()
        } else {
            seq![PlaylistOp::Delete(ids.last())]
        };
        lemma_wf_deletes(ids.drop_last(), keep.take(m), done, n);
        assert(wf_from(head, done, n));
        if !keep[m] {
            lemma_apply_single(Seq::empty(), PlaylistOp::Delete(ids.last()), Seq::empty(), 0);
        } else {
            assert(count_inserts(head) == 0);
        }
        lemma_wf_concat(head, spec_deletes(ids.drop_last(), keep.take(m)), done, n);
        lemma_apply_concat(Seq::empty(), head, spec_deletes(ids.drop_last(), keep.take(m)), Seq::empty(), 0);
    } else {
        assert(count_inserts(Seq::<PlaylistOp>::empty()) == 0);
    }
}

proof fn lemma_wf_rebuild(flags: Seq<bool>, kept: Seq<u32>, anchor: Anchor, base: nat, j: nat, n: nat)
    requires
        anchor_wf(anchor, j),
        base + flags.len() <= n,
        base + flags.len() <= usize::MAX,
        j + flags.len() <= usize::MAX,
    ensures
        wf_from(spec_rebuild_checked(flags, kept, anchor, base, j).0, j, n),
    decreases flags.len(),
{
    if flags.len() > 0 {
        let rest = flags.drop_first();
        if flags[0] {
            if kept.len() > 0 {
                let op = PlaylistOp::Keep(kept[0], base as usize);
                lemma_wf_rebuild(rest, kept.drop_first(), Anchor::Existing(kept[0]), base + 1, j, n);
                lemma_apply_single(Seq::empty(), op, Seq::empty(), 0);
                assert(wf_from(seq![op], j, n)) by {
                    assert(seq![op].take(0) =~= Seq::<PlaylistOp>::empty());
                }
                lemma_wf_concat(seq![op], spec_rebuild_checked(rest, kept.drop_first(), Anchor::Existing(kept[0]), base + 1, j).0, j, n);
            }
        } else {
            let op = PlaylistOp::Insert(anchor, base as usize);
            lemma_wf_rebuild(rest, kept, Anchor::Inserted(j as usize), base + 1, j + 1, n);
            lemma_apply_single(Seq::empty(), op, Seq::empty(), 0);
            assert(wf_from(seq![op], j, n)) by {
                assert(seq![op].take(0) =~= Seq::<PlaylistOp>::empty());
                assert(count_inserts(Seq::<PlaylistOp>::empty()) == 0);
            }
            lemma_wf_concat(seq![op], spec_rebuild_checked(rest, kept, Anchor::Inserted(j as usize), base + 1, j + 1).0, j, n);
        }
    }
}

/// A synchronisation plan: the operations to perform, then the failure to
/// report, if any.
#[derive(Debug)]
pub struct SyncPlan {
    pub ops: Vec<PlaylistOp>,
    pub failure: Option<String>,
}

/// The ids whose flag is set, in order.
pub fn select_ids(ids: &[u32], keep: &[bool]) -> (r: Vec<u32>)
    requires
        keep@.len() == ids@.len(),
    ensures
        r@ == select(ids@, keep@),
{
    let mut out: Vec<u32> = Vec::new();
    let mut i: usize = 0;
    while i < ids.len()
        invariant
            keep@.len() == ids@.len(),
            i <= ids@.len(),
            out@ == select(ids@.take(i as int), keep@.take(i as int)),
        decreases ids@.len() - i,
    {
        proof {
            assert(ids@.take(i + 1).drop_last() =~= ids@.take(i as int));
            assert(keep@.take(i + 1).take(i as int) =~= keep@.take(i as int));
            assert(ids@.take(i + 1).last() == ids@[i as int]);
        }
        if keep[i] {
            out.push(ids[i]);
        }
        i = i + 1;
        proof {
            assert(out@ =~= select(ids@.take(i as int), keep@.take(i as int)));
        }
    }
    proof {
        assert(ids@.take(ids@.len() as int) =~= ids@);
        assert(keep@.take(keep@.len() as int) =~= keep@);
    }
    out
}

/// Appends the deletions of the ids whose flag is clear, from the last.
pub fn push_deletes(ops: &mut Vec<PlaylistOp>, ids: &[u32], keep: &[bool])
    requires
        keep@.len() == ids@.len(),
    ensures
        final(ops)@ == old(ops)@ + spec_deletes(ids@, keep@),
{
    let mut i: usize = ids.len();
    proof {
        assert(ids@.take(ids@.len() as int) =~= ids@);
        assert(keep@.take(keep@.len() as int) =~= keep@);
    }
    while i > 0
        invariant
            keep@.len() == ids@.len(),
            i <= ids@.len(),
            old(ops)@ + spec_deletes(ids@, keep@) == ops@ + spec_deletes(ids@.take(i as int), keep@.take(i as int)),
        decreases i,
    {
        let ghost before = ops@;
        proof {
            assert(ids@.take(i as int).drop_last() =~= ids@.take(i - 1));
            assert(keep@.take(i as int).take(i - 1) =~= keep@.take(i - 1));
            assert(ids@.take(i as int).last() == ids@[i - 1]);
        }
        if !keep[i - 1] {
            ops.push(PlaylistOp::Delete(ids[i - 1]));
            proof {
                assert(before + (seq![PlaylistOp::Delete(ids@[i - 1])] + spec_deletes(ids@.take(i - 1), keep@.take(i - 1)))
                    =~= ops@ + spec_deletes(ids@.take(i - 1), keep@.take(i - 1)));
            }
        } else {
            proof {
                assert(Seq::<PlaylistOp>::empty() + spec_deletes(ids@.take(i - 1), keep@.take(i - 1)) =~= spec_deletes(
                    ids@.take(i - 1),
                    keep@.take(i - 1),
                ));
            }
        }
        i = i - 1;
    }
    proof {
        assert(ids@.take(0) =~= Seq::<u32>::empty());
        assert(ops@ + Seq::<PlaylistOp>::empty() =~= ops@);
    }
}

/// Outcome of appending a section rebuild: whether a present item found no
/// kept track left, the number of the next insertion, and how many kept
/// tracks were used.
pub struct RebuildOutcome {
    pub underflow: bool,
    pub next_insert: usize,
    pub used: usize,
}

/// Appends the rebuild of a section (see [`spec_rebuild_checked`]).
pub fn push_rebuild(ops: &mut Vec<PlaylistOp>, flags: &[bool], kept: &[u32], anchor: Anchor, base: usize, j: usize) -> (r:
    RebuildOutcome)
    requires
        base + flags@.len() <= usize::MAX,
        j + flags@.len() <= usize::MAX,
    ensures
        final(ops)@ == old(ops)@ + spec_rebuild_checked(flags@, kept@, anchor, base as nat, j as nat).0,
        r.underflow == spec_rebuild_checked(flags@, kept@, anchor, base as nat, j as nat).1,
        r.underflow == (count_true(flags@) > kept@.len()),
        !r.underflow ==> r.used == count_true(flags@) && r.next_insert == j + count_false(flags@),
{
    proof {
        lemma_checked(flags@, kept@, anchor, base as nat, j as nat);
        assert(flags@.skip(0) =~= flags@);
        assert(kept@.skip(0) =~= kept@);
        assert(flags@.take(0) =~= Seq::<bool>::empty());
    }
    let mut i: usize = 0;
    let mut k: usize = 0;
    let mut jj: usize = j;
    let mut a: Anchor = anchor;
    let ghost full = spec_rebuild_checked(flags@, kept@, anchor, base as nat, j as nat);
    while i < flags.len()
        invariant
            base + flags@.len() <= usize::MAX,
            j + flags@.len() <= usize::MAX,
            full == spec_rebuild_checked(flags@, kept@, anchor, base as nat, j as nat),
            i <= flags@.len(),
            k <= kept@.len(),
            k == count_true(flags@.take(i as int)),
            jj == j + (i - k),
            old(ops)@ + full.0 == ops@ + spec_rebuild_checked(flags@.skip(i as int), kept@.skip(k as int), a, (base + i) as nat, jj as nat).0,
            full.1 == spec_rebuild_checked(flags@.skip(i as int), kept@.skip(k as int), a, (base + i) as nat, jj as nat).1,
        decreases flags@.len() - i,
    {
        let ghost fs = flags@.skip(i as int);
        let ghost ks = kept@.skip(k as int);
        let ghost before = ops@;
        proof {
            assert(fs[0] == flags@[i as int]);
            assert(fs.drop_first() =~= flags@.skip(i + 1));
            assert(flags@.take(i + 1).drop_last() =~= flags@.take(i as int));
            assert(flags@.take(i + 1).last() == flags@[i as int]);
            lemma_count_true_bound(flags@.take(i as int));
        }
        if flags[i] {
            if k >= kept.len() {
                proof {
                    assert(ks.len() == 0);
                    assert(spec_rebuild_checked(fs, ks, a, (base + i) as nat, jj as nat).0 =~= Seq::<PlaylistOp>::empty());
                    assert(ops@ + Seq::<PlaylistOp>::empty() =~= ops@);
                    lemma_checked(flags@, kept@, anchor, base as nat, j as nat);
                }
                return RebuildOutcome { underflow: true, next_insert: jj, used: k };
            }
            let id = kept[k];
            proof {
                assert(ks[0] == id);
                assert(ks.drop_first() =~= kept@.skip(k + 1));
            }
            ops.push(PlaylistOp::Keep(id, base + i));
            proof {
                let rest = spec_rebuild_checked(flags@.skip(i + 1), kept@.skip(k + 1), Anchor::Existing(id), (base + i + 1) as nat, jj as nat).0;
                assert(before + (seq![PlaylistOp::Keep(id, (base + i) as usize)] + rest) =~= ops@ + rest);
            }
            a = Anchor::Existing(id);
            k = k + 1;
        } else {
            ops.push(PlaylistOp::Insert(a, base + i));
            proof {
                let rest = spec_rebuild_checked(flags@.skip(i + 1), ks, Anchor::Inserted(jj as usize), (base + i + 1) as nat, (jj + 1) as nat).0;
                assert(before + (seq![PlaylistOp::Insert(a, (base + i) as usize)] + rest) =~= ops@ + rest);
            }
            a = Anchor::Inserted(jj);
            jj = jj + 1;
        }
        i = i + 1;
    }
    proof {
        assert(flags@.skip(i as int) =~= Seq::<bool>::empty());
        assert(ops@ + Seq::<PlaylistOp>::empty() =~= ops@);
        assert(flags@.take(i as int) =~= flags@);
        lemma_count_true_bound(flags@);
        lemma_checked(flags@, kept@, anchor, base as nat, j as nat);
    }
    RebuildOutcome { underflow: false, next_insert: jj, used: k }
}

/// Number of set flags.
pub fn count_flags(flags: &[bool]) -> (r: usize)
    ensures
        r == count_true(flags@),
{
    let mut n: usize = 0;
    let mut i: usize = 0;
    while i < flags.len()
        invariant
            i <= flags@.len(),
            n == count_true(flags@.take(i as int)),
            n <= i,
        decreases flags@.len() - i,
    {
        proof {
            assert(flags@.take(i + 1).drop_last() =~= flags@.take(i as int));
            assert(flags@.take(i + 1).last() == flags@[i as int]);
        }
        if flags[i] {
            n = n + 1;
        }
        i = i + 1;
    }
    proof {
        assert(flags@.take(i as int) =~= flags@);
    }
    n
}

/// The failure a plan without a playing track ends with: a present item
/// that finds no kept track left, or kept tracks left over.
pub open spec fn spec_standard_failure(ids: Seq<u32>, keep_c: Seq<bool>, keep_d: Seq<bool>) -> Option<Seq<char>> {
    if spec_rebuild_checked(keep_d, select(ids, keep_c), Anchor::Head, 0, 0).1 {
        Some("OpenHome playlist refresh bookkeeping mismatch (kept entries underflow)"@)
    } else if count_true(keep_d) != count_true(keep_c) {
        Some("OpenHome playlist refresh bookkeeping mismatch (kept entries overflow)"@)
    } else {
        None
    }
}

/// The plan of a synchronisation without a playing track, from the current
/// ids, the diff flags of the current and desired items, and whether the
/// current track is among the desired items.
pub fn plan_standard(ids: &[u32], keep_c: &[bool], keep_d: &[bool], current_in_new: bool) -> (r: SyncPlan)
    requires
        keep_c@.len() == ids@.len(),
    ensures
        r.ops@ == spec_clearing(ids@, keep_c@, current_in_new) + spec_rebuild_checked(
            keep_d@,
            select(ids@, keep_c@),
            Anchor::Head,
            0,
            0,
        ).0,
        crate::text::opt_view(&r.failure) == spec_standard_failure(ids@, keep_c@, keep_d@),
        count_true(keep_d@) == count_true(keep_c@) ==> r.ops@ == spec_standard_plan(ids@, keep_c@, keep_d@, current_in_new)
            && r.failure is None,
        plan_wf(r.ops@, keep_d@.len()),
{
    let mut ops: Vec<PlaylistOp> = Vec::new();
    let keep_count = count_flags(keep_c);
    proof {
        lemma_count_true_bound(keep_c@);
    }
    if keep_count == 0 && keep_count < keep_c.len() {
        if !current_in_new {
            ops.push(PlaylistOp::DeleteAll);
        }
        proof {
            assert(ops@ =~= spec_clearing(ids@, keep_c@, current_in_new));
        }
    } else {
        push_deletes(&mut ops, ids, keep_c);
        proof {
            assert(ops@ =~= spec_clearing(ids@, keep_c@, current_in_new));
        }
    }
    let kept = select_ids(ids, keep_c);
    proof {
        lemma_select_len(ids@, keep_c@);
    }
    let _desired_len = keep_d.len();
    let out = push_rebuild(&mut ops, keep_d, kept.as_slice(), Anchor::Head, 0, 0);
    let desired_count = count_flags(keep_d);
    let failure = if out.underflow {
        Some(msg("OpenHome playlist refresh bookkeeping mismatch (kept entries underflow)"))
    } else if desired_count != keep_count {
        Some(msg("OpenHome playlist refresh bookkeeping mismatch (kept entries overflow)"))
    } else {
        None
    };
    proof {
        lemma_checked(keep_d@, kept@, Anchor::Head, 0, 0);
        let clear = spec_clearing(ids@, keep_c@, current_in_new);
        lemma_wf_deletes(ids@, keep_c@, 0, keep_d@.len());
        lemma_apply_single(Seq::empty(), PlaylistOp::DeleteAll, Seq::empty(), 0);
        assert(wf_from(clear, 0, keep_d@.len()) && count_inserts(clear) == 0) by {
            if count_true(keep_c@) == 0 && count_false(keep_c@) > 0 {
                if current_in_new {
                    assert(count_inserts(Seq::<PlaylistOp>::empty()) == 0);
                } else {
                    assert(seq![PlaylistOp::DeleteAll].take(0) =~= Seq::<PlaylistOp>::empty());
                }
            }
        }
        lemma_wf_rebuild(keep_d@, kept@, Anchor::Head, 0, 0, keep_d@.len());
        lemma_wf_concat(clear, spec_rebuild_checked(keep_d@, kept@, Anchor::Head, 0, 0).0, 0, keep_d@.len());
        assert forall|i: int| 0 <= i < ops@.len() implies op_wf(#[trigger] ops@[i], count_inserts(ops@.take(i)), keep_d@.len()) by {
            assert(op_wf(ops@[i], 0 + count_inserts(ops@.take(i)), keep_d@.len()));
        }
    }
    SyncPlan { ops, failure }
}

/// The plan around a playing track that stays desired (see
/// [`spec_pivot_plan`]); each side must not find more present items than
/// kept tracks.
pub fn plan_pivot(
    before: &[u32],
    keep_ob: &[bool],
    after: &[u32],
    keep_oa: &[bool],
    keep_nb: &[bool],
    keep_na: &[bool],
    pivot: u32,
    pivot_new: usize,
) -> (r: Vec<PlaylistOp>)
    requires
        keep_ob@.len() == before@.len(),
        keep_oa@.len() == after@.len(),
        count_true(keep_nb@) <= count_true(keep_ob@),
        count_true(keep_na@) <= count_true(keep_oa@),
        pivot_new + 1 + keep_na@.len() <= usize::MAX,
        keep_nb@.len() == pivot_new,
    ensures
        r@ == spec_pivot_plan(before@, keep_ob@, after@, keep_oa@, keep_nb@, keep_na@, pivot, pivot_new as nat),
        plan_wf(r@, (pivot_new + 1 + keep_na@.len()) as nat),
{
    let mut ops: Vec<PlaylistOp> = Vec::new();
    push_deletes(&mut ops, after, keep_oa);
    push_deletes(&mut ops, before, keep_ob);
    let kept_before = select_ids(before, keep_ob);
    let kept_after = select_ids(after, keep_oa);
    proof {
        lemma_select_len(before@, keep_ob@);
        lemma_select_len(after@, keep_oa@);
        lemma_count_true_bound(keep_nb@);
    }
    let ob = push_rebuild(&mut ops, keep_nb, kept_before.as_slice(), Anchor::Head, 0, 0);
    ops.push(PlaylistOp::Keep(pivot, pivot_new));
    let oa = push_rebuild(&mut ops, keep_na, kept_after.as_slice(), Anchor::Existing(pivot), pivot_new + 1, ob.next_insert);
    proof {
        lemma_checked(keep_nb@, kept_before@, Anchor::Head, 0, 0);
        lemma_checked(keep_na@, kept_after@, Anchor::Existing(pivot), (pivot_new + 1) as nat, count_false(keep_nb@));
        assert(ops@ =~= spec_pivot_plan(before@, keep_ob@, after@, keep_oa@, keep_nb@, keep_na@, pivot, pivot_new as nat));
        let n = (pivot_new + 1 + keep_na@.len()) as nat;
        let da = spec_deletes(after@, keep_oa@);
        let db = spec_deletes(before@, keep_ob@);
        let rb = spec_rebuild_checked(keep_nb@, kept_before@, Anchor::Head, 0, 0).0;
        let k = seq![PlaylistOp::Keep(pivot, pivot_new)];
        let ra = spec_rebuild_checked(keep_na@, kept_after@, Anchor::Existing(pivot), (pivot_new + 1) as nat, count_false(keep_nb@)).0;
        lemma_wf_deletes(after@, keep_oa@, 0, n);
        lemma_wf_deletes(before@, keep_ob@, 0, n);
        lemma_wf_concat(da, db, 0, n);
        lemma_apply_concat(Seq::empty(), da, db, Seq::empty(), 0);
        lemma_wf_rebuild(keep_nb@, kept_before@, Anchor::Head, 0, 0, n);
        lemma_wf_concat(da + db, rb, 0, n);
        lemma_apply_concat(Seq::empty(), da + db, rb, Seq::empty(), 0);
        lemma_apply_single(Seq::empty(), PlaylistOp::Keep(pivot, pivot_new), Seq::empty(), 0);
        assert(wf_from(k, count_inserts(da + db + rb), n)) by {
            assert(k.take(0) =~= Seq::<PlaylistOp>::empty());
        }
        lemma_wf_concat(da + db + rb, k, 0, n);
        lemma_apply_concat(Seq::empty(), da + db + rb, k, Seq::empty(), 0);
        lemma_count_true_bound(keep_nb@);
        lemma_wf_rebuild(keep_na@, kept_after@, Anchor::Existing(pivot), (pivot_new + 1) as nat, count_false(keep_nb@), n);
        assert(count_inserts(rb) == count_false(keep_nb@)) by {
            lemma_rebuild_inserts(keep_nb@, kept_before@, Anchor::Head, 0, 0);
        }
        lemma_wf_concat(da + db + rb + k, ra, 0, n);
        assert forall|i: int| 0 <= i < ops@.len() implies op_wf(#[trigger] ops@[i], count_inserts(ops@.take(i)), n) by {
            assert(op_wf(ops@[i], 0 + count_inserts(ops@.take(i)), n));
        }
    }
    ops
}

/// The plan around a playing track that is no longer desired (see
/// [`spec_preserve_plan`]) for `n` desired items.
pub fn plan_preserve(ids: &[u32], playing: u32, n: usize) -> (r: Vec<PlaylistOp>)
    ensures
        r@ == spec_preserve_plan(ids@, playing, n as nat),
        plan_wf(r@, n as nat),
{
    let mut flags: Vec<bool> = Vec::new();
    let mut i: usize = 0;
    while i < ids.len()
        invariant
            i <= ids@.len(),
            flags@ == flags_is(ids@, playing).take(i as int),
        decreases ids@.len() - i,
    {
        flags.push(ids[i] == playing);
        i = i + 1;
        proof {
            assert(flags@ =~= flags_is(ids@, playing).take(i as int));
        }
    }
    proof {
        assert(flags@ =~= flags_is(ids@, playing));
    }
    let mut ops: Vec<PlaylistOp> = Vec::new();
    push_deletes(&mut ops, ids, flags.as_slice());
    let mut none: Vec<bool> = Vec::new();
    let mut c: usize = 0;
    while c < n
        invariant
            c <= n,
            none@ == all_false(c as nat),
        decreases n - c,
    {
        none.push(false);
        c = c + 1;
        proof {
            assert(none@ =~= all_false(c as nat));
        }
    }
    let empty: Vec<u32> = Vec::new();
    proof {
        lemma_all_false(n as nat, empty@, Seq::new(n as nat, |i: int| 0u32), 0);
    }
    let _ = push_rebuild(&mut ops, none.as_slice(), empty.as_slice(), Anchor::Existing(playing), 0, 0);
    proof {
        lemma_checked(none@, empty@, Anchor::Existing(playing), 0, 0);
        assert(empty@ =~= Seq::<u32>::empty());
        assert(ops@ =~= spec_preserve_plan(ids@, playing, n as nat));
        let d = spec_deletes(ids@, flags@);
        lemma_wf_deletes(ids@, flags@, 0, n as nat);
        lemma_wf_rebuild(none@, empty@, Anchor::Existing(playing), 0, 0, n as nat);
        lemma_wf_concat(d, spec_rebuild_checked(none@, empty@, Anchor::Existing(playing), 0, 0).0, 0, n as nat);
        assert forall|i: int| 0 <= i < ops@.len() implies op_wf(#[trigger] ops@[i], count_inserts(ops@.take(i)), n as nat) by {
            assert(op_wf(ops@[i], 0 + count_inserts(ops@.take(i)), n as nat));
        }
    }
    ops
}

proof fn lemma_rebuild_inserts(flags: Seq<bool>, kept: Seq<u32>, anchor: Anchor, base: nat, j: nat)
    requires
        count_true(flags) <= kept.len(),
    ensures
        count_inserts(spec_rebuild_checked(flags, kept, anchor, base, j).0) == count_false(flags),
    decreases flags.len(),
{
    lemma_count_true_bound(flags);
    if flags.len() > 0 {
        lemma_count_true_first(flags);
        let rest = flags.drop_first();
        lemma_count_true_bound(rest);
        if flags[0] {
            let op = PlaylistOp::Keep(kept[0], base as usize);
            lemma_rebuild_inserts(rest, kept.drop_first(), Anchor::Existing(kept[0]), base + 1, j);
            lemma_apply_single(Seq::empty(), op, Seq::empty(), 0);
            lemma_apply_concat(Seq::empty(), seq![op], spec_rebuild_checked(rest, kept.drop_first(), Anchor::Existing(kept[0]), base + 1, j).0, Seq::empty(), 0);
        } else {
            let op = PlaylistOp::Insert(anchor, base as usize);
            lemma_rebuild_inserts(rest, kept, Anchor::Inserted(j as usize), base + 1, j + 1);
            lemma_apply_single(Seq::empty(), op, Seq::empty(), 0);
            lemma_apply_concat(Seq::empty(), seq![op], spec_rebuild_checked(rest, kept, Anchor::Inserted(j as usize), base + 1, j + 1).0, Seq::empty(), 0);
        }
    } else {
        assert(count_inserts(Seq::<PlaylistOp>::empty()) == 0);
    }
}

// ---------------------------------------------------------------------------
// Performing a plan
// ---------------------------------------------------------------------------

/// An anchor refers to an insertion made before (`done` of them so far).
pub open spec fn anchor_wf(a: Anchor, done: nat) -> bool {
    match a {
        Anchor::Inserted(k) => k < done,
        _ => true,
    }
}

/// An operation refers to an existing desired item and an earlier insertion.
pub open spec fn op_wf(op: PlaylistOp, done: nat, n: nat) -> bool {
    match op {
        PlaylistOp::Insert(a, x) => x < n && anchor_wf(a, done),
        PlaylistOp::Append(a, x) => x < n && anchor_wf(a, done),
        PlaylistOp::Keep(_, x) => x < n,
        _ => true,
    }
}

/// Every operation of a plan for `n` desired items refers to an item and to
/// earlier insertions only.
pub open spec fn plan_wf(ops: Seq<PlaylistOp>, n: nat) -> bool {
    forall|i: int| 0 <= i < ops.len() ==> op_wf(#[trigger] ops[i], count_inserts(ops.take(i)), n)
}

/// The request an operation stands for was answered as its outcome says:
/// `fresh[j]` is the id a renderer gave to an insertion numbered `j`.
pub open spec fn performed<F: Fn(SoapRequest) -> SoapCallResult>(
    t: F,
    pl: OhPlaylistClient,
    op: PlaylistOp,
    fresh: Seq<u32>,
    j: nat,
    items: Seq<PlaybackItem>,
) -> bool {
    match op {
        PlaylistOp::DeleteAll => exists|reply: SoapCallResult|
            answered(t, pl.request("DeleteAll"@, seq![]), reply) && spec_success(reply) is Some,
        PlaylistOp::Delete(id) => exists|reply: SoapCallResult|
            answered(t, pl.request("DeleteId"@, seq![("Value"@, dec(id as nat))]), reply),
        PlaylistOp::DeleteStrict(id) => exists|reply: SoapCallResult|
            answered(t, pl.request("DeleteId"@, seq![("Value"@, dec(id as nat))]), reply) && spec_success(reply) is Some,
        PlaylistOp::Insert(a, x) => exists|reply: SoapCallResult|
            answered(
                t,
                pl.request(
                    "Insert"@,
                    seq![("AfterId"@, dec(resolve(a, fresh) as nat)), ("Uri"@, items[x as int].uri@), ("Metadata"@, spec_metadata_xml(items[x as int]))],
                ),
                reply,
            ) && spec_u32_field(reply, "InsertResponse"@, seq!["NewId"@, "Value"@]) == Some(fresh[j as int]),
        PlaylistOp::Append(a, x) => exists|reply: SoapCallResult|
            answered(
                t,
                pl.request(
                    "Insert"@,
                    seq![("AfterId"@, dec(resolve(a, fresh) as nat)), ("Uri"@, items[x as int].uri@), ("Metadata"@, spec_metadata_xml(items[x as int]))],
                ),
                reply,
            ) && spec_u32_field(reply, "InsertResponse"@, seq!["NewId"@, "Value"@]) == Some(fresh[j as int]),
        PlaylistOp::Keep(_, _) => true,
    }
}

/// Every operation of a plan was performed on the playlist, the insertions
/// receiving the ids `fresh` in turn.
pub open spec fn plan_performed<F: Fn(SoapRequest) -> SoapCallResult>(
    t: F,
    pl: OhPlaylistClient,
    ops: Seq<PlaylistOp>,
    fresh: Seq<u32>,
    items: Seq<PlaybackItem>,
) -> bool {
    &&& fresh.len() == count_inserts(ops)
    &&& forall|i: int| 0 <= i < ops.len() ==> #[trigger] performed(t, pl, ops[i], fresh, count_inserts(ops.take(i)), items)
}

/// The plan of a synchronisation without a playing item (see
/// [`plan_for_standard`]) and the failure it ends with, if any.
pub open spec fn standard_plan_for(
    current: Seq<PlaybackItem>,
    desired: Seq<PlaybackItem>,
    current_track: Option<u32>,
) -> (Seq<PlaylistOp>, Option<Seq<char>>) {
    let ids = backend_ids(current);
    let (kc, kd) = spec_lcs_flags_optimized(current, desired);
    let in_new = match current_track {
        Some(t) => exists|i: int| 0 <= i < desired.len() && #[trigger] desired[i].backend_id as u32 == t,
        None => false,
    };
    (
        spec_clearing(ids, kc, in_new) + spec_rebuild_checked(kd, select(ids, kc), Anchor::Head, 0, 0).0,
        spec_standard_failure(ids, kc, kd),
    )
}

/// The metadata cache after one operation.
pub open spec fn meta_step(
    m: Map<u32, Option<TrackMetadata>>,
    op: PlaylistOp,
    fresh: Seq<u32>,
    j: nat,
    items: Seq<PlaybackItem>,
) -> Map<u32, Option<TrackMetadata>> {
    match op {
        PlaylistOp::DeleteAll => Map::empty(),
        PlaylistOp::Delete(id) => m.remove(id),
        PlaylistOp::DeleteStrict(_) => m,
        PlaylistOp::Insert(_, x) => spec_cache_update(m, fresh[j as int], items[x as int].metadata),
        PlaylistOp::Append(_, _) => m,
        PlaylistOp::Keep(id, x) => spec_cache_update(m, id, items[x as int].metadata),
    }
}

/// The metadata cache after a plan.
pub open spec fn meta_after(
    m: Map<u32, Option<TrackMetadata>>,
    ops: Seq<PlaylistOp>,
    fresh: Seq<u32>,
    items: Seq<PlaybackItem>,
) -> Map<u32, Option<TrackMetadata>>
    decreases ops.len(),
{
    if ops.len() == 0 {
        m
    } else {
        meta_step(meta_after(m, ops.drop_last(), fresh, items), ops.last(), fresh, count_inserts(ops.drop_last()), items)
    }
}

/// The URIs remembered per id, as texts.
pub open spec fn uri_texts(m: Map<u32, String>) -> Map<u32, Seq<char>> {
    Map::new(|k: u32| m.contains_key(k), |k: u32| m[k]@)
}

/// Remembering a URI: an empty one is not remembered.
pub open spec fn remember(m: Map<u32, Seq<char>>, id: u32, uri: Seq<char>) -> Map<u32, Seq<char>> {
    if uri.len() > 0 {
        m.insert(id, uri)
    } else {
        m
    }
}

/// The remembered URIs after one operation.
pub open spec fn uri_step(m: Map<u32, Seq<char>>, op: PlaylistOp, fresh: Seq<u32>, j: nat, items: Seq<PlaybackItem>) -> Map<
    u32,
    Seq<char>,
> {
    match op {
        PlaylistOp::Insert(_, x) => remember(m, fresh[j as int], items[x as int].uri@),
        PlaylistOp::Append(_, x) => remember(m, fresh[j as int], items[x as int].uri@),
        PlaylistOp::Keep(id, x) => remember(m, id, items[x as int].uri@),
        _ => m,
    }
}

/// The remembered URIs after a plan.
pub open spec fn uris_after(m: Map<u32, Seq<char>>, ops: Seq<PlaylistOp>, fresh: Seq<u32>, items: Seq<PlaybackItem>) -> Map<
    u32,
    Seq<char>,
>
    decreases ops.len(),
{
    if ops.len() == 0 {
        m
    } else {
        uri_step(uris_after(m, ops.drop_last(), fresh, items), ops.last(), fresh, count_inserts(ops.drop_last()), items)
    }
}

proof fn lemma_count_inserts_push(ops: Seq<PlaylistOp>, op: PlaylistOp)
    ensures
        count_inserts(ops.push(op)) == count_inserts(ops) + if inserts(op) {
            1nat
        } else {
            0nat
        },
{
    lemma_apply_concat(Seq::empty(), ops, seq![op], Seq::empty(), 0);
    lemma_apply_single(Seq::empty(), op, Seq::empty(), 0);
    assert(ops + seq![op] =~= ops.push(op));
}

/// A performed operation stays performed when later insertions get ids.
proof fn lemma_performed_extend<F: Fn(SoapRequest) -> SoapCallResult>(
    t: F,
    pl: OhPlaylistClient,
    op: PlaylistOp,
    fresh: Seq<u32>,
    j: nat,
    items: Seq<PlaybackItem>,
    id: u32,
)
    requires
        performed(t, pl, op, fresh, j, items),
        op_wf(op, j, items.len()),
        inserts(op) ==> j < fresh.len(),
    ensures
        performed(t, pl, op, fresh.push(id), j, items),
{
    let f2 = fresh.push(id);
    match op {
        PlaylistOp::Insert(a, x) => {
            assert(resolve(a, f2) == resolve(a, fresh));
            assert(f2[j as int] == fresh[j as int]);
        },
        PlaylistOp::Append(a, x) => {
            assert(resolve(a, f2) == resolve(a, fresh));
            assert(f2[j as int] == fresh[j as int]);
        },
        _ => {},
    }
}

/// Every desired item's metadata reads without overflow.
pub open spec fn items_fit(items: Seq<PlaybackItem>) -> bool {
    forall|i: int| 0 <= i < items.len() ==> meta_fits(#[trigger] items[i].metadata)
}

/// Performs a plan on a renderer's playlist, checking before each step
/// whether the synchronisation was cancelled. Deletions of tracks already
/// gone are no failure. Returns the ids the insertions received.
pub fn run_plan<F: Fn(SoapRequest) -> SoapCallResult, C: Fn() -> bool>(
    transport: &F,
    playlist: &OhPlaylistClient,
    caches: &mut PlaylistCaches,
    ops: &[PlaylistOp],
    items: &[PlaybackItem],
    cancelled: &C,
) -> (r: Result<Vec<u32>, ControlPointError>)
    requires
        transport_total(*transport),
        forall|u: ()| #[trigger] cancelled.requires(u),
        old(caches).wf(),
        plan_wf(ops@, items@.len()),
        items_fit(items@),
    ensures
        final(caches).wf(),
        ops@.len() == 0 ==> r is Ok,
        r matches Ok(fresh) ==> {
            &&& fresh@.len() == count_inserts(ops@)
            &&& forall|i: int| 0 <= i < ops@.len() ==> #[trigger] performed(
                *transport,
                *playlist,
                ops@[i],
                fresh@,
                count_inserts(ops@.take(i)),
                items@,
            )
            &&& final(caches).metadata_view() == meta_after(old(caches).metadata_view(), ops@, fresh@, items@)
            &&& uri_texts(final(caches).uri_view()) == uris_after(uri_texts(old(caches).uri_view()), ops@, fresh@, items@)
        },
{
    let mut fresh: Vec<u32> = Vec::new();
    let mut i: usize = 0;
    proof {
        assert(ops@.take(0) =~= Seq::<PlaylistOp>::empty());
        assert(uri_texts(caches.uri_view()) == uris_after(uri_texts(caches.uri_view()), ops@.take(0), fresh@, items@));
    }
    while i < ops.len()
        invariant
            transport_total(*transport),
            forall|u: ()| #[trigger] cancelled.requires(u),
            plan_wf(ops@, items@.len()),
            items_fit(items@),
            i <= ops@.len(),
            caches.wf(),
            fresh@.len() == count_inserts(ops@.take(i as int)),
            forall|k: int| 0 <= k < i ==> #[trigger] performed(
                *transport,
                *playlist,
                ops@[k],
                fresh@,
                count_inserts(ops@.take(k)),
                items@,
            ),
            caches.metadata_view() == meta_after(old(caches).metadata_view(), ops@.take(i as int), fresh@, items@),
            uri_texts(caches.uri_view()) == uris_after(uri_texts(old(caches).uri_view()), ops@.take(i as int), fresh@, items@),
        decreases ops@.len() - i,
    {
        if cancelled() {
            return Err(ControlPointError::SyncCancelled);
        }
        let op = ops[i];
        let ghost f0 = fresh@;
        let ghost u0 = uri_texts(caches.uri_view());
        let ghost j = count_inserts(ops@.take(i as int));
        proof {
            assert(op_wf(ops@[i as int], j, items@.len()));
            assert(ops@.take(i + 1) =~= ops@.take(i as int).push(op));
            assert(ops@.take(i + 1).drop_last() =~= ops@.take(i as int));
            lemma_count_inserts_push(ops@.take(i as int), op);
        }
        match op {
            PlaylistOp::DeleteAll => {
                match playlist.delete_all(transport) {
                    Ok(()) => {},
                    Err(e) => {
                        return Err(e);
                    },
                }
                caches.clear_metadata();
            },
            PlaylistOp::Delete(id) => {
                match playlist.delete_id_if_exists(transport, id) {
                    Ok(_) => {},
                    Err(e) => {
                        return Err(e);
                    },
                }
                caches.forget_metadata(id);
            },
            PlaylistOp::DeleteStrict(id) => {
                match playlist.delete_id(transport, id) {
                    Ok(()) => {},
                    Err(e) => {
                        return Err(e);
                    },
                }
            },
            PlaylistOp::Insert(a, x) | PlaylistOp::Append(a, x) => {
                let after: u32 = match a {
                    Anchor::Head => 0,
                    Anchor::Existing(id) => id,
                    Anchor::Inserted(k) => fresh[k],
                };
                let item = &items[x];
                let metadata = build_metadata_xml(item);
                let new_id = match playlist.insert(transport, after, item.uri.as_str(), metadata.as_str()) {
                    Ok(id) => id,
                    Err(e) => {
                        return Err(e);
                    },
                };
                match op {
                    PlaylistOp::Insert(_, _) => {
                        caches.cache_metadata(new_id, item.metadata.clone(), item.uri.as_str());
                    },
                    _ => {
                        caches.remember_uri(new_id, item.uri.as_str());
                    },
                }
                fresh.push(new_id);
                proof {
                    assert(fresh@ =~= f0.push(new_id));
                    assert(resolve(a, f0) == after);
                    assert(fresh@[j as int] == new_id);
                    assert forall|k: int| 0 <= k < i implies #[trigger] performed(
                        *transport,
                        *playlist,
                        ops@[k],
                        fresh@,
                        count_inserts(ops@.take(k)),
                        items@,
                    ) by {
                        let jk = count_inserts(ops@.take(k));
                        assert(op_wf(ops@[k], jk, items@.len()));
                        assert(ops@.take(i as int).take(k) =~= ops@.take(k));
                        lemma_take_inserts_mono(ops@.take(i as int), k);
                        if inserts(ops@[k]) {
                            assert(ops@.take(k + 1) =~= ops@.take(k).push(ops@[k]));
                            lemma_count_inserts_push(ops@.take(k), ops@[k]);
                            assert(ops@.take(i as int).take(k + 1) =~= ops@.take(k + 1));
                            lemma_take_inserts_mono(ops@.take(i as int), k + 1);
                        }
                        lemma_performed_extend(*transport, *playlist, ops@[k], f0, jk, items@, new_id);
                    }
                    assert(meta_after(old(caches).metadata_view(), ops@.take(i as int), fresh@, items@) == meta_after(
                        old(caches).metadata_view(),
                        ops@.take(i as int),
                        f0,
                        items@,
                    )) by {
                        lemma_meta_after_extend(old(caches).metadata_view(), ops@.take(i as int), f0, items@, new_id);
                    }
                    assert(uris_after(u0, Seq::empty(), fresh@, items@) == u0);
                    lemma_uris_after_extend(uri_texts(old(caches).uri_view()), ops@.take(i as int), f0, items@, new_id);
                    assert(uri_texts(caches.uri_view()) =~= uri_step(u0, op, fresh@, j, items@));
                }
            },
            PlaylistOp::Keep(id, x) => {
                let item = &items[x];
                caches.cache_metadata(id, item.metadata.clone(), item.uri.as_str());
                proof {
                    assert(uri_texts(caches.uri_view()) =~= uri_step(u0, op, fresh@, j, items@));
                }
            },
        }
        proof {
            assert(performed(*transport, *playlist, op, fresh@, j, items@));
            assert(uri_texts(caches.uri_view()) =~= uri_step(u0, op, fresh@, j, items@));
        }
        i = i + 1;
    }
    proof {
        assert(ops@.take(ops@.len() as int) =~= ops@);
    }
    Ok(fresh)
}

/// The insertions among the first `k` operations are no more than among
/// all of them.
proof fn lemma_take_inserts_mono(ops: Seq<PlaylistOp>, k: int)
    requires
        0 <= k <= ops.len(),
    ensures
        count_inserts(ops.take(k)) <= count_inserts(ops),
{
    lemma_apply_concat(Seq::empty(), ops.take(k), ops.skip(k), Seq::empty(), 0);
    assert(ops.take(k) + ops.skip(k) =~= ops);
}

proof fn lemma_meta_after_extend(
    m: Map<u32, Option<TrackMetadata>>,
    ops: Seq<PlaylistOp>,
    fresh: Seq<u32>,
    items: Seq<PlaybackItem>,
    id: u32,
)
    requires
        fresh.len() == count_inserts(ops),
    ensures
        meta_after(m, ops, fresh.push(id), items) == meta_after(m, ops, fresh, items),
    decreases ops.len(),
{
    if ops.len() > 0 {
        let front = ops.drop_last();
        assert(front.push(ops.last()) =~= ops);
        lemma_count_inserts_push(front, ops.last());
        lemma_meta_after_extend_weak(m, front, fresh, items, id);
    }
}

proof fn lemma_meta_after_extend_weak(
    m: Map<u32, Option<TrackMetadata>>,
    ops: Seq<PlaylistOp>,
    fresh: Seq<u32>,
    items: Seq<PlaybackItem>,
    id: u32,
)
    requires
        count_inserts(ops) <= fresh.len(),
    ensures
        meta_after(m, ops, fresh.push(id), items) == meta_after(m, ops, fresh, items),
    decreases ops.len(),
{
    if ops.len() > 0 {
        let front = ops.drop_last();
        assert(front.push(ops.last()) =~= ops);
        lemma_count_inserts_push(front, ops.last());
        lemma_meta_after_extend_weak(m, front, fresh, items, id);
        let j = count_inserts(front);
        if inserts(ops.last()) {
            assert(fresh.push(id)[j as int] == fresh[j as int]);
        }
    }
}

proof fn lemma_uris_after_extend(
    m: Map<u32, Seq<char>>,
    ops: Seq<PlaylistOp>,
    fresh: Seq<u32>,
    items: Seq<PlaybackItem>,
    id: u32,
)
    requires
        count_inserts(ops) <= fresh.len(),
    ensures
        uris_after(m, ops, fresh.push(id), items) == uris_after(m, ops, fresh, items),
    decreases ops.len(),
{
    if ops.len() > 0 {
        let front = ops.drop_last();
        assert(front.push(ops.last()) =~= ops);
        lemma_count_inserts_push(front, ops.last());
        lemma_uris_after_extend(m, front, fresh, items, id);
        let j = count_inserts(front);
        if inserts(ops.last()) {
            assert(fresh.push(id)[j as int] == fresh[j as int]);
        }
    }
}

// ---------------------------------------------------------------------------
// Choosing and planning a full synchronisation
// ---------------------------------------------------------------------------

/// Which way a full synchronisation goes, given what the renderer lists.
#[derive(Debug, Clone, Copy, PartialEq, Eq, Structural)]
pub enum FullSync {
    /// The playing item (at `playing` in the listed items) is desired at
    /// position `pivot`: it is kept in place.
    Pivot { playing: usize, pivot: usize },
    /// The playing item (at `playing` in the listed items) is not desired:
    /// it stays first, the desired items follow.
    Preserve { playing: usize },
    /// Nothing is listed although items are desired: they are appended.
    AppendAll,
    /// No item is playing: the whole playlist is diffed.
    Standard,
}

/// First position from `i` on of a desired item with the URI `u`.
pub open spec fn first_with_uri(d: Seq<PlaybackItem>, u: Seq<char>, i: int) -> Option<int>
    decreases d.len() - i,
{
    if i < 0 || i >= d.len() {
        None
    } else if d[i].uri@ == u {
        Some(i)
    } else {
        first_with_uri(d, u, i + 1)
    }
}

/// First position from `i` on of a desired item with the DIDL id `id`.
pub open spec fn first_with_didl(d: Seq<PlaybackItem>, id: Seq<char>, i: int) -> Option<int>
    decreases d.len() - i,
{
    if i < 0 || i >= d.len() {
        None
    } else if d[i].didl_id@ == id {
        Some(i)
    } else {
        first_with_didl(d, id, i + 1)
    }
}

/// Where the playing item is among the desired ones: by URI first, else by
/// DIDL id.
pub open spec fn spec_pivot_position(d: Seq<PlaybackItem>, playing: PlaybackItem) -> Option<int> {
    match first_with_uri(d, playing.uri@, 0) {
        Some(p) => Some(p),
        None => first_with_didl(d, playing.didl_id@, 0),
    }
}

/// The way a full synchronisation goes.
pub open spec fn spec_choose_full_sync(current: Seq<PlaybackItem>, current_index: Option<usize>, desired: Seq<PlaybackItem>) -> FullSync {
    match current_index {
        Some(k) if k < current.len() => match spec_pivot_position(desired, current[k as int]) {
            Some(p) => FullSync::Pivot { playing: k, pivot: p as usize },
            None => FullSync::Preserve { playing: k },
        },
        _ => if current.len() == 0 && desired.len() > 0 {
            FullSync::AppendAll
        } else {
            FullSync::Standard
        },
    }
}

proof fn lemma_first_with_uri(d: Seq<PlaybackItem>, u: Seq<char>, i: int)
    requires
        0 <= i,
    ensures
        first_with_uri(d, u, i) matches Some(p) ==> i <= p < d.len() && d[p].uri@ == u,
    decreases d.len() - i,
{
    if i < d.len() && d[i].uri@ != u {
        lemma_first_with_uri(d, u, i + 1);
    }
}

proof fn lemma_first_with_didl(d: Seq<PlaybackItem>, id: Seq<char>, i: int)
    requires
        0 <= i,
    ensures
        first_with_didl(d, id, i) matches Some(p) ==> i <= p < d.len() && d[p].didl_id@ == id,
    decreases d.len() - i,
{
    if i < d.len() && d[i].didl_id@ != id {
        lemma_first_with_didl(d, id, i + 1);
    }
}

/// Where the playing item is among the desired ones.
pub fn pivot_position(desired: &[PlaybackItem], playing: &PlaybackItem) -> (r: Option<usize>)
    ensures
        match r {
            Some(p) => spec_pivot_position(desired@, *playing) == Some(p as int) && p < desired@.len(),
            None => spec_pivot_position(desired@, *playing) is None,
        },
{
    proof {
        lemma_first_with_uri(desired@, playing.uri@, 0);
        lemma_first_with_didl(desired@, playing.didl_id@, 0);
    }
    let mut i: usize = 0;
    while i < desired.len()
        invariant
            i <= desired@.len(),
            first_with_uri(desired@, playing.uri@, 0) == first_with_uri(desired@, playing.uri@, i as int),
        decreases desired@.len() - i,
    {
        if crate::text::string_eq(&desired[i].uri, &playing.uri) {
            return Some(i);
        }
        i = i + 1;
    }
    let mut j: usize = 0;
    while j < desired.len()
        invariant
            j <= desired@.len(),
            first_with_uri(desired@, playing.uri@, 0) is None,
            first_with_didl(desired@, playing.didl_id@, 0) == first_with_didl(desired@, playing.didl_id@, j as int),
        decreases desired@.len() - j,
    {
        if crate::text::string_eq(&desired[j].didl_id, &playing.didl_id) {
            return Some(j);
        }
        j = j + 1;
    }
    None
}

/// The way a full synchronisation goes, from the listed items, the index of
/// the current one, and the desired items.
pub fn choose_full_sync(current: &[PlaybackItem], current_index: Option<usize>, desired: &[PlaybackItem]) -> (r: FullSync)
    ensures
        r == spec_choose_full_sync(current@, current_index, desired@),
        r matches FullSync::Pivot { playing, pivot } ==> playing < current@.len() && pivot < desired@.len(),
        r matches FullSync::Preserve { playing } ==> playing < current@.len(),
{
    match current_index {
        Some(k) => {
            if k < current.len() {
                match pivot_position(desired, &current[k]) {
                    Some(p) => {
                        return FullSync::Pivot { playing: k, pivot: p };
                    },
                    None => {
                        return FullSync::Preserve { playing: k };
                    },
                }
            }
        },
        None => {},
    }
    if current.len() == 0 && desired.len() > 0 {
        FullSync::AppendAll
    } else {
        FullSync::Standard
    }
}

/// The playlist ids of listed items (their backend ids, as the renderer's
/// 32-bit ids).
pub open spec fn backend_ids(items: Seq<PlaybackItem>) -> Seq<u32> {
    Seq::new(items.len(), |i: int| items[i].backend_id as u32)
}

/// The playlist ids of listed items.
pub fn backend_ids_of(items: &[PlaybackItem]) -> (r: Vec<u32>)
    ensures
        r@ == backend_ids(items@),
{
    let mut out: Vec<u32> = Vec::new();
    let mut i: usize = 0;
    while i < items.len()
        invariant
            i <= items@.len(),
            out@ == backend_ids(items@).take(i as int),
        decreases items@.len() - i,
    {
        let id = #[verifier::truncate] (items[i].backend_id as u32);
        out.push(id);
        i = i + 1;
        proof {
            assert(out@ =~= backend_ids(items@).take(i as int));
        }
    }
    proof {
        assert(out@ =~= backend_ids(items@));
    }
    out
}

proof fn lemma_flags_len(c: Seq<PlaybackItem>, d: Seq<PlaybackItem>)
    ensures
        spec_lcs_flags_optimized(c, d).0.len() == c.len(),
        spec_lcs_flags_optimized(c, d).1.len() == d.len(),
{
    if c.len() > 0 && d.len() > 0 {
        law_lcs_flags_optimized_counts_agree(c, d);
    }
}

/// The error a synchronisation reports when the desired items find more
/// present tracks than it kept.
pub open spec fn underflow_text() -> Seq<char> {
    "OpenHome playlist refresh bookkeeping mismatch (kept entries underflow)"@
}

/// `ops` is the plan around the playing track found at `at` among the
/// listed ids (the first listed id equal to the playing item's), desired at
/// `pivot`; each side finds no more desired items present than tracks it
/// keeps.
pub open spec fn pivot_plan_at(
    current: Seq<PlaybackItem>,
    desired: Seq<PlaybackItem>,
    pid: usize,
    pivot: nat,
    ops: Seq<PlaylistOp>,
    at: int,
) -> bool {
    let ids = backend_ids(current);
    let (kob, knb) = spec_lcs_flags_optimized(current.take(at), desired.take(pivot as int));
    let (koa, kna) = spec_lcs_flags_optimized(current.skip(at + 1), desired.skip((pivot + 1) as int));
    &&& 0 <= at < ids.len() && ids[at] as usize == pid
    &&& forall|k: int| 0 <= k < at ==> ids[k] as usize != pid
    &&& count_true(knb) <= count_true(kob) && count_true(kna) <= count_true(koa)
    &&& ops == spec_pivot_plan(ids.take(at), kob, ids.skip(at + 1), koa, knb, kna, ids[at], pivot)
    &&& plan_wf(ops, desired.len())
}

/// The plan around the playing item (at `playing` among the listed items,
/// at `pivot` among the desired ones): the listed items before and after it
/// are diffed with the desired items before and after it. Fails when the
/// playing track's id is not among the listed ids, and when one side finds
/// more desired items present than tracks it keeps (which happens when that
/// side lists nothing but desires something).
#[verifier::spinoff_prover]
pub fn plan_for_pivot(current: &[PlaybackItem], playing: usize, desired: &[PlaybackItem], pivot: usize) -> (r: Result<
    Vec<PlaylistOp>,
    ControlPointError,
>)
    requires
        playing < current@.len(),
        pivot < desired@.len(),
        current@.len() < u32::MAX,
        desired@.len() < usize::MAX,
    ensures
        r matches Ok(ops) ==> exists|at: int| #[trigger] pivot_plan_at(
            current@,
            desired@,
            current@[playing as int].backend_id,
            pivot as nat,
            ops@,
            at,
        ),
        r matches Err(e) ==> e matches ControlPointError::OpenHomeError(m) && ((forall|k: int|
            0 <= k < current@.len() ==> backend_ids(current@)[k] as usize != current@[playing as int].backend_id)
            || m@ == underflow_text()),
{
    let ids = backend_ids_of(current);
    let pid = current[playing].backend_id;
    let mut at: usize = 0;
    while at < ids.len() && ids[at] as usize != pid
        invariant
            ids@ == backend_ids(current@),
            at <= ids@.len(),
            forall|k: int| 0 <= k < at ==> ids@[k] as usize != pid,
        decreases ids@.len() - at,
    {
        at = at + 1;
    }
    if at == ids.len() {
        let mut text: Vec<char> = Vec::new();
        crate::didl::push_text(&mut text, "Pivot track ID ");
        crate::text::push_dec(&mut text, pid as u64);
        crate::didl::push_text(&mut text, " not found in playlist");
        return Err(ControlPointError::OpenHomeError(crate::text::string_from_chars(text.as_slice())));
    }
    let old_before = take_slice(current, at);
    let old_after = skip_slice(current, at + 1);
    let new_before = take_slice(desired, pivot);
    let new_after = skip_slice(desired, pivot + 1);
    let ids_before = take_u32(ids.as_slice(), at);
    let ids_after = skip_u32(ids.as_slice(), at + 1);
    let (keep_oa, keep_na) = lcs_flags_optimized(old_after.as_slice(), new_after.as_slice());
    let (keep_ob, keep_nb) = lcs_flags_optimized(old_before.as_slice(), new_before.as_slice());
    proof {
        lemma_flags_len(old_after@, new_after@);
        lemma_flags_len(old_before@, new_before@);
        lemma_count_true_bound(keep_nb@);
    }
    let cob = count_flags(keep_ob.as_slice());
    let cnb = count_flags(keep_nb.as_slice());
    let coa = count_flags(keep_oa.as_slice());
    let cna = count_flags(keep_na.as_slice());
    if cnb > cob || cna > coa {
        return Err(ControlPointError::OpenHomeError(msg(
            "OpenHome playlist refresh bookkeeping mismatch (kept entries underflow)",
        )));
    }
    let ops = plan_pivot(
        ids_before.as_slice(),
        keep_ob.as_slice(),
        ids_after.as_slice(),
        keep_oa.as_slice(),
        keep_nb.as_slice(),
        keep_na.as_slice(),
        ids[at],
        pivot,
    );
    proof {
        assert(pivot + 1 + keep_na@.len() == desired@.len());
        assert(ids_before@ == ids@.take(at as int));
        assert(pivot_plan_at(current@, desired@, pid, pivot as nat, ops@, at as int));
        assert(exists|a: int| #[trigger] pivot_plan_at(current@, desired@, pid, pivot as nat, ops@, a));
    }
    let r: Result<Vec<PlaylistOp>, ControlPointError> = Ok(ops);
    assert(r matches Ok(o) && o@ == ops@);
    r
}

/// The plan of a synchronisation without a playing item, from the listed
/// items, the desired ones, and the renderer's current track (if any).
pub fn plan_for_standard(current: &[PlaybackItem], desired: &[PlaybackItem], current_track: Option<u32>) -> (r: SyncPlan)
    requires
        current@.len() < u32::MAX,
        desired@.len() < usize::MAX,
    ensures
        ({
            let ids = backend_ids(current@);
            let (kc, kd) = spec_lcs_flags_optimized(current@, desired@);
            let in_new = match current_track {
                Some(t) => exists|i: int| 0 <= i < desired@.len() && #[trigger] desired@[i].backend_id as u32 == t,
                None => false,
            };
            &&& r.ops@ == spec_clearing(ids, kc, in_new) + spec_rebuild_checked(kd, select(ids, kc), Anchor::Head, 0, 0).0
            &&& crate::text::opt_view(&r.failure) == spec_standard_failure(ids, kc, kd)
            &&& plan_wf(r.ops@, desired@.len())
        }),
        (r.ops@, crate::text::opt_view(&r.failure)) == standard_plan_for(current@, desired@, current_track),
{
    let ids = backend_ids_of(current);
    let (keep_c, keep_d) = lcs_flags_optimized(current, desired);
    proof {
        lemma_flags_len(current@, desired@);
    }
    let in_new = match current_track {
        Some(t) => {
            let mut found = false;
            let mut i: usize = 0;
            while i < desired.len()
                invariant
                    i <= desired@.len(),
                    found == exists|k: int| 0 <= k < i && #[trigger] desired@[k].backend_id as u32 == t,
                decreases desired@.len() - i,
            {
                let id = #[verifier::truncate] (desired[i].backend_id as u32);
                if id == t {
                    found = true;
                }
                i = i + 1;
            }
            found
        },
        None => false,
    };
    plan_standard(ids.as_slice(), keep_c.as_slice(), keep_d.as_slice(), in_new)
}

/// The first `k` items.
pub fn take_slice(items: &[PlaybackItem], k: usize) -> (r: Vec<PlaybackItem>)
    requires
        k <= items@.len(),
    ensures
        r@ == items@.take(k as int),
{
    let mut out: Vec<PlaybackItem> = Vec::new();
    let mut i: usize = 0;
    while i < k
        invariant
            i <= k <= items@.len(),
            out@ == items@.take(i as int),
        decreases k - i,
    {
        out.push(items[i].clone());
        i = i + 1;
        proof {
            assert(out@ =~= items@.take(i as int));
        }
    }
    out
}

/// The items from position `k` on.
pub fn skip_slice(items: &[PlaybackItem], k: usize) -> (r: Vec<PlaybackItem>)
    requires
        k <= items@.len(),
    ensures
        r@ == items@.skip(k as int),
{
    let mut out: Vec<PlaybackItem> = Vec::new();
    let mut i: usize = k;
    while i < items.len()
        invariant
            k <= i <= items@.len(),
            out@ == items@.subrange(k as int, i as int),
        decreases items@.len() - i,
    {
        out.push(items[i].clone());
        i = i + 1;
        proof {
            assert(out@ =~= items@.subrange(k as int, i as int));
        }
    }
    proof {
        assert(out@ =~= items@.skip(k as int));
    }
    out
}

/// The first `k` ids.
pub fn take_u32(ids: &[u32], k: usize) -> (r: Vec<u32>)
    requires
        k <= ids@.len(),
    ensures
        r@ == ids@.take(k as int),
{
    let mut out: Vec<u32> = Vec::new();
    let mut i: usize = 0;
    while i < k
        invariant
            i <= k <= ids@.len(),
            out@ == ids@.take(i as int),
        decreases k - i,
    {
        out.push(ids[i]);
        i = i + 1;
        proof {
            assert(out@ =~= ids@.take(i as int));
        }
    }
    out
}

/// The ids from position `k` on.
pub fn skip_u32(ids: &[u32], k: usize) -> (r: Vec<u32>)
    requires
        k <= ids@.len(),
    ensures
        r@ == ids@.skip(k as int),
{
    let mut out: Vec<u32> = Vec::new();
    let mut i: usize = k;
    while i < ids.len()
        invariant
            k <= i <= ids@.len(),
            out@ == ids@.subrange(k as int, i as int),
        decreases ids@.len() - i,
    {
        out.push(ids[i]);
        i = i + 1;
        proof {
            assert(out@ =~= ids@.subrange(k as int, i as int));
        }
    }
    proof {
        assert(out@ =~= ids@.skip(k as int));
    }
    out
}

} // verus!
