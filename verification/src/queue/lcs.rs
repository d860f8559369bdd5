//! The diff used to turn a remote playlist into a desired one with few
//! operations: a longest common subsequence of the two lists, where two
//! items match when they share their URI or their DIDL id.
use crate::queue::snapshot::PlaybackItem;
use crate::text::string_eq;
use vstd::prelude::*;

verus! {

/// Two items stand for the same track: same URI, or same DIDL id.
pub open spec fn spec_items_match(a: PlaybackItem, b: PlaybackItem) -> bool {
    a.uri@ == b.uri@ || a.didl_id@ == b.didl_id@
}

/// Length of a longest common subsequence of the first `i` current items
/// and the first `j` desired items.
pub open spec fn lcs_len(c: Seq<PlaybackItem>, d: Seq<PlaybackItem>, i: nat, j: nat) -> nat
    decreases i + j,
{
    if i == 0 || j == 0 {
        0
    } else if spec_items_match(c[i - 1], d[j - 1]) {
        lcs_len(c, d, (i - 1) as nat, (j - 1) as nat) + 1
    } else {
        let a = lcs_len(c, d, (i - 1) as nat, j);
        let b = lcs_len(c, d, i, (j - 1) as nat);
        if a >= b {
            a
        } else {
            b
        }
    }
}

/// The matched pairs `(current position, desired position)` found by
/// walking the table back from `(i, j)`, in increasing order.
pub open spec fn lcs_trace(c: Seq<PlaybackItem>, d: Seq<PlaybackItem>, i: nat, j: nat) -> Seq<(int, int)>
    decreases i + j,
{
    if i == 0 || j == 0 {
        Seq::empty()
    } else if spec_items_match(c[i - 1], d[j - 1]) {
        lcs_trace(c, d, (i - 1) as nat, (j - 1) as nat).push((i - 1, j - 1))
    } else if lcs_len(c, d, (i - 1) as nat, j) >= lcs_len(c, d, i, (j - 1) as nat) {
        lcs_trace(c, d, (i - 1) as nat, j)
    } else {
        lcs_trace(c, d, i, (j - 1) as nat)
    }
}

/// `len` flags, set at the first (or second) coordinate of each pair.
pub open spec fn marks(pairs: Seq<(int, int)>, len: nat, first: bool) -> Seq<bool>
    decreases pairs.len(),
{
    if pairs.len() == 0 {
        Seq::new(len, |k: int| false)
    } else {
        let k = if first {
            pairs[0].0
        } else {
            pairs[0].1
        };
        marks(pairs.drop_first(), len, first).update(k, true)
    }
}

/// The flags of the plain diff: which current items are kept, and which
/// desired items are already present.
pub open spec fn spec_lcs_flags(c: Seq<PlaybackItem>, d: Seq<PlaybackItem>) -> (Seq<bool>, Seq<bool>) {
    let t = lcs_trace(c, d, c.len(), d.len());
    (marks(t, c.len(), true), marks(t, d.len(), false))
}

/// Number of leading positions where the two lists match.
pub open spec fn common_prefix(c: Seq<PlaybackItem>, d: Seq<PlaybackItem>, k: nat) -> nat
    decreases c.len() - k,
{
    if k < c.len() && k < d.len() && spec_items_match(c[k as int], d[k as int]) {
        common_prefix(c, d, k + 1)
    } else {
        k
    }
}

/// Number of trailing positions where the two lists match.
pub open spec fn common_suffix(c: Seq<PlaybackItem>, d: Seq<PlaybackItem>, k: nat) -> nat
    decreases c.len() - k,
{
    if k < c.len() && k < d.len() && spec_items_match(c[c.len() - 1 - k], d[d.len() - 1 - k]) {
        common_suffix(c, d, k + 1)
    } else {
        k
    }
}

/// `n` flags set to `true`.
pub open spec fn all_true(n: nat) -> Seq<bool> {
    Seq::new(n, |k: int| true)
}

/// The flags of the diff that first strips the common head and tail and
/// only diffs the middle part.
pub open spec fn spec_lcs_flags_optimized(c: Seq<PlaybackItem>, d: Seq<PlaybackItem>) -> (Seq<bool>, Seq<bool>) {
    if c.len() == 0 {
        (Seq::empty(), all_true(d.len()))
    } else if d.len() == 0 {
        (all_true(c.len()), Seq::empty())
    } else {
        let lead = common_prefix(c, d, 0);
        let ct = c.skip(lead as int);
        let dt = d.skip(lead as int);
        let trail = common_suffix(ct, dt, 0);
        let cm = ct.take(ct.len() - trail);
        let dm = dt.take(dt.len() - trail);
        if cm.len() == 0 && dm.len() == 0 {
            (all_true(c.len()), all_true(d.len()))
        } else {
            let (fc, fd) = spec_lcs_flags(cm, dm);
            (all_true(lead) + fc + all_true(trail), all_true(lead) + fd + all_true(trail))
        }
    }
}

/// Whether two items stand for the same track (same URI or same DIDL id).
pub fn items_match(a: &PlaybackItem, b: &PlaybackItem) -> (r: bool)
    ensures
        r == spec_items_match(*a, *b),
{
    string_eq(&a.uri, &b.uri) || string_eq(&a.didl_id, &b.didl_id)
}

/// A longest common subsequence is never longer than either prefix.
proof fn lemma_lcs_bound(c: Seq<PlaybackItem>, d: Seq<PlaybackItem>, i: nat, j: nat)
    ensures
        lcs_len(c, d, i, j) <= i,
        lcs_len(c, d, i, j) <= j,
    decreases i + j,
{
    if i > 0 && j > 0 {
        lemma_lcs_bound(c, d, (i - 1) as nat, (j - 1) as nat);
        lemma_lcs_bound(c, d, (i - 1) as nat, j);
        lemma_lcs_bound(c, d, i, (j - 1) as nat);
    }
}

/// Marks have the length they are made with.
proof fn lemma_marks_len(pairs: Seq<(int, int)>, len: nat, first: bool)
    requires
        forall|t: int| 0 <= t < pairs.len() ==> 0 <= (if first { (#[trigger] pairs[t]).0 } else { pairs[t].1 }) < len,
    ensures
        marks(pairs, len, first).len() == len,
    decreases pairs.len(),
{
    if pairs.len() > 0 {
        lemma_marks_len(pairs.drop_first(), len, first);
    }
}

/// `n` `false` flags.
fn false_flags(n: usize) -> (r: Vec<bool>)
    ensures
        r@ == Seq::new(n as nat, |k: int| false),
{
    let mut v: Vec<bool> = Vec::new();
    let mut i: usize = 0;
    while i < n
        invariant
            i <= n,
            v@ == Seq::new(i as nat, |k: int| false),
        decreases n - i,
    {
        v.push(false);
        i = i + 1;
        assert(v@ =~= Seq::new(i as nat, |k: int| false));
    }
    v
}

/// `n` `true` flags.
fn true_flags(n: usize) -> (r: Vec<bool>)
    ensures
        r@ == all_true(n as nat),
{
    let mut v: Vec<bool> = Vec::new();
    let mut i: usize = 0;
    while i < n
        invariant
            i <= n,
            v@ == all_true(i as nat),
        decreases n - i,
    {
        v.push(true);
        i = i + 1;
        assert(v@ =~= all_true(i as nat));
    }
    v
}

/// Fills the table of longest common subsequence lengths of all prefixes.
fn lcs_table(current: &[PlaybackItem], desired: &[PlaybackItem]) -> (dp: Vec<Vec<u32>>)
    requires
        current@.len() < u32::MAX,
        desired@.len() < usize::MAX,
    ensures
        dp@.len() == current@.len() + 1,
        forall|i: int| 0 <= i <= current@.len() ==> (#[trigger] dp@[i])@.len() == desired@.len() + 1,
        forall|i: int, j: int|
            0 <= i <= current@.len() && 0 <= j <= desired@.len() ==> (#[trigger] dp@[i]@[j]) == lcs_len(
                current@,
                desired@,
                i as nat,
                j as nat,
            ),
{
    let m = current.len();
    let n = desired.len();
    let mut dp: Vec<Vec<u32>> = Vec::new();
    let mut zero_row: Vec<u32> = Vec::new();
    let mut j: usize = 0;
    while j <= n
        invariant
            n == desired@.len(),
            n < usize::MAX,
            j <= n + 1,
            zero_row@.len() == j,
            forall|k: int| 0 <= k < j ==> #[trigger] zero_row@[k] == 0,
        decreases n + 1 - j,
    {
        zero_row.push(0);
        j = j + 1;
    }
    dp.push(zero_row);
    let mut i: usize = 0;
    while i < m
        invariant
            m == current@.len(),
            n == desired@.len(),
            m < u32::MAX,
            i <= m,
            dp@.len() == i + 1,
            forall|a: int| 0 <= a <= i ==> (#[trigger] dp@[a])@.len() == n + 1,
            forall|a: int, b: int|
                0 <= a <= i && 0 <= b <= n ==> (#[trigger] dp@[a]@[b]) == lcs_len(current@, desired@, a as nat, b as nat),
        decreases m - i,
    {
        let prev = &dp[i];
        let mut row: Vec<u32> = Vec::new();
        row.push(0);
        let mut j: usize = 0;
        while j < n
            invariant
                m == current@.len(),
                n == desired@.len(),
                m < u32::MAX,
                i < m,
                j <= n,
                prev@.len() == n + 1,
                forall|b: int| 0 <= b <= n ==> #[trigger] prev@[b] == lcs_len(current@, desired@, i as nat, b as nat),
                row@.len() == j + 1,
                forall|b: int| 0 <= b <= j ==> #[trigger] row@[b] == lcs_len(current@, desired@, (i + 1) as nat, b as nat),
            decreases n - j,
        {
            proof {
                lemma_lcs_bound(current@, desired@, i as nat, j as nat);
            }
            let v = if items_match(&current[i], &desired[j]) {
                prev[j] + 1
            } else {
                let a = prev[j + 1];
                let b = row[j];
                if a >= b {
                    a
                } else {
                    b
                }
            };
            row.push(v);
            j = j + 1;
        }
        dp.push(row);
        i = i + 1;
    }
    dp
}

/// The plain diff: flags of the current items to keep and of the desired
/// items already present, from a longest common subsequence.
pub fn lcs_flags(current: &[PlaybackItem], desired: &[PlaybackItem]) -> (r: (Vec<bool>, Vec<bool>))
    requires
        current@.len() < u32::MAX,
        desired@.len() < usize::MAX,
    ensures
        (r.0@, r.1@) == spec_lcs_flags(current@, desired@),
        count_true(r.0@) == lcs_len(current@, desired@, current@.len(), desired@.len()),
        forall|t: Seq<(int, int)>| #[trigger] matching_subsequence(current@, desired@, t) ==> t.len() <= count_true(r.0@),
{
    proof {
        lemma_plain_maximal_all(current@, desired@);
    }
    let dp = lcs_table(current, desired);
    let m = current.len();
    let n = desired.len();
    let mut keep_current = false_flags(m);
    let mut keep_desired = false_flags(n);
    let ghost c = current@;
    let ghost d = desired@;
    let ghost mut done: Seq<(int, int)> = Seq::empty();
    let mut i: usize = m;
    let mut j: usize = n;
    while i > 0 && j > 0
        invariant
            c == current@,
            d == desired@,
            m == c.len(),
            n == d.len(),
            i <= m,
            j <= n,
            dp@.len() == m + 1,
            forall|a: int| 0 <= a <= m ==> (#[trigger] dp@[a])@.len() == n + 1,
            forall|a: int, b: int|
                0 <= a <= m && 0 <= b <= n ==> (#[trigger] dp@[a]@[b]) == lcs_len(c, d, a as nat, b as nat),
            lcs_trace(c, d, m as nat, n as nat) == lcs_trace(c, d, i as nat, j as nat) + done,
            keep_current@ == marks(done, m as nat, true),
            keep_desired@ == marks(done, n as nat, false),
            forall|t: int| 0 <= t < done.len() ==> i <= (#[trigger] done[t]).0 < m && j <= done[t].1 < n,
        decreases i + j,
    {
        if items_match(&current[i - 1], &desired[j - 1]) {
            proof {
                let nd = seq![((i - 1) as int, (j - 1) as int)] + done;
                assert(nd.drop_first() =~= done);
                assert(lcs_trace(c, d, (i - 1) as nat, (j - 1) as nat) + nd =~= lcs_trace(c, d, i as nat, j as nat) + done);
                lemma_marks_len(done, m as nat, true);
                lemma_marks_len(done, n as nat, false);
                done = nd;
            }
            keep_current.set(i - 1, true);
            keep_desired.set(j - 1, true);
            i = i - 1;
            j = j - 1;
        } else if dp[i - 1][j] >= dp[i][j - 1] {
            i = i - 1;
        } else {
            j = j - 1;
        }
    }
    proof {
        assert(lcs_trace(c, d, i as nat, j as nat) =~= Seq::<(int, int)>::empty());
        assert(lcs_trace(c, d, m as nat, n as nat) =~= done);
    }
    (keep_current, keep_desired)
}

/// Number of leading positions where the two lists match.
fn leading_matches(current: &[PlaybackItem], desired: &[PlaybackItem]) -> (r: usize)
    ensures
        r == common_prefix(current@, desired@, 0),
        r <= current@.len(),
        r <= desired@.len(),
{
    let mut k: usize = 0;
    while k < current.len() && k < desired.len() && items_match(&current[k], &desired[k])
        invariant
            k <= current@.len(),
            k <= desired@.len(),
            common_prefix(current@, desired@, 0) == common_prefix(current@, desired@, k as nat),
        decreases current@.len() - k,
    {
        k = k + 1;
    }
    k
}

/// Number of trailing positions where the two lists match.
fn trailing_matches(current: &[PlaybackItem], desired: &[PlaybackItem]) -> (r: usize)
    ensures
        r == common_suffix(current@, desired@, 0),
        r <= current@.len(),
        r <= desired@.len(),
{
    let cl = current.len();
    let dl = desired.len();
    let mut k: usize = 0;
    while k < cl && k < dl && items_match(&current[cl - 1 - k], &desired[dl - 1 - k])
        invariant
            cl == current@.len(),
            dl == desired@.len(),
            k <= cl,
            k <= dl,
            common_suffix(current@, desired@, 0) == common_suffix(current@, desired@, k as nat),
        decreases cl - k,
    {
        k = k + 1;
    }
    k
}

/// The diff with the common head and tail stripped first: only the middle
/// parts are diffed, the head and tail are kept as they are.
pub fn lcs_flags_optimized(current: &[PlaybackItem], desired: &[PlaybackItem]) -> (r: (Vec<bool>, Vec<bool>))
    requires
        current@.len() < u32::MAX,
        desired@.len() < usize::MAX,
    ensures
        (r.0@, r.1@) == spec_lcs_flags_optimized(current@, desired@),
        current@.len() > 0 && desired@.len() > 0 ==> count_true(r.0@) == lcs_len(
            current@,
            desired@,
            current@.len(),
            desired@.len(),
        ),
        forall|t: Seq<(int, int)>| #[trigger] matching_subsequence(current@, desired@, t) ==> t.len() <= count_true(r.0@),
{
    proof {
        lemma_optimized_maximal_all(current@, desired@);
    }
    if current.len() == 0 {
        return (Vec::new(), true_flags(desired.len()));
    }
    if desired.len() == 0 {
        return (true_flags(current.len()), Vec::new());
    }
    let leading = leading_matches(current, desired);
    let c_tail = slice_from(current, leading);
    let d_tail = slice_from(desired, leading);
    let trailing = trailing_matches(c_tail.as_slice(), d_tail.as_slice());
    let c_mid = slice_to(c_tail.as_slice(), c_tail.len() - trailing);
    let d_mid = slice_to(d_tail.as_slice(), d_tail.len() - trailing);
    if c_mid.len() == 0 && d_mid.len() == 0 {
        return (true_flags(current.len()), true_flags(desired.len()));
    }
    let (keep_c_mid, keep_d_mid) = lcs_flags(c_mid.as_slice(), d_mid.as_slice());
    let mut keep_current = true_flags(leading);
    let mut kc = keep_c_mid;
    keep_current.append(&mut kc);
    let mut tc = true_flags(trailing);
    keep_current.append(&mut tc);
    let mut keep_desired = true_flags(leading);
    let mut kd = keep_d_mid;
    keep_desired.append(&mut kd);
    let mut td = true_flags(trailing);
    keep_desired.append(&mut td);
    (keep_current, keep_desired)
}

/// Copies of the items from position `k` on.
fn slice_from(items: &[PlaybackItem], k: usize) -> (r: Vec<PlaybackItem>)
    requires
        k <= items@.len(),
    ensures
        r@ == items@.skip(k as int),
{
    let mut out: Vec<PlaybackItem> = Vec::new();
    let mut i: usize = k;
    while i < items.len()
        invariant
            k <= i <= items@.len(),
            out@ == items@.subrange(k as int, i as int),
        decreases items@.len() - i,
    {
        out.push(items[i].clone());
        i = i + 1;
        assert(out@ =~= items@.subrange(k as int, i as int));
    }
    assert(out@ =~= items@.skip(k as int));
    out
}

/// Copies of the first `k` items.
fn slice_to(items: &[PlaybackItem], k: usize) -> (r: Vec<PlaybackItem>)
    requires
        k <= items@.len(),
    ensures
        r@ == items@.take(k as int),
{
    let mut out: Vec<PlaybackItem> = Vec::new();
    let mut i: usize = 0;
    while i < k
        invariant
            i <= k <= items@.len(),
            out@ == items@.take(i as int),
        decreases k - i,
    {
        out.push(items[i].clone());
        i = i + 1;
        assert(out@ =~= items@.take(i as int));
    }
    out
}

/// Number of `true` flags.
pub open spec fn count_true(s: Seq<bool>) -> nat
    decreases s.len(),
{
    if s.len() == 0 {
        0
    } else {
        count_true(s.drop_last()) + if s.last() {
            1nat
        } else {
            0nat
        }
    }
}

/// The pairs form a common subsequence of matching items: both coordinates
/// strictly increase, stay in range, and each pair matches.
pub open spec fn matching_subsequence(c: Seq<PlaybackItem>, d: Seq<PlaybackItem>, t: Seq<(int, int)>) -> bool {
    &&& forall|k: int| 0 <= k < t.len() ==> 0 <= (#[trigger] t[k]).0 < c.len() && 0 <= t[k].1 < d.len()
        && spec_items_match(c[t[k].0], d[t[k].1])
    &&& forall|k: int, l: int| 0 <= k < l < t.len() ==> (#[trigger] t[k]).0 < (#[trigger] t[l]).0 && t[k].1 < t[l].1
}

/// The walk back from `(i, j)` finds a matching common subsequence of the
/// prefixes, as long as the longest one.
proof fn lemma_trace(c: Seq<PlaybackItem>, d: Seq<PlaybackItem>, i: nat, j: nat)
    requires
        i <= c.len(),
        j <= d.len(),
    ensures
        matching_subsequence(c, d, lcs_trace(c, d, i, j)),
        lcs_trace(c, d, i, j).len() == lcs_len(c, d, i, j),
        forall|k: int| 0 <= k < lcs_trace(c, d, i, j).len() ==> (#[trigger] lcs_trace(c, d, i, j)[k]).0 < i
            && lcs_trace(c, d, i, j)[k].1 < j,
    decreases i + j,
{
    if i > 0 && j > 0 {
        if spec_items_match(c[i - 1], d[j - 1]) {
            lemma_trace(c, d, (i - 1) as nat, (j - 1) as nat);
        } else if lcs_len(c, d, (i - 1) as nat, j) >= lcs_len(c, d, i, (j - 1) as nat) {
            lemma_trace(c, d, (i - 1) as nat, j);
        } else {
            lemma_trace(c, d, i, (j - 1) as nat);
        }
    }
}

/// A flag is set exactly at the coordinates of the pairs.
proof fn lemma_marks_at(pairs: Seq<(int, int)>, len: nat, first: bool, x: int)
    requires
        forall|t: int| 0 <= t < pairs.len() ==> 0 <= (if first { (#[trigger] pairs[t]).0 } else { pairs[t].1 }) < len,
        0 <= x < len,
    ensures
        marks(pairs, len, first)[x] <==> exists|t: int| 0 <= t < pairs.len() && (if first { (#[trigger] pairs[t]).0 } else { pairs[t].1 }) == x,
    decreases pairs.len(),
{
    if pairs.len() > 0 {
        let rest = pairs.drop_first();
        lemma_marks_at(rest, len, first, x);
        lemma_marks_len(rest, len, first);
        let k = if first { pairs[0].0 } else { pairs[0].1 };
        if marks(pairs, len, first)[x] && x != k {
            let t = choose|t: int| 0 <= t < rest.len() && (if first { (#[trigger] rest[t]).0 } else { rest[t].1 }) == x;
            assert(pairs[t + 1] == rest[t]);
        }
        if exists|t: int| 0 <= t < pairs.len() && (if first { (#[trigger] pairs[t]).0 } else { pairs[t].1 }) == x {
            let t = choose|t: int| 0 <= t < pairs.len() && (if first { (#[trigger] pairs[t]).0 } else { pairs[t].1 }) == x;
            if t > 0 {
                assert(rest[t - 1] == pairs[t]);
            }
        }
    }
}

/// Setting a flag that was clear adds one to the count.
proof fn lemma_count_update(s: Seq<bool>, k: int)
    requires
        0 <= k < s.len(),
        !s[k],
    ensures
        count_true(s.update(k, true)) == count_true(s) + 1,
    decreases s.len(),
{
    let u = s.update(k, true);
    if k == s.len() - 1 {
        assert(u.drop_last() =~= s.drop_last());
    } else {
        assert(u.drop_last() =~= s.drop_last().update(k, true));
        lemma_count_update(s.drop_last(), k);
    }
}

/// No flag set on an all-clear sequence.
proof fn lemma_count_none(len: nat)
    ensures
        count_true(Seq::new(len, |k: int| false)) == 0,
    decreases len,
{
    if len > 0 {
        assert(Seq::new(len, |k: int| false).drop_last() =~= Seq::new((len - 1) as nat, |k: int| false));
        lemma_count_none((len - 1) as nat);
    }
}

/// Pairs with pairwise distinct coordinates set as many flags as there are pairs.
proof fn lemma_count_marks(pairs: Seq<(int, int)>, len: nat, first: bool)
    requires
        forall|t: int| 0 <= t < pairs.len() ==> 0 <= (if first { (#[trigger] pairs[t]).0 } else { pairs[t].1 }) < len,
        forall|a: int, b: int| 0 <= a < b < pairs.len() ==> (if first { (#[trigger] pairs[a]).0 } else { pairs[a].1 }) != (if first { (#[trigger] pairs[b]).0 } else { pairs[b].1 }),
    ensures
        count_true(marks(pairs, len, first)) == pairs.len(),
    decreases pairs.len(),
{
    if pairs.len() == 0 {
        lemma_count_none(len);
    } else {
        let rest = pairs.drop_first();
        assert forall|a: int, b: int| 0 <= a < b < rest.len() implies (if first { (#[trigger] rest[a]).0 } else { rest[a].1 }) != (if first { (#[trigger] rest[b]).0 } else { rest[b].1 }) by {
            assert(rest[a] == pairs[a + 1] && rest[b] == pairs[b + 1]);
        }
        lemma_count_marks(rest, len, first);
        lemma_marks_len(rest, len, first);
        let k = if first { pairs[0].0 } else { pairs[0].1 };
        lemma_marks_at(rest, len, first, k);
        if marks(rest, len, first)[k] {
            let t = choose|t: int| 0 <= t < rest.len() && (if first { (#[trigger] rest[t]).0 } else { rest[t].1 }) == k;
            assert(rest[t] == pairs[t + 1]);
        }
        lemma_count_update(marks(rest, len, first), k);
    }
}

/// The plain diff keeps a longest common subsequence: the kept current items
/// and the present desired items pair up, in order, into matching items;
/// as many current items are kept as desired items are found present; and a
/// flag is set exactly at a position of that subsequence.
pub proof fn law_lcs_flags_pair_up(c: Seq<PlaybackItem>, d: Seq<PlaybackItem>)
    ensures
        ({
            let t = lcs_trace(c, d, c.len(), d.len());
            let (fc, fd) = spec_lcs_flags(c, d);
            &&& matching_subsequence(c, d, t)
            &&& t.len() == lcs_len(c, d, c.len(), d.len())
            &&& fc.len() == c.len() && fd.len() == d.len()
            &&& count_true(fc) == t.len() && count_true(fd) == t.len()
            &&& forall|x: int| 0 <= x < c.len() ==> (fc[x] <==> exists|k: int| 0 <= k < t.len() && (#[trigger] t[k]).0 == x)
            &&& forall|y: int| 0 <= y < d.len() ==> (fd[y] <==> exists|k: int| 0 <= k < t.len() && (#[trigger] t[k]).1 == y)
        }),
{
    let t = lcs_trace(c, d, c.len(), d.len());
    lemma_trace(c, d, c.len(), d.len());
    lemma_marks_len(t, c.len(), true);
    lemma_marks_len(t, d.len(), false);
    lemma_count_marks(t, c.len(), true);
    lemma_count_marks(t, d.len(), false);
    assert forall|x: int| 0 <= x < c.len() implies (marks(t, c.len(), true)[x] <==> exists|k: int| 0 <= k < t.len() && (#[trigger] t[k]).0 == x) by {
        lemma_marks_at(t, c.len(), true, x);
    }
    assert forall|y: int| 0 <= y < d.len() implies (marks(t, d.len(), false)[y] <==> exists|k: int| 0 <= k < t.len() && (#[trigger] t[k]).1 == y) by {
        lemma_marks_at(t, d.len(), false, y);
    }
}

/// The count of a concatenation is the sum of the counts.
proof fn lemma_count_concat(a: Seq<bool>, b: Seq<bool>)
    ensures
        count_true(a + b) == count_true(a) + count_true(b),
    decreases b.len(),
{
    if b.len() > 0 {
        assert((a + b).drop_last() =~= a + b.drop_last());
        lemma_count_concat(a, b.drop_last());
    } else {
        assert(a + b =~= a);
    }
}

/// All `n` flags set count `n`.
proof fn lemma_count_all(n: nat)
    ensures
        count_true(all_true(n)) == n,
    decreases n,
{
    if n > 0 {
        assert(all_true(n).drop_last() =~= all_true((n - 1) as nat));
        lemma_count_all((n - 1) as nat);
    }
}

/// The common head is no longer than either list.
proof fn lemma_prefix_bound(c: Seq<PlaybackItem>, d: Seq<PlaybackItem>, k: nat)
    requires
        k <= c.len(),
        k <= d.len(),
    ensures
        k <= common_prefix(c, d, k) <= c.len(),
        common_prefix(c, d, k) <= d.len(),
    decreases c.len() - k,
{
    if k < c.len() && k < d.len() && spec_items_match(c[k as int], d[k as int]) {
        lemma_prefix_bound(c, d, k + 1);
    }
}

/// The common tail is no longer than either list.
proof fn lemma_suffix_bound(c: Seq<PlaybackItem>, d: Seq<PlaybackItem>, k: nat)
    requires
        k <= c.len(),
        k <= d.len(),
    ensures
        k <= common_suffix(c, d, k) <= c.len(),
        common_suffix(c, d, k) <= d.len(),
    decreases c.len() - k,
{
    if k < c.len() && k < d.len() && spec_items_match(c[c.len() - 1 - k], d[d.len() - 1 - k]) {
        lemma_suffix_bound(c, d, k + 1);
    }
}

/// When both lists have items, the diff with the common head and tail
/// stripped keeps as many current items as it finds desired items present,
/// and gives one flag per item.
pub proof fn law_lcs_flags_optimized_counts_agree(c: Seq<PlaybackItem>, d: Seq<PlaybackItem>)
    requires
        c.len() > 0,
        d.len() > 0,
    ensures
        ({
            let (fc, fd) = spec_lcs_flags_optimized(c, d);
            fc.len() == c.len() && fd.len() == d.len() && count_true(fc) == count_true(fd)
        }),
{
    let lead = common_prefix(c, d, 0);
    lemma_prefix_bound(c, d, 0);
    let ct = c.skip(lead as int);
    let dt = d.skip(lead as int);
    let trail = common_suffix(ct, dt, 0);
    lemma_suffix_bound(ct, dt, 0);
    let cm = ct.take(ct.len() - trail);
    let dm = dt.take(dt.len() - trail);
    lemma_count_all(lead);
    lemma_count_all(trail);
    lemma_count_all(c.len());
    lemma_count_all(d.len());
    if !(cm.len() == 0 && dm.len() == 0) {
        law_lcs_flags_pair_up(cm, dm);
        let (fc, fd) = spec_lcs_flags(cm, dm);
        lemma_count_concat(all_true(lead), fc);
        lemma_count_concat(all_true(lead) + fc, all_true(trail));
        lemma_count_concat(all_true(lead), fd);
        lemma_count_concat(all_true(lead) + fd, all_true(trail));
    }
}

/// Every position of the common head matches.
proof fn lemma_prefix_match(c: Seq<PlaybackItem>, d: Seq<PlaybackItem>, k: nat, i: int)
    requires
        k <= i < common_prefix(c, d, k),
    ensures
        0 <= i < c.len() && i < d.len() && spec_items_match(c[i], d[i]),
    decreases c.len() - k,
{
    if k < c.len() && k < d.len() && spec_items_match(c[k as int], d[k as int]) {
        if i > k {
            lemma_prefix_match(c, d, k + 1, i);
        }
    }
}

/// Every position of the common tail matches.
proof fn lemma_suffix_match(c: Seq<PlaybackItem>, d: Seq<PlaybackItem>, k: nat, i: int)
    requires
        k <= i < common_suffix(c, d, k),
    ensures
        0 <= i < c.len() && i < d.len() && spec_items_match(c[c.len() - 1 - i], d[d.len() - 1 - i]),
    decreases c.len() - k,
{
    if k < c.len() && k < d.len() && spec_items_match(c[c.len() - 1 - k], d[d.len() - 1 - k]) {
        if i > k {
            lemma_suffix_match(c, d, k + 1, i);
        }
    }
}

/// The pairs that the diff with the common head and tail stripped keeps:
/// the head paired position by position, the middle's longest common
/// subsequence shifted past the head, and the tail paired position by
/// position.
pub open spec fn optimized_trace(c: Seq<PlaybackItem>, d: Seq<PlaybackItem>) -> Seq<(int, int)> {
    let lead = common_prefix(c, d, 0);
    let ct = c.skip(lead as int);
    let dt = d.skip(lead as int);
    let trail = common_suffix(ct, dt, 0);
    let cm = ct.take(ct.len() - trail);
    let dm = dt.take(dt.len() - trail);
    let tm = lcs_trace(cm, dm, cm.len(), dm.len());
    Seq::new(lead, |i: int| (i, i)) + Seq::new(tm.len(), |k: int| (tm[k].0 + lead, tm[k].1 + lead)) + Seq::new(
        trail,
        |k: int| (lead + cm.len() + k, lead + dm.len() + k),
    )
}

/// When both lists have items, the diff with the common head and tail
/// stripped flags a common subsequence of matching items: the kept current
/// items and the present desired items pair up, in order, and a flag is set
/// exactly at a position of that subsequence.
pub proof fn law_lcs_flags_optimized_pair_up(c: Seq<PlaybackItem>, d: Seq<PlaybackItem>)
    requires
        c.len() > 0,
        d.len() > 0,
    ensures
        ({
            let t = optimized_trace(c, d);
            let (fc, fd) = spec_lcs_flags_optimized(c, d);
            &&& matching_subsequence(c, d, t)
            &&& fc.len() == c.len() && fd.len() == d.len()
            &&& forall|x: int| 0 <= x < c.len() ==> (fc[x] <==> exists|k: int| 0 <= k < t.len() && (#[trigger] t[k]).0 == x)
            &&& forall|y: int| 0 <= y < d.len() ==> (fd[y] <==> exists|k: int| 0 <= k < t.len() && (#[trigger] t[k]).1 == y)
        }),
{
    let lead = common_prefix(c, d, 0);
    lemma_prefix_bound(c, d, 0);
    let ct = c.skip(lead as int);
    let dt = d.skip(lead as int);
    let trail = common_suffix(ct, dt, 0);
    lemma_suffix_bound(ct, dt, 0);
    let cm = ct.take(ct.len() - trail);
    let dm = dt.take(dt.len() - trail);
    let tm = lcs_trace(cm, dm, cm.len(), dm.len());
    law_lcs_flags_pair_up(cm, dm);
    let (mc, md) = spec_lcs_flags(cm, dm);
    let lp = Seq::new(lead, |i: int| (i, i));
    let mp = Seq::new(tm.len(), |k: int| (tm[k].0 + lead, tm[k].1 + lead));
    let tp = Seq::new(trail, |k: int| (lead + cm.len() + k, lead + dm.len() + k));
    let t = optimized_trace(c, d);
    assert(t == lp + mp + tp);
    let n1 = lead as int;
    let n2 = n1 + tm.len();
    assert(t.len() == n2 + trail);
    assert forall|k: int| 0 <= k < t.len() implies 0 <= (#[trigger] t[k]).0 < c.len() && 0 <= t[k].1 < d.len()
        && spec_items_match(c[t[k].0], d[t[k].1]) by {
        if k < n1 {
            lemma_prefix_match(c, d, 0, k);
        } else if k < n2 {
            let m = k - n1;
            assert(t[k] == mp[m]);
            assert(cm[tm[m].0] == c[tm[m].0 + lead]);
            assert(dm[tm[m].1] == d[tm[m].1 + lead]);
        } else {
            let m = k - n2;
            assert(t[k] == tp[m]);
            let i = trail - 1 - m;
            lemma_suffix_match(ct, dt, 0, i);
            assert(ct[ct.len() - 1 - i] == c[lead + cm.len() + m]);
            assert(dt[dt.len() - 1 - i] == d[lead + dm.len() + m]);
        }
    }
    assert forall|k: int, l: int| 0 <= k < l < t.len() implies (#[trigger] t[k]).0 < (#[trigger] t[l]).0 && t[k].1
        < t[l].1 by {
        if l < n1 {
        } else if l < n2 {
            let ml = l - n1;
            assert(t[l] == mp[ml]);
            if k >= n1 {
                assert(t[k] == mp[k - n1]);
            }
        } else {
            assert(t[l] == tp[l - n2]);
            if k >= n2 {
                assert(t[k] == tp[k - n2]);
            } else if k >= n1 {
                assert(t[k] == mp[k - n1]);
            }
        }
    }
    let fc = all_true(lead) + mc + all_true(trail);
    let fd = all_true(lead) + md + all_true(trail);
    if cm.len() == 0 && dm.len() == 0 {
        assert(fc =~= all_true(c.len()));
        assert(fd =~= all_true(d.len()));
    }
    assert(spec_lcs_flags_optimized(c, d) == (fc, fd));
    assert forall|x: int| 0 <= x < c.len() implies (fc[x] <==> exists|k: int| 0 <= k < t.len() && (#[trigger] t[k]).0 == x) by {
        if x < n1 {
            assert(t[x] == lp[x]);
        } else if x < n1 + cm.len() {
            let xm = x - n1;
            if mc[xm] {
                let km = choose|km: int| 0 <= km < tm.len() && (#[trigger] tm[km]).0 == xm;
                assert(t[n1 + km] == mp[km]);
            }
            if exists|k: int| 0 <= k < t.len() && (#[trigger] t[k]).0 == x {
                let k = choose|k: int| 0 <= k < t.len() && (#[trigger] t[k]).0 == x;
                if k < n1 {
                    assert(t[k] == lp[k]);
                } else if k < n2 {
                    assert(t[k] == mp[k - n1]);
                    assert(tm[k - n1].0 == xm);
                } else {
                    assert(t[k] == tp[k - n2]);
                }
            }
        } else {
            let m = x - n1 - cm.len();
            assert(t[n2 + m] == tp[m]);
        }
    }
    assert forall|y: int| 0 <= y < d.len() implies (fd[y] <==> exists|k: int| 0 <= k < t.len() && (#[trigger] t[k]).1 == y) by {
        if y < n1 {
            assert(t[y] == lp[y]);
        } else if y < n1 + dm.len() {
            let ym = y - n1;
            if md[ym] {
                let km = choose|km: int| 0 <= km < tm.len() && (#[trigger] tm[km]).1 == ym;
                assert(t[n1 + km] == mp[km]);
            }
            if exists|k: int| 0 <= k < t.len() && (#[trigger] t[k]).1 == y {
                let k = choose|k: int| 0 <= k < t.len() && (#[trigger] t[k]).1 == y;
                if k < n1 {
                    assert(t[k] == lp[k]);
                } else if k < n2 {
                    assert(t[k] == mp[k - n1]);
                    assert(tm[k - n1].1 == ym);
                } else {
                    assert(t[k] == tp[k - n2]);
                }
            }
        } else {
            let m = y - n1 - dm.len();
            assert(t[n2 + m] == tp[m]);
        }
    }
}

/// No order-preserving pairing of matching items of the first `i` current
/// and the first `j` desired items is longer than `lcs_len`.
proof fn lemma_lcs_upper(c: Seq<PlaybackItem>, d: Seq<PlaybackItem>, i: nat, j: nat, t: Seq<(int, int)>)
    requires
        i <= c.len(),
        j <= d.len(),
        matching_subsequence(c, d, t),
        forall|k: int| 0 <= k < t.len() ==> (#[trigger] t[k]).0 < i && t[k].1 < j,
    ensures
        t.len() <= lcs_len(c, d, i, j),
    decreases i + j,
{
    if t.len() == 0 {
        return;
    }
    let n = t.len() as int;
    let last = t[n - 1];
    assert(0 <= last.0 < i && 0 <= last.1 < j);
    let t2 = t.drop_last();
    assert forall|k: int| 0 <= k < t2.len() implies (#[trigger] t2[k]).0 < last.0 && t2[k].1 < last.1 by {
        assert(t2[k] == t[k]);
        assert(t[k].0 < t[n - 1].0 && t[k].1 < t[n - 1].1);
    }
    assert(matching_subsequence(c, d, t2)) by {
        assert forall|k: int, l: int| 0 <= k < l < t2.len() implies (#[trigger] t2[k]).0 < (#[trigger] t2[l]).0 && t2[k].1
            < t2[l].1 by {
            assert(t2[k] == t[k] && t2[l] == t[l]);
        }
        assert forall|k: int| 0 <= k < t2.len() implies 0 <= (#[trigger] t2[k]).0 < c.len() && 0 <= t2[k].1 < d.len()
            && spec_items_match(c[t2[k].0], d[t2[k].1]) by {
            assert(t2[k] == t[k]);
        }
    }
    if spec_items_match(c[i - 1], d[j - 1]) {
        if last.0 == i - 1 || last.1 == j - 1 {
            lemma_lcs_upper(c, d, (i - 1) as nat, (j - 1) as nat, t2);
        } else {
            assert forall|k: int| 0 <= k < t.len() implies (#[trigger] t[k]).0 < i - 1 && t[k].1 < j - 1 by {
                if k < n - 1 {
                    assert(t[k].0 < t[n - 1].0 && t[k].1 < t[n - 1].1);
                }
            }
            lemma_lcs_upper(c, d, (i - 1) as nat, (j - 1) as nat, t);
        }
    } else {
        if last.0 < i - 1 {
            assert forall|k: int| 0 <= k < t.len() implies (#[trigger] t[k]).0 < i - 1 && t[k].1 < j by {
                if k < n - 1 {
                    assert(t[k].0 < t[n - 1].0);
                }
            }
            lemma_lcs_upper(c, d, (i - 1) as nat, j, t);
        } else {
            assert(last.1 < j - 1);
            assert forall|k: int| 0 <= k < t.len() implies (#[trigger] t[k]).0 < i && t[k].1 < j - 1 by {
                if k < n - 1 {
                    assert(t[k].1 < t[n - 1].1);
                }
            }
            lemma_lcs_upper(c, d, i, (j - 1) as nat, t);
        }
    }
}

/// The plain diff keeps as many items as the longest order-preserving
/// pairing of matching items: no such pairing of the current and desired
/// items is longer than the number of kept current items.
pub proof fn law_lcs_flags_maximal(c: Seq<PlaybackItem>, d: Seq<PlaybackItem>, t: Seq<(int, int)>)
    requires
        matching_subsequence(c, d, t),
    ensures
        t.len() <= count_true(spec_lcs_flags(c, d).0),
        count_true(spec_lcs_flags(c, d).0) == lcs_len(c, d, c.len(), d.len()),
{
    law_lcs_flags_pair_up(c, d);
    lemma_lcs_upper(c, d, c.len(), d.len(), t);
}

/// A common subsequence is no longer than either prefix.
proof fn lemma_lcs_le_min(c: Seq<PlaybackItem>, d: Seq<PlaybackItem>, i: nat, j: nat)
    ensures
        lcs_len(c, d, i, j) <= i,
        lcs_len(c, d, i, j) <= j,
    decreases i + j,
{
    if i > 0 && j > 0 {
        lemma_lcs_le_min(c, d, (i - 1) as nat, (j - 1) as nat);
        lemma_lcs_le_min(c, d, (i - 1) as nat, j);
        lemma_lcs_le_min(c, d, i, (j - 1) as nat);
    }
}

/// `lcs_len` of prefixes depends on the prefixes alone.
proof fn lemma_lcs_prefix(
    c1: Seq<PlaybackItem>,
    d1: Seq<PlaybackItem>,
    c2: Seq<PlaybackItem>,
    d2: Seq<PlaybackItem>,
    i: nat,
    j: nat,
)
    requires
        i <= c1.len(),
        i <= c2.len(),
        j <= d1.len(),
        j <= d2.len(),
        forall|k: int| 0 <= k < i ==> c1[k] == c2[k],
        forall|k: int| 0 <= k < j ==> d1[k] == d2[k],
    ensures
        lcs_len(c1, d1, i, j) == lcs_len(c2, d2, i, j),
    decreases i + j,
{
    if i > 0 && j > 0 {
        lemma_lcs_prefix(c1, d1, c2, d2, (i - 1) as nat, (j - 1) as nat);
        lemma_lcs_prefix(c1, d1, c2, d2, (i - 1) as nat, j);
        lemma_lcs_prefix(c1, d1, c2, d2, i, (j - 1) as nat);
    }
}

/// Each item of the common tail adds one to the longest common subsequence.
proof fn lemma_lcs_tail(c: Seq<PlaybackItem>, d: Seq<PlaybackItem>, k: nat)
    requires
        k <= common_suffix(c, d, 0),
    ensures
        k <= c.len() && k <= d.len(),
        lcs_len(c, d, c.len(), d.len()) == k + lcs_len(c, d, (c.len() - k) as nat, (d.len() - k) as nat),
    decreases k,
{
    lemma_suffix_bound(c, d, 0);
    if k > 0 {
        lemma_lcs_tail(c, d, (k - 1) as nat);
        lemma_suffix_match(c, d, 0, k - 1);
        assert(c[c.len() - 1 - (k - 1)] == c[(c.len() - k + 1) - 1]);
        assert(d[d.len() - 1 - (k - 1)] == d[(d.len() - k + 1) - 1]);
    }
}

/// Each item of the common head adds one to the longest common subsequence.
proof fn lemma_lcs_head(c: Seq<PlaybackItem>, d: Seq<PlaybackItem>, lead: nat, x: nat, y: nat)
    requires
        lead <= common_prefix(c, d, 0),
        lead + x <= c.len(),
        lead + y <= d.len(),
    ensures
        lcs_len(c, d, lead + x, lead + y) == lead + lcs_len(c.skip(lead as int), d.skip(lead as int), x, y),
    decreases x + y,
{
    let ct = c.skip(lead as int);
    let dt = d.skip(lead as int);
    if x == 0 || y == 0 {
        lemma_lcs_le_min(c, d, lead + x, lead + y);
        let t = Seq::new(lead, |k: int| (k, k));
        assert forall|k: int| 0 <= k < t.len() implies 0 <= (#[trigger] t[k]).0 < c.len() && 0 <= t[k].1 < d.len()
            && spec_items_match(c[t[k].0], d[t[k].1]) by {
            lemma_prefix_match(c, d, 0, k);
        }
        lemma_lcs_upper(c, d, lead + x, lead + y, t);
    } else {
        assert(c[lead + x - 1] == ct[x - 1]);
        assert(d[lead + y - 1] == dt[y - 1]);
        lemma_lcs_head(c, d, lead, (x - 1) as nat, (y - 1) as nat);
        lemma_lcs_head(c, d, lead, (x - 1) as nat, y);
        lemma_lcs_head(c, d, lead, x, (y - 1) as nat);
        assert(lcs_len(c, d, lead + x, lead + y) == (if spec_items_match(c[lead + x - 1], d[lead + y - 1]) {
            lcs_len(c, d, (lead + x - 1) as nat, (lead + y - 1) as nat) + 1
        } else if lcs_len(c, d, (lead + x - 1) as nat, lead + y) >= lcs_len(c, d, lead + x, (lead + y - 1) as nat) {
            lcs_len(c, d, (lead + x - 1) as nat, lead + y)
        } else {
            lcs_len(c, d, lead + x, (lead + y - 1) as nat)
        }));
    }
}

/// When both lists have items, the diff with the common head and tail
/// stripped keeps as many items as the plain diff, the longest
/// order-preserving pairing of matching items: no such pairing is longer
/// than the number of kept current items.
pub proof fn law_lcs_flags_optimized_maximal(c: Seq<PlaybackItem>, d: Seq<PlaybackItem>, t: Seq<(int, int)>)
    requires
        c.len() > 0,
        d.len() > 0,
        matching_subsequence(c, d, t),
    ensures
        count_true(spec_lcs_flags_optimized(c, d).0) == lcs_len(c, d, c.len(), d.len()),
        count_true(spec_lcs_flags_optimized(c, d).1) == lcs_len(c, d, c.len(), d.len()),
        t.len() <= count_true(spec_lcs_flags_optimized(c, d).0),
{
    let lead = common_prefix(c, d, 0);
    lemma_prefix_bound(c, d, 0);
    let ct = c.skip(lead as int);
    let dt = d.skip(lead as int);
    let trail = common_suffix(ct, dt, 0);
    lemma_suffix_bound(ct, dt, 0);
    let cm = ct.take(ct.len() - trail);
    let dm = dt.take(dt.len() - trail);
    lemma_lcs_head(c, d, lead, ct.len(), dt.len());
    assert(lead + ct.len() == c.len() && lead + dt.len() == d.len());
    lemma_lcs_tail(ct, dt, trail);
    lemma_lcs_prefix(ct, dt, cm, dm, cm.len(), dm.len());
    assert(lcs_len(c, d, c.len(), d.len()) == lead + trail + lcs_len(cm, dm, cm.len(), dm.len()));
    law_lcs_flags_optimized_counts_agree(c, d);
    lemma_count_all(lead);
    lemma_count_all(trail);
    lemma_count_all(c.len());
    lemma_count_all(d.len());
    if !(cm.len() == 0 && dm.len() == 0) {
        law_lcs_flags_pair_up(cm, dm);
        let (fc, fd) = spec_lcs_flags(cm, dm);
        lemma_count_concat(all_true(lead), fc);
        lemma_count_concat(all_true(lead) + fc, all_true(trail));
        lemma_count_concat(all_true(lead), fd);
        lemma_count_concat(all_true(lead) + fd, all_true(trail));
    }
    lemma_lcs_upper(c, d, c.len(), d.len(), t);
}

/// The plain diff's kept count is `lcs_len`, and bounds every pairing.
proof fn lemma_plain_maximal_all(c: Seq<PlaybackItem>, d: Seq<PlaybackItem>)
    ensures
        count_true(spec_lcs_flags(c, d).0) == lcs_len(c, d, c.len(), d.len()),
        forall|t: Seq<(int, int)>| #[trigger] matching_subsequence(c, d, t) ==> t.len() <= count_true(spec_lcs_flags(c, d).0),
{
    law_lcs_flags_maximal(c, d, Seq::empty());
    assert forall|t: Seq<(int, int)>| #[trigger] matching_subsequence(c, d, t) implies t.len() <= count_true(
        spec_lcs_flags(c, d).0,
    ) by {
        law_lcs_flags_maximal(c, d, t);
    }
}

/// The optimized diff's kept count is `lcs_len` for non-empty lists, and
/// bounds every pairing.
proof fn lemma_optimized_maximal_all(c: Seq<PlaybackItem>, d: Seq<PlaybackItem>)
    ensures
        c.len() > 0 && d.len() > 0 ==> count_true(spec_lcs_flags_optimized(c, d).0) == lcs_len(c, d, c.len(), d.len()),
        forall|t: Seq<(int, int)>| #[trigger] matching_subsequence(c, d, t) ==> t.len() <= count_true(
            spec_lcs_flags_optimized(c, d).0,
        ),
{
    if c.len() > 0 && d.len() > 0 {
        law_lcs_flags_optimized_maximal(c, d, Seq::empty());
    }
    assert forall|t: Seq<(int, int)>| #[trigger] matching_subsequence(c, d, t) implies t.len() <= count_true(
        spec_lcs_flags_optimized(c, d).0,
    ) by {
        if c.len() > 0 && d.len() > 0 {
            law_lcs_flags_optimized_maximal(c, d, t);
        } else if t.len() > 0 {
            assert(0 <= t[0].0 < c.len() && 0 <= t[0].1 < d.len());
        }
    }
}

} // verus!
