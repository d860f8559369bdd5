//! Heuristics telling a continuous stream (a radio) from bounded media.
use crate::model::TrackMetadata;
use crate::text::{
    chars_eq_str, contains_chars, ends_with_chars, seq_contains, seq_ends_with, str_chars, str_to_lowercase, str_to_string,
    unicode_lowercase,
};
use vstd::prelude::*;

verus! {

/// A lower-cased URL looks like a streaming endpoint.
pub open spec fn spec_known_stream_pattern(lower: Seq<char>) -> bool {
    ||| seq_contains(lower, "/stream"@)
    ||| seq_contains(lower, "/live"@)
    ||| seq_contains(lower, "/radio"@)
    ||| seq_contains(lower, ".pls"@)
    ||| seq_contains(lower, ".m3u"@)
    ||| seq_ends_with(lower, ":8000"@)
    ||| seq_ends_with(lower, ":8000/"@)
    ||| seq_ends_with(lower, ":8080"@)
}

/// Whether `s` holds the text `pat`.
fn has(s: &Vec<char>, pat: &str) -> (r: bool)
    ensures
        r == seq_contains(s@, pat@),
{
    let p = str_chars(pat);
    contains_chars(s.as_slice(), p.as_slice())
}

/// Whether `s` ends with the text `pat`.
fn ends(s: &Vec<char>, pat: &str) -> (r: bool)
    ensures
        r == seq_ends_with(s@, pat@),
{
    let p = str_chars(pat);
    ends_with_chars(s.as_slice(), p.as_slice())
}

/// Whether an already lower-cased URL matches a known streaming pattern
/// (see [`is_known_stream_pattern`]).
pub fn matches_stream_pattern(lower: &str) -> (r: bool)
    ensures
        r == spec_known_stream_pattern(lower@),
{
    let l = str_chars(lower);
    has(&l, "/stream") || has(&l, "/live") || has(&l, "/radio") || has(&l, ".pls") || has(&l, ".m3u")
        || ends(&l, ":8000") || ends(&l, ":8000/") || ends(&l, ":8080")
}

/// Whether the URL matches a known streaming pattern (case-insensitive):
/// a `/stream`, `/live` or `/radio` path, a `.pls` or `.m3u` playlist, or a
/// `:8000` port at the end (with or without a final `/`) or a bare `:8080`.
pub fn is_known_stream_pattern(url: &str) -> (r: bool)
    ensures
        r == spec_known_stream_pattern(unicode_lowercase(url@)),
{
    let lower = str_to_lowercase(url);
    matches_stream_pattern(lower.as_str())
}

/// The decision taken on the headers of a `HEAD` response.
pub open spec fn spec_stream_from_headers(
    has_icy: bool,
    has_content_length: bool,
    transfer_encoding: Option<Seq<char>>,
    content_type: Option<Seq<char>>,
) -> bool {
    if has_icy {
        true
    } else {
        let chunked = match transfer_encoding {
            Some(t) => seq_contains(unicode_lowercase(t), "chunked"@),
            None => false,
        };
        let ct = match content_type {
            Some(c) => unicode_lowercase(c),
            None => unicode_lowercase(Seq::empty()),
        };
        let mime = seq_contains(ct, "audio/mpeg"@) || seq_contains(ct, "audio/aac"@) || seq_contains(ct, "audio/aacp"@)
            || seq_contains(ct, "application/ogg"@) || seq_contains(ct, "audio/ogg"@);
        !has_content_length && (mime || chunked)
    }
}

/// Decides from the headers of a `HEAD` response whether the resource is a
/// stream: ICY headers always mean a stream; otherwise a resource without a
/// `Content-Length` is a stream when its type is a streaming audio type or it
/// is sent chunked.
pub fn stream_from_headers(
    has_icy: bool,
    has_content_length: bool,
    transfer_encoding: Option<&str>,
    content_type: Option<&str>,
) -> (r: bool)
    ensures
        r == spec_stream_from_headers(
            has_icy,
            has_content_length,
            match transfer_encoding {
                Some(t) => Some(t@),
                None => None,
            },
            match content_type {
                Some(c) => Some(c@),
                None => None,
            },
        ),
{
    if has_icy {
        return true;
    }
    let chunked = match transfer_encoding {
        Some(t) => {
            let lower = str_to_lowercase(t);
            let l = str_chars(lower.as_str());
            has(&l, "chunked")
        },
        None => false,
    };
    let ct = match content_type {
        Some(c) => c,
        None => "",
    };
    let lower = str_to_lowercase(ct);
    let l = str_chars(lower.as_str());
    proof {
        reveal_strlit("");
        assert(""@ =~= Seq::<char>::empty());
    }
    let mime = has(&l, "audio/mpeg") || has(&l, "audio/aac") || has(&l, "audio/aacp") || has(&l, "application/ogg")
        || has(&l, "audio/ogg");
    !has_content_length && (mime || chunked)
}

/// Whether an item's metadata marks it as a continuous stream; when it
/// does, no URL detection is needed.
pub fn metadata_says_stream(metadata: Option<&TrackMetadata>) -> (r: bool)
    ensures
        r == (metadata matches Some(m) && m.is_continuous_stream),
{
    match metadata {
        Some(m) => m.is_continuous_stream,
        None => false,
    }
}

/// Whether an item is a continuous stream: its metadata says so, or else
/// `detect` (the URL-based detection) says so for its URI; `detect` runs
/// only when the metadata does not decide.
pub fn is_continuous_stream<F: Fn(&str) -> bool>(metadata: Option<&TrackMetadata>, uri: &str, detect: F) -> (r: bool)
    requires
        forall|u: &str| #[trigger] detect.requires((u,)),
    ensures
        match metadata {
            Some(m) => if m.is_continuous_stream {
                r
            } else {
                detect.ensures((uri,), r)
            },
            None => detect.ensures((uri,), r),
        },
{
    if metadata_says_stream(metadata) {
        true
    } else {
        detect(uri)
    }
}

/// What a lookup of a URL calls for.
#[derive(Debug, Clone, PartialEq, Eq, Structural)]
pub enum StreamCheck {
    /// The answer is known: from the URL's pattern or from a finished check.
    Known(bool),
    /// A check of the URL is under way; it is taken for bounded media until
    /// the check ends.
    InProgress,
    /// A check of the URL must be started (the URL is now marked pending);
    /// it is taken for bounded media until the check ends.
    Start,
}

impl StreamCheck {
    /// Whether the URL is to be taken for a stream now.
    pub fn answer(&self) -> (r: bool)
        ensures
            r == (*self == StreamCheck::Known(true)),
    {
        match self {
            StreamCheck::Known(b) => *b,
            _ => false,
        }
    }
}

/// The results of the finished checks, later entries overriding earlier ones.
pub open spec fn results_map(s: Seq<(String, bool)>) -> Map<Seq<char>, bool>
    decreases s.len(),
{
    if s.len() == 0 {
        Map::empty()
    } else {
        results_map(s.drop_last()).insert(s.last().0@, s.last().1)
    }
}

/// The URLs whose check is under way.
pub open spec fn pending_set(s: Seq<String>) -> Set<Seq<char>> {
    Set::new(|k: Seq<char>| exists|i: int| 0 <= i < s.len() && #[trigger] s[i]@ == k)
}

/// What a lookup of `url` calls for, given the finished results and the
/// checks under way.
pub open spec fn spec_stream_check(results: Map<Seq<char>, bool>, pending: Set<Seq<char>>, url: Seq<char>) -> StreamCheck {
    if spec_known_stream_pattern(unicode_lowercase(url)) {
        StreamCheck::Known(true)
    } else if results.dom().contains(url) {
        StreamCheck::Known(results[url])
    } else if pending.contains(url) {
        StreamCheck::InProgress
    } else {
        StreamCheck::Start
    }
}

/// What a finished check stores: its answer, or bounded media when the
/// check failed.
pub open spec fn spec_stored<E>(outcome: Result<bool, E>) -> bool {
    match outcome {
        Ok(b) => b,
        Err(_) => false,
    }
}

proof fn lemma_results_last_match(s: Seq<(String, bool)>, k: Seq<char>, i: int)
    requires
        0 <= i < s.len(),
        s[i].0@ == k,
        forall|j: int| i < j < s.len() ==> #[trigger] s[j].0@ != k,
    ensures
        results_map(s).dom().contains(k),
        results_map(s)[k] == s[i].1,
    decreases s.len(),
{
    if i < s.len() - 1 {
        assert(s.last().0@ != k) by {
            assert(s[s.len() - 1] == s.last());
        }
        lemma_results_last_match(s.drop_last(), k, i);
    }
}

proof fn lemma_results_no_match(s: Seq<(String, bool)>, k: Seq<char>)
    requires
        forall|j: int| 0 <= j < s.len() ==> #[trigger] s[j].0@ != k,
    ensures
        !results_map(s).dom().contains(k),
    decreases s.len(),
{
    if s.len() > 0 {
        assert(s[s.len() - 1] == s.last());
        lemma_results_no_match(s.drop_last(), k);
    }
}

/// The URL-based stream detection: the results of finished `HEAD` checks,
/// and the URLs whose check is under way.
#[derive(Debug, Clone)]
pub struct StreamDetector {
    results: Vec<(String, bool)>,
    pending: Vec<String>,
}

impl StreamDetector {
    /// The result of each finished check, by URL.
    pub closed spec fn results_view(&self) -> Map<Seq<char>, bool> {
        results_map(self.results@)
    }

    /// The URLs whose check is under way.
    pub closed spec fn pending_view(&self) -> Set<Seq<char>> {
        pending_set(self.pending@)
    }

    /// A detector that knows nothing yet.
    pub fn new() -> (r: Self)
        ensures
            r.results_view() == Map::<Seq<char>, bool>::empty(),
            r.pending_view() == Set::<Seq<char>>::empty(),
    {
        let r = StreamDetector { results: Vec::new(), pending: Vec::new() };
        proof {
            assert(pending_set(r.pending@) =~= Set::<Seq<char>>::empty());
        }
        r
    }

    fn find_result(&self, url: &str) -> (r: Option<bool>)
        ensures
            match r {
                Some(b) => self.results_view().dom().contains(url@) && self.results_view()[url@] == b,
                None => !self.results_view().dom().contains(url@),
            },
    {
        let mut i: usize = self.results.len();
        while i > 0
            invariant
                i <= self.results@.len(),
                forall|j: int| i <= j < self.results@.len() ==> #[trigger] self.results@[j].0@ != url@,
            decreases i,
        {
            let entry = &self.results[i - 1];
            let cs = str_chars(entry.0.as_str());
            if chars_eq_str(cs.as_slice(), url) {
                proof {
                    lemma_results_last_match(self.results@, url@, i - 1);
                }
                return Some(entry.1);
            }
            i = i - 1;
        }
        proof {
            lemma_results_no_match(self.results@, url@);
        }
        None
    }

    fn is_pending(&self, url: &str) -> (r: bool)
        ensures
            r == self.pending_view().contains(url@),
    {
        let mut i: usize = 0;
        while i < self.pending.len()
            invariant
                i <= self.pending@.len(),
                forall|j: int| 0 <= j < i ==> #[trigger] self.pending@[j]@ != url@,
            decreases self.pending@.len() - i,
        {
            let cs = str_chars(self.pending[i].as_str());
            if chars_eq_str(cs.as_slice(), url) {
                assert(self.pending@[i as int]@ == url@);
                return true;
            }
            i = i + 1;
        }
        false
    }

    /// Looks a URL up: a URL that matches a streaming pattern is a stream; a
    /// URL already checked has its result; a URL under check, and a new URL
    /// (whose check is to be started, and which is marked pending), are
    /// taken for bounded media for now.
    pub fn lookup(&mut self, url: &str) -> (r: StreamCheck)
        ensures
            r == spec_stream_check(old(self).results_view(), old(self).pending_view(), url@),
            final(self).results_view() == old(self).results_view(),
            final(self).pending_view() == if r == StreamCheck::Start {
                old(self).pending_view().insert(url@)
            } else {
                old(self).pending_view()
            },
    {
        if is_known_stream_pattern(url) {
            return StreamCheck::Known(true);
        }
        match self.find_result(url) {
            Some(b) => {
                return StreamCheck::Known(b);
            },
            None => {},
        }
        if self.is_pending(url) {
            return StreamCheck::InProgress;
        }
        let ghost before = self.pending@;
        self.pending.push(str_to_string(url));
        proof {
            assert(self.pending@[before.len() as int]@ == url@);
            assert forall|k: Seq<char>| #[trigger] pending_set(self.pending@).contains(k) == pending_set(before).insert(url@).contains(k) by {
                if pending_set(before).contains(k) {
                    let i = choose|i: int| 0 <= i < before.len() && #[trigger] before[i]@ == k;
                    assert(self.pending@[i]@ == k);
                }
            }
            assert(pending_set(self.pending@) =~= pending_set(before).insert(url@));
        }
        StreamCheck::Start
    }

    /// Records the end of the check of a URL: its result (bounded media when
    /// the check failed) becomes known and the URL is no longer pending.
    pub fn record<E>(&mut self, url: &str, outcome: Result<bool, E>)
        ensures
            final(self).results_view() == old(self).results_view().insert(url@, spec_stored(outcome)),
            final(self).pending_view() == old(self).pending_view().remove(url@),
    {
        let stored = match outcome {
            Ok(b) => b,
            Err(_) => false,
        };
        let ghost r0 = self.results@;
        self.results.push((str_to_string(url), stored));
        proof {
            assert(self.results@.drop_last() == r0);
        }
        let mut kept: Vec<String> = Vec::new();
        let mut i: usize = 0;
        while i < self.pending.len()
            invariant
                i <= self.pending@.len(),
                forall|k: Seq<char>| #[trigger] pending_set(kept@).contains(k) <==> (k != url@ && exists|j: int|
                    0 <= j < i && #[trigger] self.pending@[j]@ == k),
            decreases self.pending@.len() - i,
        {
            let cs = str_chars(self.pending[i].as_str());
            let ghost k0 = kept@;
            if !chars_eq_str(cs.as_slice(), url) {
                kept.push(self.pending[i].clone());
                proof {
                    assert(kept@[k0.len() as int]@ == self.pending@[i as int]@);
                    assert forall|k: Seq<char>| #[trigger] pending_set(kept@).contains(k) <==> (k != url@ && exists|j: int|
                        0 <= j < i + 1 && #[trigger] self.pending@[j]@ == k) by {
                        if pending_set(kept@).contains(k) {
                            let m = choose|m: int| 0 <= m < kept@.len() && #[trigger] kept@[m]@ == k;
                            if m < k0.len() {
                                assert(k0[m]@ == k);
                                assert(pending_set(k0).contains(k));
                            }
                        }
                        if k != url@ && exists|j: int| 0 <= j < i + 1 && #[trigger] self.pending@[j]@ == k {
                            let j = choose|j: int| 0 <= j < i + 1 && #[trigger] self.pending@[j]@ == k;
                            if j < i {
                                assert(pending_set(k0).contains(k));
                                let m = choose|m: int| 0 <= m < k0.len() && #[trigger] k0[m]@ == k;
                                assert(kept@[m]@ == k);
                            } else {
                                assert(kept@[k0.len() as int]@ == k);
                            }
                        }
                    }
                }
            } else {
                proof {
                    assert forall|k: Seq<char>| #[trigger] pending_set(kept@).contains(k) <==> (k != url@ && exists|j: int|
                        0 <= j < i + 1 && #[trigger] self.pending@[j]@ == k) by {
                        if k != url@ && exists|j: int| 0 <= j < i + 1 && #[trigger] self.pending@[j]@ == k {
                            let j = choose|j: int| 0 <= j < i + 1 && #[trigger] self.pending@[j]@ == k;
                            assert(j < i);
                        }
                    }
                }
            }
            i = i + 1;
        }
        proof {
            assert(pending_set(kept@) =~= pending_set(self.pending@).remove(url@));
        }
        self.pending = kept;
    }
}

/// What a finished check records is what a later lookup of the same URL
/// answers (a URL of a streaming pattern is always a stream), and no check
/// of it is started again.
pub proof fn law_lookup_reads_recorded_result<E>(
    results: Map<Seq<char>, bool>,
    pending: Set<Seq<char>>,
    url: Seq<char>,
    outcome: Result<bool, E>,
)
    ensures
        spec_stream_check(results.insert(url, spec_stored(outcome)), pending.remove(url), url) == if spec_known_stream_pattern(
            unicode_lowercase(url),
        ) {
            StreamCheck::Known(true)
        } else {
            StreamCheck::Known(spec_stored(outcome))
        },
{
}

/// A URL whose check was started is not started again by a second lookup
/// before the check ends: the second lookup finds it under way.
pub proof fn law_check_started_once(results: Map<Seq<char>, bool>, pending: Set<Seq<char>>, url: Seq<char>)
    requires
        spec_stream_check(results, pending, url) == StreamCheck::Start,
    ensures
        spec_stream_check(results, pending.insert(url), url) == StreamCheck::InProgress,
{
}

/// Each documented pattern on its own makes a lower-cased URL a known
/// stream: holding `/stream`, `/live`, `/radio`, `.pls` or `.m3u` anywhere,
/// or ending with `:8000`, `:8000/` or `:8080` (an Icecast/Shoutcast port);
/// and a lookup of a URL whose lower-cased form is a known stream answers
/// that it is one, whatever was recorded or is under way.
pub proof fn law_each_stream_pattern_suffices(
    p: Seq<char>,
    q: Seq<char>,
    results: Map<Seq<char>, bool>,
    pending: Set<Seq<char>>,
    url: Seq<char>,
)
    ensures
        spec_known_stream_pattern(p + "/stream"@ + q),
        spec_known_stream_pattern(p + "/live"@ + q),
        spec_known_stream_pattern(p + "/radio"@ + q),
        spec_known_stream_pattern(p + ".pls"@ + q),
        spec_known_stream_pattern(p + ".m3u"@ + q),
        spec_known_stream_pattern(p + ":8000"@),
        spec_known_stream_pattern(p + ":8000/"@),
        spec_known_stream_pattern(p + ":8080"@),
        spec_known_stream_pattern(unicode_lowercase(url)) ==> spec_stream_check(results, pending, url)
            == StreamCheck::Known(true),
{
    lemma_holds_middle(p, "/stream"@, q);
    lemma_holds_middle(p, "/live"@, q);
    lemma_holds_middle(p, "/radio"@, q);
    lemma_holds_middle(p, ".pls"@, q);
    lemma_holds_middle(p, ".m3u"@, q);
    lemma_ends_with_suffix(p, ":8000"@);
    lemma_ends_with_suffix(p, ":8000/"@);
    lemma_ends_with_suffix(p, ":8080"@);
}

/// A text holds whatever stands in its middle.
proof fn lemma_holds_middle(p: Seq<char>, s: Seq<char>, q: Seq<char>)
    ensures
        seq_contains(p + s + q, s),
{
    assert((p + s + q).subrange(p.len() as int, (p.len() + s.len()) as int) =~= s);
    assert(crate::text::occurs_at(p + s + q, s, p.len() as int));
}

/// A text ends with its suffix.
proof fn lemma_ends_with_suffix(p: Seq<char>, s: Seq<char>)
    ensures
        seq_ends_with(p + s, s),
{
    assert((p + s).subrange((p + s).len() - s.len(), (p + s).len() as int) =~= s);
}

/// A lower-cased URL with no `/`, `.` or `:` holds none of the patterns and
/// is not taken for a stream.
pub proof fn law_plain_text_is_no_stream(lower: Seq<char>)
    requires
        forall|k: int| 0 <= k < lower.len() ==> #[trigger] lower[k] != '/' && lower[k] != '.' && lower[k] != ':',
    ensures
        !spec_known_stream_pattern(lower),
{
    reveal_strlit("/stream");
    reveal_strlit("/live");
    reveal_strlit("/radio");
    reveal_strlit(".pls");
    reveal_strlit(".m3u");
    reveal_strlit(":8000");
    reveal_strlit(":8000/");
    reveal_strlit(":8080");
    lemma_first_char_absent(lower, "/stream"@);
    lemma_first_char_absent(lower, "/live"@);
    lemma_first_char_absent(lower, "/radio"@);
    lemma_first_char_absent(lower, ".pls"@);
    lemma_first_char_absent(lower, ".m3u"@);
    lemma_first_char_absent(lower, ":8000"@);
    lemma_first_char_absent(lower, ":8000/"@);
    lemma_first_char_absent(lower, ":8080"@);
}

/// A text lacking the first character of a pattern neither holds nor ends
/// with it.
proof fn lemma_first_char_absent(s: Seq<char>, pat: Seq<char>)
    requires
        pat.len() > 0,
        forall|k: int| 0 <= k < s.len() ==> #[trigger] s[k] != pat[0],
    ensures
        !seq_contains(s, pat),
        !seq_ends_with(s, pat),
{
    if seq_contains(s, pat) {
        let i = choose|i: int| crate::text::occurs_at(s, pat, i);
        assert(s.subrange(i, i + pat.len())[0] == s[i]);
    }
    if seq_ends_with(s, pat) {
        let i = s.len() - pat.len();
        assert(s.subrange(i, s.len() as int)[0] == s[i]);
    }
}

} // verus!
