//! Clients of the UPnP and OpenHome services of a renderer.
pub mod openhome_client;
pub mod track_list;
pub mod rendering_control_client;

use crate::text::{first_occ, occurs_at_exec, push_chars, seq_starts_with, starts_with_chars, str_chars, string_from_chars, find_chars};
use vstd::prelude::*;

verus! {

/// `http://`
pub open spec fn http_prefix() -> Seq<char> {
    seq!['h', 't', 't', 'p', ':', '/', '/']
}

/// `https://`
pub open spec fn https_prefix() -> Seq<char> {
    seq!['h', 't', 't', 'p', 's', ':', '/', '/']
}

/// `://`
pub open spec fn scheme_sep() -> Seq<char> {
    seq![':', '/', '/']
}

/// A control URL resolved against the description URL: absolute URLs are
/// kept, others are appended to the `scheme://authority` of the description
/// URL; when that cannot be found the control URL is kept as is.
pub open spec fn spec_resolve_control_url(desc: Seq<char>, ctrl: Seq<char>) -> Seq<char> {
    if seq_starts_with(ctrl, http_prefix()) || seq_starts_with(ctrl, https_prefix()) {
        ctrl
    } else {
        match first_occ(desc, scheme_sep(), 0) {
            Some(k) => {
                let scheme = desc.take(k);
                let rest = desc.skip(k + 3);
                match first_occ(rest, seq!['/'], 0) {
                    Some(p) => {
                        let base = scheme + scheme_sep() + rest.take(p);
                        if seq_starts_with(ctrl, seq!['/']) {
                            base + ctrl
                        } else {
                            base + seq!['/'] + ctrl
                        }
                    },
                    None => ctrl,
                }
            },
            None => ctrl,
        }
    }
}

/// Resolves a possibly relative controlURL against the description URL.
pub fn resolve_control_url(description_url: &str, control_url: &str) -> (r: String)
    ensures
        r@ == spec_resolve_control_url(description_url@, control_url@),
{
    let ctrl = str_chars(control_url);
    let desc = str_chars(description_url);
    let http = str_chars("http://");
    let https = str_chars("https://");
    let sep = str_chars("://");
    let slash = str_chars("/");
    proof {
        reveal_strlit("http://");
        reveal_strlit("https://");
        reveal_strlit("://");
        reveal_strlit("/");
        assert(http@ =~= http_prefix());
        assert(https@ =~= https_prefix());
        assert(sep@ =~= scheme_sep());
        assert(slash@ =~= seq!['/']);
    }
    if starts_with_chars(ctrl.as_slice(), http.as_slice()) || starts_with_chars(ctrl.as_slice(), https.as_slice()) {
        return string_from_chars(ctrl.as_slice());
    }
    match find_chars(desc.as_slice(), sep.as_slice()) {
        None => string_from_chars(ctrl.as_slice()),
        Some(k) => {
            let mut rest: Vec<char> = Vec::new();
            let mut i: usize = k + 3;
            while i < desc.len()
                invariant
                    k + 3 <= i <= desc@.len(),
                    rest@ == desc@.subrange(k + 3, i as int),
                decreases desc@.len() - i,
            {
                rest.push(desc[i]);
                i = i + 1;
                assert(rest@ =~= desc@.subrange(k + 3, i as int));
            }
            assert(rest@ =~= desc@.skip(k + 3));
            match find_chars(rest.as_slice(), slash.as_slice()) {
                None => string_from_chars(ctrl.as_slice()),
                Some(p) => {
                    let mut out: Vec<char> = Vec::new();
                    let mut j: usize = 0;
                    while j < k
                        invariant
                            j <= k,
                            k <= desc@.len(),
                            out@ == desc@.subrange(0, j as int),
                        decreases k - j,
                    {
                        out.push(desc[j]);
                        j = j + 1;
                        assert(out@ =~= desc@.subrange(0, j as int));
                    }
                    push_chars(&mut out, sep.as_slice());
                    let ghost mid = out@;
                    let mut t: usize = 0;
                    while t < p
                        invariant
                            t <= p,
                            p <= rest@.len(),
                            out@ == mid + rest@.subrange(0, t as int),
                        decreases p - t,
                    {
                        out.push(rest[t]);
                        t = t + 1;
                        assert(out@ =~= mid + rest@.subrange(0, t as int));
                    }
                    if !starts_with_chars(ctrl.as_slice(), slash.as_slice()) {
                        out.push('/');
                    }
                    push_chars(&mut out, ctrl.as_slice());
                    proof {
                        assert(desc@.subrange(0, k as int) =~= desc@.take(k as int));
                        assert(rest@.subrange(0, p as int) =~= rest@.take(p as int));
                        assert(out@ =~= spec_resolve_control_url(description_url@, control_url@));
                    }
                    string_from_chars(out.as_slice())
                },
            }
        },
    }
}

} // verus!
