//! The cover image cache: its naming, the WebP check, and the decisions of
//! the cover proxy.
use crate::text::{str_chars, starts_with_chars, seq_starts_with};
use vstd::prelude::*;

verus! {

/// Naming of the cover cache: files end in `webp`, the routes expose the
/// type `image`, and the cache is called `covers`.
#[derive(Debug, Clone, Copy)]
pub struct CoversConfig;

impl CoversConfig {
    /// Extension of the cached files.
    pub fn file_extension() -> (r: &'static str)
        ensures
            r@ == "webp"@,
    {
        "webp"
    }

    /// Logical type exposed by the routes.
    pub fn cache_type() -> (r: &'static str)
        ensures
            r@ == "image"@,
    {
        "image"
    }

    /// Name of the cache.
    pub fn cache_name() -> (r: &'static str)
        ensures
            r@ == "covers"@,
    {
        "covers"
    }
}

/// A WebP file starts with `RIFF`, four size bytes, then `WEBP`.
pub open spec fn spec_is_webp_header(buf: Seq<u8>) -> bool {
    &&& buf.len() >= 12
    &&& buf.subrange(0, 4) == seq![0x52u8, 0x49u8, 0x46u8, 0x46u8]
    &&& buf.subrange(8, 12) == seq![0x57u8, 0x45u8, 0x42u8, 0x50u8]
}

/// Whether a buffer holds the header of a WebP file.
pub fn is_webp_header(buf: &[u8]) -> (r: bool)
    ensures
        r == spec_is_webp_header(buf@),
{
    if buf.len() < 12 {
        return false;
    }
    let riff = buf[0] == 0x52 && buf[1] == 0x49 && buf[2] == 0x46 && buf[3] == 0x46;
    let webp = buf[8] == 0x57 && buf[9] == 0x45 && buf[10] == 0x42 && buf[11] == 0x50;
    proof {
        if riff {
            assert(buf@.subrange(0, 4) =~= seq![0x52u8, 0x49u8, 0x46u8, 0x46u8]);
        } else {
            assert(buf@.subrange(0, 4)[0] == buf@[0]);
            assert(buf@.subrange(0, 4)[1] == buf@[1]);
            assert(buf@.subrange(0, 4)[2] == buf@[2]);
            assert(buf@.subrange(0, 4)[3] == buf@[3]);
        }
        if webp {
            assert(buf@.subrange(8, 12) =~= seq![0x57u8, 0x45u8, 0x42u8, 0x50u8]);
        } else {
            assert(buf@.subrange(8, 12)[0] == buf@[8]);
            assert(buf@.subrange(8, 12)[1] == buf@[9]);
            assert(buf@.subrange(8, 12)[2] == buf@[10]);
            assert(buf@.subrange(8, 12)[3] == buf@[11]);
        }
    }
    riff && webp
}

/// The query of the cover proxy: the URL of the image to cache.
#[derive(Debug, Clone)]
pub struct CoverProxyParams {
    pub url: String,
}

/// The answer of the cover proxy: where the cached image is served, and its
/// key in the cache.
#[derive(Debug, Clone)]
pub struct CoverProxyResponse {
    pub cached_url: String,
    pub pk: String,
}

/// Whether a URL is a cover served by this instance (it starts with the
/// instance's base URL).
pub fn is_local_cover_url(url: &str, base_url: &str) -> (r: bool)
    ensures
        r == seq_starts_with(url@, base_url@),
{
    let u = str_chars(url);
    let b = str_chars(base_url);
    starts_with_chars(u.as_slice(), b.as_slice())
}

/// The URL under which a client can fetch a track's cover: a route of this
/// instance's cover cache (`/covers/...`) made absolute with `url_for`, a
/// URL of this instance kept as it is, any other URL handed to `proxy`,
/// which caches it and gives the local URL (the original URL is kept when
/// that fails). No URL gives none.
pub fn transform_cover_url<U: Fn(&str) -> String, P: Fn(&str) -> Result<String, String>>(
    url: Option<&str>,
    base_url: &str,
    url_for: &U,
    proxy: &P,
) -> (r: Option<String>)
    requires
        forall|u: &str| #[trigger] url_for.requires((u,)),
        forall|u: &str| #[trigger] proxy.requires((u,)),
    ensures
        match url {
            None => r is None,
            Some(u) => if seq_starts_with(u@, "/covers/"@) {
                r matches Some(a) && url_for.ensures((u,), a)
            } else if seq_starts_with(u@, base_url@) {
                r matches Some(a) && a@ == u@
            } else {
                exists|p: Result<String, String>| #[trigger] proxy.ensures((u,), p) && match p {
                    Ok(local) => r == Some(local),
                    Err(_) => r matches Some(a) && a@ == u@,
                }
            },
        },
{
    let u = match url {
        Some(u) => u,
        None => {
            return None;
        },
    };
    let cs = str_chars(u);
    let route = str_chars("/covers/");
    proof {
        reveal_strlit("/covers/");
    }
    if starts_with_chars(cs.as_slice(), route.as_slice()) {
        return Some(url_for(u));
    }
    let base = str_chars(base_url);
    if starts_with_chars(cs.as_slice(), base.as_slice()) {
        return Some(crate::text::str_to_string(u));
    }
    let p = proxy(u);
    match p {
        Ok(local) => Some(local),
        Err(_) => Some(crate::text::str_to_string(u)),
    }
}

} // verus!
