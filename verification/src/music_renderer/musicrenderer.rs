//! What a renderer reports of the track it plays, completed from its queue.
use crate::didl::push_text;
use crate::error::{msg, ControlPointError};
use crate::model::{RendererCapabilities, RendererProtocol, TrackMetadata};
use crate::music_renderer::capabilities::{play_from_index, played, queue_error, stream_flag, PlaybackPositionInfo};
use crate::music_renderer::renderer_state::{clear_playlist_binding, PlaylistBinding};
use crate::queue::backend::{erase_id, erase_ids, QueueBackend};
use crate::queue::snapshot::PlaybackItem;
use crate::text::string_from_chars;
use rand::seq::SliceRandom;
use vstd::prelude::*;

verus! {

/// The backend a renderer is driven through.
#[derive(Debug, Clone, Copy, PartialEq, Eq, Structural)]
pub enum BackendChoice {
    /// Its OpenHome services.
    OpenHome,
    /// UPnP AV for transport with the Arylic TCP channel beside it.
    HybridUpnpArylic,
    /// The LinkPlay HTTP API.
    LinkPlay,
    /// UPnP AV alone.
    Upnp,
    /// UPnP AV was chosen and could not be built; its error is the answer.
    UpnpFailed,
    /// No backend fits the renderer.
    Refused,
}

/// The backend chosen for a renderer, given its protocol and services and
/// whether each backend could be built from its description. OpenHome comes
/// first for renderers that speak it (an OpenHome-only renderer without
/// usable OpenHome services is refused); then UPnP paired with Arylic when
/// both are offered (UPnP alone when the Arylic side cannot be built); then
/// LinkPlay; then UPnP alone.
pub open spec fn spec_backend_choice(
    protocol: RendererProtocol,
    caps: RendererCapabilities,
    openhome_ok: bool,
    upnp_ok: bool,
    arylic_ok: bool,
    linkplay_ok: bool,
) -> BackendChoice {
    if !(protocol is UpnpAvOnly) && openhome_ok {
        BackendChoice::OpenHome
    } else if protocol is OpenHomeOnly {
        BackendChoice::Refused
    } else if caps.has_arylic_tcp && caps.has_avtransport {
        if !upnp_ok {
            BackendChoice::UpnpFailed
        } else if arylic_ok {
            BackendChoice::HybridUpnpArylic
        } else {
            BackendChoice::Upnp
        }
    } else if caps.has_linkplay_http && linkplay_ok {
        BackendChoice::LinkPlay
    } else if caps.has_avtransport {
        if upnp_ok {
            BackendChoice::Upnp
        } else {
            BackendChoice::UpnpFailed
        }
    } else {
        BackendChoice::Refused
    }
}

/// Chooses the backend a renderer is driven through. `openhome_ok`,
/// `upnp_ok`, `arylic_ok` and `linkplay_ok` say whether that backend can be
/// built from the renderer's description.
pub fn choose_backend(
    protocol: RendererProtocol,
    caps: &RendererCapabilities,
    openhome_ok: bool,
    upnp_ok: bool,
    arylic_ok: bool,
    linkplay_ok: bool,
) -> (r: BackendChoice)
    ensures
        r == spec_backend_choice(protocol, *caps, openhome_ok, upnp_ok, arylic_ok, linkplay_ok),
{
    match protocol {
        RendererProtocol::OpenHomeOnly | RendererProtocol::Hybrid => {
            if openhome_ok {
                return BackendChoice::OpenHome;
            }
            if let RendererProtocol::OpenHomeOnly = protocol {
                return BackendChoice::Refused;
            }
        },
        RendererProtocol::UpnpAvOnly => {},
    }
    if caps.has_arylic_tcp && caps.has_avtransport {
        if !upnp_ok {
            return BackendChoice::UpnpFailed;
        }
        return if arylic_ok {
            BackendChoice::HybridUpnpArylic
        } else {
            BackendChoice::Upnp
        };
    }
    if caps.has_linkplay_http && linkplay_ok {
        return BackendChoice::LinkPlay;
    }
    if caps.has_avtransport {
        if upnp_ok {
            BackendChoice::Upnp
        } else {
            BackendChoice::UpnpFailed
        }
    } else {
        BackendChoice::Refused
    }
}

/// The text of an optional value, or `default` when it is absent.
pub open spec fn text_or(o: Option<String>, default: Seq<char>) -> Seq<char> {
    match o {
        Some(s) => s@,
        None => default,
    }
}

/// The creator shown for a track: its creator, else its artist, else
/// `Unknown Artist`.
pub open spec fn spec_creator(m: TrackMetadata) -> Seq<char> {
    match m.creator {
        Some(c) => c@,
        None => text_or(m.artist, "Unknown Artist"@),
    }
}

/// The album art element, present only when the track has an album art URI.
pub open spec fn spec_album_art(m: TrackMetadata) -> Seq<char> {
    match m.album_art_uri {
        Some(a) => "<upnp:albumArtURI>"@ + a@ + "</upnp:albumArtURI>"@,
        None => Seq::empty(),
    }
}

/// The DIDL-Lite document describing a track: one item with its title,
/// creator, artist, album, album art and resource, the values inserted as
/// they are.
pub open spec fn spec_didl_lite_metadata(m: TrackMetadata, uri: Seq<char>, protocol_info: Seq<char>) -> Seq<char> {
    "<DIDL-Lite xmlns=\"urn:schemas-upnp-org:metadata-1-0/DIDL-Lite/\" xmlns:dc=\"http://purl.org/dc/elements/1.1/\" xmlns:upnp=\"urn:schemas-upnp-org:metadata-1-0/upnp/\">\n<item id=\"0\" parentID=\"-1\" restricted=\"1\">\n<dc:title>"@
        + text_or(m.title, "Unknown Title"@) + "</dc:title>\n<dc:creator>"@ + spec_creator(m)
        + "</dc:creator>\n<upnp:artist>"@ + text_or(m.artist, "Unknown Artist"@) + "</upnp:artist>\n<upnp:album>"@
        + text_or(m.album, "Unknown Album"@) + "</upnp:album>\n"@ + spec_album_art(m) + "\n<res protocolInfo=\""@
        + protocol_info + "\">"@ + uri + "</res>\n</item>\n</DIDL-Lite>"@
}

fn push_or(out: &mut Vec<char>, o: &Option<String>, default: &str)
    ensures
        final(out)@ == old(out)@ + text_or(*o, default@),
{
    match o {
        Some(s) => push_text(out, s.as_str()),
        None => push_text(out, default),
    }
}

/// Builds the DIDL-Lite document describing a track played from `uri`.
pub fn build_didl_lite_metadata(metadata: &TrackMetadata, uri: &str, protocol_info: &str) -> (r: String)
    ensures
        r@ == spec_didl_lite_metadata(*metadata, uri@, protocol_info@),
{
    let mut out: Vec<char> = Vec::new();
    push_text(
        &mut out,
        "<DIDL-Lite xmlns=\"urn:schemas-upnp-org:metadata-1-0/DIDL-Lite/\" xmlns:dc=\"http://purl.org/dc/elements/1.1/\" xmlns:upnp=\"urn:schemas-upnp-org:metadata-1-0/upnp/\">\n<item id=\"0\" parentID=\"-1\" restricted=\"1\">\n<dc:title>",
    );
    push_or(&mut out, &metadata.title, "Unknown Title");
    push_text(&mut out, "</dc:title>\n<dc:creator>");
    match &metadata.creator {
        Some(c) => push_text(&mut out, c.as_str()),
        None => push_or(&mut out, &metadata.artist, "Unknown Artist"),
    }
    push_text(&mut out, "</dc:creator>\n<upnp:artist>");
    push_or(&mut out, &metadata.artist, "Unknown Artist");
    push_text(&mut out, "</upnp:artist>\n<upnp:album>");
    push_or(&mut out, &metadata.album, "Unknown Album");
    push_text(&mut out, "</upnp:album>\n");
    match &metadata.album_art_uri {
        Some(a) => {
            push_text(&mut out, "<upnp:albumArtURI>");
            push_text(&mut out, a.as_str());
            push_text(&mut out, "</upnp:albumArtURI>");
        },
        None => {},
    }
    push_text(&mut out, "\n<res protocolInfo=\"");
    push_text(&mut out, protocol_info);
    push_text(&mut out, "\">");
    push_text(&mut out, uri);
    push_text(&mut out, "</res>\n</item>\n</DIDL-Lite>");
    assert(out@ =~= spec_didl_lite_metadata(*metadata, uri@, protocol_info@));
    string_from_chars(out.as_slice())
}

/// The position reported by a renderer, completed from the current item of
/// its queue: the item's URI replaces the reported one, and its metadata,
/// when it has some, replaces the reported DIDL-Lite (the queue keeps the
/// duration it learned, which the device may report shorter).
pub fn position_with_queue_item(info: PlaybackPositionInfo, current: Option<&PlaybackItem>) -> (r: PlaybackPositionInfo)
    ensures
        r.track == info.track,
        r.rel_time == info.rel_time,
        r.abs_time == info.abs_time,
        r.track_duration == info.track_duration,
        match current {
            None => r.track_uri == info.track_uri && r.track_metadata == info.track_metadata,
            Some(item) => {
                &&& r.track_uri matches Some(u) && u@ == item.uri@
                &&& match item.metadata {
                    Some(m) => r.track_metadata matches Some(d) && d@ == spec_didl_lite_metadata(
                        m,
                        item.uri@,
                        item.protocol_info@,
                    ),
                    None => r.track_metadata == info.track_metadata,
                }
            },
        },
{
    let mut info = info;
    match current {
        None => {},
        Some(item) => {
            match &item.metadata {
                Some(m) => {
                    info.track_metadata = Some(
                        build_didl_lite_metadata(m, item.uri.as_str(), item.protocol_info.as_str()),
                    );
                },
                None => {},
            }
            info.track_uri = Some(item.uri.clone());
        },
    }
    info
}

/// Puts the items in a random order, with `rand`'s `SliceRandom::shuffle`
/// on the thread-local generator (`thread_rng`). The order rests on chance;
/// what holds of every outcome is that the same items come back.
#[verifier::external_body]
fn shuffle_items(items: Vec<PlaybackItem>) -> (r: Vec<PlaybackItem>)
    ensures
        r@.to_multiset() == items@.to_multiset(),
{
    let mut items = items;
    items.shuffle(&mut rand::thread_rng());
    items
}

/// The queue holds the items of `before` in some order, the first one
/// current.
pub open spec fn shuffled_from<Q: QueueBackend>(q: Q, before: Seq<PlaybackItem>) -> bool {
    &&& exists|s: Seq<PlaybackItem>| #[trigger] s.to_multiset() == before.to_multiset() && erase_ids(q.queue_items()) == erase_ids(s)
    &&& q.queue_index() == Some(0usize)
}

/// Shuffles a renderer's queue: detaches it from its playlist, stops
/// playback with `stop` (whatever it answers), puts the same items back in
/// a random order with the first one current, and plays that one with
/// `play` (see [`play_from_index`]). An empty queue is refused.
pub fn shuffle_queue<
    Q: QueueBackend,
    S: Fn() -> Result<(), ControlPointError>,
    Det: Fn(&str) -> bool,
    P: Fn(&PlaybackItem) -> Result<(), ControlPointError>,
>(
    queue: &mut Q,
    binding: &mut Option<PlaylistBinding>,
    stop: &S,
    continuous_stream: &mut bool,
    detect: &Det,
    play: &P,
) -> (r: Result<(), ControlPointError>)
    requires
        stop.requires(()),
        forall|u: &str| #[trigger] detect.requires((u,)),
        forall|it: &PlaybackItem| #[trigger] play.requires((it,)),
    ensures
        *final(binding) is None,
        final(queue).reliable() == old(queue).reliable(),
        r is Ok || (old(queue).reliable() && old(queue).queue_items().len() > 0) ==> {
            &&& shuffled_from(*final(queue), old(queue).queue_items())
            &&& exists|item: PlaybackItem|
                erase_id(item) == erase_id(final(queue).queue_items()[0]) && stream_flag(
                    *detect,
                    item,
                    *final(continuous_stream),
                ) && #[trigger] played(*play, item, r)
        },
        old(queue).reliable() && old(queue).queue_items().len() == 0 ==> queue_error(
            r,
            "Cannot shuffle an empty queue"@,
        ),
{
    clear_playlist_binding(binding);
    let _ = stop();
    let snapshot = match queue.queue_snapshot() {
        Ok(s) => s,
        Err(e) => {
            return Err(e);
        },
    };
    if snapshot.items.len() == 0 {
        return Err(ControlPointError::QueueError(msg("Cannot shuffle an empty queue")));
    }
    let ghost before = snapshot.items@;
    let shuffled = shuffle_items(snapshot.items);
    let ghost after = shuffled@;
    proof {
        vstd::seq_lib::to_multiset_len(before);
        vstd::seq_lib::to_multiset_len(after);
        assert(after.len() == before.len());
    }
    match queue.replace_queue(shuffled, Some(0)) {
        Ok(()) => {},
        Err(e) => {
            return Err(e);
        },
    }
    let ghost mid = queue.queue_items();
    assert(mid.len() == after.len()) by {
        assert(erase_ids(mid).len() == erase_ids(after).len());
    }
    let r = play_from_index(queue, 0, continuous_stream, detect, play);
    proof {
        if r is Ok || queue.reliable() {
            assert(after.to_multiset() == before.to_multiset());
            assert(erase_ids(queue.queue_items()) == erase_ids(after));
        }
    }
    r
}

} // verus!
