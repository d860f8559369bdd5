//! The canonical queue item and queue snapshot.
use crate::model::{DeviceId, TrackMetadata};
use crate::text::{push_chars, str_chars, string_from_chars};
use vstd::prelude::*;

verus! {

/// A track in a renderer queue, with the MediaServer identity it comes from.
#[derive(Debug)]
pub struct PlaybackItem {
    /// Identifier of the MediaServer that owns the content.
    pub media_server_id: DeviceId,
    /// Id of the item in the queue backend (its position for a local queue).
    pub backend_id: usize,
    /// DIDL-Lite `id` of the item in the ContentDirectory.
    pub didl_id: String,
    /// Resource URI used for playback.
    pub uri: String,
    /// UPnP protocolInfo of the resource.
    pub protocol_info: String,
    /// Rich metadata of the track.
    pub metadata: Option<TrackMetadata>,
}

impl Clone for PlaybackItem {
    fn clone(&self) -> (r: Self)
        ensures
            r == *self,
    {
        PlaybackItem {
            media_server_id: self.media_server_id.clone(),
            backend_id: self.backend_id,
            didl_id: self.didl_id.clone(),
            uri: self.uri.clone(),
            protocol_info: self.protocol_info.clone(),
            metadata: self.metadata.clone(),
        }
    }
}

/// `<server id>::<didl id>`.
pub open spec fn spec_unique_id(item: PlaybackItem) -> Seq<char> {
    item.media_server_id.0@ + seq![':', ':'] + item.didl_id@
}

impl PlaybackItem {
    /// Backend-agnostic logical identifier: the MediaServer id and the DIDL
    /// id joined by `::`.
    pub fn unique_id(&self) -> (r: String)
        ensures
            r@ == spec_unique_id(*self),
    {
        let mut out = str_chars(self.media_server_id.0.as_str());
        out.push(':');
        out.push(':');
        let d = str_chars(self.didl_id.as_str());
        push_chars(&mut out, d.as_slice());
        assert(out@ =~= spec_unique_id(*self));
        string_from_chars(out.as_slice())
    }
}

/// Logical snapshot of a renderer queue.
#[derive(Debug)]
pub struct QueueSnapshot {
    /// Items in play order.
    pub items: Vec<PlaybackItem>,
    /// Index of the current item, if any.
    pub current_index: Option<usize>,
    /// Playlist the queue is bound to, if any.
    pub playlist_id: Option<String>,
}

impl QueueSnapshot {
    /// Number of items.
    pub fn len(&self) -> (r: usize)
        ensures
            r == self.items@.len(),
    {
        self.items.len()
    }

    /// Whether the snapshot holds no item.
    pub fn is_empty(&self) -> (r: bool)
        ensures
            r == (self.items@.len() == 0),
    {
        self.items.len() == 0
    }
}

/// Clones a list of items.
pub fn clone_items(items: &[PlaybackItem]) -> (r: Vec<PlaybackItem>)
    ensures
        r@ == items@,
{
    let mut out: Vec<PlaybackItem> = Vec::new();
    let mut i: usize = 0;
    while i < items.len()
        invariant
            i <= items@.len(),
            out@ == items@.subrange(0, i as int),
        decreases items@.len() - i,
    {
        out.push(items[i].clone());
        i = i + 1;
        assert(out@ =~= items@.subrange(0, i as int));
    }
    assert(out@ =~= items@);
    out
}

} // verus!
