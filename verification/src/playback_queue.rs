//! The simple playback queue: items with a cursor, and the DIDL-Lite
//! description of an item for `SetAVTransportURI`.
use crate::didl::{element, opt_element, or_default, push_element, push_opt_element, push_text};
use crate::queue::backend::{spec_upcoming, spec_upcoming_len};
use crate::xml::{attr_escape, push_attr_escaped, push_escaped, xml_escape};
use crate::text::{seq_contains, str_to_string};
use vstd::prelude::*;

verus! {

/// Identifier of a MediaServer.
#[derive(Debug)]
pub struct ServerId(pub String);

impl Clone for ServerId {
    fn clone(&self) -> (r: Self)
        ensures
            r == *self,
    {
        ServerId(self.0.clone())
    }
}

/// A track to play, with what is known of it.
#[derive(Debug)]
pub struct PlaybackItem {
    pub uri: String,
    pub title: Option<String>,
    pub server_id: Option<ServerId>,
    pub object_id: Option<String>,
    pub artist: Option<String>,
    pub album: Option<String>,
    pub genre: Option<String>,
    pub album_art_uri: Option<String>,
    pub date: Option<String>,
    pub track_number: Option<String>,
    pub creator: Option<String>,
    pub protocol_info: Option<String>,
}

impl Clone for PlaybackItem {
    fn clone(&self) -> (r: Self)
        ensures
            r == *self,
    {
        PlaybackItem {
            uri: self.uri.clone(),
            title: self.title.clone(),
            server_id: self.server_id.clone(),
            object_id: self.object_id.clone(),
            artist: self.artist.clone(),
            album: self.album.clone(),
            genre: self.genre.clone(),
            album_art_uri: self.album_art_uri.clone(),
            date: self.date.clone(),
            track_number: self.track_number.clone(),
            creator: self.creator.clone(),
            protocol_info: self.protocol_info.clone(),
        }
    }
}

/// Opening of a DIDL-Lite document.
pub open spec fn didl_open() -> Seq<char> {
    "<DIDL-Lite xmlns=\"urn:schemas-upnp-org:metadata-1-0/DIDL-Lite/\" xmlns:dc=\"http://purl.org/dc/elements/1.1/\" xmlns:upnp=\"urn:schemas-upnp-org:metadata-1-0/upnp/\">"@
}

/// The artist as `upnp:artist` and as `dc:creator`.
pub open spec fn artist_elements(artist: Option<String>) -> Seq<char> {
    match artist {
        Some(a) => element("<upnp:artist>"@, a@, "</upnp:artist>"@) + element("<dc:creator>"@, a@, "</dc:creator>"@),
        None => Seq::empty(),
    }
}

/// The DIDL-Lite description of an item.
pub open spec fn spec_didl(item: PlaybackItem) -> Seq<char> {
    didl_open() + "<item id=\""@ + xml_escape(or_default(item.object_id, "0"@))
        + "\" parentID=\"-1\" restricted=\"1\">"@ + element("<dc:title>"@, or_default(item.title, "Unknown"@), "</dc:title>"@)
        + artist_elements(item.artist) + opt_element("<upnp:album>"@, item.album, "</upnp:album>"@)
        + opt_element("<upnp:genre>"@, item.genre, "</upnp:genre>"@)
        + opt_element("<upnp:albumArtURI>"@, item.album_art_uri, "</upnp:albumArtURI>"@)
        + opt_element("<dc:date>"@, item.date, "</dc:date>"@)
        + opt_element("<upnp:originalTrackNumber>"@, item.track_number, "</upnp:originalTrackNumber>"@)
        + "<res protocolInfo=\""@ + attr_escape(or_default(item.protocol_info, "http-get:*:audio/*:*"@)) + "\">"@
        + xml_escape(item.uri@) + "</res>"@
        + "<upnp:class>object.item.audioItem.musicTrack</upnp:class></item></DIDL-Lite>"@
}

impl PlaybackItem {
    /// An item with only a URI.
    pub fn new(uri: &str) -> (r: Self)
        ensures
            r.uri@ == uri@,
            r.title is None && r.server_id is None && r.object_id is None && r.artist is None,
            r.album is None && r.genre is None && r.album_art_uri is None && r.date is None,
            r.track_number is None && r.creator is None && r.protocol_info is None,
    {
        PlaybackItem {
            uri: str_to_string(uri),
            title: None,
            server_id: None,
            object_id: None,
            artist: None,
            album: None,
            genre: None,
            album_art_uri: None,
            date: None,
            track_number: None,
            creator: None,
            protocol_info: None,
        }
    }

    /// The DIDL-Lite description of the item for `SetAVTransportURI`: its id
    /// (`0` when unknown), title (`Unknown` when unknown), the known tags, and
    /// a resource with its protocolInfo (a generic audio one when unknown).
    pub fn to_didl_metadata(&self) -> (r: String)
        ensures
            r@ == spec_didl(*self),
    {
        let mut out: Vec<char> = Vec::new();
        push_text(&mut out, "<DIDL-Lite xmlns=\"urn:schemas-upnp-org:metadata-1-0/DIDL-Lite/\" xmlns:dc=\"http://purl.org/dc/elements/1.1/\" xmlns:upnp=\"urn:schemas-upnp-org:metadata-1-0/upnp/\">");
        push_text(&mut out, "<item id=\"");
        match &self.object_id {
            Some(id) => push_escaped(&mut out, id.as_str()),
            None => push_escaped(&mut out, "0"),
        }
        push_text(&mut out, "\" parentID=\"-1\" restricted=\"1\">");
        match &self.title {
            Some(t) => push_element(&mut out, "<dc:title>", t.as_str(), "</dc:title>"),
            None => push_element(&mut out, "<dc:title>", "Unknown", "</dc:title>"),
        }
        match &self.artist {
            Some(a) => {
                push_element(&mut out, "<upnp:artist>", a.as_str(), "</upnp:artist>");
                push_element(&mut out, "<dc:creator>", a.as_str(), "</dc:creator>");
            },
            None => {},
        }
        push_opt_element(&mut out, "<upnp:album>", &self.album, "</upnp:album>");
        push_opt_element(&mut out, "<upnp:genre>", &self.genre, "</upnp:genre>");
        push_opt_element(&mut out, "<upnp:albumArtURI>", &self.album_art_uri, "</upnp:albumArtURI>");
        push_opt_element(&mut out, "<dc:date>", &self.date, "</dc:date>");
        push_opt_element(&mut out, "<upnp:originalTrackNumber>", &self.track_number, "</upnp:originalTrackNumber>");
        push_text(&mut out, "<res protocolInfo=\"");
        match &self.protocol_info {
            Some(p) => push_attr_escaped(&mut out, p.as_str()),
            None => push_attr_escaped(&mut out, "http-get:*:audio/*:*"),
        }
        push_text(&mut out, "\">");
        push_escaped(&mut out, self.uri.as_str());
        push_text(&mut out, "</res>");
        push_text(&mut out, "<upnp:class>object.item.audioItem.musicTrack</upnp:class></item></DIDL-Lite>");
        assert(out@ =~= spec_didl(*self));
        crate::text::string_from_chars(out.as_slice())
    }
}

/// Items with a cursor on the current one.
#[derive(Debug, Default)]
pub struct PlaybackQueue {
    items: Vec<PlaybackItem>,
    current_index: Option<usize>,
}

/// Where `enqueue_front` inserts: right after the cursor, or first.
pub open spec fn front_position(len: nat, idx: Option<usize>) -> nat {
    match idx {
        Some(i) => if i + 1 <= len {
            (i + 1) as nat
        } else {
            len
        },
        None => 0,
    }
}

impl PlaybackQueue {
    /// The items.
    pub closed spec fn items_view(&self) -> Seq<PlaybackItem> {
        self.items@
    }

    /// The cursor.
    pub closed spec fn index_view(&self) -> Option<usize> {
        self.current_index
    }

    /// An empty queue.
    pub fn new() -> (r: Self)
        ensures
            r.items_view() == Seq::<PlaybackItem>::empty(),
            r.index_view() is None,
    {
        PlaybackQueue { items: Vec::new(), current_index: None }
    }

    /// Number of items.
    pub fn len(&self) -> (r: usize)
        ensures
            r == self.items_view().len(),
    {
        self.items.len()
    }

    /// Whether the queue holds no item.
    pub fn is_empty(&self) -> (r: bool)
        ensures
            r == (self.items_view().len() == 0),
    {
        self.items.len() == 0
    }

    /// Removes every item and the cursor.
    pub fn clear(&mut self)
        ensures
            final(self).items_view() == Seq::<PlaybackItem>::empty(),
            final(self).index_view() is None,
    {
        self.items.clear();
        self.current_index = None;
    }

    /// Appends an item.
    pub fn enqueue(&mut self, item: PlaybackItem)
        ensures
            final(self).items_view() == old(self).items_view().push(item),
            final(self).index_view() == old(self).index_view(),
    {
        self.items.push(item);
    }

    /// Appends items in order.
    pub fn enqueue_many(&mut self, items: Vec<PlaybackItem>)
        ensures
            final(self).items_view() == old(self).items_view() + items@,
            final(self).index_view() == old(self).index_view(),
    {
        let mut more = items;
        self.items.append(&mut more);
    }

    /// Inserts an item right after the cursor (first when there is none);
    /// the cursor stays where it is.
    pub fn enqueue_front(&mut self, item: PlaybackItem)
        ensures
            final(self).items_view() == old(self).items_view().insert(
                front_position(old(self).items_view().len(), old(self).index_view()) as int,
                item,
            ),
            final(self).index_view() == old(self).index_view(),
    {
        let insert_at = match self.current_index {
            Some(idx) => {
                if idx < self.items.len() {
                    idx + 1
                } else {
                    self.items.len()
                }
            },
            None => 0,
        };
        self.items.insert(insert_at, item);
    }

    /// Moves the cursor to the next item and gives it: the first item when
    /// there is no cursor, nothing at the end of the queue.
    pub fn dequeue(&mut self) -> (r: Option<PlaybackItem>)
        ensures
            final(self).items_view() == old(self).items_view(),
            match crate::queue::backend::spec_dequeue_position(old(self).items_view().len(), old(self).index_view()) {
                Some(p) => r == Some(old(self).items_view()[p as int]) && final(self).index_view() == Some(p),
                None => r is None && final(self).index_view() == old(self).index_view(),
            },
    {
        if self.items.len() == 0 {
            return None;
        }
        match self.current_index {
            None => {
                self.current_index = Some(0);
                Some(self.items[0].clone())
            },
            Some(idx) => {
                if idx >= self.items.len() - 1 {
                    None
                } else {
                    let next_idx = idx + 1;
                    self.current_index = Some(next_idx);
                    Some(self.items[next_idx].clone())
                }
            },
        }
    }

    /// The item under the cursor (the first one without a cursor).
    pub fn peek(&self) -> (r: Option<&PlaybackItem>)
        ensures
            match self.index_view() {
                Some(i) => if i < self.items_view().len() {
                    r == Some(&self.items_view()[i as int])
                } else {
                    r is None
                },
                None => if self.items_view().len() > 0 {
                    r == Some(&self.items_view()[0])
                } else {
                    r is None
                },
            },
    {
        match self.current_index {
            Some(idx) => {
                if idx < self.items.len() {
                    Some(&self.items[idx])
                } else {
                    None
                }
            },
            None => {
                if self.items.len() > 0 {
                    Some(&self.items[0])
                } else {
                    None
                }
            },
        }
    }

    /// The items after the cursor (all of them without one).
    pub fn snapshot(&self) -> (r: Vec<PlaybackItem>)
        ensures
            r@ == spec_upcoming(self.items_view(), self.index_view()),
    {
        let mut out: Vec<PlaybackItem> = Vec::new();
        let start: usize = match self.current_index {
            None => 0,
            Some(idx) => {
                if idx < self.items.len() {
                    idx + 1
                } else {
                    self.items.len()
                }
            },
        };
        let mut i: usize = start;
        while i < self.items.len()
            invariant
                start <= i <= self.items@.len(),
                out@ == self.items@.subrange(start as int, i as int),
            decreases self.items@.len() - i,
        {
            out.push(self.items[i].clone());
            i = i + 1;
            assert(out@ =~= self.items@.subrange(start as int, i as int));
        }
        assert(out@ =~= spec_upcoming(self.items@, self.current_index));
        out
    }

    /// Number of items after the cursor (all of them without one).
    pub fn upcoming_len(&self) -> (r: usize)
        ensures
            r == spec_upcoming_len(self.items_view().len(), self.index_view()),
    {
        match self.current_index {
            None => self.items.len(),
            Some(idx) => {
                if idx < self.items.len() {
                    self.items.len() - idx - 1
                } else {
                    0
                }
            },
        }
    }

    /// All items and the cursor.
    pub fn full_snapshot(&self) -> (r: (Vec<PlaybackItem>, Option<usize>))
        ensures
            r.0@ == self.items_view(),
            r.1 == self.index_view(),
    {
        let mut out: Vec<PlaybackItem> = Vec::new();
        let mut i: usize = 0;
        while i < self.items.len()
            invariant
                i <= self.items@.len(),
                out@ == self.items@.subrange(0, i as int),
            decreases self.items@.len() - i,
        {
            out.push(self.items[i].clone());
            i = i + 1;
            assert(out@ =~= self.items@.subrange(0, i as int));
        }
        assert(out@ =~= self.items@);
        (out, self.current_index)
    }

    /// Moves the cursor; an index beyond the items removes it.
    pub fn set_current_index(&mut self, index: Option<usize>)
        ensures
            final(self).items_view() == old(self).items_view(),
            final(self).index_view() == match index {
                Some(i) => if i < old(self).items_view().len() {
                    Some(i)
                } else {
                    None
                },
                None => None,
            },
    {
        match index {
            Some(idx) => {
                if idx < self.items.len() {
                    self.current_index = Some(idx);
                } else {
                    self.current_index = None;
                }
            },
            None => {
                self.current_index = None;
            },
        }
    }
}

/// The DIDL-Lite of an item carries every tag it knows, each in its element
/// with the value escaped: the title, the artist (as `upnp:artist` and
/// `dc:creator`), the album, genre, album art URI, date and track number,
/// and the URI in its resource.
pub proof fn law_didl_carries_known_tags(item: PlaybackItem)
    ensures
        item.title matches Some(v) ==> seq_contains(spec_didl(item), "<dc:title>"@ + xml_escape(v@) + "</dc:title>"@),
        item.artist matches Some(v) ==> seq_contains(spec_didl(item), "<upnp:artist>"@ + xml_escape(v@) + "</upnp:artist>"@),
        item.artist matches Some(v) ==> seq_contains(spec_didl(item), "<dc:creator>"@ + xml_escape(v@) + "</dc:creator>"@),
        item.album matches Some(v) ==> seq_contains(spec_didl(item), "<upnp:album>"@ + xml_escape(v@) + "</upnp:album>"@),
        item.genre matches Some(v) ==> seq_contains(spec_didl(item), "<upnp:genre>"@ + xml_escape(v@) + "</upnp:genre>"@),
        item.album_art_uri matches Some(v) ==> seq_contains(
            spec_didl(item),
            "<upnp:albumArtURI>"@ + xml_escape(v@) + "</upnp:albumArtURI>"@,
        ),
        item.date matches Some(v) ==> seq_contains(spec_didl(item), "<dc:date>"@ + xml_escape(v@) + "</dc:date>"@),
        item.track_number matches Some(v) ==> seq_contains(
            spec_didl(item),
            "<upnp:originalTrackNumber>"@ + xml_escape(v@) + "</upnp:originalTrackNumber>"@,
        ),
        seq_contains(spec_didl(item), "\">"@ + xml_escape(item.uri@) + "</res>"@),
{
    let x0 = didl_open();
    let x1 = "<item id=\""@;
    let x2 = xml_escape(or_default(item.object_id, "0"@));
    let x3 = "\" parentID=\"-1\" restricted=\"1\">"@;
    let x4 = element("<dc:title>"@, or_default(item.title, "Unknown"@), "</dc:title>"@);
    let x5 = artist_elements(item.artist);
    let x6 = opt_element("<upnp:album>"@, item.album, "</upnp:album>"@);
    let x7 = opt_element("<upnp:genre>"@, item.genre, "</upnp:genre>"@);
    let x8 = opt_element("<upnp:albumArtURI>"@, item.album_art_uri, "</upnp:albumArtURI>"@);
    let x9 = opt_element("<dc:date>"@, item.date, "</dc:date>"@);
    let x10 = opt_element("<upnp:originalTrackNumber>"@, item.track_number, "</upnp:originalTrackNumber>"@);
    let x11 = "<res protocolInfo=\""@;
    let x12 = attr_escape(or_default(item.protocol_info, "http-get:*:audio/*:*"@));
    let x13 = "\">"@;
    let x14 = xml_escape(item.uri@);
    let x15 = "</res>"@;
    let x16 = "<upnp:class>object.item.audioItem.musicTrack</upnp:class></item></DIDL-Lite>"@;
    let p3 = x0 + x1 + x2 + x3;
    let p4 = p3 + x4;
    let p5 = p4 + x5;
    let p6 = p5 + x6;
    let p7 = p6 + x7;
    let p8 = p7 + x8;
    let p9 = p8 + x9;
    let p10 = p9 + x10;
    let p12 = p10 + x11 + x12;
    let p15 = p12 + x13 + x14 + x15;
    let d = p15 + x16;
    assert(spec_didl(item) == d);
    // each part sits in the document
    lemma_part_in(p3, x4, x5, x6, x7, x8, x9, x10, x11, x12, x13, x14, x15, x16, 4);
    lemma_part_in(p3, x4, x5, x6, x7, x8, x9, x10, x11, x12, x13, x14, x15, x16, 5);
    lemma_part_in(p3, x4, x5, x6, x7, x8, x9, x10, x11, x12, x13, x14, x15, x16, 6);
    lemma_part_in(p3, x4, x5, x6, x7, x8, x9, x10, x11, x12, x13, x14, x15, x16, 7);
    lemma_part_in(p3, x4, x5, x6, x7, x8, x9, x10, x11, x12, x13, x14, x15, x16, 8);
    lemma_part_in(p3, x4, x5, x6, x7, x8, x9, x10, x11, x12, x13, x14, x15, x16, 9);
    lemma_part_in(p3, x4, x5, x6, x7, x8, x9, x10, x11, x12, x13, x14, x15, x16, 10);
    lemma_part_in(p3, x4, x5, x6, x7, x8, x9, x10, x11, x12, x13, x14, x15, x16, 13);
    match item.artist {
        Some(a) => {
            let up = "<upnp:artist>"@ + xml_escape(a@) + "</upnp:artist>"@;
            let dc = "<dc:creator>"@ + xml_escape(a@) + "</dc:creator>"@;
            assert(x5 == up + dc);
            lemma_holds_in(x5, Seq::empty(), up, dc);
            lemma_holds_in(x5, up, dc, Seq::empty());
            lemma_contains_within(d, x5, up);
            lemma_contains_within(d, x5, dc);
        },
        None => {},
    }
}

/// Part `k` of a document laid out in parts (4 to 10, and the resource as
/// parts 13 to 15) sits in the document.
proof fn lemma_part_in(
    p3: Seq<char>,
    x4: Seq<char>,
    x5: Seq<char>,
    x6: Seq<char>,
    x7: Seq<char>,
    x8: Seq<char>,
    x9: Seq<char>,
    x10: Seq<char>,
    x11: Seq<char>,
    x12: Seq<char>,
    x13: Seq<char>,
    x14: Seq<char>,
    x15: Seq<char>,
    x16: Seq<char>,
    k: int,
)
    ensures
        ({
            let d = p3 + x4 + x5 + x6 + x7 + x8 + x9 + x10 + x11 + x12 + x13 + x14 + x15 + x16;
            &&& k == 4 ==> seq_contains(d, x4)
            &&& k == 5 ==> seq_contains(d, x5)
            &&& k == 6 ==> seq_contains(d, x6)
            &&& k == 7 ==> seq_contains(d, x7)
            &&& k == 8 ==> seq_contains(d, x8)
            &&& k == 9 ==> seq_contains(d, x9)
            &&& k == 10 ==> seq_contains(d, x10)
            &&& k == 13 ==> seq_contains(d, x13 + x14 + x15)
        }),
{
    let d = p3 + x4 + x5 + x6 + x7 + x8 + x9 + x10 + x11 + x12 + x13 + x14 + x15 + x16;
    if k == 4 {
        lemma_holds_in(d, p3, x4, x5 + x6 + x7 + x8 + x9 + x10 + x11 + x12 + x13 + x14 + x15 + x16);
    } else if k == 5 {
        lemma_holds_in(d, p3 + x4, x5, x6 + x7 + x8 + x9 + x10 + x11 + x12 + x13 + x14 + x15 + x16);
    } else if k == 6 {
        lemma_holds_in(d, p3 + x4 + x5, x6, x7 + x8 + x9 + x10 + x11 + x12 + x13 + x14 + x15 + x16);
    } else if k == 7 {
        lemma_holds_in(d, p3 + x4 + x5 + x6, x7, x8 + x9 + x10 + x11 + x12 + x13 + x14 + x15 + x16);
    } else if k == 8 {
        lemma_holds_in(d, p3 + x4 + x5 + x6 + x7, x8, x9 + x10 + x11 + x12 + x13 + x14 + x15 + x16);
    } else if k == 9 {
        lemma_holds_in(d, p3 + x4 + x5 + x6 + x7 + x8, x9, x10 + x11 + x12 + x13 + x14 + x15 + x16);
    } else if k == 10 {
        lemma_holds_in(d, p3 + x4 + x5 + x6 + x7 + x8 + x9, x10, x11 + x12 + x13 + x14 + x15 + x16);
    } else if k == 13 {
        lemma_holds_in(d, p3 + x4 + x5 + x6 + x7 + x8 + x9 + x10 + x11 + x12, x13 + x14 + x15, x16);
    }
}

/// What a part holds, the whole holds.
proof fn lemma_contains_within(d: Seq<char>, part: Seq<char>, s: Seq<char>)
    requires
        seq_contains(d, part),
        seq_contains(part, s),
    ensures
        seq_contains(d, s),
{
    let i = choose|i: int| crate::text::occurs_at(d, part, i);
    let j = choose|j: int| crate::text::occurs_at(part, s, j);
    assert(d.subrange(i + j, i + j + s.len()) =~= part.subrange(j, j + s.len()));
    assert(crate::text::occurs_at(d, s, i + j));
}

/// `d`, laid out as `p + s + q`, holds `s`.
proof fn lemma_holds_in(d: Seq<char>, p: Seq<char>, s: Seq<char>, q: Seq<char>)
    requires
        d =~= p + s + q,
    ensures
        seq_contains(d, s),
{
    assert(d.subrange(p.len() as int, (p.len() + s.len()) as int) =~= s);
    assert(crate::text::occurs_at(d, s, p.len() as int));
}

} // verus!
