//! Reading the tracks of an OpenHome playlist: the `TrackList` document
//! that `ReadList` returns (plain or base64-encoded XML), and the `Read`,
//! `ReadList` and whole-playlist reads built on it.
use crate::codec::{decode_base64, spec_decode_base64};
use crate::error::{error_text, msg, msg_num, ControlPointError};
use crate::soap::{
    answered, call_text, invoke, num_arg, one_arg, pairs_view, request_view, response_element, spec_response,
    spec_text_field, text_arg, transport_total, SoapCallResult, SoapRequest, SoapRequestView,
};
use crate::text::{dec, seq_contains, spec_parse_uint, str_chars, contains_chars, parse_uint, trim_chars, trim_seq, string_from_chars};
use crate::upnp_clients::openhome_client::{spec_id_array, OhPlaylistClient, OhTrackEntry};
use crate::xml::{
    extract_child_text, extract_child_text_optional, parse_xml_document, spec_child_text, spec_child_text_optional,
    strs_view, xml_document, XmlElement,
};
use crate::text::seq_ends_with;
use vstd::prelude::*;

verus! {

/// Name for the text that `String::from_utf8` decodes from bytes, `None`
/// when they are not UTF-8.
pub uninterp spec fn utf8_text(bytes: Seq<u8>) -> Option<Seq<char>>;

/// Decodes UTF-8 bytes (`String::from_utf8`); the error is the decoder's
/// message.
#[verifier::external_body]
fn utf8_decode(bytes: Vec<u8>) -> (r: Result<String, String>)
    ensures
        match r {
            Ok(s) => utf8_text(bytes@) == Some(s@),
            Err(_) => utf8_text(bytes@) is None,
        },
{
    String::from_utf8(bytes).map_err(|e| e.to_string())
}

/// An entry of a `TrackList`: id, URI and metadata text.
pub open spec fn spec_entry(e: XmlElement) -> Option<(u32, Seq<char>, Seq<char>)> {
    match spec_child_text(e, "Id"@) {
        None => None,
        Some(id_text) => if seq_contains(id_text, ","@) {
            None
        } else {
            match spec_parse_uint(id_text, u32::MAX as nat) {
                None => None,
                Some(id) => match spec_child_text(e, "Uri"@) {
                    None => None,
                    Some(uri) => Some(
                        (
                            id as u32,
                            uri,
                            match spec_child_text_optional(e, "Metadata"@) {
                                Some(m) => m,
                                None => Seq::empty(),
                            },
                        ),
                    ),
                },
            }
        },
    }
}

/// The entries among the first `n` children (those whose name ends with
/// `Entry`), `None` as soon as one cannot be read.
pub open spec fn spec_entries(ch: Seq<XmlElement>, n: nat) -> Option<Seq<(u32, Seq<char>, Seq<char>)>>
    decreases n,
{
    if n == 0 {
        Some(Seq::empty())
    } else {
        match spec_entries(ch, (n - 1) as nat) {
            None => None,
            Some(prev) => if seq_ends_with(ch[n - 1].name@, "Entry"@) {
                match spec_entry(ch[n - 1]) {
                    Some(t) => Some(prev.push(t)),
                    None => None,
                }
            } else {
                Some(prev)
            },
        }
    }
}

/// Once an entry cannot be read, the whole list cannot.
proof fn lemma_entries_fail(ch: Seq<XmlElement>, k: nat, n: nat)
    requires
        k <= n,
        spec_entries(ch, k) is None,
    ensures
        spec_entries(ch, n) is None,
    decreases n - k,
{
    if k < n {
        lemma_entries_fail(ch, k, (n - 1) as nat);
    }
}

/// The XML text of a `TrackList` payload: as is when it starts with `<`,
/// base64-decoded UTF-8 otherwise.
pub open spec fn track_list_xml(t: Seq<char>) -> Option<Seq<char>> {
    if t.len() > 0 && t[0] == '<' {
        Some(t)
    } else {
        match spec_decode_base64(t) {
            Some(b) => utf8_text(b),
            None => None,
        }
    }
}

/// The entries of a `TrackList` payload (none for an empty payload).
pub open spec fn spec_track_list(payload: Seq<char>) -> Option<Seq<(u32, Seq<char>, Seq<char>)>> {
    let t = trim_seq(payload);
    if t.len() == 0 {
        Some(Seq::empty())
    } else {
        match track_list_xml(t) {
            None => None,
            Some(x) => match xml_document(x) {
                None => None,
                Some(root) => spec_entries(root.children@, root.children@.len()),
            },
        }
    }
}

/// Views of entries.
pub open spec fn entries_view(es: Seq<OhTrackEntry>) -> Seq<(u32, Seq<char>, Seq<char>)> {
    Seq::new(es.len(), |i: int| (es[i].id, es[i].uri@, es[i].metadata_xml@))
}

/// Reads one `Entry` element of a `TrackList`. An `Id` holding several
/// comma-separated ids, or no number, is refused: the entries must then be
/// read one by one.
pub fn parse_track_entry(elem: &XmlElement) -> (r: Result<OhTrackEntry, ControlPointError>)
    ensures
        match spec_entry(*elem) {
            Some(t) => r matches Ok(x) && (x.id, x.uri@, x.metadata_xml@) == t,
            None => r is Err,
        },
        spec_child_text(*elem, "Id"@) matches Some(t) && seq_contains(t, ","@) ==> (r matches Err(
            ControlPointError::OpenHomeError(m),
        ) && m@ == "Renderer returned comma-separated IDs in single Entry - need individual reads"@),
{
    let id_text = extract_child_text(elem, "Id")?;
    let cs = str_chars(id_text.as_str());
    let comma = str_chars(",");
    if contains_chars(cs.as_slice(), comma.as_slice()) {
        return Err(ControlPointError::OpenHomeError(msg("Renderer returned comma-separated IDs in single Entry - need individual reads")));
    }
    let id = match parse_uint(cs.as_slice(), u32::MAX as u64) {
        Some(v) => v as u32,
        None => {
            return Err(ControlPointError::OpenHomeError(crate::error::msg2("Invalid OpenHome Entry Id: ", id_text.as_str())));
        },
    };
    let uri = extract_child_text(elem, "Uri")?;
    let metadata_xml = match extract_child_text_optional(elem, "Metadata") {
        Ok(Some(m)) => m,
        _ => String::new(),
    };
    Ok(OhTrackEntry { id, uri, metadata_xml })
}

/// Reads the entries of a `TrackList` payload (plain or base64-encoded
/// XML); an empty payload has none.
pub fn parse_track_list(payload: &str) -> (r: Result<Vec<OhTrackEntry>, ControlPointError>)
    ensures
        match spec_track_list(payload@) {
            Some(v) => r matches Ok(es) && entries_view(es@) == v,
            None => r is Err,
        },
{
    let cs = str_chars(payload);
    let t = trim_chars(cs.as_slice());
    if t.len() == 0 {
        proof {
            assert(entries_view(Seq::<OhTrackEntry>::empty()) =~= Seq::empty());
        }
        return Ok(Vec::new());
    }
    let trimmed = string_from_chars(t.as_slice());
    let xml: String = if t[0] == '<' {
        trimmed
    } else {
        let bytes = decode_base64(trimmed.as_str())?;
        match utf8_decode(bytes) {
            Ok(s) => s,
            Err(e) => {
                return Err(ControlPointError::OpenHomeError(crate::error::msg2("TrackList payload not valid UTF-8 after base64 decode: ", e.as_str())));
            },
        }
    };
    let root = match parse_xml_document(xml.as_str()) {
        Some(r) => r,
        None => {
            return Err(ControlPointError::OpenHomeError(msg("Failed to parse OpenHome TrackList XML")));
        },
    };
    let mut entries: Vec<OhTrackEntry> = Vec::new();
    let mut i: usize = 0;
    while i < root.children.len()
        invariant
            i <= root.children@.len(),
            spec_entries(root.children@, i as nat) == Some(entries_view(entries@)),
            spec_track_list(payload@) == spec_entries(root.children@, root.children@.len()),
        decreases root.children@.len() - i,
    {
        let child = &root.children[i];
        let ncs = str_chars(child.name.as_str());
        let suffix = str_chars("Entry");
        if crate::text::ends_with_chars(ncs.as_slice(), suffix.as_slice()) {
            let e = match parse_track_entry(child) {
                Ok(x) => x,
                Err(err) => {
                    proof {
                        assert(*child == root.children@[i as int]);
                        assert(spec_entry(root.children@[i as int]) is None);
                        assert(seq_ends_with(root.children@[i as int].name@, "Entry"@));
                        assert(spec_entries(root.children@, (i + 1) as nat) is None);
                        lemma_entries_fail(root.children@, (i + 1) as nat, root.children@.len());
                    }
                    return Err(err);
                },
            };
            entries.push(e);
            proof {
                assert(entries_view(entries@) =~= entries_view(entries@.drop_last()).push((e.id, e.uri@, e.metadata_xml@)));
            }
        }
        i = i + 1;
    }
    Ok(entries)
}

/// The ids joined by commas.
pub open spec fn id_csv(ids: Seq<u32>) -> Seq<char>
    decreases ids.len(),
{
    if ids.len() == 0 {
        Seq::empty()
    } else if ids.len() == 1 {
        dec(ids[0] as nat)
    } else {
        id_csv(ids.drop_last()) + seq![','] + dec(ids.last() as nat)
    }
}

/// The ids joined by commas.
fn join_ids(ids: &[u32]) -> (r: String)
    ensures
        r@ == id_csv(ids@),
{
    let mut out: Vec<char> = Vec::new();
    let mut i: usize = 0;
    while i < ids.len()
        invariant
            i <= ids@.len(),
            out@ == id_csv(ids@.take(i as int)),
        decreases ids@.len() - i,
    {
        proof {
            assert(ids@.take(i + 1).drop_last() =~= ids@.take(i as int));
        }
        if i > 0 {
            out.push(',');
        }
        crate::text::push_dec(&mut out, ids[i] as u64);
        i = i + 1;
        proof {
            if i == 1 {
                assert(ids@.take(0) =~= Seq::<u32>::empty());
            }
        }
    }
    assert(ids@.take(ids@.len() as int) =~= ids@);
    string_from_chars(out.as_slice())
}

impl OhPlaylistClient {
    /// `ReadList`: the entries for the given ids (none asked, none read).
    pub fn read_list<F: Fn(SoapRequest) -> SoapCallResult>(&self, transport: &F, id_list: &[u32]) -> (r: Result<Vec<OhTrackEntry>, ControlPointError>)
        requires
            transport_total(*transport),
        ensures
            id_list@.len() == 0 ==> (r matches Ok(v) && v@.len() == 0),
            id_list@.len() > 0 ==> exists|reply: SoapCallResult|
                answered(*transport, read_list_request(*self, id_list@), reply) && match r {
                    Ok(es) => listed_entries(reply) == Some(entries_view(es@)),
                    Err(_) => listed_entries(reply) is None,
                },
    {
        if id_list.len() == 0 {
            return Ok(Vec::new());
        }
        let csv = join_ids(id_list);
        let a0 = text_arg("IdList", csv.as_str());
        let args = one_arg(a0);
        let ghost av = pairs_view(args@);
        let names: [&str; 2] = ["TrackList", "Value"];
        let ns = vstd::array::array_as_slice(&names);
        assert(strs_view(ns@) =~= seq!["TrackList"@, "Value"@]);
        let text = call_text(transport, &self.control_url, &self.service_type, "ReadList", args, "ReadListResponse", ns);
        let ghost reply = choose|reply: SoapCallResult|
            answered(*transport, request_view(self.control_url@, self.service_type@, "ReadList"@, av), reply)
                && crate::soap::agrees_text(text, spec_text_field(reply, "ReadListResponse"@, strs_view(ns@)));
        proof {
            assert(av =~= seq![("IdList"@, id_csv(id_list@))]);
            assert(answered(*transport, self.request("ReadList"@, seq![("IdList"@, id_csv(id_list@))]), reply));
        }
        let res = match text {
            Ok(t) => parse_track_list(t.as_str()),
            Err(e) => Err(e),
        };
        proof {
            assert(answered(*transport, read_list_request(*self, id_list@), reply));
            assert(match res {
                Ok(es) => listed_entries(reply) == Some(entries_view(es@)),
                Err(_) => listed_entries(reply) is None,
            });
        }
        res
    }

    /// `Read`: the URI and metadata of one track; a `800` status means the
    /// id is not in the playlist.
    pub fn read<F: Fn(SoapRequest) -> SoapCallResult>(&self, transport: &F, id: u32) -> (r: Result<OhTrackEntry, ControlPointError>)
        requires
            transport_total(*transport),
        ensures
            exists|reply: SoapCallResult|
                answered(*transport, self.request("Read"@, seq![("IdList"@, dec(id as nat))]), reply) && (reply.status == 800
                    ==> (r matches Err(ControlPointError::OpenHomeError(m)) && m@ == "Id "@ + dec(id as nat)
                    + " not found in OpenHome playlist"@)) && (r matches Ok(e) ==> (reply.status != 800
                    && e.id == id && (spec_response(reply, "ReadResponse"@) matches Some(resp)
                    && spec_child_text(resp, "Uri"@) == Some(e.uri@)
                    && spec_child_text(resp, "Metadata"@) == Some(e.metadata_xml@)))),
    {
        let args = one_arg(num_arg("IdList", id as u64));
        let ghost av = pairs_view(args@);
        let reply = invoke(transport, &self.control_url, &self.service_type, "Read", args);
        proof {
            assert(av =~= seq![("IdList"@, dec(id as nat))]);
            assert(answered(*transport, self.request("Read"@, seq![("IdList"@, dec(id as nat))]), reply));
        }
        if reply.status == 800 {
            return Err(ControlPointError::OpenHomeError(msg_num("Id ", id as u64, " not found in OpenHome playlist")));
        }
        let response = match response_element("Read", &reply, "ReadResponse") {
            Ok(e) => e,
            Err(_) => {
                return Err(ControlPointError::OpenHomeError(msg("Missing ReadResponse element in SOAP body")));
            },
        };
        let uri = extract_child_text(response, "Uri")?;
        let metadata = extract_child_text(response, "Metadata")?;
        Ok(OhTrackEntry { id, uri, metadata_xml: metadata })
    }

    /// Reads every track of the playlist: its ids, then their entries in
    /// batches of 64, one by one for a batch of several ids that the
    /// renderer refuses because of its ids. The contract says which requests
    /// give the entries and in what order they are put together; it does not
    /// say which refusals are read as refusals because of the ids, since the
    /// error that `read_list` gives for a refused batch is not stated.
    pub fn read_all_tracks<F: Fn(SoapRequest) -> SoapCallResult>(&self, transport: &F) -> (r: Result<Vec<OhTrackEntry>, ControlPointError>)
        requires
            transport_total(*transport),
        ensures
            exists|reply: SoapCallResult|
                answered(*transport, self.request("IdArray"@, seq![]), reply) && match spec_id_array(reply) {
                    None => r is Err,
                    Some(ids) => match r {
                        Ok(es) => all_tracks_read(*transport, *self, ids, entries_view(es@)),
                        Err(_) => tracks_refused(*transport, *self, ids),
                    },
                },
    {
        let listed = self.id_array(transport);
        let ghost idreply = choose|reply: SoapCallResult|
            answered(*transport, self.request("IdArray"@, seq![]), reply) && match listed {
                Ok(ids) => spec_id_array(reply) == Some(ids@),
                Err(_) => spec_id_array(reply) is None,
            };
        let ids = match listed {
            Ok(v) => v,
            Err(e) => {
                return Err(e);
            },
        };
        let mut entries: Vec<OhTrackEntry> = Vec::new();
        let ghost mut n: nat = 0;
        let mut start: usize = 0;
        proof {
            assert(entries_view(entries@) =~= Seq::<(u32, Seq<char>, Seq<char>)>::empty());
        }
        while start < ids.len()
            invariant
                start <= ids@.len(),
                start == if 64 * n <= ids@.len() { 64 * n } else { ids@.len() },
                64 * n < ids@.len() + 64,
                transport_total(*transport),
                answered(*transport, self.request("IdArray"@, seq![]), idreply),
                spec_id_array(idreply) == Some(ids@),
                chunks_read(*transport, *self, ids@, n, entries_view(entries@)),
            decreases ids@.len() - start,
        {
            let end = if ids.len() - start > 64 {
                start + 64
            } else {
                ids.len()
            };
            let chunk = ids_between(&ids, start, end);
            let ghost before = entries_view(entries@);
            assert(chunk@ == chunk_of(ids@, n));
            let batch_read = self.read_list(transport, chunk.as_slice());
            match batch_read {
                Ok(batch) => {
                    proof {
                        lemma_entries_view_append(entries@, batch@);
                    }
                    let mut b = batch;
                    let ghost added = entries_view(b@);
                    entries.append(&mut b);
                    proof {
                        let all = entries_view(entries@);
                        assert(all == before + added);
                        assert(all.take(before.len() as int) =~= before);
                        assert(all.skip(before.len() as int) =~= added);
                        assert(chunk_read(*transport, *self, chunk_of(ids@, n), all.skip(before.len() as int)));
                        assert(chunks_read(*transport, *self, ids@, (n + 1) as nat, all));
                    }
                },
                Err(err) => {
                    proof {
                        assert(chunk_refused(*transport, *self, chunk@));
                    }
                    if chunk.len() > 1 && is_invalid_entry_id_error(&err) {
                        let base: usize = entries.len();
                        let mut k: usize = 0;
                        proof {
                            assert(entries_view(entries@).skip(base as int) =~= Seq::<(u32, Seq<char>, Seq<char>)>::empty());
                            assert(entries_view(entries@).take(base as int) =~= before);
                        }
                        while k < chunk.len()
                            invariant
                                k <= chunk@.len(),
                                base == before.len(),
                                base <= entries@.len(),
                                transport_total(*transport),
                                64 * n < ids@.len(),
                                chunk@ == chunk_of(ids@, n),
                                chunk_refused(*transport, *self, chunk@),
                                chunks_read(*transport, *self, ids@, n, before),
                                answered(*transport, self.request("IdArray"@, seq![]), idreply),
                                spec_id_array(idreply) == Some(ids@),
                                entries_view(entries@).take(base as int) == before,
                                read_singly(*transport, *self, chunk@, k as nat, entries_view(entries@).skip(base as int)),
                            decreases chunk@.len() - k,
                        {
                            let one = vec![chunk[k]];
                            assert(one@ =~= seq![chunk@[k as int]]);
                            match self.read_list(transport, one.as_slice()) {
                                Ok(single) => {
                                    let ghost old_all = entries_view(entries@);
                                    let ghost part = old_all.skip(base as int);
                                    proof {
                                        lemma_entries_view_append(entries@, single@);
                                    }
                                    let mut one_read = single;
                                    let ghost added = entries_view(one_read@);
                                    entries.append(&mut one_read);
                                    proof {
                                        let all = entries_view(entries@);
                                        assert(all == old_all + added);
                                        assert(all.take(base as int) =~= before);
                                        let rest = all.skip(base as int);
                                        assert(rest.take(part.len() as int) =~= part);
                                        assert(rest.skip(part.len() as int) =~= added);
                                        assert(read_singly(*transport, *self, chunk@, (k + 1) as nat, rest));
                                    }
                                },
                                Err(inner) => {
                                    proof {
                                        assert(64 * n < ids@.len() && chunks_read(*transport, *self, ids@, n, before)
                                            && chunk_refused(*transport, *self, chunk_of(ids@, n)));
                                        assert(tracks_refused(*transport, *self, ids@));
                                        assert(answered(*transport, self.request("IdArray"@, seq![]), idreply));
                                    }
                                    return Err(inner);
                                },
                            }
                            k = k + 1;
                        }
                        proof {
                            let all = entries_view(entries@);
                            let rest = all.skip(base as int);
                            assert(chunk_read(*transport, *self, chunk_of(ids@, n), rest));
                            assert(all.take(base as int) == before);
                            assert(chunks_read(*transport, *self, ids@, (n + 1) as nat, all));
                        }
                    } else {
                        proof {
                            assert(64 * n < ids@.len() && chunks_read(*transport, *self, ids@, n, before)
                                && chunk_refused(*transport, *self, chunk_of(ids@, n)));
                            assert(tracks_refused(*transport, *self, ids@));
                            assert(answered(*transport, self.request("IdArray"@, seq![]), idreply));
                        }
                        return Err(err);
                    }
                },
            }
            proof {
                n = n + 1;
            }
            start = end;
        }
        proof {
            assert(64 * n >= ids@.len() && 64 * n < ids@.len() + 64 && chunks_read(*transport, *self, ids@, n, entries_view(entries@)));
            assert(all_tracks_read(*transport, *self, ids@, entries_view(entries@)));
            assert(answered(*transport, self.request("IdArray"@, seq![]), idreply));
        }
        Ok(entries)
    }
}

/// `out` are the entries read for all of `ids`, batch after batch.
pub open spec fn all_tracks_read<F: Fn(SoapRequest) -> SoapCallResult>(
    t: F,
    c: OhPlaylistClient,
    ids: Seq<u32>,
    out: Seq<(u32, Seq<char>, Seq<char>)>,
) -> bool {
    exists|n: nat| 64 * n >= ids.len() && 64 * n < ids.len() + 64 && #[trigger] chunks_read(t, c, ids, n, out)
}

/// The batches of `ids` before some batch were read, and that batch was
/// refused.
pub open spec fn tracks_refused<F: Fn(SoapRequest) -> SoapCallResult>(t: F, c: OhPlaylistClient, ids: Seq<u32>) -> bool {
    exists|n: nat, done: Seq<(u32, Seq<char>, Seq<char>)>|
        64 * n < ids.len() && #[trigger] chunks_read(t, c, ids, n, done) && chunk_refused(t, c, chunk_of(ids, n))
}

/// The `ReadList` request for the given ids.
pub open spec fn read_list_request(c: OhPlaylistClient, ids: Seq<u32>) -> SoapRequestView {
    c.request("ReadList"@, seq![("IdList"@, id_csv(ids))])
}

/// The entries a `ReadList` answer gives, `None` when it gives none.
pub open spec fn listed_entries(reply: SoapCallResult) -> Option<Seq<(u32, Seq<char>, Seq<char>)>> {
    match spec_text_field(reply, "ReadListResponse"@, seq!["TrackList"@, "Value"@]) {
        Some(x) => spec_track_list(x),
        None => None,
    }
}

/// The `n`-th batch of at most 64 ids.
pub open spec fn chunk_of(ids: Seq<u32>, n: nat) -> Seq<u32> {
    ids.subrange((64 * n) as int, if 64 * n + 64 <= ids.len() { (64 * n + 64) as int } else { ids.len() as int })
}

/// `out` are the entries read for the first `k` ids of `chunk`, one
/// `ReadList` per id.
pub open spec fn read_singly<F: Fn(SoapRequest) -> SoapCallResult>(
    t: F,
    c: OhPlaylistClient,
    chunk: Seq<u32>,
    k: nat,
    out: Seq<(u32, Seq<char>, Seq<char>)>,
) -> bool
    decreases k,
{
    if k == 0 {
        out.len() == 0
    } else if k > chunk.len() {
        false
    } else {
        exists|j: int|
            0 <= j <= out.len() && read_singly(t, c, chunk, (k - 1) as nat, out.take(j)) && exists|reply: SoapCallResult|
                answered(t, read_list_request(c, seq![chunk[k - 1]]), reply) && listed_entries(reply) == Some(out.skip(j))
    }
}

/// `ReadList` for the batch gave no entries.
pub open spec fn chunk_refused<F: Fn(SoapRequest) -> SoapCallResult>(t: F, c: OhPlaylistClient, chunk: Seq<u32>) -> bool {
    exists|reply: SoapCallResult| answered(t, read_list_request(c, chunk), reply) && listed_entries(reply) is None
}

/// `out` are the entries read for a batch: all at once, or, when the batch
/// of several ids was refused, one id at a time.
pub open spec fn chunk_read<F: Fn(SoapRequest) -> SoapCallResult>(
    t: F,
    c: OhPlaylistClient,
    chunk: Seq<u32>,
    out: Seq<(u32, Seq<char>, Seq<char>)>,
) -> bool {
    ||| exists|reply: SoapCallResult| answered(t, read_list_request(c, chunk), reply) && listed_entries(reply) == Some(out)
    ||| chunk.len() > 1 && chunk_refused(t, c, chunk) && read_singly(t, c, chunk, chunk.len(), out)
}

/// `out` are the entries read for the first `n` batches of `ids`, in order.
pub open spec fn chunks_read<F: Fn(SoapRequest) -> SoapCallResult>(
    t: F,
    c: OhPlaylistClient,
    ids: Seq<u32>,
    n: nat,
    out: Seq<(u32, Seq<char>, Seq<char>)>,
) -> bool
    decreases n,
{
    if n == 0 {
        out.len() == 0
    } else {
        exists|j: int|
            0 <= j <= out.len() && chunks_read(t, c, ids, (n - 1) as nat, out.take(j)) && chunk_read(
                t,
                c,
                chunk_of(ids, (n - 1) as nat),
                out.skip(j),
            )
    }
}

/// The view of entries put one after the other.
proof fn lemma_entries_view_append(a: Seq<OhTrackEntry>, b: Seq<OhTrackEntry>)
    ensures
        entries_view(a + b) == entries_view(a) + entries_view(b),
{
    assert(entries_view(a + b) =~= entries_view(a) + entries_view(b));
}

/// The ids from `start` to `end`.
fn ids_between(ids: &Vec<u32>, start: usize, end: usize) -> (r: Vec<u32>)
    requires
        start <= end <= ids@.len(),
    ensures
        r@ == ids@.subrange(start as int, end as int),
{
    let mut out: Vec<u32> = Vec::new();
    let mut i: usize = start;
    while i < end
        invariant
            start <= i <= end <= ids@.len(),
            out@ == ids@.subrange(start as int, i as int),
        decreases end - i,
    {
        out.push(ids[i]);
        i = i + 1;
        assert(out@ =~= ids@.subrange(start as int, i as int));
    }
    out
}

/// The error says that entry ids were refused (an invalid or a
/// comma-separated id).
pub open spec fn invalid_entry_id(text: Seq<char>) -> bool {
    seq_contains(text, "Invalid OpenHome Entry Id"@) || seq_contains(text, "comma-separated IDs"@)
}

/// Whether an error says that entry ids were refused.
pub fn is_invalid_entry_id_error(err: &ControlPointError) -> (r: bool)
    ensures
        r == invalid_entry_id(error_text(*err)),
{
    let m = err.message();
    let cs = str_chars(m.as_str());
    let a = str_chars("Invalid OpenHome Entry Id");
    let b = str_chars("comma-separated IDs");
    contains_chars(cs.as_slice(), a.as_slice()) || contains_chars(cs.as_slice(), b.as_slice())
}

} // verus!
