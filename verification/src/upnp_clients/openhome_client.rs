//! Clients of the OpenHome services (Playlist, Info, Time, Volume, Radio,
//! Product).
//!
//! Every action goes through a transport function supplied by the caller;
//! the contracts fix the request that is sent and say what is made of the
//! reply.
use crate::codec::{be_u32s, decode_base64, spec_decode_base64, u32s_from_be_bytes};
use crate::error::{error_text, msg, ControlPointError};
use crate::model::RendererInfo;
use crate::soap::{
    agrees, agrees_text, agrees_unit, answered, build_request, call_text, call_u32, call_unit, handle_action_response, invoke, no_args, send,
    num_arg, one_arg, pairs_view, request_view, response_element, spec_response, spec_success,
    spec_text_field, spec_u32_field, text_arg, text_field, transport_total, u32_field,
    SoapCallResult, SoapRequest, SoapRequestView,
};
use crate::text::{opt_view, dec, seq_contains, spec_parse_uint, trim_seq, contains_chars, str_chars, parse_uint};
use crate::xml::{
    extract_child_text_any, extract_child_text_optional, parse_bool, spec_child_text_any,
    spec_child_text_optional, spec_parse_bool, strs_view,
};
use vstd::prelude::*;

verus! {

/// Value used by OpenHome renderers to indicate "insert at the head".
pub const OPENHOME_PLAYLIST_HEAD_ID: u32 = 0;

/// A track as reported by the Info service.
#[derive(Debug, Clone)]
pub struct OhInfoTrack {
    pub uri: String,
    pub metadata_xml: Option<String>,
}

impl OhInfoTrack {
    /// A track from its URI and optional DIDL-Lite metadata.
    pub fn new(uri: &str, metadata_xml: Option<&str>) -> (r: OhInfoTrack)
        ensures
            r.uri@ == uri@,
            match metadata_xml {
                Some(m) => r.metadata_xml matches Some(x) && x@ == m@,
                None => r.metadata_xml is None,
            },
    {
        let metadata_xml = match metadata_xml {
            Some(m) => Some(msg(m)),
            None => None,
        };
        OhInfoTrack { uri: msg(uri), metadata_xml }
    }
}

/// Playback time reported by the Time service.
#[derive(Debug, Clone)]
pub struct OhTimePosition {
    pub track_count: u32,
    pub duration_secs: u32,
    pub elapsed_secs: u32,
}

/// A radio channel reported by the Radio service.
#[derive(Debug, Clone)]
pub struct OhRadioChannel {
    pub uri: String,
    pub metadata_xml: Option<String>,
}

/// Client of the Time service.
#[derive(Debug, Clone)]
pub struct OhTimeClient {
    pub control_url: String,
    pub service_type: String,
}

/// Client of the Volume service.
#[derive(Debug, Clone)]
pub struct OhVolumeClient {
    pub control_url: String,
    pub service_type: String,
}

/// Client of the Radio service.
#[derive(Debug, Clone)]
pub struct OhRadioClient {
    pub control_url: String,
    pub service_type: String,
}

/// Client of the Product service.
#[derive(Debug, Clone)]
pub struct OhProductClient {
    pub control_url: String,
    pub service_type: String,
}

/// A source of an OpenHome product.
#[derive(Debug, Clone)]
pub struct OhProductSource {
    pub name: String,
    pub source_type: String,
    pub visible: bool,
}

/// Client of the Info service.
#[derive(Debug, Clone)]
pub struct OhInfoClient {
    pub control_url: String,
    pub service_type: String,
}

/// Client of the Playlist service.
#[derive(Debug, Clone)]
pub struct OhPlaylistClient {
    pub control_url: String,
    pub service_type: String,
}

/// An entry of an OpenHome playlist.
#[derive(Debug, Clone)]
pub struct OhTrackEntry {
    pub id: u32,
    pub uri: String,
    pub metadata_xml: String,
}

impl OhTrackEntry {
    /// The view of the entry's URI.
    pub open spec fn uri_view(&self) -> Seq<char> {
        self.uri@
    }

    /// The view of the entry's metadata text.
    pub open spec fn metadata_view(&self) -> Seq<char> {
        self.metadata_xml@
    }

    /// An entry from its id, URI and metadata text.
    pub fn new(id: u32, uri: &str, metadata_xml: &str) -> (r: OhTrackEntry)
        ensures
            r.id == id,
            r.uri_view() == uri@,
            r.metadata_view() == metadata_xml@,
    {
        OhTrackEntry { id, uri: msg(uri), metadata_xml: msg(metadata_xml) }
    }

    /// The entry's id.
    pub fn id(&self) -> (r: u32)
        ensures
            r == self.id,
    {
        self.id
    }

    /// The entry's URI.
    pub fn uri(&self) -> (r: &str)
        ensures
            r@ == self.uri_view(),
    {
        self.uri.as_str()
    }

    /// The entry's metadata, absent when empty.
    pub fn metadata_xml(&self) -> (r: Option<&str>)
        ensures
            match r {
                Some(m) => m@ == self.metadata_view() && self.metadata_view().len() > 0,
                None => self.metadata_view().len() == 0,
            },
    {
        if self.metadata_xml.unicode_len() == 0 {
            None
        } else {
            Some(self.metadata_xml.as_str())
        }
    }
}

/// Keywords of failures of `DeleteId` that mean the entry was already gone
/// or that the renderer is in an inconsistent state.
pub open spec fn delete_failure_ignorable(m: Seq<char>) -> bool {
    seq_contains(m, "Invalid"@) || seq_contains(m, "invalid"@) || seq_contains(m, "not found"@)
        || seq_contains(m, "does not exist"@) || seq_contains(m, "unknown"@) || seq_contains(
        m,
        "500"@,
    ) || seq_contains(m, "Action Failed"@)
}

/// The ids of an `IdArray` reply: no array element or an empty one means an
/// empty playlist; otherwise the base64 payload must decode to a multiple of
/// four bytes, read as big-endian ids.
pub open spec fn spec_id_array(reply: SoapCallResult) -> Option<Seq<u32>> {
    match spec_response(reply, "IdArrayResponse"@) {
        None => None,
        Some(e) => match spec_child_text_any(e, seq!["Array"@, "IdArray"@, "Value"@]) {
            None => Some(Seq::empty()),
            Some(t) => if trim_seq(t).len() == 0 {
                Some(Seq::empty())
            } else {
                match spec_decode_base64(t) {
                    None => None,
                    Some(b) => if b.len() % 4 != 0 {
                        None
                    } else {
                        Some(be_u32s(b))
                    },
                }
            },
        },
    }
}

impl OhPlaylistClient {
    /// The request view of one of this service's actions.
    pub open spec fn request(&self, action: Seq<char>, args: Seq<(Seq<char>, Seq<char>)>) -> SoapRequestView {
        request_view(self.control_url@, self.service_type@, action, args)
    }

    /// A client for the given control URL and service type.
    pub fn new(control_url: String, service_type: String) -> (r: Self)
        ensures
            r.control_url == control_url,
            r.service_type == service_type,
    {
        Self { control_url, service_type }
    }

    /// A client for the Playlist service of a renderer, if it has one.
    pub fn from_renderer_info(info: &RendererInfo) -> (r: Result<Self, ControlPointError>)
        ensures
            r is Ok <==> (info.oh_playlist_control_url is Some && info.oh_playlist_service_type is Some),
            r matches Ok(c) ==> info.oh_playlist_control_url == Some(c.control_url)
                && info.oh_playlist_service_type == Some(c.service_type),
            r matches Err(e) ==> e is OpenHomeError,
    {
        let control_url = match info.oh_playlist_control_url() {
            Some(u) => u,
            None => {
                return Err(ControlPointError::OpenHomeError(msg("Cannot create playlist control client")));
            },
        };
        let service_type = match info.oh_playlist_service_type() {
            Some(s) => s,
            None => {
                return Err(ControlPointError::OpenHomeError(msg("Cannot create playlist service client")));
            },
        };
        Ok(OhPlaylistClient::new(control_url, service_type))
    }

    /// `Insert`: adds a track after `after_id` and returns its new id.
    pub fn insert<F: Fn(SoapRequest) -> SoapCallResult>(&self, transport: &F, after_id: u32, uri: &str, metadata: &str) -> (r: Result<u32, ControlPointError>)
        requires
            transport_total(*transport),
        ensures
            exists|reply: SoapCallResult|
                answered(
                    *transport,
                    self.request(
                        "Insert"@,
                        seq![("AfterId"@, dec(after_id as nat)), ("Uri"@, uri@), ("Metadata"@, metadata@)],
                    ),
                    reply,
                ) && agrees(r, spec_u32_field(reply, "InsertResponse"@, seq!["NewId"@, "Value"@])),
    {
        let reply = send(transport, self.insert_request(after_id, uri, metadata));
        read_insert_reply(&reply)
    }

    /// The `Insert` request.
    pub fn insert_request(&self, after_id: u32, uri: &str, metadata: &str) -> (r: SoapRequest)
        ensures
            r@ == self.request("Insert"@, seq![("AfterId"@, dec(after_id as nat)), ("Uri"@, uri@), ("Metadata"@, metadata@)]),
    {
        let a = num_arg("AfterId", after_id as u64);
        let b = text_arg("Uri", uri);
        let c = text_arg("Metadata", metadata);
        let ghost v = seq![(a.0@, a.1@), (b.0@, b.1@), (c.0@, c.1@)];
        let args = vec![a, b, c];
        assert(pairs_view(args@) =~= v);
        assert(v =~= seq![("AfterId"@, dec(after_id as nat)), ("Uri"@, uri@), ("Metadata"@, metadata@)]);
        build_request(&self.control_url, &self.service_type, "Insert", args)
    }

    /// `SeekId`: makes `id` the current track.
    pub fn seek_id<F: Fn(SoapRequest) -> SoapCallResult>(&self, transport: &F, id: u32) -> (r: Result<(), ControlPointError>)
        requires
            transport_total(*transport),
        ensures
            exists|reply: SoapCallResult|
                answered(*transport, self.request("SeekId"@, seq![("Value"@, dec(id as nat))]), reply)
                    && agrees_unit(r, spec_success(reply) is Some),
    {
        let reply = send(transport, self.seek_id_request(id));
        handle_action_response("SeekId", &reply)
    }

    /// The `SeekId` request.
    pub fn seek_id_request(&self, id: u32) -> (r: SoapRequest)
        ensures
            r@ == self.request("SeekId"@, seq![("Value"@, dec(id as nat))]),
    {
        let args = one_arg(num_arg("Value", id as u64));
        assert(pairs_view(args@) =~= seq![("Value"@, dec(id as nat))]);
        build_request(&self.control_url, &self.service_type, "SeekId", args)
    }

    /// `TransportState`: the playlist's transport state text.
    pub fn transport_state<F: Fn(SoapRequest) -> SoapCallResult>(&self, transport: &F) -> (r: Result<String, ControlPointError>)
        requires
            transport_total(*transport),
        ensures
            exists|reply: SoapCallResult|
                answered(*transport, self.request("TransportState"@, seq![]), reply)
                    && agrees_text(r, spec_text_field(reply, "TransportStateResponse"@, seq!["State"@, "Value"@])),
    {
        let names: [&str; 2] = ["State", "Value"];
        let ns = vstd::array::array_as_slice(&names);
        assert(strs_view(ns@) =~= seq!["State"@, "Value"@]);
        let args = no_args();
        let ghost av = pairs_view(args@);
        let r = call_text(transport, &self.control_url, &self.service_type, "TransportState", args, "TransportStateResponse", ns);
        proof {
            let reply = choose|reply: SoapCallResult| answered(*transport, request_view(self.control_url@, self.service_type@, "TransportState"@, av), reply) && agrees_text(r, spec_text_field(reply, "TransportStateResponse"@, strs_view(ns@)));
            assert(av =~= seq![]);
            assert(answered(*transport, self.request("TransportState"@, seq![]), reply));
        }
        r
    }

    /// `Id`: the id of the current track (0 when there is none).
    pub fn id<F: Fn(SoapRequest) -> SoapCallResult>(&self, transport: &F) -> (r: Result<u32, ControlPointError>)
        requires
            transport_total(*transport),
        ensures
            exists|reply: SoapCallResult|
                answered(*transport, self.request("Id"@, seq![]), reply)
                    && agrees(r, spec_u32_field(reply, "IdResponse"@, seq!["Value"@])),
    {
        let names: [&str; 1] = ["Value"];
        let ns = vstd::array::array_as_slice(&names);
        assert(strs_view(ns@) =~= seq!["Value"@]);
        let args = no_args();
        let ghost av = pairs_view(args@);
        let r = call_u32(transport, &self.control_url, &self.service_type, "Id", args, "IdResponse", ns);
        proof {
            let reply = choose|reply: SoapCallResult| answered(*transport, request_view(self.control_url@, self.service_type@, "Id"@, av), reply) && agrees(r, spec_u32_field(reply, "IdResponse"@, strs_view(ns@)));
            assert(av =~= seq![]);
            assert(answered(*transport, self.request("Id"@, seq![]), reply));
        }
        r
    }

    /// `PlayId` (historical form): plays the track `id`.
    pub fn play_id<F: Fn(SoapRequest) -> SoapCallResult>(&self, transport: &F, id: u32) -> (r: Result<(), ControlPointError>)
        requires
            transport_total(*transport),
        ensures
            exists|reply: SoapCallResult|
                answered(*transport, self.request("PlayId"@, seq![("aId"@, dec(id as nat))]), reply)
                    && agrees_unit(r, spec_success(reply) is Some),
    {
        let args = one_arg(num_arg("aId", id as u64));
        let ghost av = pairs_view(args@);
        let r = call_unit(transport, &self.control_url, &self.service_type, "PlayId", args);
        proof {
            let reply = choose|reply: SoapCallResult| answered(*transport, request_view(self.control_url@, self.service_type@, "PlayId"@, av), reply) && agrees_unit(r, spec_success(reply) is Some);
            assert(av =~= seq![("aId"@, dec(id as nat))]);
            assert(answered(*transport, self.request("PlayId"@, seq![("aId"@, dec(id as nat))]), reply));
        }
        r
    }

    /// `Play`.
    pub fn play<F: Fn(SoapRequest) -> SoapCallResult>(&self, transport: &F) -> (r: Result<(), ControlPointError>)
        requires
            transport_total(*transport),
        ensures
            exists|reply: SoapCallResult|
                answered(*transport, self.request("Play"@, seq![]), reply) && agrees_unit(r, spec_success(reply) is Some),
    {
        let reply = send(transport, self.play_request());
        handle_action_response("Play", &reply)
    }

    /// The `Play` request.
    pub fn play_request(&self) -> (r: SoapRequest)
        ensures
            r@ == self.request("Play"@, seq![]),
    {
        let args = no_args();
        build_request(&self.control_url, &self.service_type, "Play", args)
    }

    /// `Pause`.
    pub fn pause<F: Fn(SoapRequest) -> SoapCallResult>(&self, transport: &F) -> (r: Result<(), ControlPointError>)
        requires
            transport_total(*transport),
        ensures
            exists|reply: SoapCallResult|
                answered(*transport, self.request("Pause"@, seq![]), reply) && agrees_unit(r, spec_success(reply) is Some),
    {
        let reply = send(transport, self.pause_request());
        handle_action_response("Pause", &reply)
    }

    /// The `Pause` request.
    pub fn pause_request(&self) -> (r: SoapRequest)
        ensures
            r@ == self.request("Pause"@, seq![]),
    {
        let args = no_args();
        build_request(&self.control_url, &self.service_type, "Pause", args)
    }

    /// `Stop`.
    pub fn stop<F: Fn(SoapRequest) -> SoapCallResult>(&self, transport: &F) -> (r: Result<(), ControlPointError>)
        requires
            transport_total(*transport),
        ensures
            exists|reply: SoapCallResult|
                answered(*transport, self.request("Stop"@, seq![]), reply) && agrees_unit(r, spec_success(reply) is Some),
    {
        let reply = send(transport, self.stop_request());
        handle_action_response("Stop", &reply)
    }

    /// The `Stop` request.
    pub fn stop_request(&self) -> (r: SoapRequest)
        ensures
            r@ == self.request("Stop"@, seq![]),
    {
        let args = no_args();
        build_request(&self.control_url, &self.service_type, "Stop", args)
    }

    /// `Next`.
    pub fn next<F: Fn(SoapRequest) -> SoapCallResult>(&self, transport: &F) -> (r: Result<(), ControlPointError>)
        requires
            transport_total(*transport),
        ensures
            exists|reply: SoapCallResult|
                answered(*transport, self.request("Next"@, seq![]), reply) && agrees_unit(r, spec_success(reply) is Some),
    {
        let reply = send(transport, self.next_request());
        handle_action_response("Next", &reply)
    }

    /// The `Next` request.
    pub fn next_request(&self) -> (r: SoapRequest)
        ensures
            r@ == self.request("Next"@, seq![]),
    {
        let args = no_args();
        build_request(&self.control_url, &self.service_type, "Next", args)
    }

    /// `Previous`.
    pub fn previous<F: Fn(SoapRequest) -> SoapCallResult>(&self, transport: &F) -> (r: Result<(), ControlPointError>)
        requires
            transport_total(*transport),
        ensures
            exists|reply: SoapCallResult|
                answered(*transport, self.request("Previous"@, seq![]), reply) && agrees_unit(r, spec_success(reply) is Some),
    {
        let reply = send(transport, self.previous_request());
        handle_action_response("Previous", &reply)
    }

    /// The `Previous` request.
    pub fn previous_request(&self) -> (r: SoapRequest)
        ensures
            r@ == self.request("Previous"@, seq![]),
    {
        let args = no_args();
        build_request(&self.control_url, &self.service_type, "Previous", args)
    }

    /// `SeekSecondAbsolute`.
    pub fn seek_second_absolute<F: Fn(SoapRequest) -> SoapCallResult>(&self, transport: &F, second: u32) -> (r: Result<(), ControlPointError>)
        requires
            transport_total(*transport),
        ensures
            exists|reply: SoapCallResult|
                answered(*transport, self.request("SeekSecondAbsolute"@, seq![("Value"@, dec(second as nat))]), reply)
                    && agrees_unit(r, spec_success(reply) is Some),
    {
        let reply = send(transport, self.seek_second_absolute_request(second));
        handle_action_response("SeekSecondAbsolute", &reply)
    }

    /// The `SeekSecondAbsolute` request.
    pub fn seek_second_absolute_request(&self, second: u32) -> (r: SoapRequest)
        ensures
            r@ == self.request("SeekSecondAbsolute"@, seq![("Value"@, dec(second as nat))]),
    {
        let args = one_arg(num_arg("Value", second as u64));
        assert(pairs_view(args@) =~= seq![("Value"@, dec(second as nat))]);
        build_request(&self.control_url, &self.service_type, "SeekSecondAbsolute", args)
    }

    /// `DeleteId`.
    pub fn delete_id<F: Fn(SoapRequest) -> SoapCallResult>(&self, transport: &F, id: u32) -> (r: Result<(), ControlPointError>)
        requires
            transport_total(*transport),
        ensures
            exists|reply: SoapCallResult|
                answered(*transport, self.request("DeleteId"@, seq![("Value"@, dec(id as nat))]), reply)
                    && agrees_unit(r, spec_success(reply) is Some),
    {
        let reply = send(transport, self.delete_id_request(id));
        handle_action_response("DeleteId", &reply)
    }

    /// The `DeleteId` request.
    pub fn delete_id_request(&self, id: u32) -> (r: SoapRequest)
        ensures
            r@ == self.request("DeleteId"@, seq![("Value"@, dec(id as nat))]),
    {
        let args = one_arg(num_arg("Value", id as u64));
        assert(pairs_view(args@) =~= seq![("Value"@, dec(id as nat))]);
        build_request(&self.control_url, &self.service_type, "DeleteId", args)
    }

    /// `DeleteId` that tolerates an entry that is already gone: `Ok(true)`
    /// when deleted, `Ok(false)` when the failure says the id is invalid or
    /// missing (or the renderer is in an inconsistent state), the error
    /// otherwise.
    pub fn delete_id_if_exists<F: Fn(SoapRequest) -> SoapCallResult>(&self, transport: &F, id: u32) -> (r: Result<bool, ControlPointError>)
        requires
            transport_total(*transport),
        ensures
            exists|reply: SoapCallResult|
                answered(*transport, self.request("DeleteId"@, seq![("Value"@, dec(id as nat))]), reply)
                    && (r == Ok::<bool, ControlPointError>(true) <==> spec_success(reply) is Some),
            r matches Err(e) ==> !delete_failure_ignorable(error_text(e)),
    {
        match self.delete_id(transport, id) {
            Ok(()) => Ok(true),
            Err(err) => {
                let m = err.message();
                let mc = str_chars(m.as_str());
                if contains_str(&mc, "Invalid") || contains_str(&mc, "invalid") || contains_str(&mc, "not found")
                    || contains_str(&mc, "does not exist") || contains_str(&mc, "unknown") || contains_str(&mc, "500")
                    || contains_str(&mc, "Action Failed") {
                    Ok(false)
                } else {
                    Err(err)
                }
            },
        }
    }

    /// `DeleteAll`.
    pub fn delete_all<F: Fn(SoapRequest) -> SoapCallResult>(&self, transport: &F) -> (r: Result<(), ControlPointError>)
        requires
            transport_total(*transport),
        ensures
            exists|reply: SoapCallResult|
                answered(*transport, self.request("DeleteAll"@, seq![]), reply) && agrees_unit(r, spec_success(reply) is Some),
    {
        let reply = send(transport, self.delete_all_request());
        handle_action_response("DeleteAll", &reply)
    }

    /// The `DeleteAll` request.
    pub fn delete_all_request(&self) -> (r: SoapRequest)
        ensures
            r@ == self.request("DeleteAll"@, seq![]),
    {
        let args = no_args();
        build_request(&self.control_url, &self.service_type, "DeleteAll", args)
    }

    /// `TracksMax`: the playlist capacity.
    pub fn tracks_max<F: Fn(SoapRequest) -> SoapCallResult>(&self, transport: &F) -> (r: Result<u32, ControlPointError>)
        requires
            transport_total(*transport),
        ensures
            exists|reply: SoapCallResult|
                answered(*transport, self.request("TracksMax"@, seq![]), reply)
                    && agrees(r, spec_u32_field(reply, "TracksMaxResponse"@, seq!["Value"@])),
    {
        let reply = send(transport, self.tracks_max_request());
        read_tracks_max_reply(&reply)
    }

    /// The `TracksMax` request.
    pub fn tracks_max_request(&self) -> (r: SoapRequest)
        ensures
            r@ == self.request("TracksMax"@, seq![]),
    {
        let args = no_args();
        build_request(&self.control_url, &self.service_type, "TracksMax", args)
    }

    /// `IdArray`: the ids of the playlist, in order.
    pub fn id_array<F: Fn(SoapRequest) -> SoapCallResult>(&self, transport: &F) -> (r: Result<Vec<u32>, ControlPointError>)
        requires
            transport_total(*transport),
        ensures
            exists|reply: SoapCallResult|
                answered(*transport, self.request("IdArray"@, seq![]), reply) && match r {
                    Ok(ids) => spec_id_array(reply) == Some(ids@),
                    Err(_) => spec_id_array(reply) is None,
                },
    {
        let args = no_args();
        let ghost av = pairs_view(args@);
        let reply = invoke(transport, &self.control_url, &self.service_type, "IdArray", args);
        let r = parse_id_array(&reply);
        proof {
            assert(av =~= seq![]);
            assert(answered(*transport, self.request("IdArray"@, seq![]), reply));
        }
        r
    }
}

/// Reads the answer to `TracksMax`: the `u32` under `Value` of `TracksMaxResponse`.
pub fn read_tracks_max_reply(reply: &SoapCallResult) -> (r: Result<u32, ControlPointError>)
    ensures
        agrees(r, spec_u32_field(*reply, "TracksMaxResponse"@, seq!["Value"@])),
{
    let names: [&str; 1] = ["Value"];
    let ns = vstd::array::array_as_slice(&names);
    assert(strs_view(ns@) =~= seq!["Value"@]);
    u32_field("TracksMax", reply, "TracksMaxResponse", ns)
}

/// Reads the answer to `Insert`: the `u32` under `NewId` / `Value` of `InsertResponse`.
pub fn read_insert_reply(reply: &SoapCallResult) -> (r: Result<u32, ControlPointError>)
    ensures
        agrees(r, spec_u32_field(*reply, "InsertResponse"@, seq!["NewId"@, "Value"@])),
{
    let names: [&str; 2] = ["NewId", "Value"];
    let ns = vstd::array::array_as_slice(&names);
    assert(strs_view(ns@) =~= seq!["NewId"@, "Value"@]);
    u32_field("Insert", reply, "InsertResponse", ns)
}

/// Interprets an `IdArray` reply.
pub fn parse_id_array(reply: &SoapCallResult) -> (r: Result<Vec<u32>, ControlPointError>)
    ensures
        match r {
            Ok(ids) => spec_id_array(*reply) == Some(ids@),
            Err(_) => spec_id_array(*reply) is None,
        },
{
    let response = response_element("IdArray", reply, "IdArrayResponse")?;
    let names: [&str; 3] = ["Array", "IdArray", "Value"];
    let ns = vstd::array::array_as_slice(&names);
    assert(strs_view(ns@) =~= seq!["Array"@, "IdArray"@, "Value"@]);
    let text = match extract_child_text_any(response, ns) {
        Ok(t) => t,
        Err(_) => {
            return Ok(Vec::new());
        },
    };
    let tc = str_chars(text.as_str());
    let trimmed = crate::text::trim_chars(tc.as_slice());
    if trimmed.len() == 0 {
        return Ok(Vec::new());
    }
    let bytes = decode_base64(text.as_str())?;
    if bytes.len() % 4 != 0 {
        return Err(ControlPointError::SoapAction(msg("Invalid IdArray payload length (expected multiple of 4)")));
    }
    Ok(u32s_from_be_bytes(bytes.as_slice()))
}

/// Substring test against a literal.
fn contains_str(s: &Vec<char>, pat: &str) -> (r: bool)
    ensures
        r == seq_contains(s@, pat@),
{
    let p = str_chars(pat);
    contains_chars(s.as_slice(), p.as_slice())
}

} // verus!

verus! {

/// The URI (first of `names` with text, empty otherwise) and the non-empty
/// `Metadata` text of the response element of a reply.
pub open spec fn spec_uri_meta(reply: SoapCallResult, response: Seq<char>, names: Seq<Seq<char>>) -> Option<(Seq<char>, Option<Seq<char>>)> {
    match spec_response(reply, response) {
        None => None,
        Some(e) => Some(
            (
                match spec_child_text_any(e, names) {
                    Some(t) => t,
                    None => Seq::empty(),
                },
                match spec_child_text_optional(e, "Metadata"@) {
                    Some(t) => if t.len() > 0 {
                        Some(t)
                    } else {
                        None
                    },
                    None => None,
                },
            ),
        ),
    }
}

/// Reads a URI and its metadata from the response element of a reply.
pub fn uri_meta_field(action: &str, reply: &SoapCallResult, response: &str, names: &[&str]) -> (r: Result<(String, Option<String>), ControlPointError>)
    ensures
        match r {
            Ok((u, m)) => spec_uri_meta(*reply, response@, strs_view(names@)) == Some((u@, opt_view(&m))),
            Err(_) => spec_uri_meta(*reply, response@, strs_view(names@)) is None,
        },
{
    let e = response_element(action, reply, response)?;
    let uri = match extract_child_text_any(e, names) {
        Ok(t) => t,
        Err(_) => String::new(),
    };
    let meta = match extract_child_text_optional(e, "Metadata") {
        Ok(Some(t)) => if t.unicode_len() > 0 {
            Some(t)
        } else {
            None
        },
        _ => None,
    };
    Ok((uri, meta))
}

/// The three counters of a `Time` reply.
pub open spec fn spec_time(reply: SoapCallResult) -> Option<(u32, u32, u32)> {
    match spec_response(reply, "TimeResponse"@) {
        None => None,
        Some(e) => match (
            spec_child_text_any(e, seq!["TrackCount"@, "Value"@]),
            spec_child_text_any(e, seq!["Duration"@, "Value"@]),
            spec_child_text_any(e, seq!["Seconds"@, "Value"@]),
        ) {
            (Some(a), Some(b), Some(c)) => match (
                spec_parse_uint(a, u32::MAX as nat),
                spec_parse_uint(b, u32::MAX as nat),
                spec_parse_uint(c, u32::MAX as nat),
            ) {
                (Some(x), Some(y), Some(z)) => Some((x as u32, y as u32, z as u32)),
                _ => None,
            },
            _ => None,
        },
    }
}

fn u32_of_any(e: &crate::xml::XmlElement, names: &[&str], label: &str) -> (r: Result<u32, ControlPointError>)
    ensures
        match r {
            Ok(v) => spec_child_text_any(*e, strs_view(names@)) matches Some(t) && spec_parse_uint(t, u32::MAX as nat) == Some(v as nat),
            Err(_) => match spec_child_text_any(*e, strs_view(names@)) {
                Some(t) => spec_parse_uint(t, u32::MAX as nat) is None,
                None => true,
            },
        },
{
    let t = extract_child_text_any(e, names)?;
    let cs = str_chars(t.as_str());
    match parse_uint(cs.as_slice(), u32::MAX as u64) {
        Some(v) => Ok(v as u32),
        None => Err(ControlPointError::UpnpBadReturnValue(msg(label), t)),
    }
}

/// Interprets a `Time` reply.
pub fn parse_time_position(reply: &SoapCallResult) -> (r: Result<OhTimePosition, ControlPointError>)
    ensures
        match r {
            Ok(p) => spec_time(*reply) == Some((p.track_count, p.duration_secs, p.elapsed_secs)),
            Err(_) => spec_time(*reply) is None,
        },
{
    let e = response_element("Time", reply, "TimeResponse")?;
    let n1: [&str; 2] = ["TrackCount", "Value"];
    let s1 = vstd::array::array_as_slice(&n1);
    let n2: [&str; 2] = ["Duration", "Value"];
    let s2 = vstd::array::array_as_slice(&n2);
    let n3: [&str; 2] = ["Seconds", "Value"];
    let s3 = vstd::array::array_as_slice(&n3);
    assert(strs_view(s1@) =~= seq!["TrackCount"@, "Value"@]);
    assert(strs_view(s2@) =~= seq!["Duration"@, "Value"@]);
    assert(strs_view(s3@) =~= seq!["Seconds"@, "Value"@]);
    let track_count = u32_of_any(e, s1, "TrackCount")?;
    let duration_secs = u32_of_any(e, s2, "Duration")?;
    let elapsed_secs = u32_of_any(e, s3, "Second")?;
    Ok(OhTimePosition { track_count, duration_secs, elapsed_secs })
}

/// A UPnP boolean in a response element.
pub open spec fn spec_bool_field(reply: SoapCallResult, response: Seq<char>, names: Seq<Seq<char>>) -> Option<bool> {
    match spec_text_field(reply, response, names) {
        Some(t) => spec_parse_bool(t),
        None => None,
    }
}

/// `Value` of a `Volume` reply, capped to the `u16` range.
pub open spec fn spec_volume(reply: SoapCallResult) -> Option<u16> {
    match spec_u32_field(reply, "VolumeResponse"@, seq!["Value"@]) {
        Some(v) => Some(if v > u16::MAX { u16::MAX } else { v as u16 }),
        None => None,
    }
}

impl OhInfoClient {
    /// The request view of one of this service's actions.
    pub open spec fn request(&self, action: Seq<char>, args: Seq<(Seq<char>, Seq<char>)>) -> SoapRequestView {
        request_view(self.control_url@, self.service_type@, action, args)
    }

    /// A client for the given control URL and service type.
    pub fn new(control_url: String, service_type: String) -> (r: Self)
        ensures
            r.control_url == control_url,
            r.service_type == service_type,
    {
        Self { control_url, service_type }
    }

    /// A client for this service of a renderer, if it has one.
    pub fn from_renderer_info(info: &RendererInfo) -> (r: Result<Self, ControlPointError>)
        ensures
            r is Ok <==> (info.oh_info_control_url is Some && info.oh_info_service_type is Some),
            r matches Ok(c) ==> info.oh_info_control_url == Some(c.control_url)
                && info.oh_info_service_type == Some(c.service_type),
            r matches Err(e) ==> e is OpenHomeError,
    {
        let control_url = match info.oh_info_control_url() {
            Some(u) => u,
            None => {
                return Err(ControlPointError::OpenHomeError(msg("Cannot create info control client")));
            },
        };
        let service_type = match info.oh_info_service_type() {
            Some(s) => s,
            None => {
                return Err(ControlPointError::OpenHomeError(msg("Cannot create info service client")));
            },
        };
        Ok(Self::new(control_url, service_type))
    }

    /// `Track`: the current track's URI and metadata.
    pub fn track<F: Fn(SoapRequest) -> SoapCallResult>(&self, transport: &F) -> (r: Result<OhInfoTrack, ControlPointError>)
        requires
            transport_total(*transport),
        ensures
            exists|reply: SoapCallResult|
                answered(*transport, self.request("Track"@, seq![]), reply) && match r {
                    Ok(t) => spec_uri_meta(reply, "TrackResponse"@, seq!["Uri"@, "Uri"@, "Value"@]) == Some((t.uri@, opt_view(&t.metadata_xml))),
                    Err(_) => spec_uri_meta(reply, "TrackResponse"@, seq!["Uri"@, "Uri"@, "Value"@]) is None,
                },
    {
        let names: [&str; 3] = ["Uri", "Uri", "Value"];
        let ns = vstd::array::array_as_slice(&names);
        assert(strs_view(ns@) =~= seq!["Uri"@, "Uri"@, "Value"@]);
        let args = no_args();
        let ghost av = pairs_view(args@);
        let reply = invoke(transport, &self.control_url, &self.service_type, "Track", args);
        let r = match uri_meta_field("Track", &reply, "TrackResponse", ns) {
            Ok((uri, metadata_xml)) => Ok(OhInfoTrack { uri, metadata_xml }),
            Err(e) => Err(e),
        };
        proof {
            assert(av =~= seq![]);
            assert(answered(*transport, self.request("Track"@, seq![]), reply));
        }
        r
    }

    /// `Next` of the Info service: the next track's URI and metadata.
    pub fn next<F: Fn(SoapRequest) -> SoapCallResult>(&self, transport: &F) -> (r: Result<OhInfoTrack, ControlPointError>)
        requires
            transport_total(*transport),
        ensures
            exists|reply: SoapCallResult|
                answered(*transport, self.request("Next"@, seq![]), reply) && match r {
                    Ok(t) => spec_uri_meta(reply, "NextResponse"@, seq!["Uri"@, "Value"@]) == Some((t.uri@, opt_view(&t.metadata_xml))),
                    Err(_) => spec_uri_meta(reply, "NextResponse"@, seq!["Uri"@, "Value"@]) is None,
                },
    {
        let names: [&str; 2] = ["Uri", "Value"];
        let ns = vstd::array::array_as_slice(&names);
        assert(strs_view(ns@) =~= seq!["Uri"@, "Value"@]);
        let args = no_args();
        let ghost av = pairs_view(args@);
        let reply = invoke(transport, &self.control_url, &self.service_type, "Next", args);
        let r = match uri_meta_field("Next", &reply, "NextResponse", ns) {
            Ok((uri, metadata_xml)) => Ok(OhInfoTrack { uri, metadata_xml }),
            Err(e) => Err(e),
        };
        proof {
            assert(av =~= seq![]);
            assert(answered(*transport, self.request("Next"@, seq![]), reply));
        }
        r
    }

    /// `Id` of the Info service (historical argument names).
    pub fn id<F: Fn(SoapRequest) -> SoapCallResult>(&self, transport: &F) -> (r: Result<u32, ControlPointError>)
        requires
            transport_total(*transport),
        ensures
            exists|reply: SoapCallResult|
                answered(*transport, self.request("Id"@, seq![]), reply) && agrees(r, spec_u32_field(reply, "IdResponse"@, seq!["aId"@])),
    {
        let names: [&str; 1] = ["aId"];
        let ns = vstd::array::array_as_slice(&names);
        assert(strs_view(ns@) =~= seq!["aId"@]);
        let args = no_args();
        let ghost av = pairs_view(args@);
        let r = call_u32(transport, &self.control_url, &self.service_type, "Id", args, "IdResponse", ns);
        proof {
            let reply = choose|reply: SoapCallResult| answered(*transport, request_view(self.control_url@, self.service_type@, "Id"@, av), reply) && agrees(r, spec_u32_field(reply, "IdResponse"@, strs_view(ns@)));
            assert(av =~= seq![]);
            assert(answered(*transport, self.request("Id"@, seq![]), reply));
        }
        r
    }

    /// `TransportState` of the Info service (historical argument names).
    pub fn transport_state<F: Fn(SoapRequest) -> SoapCallResult>(&self, transport: &F) -> (r: Result<String, ControlPointError>)
        requires
            transport_total(*transport),
        ensures
            exists|reply: SoapCallResult|
                answered(*transport, self.request("TransportState"@, seq![]), reply) && agrees_text(r, spec_text_field(reply, "TransportStateResponse"@, seq!["aState"@])),
    {
        let names: [&str; 1] = ["aState"];
        let ns = vstd::array::array_as_slice(&names);
        assert(strs_view(ns@) =~= seq!["aState"@]);
        let args = no_args();
        let ghost av = pairs_view(args@);
        let r = call_text(transport, &self.control_url, &self.service_type, "TransportState", args, "TransportStateResponse", ns);
        proof {
            let reply = choose|reply: SoapCallResult| answered(*transport, request_view(self.control_url@, self.service_type@, "TransportState"@, av), reply) && agrees_text(r, spec_text_field(reply, "TransportStateResponse"@, strs_view(ns@)));
            assert(av =~= seq![]);
            assert(answered(*transport, self.request("TransportState"@, seq![]), reply));
        }
        r
    }
}

impl OhTimeClient {
    /// The request view of one of this service's actions.
    pub open spec fn request(&self, action: Seq<char>, args: Seq<(Seq<char>, Seq<char>)>) -> SoapRequestView {
        request_view(self.control_url@, self.service_type@, action, args)
    }

    /// A client for the given control URL and service type.
    pub fn new(control_url: String, service_type: String) -> (r: Self)
        ensures
            r.control_url == control_url,
            r.service_type == service_type,
    {
        Self { control_url, service_type }
    }

    /// A client for this service of a renderer, if it has one.
    pub fn from_renderer_info(info: &RendererInfo) -> (r: Result<Self, ControlPointError>)
        ensures
            r is Ok <==> (info.oh_time_control_url is Some && info.oh_time_service_type is Some),
            r matches Ok(c) ==> info.oh_time_control_url == Some(c.control_url)
                && info.oh_time_service_type == Some(c.service_type),
            r matches Err(e) ==> e is OpenHomeError,
    {
        let control_url = match info.oh_time_control_url() {
            Some(u) => u,
            None => {
                return Err(ControlPointError::OpenHomeError(msg("Cannot create time control client")));
            },
        };
        let service_type = match info.oh_time_service_type() {
            Some(s) => s,
            None => {
                return Err(ControlPointError::OpenHomeError(msg("Cannot create time service client")));
            },
        };
        Ok(Self::new(control_url, service_type))
    }

    /// `Time`: track count, duration and elapsed seconds.
    pub fn position<F: Fn(SoapRequest) -> SoapCallResult>(&self, transport: &F) -> (r: Result<OhTimePosition, ControlPointError>)
        requires
            transport_total(*transport),
        ensures
            exists|reply: SoapCallResult|
                answered(*transport, self.request("Time"@, seq![]), reply) && match r {
                    Ok(p) => spec_time(reply) == Some((p.track_count, p.duration_secs, p.elapsed_secs)),
                    Err(_) => spec_time(reply) is None,
                },
    {
        let args = no_args();
        let ghost av = pairs_view(args@);
        let reply = invoke(transport, &self.control_url, &self.service_type, "Time", args);
        let r = parse_time_position(&reply);
        proof {
            assert(av =~= seq![]);
            assert(answered(*transport, self.request("Time"@, seq![]), reply));
        }
        r
    }
}

impl OhVolumeClient {
    /// The request view of one of this service's actions.
    pub open spec fn request(&self, action: Seq<char>, args: Seq<(Seq<char>, Seq<char>)>) -> SoapRequestView {
        request_view(self.control_url@, self.service_type@, action, args)
    }

    /// A client for the given control URL and service type.
    pub fn new(control_url: String, service_type: String) -> (r: Self)
        ensures
            r.control_url == control_url,
            r.service_type == service_type,
    {
        Self { control_url, service_type }
    }

    /// A client for this service of a renderer, if it has one.
    pub fn from_renderer_info(info: &RendererInfo) -> (r: Result<Self, ControlPointError>)
        ensures
            r is Ok <==> (info.oh_volume_control_url is Some && info.oh_volume_service_type is Some),
            r matches Ok(c) ==> info.oh_volume_control_url == Some(c.control_url)
                && info.oh_volume_service_type == Some(c.service_type),
            r matches Err(e) ==> e is OpenHomeError,
    {
        let control_url = match info.oh_volume_control_url() {
            Some(u) => u,
            None => {
                return Err(ControlPointError::OpenHomeError(msg("Cannot create volume control client")));
            },
        };
        let service_type = match info.oh_volume_service_type() {
            Some(s) => s,
            None => {
                return Err(ControlPointError::OpenHomeError(msg("Cannot create volume service client")));
            },
        };
        Ok(Self::new(control_url, service_type))
    }

    /// `Volume`: the current volume, capped to the `u16` range.
    pub fn volume<F: Fn(SoapRequest) -> SoapCallResult>(&self, transport: &F) -> (r: Result<u16, ControlPointError>)
        requires
            transport_total(*transport),
        ensures
            exists|reply: SoapCallResult|
                answered(*transport, self.request("Volume"@, seq![]), reply) && agrees(r, spec_volume(reply)),
    {
        let names: [&str; 1] = ["Value"];
        let ns = vstd::array::array_as_slice(&names);
        assert(strs_view(ns@) =~= seq!["Value"@]);
        let args = no_args();
        let ghost av = pairs_view(args@);
        let v = call_u32(transport, &self.control_url, &self.service_type, "Volume", args, "VolumeResponse", ns);
        let r = match v {
            Ok(x) => Ok(if x > 65535 { 65535u16 } else { x as u16 }),
            Err(e) => Err(e),
        };
        proof {
            let reply = choose|reply: SoapCallResult| answered(*transport, request_view(self.control_url@, self.service_type@, "Volume"@, av), reply) && agrees(v, spec_u32_field(reply, "VolumeResponse"@, strs_view(ns@)));
            assert(av =~= seq![]);
            assert(answered(*transport, self.request("Volume"@, seq![]), reply));
        }
        r
    }

    /// `SetVolume`.
    pub fn set_volume<F: Fn(SoapRequest) -> SoapCallResult>(&self, transport: &F, vol: u16) -> (r: Result<(), ControlPointError>)
        requires
            transport_total(*transport),
        ensures
            exists|reply: SoapCallResult|
                answered(*transport, self.request("SetVolume"@, seq![("Value"@, dec(vol as nat))]), reply) && agrees_unit(r, spec_success(reply) is Some),
    {
        let reply = send(transport, self.set_volume_request(vol));
        handle_action_response("SetVolume", &reply)
    }

    /// The `SetVolume` request.
    pub fn set_volume_request(&self, vol: u16) -> (r: SoapRequest)
        ensures
            r@ == self.request("SetVolume"@, seq![("Value"@, dec(vol as nat))]),
    {
        let args = one_arg(num_arg("Value", vol as u64));
        assert(pairs_view(args@) =~= seq![("Value"@, dec(vol as nat))]);
        build_request(&self.control_url, &self.service_type, "SetVolume", args)
    }

    /// `Mute`: whether the renderer is muted.
    pub fn mute<F: Fn(SoapRequest) -> SoapCallResult>(&self, transport: &F) -> (r: Result<bool, ControlPointError>)
        requires
            transport_total(*transport),
        ensures
            exists|reply: SoapCallResult|
                answered(*transport, self.request("Mute"@, seq![]), reply) && agrees(r, spec_bool_field(reply, "MuteResponse"@, seq!["Value"@])),
    {
        let names: [&str; 1] = ["Value"];
        let ns = vstd::array::array_as_slice(&names);
        assert(strs_view(ns@) =~= seq!["Value"@]);
        let args = no_args();
        let ghost av = pairs_view(args@);
        let t = call_text(transport, &self.control_url, &self.service_type, "Mute", args, "MuteResponse", ns);
        let r = match &t {
            Ok(x) => parse_bool(x.as_str()),
            Err(e) => Err(e.clone()),
        };
        proof {
            let reply = choose|reply: SoapCallResult| answered(*transport, request_view(self.control_url@, self.service_type@, "Mute"@, av), reply) && agrees_text(t, spec_text_field(reply, "MuteResponse"@, strs_view(ns@)));
            assert(av =~= seq![]);
            assert(answered(*transport, self.request("Mute"@, seq![]), reply));
        }
        r
    }

    /// `SetMute`: `1` to mute, `0` to unmute.
    pub fn set_mute<F: Fn(SoapRequest) -> SoapCallResult>(&self, transport: &F, mute: bool) -> (r: Result<(), ControlPointError>)
        requires
            transport_total(*transport),
        ensures
            exists|reply: SoapCallResult|
                answered(*transport, self.request("SetMute"@, seq![("Value"@, if mute { "1"@ } else { "0"@ })]), reply)
                    && agrees_unit(r, spec_success(reply) is Some),
    {
        let reply = send(transport, self.set_mute_request(mute));
        handle_action_response("SetMute", &reply)
    }

    /// The `SetMute` request.
    pub fn set_mute_request(&self, mute: bool) -> (r: SoapRequest)
        ensures
            r@ == self.request("SetMute"@, seq![("Value"@, if mute { "1"@ } else { "0"@ })]),
    {
        let args = one_arg(text_arg("Value", if mute { "1" } else { "0" }));
        assert(pairs_view(args@) =~= seq![("Value"@, if mute { "1"@ } else { "0"@ })]);
        build_request(&self.control_url, &self.service_type, "SetMute", args)
    }
}

impl OhRadioClient {
    /// The request view of one of this service's actions.
    pub open spec fn request(&self, action: Seq<char>, args: Seq<(Seq<char>, Seq<char>)>) -> SoapRequestView {
        request_view(self.control_url@, self.service_type@, action, args)
    }

    /// A client for the given control URL and service type.
    pub fn new(control_url: String, service_type: String) -> (r: Self)
        ensures
            r.control_url == control_url,
            r.service_type == service_type,
    {
        Self { control_url, service_type }
    }

    /// A client for this service of a renderer, if it has one.
    pub fn from_renderer_info(info: &RendererInfo) -> (r: Result<Self, ControlPointError>)
        ensures
            r is Ok <==> (info.oh_radio_control_url is Some && info.oh_radio_service_type is Some),
            r matches Ok(c) ==> info.oh_radio_control_url == Some(c.control_url)
                && info.oh_radio_service_type == Some(c.service_type),
            r matches Err(e) ==> e is OpenHomeError,
    {
        let control_url = match info.oh_radio_control_url() {
            Some(u) => u,
            None => {
                return Err(ControlPointError::OpenHomeError(msg("Cannot create radio control client")));
            },
        };
        let service_type = match info.oh_radio_service_type() {
            Some(s) => s,
            None => {
                return Err(ControlPointError::OpenHomeError(msg("Cannot create radio service client")));
            },
        };
        Ok(Self::new(control_url, service_type))
    }

    /// `PlayChannel`.
    pub fn play_channel<F: Fn(SoapRequest) -> SoapCallResult>(&self, transport: &F, id: u32) -> (r: Result<(), ControlPointError>)
        requires
            transport_total(*transport),
        ensures
            exists|reply: SoapCallResult|
                answered(*transport, self.request("PlayChannel"@, seq![("Id"@, dec(id as nat))]), reply) && agrees_unit(r, spec_success(reply) is Some),
    {
        let reply = send(transport, self.play_channel_request(id));
        handle_action_response("PlayChannel", &reply)
    }

    /// The `PlayChannel` request.
    pub fn play_channel_request(&self, id: u32) -> (r: SoapRequest)
        ensures
            r@ == self.request("PlayChannel"@, seq![("Id"@, dec(id as nat))]),
    {
        let args = one_arg(num_arg("Id", id as u64));
        assert(pairs_view(args@) =~= seq![("Id"@, dec(id as nat))]);
        build_request(&self.control_url, &self.service_type, "PlayChannel", args)
    }

    /// `Channel`: the URI and metadata of a channel.
    pub fn channel<F: Fn(SoapRequest) -> SoapCallResult>(&self, transport: &F, id: u32) -> (r: Result<OhRadioChannel, ControlPointError>)
        requires
            transport_total(*transport),
        ensures
            exists|reply: SoapCallResult|
                answered(*transport, self.request("Channel"@, seq![("Id"@, dec(id as nat))]), reply) && match r {
                    Ok(c) => spec_uri_meta(reply, "ChannelResponse"@, seq!["Uri"@, "Value"@]) == Some((c.uri@, opt_view(&c.metadata_xml))),
                    Err(_) => spec_uri_meta(reply, "ChannelResponse"@, seq!["Uri"@, "Value"@]) is None,
                },
    {
        let names: [&str; 2] = ["Uri", "Value"];
        let ns = vstd::array::array_as_slice(&names);
        assert(strs_view(ns@) =~= seq!["Uri"@, "Value"@]);
        let args = one_arg(num_arg("Id", id as u64));
        let ghost av = pairs_view(args@);
        let reply = invoke(transport, &self.control_url, &self.service_type, "Channel", args);
        let r = match uri_meta_field("Channel", &reply, "ChannelResponse", ns) {
            Ok((uri, metadata_xml)) => Ok(OhRadioChannel { uri, metadata_xml }),
            Err(e) => Err(e),
        };
        proof {
            assert(av =~= seq![("Id"@, dec(id as nat))]);
            assert(answered(*transport, self.request("Channel"@, seq![("Id"@, dec(id as nat))]), reply));
        }
        r
    }
}

} // verus!

verus! {

/// The `Visible` flag of a source: anything but `0` or `false` shows it.
pub open spec fn spec_visible_flag(t: Seq<char>) -> bool {
    !(t == "0"@ || t == "false"@)
}

/// Reads a `Visible` flag.
pub fn parse_visible_flag(value: &str) -> (r: bool)
    ensures
        r == spec_visible_flag(value@),
{
    let cs = str_chars(value);
    let zero = str_chars("0");
    let f = str_chars("false");
    !(crate::text::chars_eq(cs.as_slice(), zero.as_slice()) || crate::text::chars_eq(cs.as_slice(), f.as_slice()))
}

/// Sources listed by the element children named `...Source`, from child `i` on.
pub open spec fn spec_sources_from(ch: Seq<crate::xml::XmlElement>, i: int) -> Option<Seq<(Seq<char>, Seq<char>, bool)>>
    decreases ch.len() - i,
{
    if i < 0 || i >= ch.len() {
        Some(Seq::empty())
    } else if crate::text::seq_ends_with(ch[i].name@, "Source"@) {
        match (crate::xml::spec_child_text(ch[i], "Name"@), crate::xml::spec_child_text(ch[i], "Type"@), spec_sources_from(ch, i + 1)) {
            (Some(n), Some(t), Some(rest)) => Some(
                seq![(n, t, match spec_child_text_optional(ch[i], "Visible"@) {
                    Some(v) => spec_visible_flag(v),
                    None => true,
                })] + rest,
            ),
            _ => None,
        }
    } else {
        spec_sources_from(ch, i + 1)
    }
}

/// The sources of a `SourceXml` document; empty text gives no source.
pub open spec fn spec_source_list(xml: Seq<char>) -> Option<Seq<(Seq<char>, Seq<char>, bool)>> {
    if trim_seq(xml).len() == 0 {
        Some(Seq::empty())
    } else {
        match crate::xml::xml_document(xml) {
            Some(root) => spec_sources_from(root.children@, 0),
            None => None,
        }
    }
}

/// Views of a list of sources.
pub open spec fn sources_view(s: Seq<OhProductSource>) -> Seq<(Seq<char>, Seq<char>, bool)> {
    s.map_values(|x: OhProductSource| (x.name@, x.source_type@, x.visible))
}

/// Parses the source list of an OpenHome product.
pub fn parse_product_source_list(xml: &str) -> (r: Result<Vec<OhProductSource>, ControlPointError>)
    ensures
        match r {
            Ok(v) => spec_source_list(xml@) == Some(sources_view(v@)),
            Err(_) => spec_source_list(xml@) is None,
        },
{
    let cs = str_chars(xml);
    let t = crate::text::trim_chars(cs.as_slice());
    if t.len() == 0 {
        let v: Vec<OhProductSource> = Vec::new();
        assert(sources_view(v@) =~= Seq::empty());
        return Ok(v);
    }
    let root = match crate::xml::parse_xml_document(xml) {
        Some(r) => r,
        None => {
            return Err(ControlPointError::OpenHomeError(msg("Failed to parse OpenHome SourceXml payload")));
        },
    };
    let sfx = str_chars("Source");
    let mut out: Vec<OhProductSource> = Vec::new();
    let mut i: usize = 0;
    while i < root.children.len()
        invariant
            sfx@ == "Source"@,
            crate::xml::xml_document(xml@) == Some(root),
            trim_seq(xml@).len() != 0,
            i <= root.children@.len(),
            spec_sources_from(root.children@, 0) == match spec_sources_from(root.children@, i as int) {
                Some(rest) => Some(sources_view(out@) + rest),
                None => None,
            },
        decreases root.children@.len() - i,
    {
        let child = &root.children[i];
        let name = str_chars(child.name.as_str());
        if crate::text::ends_with_chars(name.as_slice(), sfx.as_slice()) {
            let n = match crate::xml::extract_child_text(child, "Name") {
                Ok(n) => n,
                Err(e) => {
                    assert(spec_sources_from(root.children@, i as int) is None);
                    return Err(e);
                },
            };
            let ty = match crate::xml::extract_child_text(child, "Type") {
                Ok(t) => t,
                Err(e) => {
                    assert(spec_sources_from(root.children@, i as int) is None);
                    return Err(e);
                },
            };
            let visible = match extract_child_text_optional(child, "Visible") {
                Ok(Some(v)) => parse_visible_flag(v.as_str()),
                _ => true,
            };
            let ghost before = sources_view(out@);
            out.push(OhProductSource { name: n, source_type: ty, visible });
            proof {
                assert(sources_view(out@) =~= before.push((n@, ty@, visible)));
                match spec_sources_from(root.children@, i + 1) {
                    Some(rest) => {
                        assert(before + (seq![(n@, ty@, visible)] + rest) =~= before.push((n@, ty@, visible)) + rest);
                    },
                    None => {},
                }
            }
        }
        i = i + 1;
    }
    assert(sources_view(out@) + Seq::<(Seq<char>, Seq<char>, bool)>::empty() =~= sources_view(out@));
    Ok(out)
}

/// The sources of a `SourceXml` reply.
pub open spec fn spec_source_xml(reply: SoapCallResult) -> Option<Seq<(Seq<char>, Seq<char>, bool)>> {
    match spec_text_field(reply, "SourceXmlResponse"@, seq!["SourceXml"@, "Xml"@, "Value"@]) {
        Some(t) => spec_source_list(t),
        None => None,
    }
}

/// A source whose type is `playlist` in any ASCII case.
pub open spec fn is_playlist_source(s: (Seq<char>, Seq<char>, bool)) -> bool {
    crate::text::ascii_upper_seq(s.1) == crate::text::ascii_upper_seq("playlist"@)
}

/// Index of the first playlist source.
pub open spec fn first_playlist_source(s: Seq<(Seq<char>, Seq<char>, bool)>, i: int) -> Option<int>
    decreases s.len() - i,
{
    if i < 0 || i >= s.len() {
        None
    } else if is_playlist_source(s[i]) {
        Some(i)
    } else {
        first_playlist_source(s, i + 1)
    }
}

/// Whether selecting the playlist source, by the answers the renderer gave,
/// ends in success (`ok`) or failure: the `SourceXml` answer lists the
/// sources (no listing, or no playlist source, is a failure); the
/// `SourceIndex` answer gives the selected one (none readable is a
/// failure); when another source is selected, the `SetSourceIndex` answer
/// decides.
pub open spec fn source_selection<F: Fn(SoapRequest) -> SoapCallResult>(t: F, c: OhProductClient, ok: bool) -> bool {
    exists|rx: SoapCallResult|
        #[trigger] answered(t, c.request("SourceXml"@, seq![]), rx) && match spec_source_xml(rx) {
            None => !ok,
            Some(s) => match first_playlist_source(s, 0) {
                None => !ok,
                Some(idx) => if idx > u32::MAX {
                    !ok
                } else {
                    exists|ri: SoapCallResult|
                        #[trigger] answered(t, c.request("SourceIndex"@, seq![]), ri) && match spec_u32_field(
                            ri,
                            "SourceIndexResponse"@,
                            seq!["Index"@, "Value"@],
                        ) {
                            None => !ok,
                            Some(cur) => if cur == idx {
                                ok
                            } else {
                                exists|rs: SoapCallResult|
                                    #[trigger] answered(t, c.request("SetSourceIndex"@, seq![("Index"@, dec(idx as nat))]), rs)
                                        && ok == (spec_success(rs) is Some)
                            },
                        }
                },
            },
        }
}

/// ASCII case-insensitive equality.
pub fn eq_ignore_ascii_case(a: &str, b: &str) -> (r: bool)
    ensures
        r == (crate::text::ascii_upper_seq(a@) == crate::text::ascii_upper_seq(b@)),
{
    let ac = str_chars(a);
    let bc = str_chars(b);
    let au = crate::text::ascii_upper_chars(ac.as_slice());
    let bu = crate::text::ascii_upper_chars(bc.as_slice());
    crate::text::chars_eq(au.as_slice(), bu.as_slice())
}

impl OhProductClient {
    /// The request view of one of this service's actions.
    pub open spec fn request(&self, action: Seq<char>, args: Seq<(Seq<char>, Seq<char>)>) -> SoapRequestView {
        request_view(self.control_url@, self.service_type@, action, args)
    }

    /// A client for the given control URL and service type.
    pub fn new(control_url: String, service_type: String) -> (r: Self)
        ensures
            r.control_url == control_url,
            r.service_type == service_type,
    {
        Self { control_url, service_type }
    }

    /// A client for this service of a renderer, if it has one.
    pub fn from_renderer_info(info: &RendererInfo) -> (r: Result<Self, ControlPointError>)
        ensures
            r is Ok <==> (info.oh_product_control_url is Some && info.oh_product_service_type is Some),
            r matches Ok(c) ==> info.oh_product_control_url == Some(c.control_url)
                && info.oh_product_service_type == Some(c.service_type),
            r matches Err(e) ==> e is OpenHomeError,
    {
        let control_url = match info.oh_product_control_url() {
            Some(u) => u,
            None => {
                return Err(ControlPointError::OpenHomeError(msg("Cannot create product control client")));
            },
        };
        let service_type = match info.oh_product_service_type() {
            Some(s) => s,
            None => {
                return Err(ControlPointError::OpenHomeError(msg("Cannot create product service client")));
            },
        };
        Ok(Self::new(control_url, service_type))
    }

    /// `SourceXml`: the sources of the product.
    pub fn source_xml<F: Fn(SoapRequest) -> SoapCallResult>(&self, transport: &F) -> (r: Result<Vec<OhProductSource>, ControlPointError>)
        requires
            transport_total(*transport),
        ensures
            exists|reply: SoapCallResult|
                answered(*transport, self.request("SourceXml"@, seq![]), reply) && match r {
                    Ok(v) => spec_source_xml(reply) == Some(sources_view(v@)),
                    Err(_) => spec_source_xml(reply) is None,
                },
    {
        let names: [&str; 3] = ["SourceXml", "Xml", "Value"];
        let ns = vstd::array::array_as_slice(&names);
        assert(strs_view(ns@) =~= seq!["SourceXml"@, "Xml"@, "Value"@]);
        let args = no_args();
        let ghost av = pairs_view(args@);
        let t = call_text(transport, &self.control_url, &self.service_type, "SourceXml", args, "SourceXmlResponse", ns);
        let r = match &t {
            Ok(x) => parse_product_source_list(x.as_str()),
            Err(e) => Err(e.clone()),
        };
        proof {
            let reply = choose|reply: SoapCallResult| answered(*transport, request_view(self.control_url@, self.service_type@, "SourceXml"@, av), reply) && agrees_text(t, spec_text_field(reply, "SourceXmlResponse"@, strs_view(ns@)));
            assert(av =~= seq![]);
            assert(answered(*transport, self.request("SourceXml"@, seq![]), reply));
        }
        r
    }

    /// `SourceIndex`: the index of the selected source.
    pub fn source_index<F: Fn(SoapRequest) -> SoapCallResult>(&self, transport: &F) -> (r: Result<u32, ControlPointError>)
        requires
            transport_total(*transport),
        ensures
            exists|reply: SoapCallResult|
                answered(*transport, self.request("SourceIndex"@, seq![]), reply) && agrees(r, spec_u32_field(reply, "SourceIndexResponse"@, seq!["Index"@, "Value"@])),
    {
        let names: [&str; 2] = ["Index", "Value"];
        let ns = vstd::array::array_as_slice(&names);
        assert(strs_view(ns@) =~= seq!["Index"@, "Value"@]);
        let args = no_args();
        let ghost av = pairs_view(args@);
        let r = call_u32(transport, &self.control_url, &self.service_type, "SourceIndex", args, "SourceIndexResponse", ns);
        proof {
            let reply = choose|reply: SoapCallResult| answered(*transport, request_view(self.control_url@, self.service_type@, "SourceIndex"@, av), reply) && agrees(r, spec_u32_field(reply, "SourceIndexResponse"@, strs_view(ns@)));
            assert(av =~= seq![]);
            assert(answered(*transport, self.request("SourceIndex"@, seq![]), reply));
        }
        r
    }

    /// `SetSourceIndex`.
    pub fn set_source_index<F: Fn(SoapRequest) -> SoapCallResult>(&self, transport: &F, index: u32) -> (r: Result<(), ControlPointError>)
        requires
            transport_total(*transport),
        ensures
            exists|reply: SoapCallResult|
                answered(*transport, self.request("SetSourceIndex"@, seq![("Index"@, dec(index as nat))]), reply) && agrees_unit(r, spec_success(reply) is Some),
    {
        let a0 = num_arg("Index", index as u64);
        let args = one_arg(a0);
        let ghost av = pairs_view(args@);
        let r = call_unit(transport, &self.control_url, &self.service_type, "SetSourceIndex", args);
        proof {
            let reply = choose|reply: SoapCallResult| answered(*transport, request_view(self.control_url@, self.service_type@, "SetSourceIndex"@, av), reply) && agrees_unit(r, spec_success(reply) is Some);
            assert(av =~= seq![("Index"@, dec(index as nat))]);
            assert(answered(*transport, self.request("SetSourceIndex"@, seq![("Index"@, dec(index as nat))]), reply));
        }
        r
    }

    /// Makes the playlist source the selected one: reads the sources, fails
    /// when none is a playlist, and selects it when another source is
    /// selected.
    pub fn ensure_playlist_source_selected<F: Fn(SoapRequest) -> SoapCallResult>(&self, transport: &F) -> (r: Result<(), ControlPointError>)
        requires
            transport_total(*transport),
        ensures
            r is Ok ==> exists|reply: SoapCallResult|
                answered(*transport, self.request("SourceXml"@, seq![]), reply) && (spec_source_xml(reply) matches Some(s)
                    && first_playlist_source(s, 0) is Some),
            r matches Err(ControlPointError::OpenHomeNoPlaylistEntry()) ==> exists|reply: SoapCallResult|
                answered(*transport, self.request("SourceXml"@, seq![]), reply) && (spec_source_xml(reply) matches Some(s)
                    && first_playlist_source(s, 0) is None),
            source_selection(*transport, *self, r is Ok),
    {
        let listed = self.source_xml(transport);
        let ghost reply0 = choose|reply: SoapCallResult|
            answered(*transport, self.request("SourceXml"@, seq![]), reply) && match listed {
                Ok(v) => spec_source_xml(reply) == Some(sources_view(v@)),
                Err(_) => spec_source_xml(reply) is None,
            };
        let sources = match listed {
            Ok(s) => s,
            Err(e) => {
                proof {
                    assert(answered(*transport, self.request("SourceXml"@, seq![]), reply0));
                }
                return Err(ControlPointError::SoapAction(e.message()));
            },
        };
        let ghost sv = sources_view(sources@);
        let mut idx: usize = 0;
        let mut found = false;
        while !found && idx < sources.len()
            invariant
                sv == sources_view(sources@),
                idx <= sources@.len(),
                first_playlist_source(sv, 0) == first_playlist_source(sv, idx as int),
                found ==> idx < sources@.len() && is_playlist_source(sv[idx as int]),
            decreases sources@.len() - idx, (if found { 0int } else { 1int }),
        {
            assert(sv[idx as int] == (sources@[idx as int].name@, sources@[idx as int].source_type@, sources@[idx as int].visible));
            if eq_ignore_ascii_case(sources[idx].source_type.as_str(), "playlist") {
                found = true;
            } else {
                idx = idx + 1;
            }
        }
        if !found {
            proof {
                assert(first_playlist_source(sv, idx as int) is None);
                assert(answered(*transport, self.request("SourceXml"@, seq![]), reply0));
            }
            return Err(ControlPointError::OpenHomeNoPlaylistEntry());
        }
        proof {
            assert(first_playlist_source(sv, idx as int) is Some);
            assert(answered(*transport, self.request("SourceXml"@, seq![]), reply0));
        }
        if idx > u32::MAX as usize {
            return Err(ControlPointError::OpenHomeError(msg("playlist source index out of range")));
        }
        let playlist_index = idx as u32;
        let read_index = self.source_index(transport);
        let ghost ri = choose|reply: SoapCallResult|
            answered(*transport, self.request("SourceIndex"@, seq![]), reply) && agrees(
                read_index,
                spec_u32_field(reply, "SourceIndexResponse"@, seq!["Index"@, "Value"@]),
            );
        assert(answered(*transport, self.request("SourceIndex"@, seq![]), ri));
        let current_index = match read_index {
            Ok(c) => c,
            Err(e) => {
                return Err(ControlPointError::SoapAction(e.message()));
            },
        };
        if current_index != playlist_index {
            let set = self.set_source_index(transport, playlist_index);
            let ghost rs = choose|reply: SoapCallResult|
                answered(*transport, self.request("SetSourceIndex"@, seq![("Index"@, dec(playlist_index as nat))]), reply)
                    && agrees_unit(set, spec_success(reply) is Some);
            assert(answered(*transport, self.request("SetSourceIndex"@, seq![("Index"@, dec(idx as nat))]), rs));
            match set {
                Ok(()) => {},
                Err(e) => {
                    return Err(ControlPointError::SoapAction(e.message()));
                },
            }
            let _new_index = self.source_index(transport);
        }
        Ok(())
    }
}

} // verus!
