//! A renderer driven through its OpenHome services (Playlist, Info, Time,
//! Volume, Product, Radio). Every operation goes through the service that
//! offers it and fails when the renderer lacks that service. The SOAP
//! exchanges go through the transport the caller hands in.
use crate::error::{msg, ControlPointError};
use crate::model::{PlaybackState, RendererInfo};
use crate::openhome::{
    build_info_client, build_playlist_client, build_product_client, build_radio_client, build_time_client,
    build_volume_client,
};
use crate::queue::music_queue::MusicQueue;
use crate::music_renderer::capabilities::PlaybackPositionInfo;
use crate::music_renderer::time_utils::{
    flexible_fits, format_hhmmss_u32, hhmmss, parse_time_flexible, spec_parse_time_flexible,
};
use crate::soap::{
    agrees, agrees_unit, answered, spec_success, spec_text_field, spec_u32_field, transport_total, SoapCallResult, SoapRequest, SoapRequestView,
};
use crate::text::{ascii_upper_chars, ascii_upper_seq, chars_eq_str, dec, str_chars, string_from_chars, trim_chars, trim_seq};
use crate::upnp_clients::openhome_client::{
    first_playlist_source, source_selection, spec_bool_field, spec_id_array, spec_source_xml, spec_time, spec_volume, OhInfoClient, OhPlaylistClient,
    OhProductClient, OhRadioClient, OhTimeClient, OhVolumeClient, OPENHOME_PLAYLIST_HEAD_ID,
};
use crate::queue::openhome_queue::{last_or_head, listed, OpenHomeQueue};
use vstd::prelude::*;

verus! {

/// A request was answered with a success.
pub open spec fn succeeded<F: Fn(SoapRequest) -> SoapCallResult>(t: F, req: SoapRequestView) -> bool {
    exists|reply: SoapCallResult| answered(t, req, reply) && spec_success(reply) is Some
}

/// The playlist source is (or may be made) the selected one: no Product
/// service, or its source list holds a playlist source.
pub open spec fn playlist_ready<F: Fn(SoapRequest) -> SoapCallResult>(p: Option<OhProductClient>, t: F) -> bool {
    match p {
        None => true,
        Some(c) => exists|reply: SoapCallResult|
            answered(t, c.request("SourceXml"@, seq![]), reply) && (spec_source_xml(reply) matches Some(s)
                && first_playlist_source(s, 0) is Some),
    }
}

/// What an operation through the Playlist service gives, given the Product
/// service `prod`: without one, `then` holds; with one, either selecting
/// the playlist source failed and so did the operation (`failed`), or it
/// succeeded and `then` holds.
pub open spec fn after_selection<F: Fn(SoapRequest) -> SoapCallResult>(
    t: F,
    prod: Option<OhProductClient>,
    failed: bool,
    then: bool,
) -> bool {
    match prod {
        None => then,
        Some(c) => (source_selection(t, c, false) && failed) || (source_selection(t, c, true) && then),
    }
}

/// The track `uri`/`meta` was inserted after the track `after` and, when
/// `play`, sought to; `r` is the new id, or an error when the insertion gave
/// no new id or the seek failed.
pub open spec fn insert_then<F: Fn(SoapRequest) -> SoapCallResult>(
    t: F,
    p: OhPlaylistClient,
    uri: Seq<char>,
    meta: Seq<char>,
    after: u32,
    play: bool,
    r: Result<u32, ControlPointError>,
) -> bool {
    exists|ri: SoapCallResult|
        answered(t, p.request("Insert"@, seq![("AfterId"@, dec(after as nat)), ("Uri"@, uri), ("Metadata"@, meta)]), ri)
            && match spec_u32_field(ri, "InsertResponse"@, seq!["NewId"@, "Value"@]) {
            None => r is Err,
            Some(id) => if play {
                exists|rs: SoapCallResult|
                    answered(t, p.request("SeekId"@, seq![("Value"@, dec(id as nat))]), rs) && if spec_success(
                        rs,
                    ) is Some {
                        r == Ok::<u32, ControlPointError>(id)
                    } else {
                        r is Err
                    }
            } else {
                r == Ok::<u32, ControlPointError>(id)
            },
        }
}

/// The track `uri`/`meta` was added after `after_id`, or, when absent,
/// after the last track that `IdArray` listed (at the head of an empty
/// playlist; no listing is a failure); see [`insert_then`].
pub open spec fn track_added<F: Fn(SoapRequest) -> SoapCallResult>(
    t: F,
    p: OhPlaylistClient,
    uri: Seq<char>,
    meta: Seq<char>,
    after_id: Option<u32>,
    play: bool,
    r: Result<u32, ControlPointError>,
) -> bool {
    match after_id {
        Some(a) => insert_then(t, p, uri, meta, a, play, r),
        None => exists|rl: SoapCallResult|
            #[trigger] answered(t, p.request("IdArray"@, seq![]), rl) && match spec_id_array(rl) {
                None => r is Err,
                Some(ids) => insert_then(t, p, uri, meta, last_or_head(ids), play, r),
            },
    }
}

/// A service declared by its control URL and service type.
pub open spec fn declared(url: Option<String>, service_type: Option<String>) -> bool {
    url is Some && service_type is Some
}

/// The description declares one of the Playlist, Info, Time and Volume
/// services.
pub open spec fn declares_openhome(info: RendererInfo) -> bool {
    ||| declared(info.oh_playlist_control_url, info.oh_playlist_service_type)
    ||| declared(info.oh_info_control_url, info.oh_info_service_type)
    ||| declared(info.oh_time_control_url, info.oh_time_service_type)
    ||| declared(info.oh_volume_control_url, info.oh_volume_service_type)
}

/// The queue for a renderer can be built from its description: it has no
/// Playlist service, or declares it.
pub open spec fn queue_buildable(info: RendererInfo) -> bool {
    !info.capabilities.has_oh_playlist || declared(info.oh_playlist_control_url, info.oh_playlist_service_type)
}

/// `st` is the canonical state of the raw transport state `raw` (see
/// [`map_openhome_state`]).
pub open spec fn state_read(st: PlaybackState, raw: Seq<char>) -> bool {
    match st {
        PlaybackState::Unknown(s) => s@ == ascii_upper_seq(trim_seq(raw)) && spec_openhome_state(raw) is Unknown,
        _ => st == spec_openhome_state(raw),
    }
}

/// Number of ids of an optional list.
pub open spec fn id_count(ids: Option<Seq<u32>>) -> Option<nat> {
    match ids {
        Some(s) => Some(s.len()),
        None => None,
    }
}

/// The error for an operation that the renderer's services do not offer.
pub open spec fn not_supported<T>(r: Result<T, ControlPointError>, op: Seq<char>, service: Seq<char>) -> bool {
    r matches Err(ControlPointError::UpnpOperationNotSupported(o, s)) && o@ == op && s@ == service
}

/// The canonical state named by an OpenHome transport state (trimmed,
/// case-insensitive).
pub open spec fn spec_openhome_state(raw: Seq<char>) -> PlaybackState {
    let u = ascii_upper_seq(trim_seq(raw));
    if u == "PLAYING"@ {
        PlaybackState::Playing
    } else if u == "PAUSED"@ || u == "PAUSED_PLAYBACK"@ {
        PlaybackState::Paused
    } else if u == "STOPPED"@ {
        PlaybackState::Stopped
    } else if u == "BUFFERING"@ || u == "TRANSITIONING"@ {
        PlaybackState::Transitioning
    } else {
        PlaybackState::Unknown(arbitrary())
    }
}

/// Maps an OpenHome transport state to the canonical state; an unknown
/// state keeps its trimmed, upper-cased text.
pub fn map_openhome_state(raw: &str) -> (r: PlaybackState)
    ensures
        match r {
            PlaybackState::Unknown(s) => s@ == ascii_upper_seq(trim_seq(raw@)) && spec_openhome_state(raw@) is Unknown,
            _ => r == spec_openhome_state(raw@),
        },
{
    let cs = str_chars(raw);
    let t = trim_chars(cs.as_slice());
    let u = ascii_upper_chars(t.as_slice());
    let us = u.as_slice();
    if chars_eq_str(us, "PLAYING") {
        PlaybackState::Playing
    } else if chars_eq_str(us, "PAUSED") || chars_eq_str(us, "PAUSED_PLAYBACK") {
        PlaybackState::Paused
    } else if chars_eq_str(us, "STOPPED") {
        PlaybackState::Stopped
    } else if chars_eq_str(us, "BUFFERING") || chars_eq_str(us, "TRANSITIONING") {
        PlaybackState::Transitioning
    } else {
        PlaybackState::Unknown(string_from_chars(us))
    }
}

/// `HH:MM:SS` rendering of a number of seconds.
pub fn format_seconds(seconds: u32) -> (r: String)
    ensures
        r@ == hhmmss(seconds as nat),
{
    format_hhmmss_u32(seconds)
}

/// Seconds of an `HH:MM:SS`, `MM:SS` or `SS` text; `None` when it does not
/// read as one.
pub fn parse_hms(input: &str) -> (r: Option<u32>)
    requires
        flexible_fits(input@),
    ensures
        match r {
            Some(v) => spec_parse_time_flexible(input@) == Some(v as int),
            None => spec_parse_time_flexible(input@) is None,
        },
{
    match parse_time_flexible(input) {
        Ok(v) => Some(v),
        Err(_) => None,
    }
}

/// A renderer driven through its OpenHome services.
#[derive(Clone, Debug)]
pub struct OpenHomeRenderer {
    playlist: Option<OhPlaylistClient>,
    info_client: Option<OhInfoClient>,
    time_client: Option<OhTimeClient>,
    volume_client: Option<OhVolumeClient>,
    product_client: Option<OhProductClient>,
    radio_client: Option<OhRadioClient>,
}

impl OpenHomeRenderer {
    /// The Playlist service client.
    pub closed spec fn playlist_view(&self) -> Option<OhPlaylistClient> {
        self.playlist
    }

    /// The Info service client.
    pub closed spec fn info_view(&self) -> Option<OhInfoClient> {
        self.info_client
    }

    /// The Time service client.
    pub closed spec fn time_view(&self) -> Option<OhTimeClient> {
        self.time_client
    }

    /// The Volume service client.
    pub closed spec fn volume_view(&self) -> Option<OhVolumeClient> {
        self.volume_client
    }

    /// The Product service client.
    pub closed spec fn product_view(&self) -> Option<OhProductClient> {
        self.product_client
    }

    /// The Radio service client.
    pub closed spec fn radio_view(&self) -> Option<OhRadioClient> {
        self.radio_client
    }

    /// A renderer with the given service clients.
    pub fn new(
        playlist: Option<OhPlaylistClient>,
        info_client: Option<OhInfoClient>,
        time_client: Option<OhTimeClient>,
        volume_client: Option<OhVolumeClient>,
        product_client: Option<OhProductClient>,
        radio_client: Option<OhRadioClient>,
    ) -> (r: Self)
        ensures
            r.playlist_view() == playlist,
            r.info_view() == info_client,
            r.time_view() == time_client,
            r.volume_view() == volume_client,
            r.product_view() == product_client,
            r.radio_view() == radio_client,
    {
        OpenHomeRenderer { playlist, info_client, time_client, volume_client, product_client, radio_client }
    }

    /// Whether the renderer offers the Playlist service.
    pub fn has_playlist(&self) -> (r: bool)
        ensures
            r == self.playlist_view() is Some,
    {
        self.playlist.is_some()
    }

    /// Whether the renderer offers the Info service.
    pub fn has_info(&self) -> (r: bool)
        ensures
            r == self.info_view() is Some,
    {
        self.info_client.is_some()
    }

    /// Whether the renderer offers the Time service.
    pub fn has_time(&self) -> (r: bool)
        ensures
            r == self.time_view() is Some,
    {
        self.time_client.is_some()
    }

    /// Whether the renderer offers the Volume service.
    pub fn has_volume(&self) -> (r: bool)
        ensures
            r == self.volume_view() is Some,
    {
        self.volume_client.is_some()
    }

    /// Whether the renderer offers any of the Playlist, Info, Time and
    /// Volume services.
    pub fn has_any_openhome_service(&self) -> (r: bool)
        ensures
            r == (self.playlist_view() is Some || self.info_view() is Some || self.time_view() is Some
                || self.volume_view() is Some),
    {
        self.has_playlist() || self.has_info() || self.has_time() || self.has_volume()
    }

    /// The renderer a description declares, with the queue kept for it (its
    /// OpenHome playlist, or a local queue). The queue is built first, and
    /// its failure is the answer; a renderer that declares none of the
    /// Playlist, Info, Time and Volume services is refused with
    /// `OpenHomeNotAValidDevice`, whose text is `DeviceId("<id>")`.
    pub fn from_renderer_info(info: &RendererInfo) -> (r: Result<(OpenHomeRenderer, MusicQueue), ControlPointError>)
        ensures
            !queue_buildable(*info) ==> r is Err,
            queue_buildable(*info) && !declares_openhome(*info) ==> (r matches Err(
                ControlPointError::OpenHomeNotAValidDevice(m),
            ) && m@ == "DeviceId(\""@ + info.id.0@ + "\")"@),
            queue_buildable(*info) && declares_openhome(*info) ==> (r matches Ok((rend, _)) && rend.product_view() is Some
                == declared(info.oh_product_control_url, info.oh_product_service_type) && rend.radio_view() is Some
                == declared(info.oh_radio_control_url, info.oh_radio_service_type) && (rend.playlist_view() matches Some(c)
                ==> info.oh_playlist_control_url == Some(c.control_url) && info.oh_playlist_service_type == Some(
                c.service_type,
            )) && rend.playlist_view() is Some == declared(info.oh_playlist_control_url, info.oh_playlist_service_type)
                && rend.info_view() is Some == declared(info.oh_info_control_url, info.oh_info_service_type)
                && rend.time_view() is Some == declared(info.oh_time_control_url, info.oh_time_service_type)
                && rend.volume_view() is Some == declared(info.oh_volume_control_url, info.oh_volume_service_type)),
    {
        let queue = match MusicQueue::from_renderer_info(info) {
            Ok(q) => q,
            Err(e) => {
                return Err(e);
            },
        };
        let renderer = OpenHomeRenderer::new(
            build_playlist_client(info),
            build_info_client(info),
            build_time_client(info),
            build_volume_client(info),
            build_product_client(info),
            build_radio_client(info),
        );
        if renderer.has_any_openhome_service() {
            Ok((renderer, queue))
        } else {
            let mut text: Vec<char> = Vec::new();
            crate::didl::push_text(&mut text, "DeviceId(\"");
            crate::didl::push_text(&mut text, info.id.0.as_str());
            crate::didl::push_text(&mut text, "\")");
            Err(ControlPointError::OpenHomeNotAValidDevice(string_from_chars(text.as_slice())))
        }
    }

    /// Makes the playlist source the selected one when the renderer has a
    /// Product service.
    pub fn ensure_playlist_source_selected<F: Fn(SoapRequest) -> SoapCallResult>(&self, transport: &F) -> (r: Result<(), ControlPointError>)
        requires
            transport_total(*transport),
        ensures
            self.product_view() is None ==> r is Ok,
            r is Ok ==> playlist_ready(self.product_view(), *transport),
            self.product_view() matches Some(c) ==> source_selection(*transport, c, r is Ok),
    {
        match &self.product_client {
            Some(product) => product.ensure_playlist_source_selected(transport),
            None => Ok(()),
        }
    }

    /// The Playlist client for an operation, with the playlist source
    /// selected.
    fn playlist_client_for<F: Fn(SoapRequest) -> SoapCallResult>(&self, transport: &F, op: &str) -> (r: Result<&OhPlaylistClient, ControlPointError>)
        requires
            transport_total(*transport),
        ensures
            self.playlist_view() is None ==> not_supported(r, op@, "OpenHome Playlist"@),
            r matches Ok(c) ==> self.playlist_view() == Some(*c) && playlist_ready(self.product_view(), *transport),
            self.playlist_view() matches Some(c) ==> after_selection(
                *transport,
                self.product_view(),
                r is Err,
                r == Ok::<&OhPlaylistClient, ControlPointError>(&c),
            ),
    {
        let playlist = match &self.playlist {
            Some(p) => p,
            None => {
                return Err(ControlPointError::upnp_operation_not_supported(op, "OpenHome Playlist"));
            },
        };
        match self.ensure_playlist_source_selected(transport) {
            Ok(()) => Ok(playlist),
            Err(e) => Err(e),
        }
    }

    /// The Info client for an operation.
    fn info_client_for(&self, op: &str) -> (r: Result<&OhInfoClient, ControlPointError>)
        ensures
            match self.info_view() {
                Some(c) => r == Ok::<&OhInfoClient, ControlPointError>(&c),
                None => not_supported(r, op@, "OpenHome Info"@),
            },
    {
        match &self.info_client {
            Some(c) => Ok(c),
            None => Err(ControlPointError::upnp_operation_not_supported(op, "OpenHome Info")),
        }
    }

    /// The Time client for an operation.
    fn time_client_for(&self, op: &str) -> (r: Result<&OhTimeClient, ControlPointError>)
        ensures
            match self.time_view() {
                Some(c) => r == Ok::<&OhTimeClient, ControlPointError>(&c),
                None => not_supported(r, op@, "OpenHome Time"@),
            },
    {
        match &self.time_client {
            Some(c) => Ok(c),
            None => Err(ControlPointError::upnp_operation_not_supported(op, "OpenHome Time")),
        }
    }

    /// The Volume client for an operation.
    fn volume_client_for(&self, op: &str) -> (r: Result<&OhVolumeClient, ControlPointError>)
        ensures
            match self.volume_view() {
                Some(c) => r == Ok::<&OhVolumeClient, ControlPointError>(&c),
                None => not_supported(r, op@, "OpenHome Volume"@),
            },
    {
        match &self.volume_client {
            Some(c) => Ok(c),
            None => Err(ControlPointError::upnp_operation_not_supported(op, "OpenHome Volume")),
        }
    }

    /// Number of tracks of the OpenHome playlist.
    pub fn openhome_playlist_len<F: Fn(SoapRequest) -> SoapCallResult>(&self, transport: &F) -> (r: Result<usize, ControlPointError>)
        requires
            transport_total(*transport),
        ensures
            self.playlist_view() is None ==> not_supported(r, "openhome_playlist_len"@, "OpenHome Playlist"@),
            self.playlist_view() matches Some(p) ==> after_selection(*transport, self.product_view(), r is Err, exists|reply: SoapCallResult|
                answered(*transport, p.request("IdArray"@, seq![]), reply) && match r {
                    Ok(n) => id_count(spec_id_array(reply)) == Some(n as nat),
                    Err(_) => spec_id_array(reply) is None,
                }),
            r matches Ok(n) ==> (self.playlist_view() matches Some(p) && exists|reply: SoapCallResult|
                answered(*transport, p.request("IdArray"@, seq![]), reply) && id_count(spec_id_array(reply)) == Some(n as nat)),
    {
        let playlist = match self.playlist_client_for(transport, "openhome_playlist_len") {
            Ok(p) => p,
            Err(e) => {
                return Err(e);
            },
        };
        let listed = playlist.id_array(transport);
        match listed {
            Ok(ids) => {
                proof {
                    let reply = choose|reply: SoapCallResult|
                        answered(*transport, playlist.request("IdArray"@, seq![]), reply) && spec_id_array(reply) == Some(ids@);
                    assert(answered(*transport, playlist.request("IdArray"@, seq![]), reply) && id_count(spec_id_array(reply)) == Some(ids@.len()));
                    assert(self.playlist_view() == Some(*playlist));
                    let p = self.playlist_view()->0;
                    assert(answered(*transport, p.request("IdArray"@, seq![]), reply) && id_count(spec_id_array(reply)) == Some(ids.len() as nat));
                }
                Ok(ids.len())
            },
            Err(e) => Err(e),
        }
    }

    /// Ids of the tracks of the OpenHome playlist.
    pub fn openhome_playlist_ids<F: Fn(SoapRequest) -> SoapCallResult>(&self, transport: &F) -> (r: Result<Vec<u32>, ControlPointError>)
        requires
            transport_total(*transport),
        ensures
            self.playlist_view() is None ==> not_supported(r, "openhome_playlist_ids"@, "OpenHome Playlist"@),
            self.playlist_view() matches Some(p) ==> after_selection(*transport, self.product_view(), r is Err, exists|reply: SoapCallResult|
                answered(*transport, p.request("IdArray"@, seq![]), reply) && match r {
                    Ok(v) => spec_id_array(reply) == Some(v@),
                    Err(_) => spec_id_array(reply) is None,
                }),
            r matches Ok(v) ==> (self.playlist_view() matches Some(p) && exists|reply: SoapCallResult|
                answered(*transport, p.request("IdArray"@, seq![]), reply) && spec_id_array(reply) == Some(v@)),
    {
        let playlist = match self.playlist_client_for(transport, "openhome_playlist_ids") {
            Ok(p) => p,
            Err(e) => {
                return Err(e);
            },
        };
        playlist.id_array(transport)
    }

    /// Empties the OpenHome playlist.
    pub fn clear_openhome_playlist<F: Fn(SoapRequest) -> SoapCallResult>(&self, transport: &F) -> (r: Result<(), ControlPointError>)
        requires
            transport_total(*transport),
        ensures
            self.playlist_view() is None ==> not_supported(r, "clear_openhome_playlist"@, "OpenHome Playlist"@),
            self.playlist_view() matches Some(p) ==> after_selection(*transport, self.product_view(), r is Err, exists|reply: SoapCallResult|
                answered(*transport, p.request("DeleteAll"@, seq![]), reply) && agrees_unit(r, spec_success(reply) is Some)),
            r is Ok ==> (self.playlist_view() matches Some(p) && succeeded(*transport, p.request("DeleteAll"@, seq![]))),
    {
        let playlist = match self.playlist_client_for(transport, "clear_openhome_playlist") {
            Ok(p) => p,
            Err(e) => {
                return Err(e);
            },
        };
        playlist.delete_all(transport)
    }

    /// Inserts a track after `after_id` (after the last track when absent,
    /// at the head of an empty playlist), seeks to it when `play` is set, and
    /// gives its new id.
    pub fn add_track_openhome<F: Fn(SoapRequest) -> SoapCallResult>(
        &self,
        transport: &F,
        uri: &str,
        metadata: &str,
        after_id: Option<u32>,
        play: bool,
    ) -> (r: Result<u32, ControlPointError>)
        requires
            transport_total(*transport),
        ensures
            self.playlist_view() is None ==> not_supported(r, "add_track_openhome"@, "OpenHome Playlist"@),
            self.playlist_view() matches Some(p) ==> after_selection(
                *transport,
                self.product_view(),
                r is Err,
                track_added(*transport, p, uri@, metadata@, after_id, play, r),
            ),
    {
        let playlist = match self.playlist_client_for(transport, "add_track_openhome") {
            Ok(p) => p,
            Err(e) => {
                return Err(e);
            },
        };
        let insert_after = match after_id {
            Some(id) => id,
            None => {
                let listed = playlist.id_array(transport);
                let ghost rl = choose|reply: SoapCallResult|
                    answered(*transport, playlist.request("IdArray"@, seq![]), reply) && match listed {
                        Ok(ids) => spec_id_array(reply) == Some(ids@),
                        Err(_) => spec_id_array(reply) is None,
                    };
                match listed {
                    Ok(ids) => {
                        proof {
                            assert(answered(*transport, playlist.request("IdArray"@, seq![]), rl));
                        }
                        if ids.len() > 0 {
                            ids[ids.len() - 1]
                        } else {
                            OPENHOME_PLAYLIST_HEAD_ID
                        }
                    },
                    Err(e) => {
                        proof {
                            assert(answered(*transport, playlist.request("IdArray"@, seq![]), rl));
                            assert(track_added(*transport, *playlist, uri@, metadata@, after_id, play, Err::<u32, ControlPointError>(e)));
                        }
                        return Err(e);
                    },
                }
            },
        };
        let ghost req = playlist.request(
            "Insert"@,
            seq![("AfterId"@, dec(insert_after as nat)), ("Uri"@, uri@), ("Metadata"@, metadata@)],
        );
        let inserted = playlist.insert(transport, insert_after, uri, metadata);
        let ghost ri = choose|reply: SoapCallResult|
            answered(*transport, req, reply) && agrees(inserted, spec_u32_field(reply, "InsertResponse"@, seq!["NewId"@, "Value"@]));
        proof {
            assert(answered(*transport, req, ri));
        }
        let new_id = match inserted {
            Ok(id) => id,
            Err(e) => {
                proof {
                    assert(insert_then(*transport, *playlist, uri@, metadata@, insert_after, play, Err::<u32, ControlPointError>(e)));
                }
                return Err(e);
            },
        };
        if play {
            let sought = playlist.seek_id(transport, new_id);
            let ghost rs = choose|reply: SoapCallResult|
                answered(*transport, playlist.request("SeekId"@, seq![("Value"@, dec(new_id as nat))]), reply)
                    && agrees_unit(sought, spec_success(reply) is Some);
            proof {
                assert(answered(*transport, playlist.request("SeekId"@, seq![("Value"@, dec(new_id as nat))]), rs));
            }
            match sought {
                Ok(()) => {},
                Err(e) => {
                    proof {
                        assert(insert_then(*transport, *playlist, uri@, metadata@, insert_after, play, Err::<u32, ControlPointError>(e)));
                    }
                    return Err(e);
                },
            }
        }
        proof {
            assert(insert_then(*transport, *playlist, uri@, metadata@, insert_after, play, Ok::<u32, ControlPointError>(new_id)));
        }
        Ok(new_id)
    }

    /// Plays from the queue kept for this renderer: when the queue has no
    /// current item, its first item becomes current (an empty queue is
    /// refused), then the renderer's playlist is played.
    pub fn play_from_queue<F: Fn(SoapRequest) -> SoapCallResult>(&self, transport: &F, queue: &mut OpenHomeQueue) -> (r:
        Result<(), ControlPointError>)
        requires
            transport_total(*transport),
            old(queue).wf(),
        ensures
            final(queue).wf(),
            final(queue).playlist() == old(queue).playlist(),
            final(queue).product() == old(queue).product(),
            final(queue).renderer() == old(queue).renderer(),
            r is Ok ==> (self.playlist_view() matches Some(p) && succeeded(*transport, p.request("Play"@, seq![]))),
    {
        let current = match queue.current_index(transport) {
            Ok(c) => c,
            Err(e) => {
                return Err(e);
            },
        };
        if current.is_none() {
            let len = match queue.len(transport) {
                Ok(n) => n,
                Err(e) => {
                    return Err(e);
                },
            };
            if len > 0 {
                match queue.set_index(transport, Some(0)) {
                    Ok(()) => {},
                    Err(e) => {
                        return Err(e);
                    },
                }
            } else {
                return Err(ControlPointError::QueueError(msg("Queue is empty")));
            }
        }
        let playlist = match self.playlist_client_for(transport, "play_from_queue") {
            Ok(p) => p,
            Err(e) => {
                return Err(e);
            },
        };
        playlist.play(transport)
    }

    /// Plays the item at `index` of the queue kept for this renderer: the
    /// playlist is sought to that item's track id, the queue's current index
    /// set, and the playlist played.
    pub fn play_from_index<F: Fn(SoapRequest) -> SoapCallResult>(
        &self,
        transport: &F,
        queue: &mut OpenHomeQueue,
        index: usize,
    ) -> (r: Result<(), ControlPointError>)
        requires
            transport_total(*transport),
            old(queue).wf(),
        ensures
            final(queue).wf(),
            final(queue).playlist() == old(queue).playlist(),
            final(queue).product() == old(queue).product(),
            final(queue).renderer() == old(queue).renderer(),
            r is Ok ==> exists|ids: Seq<u32>|
                index < ids.len() && (listed(*transport, old(queue).playlist(), ids) || old(queue).held_ids() == Some(ids))
                    && (self.playlist_view() matches Some(p) && succeeded(
                    *transport,
                    p.request("SeekId"@, seq![("Value"@, dec(ids[index as int] as nat))]),
                ) && succeeded(*transport, p.request("Play"@, seq![]))),
    {
        let track_id = match queue.position_to_id(transport, index) {
            Ok(id) => id,
            Err(e) => {
                return Err(e);
            },
        };
        let playlist = match self.playlist_client_for(transport, "play_from_index") {
            Ok(p) => p,
            Err(e) => {
                return Err(e);
            },
        };
        match playlist.seek_id(transport, track_id) {
            Ok(()) => {},
            Err(e) => {
                return Err(e);
            },
        }
        match queue.set_index(transport, Some(index)) {
            Ok(()) => {},
            Err(e) => {
                return Err(e);
            },
        }
        playlist.play(transport)
    }

    /// Seeks the OpenHome playlist to a track id.
    pub fn play_openhome_track_id<F: Fn(SoapRequest) -> SoapCallResult>(&self, transport: &F, id: u32) -> (r: Result<(), ControlPointError>)
        requires
            transport_total(*transport),
        ensures
            self.playlist_view() is None ==> not_supported(r, "play_openhome_track_id"@, "OpenHome Playlist"@),
            self.playlist_view() matches Some(p) ==> after_selection(*transport, self.product_view(), r is Err, exists|reply: SoapCallResult|
                answered(*transport, p.request("SeekId"@, seq![("Value"@, dec(id as nat))]), reply) && agrees_unit(r, spec_success(reply) is Some)),
            r is Ok ==> (self.playlist_view() matches Some(p) && succeeded(*transport, p.request("SeekId"@, seq![("Value"@, dec(id as nat))]))),
    {
        let playlist = match self.playlist_client_for(transport, "play_openhome_track_id") {
            Ok(p) => p,
            Err(e) => {
                return Err(e);
            },
        };
        playlist.seek_id(transport, id)
    }

    /// Plays a resource: the playlist is emptied (a failure there is
    /// ignored), the track inserted after the last listed track and sought
    /// to, then played.
    pub fn play_uri<F: Fn(SoapRequest) -> SoapCallResult>(&self, transport: &F, uri: &str, meta: &str) -> (r: Result<(), ControlPointError>)
        requires
            transport_total(*transport),
        ensures
            self.playlist_view() is None ==> not_supported(r, "play_uri"@, "OpenHome Playlist"@),
            self.playlist_view() matches Some(p) ==> after_selection(
                *transport,
                self.product_view(),
                r is Err,
                (exists|rd: SoapCallResult| #[trigger] answered(*transport, p.request("DeleteAll"@, seq![]), rd))
                    && after_selection(
                    *transport,
                    self.product_view(),
                    r is Err,
                    exists|added: Result<u32, ControlPointError>|
                        #[trigger] track_added(*transport, p, uri@, meta@, None, true, added) && match added {
                            Err(_) => r is Err,
                            Ok(_) => exists|rp: SoapCallResult|
                                #[trigger] answered(*transport, p.request("Play"@, seq![]), rp) && agrees_unit(
                                    r,
                                    spec_success(rp) is Some,
                                ),
                        },
                ),
            ),
    {
        let playlist = match self.playlist_client_for(transport, "play_uri") {
            Ok(p) => p,
            Err(e) => {
                return Err(e);
            },
        };
        let cleared = playlist.delete_all(transport);
        let ghost rd = choose|reply: SoapCallResult|
            answered(*transport, playlist.request("DeleteAll"@, seq![]), reply) && agrees_unit(cleared, spec_success(reply) is Some);
        proof {
            assert(answered(*transport, playlist.request("DeleteAll"@, seq![]), rd));
        }
        let added = self.add_track_openhome(transport, uri, meta, None, true);
        match added {
            Ok(_) => {},
            Err(e) => {
                return Err(e);
            },
        }
        let played = playlist.play(transport);
        let ghost rp = choose|reply: SoapCallResult|
            answered(*transport, playlist.request("Play"@, seq![]), reply) && agrees_unit(played, spec_success(reply) is Some);
        proof {
            assert(answered(*transport, playlist.request("Play"@, seq![]), rp));
            assert(track_added(*transport, *playlist, uri@, meta@, None, true, added));
        }
        played
    }

    /// Starts or resumes playback.
    pub fn play<F: Fn(SoapRequest) -> SoapCallResult>(&self, transport: &F) -> (r: Result<(), ControlPointError>)
        requires
            transport_total(*transport),
        ensures
            self.playlist_view() is None ==> not_supported(r, "play"@, "OpenHome Playlist"@),
            self.playlist_view() matches Some(p) ==> after_selection(*transport, self.product_view(), r is Err, exists|reply: SoapCallResult|
                answered(*transport, p.request("Play"@, seq![]), reply) && agrees_unit(r, spec_success(reply) is Some)),
            r is Ok ==> (self.playlist_view() matches Some(p) && playlist_ready(self.product_view(), *transport)
                && succeeded(*transport, p.request("Play"@, seq![]))),
    {
        let playlist = match self.playlist_client_for(transport, "play") {
            Ok(p) => p,
            Err(e) => {
                return Err(e);
            },
        };
        playlist.play(transport)
    }

    /// Pauses playback.
    pub fn pause<F: Fn(SoapRequest) -> SoapCallResult>(&self, transport: &F) -> (r: Result<(), ControlPointError>)
        requires
            transport_total(*transport),
        ensures
            self.playlist_view() is None ==> not_supported(r, "pause"@, "OpenHome Playlist"@),
            self.playlist_view() matches Some(p) ==> after_selection(*transport, self.product_view(), r is Err, exists|reply: SoapCallResult|
                answered(*transport, p.request("Pause"@, seq![]), reply) && agrees_unit(r, spec_success(reply) is Some)),
            r is Ok ==> (self.playlist_view() matches Some(p) && playlist_ready(self.product_view(), *transport)
                && succeeded(*transport, p.request("Pause"@, seq![]))),
    {
        let playlist = match self.playlist_client_for(transport, "pause") {
            Ok(p) => p,
            Err(e) => {
                return Err(e);
            },
        };
        playlist.pause(transport)
    }

    /// Stops playback.
    pub fn stop<F: Fn(SoapRequest) -> SoapCallResult>(&self, transport: &F) -> (r: Result<(), ControlPointError>)
        requires
            transport_total(*transport),
        ensures
            self.playlist_view() is None ==> not_supported(r, "stop"@, "OpenHome Playlist"@),
            self.playlist_view() matches Some(p) ==> after_selection(*transport, self.product_view(), r is Err, exists|reply: SoapCallResult|
                answered(*transport, p.request("Stop"@, seq![]), reply) && agrees_unit(r, spec_success(reply) is Some)),
            r is Ok ==> (self.playlist_view() matches Some(p) && playlist_ready(self.product_view(), *transport)
                && succeeded(*transport, p.request("Stop"@, seq![]))),
    {
        let playlist = match self.playlist_client_for(transport, "stop") {
            Ok(p) => p,
            Err(e) => {
                return Err(e);
            },
        };
        playlist.stop(transport)
    }

    /// Seeks to a position given as `HH:MM:SS`, `MM:SS` or `SS`.
    pub fn seek_rel_time<F: Fn(SoapRequest) -> SoapCallResult>(&self, transport: &F, hhmmss: &str) -> (r: Result<(), ControlPointError>)
        requires
            transport_total(*transport),
            flexible_fits(hhmmss@),
        ensures
            spec_parse_time_flexible(hhmmss@) is None ==> (r matches Err(ControlPointError::InvalidTimeFormat(_))),
            self.playlist_view() matches Some(p) ==> (spec_parse_time_flexible(hhmmss@)
                matches Some(s) ==> after_selection(*transport, self.product_view(), r is Err, exists|reply: SoapCallResult|
                answered(*transport, p.request("SeekSecondAbsolute"@, seq![("Value"@, dec(s as nat))]), reply)
                    && agrees_unit(r, spec_success(reply) is Some))),
            r is Ok ==> (self.playlist_view() matches Some(p) && (spec_parse_time_flexible(hhmmss@) matches Some(s)
                && succeeded(*transport, p.request("SeekSecondAbsolute"@, seq![("Value"@, dec(s as nat))])))),
    {
        let seconds = match parse_time_flexible(hhmmss) {
            Ok(s) => s,
            Err(e) => {
                return Err(e);
            },
        };
        let playlist = match self.playlist_client_for(transport, "seek_rel_time") {
            Ok(p) => p,
            Err(e) => {
                return Err(e);
            },
        };
        playlist.seek_second_absolute(transport, seconds)
    }

    /// The current volume.
    pub fn volume<F: Fn(SoapRequest) -> SoapCallResult>(&self, transport: &F) -> (r: Result<u16, ControlPointError>)
        requires
            transport_total(*transport),
        ensures
            self.volume_view() is None ==> not_supported(r, "volume"@, "OpenHome Volume"@),
            self.volume_view() matches Some(c) ==> exists|reply: SoapCallResult|
                answered(*transport, c.request("Volume"@, seq![]), reply) && agrees(r, spec_volume(reply)),
            r matches Ok(v) ==> (self.volume_view() matches Some(c) && exists|reply: SoapCallResult|
                answered(*transport, c.request("Volume"@, seq![]), reply) && spec_volume(reply) == Some(v)),
    {
        let client = match self.volume_client_for("volume") {
            Ok(c) => c,
            Err(e) => {
                return Err(e);
            },
        };
        client.volume(transport)
    }

    /// Sets the volume.
    pub fn set_volume<F: Fn(SoapRequest) -> SoapCallResult>(&self, transport: &F, v: u16) -> (r: Result<(), ControlPointError>)
        requires
            transport_total(*transport),
        ensures
            self.volume_view() is None ==> not_supported(r, "set_volume"@, "OpenHome Volume"@),
            self.volume_view() matches Some(c) ==> exists|reply: SoapCallResult|
                answered(*transport, c.request("SetVolume"@, seq![("Value"@, dec(v as nat))]), reply) && agrees_unit(
                    r,
                    spec_success(reply) is Some,
                ),
            r is Ok ==> (self.volume_view() matches Some(c) && succeeded(*transport, c.request("SetVolume"@, seq![("Value"@, dec(v as nat))]))),
    {
        let client = match self.volume_client_for("set_volume") {
            Ok(c) => c,
            Err(e) => {
                return Err(e);
            },
        };
        client.set_volume(transport, v)
    }

    /// Whether the renderer is muted.
    pub fn mute<F: Fn(SoapRequest) -> SoapCallResult>(&self, transport: &F) -> (r: Result<bool, ControlPointError>)
        requires
            transport_total(*transport),
        ensures
            self.volume_view() is None ==> not_supported(r, "mute"@, "OpenHome Volume"@),
            self.volume_view() matches Some(c) ==> exists|reply: SoapCallResult|
                answered(*transport, c.request("Mute"@, seq![]), reply) && agrees(
                    r,
                    spec_bool_field(reply, "MuteResponse"@, seq!["Value"@]),
                ),
            r is Ok ==> self.volume_view() is Some,
    {
        let client = match self.volume_client_for("mute") {
            Ok(c) => c,
            Err(e) => {
                return Err(e);
            },
        };
        client.mute(transport)
    }

    /// Mutes or unmutes.
    pub fn set_mute<F: Fn(SoapRequest) -> SoapCallResult>(&self, transport: &F, m: bool) -> (r: Result<(), ControlPointError>)
        requires
            transport_total(*transport),
        ensures
            self.volume_view() is None ==> not_supported(r, "set_mute"@, "OpenHome Volume"@),
            self.volume_view() matches Some(c) ==> exists|reply: SoapCallResult|
                answered(*transport, c.request("SetMute"@, seq![("Value"@, if m { "1"@ } else { "0"@ })]), reply)
                    && agrees_unit(r, spec_success(reply) is Some),
            r is Ok ==> (self.volume_view() matches Some(c) && succeeded(
                *transport,
                c.request("SetMute"@, seq![("Value"@, if m { "1"@ } else { "0"@ })]),
            )),
    {
        let client = match self.volume_client_for("set_mute") {
            Ok(c) => c,
            Err(e) => {
                return Err(e);
            },
        };
        client.set_mute(transport, m)
    }

    /// The transport state reported by the Playlist service, mapped to the
    /// canonical states.
    pub fn playback_state<F: Fn(SoapRequest) -> SoapCallResult>(&self, transport: &F) -> (r: Result<PlaybackState, ControlPointError>)
        requires
            transport_total(*transport),
        ensures
            self.playlist_view() is None ==> not_supported(r, "playback_state"@, "OpenHome Playlist"@),
            self.playlist_view() matches Some(p) ==> after_selection(*transport, self.product_view(), r is Err, exists|reply: SoapCallResult|
                answered(*transport, p.request("TransportState"@, seq![]), reply) && match r {
                    Ok(st) => spec_text_field(reply, "TransportStateResponse"@, seq!["State"@, "Value"@]) matches Some(t)
                        && state_read(st, t),
                    Err(_) => spec_text_field(reply, "TransportStateResponse"@, seq!["State"@, "Value"@]) is None,
                }),
            r is Ok ==> self.playlist_view() is Some,
    {
        let client = match self.playlist_client_for(transport, "playback_state") {
            Ok(c) => c,
            Err(e) => {
                return Err(e);
            },
        };
        match client.transport_state(transport) {
            Ok(state) => Ok(map_openhome_state(state.as_str())),
            Err(e) => Err(e),
        }
    }

    /// The position from the Time service, with the track id from the
    /// Playlist service and the track from the Info service when they answer.
    pub fn playback_position<F: Fn(SoapRequest) -> SoapCallResult>(&self, transport: &F) -> (r: Result<PlaybackPositionInfo, ControlPointError>)
        requires
            transport_total(*transport),
        ensures
            self.time_view() is None ==> not_supported(r, "playback_position"@, "OpenHome Time"@),
            self.time_view() matches Some(c) ==> exists|reply: SoapCallResult|
                answered(*transport, c.request("Time"@, seq![]), reply) && (r is Ok <==> spec_time(reply) is Some),
            r matches Ok(info) ==> (self.time_view() matches Some(c) && exists|reply: SoapCallResult|
                answered(*transport, c.request("Time"@, seq![]), reply) && (spec_time(reply) matches Some((_n, d, e)) && (
                info.rel_time matches Some(rt) && rt@ == hhmmss(e as nat)) && (info.track_duration matches Some(td)
                    && td@ == hhmmss(d as nat)))),
            r matches Ok(info) ==> info.abs_time is None && (info.track is Some ==> self.playlist_view() is Some)
                && (info.track_uri is Some ==> self.info_view() is Some) && (info.track_metadata is Some
                ==> self.info_view() is Some),
    {
        let time = match self.time_client_for("playback_position") {
            Ok(c) => c,
            Err(e) => {
                return Err(e);
            },
        };
        let time_info = match time.position(transport) {
            Ok(p) => p,
            Err(e) => {
                return Err(e);
            },
        };
        let mut track_id: Option<u32> = None;
        let mut track_uri: Option<String> = None;
        let mut track_metadata_xml: Option<String> = None;
        match &self.playlist {
            Some(p) => match p.id(transport) {
                Ok(id) => {
                    track_id = Some(id);
                },
                Err(_) => {},
            },
            None => {},
        }
        match &self.info_client {
            Some(i) => match i.track(transport) {
                Ok(track) => {
                    track_uri = Some(track.uri);
                    track_metadata_xml = track.metadata_xml;
                },
                Err(_) => {},
            },
            None => {},
        }
        Ok(PlaybackPositionInfo {
            track: track_id,
            rel_time: Some(format_hhmmss_u32(time_info.elapsed_secs)),
            abs_time: None,
            track_duration: Some(format_hhmmss_u32(time_info.duration_secs)),
            track_metadata: track_metadata_xml,
            track_uri,
        })
    }
}

} // verus!
