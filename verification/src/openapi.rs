//! The records that the control point's REST API exchanges, and the
//! summaries and volume steps computed for them.
use crate::model::{RendererCapabilities, RendererProtocol};
use vstd::prelude::*;

verus! {

/// A renderer as listed by the API.
#[derive(Debug, Clone)]
pub struct RendererSummary {
    pub id: String,
    pub friendly_name: String,
    pub model_name: String,
    pub protocol: RendererProtocolSummary,
    pub capabilities: RendererCapabilitiesSummary,
    pub online: bool,
}

/// The protocol of a renderer as the API names it.
#[derive(Debug, Clone, Copy, PartialEq, Eq, Structural)]
pub enum RendererProtocolSummary {
    Upnp,
    Openhome,
    Hybrid,
}

/// The services of a renderer as the API lists them.
#[derive(Debug, Clone, Copy)]
pub struct RendererCapabilitiesSummary {
    pub has_avtransport: bool,
    pub has_avtransport_set_next: bool,
    pub has_rendering_control: bool,
    pub has_connection_manager: bool,
    pub has_linkplay_http: bool,
    pub has_arylic_tcp: bool,
    pub has_oh_playlist: bool,
    pub has_oh_volume: bool,
    pub has_oh_info: bool,
    pub has_oh_time: bool,
    pub has_oh_radio: bool,
}

/// The state of a renderer as the API reports it.
#[derive(Debug, Clone)]
pub struct RendererState {
    pub id: String,
    pub friendly_name: String,
    pub transport_state: String,
    pub position_ms: Option<u64>,
    pub duration_ms: Option<u64>,
    pub volume: Option<u8>,
    pub mute: Option<bool>,
    pub queue_len: usize,
    pub attached_playlist: Option<AttachedPlaylistInfo>,
}

/// The playlist a renderer's queue is attached to.
#[derive(Debug, Clone)]
pub struct AttachedPlaylistInfo {
    pub server_id: String,
    pub container_id: String,
    pub has_seen_update: bool,
}

/// An item of a queue as the API lists it.
#[derive(Debug, Clone)]
pub struct QueueItem {
    pub index: usize,
    pub uri: String,
    pub title: Option<String>,
    pub artist: Option<String>,
    pub album: Option<String>,
    pub server_id: Option<String>,
    pub object_id: Option<String>,
}

/// A queue as the API lists it.
#[derive(Debug, Clone)]
pub struct QueueSnapshot {
    pub renderer_id: String,
    pub items: Vec<QueueItem>,
    pub current_index: Option<usize>,
}

/// The native OpenHome playlist of a renderer.
#[derive(Debug, Clone)]
pub struct OpenHomePlaylistSnapshot {
    pub renderer_id: String,
    pub current_id: Option<u32>,
    pub tracks: Vec<OpenHomePlaylistTrack>,
}

/// A track of a native OpenHome playlist.
#[derive(Debug, Clone)]
pub struct OpenHomePlaylistTrack {
    pub id: u32,
    pub uri: String,
    pub title: Option<String>,
    pub artist: Option<String>,
    pub album: Option<String>,
    pub album_art_uri: Option<String>,
}

/// A request to add a track to a native OpenHome playlist.
#[derive(Debug, Clone)]
pub struct OpenHomePlaylistAddRequest {
    pub uri: String,
    pub metadata: String,
    pub after_id: Option<u32>,
    pub play: bool,
}

/// A media server as listed by the API.
#[derive(Debug, Clone)]
pub struct MediaServerSummary {
    pub id: String,
    pub friendly_name: String,
    pub model_name: String,
    pub online: bool,
}

/// An entry of a browsed container.
#[derive(Debug, Clone)]
pub struct ContainerEntry {
    pub id: String,
    pub title: String,
    pub class: String,
    pub is_container: bool,
    pub child_count: Option<u32>,
    pub artist: Option<String>,
    pub album: Option<String>,
    pub album_art_uri: Option<String>,
}

/// A browsed container.
#[derive(Debug, Clone)]
pub struct BrowseResponse {
    pub container_id: String,
    pub entries: Vec<ContainerEntry>,
}

/// A request to set the volume.
#[derive(Debug, Clone)]
pub struct VolumeSetRequest {
    pub volume: u8,
}

/// A request to attach a queue to a playlist container.
#[derive(Debug, Clone)]
pub struct AttachPlaylistRequest {
    pub server_id: String,
    pub container_id: String,
}

/// A request to play content of a media server.
#[derive(Debug, Clone)]
pub struct PlayContentRequest {
    pub server_id: String,
    pub object_id: String,
}

/// A success answer.
#[derive(Debug, Clone)]
pub struct SuccessResponse {
    pub message: String,
}

/// An error answer.
#[derive(Debug, Clone)]
pub struct ErrorResponse {
    pub error: String,
}

/// The API name of a protocol.
pub open spec fn spec_protocol_summary(p: RendererProtocol) -> RendererProtocolSummary {
    match p {
        RendererProtocol::UpnpAvOnly => RendererProtocolSummary::Upnp,
        RendererProtocol::OpenHomeOnly => RendererProtocolSummary::Openhome,
        RendererProtocol::Hybrid => RendererProtocolSummary::Hybrid,
    }
}

/// The API name of a protocol.
pub fn protocol_summary(protocol: &RendererProtocol) -> (r: RendererProtocolSummary)
    ensures
        r == spec_protocol_summary(*protocol),
{
    match protocol {
        RendererProtocol::UpnpAvOnly => RendererProtocolSummary::Upnp,
        RendererProtocol::OpenHomeOnly => RendererProtocolSummary::Openhome,
        RendererProtocol::Hybrid => RendererProtocolSummary::Hybrid,
    }
}

/// The API listing of a renderer's services: each flag as it is.
pub fn capability_summary(caps: &RendererCapabilities) -> (r: RendererCapabilitiesSummary)
    ensures
        r.has_avtransport == caps.has_avtransport,
        r.has_avtransport_set_next == caps.has_avtransport_set_next,
        r.has_rendering_control == caps.has_rendering_control,
        r.has_connection_manager == caps.has_connection_manager,
        r.has_linkplay_http == caps.has_linkplay_http,
        r.has_arylic_tcp == caps.has_arylic_tcp,
        r.has_oh_playlist == caps.has_oh_playlist,
        r.has_oh_volume == caps.has_oh_volume,
        r.has_oh_info == caps.has_oh_info,
        r.has_oh_time == caps.has_oh_time,
        r.has_oh_radio == caps.has_oh_radio,
{
    RendererCapabilitiesSummary {
        has_avtransport: caps.has_avtransport,
        has_avtransport_set_next: caps.has_avtransport_set_next,
        has_rendering_control: caps.has_rendering_control,
        has_connection_manager: caps.has_connection_manager,
        has_linkplay_http: caps.has_linkplay_http,
        has_arylic_tcp: caps.has_arylic_tcp,
        has_oh_playlist: caps.has_oh_playlist,
        has_oh_volume: caps.has_oh_volume,
        has_oh_info: caps.has_oh_info,
        has_oh_time: caps.has_oh_time,
        has_oh_radio: caps.has_oh_radio,
    }
}

/// The volume after a step up: five more, at most 100.
pub fn volume_up_level(current: u16) -> (r: u16)
    requires
        current + 5 <= u16::MAX,
    ensures
        r == if current + 5 > 100 { 100 } else { current + 5 },
{
    let v = current + 5;
    if v > 100 {
        100
    } else {
        v
    }
}

/// The volume after a step down: five less, at least 0.
pub fn volume_down_level(current: u16) -> (r: u16)
    ensures
        r == if current >= 5 { current - 5 } else { 0 },
{
    if current >= 5 {
        current - 5
    } else {
        0
    }
}

/// Stepping the volume never leaves the 0–100 range once inside it, and a
/// step down after a step up gives back any volume up to 95.
pub proof fn law_volume_steps(v: u16)
    requires
        v <= 100,
    ensures
        (if v + 5 > 100 { 100 } else { v + 5 }) <= 100,
        v <= 95 ==> (if (v + 5) as u16 >= 5 { (v + 5) as u16 - 5 } else { 0 }) == v,
{
}

} // verus!
