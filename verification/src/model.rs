//! Domain model shared by the renderers, the queues and the clients.
use vstd::prelude::*;

verus! {

/// Identifier of a UPnP device (its UDN or an equivalent logical id).
#[derive(Debug)]
pub struct DeviceId(pub String);

impl Clone for DeviceId {
    fn clone(&self) -> (r: Self)
        ensures
            r == *self,
    {
        DeviceId(self.0.clone())
    }
}

/// Identifier of a renderer.
pub type RendererId = DeviceId;

/// Rich metadata of a track.
#[derive(Debug)]
pub struct TrackMetadata {
    pub title: Option<String>,
    pub artist: Option<String>,
    pub album: Option<String>,
    pub genre: Option<String>,
    pub album_art_uri: Option<String>,
    pub date: Option<String>,
    pub track_number: Option<String>,
    pub creator: Option<String>,
    /// Duration in `HH:MM:SS` (or `MM:SS`, `SS`).
    pub duration: Option<String>,
    /// Whether the resource is a continuous stream (a radio).
    pub is_continuous_stream: bool,
}

impl Clone for TrackMetadata {
    fn clone(&self) -> (r: Self)
        ensures
            r == *self,
    {
        TrackMetadata {
            title: self.title.clone(),
            artist: self.artist.clone(),
            album: self.album.clone(),
            genre: self.genre.clone(),
            album_art_uri: self.album_art_uri.clone(),
            date: self.date.clone(),
            track_number: self.track_number.clone(),
            creator: self.creator.clone(),
            duration: self.duration.clone(),
            is_continuous_stream: self.is_continuous_stream,
        }
    }
}

/// Canonical transport state of a renderer.
#[derive(Debug)]
pub enum PlaybackState {
    Playing,
    Paused,
    Stopped,
    Transitioning,
    NoMedia,
    Unknown(String),
}

impl Clone for PlaybackState {
    fn clone(&self) -> (r: Self)
        ensures
            r == *self,
    {
        match self {
            PlaybackState::Playing => PlaybackState::Playing,
            PlaybackState::Paused => PlaybackState::Paused,
            PlaybackState::Stopped => PlaybackState::Stopped,
            PlaybackState::Transitioning => PlaybackState::Transitioning,
            PlaybackState::NoMedia => PlaybackState::NoMedia,
            PlaybackState::Unknown(s) => PlaybackState::Unknown(s.clone()),
        }
    }
}

/// Protocols through which a renderer is driven.
#[derive(Debug, Clone, Copy)]
pub enum RendererProtocol {
    UpnpAvOnly,
    OpenHomeOnly,
    Hybrid,
}

/// Services a renderer exposes.
#[derive(Debug, Clone, Copy)]
pub struct RendererCapabilities {
    pub has_avtransport: bool,
    pub has_avtransport_set_next: bool,
    pub has_rendering_control: bool,
    pub has_connection_manager: bool,
    pub has_linkplay_http: bool,
    pub has_arylic_tcp: bool,
    pub has_oh_playlist: bool,
    pub has_oh_volume: bool,
    pub has_oh_info: bool,
    pub has_oh_time: bool,
    pub has_oh_radio: bool,
}

impl RendererCapabilities {
    /// No service at all.
    pub fn none() -> (r: RendererCapabilities)
        ensures
            !r.has_avtransport && !r.has_avtransport_set_next && !r.has_rendering_control
                && !r.has_connection_manager && !r.has_linkplay_http && !r.has_arylic_tcp
                && !r.has_oh_playlist && !r.has_oh_volume && !r.has_oh_info && !r.has_oh_time
                && !r.has_oh_radio,
    {
        RendererCapabilities {
            has_avtransport: false,
            has_avtransport_set_next: false,
            has_rendering_control: false,
            has_connection_manager: false,
            has_linkplay_http: false,
            has_arylic_tcp: false,
            has_oh_playlist: false,
            has_oh_volume: false,
            has_oh_info: false,
            has_oh_time: false,
            has_oh_radio: false,
        }
    }

    /// Whether the OpenHome Playlist service is present.
    pub fn has_oh_playlist(&self) -> (r: bool)
        ensures
            r == self.has_oh_playlist,
    {
        self.has_oh_playlist
    }
}

impl Default for RendererCapabilities {
    fn default() -> (r: RendererCapabilities)
        ensures
            !r.has_avtransport && !r.has_oh_playlist && !r.has_oh_info && !r.has_oh_time
                && !r.has_oh_volume && !r.has_oh_radio,
    {
        RendererCapabilities::none()
    }
}

/// Everything the control point knows of a discovered renderer.
#[derive(Debug, Clone)]
pub struct RendererInfo {
    pub id: DeviceId,
    pub udn: String,
    pub friendly_name: String,
    pub model_name: String,
    pub manufacturer: String,
    pub protocol: RendererProtocol,
    pub capabilities: RendererCapabilities,
    pub location: String,
    pub server_header: String,
    pub avtransport_service_type: Option<String>,
    pub avtransport_control_url: Option<String>,
    pub rendering_control_service_type: Option<String>,
    pub rendering_control_control_url: Option<String>,
    pub connection_manager_service_type: Option<String>,
    pub connection_manager_control_url: Option<String>,
    pub oh_playlist_service_type: Option<String>,
    pub oh_playlist_control_url: Option<String>,
    pub oh_playlist_event_sub_url: Option<String>,
    pub oh_info_service_type: Option<String>,
    pub oh_info_control_url: Option<String>,
    pub oh_info_event_sub_url: Option<String>,
    pub oh_time_service_type: Option<String>,
    pub oh_time_control_url: Option<String>,
    pub oh_time_event_sub_url: Option<String>,
    pub oh_volume_service_type: Option<String>,
    pub oh_volume_control_url: Option<String>,
    pub oh_radio_service_type: Option<String>,
    pub oh_radio_control_url: Option<String>,
    pub oh_product_service_type: Option<String>,
    pub oh_product_control_url: Option<String>,
}

impl RendererInfo {
    /// Builds a renderer description from its discovered fields, in the
    /// order of the struct.
    pub fn make(
        id: DeviceId,
        udn: String,
        friendly_name: String,
        model_name: String,
        manufacturer: String,
        protocol: RendererProtocol,
        capabilities: RendererCapabilities,
        location: String,
        server_header: String,
        avtransport_service_type: Option<String>,
        avtransport_control_url: Option<String>,
        rendering_control_service_type: Option<String>,
        rendering_control_control_url: Option<String>,
        connection_manager_service_type: Option<String>,
        connection_manager_control_url: Option<String>,
        oh_playlist_service_type: Option<String>,
        oh_playlist_control_url: Option<String>,
        oh_playlist_event_sub_url: Option<String>,
        oh_info_service_type: Option<String>,
        oh_info_control_url: Option<String>,
        oh_info_event_sub_url: Option<String>,
        oh_time_service_type: Option<String>,
        oh_time_control_url: Option<String>,
        oh_time_event_sub_url: Option<String>,
        oh_volume_service_type: Option<String>,
        oh_volume_control_url: Option<String>,
        oh_radio_service_type: Option<String>,
        oh_radio_control_url: Option<String>,
        oh_product_service_type: Option<String>,
        oh_product_control_url: Option<String>,
    ) -> (r: RendererInfo)
        ensures
            r.id == id,
            r.udn == udn,
            r.friendly_name == friendly_name,
            r.location == location,
            r.protocol == protocol,
            r.capabilities == capabilities,
            r.oh_playlist_service_type == oh_playlist_service_type,
            r.oh_playlist_control_url == oh_playlist_control_url,
            r.oh_info_service_type == oh_info_service_type,
            r.oh_info_control_url == oh_info_control_url,
            r.oh_time_service_type == oh_time_service_type,
            r.oh_time_control_url == oh_time_control_url,
            r.oh_volume_service_type == oh_volume_service_type,
            r.oh_volume_control_url == oh_volume_control_url,
            r.oh_radio_service_type == oh_radio_service_type,
            r.oh_radio_control_url == oh_radio_control_url,
            r.oh_product_service_type == oh_product_service_type,
            r.oh_product_control_url == oh_product_control_url,
    {
        RendererInfo {
            id,
            udn,
            friendly_name,
            model_name,
            manufacturer,
            protocol,
            capabilities,
            location,
            server_header,
            avtransport_service_type,
            avtransport_control_url,
            rendering_control_service_type,
            rendering_control_control_url,
            connection_manager_service_type,
            connection_manager_control_url,
            oh_playlist_service_type,
            oh_playlist_control_url,
            oh_playlist_event_sub_url,
            oh_info_service_type,
            oh_info_control_url,
            oh_info_event_sub_url,
            oh_time_service_type,
            oh_time_control_url,
            oh_time_event_sub_url,
            oh_volume_service_type,
            oh_volume_control_url,
            oh_radio_service_type,
            oh_radio_control_url,
            oh_product_service_type,
            oh_product_control_url,
        }
    }

    /// The renderer identifier.
    pub fn id(&self) -> (r: DeviceId)
        ensures
            r == self.id,
    {
        self.id.clone()
    }

    /// The renderer UDN.
    pub fn udn(&self) -> (r: &str)
        ensures
            r@ == self.udn@,
    {
        self.udn.as_str()
    }

    /// The description URL (`LOCATION`).
    pub fn location(&self) -> (r: &str)
        ensures
            r@ == self.location@,
    {
        self.location.as_str()
    }

    /// The services the renderer exposes.
    pub fn capabilities(&self) -> (r: &RendererCapabilities)
        ensures
            *r == self.capabilities,
    {
        &self.capabilities
    }

    pub fn oh_playlist_control_url(&self) -> (r: Option<String>)
        ensures
            r == self.oh_playlist_control_url,
    {
        self.oh_playlist_control_url.clone()
    }

    pub fn oh_playlist_service_type(&self) -> (r: Option<String>)
        ensures
            r == self.oh_playlist_service_type,
    {
        self.oh_playlist_service_type.clone()
    }

    pub fn oh_info_control_url(&self) -> (r: Option<String>)
        ensures
            r == self.oh_info_control_url,
    {
        self.oh_info_control_url.clone()
    }

    pub fn oh_info_service_type(&self) -> (r: Option<String>)
        ensures
            r == self.oh_info_service_type,
    {
        self.oh_info_service_type.clone()
    }

    pub fn oh_time_control_url(&self) -> (r: Option<String>)
        ensures
            r == self.oh_time_control_url,
    {
        self.oh_time_control_url.clone()
    }

    pub fn oh_time_service_type(&self) -> (r: Option<String>)
        ensures
            r == self.oh_time_service_type,
    {
        self.oh_time_service_type.clone()
    }

    pub fn oh_volume_control_url(&self) -> (r: Option<String>)
        ensures
            r == self.oh_volume_control_url,
    {
        self.oh_volume_control_url.clone()
    }

    pub fn oh_volume_service_type(&self) -> (r: Option<String>)
        ensures
            r == self.oh_volume_service_type,
    {
        self.oh_volume_service_type.clone()
    }

    pub fn oh_radio_control_url(&self) -> (r: Option<String>)
        ensures
            r == self.oh_radio_control_url,
    {
        self.oh_radio_control_url.clone()
    }

    pub fn oh_radio_service_type(&self) -> (r: Option<String>)
        ensures
            r == self.oh_radio_service_type,
    {
        self.oh_radio_service_type.clone()
    }

    pub fn oh_product_control_url(&self) -> (r: Option<String>)
        ensures
            r == self.oh_product_control_url,
    {
        self.oh_product_control_url.clone()
    }

    pub fn oh_product_service_type(&self) -> (r: Option<String>)
        ensures
            r == self.oh_product_service_type,
    {
        self.oh_product_service_type.clone()
    }
}

} // verus!
