//! Selection of the OpenHome service endpoints of a renderer and
//! construction of the matching clients.
use crate::error::msg;
use crate::model::RendererInfo;
use crate::upnp_clients::openhome_client::{
    OhInfoClient, OhPlaylistClient, OhProductClient, OhRadioClient, OhTimeClient, OhVolumeClient,
};
use vstd::prelude::*;

verus! {

/// The OpenHome services the control point uses.
#[derive(Clone, Copy, Debug, PartialEq, Eq, Hash)]
pub enum OhServiceKind {
    Playlist,
    Info,
    Time,
    Volume,
    Product,
}

impl OhServiceKind {
    /// Lower-case name of the service.
    pub fn as_str(&self) -> (r: &'static str)
        ensures
            r@ == match *self {
                OhServiceKind::Playlist => "playlist"@,
                OhServiceKind::Info => "info"@,
                OhServiceKind::Time => "time"@,
                OhServiceKind::Volume => "volume"@,
                OhServiceKind::Product => "product"@,
            },
    {
        match self {
            OhServiceKind::Playlist => "playlist",
            OhServiceKind::Info => "info",
            OhServiceKind::Time => "time",
            OhServiceKind::Volume => "volume",
            OhServiceKind::Product => "product",
        }
    }
}

/// Control URL and service type of a service.
pub struct OhServiceEndpoint {
    pub control_url: String,
    pub service_type: String,
}

/// The (control URL, service type) pair that a renderer declares for a service.
pub open spec fn spec_endpoint(info: RendererInfo, kind: OhServiceKind) -> (Option<String>, Option<String>) {
    match kind {
        OhServiceKind::Playlist => (info.oh_playlist_control_url, info.oh_playlist_service_type),
        OhServiceKind::Info => (info.oh_info_control_url, info.oh_info_service_type),
        OhServiceKind::Time => (info.oh_time_control_url, info.oh_time_service_type),
        OhServiceKind::Volume => (info.oh_volume_control_url, info.oh_volume_service_type),
        OhServiceKind::Product => (info.oh_product_control_url, info.oh_product_service_type),
    }
}

/// The endpoint of a service, when the renderer declares both its control URL
/// and its service type.
pub fn endpoint_for(info: &RendererInfo, kind: OhServiceKind) -> (r: Option<OhServiceEndpoint>)
    ensures
        match r {
            Some(e) => spec_endpoint(*info, kind) == (Some(e.control_url), Some(e.service_type)),
            None => spec_endpoint(*info, kind).0 is None || spec_endpoint(*info, kind).1 is None,
        },
{
    let (control_url, service_type) = match kind {
        OhServiceKind::Playlist => (info.oh_playlist_control_url(), info.oh_playlist_service_type()),
        OhServiceKind::Info => (info.oh_info_control_url(), info.oh_info_service_type()),
        OhServiceKind::Time => (info.oh_time_control_url(), info.oh_time_service_type()),
        OhServiceKind::Volume => (info.oh_volume_control_url(), info.oh_volume_service_type()),
        OhServiceKind::Product => (info.oh_product_control_url(), info.oh_product_service_type()),
    };
    match (control_url, service_type) {
        (Some(c), Some(s)) => Some(OhServiceEndpoint { control_url: c, service_type: s }),
        _ => None,
    }
}

/// Control URL of a service, when the renderer declares the service.
pub fn control_url_for(info: &RendererInfo, kind: OhServiceKind) -> (r: Option<String>)
    ensures
        match r {
            Some(c) => spec_endpoint(*info, kind) matches (Some(x), Some(_)) && x == c,
            None => spec_endpoint(*info, kind).0 is None || spec_endpoint(*info, kind).1 is None,
        },
{
    match endpoint_for(info, kind) {
        Some(e) => Some(e.control_url),
        None => None,
    }
}

/// Service type of a service, when the renderer declares the service.
pub fn service_type_for(info: &RendererInfo, kind: OhServiceKind) -> (r: Option<String>)
    ensures
        match r {
            Some(s) => spec_endpoint(*info, kind) matches (Some(_), Some(x)) && x == s,
            None => spec_endpoint(*info, kind).0 is None || spec_endpoint(*info, kind).1 is None,
        },
{
    match endpoint_for(info, kind) {
        Some(e) => Some(e.service_type),
        None => None,
    }
}

/// A Playlist client, when the renderer declares the service.
pub fn build_playlist_client(info: &RendererInfo) -> (r: Option<OhPlaylistClient>)
    ensures
        match r {
            Some(c) => info.oh_playlist_control_url == Some(c.control_url) && info.oh_playlist_service_type == Some(c.service_type),
            None => info.oh_playlist_control_url is None || info.oh_playlist_service_type is None,
        },
{
    match endpoint_for(info, OhServiceKind::Playlist) {
        Some(e) => Some(OhPlaylistClient::new(e.control_url, e.service_type)),
        None => None,
    }
}

/// An Info client, when the renderer declares the service.
pub fn build_info_client(info: &RendererInfo) -> (r: Option<OhInfoClient>)
    ensures
        match r {
            Some(c) => info.oh_info_control_url == Some(c.control_url) && info.oh_info_service_type == Some(c.service_type),
            None => info.oh_info_control_url is None || info.oh_info_service_type is None,
        },
{
    match endpoint_for(info, OhServiceKind::Info) {
        Some(e) => Some(OhInfoClient::new(e.control_url, e.service_type)),
        None => None,
    }
}

/// A Time client, when the renderer declares the service.
pub fn build_time_client(info: &RendererInfo) -> (r: Option<OhTimeClient>)
    ensures
        match r {
            Some(c) => info.oh_time_control_url == Some(c.control_url) && info.oh_time_service_type == Some(c.service_type),
            None => info.oh_time_control_url is None || info.oh_time_service_type is None,
        },
{
    match endpoint_for(info, OhServiceKind::Time) {
        Some(e) => Some(OhTimeClient::new(e.control_url, e.service_type)),
        None => None,
    }
}

/// A Volume client, when the renderer declares the service.
pub fn build_volume_client(info: &RendererInfo) -> (r: Option<OhVolumeClient>)
    ensures
        match r {
            Some(c) => info.oh_volume_control_url == Some(c.control_url) && info.oh_volume_service_type == Some(c.service_type),
            None => info.oh_volume_control_url is None || info.oh_volume_service_type is None,
        },
{
    match endpoint_for(info, OhServiceKind::Volume) {
        Some(e) => Some(OhVolumeClient::new(e.control_url, e.service_type)),
        None => None,
    }
}

/// A Product client, when the renderer declares the service.
pub fn build_product_client(info: &RendererInfo) -> (r: Option<OhProductClient>)
    ensures
        match r {
            Some(c) => info.oh_product_control_url == Some(c.control_url) && info.oh_product_service_type == Some(c.service_type),
            None => info.oh_product_control_url is None || info.oh_product_service_type is None,
        },
{
    match endpoint_for(info, OhServiceKind::Product) {
        Some(e) => Some(OhProductClient::new(e.control_url, e.service_type)),
        None => None,
    }
}

/// A Radio client, when the renderer declares the service.
pub fn build_radio_client(info: &RendererInfo) -> (r: Option<OhRadioClient>)
    ensures
        match r {
            Some(c) => info.oh_radio_control_url == Some(c.control_url) && info.oh_radio_service_type == Some(c.service_type),
            None => info.oh_radio_control_url is None || info.oh_radio_service_type is None,
        },
{
    let control_url = match info.oh_radio_control_url() {
        Some(c) => c,
        None => {
            return None;
        },
    };
    let service_type = match info.oh_radio_service_type() {
        Some(s) => s,
        None => {
            return None;
        },
    };
    Some(OhRadioClient::new(control_url, service_type))
}

} // verus!
