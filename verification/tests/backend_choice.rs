use pmocontrol::model::{RendererCapabilities, RendererProtocol};
use pmocontrol::music_renderer::musicrenderer::{choose_backend, BackendChoice};

fn caps(avt: bool, arylic: bool, linkplay: bool) -> RendererCapabilities {
    let mut c = RendererCapabilities::none();
    c.has_avtransport = avt;
    c.has_arylic_tcp = arylic;
    c.has_linkplay_http = linkplay;
    c
}

#[test]
fn openhome_renderer_prefers_openhome() {
    let c = caps(true, true, true);
    assert_eq!(choose_backend(RendererProtocol::OpenHomeOnly, &c, true, true, true, true), BackendChoice::OpenHome);
    assert_eq!(choose_backend(RendererProtocol::Hybrid, &c, true, true, true, true), BackendChoice::OpenHome);
}

#[test]
fn openhome_only_without_openhome_is_refused() {
    let c = caps(true, true, true);
    assert_eq!(choose_backend(RendererProtocol::OpenHomeOnly, &c, false, true, true, true), BackendChoice::Refused);
}

#[test]
fn hybrid_falls_back_to_upnp_arylic_pairing() {
    let c = caps(true, true, false);
    assert_eq!(choose_backend(RendererProtocol::Hybrid, &c, false, true, true, false), BackendChoice::HybridUpnpArylic);
    assert_eq!(choose_backend(RendererProtocol::UpnpAvOnly, &c, true, true, true, false), BackendChoice::HybridUpnpArylic);
}

#[test]
fn arylic_failure_keeps_upnp_alone() {
    let c = caps(true, true, false);
    assert_eq!(choose_backend(RendererProtocol::UpnpAvOnly, &c, false, true, false, false), BackendChoice::Upnp);
    assert_eq!(choose_backend(RendererProtocol::UpnpAvOnly, &c, false, false, true, false), BackendChoice::UpnpFailed);
}

#[test]
fn linkplay_before_plain_upnp() {
    let c = caps(true, false, true);
    assert_eq!(choose_backend(RendererProtocol::UpnpAvOnly, &c, false, true, false, true), BackendChoice::LinkPlay);
    assert_eq!(choose_backend(RendererProtocol::UpnpAvOnly, &c, false, true, false, false), BackendChoice::Upnp);
}

#[test]
fn no_service_is_refused() {
    let c = caps(false, false, true);
    assert_eq!(choose_backend(RendererProtocol::UpnpAvOnly, &c, false, true, true, false), BackendChoice::Refused);
    assert_eq!(choose_backend(RendererProtocol::UpnpAvOnly, &c, false, true, true, true), BackendChoice::LinkPlay);
}
