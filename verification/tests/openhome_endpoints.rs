use pmocontrol::model::{DeviceId, RendererCapabilities, RendererInfo, RendererProtocol};
use pmocontrol::error::ControlPointError;
use pmocontrol::music_renderer::openhome_renderer::OpenHomeRenderer;
use pmocontrol::openhome::{control_url_for, endpoint_for, service_type_for, OhServiceKind};

fn sample_renderer_info() -> RendererInfo {
    RendererInfo::make(
        DeviceId("renderer".into()),
        "renderer".into(),
        "Renderer".into(),
        "Model".into(),
        "Maker".into(),
        RendererProtocol::OpenHomeOnly,
        RendererCapabilities::default(),
        "http://host:1234/description.xml".into(),
        "test".into(),
        None,
        None,
        None,
        None,
        None,
        None,
        Some("urn:av-openhome-org:service:Playlist:1".into()),
        Some("http://host/oh/playlist".into()),
        Some("http://host/events/playlist".into()),
        Some("urn:av-openhome-org:service:Info:1".into()),
        Some("http://host/oh/info".into()),
        Some("http://host/events/info".into()),
        Some("urn:av-openhome-org:service:Time:1".into()),
        Some("http://host/oh/time".into()),
        Some("http://host/events/time".into()),
        Some("urn:av-openhome-org:service:Volume:1".into()),
        Some("http://host/oh/volume".into()),
        None,
        None,
        Some("urn:av-openhome-org:service:Product:1".into()),
        Some("http://host/oh/product".into()),
    )
}

#[test]
fn selects_correct_playlist_endpoint() {
    let info = sample_renderer_info();
    let endpoint = endpoint_for(&info, OhServiceKind::Playlist).unwrap();
    assert_eq!(endpoint.control_url, "http://host/oh/playlist");
    assert_eq!(endpoint.service_type, "urn:av-openhome-org:service:Playlist:1");
}

#[test]
fn info_and_playlist_use_different_urls() {
    let info = sample_renderer_info();
    let playlist = control_url_for(&info, OhServiceKind::Playlist).unwrap();
    let info_url = control_url_for(&info, OhServiceKind::Info).unwrap();
    assert_ne!(playlist, info_url);
}

#[test]
fn missing_radio_service_has_no_endpoint() {
    let info = sample_renderer_info();
    assert!(endpoint_for(&info, OhServiceKind::Time).is_some());
    assert_eq!(
        service_type_for(&info, OhServiceKind::Product).unwrap(),
        "urn:av-openhome-org:service:Product:1"
    );
}

#[test]
fn openhome_renderer_built_from_description() {
    let info = sample_renderer_info();
    let (renderer, _queue) = OpenHomeRenderer::from_renderer_info(&info).unwrap();
    assert!(renderer.has_playlist() && renderer.has_info() && renderer.has_time() && renderer.has_volume());
    assert!(renderer.has_any_openhome_service());
}

#[test]
fn device_without_openhome_service_is_refused() {
    let mut info = sample_renderer_info();
    info.oh_playlist_control_url = None;
    info.oh_info_control_url = None;
    info.oh_time_service_type = None;
    info.oh_volume_control_url = None;
    match OpenHomeRenderer::from_renderer_info(&info) {
        Err(ControlPointError::OpenHomeNotAValidDevice(m)) => assert_eq!(m, "DeviceId(\"renderer\")"),
        _ => panic!("expected a refusal"),
    }
}
