use pmocontrol::model::{RendererCapabilities, RendererProtocol};
use pmocontrol::openapi::{capability_summary, protocol_summary, volume_down_level, volume_up_level, RendererProtocolSummary};
use pmocontrol::provider::{
    detect_renderer_capabilities, detect_renderer_protocol, detect_server_capabilities, parse_description, parse_description_text,
    DescriptionError, DescriptionEvent, HttpXmlDescriptionProvider,
};
use pmocontrol::upnp_clients::track_list::{is_invalid_entry_id_error, parse_track_list};
use pmocontrol::error::ControlPointError;

fn start(s: &str) -> DescriptionEvent {
    DescriptionEvent::Start(s.to_string())
}
fn end(s: &str) -> DescriptionEvent {
    DescriptionEvent::End(s.to_string())
}
fn text(s: &str) -> DescriptionEvent {
    DescriptionEvent::Text(s.to_string())
}

fn renderer_events() -> Vec<DescriptionEvent> {
    vec![
        start("root"),
        start("device"),
        start("deviceType"),
        text("urn:schemas-upnp-org:device:MediaRenderer:1"),
        end("deviceType"),
        start("friendlyName"),
        text("Living room"),
        end("friendlyName"),
        start("modelName"),
        text("Streamer"),
        end("modelName"),
        start("UDN"),
        text("uuid:1234"),
        end("UDN"),
        start("serviceList"),
        start("service"),
        start("serviceType"),
        text("urn:schemas-upnp-org:service:AVTransport:1"),
        end("serviceType"),
        start("controlURL"),
        text("/avt/control"),
        end("controlURL"),
        end("service"),
        start("service"),
        start("serviceType"),
        text("urn:av-openhome-org:service:Playlist:1"),
        end("serviceType"),
        end("service"),
        end("serviceList"),
        end("device"),
        end("root"),
    ]
}

#[test]
fn description_walk_collects_identity_and_services() {
    let d = parse_description(&renderer_events()).unwrap();
    assert_eq!(d.udn.as_deref(), Some("uuid:1234"));
    assert_eq!(d.friendly_name.as_deref(), Some("Living room"));
    assert_eq!(d.service_types.len(), 2);
    assert_eq!(d.avtransport_control_url.as_deref(), Some("/avt/control"));
    let caps = detect_renderer_capabilities(&d.service_types);
    assert!(caps.has_avtransport && caps.has_oh_playlist && !caps.has_oh_volume);
    assert!(matches!(detect_renderer_protocol(&caps), RendererProtocol::Hybrid));
    assert_eq!(protocol_summary(&RendererProtocol::Hybrid), RendererProtocolSummary::Hybrid);
    assert!(capability_summary(&caps).has_oh_playlist);
}

#[test]
fn description_requires_fields() {
    let events = vec![start("device"), start("friendlyName"), text("x"), end("friendlyName"), end("device")];
    match parse_description(&events) {
        Err(DescriptionError::MissingField(f)) => assert_eq!(f, "deviceType"),
        _ => panic!("expected a missing field"),
    }
}

#[test]
fn server_and_protocol_detection() {
    let types = vec!["urn:schemas-upnp-org:service:ContentDirectory:1".to_string()];
    let s = detect_server_capabilities(&types);
    assert!(s.has_content_directory && !s.has_connection_manager);
    let none = RendererCapabilities::default();
    assert!(matches!(detect_renderer_protocol(&none), RendererProtocol::UpnpAvOnly));
    assert_eq!(HttpXmlDescriptionProvider::new(7).timeout_secs, 7);
}

#[test]
fn volume_steps() {
    assert_eq!(volume_up_level(97), 100);
    assert_eq!(volume_up_level(10), 15);
    assert_eq!(volume_down_level(3), 0);
    assert_eq!(volume_down_level(50), 45);
}

#[test]
fn track_list_plain_and_base64() {
    let xml = "<TrackList><Entry><Id>5</Id><Uri>http://x/a</Uri><Metadata>m</Metadata></Entry><Entry><Id>6</Id><Uri>http://x/b</Uri></Entry></TrackList>";
    let es = parse_track_list(xml).unwrap();
    assert_eq!(es.len(), 2);
    assert_eq!(es[0].id, 5);
    assert_eq!(es[1].metadata_xml, "");
    let b64 = "PFRyYWNrTGlzdD48RW50cnk+PElkPjc8L0lkPjxVcmk+dTwvVXJpPjwvRW50cnk+PC9UcmFja0xpc3Q+";
    let es = parse_track_list(b64).unwrap();
    assert_eq!(es.len(), 1);
    assert_eq!(es[0].id, 7);
    assert!(parse_track_list("   ").unwrap().is_empty());
    let bad = parse_track_list("<TrackList><Entry><Id>1,2</Id><Uri>u</Uri></Entry></TrackList>").unwrap_err();
    assert!(is_invalid_entry_id_error(&bad));
    let bad = parse_track_list("<TrackList><Entry><Id>x</Id><Uri>u</Uri></Entry></TrackList>").unwrap_err();
    assert!(is_invalid_entry_id_error(&bad));
    assert!(!is_invalid_entry_id_error(&ControlPointError::OpenHomeError("other".to_string())));
}

const RENDERER_XML: &str = r#"<?xml version="1.0"?>
<root xmlns="urn:schemas-upnp-org:device-1-0">
  <!-- a renderer -->
  <device>
    <deviceType>urn:schemas-upnp-org:device:MediaRenderer:1</deviceType>
    <friendlyName> Kitchen &amp; Bar </friendlyName>
    <manufacturer>Acme</manufacturer>
    <modelName>Streamer</modelName>
    <UDN>uuid:abcd</UDN>
    <iconList/>
    <serviceList>
      <service>
        <serviceType>urn:schemas-upnp-org:service:AVTransport:1</serviceType>
        <controlURL>/avt/control</controlURL>
      </service>
      <service>
        <serviceType>urn:schemas-upnp-org:service:RenderingControl:1</serviceType>
        <controlURL>/rc/control</controlURL>
      </service>
    </serviceList>
  </device>
</root>"#;

#[test]
fn description_text_is_read_from_xml() {
    let d = parse_description_text(RENDERER_XML).unwrap();
    assert_eq!(d.udn.as_deref(), Some("uuid:abcd"));
    assert_eq!(d.device_type.as_deref(), Some("urn:schemas-upnp-org:device:MediaRenderer:1"));
    assert_eq!(d.friendly_name.as_deref(), Some("Kitchen &amp; Bar"));
    assert_eq!(d.manufacturer.as_deref(), Some("Acme"));
    assert_eq!(d.model_name.as_deref(), Some("Streamer"));
    assert_eq!(
        d.service_types,
        vec![
            "urn:schemas-upnp-org:service:AVTransport:1".to_string(),
            "urn:schemas-upnp-org:service:RenderingControl:1".to_string()
        ]
    );
    assert_eq!(d.avtransport_service_type.as_deref(), Some("urn:schemas-upnp-org:service:AVTransport:1"));
    assert_eq!(d.avtransport_control_url.as_deref(), Some("/avt/control"));
}

#[test]
fn description_text_missing_model_is_refused() {
    let xml = "<root><device><deviceType>t</deviceType><friendlyName>f</friendlyName></device></root>";
    match parse_description_text(xml) {
        Err(DescriptionError::MissingField(f)) => assert_eq!(f, "modelName"),
        other => panic!("expected a missing field, got {:?}", other),
    }
}

#[test]
fn description_text_malformed_xml_is_refused() {
    match parse_description_text("<root><device></root>") {
        Err(DescriptionError::Xml(_)) => {}
        other => panic!("expected an XML error, got {:?}", other),
    }
}
