//! Reading UPnP device descriptions (`description.xml`): the walk over the
//! document's events that collects the device's identity and services, and
//! the detection of what a renderer or a server offers.
use crate::model::{RendererCapabilities, RendererProtocol};
use crate::text::{ascii_lower_chars, ascii_lower_seq, chars_eq_str, contains_chars, seq_contains, str_chars};
use quick_xml::events::Event;
use vstd::prelude::*;

verus! {

/// Why a device description could not be used.
#[derive(Debug)]
pub enum DescriptionError {
    /// The HTTP request failed.
    Http(String),
    /// The HTTP body could not be read.
    HttpIo(String),
    /// The XML could not be parsed.
    Xml(String),
    /// A required device element is missing.
    MissingField(String),
}

/// One event of an XML document: an element opens, closes, holds text, or
/// something else the walk passes over (an empty element, a comment, a
/// declaration, a CDATA section, a processing instruction, a doctype).
#[derive(Debug)]
pub enum DescriptionEvent {
    Start(String),
    End(String),
    Text(String),
    Other,
}

/// What a device description says of the device.
#[derive(Debug)]
pub struct ParsedDeviceDescription {
    pub udn: Option<String>,
    pub device_type: Option<String>,
    pub friendly_name: Option<String>,
    pub manufacturer: Option<String>,
    pub model_name: Option<String>,
    pub service_types: Vec<String>,
    pub avtransport_service_type: Option<String>,
    pub avtransport_control_url: Option<String>,
}

/// Where the walk over a description stands, with what it has read.
#[derive(Debug)]
pub struct DescriptionWalk {
    pub in_device: bool,
    pub in_service: bool,
    pub current_tag: Option<String>,
    pub current_service_type: Option<String>,
    pub current_control_url: Option<String>,
    pub udn: Option<String>,
    pub device_type: Option<String>,
    pub friendly_name: Option<String>,
    pub manufacturer: Option<String>,
    pub model_name: Option<String>,
    pub avtransport_service_type: Option<String>,
    pub avtransport_control_url: Option<String>,
}

/// The walk before the first event.
pub open spec fn start_walk() -> DescriptionWalk {
    DescriptionWalk {
        in_device: false,
        in_service: false,
        current_tag: None,
        current_service_type: None,
        current_control_url: None,
        udn: None,
        device_type: None,
        friendly_name: None,
        manufacturer: None,
        model_name: None,
        avtransport_service_type: None,
        avtransport_control_url: None,
    }
}

/// A service type names AVTransport.
pub open spec fn is_avtransport(st: Seq<char>) -> bool {
    seq_contains(ascii_lower_seq(st), "urn:schemas-upnp-org:service:avtransport:"@)
}

/// At the end of a `<service>` block, its endpoint is kept when it is the
/// first AVTransport one.
pub open spec fn close_service(w: DescriptionWalk) -> DescriptionWalk {
    let kept = match (w.current_service_type, w.current_control_url) {
        (Some(st), Some(ctrl)) => if is_avtransport(st@) && w.avtransport_service_type is None {
            DescriptionWalk { avtransport_service_type: Some(st), avtransport_control_url: Some(ctrl), ..w }
        } else {
            w
        },
        _ => w,
    };
    DescriptionWalk {
        in_service: false,
        current_service_type: None,
        current_control_url: None,
        current_tag: None,
        ..kept
    }
}

/// The text of an element of the device.
pub open spec fn take_text(w: DescriptionWalk, tag: Seq<char>, t: String) -> DescriptionWalk {
    if tag == "UDN"@ {
        DescriptionWalk { udn: Some(t), ..w }
    } else if tag == "deviceType"@ {
        DescriptionWalk { device_type: Some(t), ..w }
    } else if tag == "friendlyName"@ {
        DescriptionWalk { friendly_name: Some(t), ..w }
    } else if tag == "manufacturer"@ {
        DescriptionWalk { manufacturer: Some(t), ..w }
    } else if tag == "modelName"@ {
        DescriptionWalk { model_name: Some(t), ..w }
    } else if tag == "serviceType"@ && w.in_service {
        DescriptionWalk { current_service_type: Some(t), ..w }
    } else if tag == "controlURL"@ && w.in_service {
        DescriptionWalk { current_control_url: Some(t), ..w }
    } else {
        w
    }
}

/// One step of the walk, with the service type it read, if any.
pub open spec fn walk_step(w: DescriptionWalk, ev: DescriptionEvent) -> (DescriptionWalk, Option<String>) {
    match ev {
        DescriptionEvent::Start(name) => if name@ == "device"@ {
            (DescriptionWalk { in_device: true, current_tag: None, ..w }, None)
        } else if name@ == "service"@ {
            if w.in_device {
                (
                    DescriptionWalk {
                        in_service: true,
                        current_tag: None,
                        current_service_type: None,
                        current_control_url: None,
                        ..w
                    },
                    None,
                )
            } else {
                (w, None)
            }
        } else if w.in_device {
            (DescriptionWalk { current_tag: Some(name), ..w }, None)
        } else {
            (w, None)
        },
        DescriptionEvent::End(name) => if name@ == "device"@ {
            (DescriptionWalk { in_device: false, current_tag: None, ..w }, None)
        } else if name@ == "service"@ && w.in_device && w.in_service {
            (close_service(w), None)
        } else {
            (DescriptionWalk { current_tag: None, ..w }, None)
        },
        DescriptionEvent::Text(t) => match w.current_tag {
            Some(tag) => if w.in_device {
                (take_text(w, tag@, t), if tag@ == "serviceType"@ && w.in_service { Some(t) } else { None })
            } else {
                (w, None)
            },
            None => (w, None),
        },
        DescriptionEvent::Other => (w, None),
    }
}

/// The walk's state and the service types read, after the first `n` events.
pub open spec fn walk(events: Seq<DescriptionEvent>, n: nat) -> (DescriptionWalk, Seq<String>)
    decreases n,
{
    if n == 0 {
        (start_walk(), Seq::empty())
    } else {
        let (w, found) = walk(events, (n - 1) as nat);
        let (nw, t) = walk_step(w, events[n - 1]);
        (
            nw,
            match t {
                Some(s) => found.push(s),
                None => found,
            },
        )
    }
}

/// The first required element that a description lacks.
pub open spec fn missing_field(device_type: Option<String>, friendly_name: Option<String>, model_name: Option<String>) -> Option<Seq<char>> {
    if device_type is None {
        Some("deviceType"@)
    } else if friendly_name is None {
        Some("friendlyName"@)
    } else if model_name is None {
        Some("modelName"@)
    } else {
        None
    }
}

impl ParsedDeviceDescription {
    /// The description itself when it has a device type, a friendly name
    /// and a model name; the first missing one otherwise.
    pub fn require_fields(self) -> (r: Result<Self, DescriptionError>)
        ensures
            match missing_field(self.device_type, self.friendly_name, self.model_name) {
                Some(f) => r matches Err(DescriptionError::MissingField(m)) && m@ == f,
                None => r matches Ok(p) && p == self,
            },
    {
        if self.device_type.is_none() {
            return Err(DescriptionError::MissingField(crate::error::msg("deviceType")));
        }
        if self.friendly_name.is_none() {
            return Err(DescriptionError::MissingField(crate::error::msg("friendlyName")));
        }
        if self.model_name.is_none() {
            return Err(DescriptionError::MissingField(crate::error::msg("modelName")));
        }
        Ok(self)
    }
}

/// Whether `s` is the text `lit`.
fn is(s: &String, lit: &str) -> (r: bool)
    ensures
        r == (s@ == lit@),
{
    let cs = str_chars(s.as_str());
    chars_eq_str(cs.as_slice(), lit)
}

/// Whether a service type names AVTransport.
fn avtransport_type(st: &String) -> (r: bool)
    ensures
        r == is_avtransport(st@),
{
    let cs = str_chars(st.as_str());
    let lower = ascii_lower_chars(cs.as_slice());
    let pat = str_chars("urn:schemas-upnp-org:service:avtransport:");
    contains_chars(lower.as_slice(), pat.as_slice())
}

impl DescriptionWalk {
    /// The walk before the first event.
    pub fn new() -> (r: Self)
        ensures
            r == start_walk(),
    {
        DescriptionWalk {
            in_device: false,
            in_service: false,
            current_tag: None,
            current_service_type: None,
            current_control_url: None,
            udn: None,
            device_type: None,
            friendly_name: None,
            manufacturer: None,
            model_name: None,
            avtransport_service_type: None,
            avtransport_control_url: None,
        }
    }

    /// Applies one event; gives the service type it read, if any.
    pub fn step(self, ev: &DescriptionEvent) -> (r: (DescriptionWalk, Option<String>))
        ensures
            r == walk_step(self, *ev),
    {
        let w = self;
        proof {
            reveal_strlit("device");
            reveal_strlit("service");
            reveal_strlit("UDN");
            reveal_strlit("deviceType");
            reveal_strlit("friendlyName");
            reveal_strlit("manufacturer");
            reveal_strlit("modelName");
            reveal_strlit("serviceType");
            reveal_strlit("controlURL");
        }
        match ev {
            DescriptionEvent::Start(name) => {
                if is(name, "device") {
                    (DescriptionWalk { in_device: true, current_tag: None, ..w }, None)
                } else if is(name, "service") {
                    if w.in_device {
                        (
                            DescriptionWalk {
                                in_service: true,
                                current_tag: None,
                                current_service_type: None,
                                current_control_url: None,
                                ..w
                            },
                            None,
                        )
                    } else {
                        (w, None)
                    }
                } else if w.in_device {
                    (DescriptionWalk { current_tag: Some(name.clone()), ..w }, None)
                } else {
                    (w, None)
                }
            },
            DescriptionEvent::End(name) => {
                if is(name, "device") {
                    (DescriptionWalk { in_device: false, current_tag: None, ..w }, None)
                } else if is(name, "service") && w.in_device && w.in_service {
                    let keep = match (&w.current_service_type, &w.current_control_url) {
                        (Some(st), Some(_)) => avtransport_type(st) && w.avtransport_service_type.is_none(),
                        _ => false,
                    };
                    let kept = if keep {
                        DescriptionWalk {
                            avtransport_service_type: w.current_service_type.clone(),
                            avtransport_control_url: w.current_control_url.clone(),
                            ..w
                        }
                    } else {
                        w
                    };
                    (
                        DescriptionWalk {
                            in_service: false,
                            current_service_type: None,
                            current_control_url: None,
                            current_tag: None,
                            ..kept
                        },
                        None,
                    )
                } else {
                    (DescriptionWalk { current_tag: None, ..w }, None)
                }
            },
            DescriptionEvent::Text(t) => {
                let tag = match &w.current_tag {
                    Some(g) => g.clone(),
                    None => {
                        return (w, None);
                    },
                };
                if !w.in_device {
                    return (w, None);
                }
                let in_service = w.in_service;
                let found = if is(&tag, "serviceType") && in_service {
                    Some(t.clone())
                } else {
                    None
                };
                let nw = if is(&tag, "UDN") {
                    DescriptionWalk { udn: Some(t.clone()), ..w }
                } else if is(&tag, "deviceType") {
                    DescriptionWalk { device_type: Some(t.clone()), ..w }
                } else if is(&tag, "friendlyName") {
                    DescriptionWalk { friendly_name: Some(t.clone()), ..w }
                } else if is(&tag, "manufacturer") {
                    DescriptionWalk { manufacturer: Some(t.clone()), ..w }
                } else if is(&tag, "modelName") {
                    DescriptionWalk { model_name: Some(t.clone()), ..w }
                } else if is(&tag, "serviceType") && in_service {
                    DescriptionWalk { current_service_type: Some(t.clone()), ..w }
                } else if is(&tag, "controlURL") && in_service {
                    DescriptionWalk { current_control_url: Some(t.clone()), ..w }
                } else {
                    w
                };
                (nw, found)
            },
            DescriptionEvent::Other => (w, None),
        }
    }
}

/// What the walk over `events` gives: the description it read, or the
/// first required field it lacks.
pub open spec fn described(events: Seq<DescriptionEvent>, r: Result<ParsedDeviceDescription, DescriptionError>) -> bool {
    let (w, types) = walk(events, events.len());
    match missing_field(w.device_type, w.friendly_name, w.model_name) {
        Some(f) => r matches Err(DescriptionError::MissingField(m)) && m@ == f,
        None => r matches Ok(d) && d.udn == w.udn && d.device_type == w.device_type && d.friendly_name
            == w.friendly_name && d.manufacturer == w.manufacturer && d.model_name == w.model_name
            && d.service_types@ == types && d.avtransport_service_type == w.avtransport_service_type
            && d.avtransport_control_url == w.avtransport_control_url,
    }
}

/// The events quick-xml reads from a document's text, with text trimmed of
/// surrounding whitespace; `None` when it reports an error.
pub uninterp spec fn xml_description_events(text: Seq<char>) -> Option<Seq<DescriptionEvent>>;

/// Reads a document with `quick_xml::Reader::from_str` (text trimmed) until
/// its end: element names and text, decoded as UTF-8 without entity
/// unescaping, and every other event as `Other`; quick-xml's error message
/// on a malformed document. Trusted: the events are those quick-xml gives
/// for the text, which is all the contract says of them.
#[verifier::external_body]
fn description_events(xml: &str) -> (r: Result<Vec<DescriptionEvent>, String>)
    ensures
        match r {
            Ok(v) => xml_description_events(xml@) == Some(v@),
            Err(_) => xml_description_events(xml@) is None,
        },
{
    let mut reader = quick_xml::Reader::from_str(xml);
    reader.config_mut().trim_text(true);
    let mut events = Vec::new();
    loop {
        events.push(match reader.read_event().map_err(|e| e.to_string())? {
            Event::Start(e) => DescriptionEvent::Start(String::from_utf8_lossy(e.name().as_ref()).into_owned()),
            Event::End(e) => DescriptionEvent::End(String::from_utf8_lossy(e.name().as_ref()).into_owned()),
            Event::Text(e) => DescriptionEvent::Text(String::from_utf8_lossy(&e).into_owned()),
            Event::Eof => return Ok(events),
            _ => DescriptionEvent::Other,
        });
    }
}

/// Reads a `description.xml` document from its text: its XML events, then
/// the walk of [`parse_description`]; a document quick-xml refuses gives
/// `DescriptionError::Xml`.
pub fn parse_description_text(xml: &str) -> (r: Result<ParsedDeviceDescription, DescriptionError>)
    ensures
        match xml_description_events(xml@) {
            Some(events) => described(events, r),
            None => r matches Err(DescriptionError::Xml(_)),
        },
{
    match description_events(xml) {
        Ok(events) => parse_description(events.as_slice()),
        Err(e) => Err(DescriptionError::Xml(e)),
    }
}

/// Walks the events of a `description.xml` document: the device's UDN,
/// type, names and service types, and the first AVTransport endpoint; the
/// description is refused when it lacks its type, friendly name or model
/// name.
pub fn parse_description(events: &[DescriptionEvent]) -> (r: Result<ParsedDeviceDescription, DescriptionError>)
    ensures
        described(events@, r),
{
    let mut w = DescriptionWalk::new();
    let mut types: Vec<String> = Vec::new();
    let mut i: usize = 0;
    while i < events.len()
        invariant
            i <= events@.len(),
            walk(events@, i as nat) == (w, types@),
        decreases events@.len() - i,
    {
        let (nw, t) = w.step(&events[i]);
        w = nw;
        match t {
            Some(s) => types.push(s),
            None => {},
        }
        i = i + 1;
        assert(events@[i - 1] == events[i as int - 1]);
    }
    let full = ParsedDeviceDescription {
        udn: w.udn,
        device_type: w.device_type,
        friendly_name: w.friendly_name,
        manufacturer: w.manufacturer,
        model_name: w.model_name,
        service_types: types,
        avtransport_service_type: w.avtransport_service_type,
        avtransport_control_url: w.avtransport_control_url,
    };
    full.require_fields()
}

/// Some service type mentions `pat` (ASCII case-insensitively).
pub open spec fn mentions(types: Seq<String>, pat: Seq<char>) -> bool {
    exists|i: int| 0 <= i < types.len() && seq_contains(ascii_lower_seq(#[trigger] types[i]@), pat)
}

/// Whether some service type mentions `pat`.
fn any_mentions(types: &[String], pat: &str) -> (r: bool)
    ensures
        r == mentions(types@, pat@),
{
    let p = str_chars(pat);
    let mut i: usize = 0;
    while i < types.len()
        invariant
            p@ == pat@,
            i <= types@.len(),
            forall|k: int| 0 <= k < i ==> !seq_contains(ascii_lower_seq(#[trigger] types@[k]@), pat@),
        decreases types@.len() - i,
    {
        let cs = str_chars(types[i].as_str());
        let lower = ascii_lower_chars(cs.as_slice());
        if contains_chars(lower.as_slice(), p.as_slice()) {
            return true;
        }
        i = i + 1;
    }
    false
}

/// The renderer services that the service types name.
pub open spec fn spec_renderer_caps(types: Seq<String>, c: RendererCapabilities) -> bool {
    &&& c.has_avtransport == mentions(types, "urn:schemas-upnp-org:service:avtransport:"@)
    &&& c.has_rendering_control == mentions(types, "urn:schemas-upnp-org:service:renderingcontrol:"@)
    &&& c.has_connection_manager == mentions(types, "urn:schemas-upnp-org:service:connectionmanager:"@)
    &&& c.has_oh_playlist == mentions(types, "urn:av-openhome-org:service:playlist:"@)
    &&& c.has_oh_volume == mentions(types, "urn:av-openhome-org:service:volume:"@)
    &&& c.has_oh_info == mentions(types, "urn:av-openhome-org:service:info:"@)
    &&& c.has_oh_time == mentions(types, "urn:av-openhome-org:service:time:"@)
    &&& c.has_oh_radio == mentions(types, "urn:av-openhome-org:service:radio:"@)
    &&& !c.has_avtransport_set_next && !c.has_linkplay_http && !c.has_arylic_tcp
}

/// The services a renderer offers, from its service types.
pub fn detect_renderer_capabilities(service_types: &[String]) -> (r: RendererCapabilities)
    ensures
        spec_renderer_caps(service_types@, r),
{
    RendererCapabilities {
        has_avtransport: any_mentions(service_types, "urn:schemas-upnp-org:service:avtransport:"),
        has_avtransport_set_next: false,
        has_rendering_control: any_mentions(service_types, "urn:schemas-upnp-org:service:renderingcontrol:"),
        has_connection_manager: any_mentions(service_types, "urn:schemas-upnp-org:service:connectionmanager:"),
        has_linkplay_http: false,
        has_arylic_tcp: false,
        has_oh_playlist: any_mentions(service_types, "urn:av-openhome-org:service:playlist:"),
        has_oh_volume: any_mentions(service_types, "urn:av-openhome-org:service:volume:"),
        has_oh_info: any_mentions(service_types, "urn:av-openhome-org:service:info:"),
        has_oh_time: any_mentions(service_types, "urn:av-openhome-org:service:time:"),
        has_oh_radio: any_mentions(service_types, "urn:av-openhome-org:service:radio:"),
    }
}

/// The protocol of a renderer: UPnP AV and OpenHome together are hybrid,
/// OpenHome alone is OpenHome, anything else UPnP AV.
pub open spec fn spec_protocol(c: RendererCapabilities) -> RendererProtocol {
    let av = c.has_avtransport || c.has_rendering_control || c.has_connection_manager;
    let oh = c.has_oh_playlist || c.has_oh_volume || c.has_oh_info || c.has_oh_time || c.has_oh_radio;
    if av && oh {
        RendererProtocol::Hybrid
    } else if oh {
        RendererProtocol::OpenHomeOnly
    } else {
        RendererProtocol::UpnpAvOnly
    }
}

/// The protocol by which a renderer is driven, from its services.
pub fn detect_renderer_protocol(caps: &RendererCapabilities) -> (r: RendererProtocol)
    ensures
        r == spec_protocol(*caps),
{
    let has_upnp_av = caps.has_avtransport || caps.has_rendering_control || caps.has_connection_manager;
    let has_openhome = caps.has_oh_playlist || caps.has_oh_volume || caps.has_oh_info || caps.has_oh_time
        || caps.has_oh_radio;
    if has_upnp_av && has_openhome {
        RendererProtocol::Hybrid
    } else if has_openhome {
        RendererProtocol::OpenHomeOnly
    } else {
        RendererProtocol::UpnpAvOnly
    }
}

/// Services a media server exposes.
#[derive(Debug, Clone, Copy)]
pub struct MediaServerCapabilities {
    pub has_content_directory: bool,
    pub has_connection_manager: bool,
}

/// The services a media server offers, from its service types.
pub fn detect_server_capabilities(service_types: &[String]) -> (r: MediaServerCapabilities)
    ensures
        r.has_content_directory == mentions(service_types@, "urn:schemas-upnp-org:service:contentdirectory:"@),
        r.has_connection_manager == mentions(service_types@, "urn:schemas-upnp-org:service:connectionmanager:"@),
{
    MediaServerCapabilities {
        has_content_directory: any_mentions(service_types, "urn:schemas-upnp-org:service:contentdirectory:"),
        has_connection_manager: any_mentions(service_types, "urn:schemas-upnp-org:service:connectionmanager:"),
    }
}

/// Reads device descriptions over HTTP, with a timeout.
#[derive(Debug)]
pub struct HttpXmlDescriptionProvider {
    pub timeout_secs: u64,
}

impl HttpXmlDescriptionProvider {
    /// A provider whose requests time out after `timeout_secs` seconds.
    pub fn new(timeout_secs: u64) -> (r: Self)
        ensures
            r.timeout_secs == timeout_secs,
    {
        HttpXmlDescriptionProvider { timeout_secs }
    }
}

/// A renderer that offers OpenHome and UPnP AV services is hybrid; one
/// that offers some OpenHome service (Playlist, Volume, Info, Time or Radio)
/// and no UPnP AV service (AVTransport, RenderingControl or
/// ConnectionManager) is OpenHome only; one that offers no OpenHome service
/// is UPnP AV, and only such a renderer is.
pub proof fn law_protocol_follows_services(c: RendererCapabilities)
    ensures
        (spec_protocol(c) == RendererProtocol::OpenHomeOnly) ==> !(c.has_avtransport || c.has_rendering_control
            || c.has_connection_manager),
        (spec_protocol(c) == RendererProtocol::OpenHomeOnly) <==> (!(c.has_avtransport || c.has_rendering_control
            || c.has_connection_manager) && (c.has_oh_playlist || c.has_oh_volume || c.has_oh_info || c.has_oh_time
            || c.has_oh_radio)),
        (spec_protocol(c) == RendererProtocol::UpnpAvOnly) <==> !(c.has_oh_playlist || c.has_oh_volume || c.has_oh_info
            || c.has_oh_time || c.has_oh_radio),
        (spec_protocol(c) == RendererProtocol::Hybrid) <==> ((c.has_avtransport || c.has_rendering_control
            || c.has_connection_manager) && (c.has_oh_playlist || c.has_oh_volume || c.has_oh_info || c.has_oh_time
            || c.has_oh_radio)),
{
}

} // verus!
