use pmocontrol::soap::{handle_action_response, send, SoapCallResult, SoapRequest};
use pmocontrol::upnp_clients::openhome_client::{read_insert_reply, read_tracks_max_reply, OhPlaylistClient, OhRadioClient, OhVolumeClient};
use std::cell::RefCell;

fn envelope(inner: &str) -> SoapCallResult {
    SoapCallResult::from_response(
        200,
        format!(
            "<?xml version=\"1.0\"?><s:Envelope xmlns:s=\"http://schemas.xmlsoap.org/soap/envelope/\"><s:Body>{}</s:Body></s:Envelope>",
            inner
        ),
    )
}

fn playlist() -> OhPlaylistClient {
    OhPlaylistClient::new("http://r/pl".to_string(), "urn:av-openhome-org:service:Playlist:1".to_string())
}

fn pairs(req: &SoapRequest) -> Vec<(&str, &str)> {
    req.args.iter().map(|(n, v)| (n.as_str(), v.as_str())).collect()
}

#[test]
fn insert_request_names_its_arguments() {
    let req = playlist().insert_request(7, "http://x/a.flac", "<DIDL-Lite/>");
    assert_eq!(req.action, "Insert");
    assert_eq!(req.control_url, "http://r/pl");
    assert_eq!(req.service_type, "urn:av-openhome-org:service:Playlist:1");
    assert_eq!(pairs(&req), vec![("AfterId", "7"), ("Uri", "http://x/a.flac"), ("Metadata", "<DIDL-Lite/>")]);
}

#[test]
fn transport_requests_carry_no_arguments() {
    let c = playlist();
    for (req, action) in [
        (c.play_request(), "Play"),
        (c.pause_request(), "Pause"),
        (c.stop_request(), "Stop"),
        (c.next_request(), "Next"),
        (c.previous_request(), "Previous"),
        (c.delete_all_request(), "DeleteAll"),
        (c.tracks_max_request(), "TracksMax"),
    ] {
        assert_eq!(req.action, action);
        assert!(req.args.is_empty());
    }
}

#[test]
fn valued_requests() {
    let c = playlist();
    assert_eq!(pairs(&c.seek_id_request(42)), vec![("Value", "42")]);
    assert_eq!(pairs(&c.seek_second_absolute_request(90)), vec![("Value", "90")]);
    assert_eq!(pairs(&c.delete_id_request(3)), vec![("Value", "3")]);
    let v = OhVolumeClient::new("http://r/vol".to_string(), "urn:av-openhome-org:service:Volume:1".to_string());
    assert_eq!(pairs(&v.set_volume_request(35)), vec![("Value", "35")]);
    assert_eq!(pairs(&v.set_mute_request(true)), vec![("Value", "1")]);
    assert_eq!(pairs(&v.set_mute_request(false)), vec![("Value", "0")]);
    let r = OhRadioClient::new("http://r/radio".to_string(), "urn:av-openhome-org:service:Radio:1".to_string());
    let pc = r.play_channel_request(5);
    assert_eq!(pc.action, "PlayChannel");
    assert_eq!(pairs(&pc), vec![("Id", "5")]);
}

#[test]
fn insert_reply_gives_new_id() {
    let reply = envelope("<u:InsertResponse xmlns:u=\"x\"><NewId>1337</NewId></u:InsertResponse>");
    assert_eq!(read_insert_reply(&reply).unwrap(), 1337);
    let bad = envelope("<u:InsertResponse xmlns:u=\"x\"><NewId>abc</NewId></u:InsertResponse>");
    assert!(read_insert_reply(&bad).is_err());
    let max = envelope("<u:TracksMaxResponse xmlns:u=\"x\"><Value>1000</Value></u:TracksMaxResponse>");
    assert_eq!(read_tracks_max_reply(&max).unwrap(), 1000);
}

#[test]
fn unit_reply_follows_status_and_fault() {
    assert!(handle_action_response("Play", &envelope("<u:PlayResponse xmlns:u=\"x\"/>")).is_ok());
    assert!(handle_action_response("Play", &SoapCallResult::from_response(500, "oops".to_string())).is_err());
}

#[test]
fn one_request_per_operation() {
    let seen = RefCell::new(Vec::new());
    let transport = |req: SoapRequest| {
        seen.borrow_mut().push(req.action.clone());
        envelope("<u:StopResponse xmlns:u=\"x\"/>")
    };
    let c = playlist();
    assert!(c.stop(&transport).is_ok());
    assert_eq!(*seen.borrow(), vec!["Stop".to_string()]);
    let reply = send(&transport, c.pause_request());
    assert_eq!(reply.status, 200);
    assert_eq!(seen.borrow().len(), 2);
}
