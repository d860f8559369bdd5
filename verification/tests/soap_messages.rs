use pmocontrol::soap::build_soap_body;
use pmocontrol::soap::{response_element, SoapCallResult};
use pmocontrol::xml::extract_child_text_any;

fn reply_with(body: &str) -> SoapCallResult {
    SoapCallResult::from_response(
        200,
        format!(
            "<?xml version=\"1.0\"?><s:Envelope xmlns:s=\"http://schemas.xmlsoap.org/soap/envelope/\"><s:Body>{}</s:Body></s:Envelope>",
            body
        ),
    )
}

#[test]
fn parse_insert_response_accepts_newid_without_prefix() {
    let xml = r#"<u:InsertResponse xmlns:u="urn:av-openhome-org:service:Playlist:1"><NewId>1337</NewId></u:InsertResponse>"#;
    let reply = reply_with(xml);
    let response = response_element("Insert", &reply, "InsertResponse").expect("valid xml");
    let value = extract_child_text_any(response, &["NewId", "Value"]).unwrap();
    assert_eq!(value, "1337");
}

#[test]
fn parse_readlist_response_accepts_tracklist_without_prefix() {
    let xml = r#"<u:ReadListResponse xmlns:u="urn:av-openhome-org:service:Playlist:1"><TrackList>PGVudHJ5PjwvZW50cnk+</TrackList></u:ReadListResponse>"#;
    let reply = reply_with(xml);
    let response = response_element("ReadList", &reply, "ReadListResponse").expect("valid xml");
    let value = extract_child_text_any(response, &["TrackList", "Value"]).expect("tracklist");
    assert_eq!(value, "PGVudHJ5PjwvZW50cnk+");
}

#[test]
fn parse_idarray_response_accepts_array_without_prefix() {
    let xml = r#"<u:IdArrayResponse xmlns:u="urn:av-openhome-org:service:Playlist:1"><Token>1</Token><Array>AAAAAQAAAAI=</Array></u:IdArrayResponse>"#;
    let reply = reply_with(xml);
    let response = response_element("IdArray", &reply, "IdArrayResponse").expect("valid xml");
    let value = extract_child_text_any(response, &["Array", "IdArray", "Value"]).expect("array content");
    assert_eq!(value, "AAAAAQAAAAI=");
}

#[test]
fn build_body_preserves_openhome_argument_names() {
    let args = [("AfterId", "0"), ("Uri", "http://example.test/audio.flac"), ("Metadata", "<DIDL-Lite/>")];
    let xml = build_soap_body("Insert", "urn:av-openhome-org:service:Playlist:1", &args);
    assert!(xml.contains("<AfterId>0</AfterId>"));
    assert!(xml.contains("<Uri>http://example.test/audio.flac</Uri>"));
    assert!(xml.contains("<Metadata>"));
    assert!(xml.contains("</Metadata>"));
    assert!(xml.contains("DIDL-Lite"));
    assert!(!xml.contains("<aAfterId>"));
}
