use pmocontrol::model::DeviceId;
use pmocontrol::music_renderer::openhome_renderer::OpenHomeRenderer;
use pmocontrol::queue::openhome_queue::{EntryDidl, OpenHomeQueue};
use pmocontrol::queue::openhome_sync::{plan_preserve, plan_standard, select_ids, Anchor, PlaylistOp};
use pmocontrol::queue::PlaybackItem;
use pmocontrol::soap::{SoapCallResult, SoapRequest};
use pmocontrol::upnp_clients::openhome_client::OhPlaylistClient;
use std::cell::RefCell;

/// A renderer's OpenHome playlist, answering the Playlist actions.
struct FakePlaylist {
    tracks: Vec<(u32, String)>,
    next_id: u32,
    current: u32,
    actions: Vec<String>,
}

fn base64(bytes: &[u8]) -> String {
    const T: &[u8] = b"ABCDEFGHIJKLMNOPQRSTUVWXYZabcdefghijklmnopqrstuvwxyz0123456789+/";
    let mut out = String::new();
    for chunk in bytes.chunks(3) {
        let b = [chunk[0], *chunk.get(1).unwrap_or(&0), *chunk.get(2).unwrap_or(&0)];
        let n = ((b[0] as u32) << 16) | ((b[1] as u32) << 8) | b[2] as u32;
        out.push(T[(n >> 18) as usize & 63] as char);
        out.push(T[(n >> 12) as usize & 63] as char);
        out.push(if chunk.len() > 1 { T[(n >> 6) as usize & 63] as char } else { '=' });
        out.push(if chunk.len() > 2 { T[n as usize & 63] as char } else { '=' });
    }
    out
}

fn envelope(inner: &str) -> SoapCallResult {
    SoapCallResult::from_response(
        200,
        format!(
            "<?xml version=\"1.0\"?><s:Envelope xmlns:s=\"http://schemas.xmlsoap.org/soap/envelope/\"><s:Body>{}</s:Body></s:Envelope>",
            inner
        ),
    )
}

fn arg<'a>(req: &'a SoapRequest, name: &str) -> &'a str {
    req.args.iter().find(|(n, _)| n == name).map(|(_, v)| v.as_str()).unwrap()
}

impl FakePlaylist {
    fn new(uris: &[&str], current_pos: Option<usize>) -> Self {
        let tracks: Vec<(u32, String)> = uris.iter().enumerate().map(|(i, u)| (i as u32 + 1, u.to_string())).collect();
        let current = current_pos.map(|p| tracks[p].0).unwrap_or(0);
        FakePlaylist { next_id: tracks.len() as u32 + 1, tracks, current, actions: Vec::new() }
    }

    fn handle(&mut self, req: SoapRequest) -> SoapCallResult {
        let action = req.action.clone();
        match action.as_str() {
            "IdArray" => {
                let mut bytes = Vec::new();
                for (id, _) in &self.tracks {
                    bytes.extend_from_slice(&id.to_be_bytes());
                }
                envelope(&format!("<u:IdArrayResponse xmlns:u=\"x\"><Token>1</Token><Array>{}</Array></u:IdArrayResponse>", base64(&bytes)))
            }
            "Id" => envelope(&format!("<u:IdResponse xmlns:u=\"x\"><Value>{}</Value></u:IdResponse>", self.current)),
            "ReadList" => {
                let wanted: Vec<u32> = arg(&req, "IdList").split(',').map(|s| s.trim().parse().unwrap()).collect();
                let mut list = String::from("&lt;TrackList&gt;");
                for id in wanted {
                    if let Some((_, uri)) = self.tracks.iter().find(|(t, _)| *t == id) {
                        list.push_str(&format!(
                            "&lt;Entry&gt;&lt;Id&gt;{}&lt;/Id&gt;&lt;Uri&gt;{}&lt;/Uri&gt;&lt;Metadata&gt;&lt;/Metadata&gt;&lt;/Entry&gt;",
                            id, uri
                        ));
                    }
                }
                list.push_str("&lt;/TrackList&gt;");
                envelope(&format!("<u:ReadListResponse xmlns:u=\"x\"><TrackList>{}</TrackList></u:ReadListResponse>", list))
            }
            "Insert" => {
                let after: u32 = arg(&req, "AfterId").parse().unwrap();
                let uri = arg(&req, "Uri").to_string();
                let id = self.next_id;
                self.next_id += 1;
                let pos = if after == 0 { 0 } else { self.tracks.iter().position(|(t, _)| *t == after).unwrap() + 1 };
                self.tracks.insert(pos, (id, uri.clone()));
                self.actions.push(format!("Insert({},{})", after, uri));
                envelope(&format!("<u:InsertResponse xmlns:u=\"x\"><NewId>{}</NewId></u:InsertResponse>", id))
            }
            "DeleteId" => {
                let id: u32 = arg(&req, "Value").parse().unwrap();
                self.tracks.retain(|(t, _)| *t != id);
                if self.current == id {
                    self.current = 0;
                }
                self.actions.push(format!("DeleteId({})", id));
                envelope("<u:DeleteIdResponse xmlns:u=\"x\"/>")
            }
            "DeleteAll" => {
                self.tracks.clear();
                self.current = 0;
                self.actions.push("DeleteAll".to_string());
                envelope("<u:DeleteAllResponse xmlns:u=\"x\"/>")
            }
            "SeekId" => {
                let id: u32 = arg(&req, "Value").parse().unwrap();
                self.current = id;
                self.actions.push(format!("SeekId({})", id));
                envelope("<u:SeekIdResponse xmlns:u=\"x\"/>")
            }
            "Play" => {
                self.actions.push("Play".to_string());
                envelope("<u:PlayResponse xmlns:u=\"x\"/>")
            }
            other => panic!("unexpected action {}", other),
        }
    }

    fn uris(&self) -> Vec<String> {
        self.tracks.iter().map(|(_, u)| u.clone()).collect()
    }
}

fn item(uri: &str) -> PlaybackItem {
    PlaybackItem {
        media_server_id: DeviceId("srv".to_string()),
        backend_id: 0,
        didl_id: format!("didl-{}", uri),
        uri: uri.to_string(),
        protocol_info: "http-get:*:audio/flac:*".to_string(),
        metadata: None,
    }
}

fn queue() -> OpenHomeQueue {
    OpenHomeQueue::new(
        DeviceId("renderer".to_string()),
        OhPlaylistClient::new("http://host/oh/playlist".to_string(), "urn:av-openhome-org:service:Playlist:1".to_string()),
        None,
        None,
    )
}

fn describe(_xml: String) -> EntryDidl {
    EntryDidl { metadata: None, item_id: None }
}

fn sync(fake: &RefCell<FakePlaylist>, q: &mut OpenHomeQueue, uris: &[&str]) {
    let transport = |req: SoapRequest| fake.borrow_mut().handle(req);
    let never = || false;
    q.sync_queue(&transport, uris.iter().map(|u| item(u)).collect(), &never, &describe).unwrap();
}

#[test]
fn sync_keeps_playing_track_in_place() {
    let fake = RefCell::new(FakePlaylist::new(&["a", "b", "c"], Some(1)));
    let mut q = queue();
    sync(&fake, &mut q, &["x", "b", "y"]);
    let f = fake.borrow();
    assert_eq!(f.uris(), vec!["x", "b", "y"]);
    assert!(f.tracks.iter().any(|(id, u)| *id == 2 && u == "b"), "the playing track keeps its id");
    assert_eq!(f.current, 2);
    assert!(!f.actions.iter().any(|a| a == "DeleteId(2)"));
}

#[test]
fn sync_keeps_undesired_playing_track_first() {
    let fake = RefCell::new(FakePlaylist::new(&["a", "b"], Some(1)));
    let mut q = queue();
    sync(&fake, &mut q, &["x", "y"]);
    let f = fake.borrow();
    assert_eq!(f.uris(), vec!["b", "x", "y"]);
    assert_eq!(f.current, 2);
}

#[test]
fn sync_without_playing_track_diffs_whole_playlist() {
    let fake = RefCell::new(FakePlaylist::new(&["a", "b", "c"], None));
    let mut q = queue();
    sync(&fake, &mut q, &["a", "c", "d"]);
    let f = fake.borrow();
    assert_eq!(f.uris(), vec!["a", "c", "d"]);
    assert_eq!(f.actions, vec!["DeleteId(2)".to_string(), "Insert(3,d)".to_string()]);
}

#[test]
fn sync_with_nothing_desired_clears_playlist() {
    let fake = RefCell::new(FakePlaylist::new(&["a", "b"], Some(0)));
    let mut q = queue();
    sync(&fake, &mut q, &[]);
    let f = fake.borrow();
    assert!(f.tracks.is_empty());
    assert_eq!(f.actions, vec!["DeleteAll".to_string()]);
}

#[test]
fn sync_appends_and_trims_by_remembered_uris() {
    let fake = RefCell::new(FakePlaylist::new(&[], None));
    let mut q = queue();
    sync(&fake, &mut q, &["a", "b"]);
    assert_eq!(fake.borrow().uris(), vec!["a", "b"]);
    fake.borrow_mut().actions.clear();
    sync(&fake, &mut q, &["a", "b", "c"]);
    assert_eq!(fake.borrow().uris(), vec!["a", "b", "c"]);
    assert_eq!(fake.borrow().actions, vec!["Insert(2,c)".to_string()]);
    fake.borrow_mut().actions.clear();
    sync(&fake, &mut q, &["a"]);
    assert_eq!(fake.borrow().uris(), vec!["a"]);
    assert_eq!(fake.borrow().actions, vec!["DeleteId(3)".to_string(), "DeleteId(2)".to_string()]);
}

#[test]
fn standard_plan_deletes_then_rebuilds_from_head() {
    let plan = plan_standard(&[7, 8, 9], &[true, false, true], &[true, true, false], false);
    assert!(plan.failure.is_none());
    assert_eq!(
        plan.ops,
        vec![
            PlaylistOp::Delete(8),
            PlaylistOp::Keep(7, 0),
            PlaylistOp::Keep(9, 1),
            PlaylistOp::Insert(Anchor::Existing(9), 2),
        ]
    );
}

#[test]
fn standard_plan_reports_bookkeeping_mismatch() {
    let under = plan_standard(&[7], &[true], &[true, true], false);
    assert_eq!(under.failure.as_deref(), Some("OpenHome playlist refresh bookkeeping mismatch (kept entries underflow)"));
    let over = plan_standard(&[7, 8], &[true, true], &[true], false);
    assert_eq!(over.failure.as_deref(), Some("OpenHome playlist refresh bookkeeping mismatch (kept entries overflow)"));
}

#[test]
fn standard_plan_clears_all_when_nothing_kept() {
    let plan = plan_standard(&[7, 8], &[false, false], &[false], false);
    assert_eq!(plan.ops, vec![PlaylistOp::DeleteAll, PlaylistOp::Insert(Anchor::Head, 0)]);
    let kept_current = plan_standard(&[7, 8], &[false, false], &[false], true);
    assert_eq!(kept_current.ops, vec![PlaylistOp::Insert(Anchor::Head, 0)]);
}

#[test]
fn preserve_plan_chains_after_playing_track() {
    let ops = plan_preserve(&[4, 5, 6], 5, 2);
    assert_eq!(
        ops,
        vec![
            PlaylistOp::Delete(6),
            PlaylistOp::Delete(4),
            PlaylistOp::Insert(Anchor::Existing(5), 0),
            PlaylistOp::Insert(Anchor::Inserted(0), 1),
        ]
    );
    assert_eq!(select_ids(&[4, 5, 6], &[false, true, true]), vec![5, 6]);
}

fn renderer() -> OpenHomeRenderer {
    OpenHomeRenderer::new(
        Some(OhPlaylistClient::new(
            "http://host/oh/playlist".to_string(),
            "urn:av-openhome-org:service:Playlist:1".to_string(),
        )),
        None,
        None,
        None,
        None,
        None,
    )
}

#[test]
fn openhome_renderer_plays_from_index() {
    let fake = RefCell::new(FakePlaylist::new(&["a", "b", "c"], None));
    let transport = |req: SoapRequest| fake.borrow_mut().handle(req);
    let mut q = queue();
    renderer().play_from_index(&transport, &mut q, 1).unwrap();
    let f = fake.borrow();
    assert_eq!(f.current, 2);
    assert_eq!(f.actions.first().map(|s| s.as_str()), Some("SeekId(2)"));
    assert_eq!(f.actions.last().map(|s| s.as_str()), Some("Play"));
}

#[test]
fn openhome_renderer_plays_first_item_when_none_is_current() {
    let fake = RefCell::new(FakePlaylist::new(&["a", "b"], None));
    let transport = |req: SoapRequest| fake.borrow_mut().handle(req);
    let mut q = queue();
    renderer().play_from_queue(&transport, &mut q).unwrap();
    let f = fake.borrow();
    assert_eq!(f.current, 1);
    assert_eq!(f.actions, vec!["SeekId(1)".to_string(), "Play".to_string()]);
}

#[test]
fn openhome_renderer_refuses_to_play_empty_queue() {
    let fake = RefCell::new(FakePlaylist::new(&[], None));
    let transport = |req: SoapRequest| fake.borrow_mut().handle(req);
    let mut q = queue();
    let err = renderer().play_from_queue(&transport, &mut q).unwrap_err();
    assert_eq!(err.message(), "Queue is empty");
    assert!(fake.borrow().actions.is_empty());
}

fn fault(description: &str) -> SoapCallResult {
    SoapCallResult::from_response(
        500,
        format!(
            "<?xml version=\"1.0\"?><s:Envelope xmlns:s=\"http://schemas.xmlsoap.org/soap/envelope/\"><s:Body><s:Fault><detail><UPnPError><errorCode>800</errorCode><errorDescription>{}</errorDescription></UPnPError></detail></s:Fault></s:Body></s:Envelope>",
            description
        ),
    )
}

#[test]
fn read_all_tracks_reads_batches_in_order() {
    let uris: Vec<String> = (1..=70).map(|i| format!("http://x/{}", i)).collect();
    let refs: Vec<&str> = uris.iter().map(|s| s.as_str()).collect();
    let fake = RefCell::new(FakePlaylist::new(&refs, None));
    let lists = RefCell::new(Vec::new());
    let transport = |req: SoapRequest| {
        if req.action == "ReadList" {
            lists.borrow_mut().push(arg(&req, "IdList").split(',').count());
        }
        fake.borrow_mut().handle(req)
    };
    let client = OhPlaylistClient::new("http://r/ctl".to_string(), "urn:av-openhome-org:service:Playlist:1".to_string());
    let entries = client.read_all_tracks(&transport).unwrap();
    assert_eq!(entries.len(), 70);
    assert_eq!(entries[0].id(), 1);
    assert_eq!(entries[69].uri(), "http://x/70");
    assert_eq!(*lists.borrow(), vec![64, 6]);
}

#[test]
fn read_all_tracks_retries_refused_batch_one_by_one() {
    let fake = RefCell::new(FakePlaylist::new(&["a", "b", "c"], None));
    let singles = RefCell::new(0);
    let transport = |req: SoapRequest| {
        if req.action == "ReadList" && arg(&req, "IdList").contains(',') {
            return fault("Invalid OpenHome Entry Id");
        }
        if req.action == "ReadList" {
            *singles.borrow_mut() += 1;
        }
        fake.borrow_mut().handle(req)
    };
    let client = OhPlaylistClient::new("http://r/ctl".to_string(), "urn:av-openhome-org:service:Playlist:1".to_string());
    let entries = client.read_all_tracks(&transport).unwrap();
    let got: Vec<&str> = entries.iter().map(|e| e.uri()).collect();
    assert_eq!(got, vec!["a", "b", "c"]);
    assert_eq!(*singles.borrow(), 3);
}

#[test]
fn read_all_tracks_other_refusal_fails() {
    let fake = RefCell::new(FakePlaylist::new(&["a", "b"], None));
    let transport = |req: SoapRequest| {
        if req.action == "ReadList" {
            return fault("Action Failed");
        }
        fake.borrow_mut().handle(req)
    };
    let client = OhPlaylistClient::new("http://r/ctl".to_string(), "urn:av-openhome-org:service:Playlist:1".to_string());
    assert!(client.read_all_tracks(&transport).is_err());
}

fn renderer_with(product: bool) -> OpenHomeRenderer {
    let pl = OhPlaylistClient::new("http://r/pl".to_string(), "urn:av-openhome-org:service:Playlist:1".to_string());
    let prod = if product {
        Some(pmocontrol::upnp_clients::openhome_client::OhProductClient::new(
            "http://r/product".to_string(),
            "urn:av-openhome-org:service:Product:1".to_string(),
        ))
    } else {
        None
    };
    OpenHomeRenderer::new(Some(pl), None, None, None, prod, None)
}

#[test]
fn play_uri_clears_inserts_seeks_and_plays() {
    let fake = RefCell::new(FakePlaylist::new(&["old"], None));
    let transport = |req: SoapRequest| fake.borrow_mut().handle(req);
    let r = renderer_with(false);
    r.play_uri(&transport, "http://x/new.flac", "<DIDL-Lite/>").unwrap();
    let f = fake.borrow();
    assert_eq!(f.actions, vec!["DeleteAll".to_string(), "Insert(0,http://x/new.flac)".to_string(), "SeekId(2)".to_string(), "Play".to_string()]);
    assert_eq!(f.uris(), vec!["http://x/new.flac".to_string()]);
}

#[test]
fn play_selects_playlist_source_first() {
    let fake = RefCell::new(FakePlaylist::new(&["a"], None));
    let product_calls = RefCell::new(Vec::new());
    let transport = |req: SoapRequest| {
        match req.action.as_str() {
            "SourceXml" => {
                product_calls.borrow_mut().push("SourceXml".to_string());
                envelope("<u:SourceXmlResponse xmlns:u=\"x\"><Value>&lt;SourceList&gt;&lt;Source&gt;&lt;Name&gt;Radio&lt;/Name&gt;&lt;Type&gt;Radio&lt;/Type&gt;&lt;Visible&gt;true&lt;/Visible&gt;&lt;/Source&gt;&lt;Source&gt;&lt;Name&gt;Playlist&lt;/Name&gt;&lt;Type&gt;Playlist&lt;/Type&gt;&lt;Visible&gt;true&lt;/Visible&gt;&lt;/Source&gt;&lt;/SourceList&gt;</Value></u:SourceXmlResponse>")
            }
            "SourceIndex" => {
                product_calls.borrow_mut().push("SourceIndex".to_string());
                envelope("<u:SourceIndexResponse xmlns:u=\"x\"><Value>0</Value></u:SourceIndexResponse>")
            }
            "SetSourceIndex" => {
                product_calls.borrow_mut().push(format!("SetSourceIndex({})", arg(&req, "Index")));
                envelope("<u:SetSourceIndexResponse xmlns:u=\"x\"/>")
            }
            _ => fake.borrow_mut().handle(req),
        }
    };
    let r = renderer_with(true);
    r.play(&transport).unwrap();
    let calls = product_calls.borrow();
    assert_eq!(calls[0], "SourceXml");
    assert_eq!(calls[1], "SourceIndex");
    assert_eq!(calls[2], "SetSourceIndex(1)");
    assert_eq!(fake.borrow().actions, vec!["Play".to_string()]);
}

#[test]
fn play_refused_without_playlist_source() {
    let sent = RefCell::new(Vec::new());
    let transport = |req: SoapRequest| {
        sent.borrow_mut().push(req.action.clone());
        envelope("<u:SourceXmlResponse xmlns:u=\"x\"><Value>&lt;SourceList&gt;&lt;Source&gt;&lt;Name&gt;Radio&lt;/Name&gt;&lt;Type&gt;Radio&lt;/Type&gt;&lt;/Source&gt;&lt;/SourceList&gt;</Value></u:SourceXmlResponse>")
    };
    let r = renderer_with(true);
    assert!(r.play(&transport).is_err());
    assert_eq!(*sent.borrow(), vec!["SourceXml".to_string()]);
}
