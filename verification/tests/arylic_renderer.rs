use pmocontrol::error::ControlPointError;
use pmocontrol::model::{DeviceId, PlaybackState, TrackMetadata};
use pmocontrol::music_renderer::arylic_tcp::{
    has_braces_in_order, ArylicCommand, ArylicPlaybackInfoRaw, ArylicReply, ArylicTcpRenderer, ARYLIC_TCP_PORT,
};
use pmocontrol::queue::PlaybackItem;
use std::cell::RefCell;

fn field(v: &serde_json::Value, k: &str) -> Option<String> {
    v.get(k).and_then(|x| x.as_str()).map(|s| s.to_string())
}

fn decode(json: String) -> Result<ArylicPlaybackInfoRaw, String> {
    let v: serde_json::Value = serde_json::from_str(&json).map_err(|e| e.to_string())?;
    Ok(ArylicPlaybackInfoRaw {
        status: field(&v, "status").ok_or("missing field `status`")?,
        curpos: field(&v, "curpos").ok_or("missing field `curpos`")?,
        totlen: field(&v, "totlen").ok_or("missing field `totlen`")?,
        vol: field(&v, "vol"),
        mute: field(&v, "mute"),
        plicount: field(&v, "plicount"),
        plicurr: field(&v, "plicurr"),
    })
}

/// A device that answers each command line with a canned answer and keeps
/// the commands it was sent.
struct FakeDevice {
    answers: Vec<(&'static str, Result<Option<String>, ControlPointError>)>,
    sent: RefCell<Vec<(String, Vec<String>, ArylicReply, String, u16)>>,
}

impl FakeDevice {
    fn new(answers: Vec<(&'static str, Result<Option<String>, ControlPointError>)>) -> Self {
        FakeDevice { answers, sent: RefCell::new(Vec::new()) }
    }

    fn send(&self, c: ArylicCommand) -> Result<Option<String>, ControlPointError> {
        self.sent.borrow_mut().push((c.line.clone(), c.expected.clone(), c.reply, c.host.clone(), c.port));
        for (line, answer) in &self.answers {
            if *line == c.line {
                return answer.clone();
            }
        }
        Ok(None)
    }

    fn lines(&self) -> Vec<String> {
        self.sent.borrow().iter().map(|s| s.0.clone()).collect()
    }
}

fn renderer() -> ArylicTcpRenderer {
    ArylicTcpRenderer::new("192.168.1.20".to_string(), ARYLIC_TCP_PORT, 3)
}

fn info(json: &str) -> Result<Option<String>, ControlPointError> {
    Ok(Some(format!("AXX+PLY+INF{}&", json)))
}

#[test]
fn transport_commands() {
    let dev = FakeDevice::new(vec![]);
    let r = renderer();
    let send = |c: ArylicCommand| dev.send(c);
    r.play(&send).unwrap();
    r.pause(&send).unwrap();
    r.stop(&send).unwrap();
    let sent = dev.sent.borrow().clone();
    assert_eq!(sent[0].0, "MCU+PLY-PLA");
    assert_eq!(sent[0].2, ArylicReply::NoResponse);
    assert!(sent[0].1.is_empty());
    assert_eq!(sent[1].0, "MCU+PLY-PUS");
    assert_eq!(sent[1].1, vec!["AXX+PLY+".to_string()]);
    assert_eq!(sent[1].2, ArylicReply::Optional);
    assert_eq!(sent[2].0, "MCU+PLY-STP");
    assert_eq!(sent[0].3, "192.168.1.20");
    assert_eq!(sent[0].4, 8899);
}

#[test]
fn transport_failure_is_passed_on() {
    let dev = FakeDevice::new(vec![(
        "MCU+PLY-PLA",
        Err(ControlPointError::ArilycTcpError("connection refused".to_string())),
    )]);
    let send = |c: ArylicCommand| dev.send(c);
    assert_eq!(renderer().play(&send).unwrap_err().message(), "connection refused");
}

#[test]
fn play_uri_and_seek_are_refused_without_sending() {
    let r = renderer();
    assert!(matches!(
        r.play_uri("http://x/a.flac", ""),
        Err(ControlPointError::UpnpOperationNotSupported(_, _))
    ));
    assert!(matches!(r.seek_rel_time("bad"), Err(ControlPointError::InvalidTimeFormat(_))));
    assert_eq!(
        r.seek_rel_time("00:01:00").unwrap_err().message(),
        "Arylic TCP seek_rel_time is not implemented yet for this device."
    );
}

#[test]
fn volume_comes_from_playback_info_when_reported() {
    let dev = FakeDevice::new(vec![(
        "MCU+PINFGET",
        info("{\"status\":\"play\",\"curpos\":\"1000\",\"totlen\":\"0\",\"vol\":\"37\"}"),
    )]);
    let send = |c: ArylicCommand| dev.send(c);
    assert_eq!(renderer().volume(&send, &decode).unwrap(), 37);
    assert_eq!(dev.lines(), vec!["MCU+PINFGET".to_string()]);
}

#[test]
fn volume_falls_back_to_volume_query() {
    let dev = FakeDevice::new(vec![
        ("MCU+PINFGET", info("{\"status\":\"play\",\"curpos\":\"1000\",\"totlen\":\"0\"}")),
        ("MCU+VOL+GET", Ok(Some("AXX+VOL+120".to_string()))),
    ]);
    let send = |c: ArylicCommand| dev.send(c);
    assert_eq!(renderer().volume(&send, &decode).unwrap(), 100);
    assert_eq!(dev.lines(), vec!["MCU+PINFGET".to_string(), "MCU+VOL+GET".to_string()]);
}

#[test]
fn volume_query_answer_must_be_readable() {
    let dev = FakeDevice::new(vec![
        ("MCU+PINFGET", Err(ControlPointError::ArilycTcpError("timeout".to_string()))),
        ("MCU+VOL+GET", Ok(Some("AXX+MUT+001".to_string()))),
    ]);
    let send = |c: ArylicCommand| dev.send(c);
    assert_eq!(
        renderer().volume(&send, &decode).unwrap_err().message(),
        "Unexpected volume response: AXX+MUT+001"
    );
}

#[test]
fn set_volume_is_capped() {
    let dev = FakeDevice::new(vec![]);
    let send = |c: ArylicCommand| dev.send(c);
    renderer().set_volume(&send, 180).unwrap();
    assert_eq!(dev.lines(), vec!["MCU+VOL+100".to_string()]);
}

#[test]
fn mute_and_set_mute() {
    let dev = FakeDevice::new(vec![
        ("MCU+PINFGET", info("{\"status\":\"stop\",\"curpos\":\"0\",\"totlen\":\"0\",\"mute\":\"1\"}")),
        ("MCU+MUT+000", Ok(Some("AXX+MUT+000".to_string()))),
        ("MCU+MUT+001", Ok(Some("AXX+MUT+7".to_string()))),
    ]);
    let send = |c: ArylicCommand| dev.send(c);
    let r = renderer();
    assert!(r.mute(&send, &decode).unwrap());
    r.set_mute(&send, false).unwrap();
    assert_eq!(r.set_mute(&send, true).unwrap_err().message(), "Invalid mute value: 7");
}

#[test]
fn mute_falls_back_to_mute_query() {
    let dev = FakeDevice::new(vec![
        ("MCU+PINFGET", info("{\"status\":\"stop\",\"curpos\":\"0\",\"totlen\":\"0\",\"mute\":\"x\"}")),
        ("MCU+MUT+GET", Ok(Some("AXX+MUT+000".to_string()))),
    ]);
    let send = |c: ArylicCommand| dev.send(c);
    assert!(!renderer().mute(&send, &decode).unwrap());
    assert_eq!(dev.lines(), vec!["MCU+PINFGET".to_string(), "MCU+MUT+GET".to_string()]);
}

#[test]
fn playback_state_from_info() {
    let dev = FakeDevice::new(vec![("MCU+PINFGET", info("{\"status\":\"pause\",\"curpos\":\"0\",\"totlen\":\"0\"}"))]);
    let send = |c: ArylicCommand| dev.send(c);
    assert!(matches!(renderer().playback_state(&send, &decode).unwrap(), PlaybackState::Paused));
}

#[test]
fn malformed_info_is_refused() {
    assert!(!has_braces_in_order("AXX+PLY+INF}x{"));
    assert!(has_braces_in_order("AXX+PLY+INF{}"));
    assert!(has_braces_in_order("AXX+PLY+INF}{"));
    let dev = FakeDevice::new(vec![("MCU+PINFGET", Ok(Some("AXX+PLY+INF}x{".to_string())))]);
    let send = |c: ArylicCommand| dev.send(c);
    assert_eq!(
        renderer().playback_state(&send, &decode).unwrap_err().message(),
        "Malformed playback info: AXX+PLY+INF}x{"
    );
}

#[test]
fn arylic_position_is_completed_from_queue_item() {
    let dev = FakeDevice::new(vec![(
        "MCU+PINFGET",
        info("{\"status\":\"play\",\"curpos\":\"61000\",\"totlen\":\"180000\",\"plicount\":\"5\",\"plicurr\":\"2\"}"),
    )]);
    let send = |c: ArylicCommand| dev.send(c);
    let item = PlaybackItem {
        media_server_id: DeviceId("srv".to_string()),
        backend_id: 0,
        didl_id: "t1".to_string(),
        uri: "http://srv/t1.flac".to_string(),
        protocol_info: "http-get:*:audio/flac:*".to_string(),
        metadata: Some(TrackMetadata {
            title: Some("Song".to_string()),
            artist: None,
            album: None,
            genre: None,
            album_art_uri: None,
            date: None,
            track_number: None,
            creator: None,
            duration: None,
            is_continuous_stream: false,
        }),
    };
    let p = renderer().playback_position(&send, &decode, Some(&item)).unwrap();
    assert_eq!(p.track, Some(2));
    assert_eq!(p.rel_time.as_deref(), Some("00:01:01"));
    assert_eq!(p.track_duration.as_deref(), Some("00:03:00"));
    assert_eq!(p.track_uri.as_deref(), Some("http://srv/t1.flac"));
    assert!(p.track_metadata.unwrap().contains("<dc:title>Song</dc:title>"));
    let bare = renderer().playback_position(&send, &decode, None).unwrap();
    assert!(bare.track_uri.is_none());
}
