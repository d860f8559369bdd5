use pmocontrol::music_renderer::linkplay_renderer::{mute_command, player_command_url, seek_command, volume_command};

#[test]
fn player_command_url_targets_httpapi() {
    assert_eq!(
        player_command_url("192.168.1.20", "pause"),
        "http://192.168.1.20/httpapi.asp?command=setPlayerCmd:pause"
    );
}

#[test]
fn volume_command_caps_at_hundred() {
    assert_eq!(volume_command(0), "vol:0");
    assert_eq!(volume_command(42), "vol:42");
    assert_eq!(volume_command(100), "vol:100");
    assert_eq!(volume_command(250), "vol:100");
}

#[test]
fn mute_command_values() {
    assert_eq!(mute_command(true), "mute:1");
    assert_eq!(mute_command(false), "mute:0");
}

#[test]
fn seek_command_converts_to_seconds() {
    assert_eq!(seek_command("00:01:05").unwrap(), "seek:65");
    assert_eq!(seek_command("01:00:00").unwrap(), "seek:3600");
    assert!(seek_command("1:05").is_err());
    assert!(seek_command("aa:bb:cc").is_err());
}

use pmocontrol::error::ControlPointError;
use pmocontrol::music_renderer::linkplay_renderer::LinkPlayRenderer;
use std::cell::RefCell;

#[test]
fn linkplay_renderer_sends_commands_to_its_host() {
    let seen = RefCell::new(Vec::new());
    let get = |url: String| {
        seen.borrow_mut().push(url);
        true
    };
    let r = LinkPlayRenderer::new("10.0.0.5".to_string());
    assert_eq!(r.host(), "10.0.0.5");
    r.play(&get).unwrap();
    r.pause(&get).unwrap();
    r.stop(&get).unwrap();
    r.set_volume(&get, 120).unwrap();
    r.set_mute(&get, true).unwrap();
    r.seek_rel_time(&get, "00:02:00").unwrap();
    let urls = seen.borrow();
    let base = "http://10.0.0.5/httpapi.asp?command=setPlayerCmd:";
    let expected: Vec<String> = ["resume", "pause", "stop", "vol:100", "mute:1", "seek:120"]
        .iter()
        .map(|c| format!("{}{}", base, c))
        .collect();
    assert_eq!(*urls, expected);
}

#[test]
fn linkplay_renderer_reports_failed_requests() {
    let get = |_url: String| false;
    let r = LinkPlayRenderer::new("host.local".to_string());
    match r.pause(&get) {
        Err(ControlPointError::ArilycTcpError(m)) => assert_eq!(m, "LinkPlay command pause failed for host.local"),
        other => panic!("unexpected {:?}", other),
    }
}

#[test]
fn linkplay_renderer_refuses_bad_seek_without_sending() {
    let seen = RefCell::new(0u32);
    let get = |_url: String| {
        *seen.borrow_mut() += 1;
        true
    };
    let r = LinkPlayRenderer::new("h".to_string());
    assert!(matches!(r.seek_rel_time(&get, "12:00"), Err(ControlPointError::InvalidTimeFormat(_))));
    assert_eq!(*seen.borrow(), 0);
}
