use pmocontrol::model::PlaybackState;
use pmocontrol::music_renderer::arylic_tcp::{
    format_volume_command, parse_mute_payload, parse_volume_payload, playback_info_from_raw, playback_info_json,
    ArylicPlaybackInfo, ArylicPlaybackInfoRaw,
};

#[test]
fn volume_command_is_three_digits_and_capped() {
    assert_eq!(format_volume_command(5), "MCU+VOL+005");
    assert_eq!(format_volume_command(42), "MCU+VOL+042");
    assert_eq!(format_volume_command(100), "MCU+VOL+100");
    assert_eq!(format_volume_command(250), "MCU+VOL+100");
}

#[test]
fn volume_payload() {
    assert_eq!(parse_volume_payload("AXX+VOL+035").unwrap(), 35);
    assert_eq!(parse_volume_payload("AXX+VOL+ 150 ").unwrap(), 100);
    assert_eq!(parse_volume_payload("XXX").unwrap_err().message(), "Unexpected volume response: XXX");
    assert_eq!(parse_volume_payload("AXX+VOL+abc").unwrap_err().message(), "Invalid volume value: abc");
}

#[test]
fn mute_payload() {
    assert!(!parse_mute_payload("AXX+MUT+000").unwrap());
    assert!(parse_mute_payload("AXX+MUT+1").unwrap());
    assert_eq!(parse_mute_payload("AXX+MUT+2").unwrap_err().message(), "Invalid mute value: 2");
    assert!(parse_mute_payload("nope").is_err());
}

#[test]
fn playback_info_json_extraction() {
    assert_eq!(
        playback_info_json("AXX+PLY+INF{\"status\":\"play\"}&").unwrap(),
        "{\"status\":\"play\"}"
    );
    assert_eq!(
        playback_info_json("BAD").unwrap_err().message(),
        "Unexpected playback info prefix: BAD"
    );
    assert_eq!(
        playback_info_json("AXX+PLY+INFnothing").unwrap_err().message(),
        "No JSON object found in playback info: AXX+PLY+INFnothing"
    );
    assert_eq!(
        playback_info_json("AXX+PLY+INF{open").unwrap_err().message(),
        "No JSON object end found in playback info: AXX+PLY+INF{open"
    );
}

fn raw(curpos: &str, vol: Option<&str>, mute: Option<&str>, count: Option<&str>, curr: Option<&str>) -> ArylicPlaybackInfoRaw {
    ArylicPlaybackInfoRaw {
        status: "play".to_string(),
        curpos: curpos.to_string(),
        totlen: "180000".to_string(),
        vol: vol.map(|s| s.to_string()),
        mute: mute.map(|s| s.to_string()),
        plicount: count.map(|s| s.to_string()),
        plicurr: curr.map(|s| s.to_string()),
    }
}

#[test]
fn playback_info_from_fields() {
    let info = playback_info_from_raw(raw("61500", Some("120"), Some("1"), Some("3"), Some("5"))).unwrap();
    assert_eq!(info.curpos_ms, 61500);
    assert_eq!(info.totlen_ms, 180000);
    assert_eq!(info.volume, Some(100));
    assert_eq!(info.mute, Some(true));
    assert_eq!(info.playlist_size, Some(3));
    assert_eq!(info.track_index, Some(5));
    let pos = info.position_info();
    assert_eq!(pos.track, Some(3));
    assert_eq!(pos.rel_time.as_deref(), Some("00:01:01"));
    assert_eq!(pos.track_duration.as_deref(), Some("00:03:00"));
    assert!(matches!(info.playback_state(), PlaybackState::Playing));

    let info = playback_info_from_raw(raw("0", Some("x"), Some("7"), Some("0"), Some("0"))).unwrap();
    assert_eq!(info.volume, None);
    assert_eq!(info.mute, None);
    assert_eq!(info.playlist_size, None);
    assert_eq!(info.track_index, None);

    let e = playback_info_from_raw(raw("soon", None, None, None, None)).unwrap_err();
    assert_eq!(e.message(), "Invalid curpos value: soon");
}

#[test]
fn unknown_status_is_kept() {
    let info = ArylicPlaybackInfo {
        status_raw: "load".to_string(),
        curpos_ms: 0,
        totlen_ms: 0,
        volume: None,
        mute: None,
        playlist_size: None,
        track_index: None,
    };
    match info.playback_state() {
        PlaybackState::Unknown(s) => assert_eq!(s, "load"),
        _ => panic!("expected an unknown state"),
    }
    assert!(info.position_info().track_duration.is_none());
}
