use pmocontrol::music_renderer::time_utils::{
    format_hhmmss, format_hhmmss_u32, ms_to_seconds, parse_hhmmss_strict, parse_time_flexible, seconds_to_ms,
};

#[test]
fn test_format_hhmmss() {
    assert_eq!(format_hhmmss(0), "00:00:00");
    assert_eq!(format_hhmmss(1), "00:00:01");
    assert_eq!(format_hhmmss(60), "00:01:00");
    assert_eq!(format_hhmmss(61), "00:01:01");
    assert_eq!(format_hhmmss(3600), "01:00:00");
    assert_eq!(format_hhmmss(3661), "01:01:01");
    assert_eq!(format_hhmmss(86399), "23:59:59");
}

#[test]
fn test_parse_time_flexible() {
    assert_eq!(parse_time_flexible("01:02:03").unwrap(), 3723);
    assert_eq!(parse_time_flexible("00:00:00").unwrap(), 0);
    assert_eq!(parse_time_flexible("23:59:59").unwrap(), 86399);

    assert_eq!(parse_time_flexible("02:03").unwrap(), 123);
    assert_eq!(parse_time_flexible("00:00").unwrap(), 0);

    assert_eq!(parse_time_flexible("42").unwrap(), 42);
    assert_eq!(parse_time_flexible("0").unwrap(), 0);

    assert!(parse_time_flexible("").is_err());
    assert!(parse_time_flexible("1:2:3:4").is_err());
    assert!(parse_time_flexible("abc").is_err());
    assert!(parse_time_flexible("1:abc").is_err());
}

#[test]
fn test_parse_hhmmss_strict() {
    assert_eq!(parse_hhmmss_strict("01:02:03").unwrap(), 3723);
    assert_eq!(parse_hhmmss_strict("00:00:00").unwrap(), 0);
    assert_eq!(parse_hhmmss_strict("23:59:59").unwrap(), 86399);

    assert!(parse_hhmmss_strict("02:03").is_err());
    assert!(parse_hhmmss_strict("42").is_err());

    assert!(parse_hhmmss_strict("00:60:00").is_err());
    assert!(parse_hhmmss_strict("00:00:60").is_err());
    assert!(parse_hhmmss_strict("abc:00:00").is_err());
}

#[test]
fn test_ms_conversions() {
    assert_eq!(ms_to_seconds(1000), 1);
    assert_eq!(ms_to_seconds(1500), 1);
    assert_eq!(ms_to_seconds(999), 0);

    assert_eq!(seconds_to_ms(1), 1000);
    assert_eq!(seconds_to_ms(0), 0);
}

#[test]
fn format_then_parse_gives_back_the_seconds() {
    for s in [0u64, 1, 59, 60, 61, 3599, 3600, 3661, 86399, 360000] {
        let text = format_hhmmss(s);
        assert_eq!(parse_hhmmss_strict(&text).unwrap(), s);
        assert_eq!(parse_time_flexible(&text).unwrap() as u64, s);
    }
}

#[test]
fn format_u32_agrees_with_u64() {
    assert_eq!(format_hhmmss_u32(3723), "01:02:03");
    assert_eq!(format_hhmmss_u32(360000), "100:00:00");
}

#[test]
fn flexible_accepts_plus_sign_and_large_hours() {
    assert_eq!(parse_time_flexible("+5").unwrap(), 5);
    assert_eq!(parse_time_flexible("100:00:00").unwrap(), 360000);
    assert!(parse_time_flexible(":").is_err());
}

#[test]
fn parsers_read_back_formatted_time() {
    for secs in [0u64, 59, 61, 3599, 3661, 86399, 360000, 4_000_000] {
        let text = format_hhmmss(secs);
        assert_eq!(parse_hhmmss_strict(&text).unwrap(), secs);
        assert_eq!(parse_time_flexible(&text).unwrap() as u64, secs);
    }
}
