use pmocontrol::covers::{is_local_cover_url, is_webp_header, transform_cover_url, CoversConfig};

#[test]
fn covers_config_names() {
    assert_eq!(CoversConfig::file_extension(), "webp");
    assert_eq!(CoversConfig::cache_type(), "image");
    assert_eq!(CoversConfig::cache_name(), "covers");
}

#[test]
fn webp_header_detection() {
    let mut webp = b"RIFF".to_vec();
    webp.extend_from_slice(&[0x24, 0, 0, 0]);
    webp.extend_from_slice(b"WEBPVP8 ");
    assert!(is_webp_header(&webp));
    assert!(!is_webp_header(b"RIFF\0\0\0\0WAVE"));
    assert!(!is_webp_header(b"RIFF"));
    assert!(!is_webp_header(&[0xFF, 0xD8, 0xFF, 0xE0, 0, 0, 0, 0, 0, 0, 0, 0]));
}

#[test]
fn local_cover_urls() {
    assert!(is_local_cover_url("http://pmo.local:8080/covers/abc", "http://pmo.local:8080"));
    assert!(!is_local_cover_url("http://192.168.1.5/cover.jpg", "http://pmo.local:8080"));
}

#[test]
fn cover_urls_for_clients() {
    let base = "http://192.168.1.5:8080";
    let url_for = |u: &str| -> String { format!("{}{}", base, u) };
    let proxied = std::cell::RefCell::new(Vec::new());
    let proxy = |u: &str| -> Result<String, String> {
        proxied.borrow_mut().push(u.to_string());
        if u.contains("fail") {
            Err("unreachable".to_string())
        } else {
            Ok("http://192.168.1.5:8080/covers/image/abc".to_string())
        }
    };
    assert_eq!(transform_cover_url(None, base, &url_for, &proxy), None);
    assert_eq!(
        transform_cover_url(Some("/covers/image/x"), base, &url_for, &proxy).unwrap(),
        "http://192.168.1.5:8080/covers/image/x"
    );
    assert_eq!(
        transform_cover_url(Some("http://192.168.1.5:8080/covers/y"), base, &url_for, &proxy).unwrap(),
        "http://192.168.1.5:8080/covers/y"
    );
    assert!(proxied.borrow().is_empty());
    assert_eq!(
        transform_cover_url(Some("http://nas.local/art.jpg"), base, &url_for, &proxy).unwrap(),
        "http://192.168.1.5:8080/covers/image/abc"
    );
    assert_eq!(
        transform_cover_url(Some("http://nas.local/fail.jpg"), base, &url_for, &proxy).unwrap(),
        "http://nas.local/fail.jpg"
    );
    assert_eq!(proxied.borrow().len(), 2);
}
