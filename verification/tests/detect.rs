use demuxrs::detect::{
    detect, detect_is_http, detect_is_ssh, detect_is_tls, detect_is_xmpp, detect_protocol,
    protocol_names, recognize, registry, DetectResult, Protocol,
};

#[test]
fn test_detect_is_ssh() {
    assert_eq!(detect_is_ssh(b"notssh"), DetectResult::Failure);
    assert_eq!(detect_is_ssh(b"SSH-1.2"), DetectResult::Success);
    assert_eq!(detect_is_ssh(b"aa"), DetectResult::NotEnoughData);
}

#[test]
fn test_detect_is_http() {
    assert_eq!(detect_is_http(b"nothttp"), DetectResult::Failure);
    assert_eq!(detect_is_http(b"HTTP/1.0 200 OK"), DetectResult::Success);
    assert_eq!(detect_is_http(b"GET /"), DetectResult::Success);
}

#[test]
fn test_detect_is_tls() {
    // First bits of a ClientHello header
    assert_eq!(
        detect_is_tls(b"\x16\x03\x02\x00\x31\x01\x00\x00\x2d\x03\x02"),
        DetectResult::Success
    );
    assert_eq!(detect_is_tls(b"other data"), DetectResult::Failure);
    assert_eq!(detect_is_tls(b"aa"), DetectResult::NotEnoughData);
}

#[test]
fn test_detect_is_tls_version_byte() {
    // TLS 1.0 through 1.3 minor version bytes are accepted, later ones not.
    assert_eq!(detect_is_tls(b"\x16\x03\x00"), DetectResult::Success);
    assert_eq!(detect_is_tls(b"\x16\x03\x03"), DetectResult::Success);
    assert_eq!(detect_is_tls(b"\x16\x03\x04"), DetectResult::Failure);
    assert_eq!(detect_is_tls(b"\x17\x03\x01"), DetectResult::Failure);
}

#[test]
fn test_detect_is_http_methods_anywhere() {
    // Method tokens are matched anywhere in the prefix, not only at the start.
    assert_eq!(detect_is_http(b"xxDELETE /y"), DetectResult::Success);
    assert_eq!(detect_is_http(b"OPTIONS *"), DetectResult::Success);
    assert_eq!(detect_is_http(b"CONNECT a"), DetectResult::Success);
    assert_eq!(detect_is_http(b"TRACE /"), DetectResult::Success);
    assert_eq!(detect_is_http(b"POST /x"), DetectResult::Success);
    assert_eq!(detect_is_http(b"HEAD /x"), DetectResult::Success);
    assert_eq!(detect_is_http(b"PUT /x"), DetectResult::Success);
    assert_eq!(detect_is_http(b"ab"), DetectResult::NotEnoughData);
}

#[test]
fn test_detect_is_xmpp_window() {
    // Fewer than 50 bytes are never enough to rule XMPP out.
    let mut buf = vec![b'x'; 60];
    for (i, b) in b"jabber".iter().enumerate() {
        buf[52 + i] = *b;
    }
    assert_eq!(detect_is_xmpp(&buf[..49]), DetectResult::NotEnoughData);
    assert_eq!(detect_is_xmpp(&buf), DetectResult::Success);
    assert_eq!(detect_is_xmpp(&vec![b'x'; 50]), DetectResult::Failure);
}

#[test]
fn test_detect_ssh_scenario() {
    assert_eq!(detect(b"SSH-2.0-OpenSSH_8.1"), Some("ssh"));
    assert_eq!(detect_protocol(b"SSH-2.0-OpenSSH_8.1"), Some(Protocol::Ssh));
}

#[test]
fn test_detect_tls_scenario() {
    assert_eq!(detect(b"\x16\x03\x01\x00\x2d"), Some("tls"));
    assert_eq!(detect_protocol(b"\x16\x03\x01\x00\x2d"), Some(Protocol::Tls));
}

#[test]
fn test_detect_http_scenario() {
    // Matches both the method token and the literal HTTP.
    assert_eq!(detect(b"GET / HTTP/1.1\r\n"), Some("http"));
}

#[test]
fn test_detect_xmpp_scenario() {
    let mut buf = vec![b'x'; 60];
    for (i, b) in b"jabber".iter().enumerate() {
        buf[52 + i] = *b;
    }
    // Not detected before the 50-byte window has accumulated.
    assert_eq!(detect(&buf[..49]), None);
    assert_eq!(detect(&buf), Some("xmpp"));
}

#[test]
fn test_detect_first_match_order() {
    // A crafted buffer matching both the HTTP and SSH recognizers goes to
    // the one earlier in registry order: http.
    assert_eq!(detect_is_ssh(b"SSH-GET"), DetectResult::Success);
    assert_eq!(detect_is_http(b"SSH-GET"), DetectResult::Success);
    assert_eq!(detect(b"SSH-GET"), Some("http"));
}

#[test]
fn test_detect_match_stable_under_growth() {
    // Appending bytes never retracts a match whose signature is already
    // fully contained in the shorter prefix.
    assert_eq!(detect(b"SSH-"), Some("ssh"));
    assert_eq!(detect(b"SSH-2.0 plus trailing bytes"), Some("ssh"));
    assert_eq!(detect_is_tls(b"\x16\x03\x01"), DetectResult::Success);
    assert_eq!(detect_is_tls(b"\x16\x03\x01 and more data"), DetectResult::Success);
}

#[test]
fn test_detect_nothing() {
    assert_eq!(detect(b"zzzz zzzz"), None);
    assert_eq!(detect(b"aa"), None);
    assert_eq!(detect(b""), None);
}

#[test]
fn test_protocol_names() {
    let names = protocol_names();
    assert_eq!(names, vec!["tls", "http", "ssh", "xmpp"]);
}

#[test]
fn test_registry_order_and_recognize() {
    let reg = registry();
    assert_eq!(
        reg,
        vec![Protocol::Tls, Protocol::Http, Protocol::Ssh, Protocol::Xmpp]
    );
    for (i, p) in reg.iter().enumerate() {
        assert_eq!(p.index(), i);
    }
    assert_eq!(recognize(Protocol::Ssh, b"SSH-1.2"), DetectResult::Success);
    assert_eq!(recognize(Protocol::Tls, b"SSH-1.2"), DetectResult::Failure);
}
