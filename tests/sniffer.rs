use monitor_tab::{classify, Protocol};

#[test]
fn websocket_upgrade_is_detected() {
    assert_eq!(classify(b"GET / HTTP/1.1\r\nUpgrade: websocket\r\n\r\n"), Protocol::WebSocket);
}

#[test]
fn plain_post_is_http() {
    assert_eq!(classify(b"POST /x HTTP/1.1\r\n\r\n"), Protocol::Http);
}

#[test]
fn binary_is_raw_tcp() {
    assert_eq!(classify(b"\x01\x02\x03"), Protocol::RawTcp);
}

#[test]
fn empty_is_raw_tcp() {
    assert_eq!(classify(b""), Protocol::RawTcp);
}

#[test]
fn upgrade_header_ignores_case() {
    assert_eq!(
        classify(b"GET /ws HTTP/1.1\r\nHost: x\r\nUPGRADE: WebSocket\r\nConnection: Upgrade\r\n\r\n"),
        Protocol::WebSocket
    );
    assert_eq!(classify(b"GET / HTTP/1.1\r\nupgrade: websocket\r\n"), Protocol::WebSocket);
}

#[test]
fn upgrade_must_be_its_own_header_line() {
    assert_eq!(classify(b"GET /Upgrade: websocket HTTP/1.1\r\n\r\n"), Protocol::Http);
    assert_eq!(classify(b"GET / HTTP/1.1\r\nX-Upgrade: websocket\r\n\r\n"), Protocol::Http);
}

#[test]
fn every_verb_is_http() {
    for req in [
        &b"GET / HTTP/1.1\r\n"[..],
        b"POST / HTTP/1.1\r\n",
        b"PUT / HTTP/1.1\r\n",
        b"DELETE / HTTP/1.1\r\n",
        b"HEAD / HTTP/1.1\r\n",
        b"OPTIONS * HTTP/1.1\r\n",
    ] {
        assert_eq!(classify(req), Protocol::Http);
    }
}

#[test]
fn verbs_are_case_sensitive_and_need_a_space() {
    assert_eq!(classify(b"get / HTTP/1.1\r\n"), Protocol::RawTcp);
    assert_eq!(classify(b"GET/ HTTP/1.1\r\n"), Protocol::RawTcp);
    assert_eq!(classify(b"PATCH / HTTP/1.1\r\n"), Protocol::RawTcp);
    assert_eq!(classify(b"GET"), Protocol::RawTcp);
}

#[test]
fn truncated_utf8_tail_still_counts_as_text() {
    let mut req = b"GET /\xc3\xa9 HTTP/1.1\r\nUpgrade: websocket\r\n\r\nbody \xe6\x97".to_vec();
    assert_eq!(classify(&req), Protocol::WebSocket);
    req.push(0xff);
    assert_eq!(classify(&req), Protocol::Http);
}

#[test]
fn invalid_utf8_after_verb_is_http() {
    assert_eq!(classify(b"GET /\xff HTTP/1.1\r\n\r\n"), Protocol::Http);
    assert_eq!(classify(b"GET \xff"), Protocol::Http);
}

#[test]
fn invalid_utf8_blocks_websocket_upgrade() {
    assert_eq!(classify(b"GET /\xff HTTP/1.1\r\nUpgrade: websocket\r\n\r\n"), Protocol::Http);
}

#[test]
fn invalid_utf8_without_verb_is_raw_tcp() {
    assert_eq!(classify(b"\xff\xfeGET / HTTP/1.1\r\n"), Protocol::RawTcp);
}
