use ethryx::ws::{
    accept_connect, bridge_start, bridge_ws, build_ws_request, build_ws_request_with, connect_answer,
    dial_reply, upgrade_answer, BridgeAction, BridgeEvent, DialError,
};
use http::{HeaderMap, HeaderName, HeaderValue};

fn h(pairs: &[(&'static str, &'static str)]) -> HeaderMap {
    let mut m = HeaderMap::new();
    for (k, v) in pairs {
        m.append(*k, HeaderValue::from_static(v));
    }
    m
}

#[test]
fn handshake_keeps_path_query_and_headers() {
    let client = h(&[
        ("host", "127.0.0.1:1"),
        ("content-length", "0"),
        ("authorization", "Bearer secret-token"),
        ("x-custom-header", "hello-world"),
        ("x-custom-header", "again"),
        ("sec-websocket-key", "dGhlIHNhbXBsZSBub25jZQ=="),
        ("sec-websocket-version", "8"),
        ("connection", "keep-alive, Upgrade"),
        ("connection", "x"),
        ("upgrade", "WebSocket"),
    ]);
    let w = build_ws_request(Some("/foo/bar?baz=qux"), client, "ws://el:8546/").expect("handshake");
    assert_eq!(w.method, "GET");
    assert_eq!(w.uri.text, "ws://el:8546/foo/bar?baz=qux");
    assert_eq!(
        w.headers,
        h(&[
            ("host", "el:8546"),
            ("authorization", "Bearer secret-token"),
            ("x-custom-header", "hello-world"),
            ("x-custom-header", "again"),
            ("sec-websocket-key", "dGhlIHNhbXBsZSBub25jZQ=="),
            ("sec-websocket-version", "8"),
            ("connection", "Upgrade"),
            ("upgrade", "websocket"),
        ])
    );
}

#[test]
fn a_missing_key_and_version_are_supplied() {
    let w = build_ws_request_with(None, h(&[]), "ws://el:8546", "abc").expect("handshake");
    assert_eq!(w.uri.text, "ws://el:8546/");
    assert_eq!(
        w.headers,
        h(&[
            ("host", "el:8546"),
            ("sec-websocket-key", "abc"),
            ("sec-websocket-version", "13"),
            ("connection", "Upgrade"),
            ("upgrade", "websocket"),
        ])
    );
}

#[test]
fn generated_keys_are_sixteen_bytes_in_base64() {
    let key = || {
        let w = build_ws_request(None, h(&[]), "ws://el:8546").expect("handshake");
        w.headers
            .get("sec-websocket-key")
            .unwrap()
            .to_str()
            .unwrap()
            .to_string()
    };
    let k = key();
    assert_eq!(k.len(), 24);
    assert!(k.ends_with("=="));
    assert!(k[..22]
        .chars()
        .all(|c| c.is_ascii_alphanumeric() || c == '+' || c == '/'));
    assert_ne!(k, key());
}

#[test]
fn extended_connect_becomes_an_upgrade() {
    let w = build_ws_request(Some("/"), h(&[("origin", "x")]), "ws://el:8546").expect("handshake");
    let mut request = http::Request::new(());
    *request.headers_mut() = w.headers;
    assert!(hyper_tungstenite::is_upgrade_request(&request));
}

#[test]
fn a_target_without_authority_has_no_host() {
    let w = build_ws_request_with(Some("/x"), h(&[("host", "a")]), "", "abc").expect("handshake");
    assert_eq!(w.uri.text, "/x");
    assert!(!w.headers.contains_key("host"));
}

#[test]
fn handshake_errors() {
    let text = "ws://e l/".parse::<http::Uri>().unwrap_err().to_string();
    assert_eq!(build_ws_request(Some("/"), h(&[]), "ws://e l").unwrap_err(), text);
    let theirs = HeaderValue::from_str("a\nb").unwrap_err().to_string();
    assert_eq!(
        build_ws_request_with(None, h(&[]), "ws://el", "a\nb").unwrap_err(),
        theirs
    );
    // A key that is not needed is not looked at.
    let given = h(&[("sec-websocket-key", "k")]);
    assert!(build_ws_request_with(None, given, "ws://el", "a\nb").is_ok());
}

#[test]
fn headers_are_added_while_the_map_has_room() {
    let filled = |n: usize| {
        let mut m = HeaderMap::new();
        for i in 0..n {
            let name = HeaderName::from_bytes(format!("x-{i}").as_bytes()).unwrap();
            m.insert(name, HeaderValue::from_static("v"));
        }
        m
    };
    let w = build_ws_request(None, filled(10_000), "ws://el").expect("handshake");
    assert_eq!(w.headers.keys_len(), 10_005);
    assert_eq!(
        build_ws_request(None, filled(24_576), "ws://el").unwrap_err(),
        "too many headers"
    );
}

#[test]
fn dial_outcomes() {
    let t = dial_reply(&DialError::Failed("HTTP error: 404 Not Found".to_string()));
    assert_eq!(t.status, 502);
    assert_eq!(t.body, "upstream ws connect failed: HTTP error: 404 Not Found");
    let t = dial_reply(&DialError::TimedOut);
    assert_eq!((t.status, t.body.as_str()), (502, "upstream ws connect timed out"));
    assert_eq!(t.content_type, "text/plain; charset=utf-8");
}

#[test]
fn an_extended_connect_is_accepted_with_200() {
    let t = accept_connect();
    assert_eq!((t.status, t.body.as_str()), (200, ""));
}

#[test]
fn nothing_is_accepted_before_the_upstream_is_open() {
    let t = connect_answer(Ok(()));
    assert_eq!((t.status, t.body.as_str()), (200, ""));
    let t = connect_answer(Err(DialError::TimedOut));
    assert_eq!((t.status, t.body.as_str()), (502, "upstream ws connect timed out"));
    assert!(upgrade_answer(Ok(())).is_ok());
    let t = upgrade_answer(Err(DialError::Failed("refused".to_string()))).unwrap_err();
    assert_eq!((t.status, t.body.as_str()), (502, "upstream ws connect failed: refused"));
}

#[test]
fn a_bridge_passes_each_frame_on_and_stops_at_the_first_failure() {
    assert_eq!(bridge_ws(BridgeEvent::Received("frame")), BridgeAction::Send("frame"));
    assert_eq!(bridge_ws::<u8>(BridgeEvent::Sent), BridgeAction::Receive);
    assert_eq!(bridge_ws::<u8>(BridgeEvent::Ended), BridgeAction::Stop);
    assert_eq!(bridge_ws::<u8>(BridgeEvent::SendFailed), BridgeAction::Stop);
}

#[test]
fn frames_come_out_as_they_came_in() {
    let frames = [3, 1, 2];
    let mut sent = Vec::new();
    let mut incoming = frames.iter();
    let mut action = bridge_start();
    loop {
        let event = match action {
            BridgeAction::Receive => match incoming.next() {
                Some(f) => BridgeEvent::Received(*f),
                None => BridgeEvent::Ended,
            },
            BridgeAction::Send(f) => {
                sent.push(f);
                BridgeEvent::Sent
            }
            BridgeAction::Stop => break,
        };
        action = bridge_ws(event);
    }
    assert_eq!(sent, frames);
}
