use ethryx::headers::{
    inject_header, is_header_name, is_header_value, strip_hop_by_hop, INSERT_LIMIT,
};
use http::{HeaderMap, HeaderName, HeaderValue};

fn h(pairs: &[(&'static str, &'static str)]) -> HeaderMap<HeaderValue> {
    let mut m = HeaderMap::new();
    for (k, v) in pairs {
        m.insert(*k, HeaderValue::from_static(v));
    }
    m
}

#[test]
fn removes_known_hop_by_hop() {
    let mut m = h(&[
        ("host", "example.com"),
        ("connection", "keep-alive"),
        ("content-length", "42"),
        ("transfer-encoding", "chunked"),
        ("upgrade", "websocket"),
        ("content-type", "application/json"),
    ]);
    strip_hop_by_hop(&mut m);
    assert!(!m.contains_key("host"));
    assert!(!m.contains_key("connection"));
    assert!(!m.contains_key("content-length"));
    assert!(!m.contains_key("transfer-encoding"));
    assert!(!m.contains_key("upgrade"));
    assert!(m.contains_key("content-type"));
}

#[test]
fn is_case_insensitive_via_canonical_lookup() {
    let mut m = h(&[("Host", "x"), ("CONNECTION", "close")]);
    strip_hop_by_hop(&mut m);
    assert!(m.is_empty());
}

#[test]
fn empty_map_is_noop() {
    let mut m: HeaderMap<HeaderValue> = HeaderMap::new();
    strip_hop_by_hop(&mut m);
    assert!(m.is_empty());
}

#[test]
fn preserves_unrelated_headers() {
    let mut m = h(&[
        ("authorization", "Bearer x"),
        ("x-custom", "1"),
        ("user-agent", "ethryx"),
    ]);
    strip_hop_by_hop(&mut m);
    assert_eq!(m.len(), 3);
}

#[test]
fn strips_every_hop_by_hop_name_and_all_its_values() {
    let mut m = h(&[
        ("connection", "x"),
        ("keep-alive", "x"),
        ("proxy-authenticate", "x"),
        ("proxy-authorization", "x"),
        ("te", "x"),
        ("trailer", "x"),
        ("trailers", "x"),
        ("transfer-encoding", "x"),
        ("upgrade", "x"),
        ("host", "x"),
        ("content-length", "1"),
        ("accept", "a"),
    ]);
    m.append("connection", HeaderValue::from_static("y"));
    m.append("accept", HeaderValue::from_static("b"));
    strip_hop_by_hop(&mut m);
    let accept: Vec<&HeaderValue> = m.get_all("accept").iter().collect();
    assert_eq!(accept, vec!["a", "b"]);
    assert_eq!(m.keys_len(), 1);
    let once = m.clone();
    strip_hop_by_hop(&mut m);
    assert_eq!(m, once);
}

#[test]
fn value_check_agrees_with_http() {
    for code in (0..0x300).chain(0xFF00..0x10100) {
        if let Some(c) = char::from_u32(code) {
            let s = format!("a{c}b");
            assert_eq!(is_header_value(&s), HeaderValue::from_str(&s).is_ok(), "{s:?}");
        }
    }
    assert!(is_header_value(""));
}

#[test]
fn name_check_agrees_with_http() {
    for code in 0..0x300 {
        if let Some(c) = char::from_u32(code) {
            let s = format!("a{c}");
            assert_eq!(
                is_header_name(&s),
                HeaderName::from_bytes(s.as_bytes()).is_ok(),
                "{s:?}"
            );
        }
    }
    for len in [0, 1, 65_534, 65_535, 65_536] {
        let s = "a".repeat(len);
        assert_eq!(is_header_name(&s), HeaderName::from_bytes(s.as_bytes()).is_ok());
    }
}

#[test]
fn injecting_replaces_every_value_under_the_name() {
    let mut m = h(&[("traceparent", "old"), ("accept", "a")]);
    m.append("traceparent", HeaderValue::from_static("older"));
    assert!(inject_header(&mut m, "TraceParent", "00-new-01"));
    let values: Vec<&HeaderValue> = m.get_all("traceparent").iter().collect();
    assert_eq!(values, vec!["00-new-01"]);
    assert_eq!(m.get("accept").unwrap(), "a");
    assert!(inject_header(&mut m, "tracestate", "é\t~"));
    assert_eq!(m.get("tracestate").unwrap().as_bytes(), "é\t~".as_bytes());
}

#[test]
fn injecting_what_is_no_header_changes_nothing() {
    let mut m = h(&[("accept", "a")]);
    let before = m.clone();
    assert!(!inject_header(&mut m, "bad name", "x"));
    assert!(!inject_header(&mut m, "", "x"));
    assert!(!inject_header(&mut m, "x", "line\nbreak"));
    assert_eq!(m, before);
    assert!(inject_header(&mut m, "x", "y"));
    assert_eq!(m.get("x").unwrap(), "y");
}

fn filled(n: usize) -> HeaderMap {
    let mut m = HeaderMap::new();
    for i in 0..n {
        let name = HeaderName::from_bytes(format!("x-{i}").as_bytes()).unwrap();
        m.insert(name, HeaderValue::from_static("v"));
    }
    m
}

#[test]
fn there_is_room_beyond_the_limit() {
    let mut m = filled(INSERT_LIMIT);
    assert!(inject_header(&mut m, "one-more", "v"));
    assert!(inject_header(&mut m, "yet-another", "v"));
    assert_eq!(m.keys_len(), INSERT_LIMIT + 2);
}

#[test]
fn a_full_map_is_left_alone() {
    let mut m = filled(24_576);
    let before = m.clone();
    assert!(!inject_header(&mut m, "one-more", "v"));
    assert_eq!(m, before);
}
