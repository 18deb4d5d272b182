use ethryx::config::Config;
use ethryx::health::{ClStatus, ElBlockResult, ElSyncingResult, Probe};
use ethryx::proxy::{
    classify_request, dispatch, failure_reply, http_proxy, is_cl_path, livez, route,
    upstream_target, ForwardError, LocalReply, RequestHead, Route,
};
use ethryx::state::AppState;
use http::{HeaderMap, HeaderValue};

fn head(method: &str, uri: &str) -> RequestHead {
    let uri: http::Uri = uri.parse().expect("URI");
    RequestHead {
        method: method.to_string(),
        path: uri.path().to_string(),
        path_and_query: uri.path_and_query().map(|pq| pq.as_str().to_string()),
        protocol: None,
        headers: HeaderMap::new(),
    }
}

fn upgrade(uri: &str, connection: &'static str, upgrade: &'static str) -> RequestHead {
    let mut req = head("GET", uri);
    req.headers
        .insert("connection", HeaderValue::from_static(connection));
    req.headers
        .insert("upgrade", HeaderValue::from_static(upgrade));
    req
}

fn connect(uri: &str, protocol: &str) -> RequestHead {
    let mut req = head("CONNECT", uri);
    req.protocol = Some(protocol.to_string());
    req
}

fn synced() -> Probe {
    Probe {
        el_syncing: Ok(ElSyncingResult::Synced(false)),
        el_peers: Ok("0x10".to_string()),
        el_block: Ok(ElBlockResult {
            number: "0x5".to_string(),
            timestamp: "0x3e2".to_string(),
        }),
        cl_status: Ok(ClStatus {
            head_slot: 10,
            sync_distance: 0,
            is_syncing: false,
        }),
        cl_peers: Ok(64),
    }
}

#[test]
fn test_is_cl_path() {
    // Positive cases: Standard and client-specific CL prefixes
    assert!(is_cl_path("/eth"));
    assert!(is_cl_path("/eth/"));
    assert!(is_cl_path("/eth/v1/node/syncing"));

    assert!(is_cl_path("/teku"));
    assert!(is_cl_path("/teku/"));
    assert!(is_cl_path("/teku/v1/node/syncing"));

    assert!(is_cl_path("/prysm"));
    assert!(is_cl_path("/prysm/"));
    assert!(is_cl_path("/prysm/v1/node/syncing"));

    assert!(is_cl_path("/nimbus"));
    assert!(is_cl_path("/nimbus/"));
    assert!(is_cl_path("/nimbus/v1/node/syncing"));

    assert!(is_cl_path("/lodestar"));
    assert!(is_cl_path("/lodestar/"));
    assert!(is_cl_path("/lodestar/v1/node/syncing"));

    assert!(is_cl_path("/lighthouse"));
    assert!(is_cl_path("/lighthouse/"));
    assert!(is_cl_path("/lighthouse/v1/node/syncing"));

    // Negative cases
    assert!(!is_cl_path("/"));
    assert!(!is_cl_path(""));
    assert!(!is_cl_path("/healthz"));
    assert!(!is_cl_path("/readyz"));
    assert!(!is_cl_path("/livez"));
    assert!(!is_cl_path("/lighthousestuff"));
    assert!(!is_cl_path("/prys"));
    assert!(!is_cl_path("eth"));
}

#[test]
fn test_classify_request() {
    // 1. CL Path HTTP request
    let req = head("GET", "/eth/v1/node/syncing");
    assert_eq!(classify_request(&req), ("CL", "HTTP"));

    // 2. EL Path HTTP request
    let req = head("GET", "/");
    assert_eq!(classify_request(&req), ("EL", "HTTP"));

    // 3. WS HTTP/1.1 Upgrade request
    let req = upgrade("/", "upgrade", "websocket");
    assert_eq!(classify_request(&req), ("EL", "WS"));

    // 4. WS HTTP/2 Extended CONNECT request
    let req = connect("/", "websocket");
    assert_eq!(classify_request(&req), ("EL", "WS"));
}

#[test]
fn own_endpoints_answer_get_and_head() {
    for method in ["GET", "HEAD"] {
        for (path, expected) in [
            ("/healthz", Route::Healthz),
            ("/readyz", Route::Readyz),
            ("/livez", Route::Livez),
            ("/metrics", Route::Metrics),
            ("/eth/v1/node/health", Route::NodeHealth),
            ("/readyz?verbose", Route::Readyz),
        ] {
            assert_eq!(route(&head(method, path), true), expected);
        }
    }
    assert_eq!(route(&head("POST", "/healthz"), true), Route::El { use_h2: true });
    assert_eq!(route(&head("POST", "/eth/v1/node/health"), true), Route::Cl);
    assert_eq!(route(&head("GET", "/healthz/"), false), Route::El { use_h2: false });
}

#[test]
fn beacon_paths_go_to_the_cl() {
    for path in [
        "/eth/v1/beacon/genesis",
        "/lighthouse/version",
        "/prysm/v1/node/syncing",
        "/teku/v1/node/syncing",
        "/lodestar/v1/node/syncing",
        "/nimbus/v1/node/syncing",
    ] {
        assert_eq!(route(&head("GET", path), true), Route::Cl);
        assert_eq!(route(&upgrade(path, "Upgrade", "websocket"), true), Route::Cl);
        assert_eq!(route(&connect(path, "websocket"), true), Route::Cl);
    }
}

#[test]
fn websockets_go_to_the_el() {
    assert_eq!(route(&upgrade("/", "Upgrade", "websocket"), true), Route::WsH1);
    assert_eq!(
        route(&upgrade("/", "keep-alive , UPGRADE", "h2c, WebSocket"), true),
        Route::WsH1
    );
    assert_eq!(route(&connect("/ws", "websocket"), true), Route::WsH2);
    for req in [
        upgrade("/", "keep-alive", "websocket"),
        upgrade("/", "upgrade", "h2c"),
        upgrade("/", "upgrades", "websocket"),
        connect("/", "connect-udp"),
        head("CONNECT", "/"),
        head("POST", "/"),
    ] {
        assert_eq!(route(&req, true), Route::El { use_h2: true });
        assert_eq!(classify_request(&req), ("EL", "HTTP"));
    }
    let mut get = head("GET", "/");
    get.protocol = Some("websocket".to_string());
    assert_eq!(route(&get, false), Route::El { use_h2: false });
}

#[test]
fn upgrade_marks_may_be_spread_over_several_values() {
    let mut req = head("GET", "/");
    req.headers
        .append("connection", HeaderValue::from_static("keep-alive"));
    req.headers
        .append("connection", HeaderValue::from_static("upgrade"));
    req.headers
        .append("upgrade", HeaderValue::from_static("websocket"));
    assert_eq!(route(&req, true), Route::WsH1);
}

#[test]
fn targets_join_base_and_path() {
    assert_eq!(upstream_target("http://el:8545", Some("/")), "http://el:8545/");
    assert_eq!(
        upstream_target("http://el:8545//", Some("/a/b?c=d")),
        "http://el:8545/a/b?c=d"
    );
    assert_eq!(upstream_target("http://el/base/", None), "http://el/base/");
    assert_eq!(upstream_target("", None), "/");
}

#[test]
fn forwarded_requests_lose_their_hop_by_hop_headers() {
    let mut headers = HeaderMap::new();
    headers.insert("host", HeaderValue::from_static("sidecar"));
    headers.insert("connection", HeaderValue::from_static("close"));
    headers.insert("content-type", HeaderValue::from_static("application/json"));
    let uri = http_proxy(Some("/x?y=z"), "http://el:8545/", &mut headers).expect("URI");
    assert_eq!(uri.text, "http://el:8545/x?y=z");
    assert_eq!(uri.authority.as_deref(), Some("el:8545"));
    assert_eq!(headers.len(), 1);
    assert_eq!(headers.get("content-type").unwrap(), "application/json");
}

#[test]
fn a_target_that_is_no_uri_is_an_error_and_changes_nothing() {
    let mut headers = HeaderMap::new();
    headers.insert("host", HeaderValue::from_static("sidecar"));
    let text = "http://e l/".parse::<http::Uri>().unwrap_err().to_string();
    assert_eq!(http_proxy(Some("/"), "http://e l", &mut headers).unwrap_err(), text);
    assert!(headers.contains_key("host"));
}

#[test]
fn failed_forwards_are_bad_gateways() {
    let t = failure_reply(&ForwardError::TimedOut);
    assert_eq!((t.status, t.body.as_str()), (502, "upstream timeout"));
    let t = failure_reply(&ForwardError::Failed("client error (Connect)".to_string()));
    assert_eq!((t.status, t.body.as_str()), (502, "client error (Connect)"));
    assert_eq!(t.content_type, "text/plain; charset=utf-8");
}

#[test]
fn livez_says_ok() {
    let r = livez();
    assert_eq!((r.status, r.body.as_str()), (200, "ok"));
    assert_eq!(r.content_type, "text/plain; charset=utf-8");
}

#[test]
fn liveness_is_not_readiness() {
    let st = AppState::prepare(Config::default()).expect("starts");
    for (probe, code) in [(synced(), 200), (Probe::pending(), 503)] {
        assert!(matches!(
            dispatch(Route::Livez, &st, &probe, true),
            Some(LocalReply::Text(t)) if t.status == 200 && t.body == "ok"
        ));
        assert!(matches!(
            dispatch(Route::Healthz, &st, &probe, true),
            Some(LocalReply::Snapshot(r)) if r.status == 200 && r.body.el.transport == "h2c"
        ));
        assert!(matches!(
            dispatch(Route::Readyz, &st, &probe, true),
            Some(LocalReply::Ready(r)) if r.status == code
        ));
        assert!(matches!(
            dispatch(Route::NodeHealth, &st, &probe, true),
            Some(LocalReply::Text(t)) if t.status == code && t.body.is_empty()
        ));
        for r in [
            Route::Metrics,
            Route::Cl,
            Route::WsH1,
            Route::WsH2,
            Route::El { use_h2: true },
        ] {
            assert!(dispatch(r, &st, &probe, true).is_none());
        }
    }
}

#[test]
fn trusted_upstreams_are_judged_the_same() {
    let st = AppState::prepare(Config {
        trust_upstream: true,
        ..Config::default()
    })
    .expect("starts");
    assert!(matches!(
        dispatch(Route::Readyz, &st, &synced(), true),
        Some(LocalReply::Ready(r)) if r.status == 200 && r.body.status == "ready"
    ));
    assert!(matches!(
        dispatch(Route::NodeHealth, &st, &synced(), true),
        Some(LocalReply::Text(t)) if t.status == 200 && t.body.is_empty()
    ));
}
