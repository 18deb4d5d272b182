use ethryx::health::{ClStatus, ElBlockResult, ElSyncingResult};
use ethryx::status::StatusCode;
use ethryx::upstream::{
    accept_head, answer_for, assemble, cl_get_json, cl_peer_count, cl_syncing_status,
    decode_peers, decoded, detect_fallback, detect_primary, el_batch_rpc, is_transport, parse_decimal_str,
    read_peer_count, read_syncing, signal, split_batch, Detect, ElBatchResult, HealthError,
    RpcResponse, Sent, TransportSwitch, EL_BATCH_REQ, INITIAL_USE_H2, MAX_PROBE_BODY,
};
use serde_json::Value;

fn json(text: &str) -> Value {
    serde_json::from_str(text).expect("JSON")
}

fn status(code: u16) -> StatusCode {
    StatusCode::from_u16(code).expect("three digits")
}

fn transport() -> HealthError {
    HealthError::Transport("connection refused".to_string())
}

fn response(id: i64, result: Option<&str>, error: Option<&str>) -> RpcResponse {
    RpcResponse {
        id,
        result: result.map(|s| s.to_string()),
        error: error.map(json),
    }
}

fn good_batch() -> ElBatchResult {
    ElBatchResult {
        syncing: Ok(ElSyncingResult::Synced(false)),
        peers: Ok("0x10".to_string()),
        block: Ok(ElBlockResult {
            number: "0x1".to_string(),
            timestamp: "0x2".to_string(),
        }),
    }
}

#[test]
fn decimal_str_parses_beacon_format() {
    let v = Value::from("9412341");
    assert_eq!(parse_decimal_str(Some(&v)), Some(9_412_341));
}

#[test]
fn decimal_str_rejects_numeric_json() {
    let v = Value::from(42);
    assert_eq!(parse_decimal_str(Some(&v)), None);
}

#[test]
fn decimal_str_handles_missing_field() {
    assert_eq!(parse_decimal_str(None), None);
}

#[test]
fn decimal_str_rejects_garbage_string() {
    let v = Value::from("not a number");
    assert_eq!(parse_decimal_str(Some(&v)), None);
}

#[test]
fn decimal_str_handles_zero() {
    let v = Value::from("0");
    assert_eq!(parse_decimal_str(Some(&v)), Some(0));
}

#[test]
fn batch_request_asks_for_the_three_signals() {
    let v = json(EL_BATCH_REQ);
    let calls = v.as_array().expect("batch");
    let methods: Vec<&str> = calls.iter().map(|c| c["method"].as_str().unwrap()).collect();
    assert_eq!(
        methods,
        vec!["eth_syncing", "net_peerCount", "eth_getBlockByNumber"]
    );
    let ids: Vec<i64> = calls.iter().map(|c| c["id"].as_i64().unwrap()).collect();
    assert_eq!(ids, vec![1, 2, 3]);
    assert_eq!(calls[2]["params"], json(r#"["latest", false]"#));
    assert_eq!(MAX_PROBE_BODY, 10 * 1024 * 1024);
}

#[test]
fn health_errors_have_their_texts() {
    assert_eq!(HealthError::Timeout.text(), "timeout");
    assert_eq!(transport().text(), "transport: connection refused");
    assert_eq!(HealthError::HttpStatus(status(404)).text(), "http 404 Not Found");
    assert_eq!(HealthError::HttpStatus(status(503)).text(), "http 503 Service Unavailable");
    assert_eq!(HealthError::Decode("eof".to_string()).text(), "decode: eof");
    assert_eq!(HealthError::Rpc("{}".to_string()).text(), "rpc error: {}");
}

#[test]
fn status_text_agrees_with_http() {
    for code in 100..1000 {
        let ours = HealthError::HttpStatus(status(code)).text();
        let theirs = format!("http {}", http::StatusCode::from_u16(code).unwrap());
        assert_eq!(ours, theirs);
        assert_eq!(
            status(code).is_success(),
            http::StatusCode::from_u16(code).unwrap().is_success()
        );
        assert_eq!(status(code).as_u16(), code);
    }
    for code in [0, 99, 1000, u16::MAX] {
        assert!(StatusCode::from_u16(code).is_none());
        assert!(http::StatusCode::from_u16(code).is_err());
    }
}

#[test]
fn only_transport_and_timeout_are_connection_level() {
    assert!(is_transport(&HealthError::Timeout));
    assert!(is_transport(&transport()));
    assert!(!is_transport(&HealthError::HttpStatus(status(500))));
    assert!(!is_transport(&HealthError::Decode(String::new())));
    assert!(!is_transport(&HealthError::Rpc(String::new())));
}

#[test]
fn response_heads() {
    assert_eq!(accept_head(Sent::TimedOut), Err(HealthError::Timeout));
    assert_eq!(
        accept_head(Sent::Failed("connection refused".to_string())),
        Err(transport())
    );
    assert_eq!(accept_head(Sent::Responded(status(204))), Ok(()));
    assert_eq!(
        accept_head(Sent::Responded(status(301))),
        Err(HealthError::HttpStatus(status(301)))
    );
}

#[test]
fn decoding_keeps_values_and_names_failures() {
    assert_eq!(decoded(Ok(Ok(7u64))), Ok(7));
    assert_eq!(
        decoded::<u64>(Ok(Err("bad".to_string()))),
        Err(HealthError::Decode("bad".to_string()))
    );
    assert_eq!(decoded::<u64>(Err(HealthError::Timeout)), Err(HealthError::Timeout));
}

#[test]
fn batch_is_split_by_id() {
    let arr = vec![
        response(3, Some("{}"), None),
        response(1, Some("false"), None),
        response(2, None, Some("\"limit\"")),
    ];
    let raw = split_batch(&arr).expect("three responses");
    assert_eq!(raw.syncing, Ok("false".to_string()));
    assert_eq!(raw.peers, Err(HealthError::Rpc("\"limit\"".to_string())));
    assert_eq!(raw.block, Ok("{}".to_string()));
}

#[test]
fn a_batch_that_did_not_come_fails_as_a_whole() {
    assert_eq!(
        el_batch_rpc(Err(HealthError::Timeout)).unwrap_err(),
        HealthError::Timeout
    );
    assert_eq!(
        el_batch_rpc(Ok(Err("eof".to_string()))).unwrap_err(),
        HealthError::Decode("eof".to_string())
    );
    let arr = (1..4).map(|id| response(id, Some("1"), None)).collect();
    assert_eq!(el_batch_rpc(Ok(Ok(arr))).unwrap().block, Ok("1".to_string()));
    assert!(INITIAL_USE_H2);
}

#[test]
fn batch_order_is_free() {
    let one = || response(1, Some("false"), None);
    let two = || response(2, Some("\"0x10\""), None);
    let three = || response(3, None, None);
    for arr in [
        vec![one(), two(), three()],
        vec![three(), two(), one()],
        vec![two(), three(), one()],
    ] {
        let raw = split_batch(&arr).expect("three responses");
        assert_eq!(raw.syncing, Ok("false".to_string()));
        assert_eq!(raw.peers, Ok("\"0x10\"".to_string()));
        assert_eq!(raw.block, Err(HealthError::Decode("missing result".to_string())));
    }
}

#[test]
fn batch_of_another_size_is_refused() {
    assert_eq!(
        split_batch(&Vec::new()).unwrap_err().text(),
        "decode: expected 3 responses, got 0"
    );
    let four: Vec<RpcResponse> = (1..5).map(|id| response(id, Some("1"), None)).collect();
    assert_eq!(
        split_batch(&four).unwrap_err().text(),
        "decode: expected 3 responses, got 4"
    );
}

#[test]
fn missing_and_repeated_ids() {
    let arr = vec![
        response(1, Some("first"), None),
        response(1, Some("second"), None),
        response(3, Some("x"), Some(r#"{ "message": "limit", "code": -32005 }"#)),
    ];
    let raw = split_batch(&arr).expect("three responses");
    assert_eq!(raw.syncing, Ok("first".to_string()));
    assert_eq!(raw.peers.unwrap_err().text(), "decode: missing response for id 2");
    assert_eq!(
        raw.block.unwrap_err().text(),
        r#"rpc error: {"code":-32005,"message":"limit"}"#
    );
    assert_eq!(
        answer_for(&Vec::new(), 77).unwrap_err().text(),
        "decode: missing response for id 77"
    );
}

#[test]
fn peer_count_has_to_be_a_json_string() {
    assert_eq!(decode_peers(Ok("\"0x1\\u0030\"".to_string())), Ok("0x10".to_string()));
    let theirs = serde_json::from_str::<String>("16").unwrap_err().to_string();
    assert_eq!(decode_peers(Ok("16".to_string())), Err(HealthError::Decode(theirs)));
    assert_eq!(decode_peers(Err(HealthError::Timeout)), Err(HealthError::Timeout));
}

#[test]
fn an_answered_batch_settles_the_poll() {
    for prefer in [true, false] {
        match detect_primary(prefer, Ok(good_batch())) {
            Detect::Done(d) => {
                assert!(d.batch.peers.is_ok());
                assert_eq!((d.use_h2, d.switched), (prefer, None));
            }
            other => panic!("{other:?}"),
        }
        match detect_primary(prefer, Err(HealthError::HttpStatus(status(404)))) {
            Detect::Done(d) => {
                assert_eq!(d.batch.syncing, Err(HealthError::HttpStatus(status(404))));
                assert_eq!(d.batch.peers, Err(HealthError::HttpStatus(status(404))));
                assert_eq!(d.batch.block, Err(HealthError::HttpStatus(status(404))));
                assert_eq!((d.use_h2, d.switched), (prefer, None));
            }
            other => panic!("{other:?}"),
        }
        assert!(matches!(
            detect_primary(prefer, Err(HealthError::Timeout)),
            Detect::TryOther(HealthError::Timeout)
        ));
        assert!(matches!(
            detect_primary(prefer, Err(transport())),
            Detect::TryOther(HealthError::Transport(_))
        ));
    }
}

#[test]
fn the_verdict_moves_when_the_other_transport_gets_through() {
    let d = detect_fallback(true, HealthError::Timeout, Ok(good_batch()));
    assert!(!d.use_h2);
    assert_eq!(d.switched, Some(TransportSwitch::ToHttp1));
    assert_eq!(d.batch.peers, Ok("0x10".to_string()));
    let d = detect_fallback(false, transport(), Ok(good_batch()));
    assert!(d.use_h2);
    assert_eq!(d.switched, Some(TransportSwitch::ToHttp2));
    // An answer that is no success is an answer all the same.
    let d = detect_fallback(true, transport(), Err(HealthError::HttpStatus(status(404))));
    assert!(!d.use_h2);
    assert_eq!(d.batch.syncing.unwrap_err().text(), "http 404 Not Found");
}

#[test]
fn a_down_upstream_keeps_the_verdict_and_its_first_error() {
    for prefer in [true, false] {
        let d = detect_fallback(prefer, transport(), Err(HealthError::Timeout));
        assert_eq!(d.use_h2, prefer);
        assert_eq!(d.switched, None);
        assert_eq!(d.batch.syncing, Err(transport()));
        assert_eq!(d.batch.peers, Err(transport()));
        assert_eq!(d.batch.block, Err(transport()));
    }
}

#[test]
fn switches_are_worth_a_line() {
    assert_eq!(
        TransportSwitch::ToHttp1.message(),
        "EL JSON-RPC upstream stopped speaking h2c — using HTTP/1.1"
    );
    assert_eq!(
        TransportSwitch::ToHttp2.message(),
        "EL JSON-RPC upstream speaks h2c — using HTTP/2"
    );
}

#[test]
fn beacon_documents_are_decoded() {
    assert_eq!(
        cl_get_json(&Ok(br#"{"data":[1,null]}"#.to_vec())).unwrap(),
        json(r#"{"data":[1,null]}"#)
    );
    let theirs = serde_json::from_slice::<Value>(b"{").unwrap_err();
    assert_eq!(cl_get_json(&Ok(b"{".to_vec())).unwrap_err(), format!("decode: {theirs}"));
    assert_eq!(
        cl_get_json(&Err(HealthError::HttpStatus(status(404)))).unwrap_err(),
        "http 404 Not Found"
    );
}

#[test]
fn syncing_documents() {
    let doc = r#"{"data":{"is_syncing":false,"sync_distance":"0","head_slot":"9412341"}}"#;
    let expected = ClStatus {
        head_slot: 9_412_341,
        sync_distance: 0,
        is_syncing: false,
    };
    assert_eq!(read_syncing(&json(doc)), Ok(expected));
    assert_eq!(cl_syncing_status(&Ok(doc.as_bytes().to_vec())), Ok(expected));
    for (doc, error) in [
        ("[]", "missing data"),
        (r#"{"data":{}}"#, "missing is_syncing"),
        (r#"{"data":{"is_syncing":"false"}}"#, "missing is_syncing"),
        (r#"{"data":{"is_syncing":true}}"#, "missing head_slot"),
        (
            r#"{"data":{"is_syncing":true,"head_slot":7}}"#,
            "missing head_slot",
        ),
        (
            r#"{"data":{"is_syncing":true,"head_slot":"7"}}"#,
            "missing sync_distance",
        ),
    ] {
        assert_eq!(read_syncing(&json(doc)).unwrap_err(), error, "{doc}");
    }
    assert_eq!(cl_syncing_status(&Err(HealthError::Timeout)).unwrap_err(), "timeout");
}

#[test]
fn peer_count_documents() {
    assert_eq!(read_peer_count(&json(r#"{"data":{"connected":"78"}}"#)), Ok(78));
    assert_eq!(
        cl_peer_count(&Ok(br#"{"data":{"connected":"78"}}"#.to_vec())),
        Ok(78)
    );
    assert_eq!(read_peer_count(&json("7")).unwrap_err(), "missing data");
    assert_eq!(
        read_peer_count(&json(r#"{"data":{"connected":78}}"#)).unwrap_err(),
        "missing connected"
    );
    assert_eq!(
        cl_peer_count(&Err(transport())).unwrap_err(),
        "transport: connection refused"
    );
}

#[test]
fn a_poll_keeps_values_and_the_texts_of_failures() {
    assert_eq!(signal(Ok(1u64)), Ok(1));
    assert_eq!(signal::<u64>(Err(HealthError::Timeout)), Err("timeout".to_string()));
    let batch = ElBatchResult {
        peers: Err(HealthError::Rpc("x".to_string())),
        ..good_batch()
    };
    let p = assemble(batch, Err("missing data".to_string()), Ok(3));
    assert_eq!(p.el_syncing, Ok(ElSyncingResult::Synced(false)));
    assert_eq!(p.el_peers, Err("rpc error: x".to_string()));
    assert_eq!(p.el_block.unwrap().number, "0x1");
    assert_eq!(p.cl_status, Err("missing data".to_string()));
    assert_eq!(p.cl_peers, Ok(3));
}
