use std::time::Duration;

use ethryx::config::{Config, Network};
use ethryx::state::AppState;
use ethryx::uri::parse_uri;

fn refusal(cfg: Config) -> String {
    AppState::prepare(cfg).expect_err("must not start")
}

#[test]
fn default_configuration_starts() {
    let st = AppState::prepare(Config {
        cl_beacon_url: "https://beacon.example:5052//".to_string(),
        ..Config::default()
    })
    .expect("starts");
    assert_eq!(st.el_http_uri.text, "http://127.0.0.1:8545");
    assert_eq!(st.el_http_uri.scheme.as_deref(), Some("http"));
    assert_eq!(st.el_http_uri.authority.as_deref(), Some("127.0.0.1:8545"));
    assert_eq!(
        st.cl_syncing_uri.text,
        "https://beacon.example:5052/eth/v1/node/syncing"
    );
    assert_eq!(st.cl_syncing_uri.scheme.as_deref(), Some("https"));
    assert_eq!(
        st.cl_peer_count_uri.text,
        "https://beacon.example:5052/eth/v1/node/peer_count"
    );
    assert_eq!(st.cl_genesis_time, 1_606_824_023);
    assert_eq!(st.cl_seconds_per_slot, 12);
}

#[test]
fn no_listen_address_is_refused() {
    let cfg = Config {
        listen: Vec::new(),
        ..Config::default()
    };
    assert_eq!(refusal(cfg), "no listen addresses configured");
}

#[test]
fn zero_poll_interval_is_refused() {
    let cfg = Config {
        health_poll_interval: Duration::from_secs(0),
        ..Config::default()
    };
    assert_eq!(refusal(cfg), "health-poll-interval must be at least 1 second");
}

#[test]
fn a_bad_upstream_url_is_refused_with_the_parse_error() {
    let bad = "http://a b";
    let text = bad.parse::<http::Uri>().expect_err("bad").to_string();
    assert_eq!(parse_uri(bad).expect_err("bad"), text);
    let cfg = Config {
        el_http_url: bad.to_string(),
        ..Config::default()
    };
    assert_eq!(refusal(cfg), text);
    let cfg = Config {
        cl_beacon_url: bad.to_string(),
        ..Config::default()
    };
    assert_eq!(refusal(cfg), text);
}

#[test]
fn custom_network_needs_both_parameters() {
    let custom = |genesis: Option<u64>, slot: Option<u64>| Config {
        network: Network::Custom,
        cl_genesis_time: genesis,
        cl_seconds_per_slot: slot,
        ..Config::default()
    };
    assert_eq!(
        refusal(custom(None, Some(6))),
        "--network custom requires --cl-genesis-time (use 0 to disable slot-age check)"
    );
    assert_eq!(
        refusal(custom(Some(0), None)),
        "--network custom requires --cl-seconds-per-slot"
    );
    let st = AppState::prepare(custom(Some(0), Some(6))).expect("starts");
    assert_eq!((st.cl_genesis_time, st.cl_seconds_per_slot), (0, 6));
}

#[test]
fn every_authority_can_stand_in_a_header() {
    for code in 0..0x180 {
        if let Some(c) = char::from_u32(code) {
            if let Ok(uri) = parse_uri(&format!("http://u{c}p@h{c}/")) {
                let authority = uri.authority.expect("absolute");
                assert!(http::HeaderValue::from_str(&authority).is_ok(), "{authority:?}");
            }
        }
    }
}
