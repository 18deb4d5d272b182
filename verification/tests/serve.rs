use std::time::Duration;

use ethryx::config::Config;
use ethryx::health::{evaluate_ready_at, ClStatus, ElSyncingResult, Probe};
use ethryx::proxy::RequestHead;
use ethryx::serve::{
    accept_loop, drains, el_protocol_name, gauge_backend, is_probe_path, observe, update_metrics,
    AcceptAction, AcceptEvent, AccessLog, GaugeBackend, UpstreamGauges, ACCEPT_BACKOFF_NANOS,
};
use ethryx::state::AppState;
use http::HeaderMap;

fn head(method: &str, path: &str) -> RequestHead {
    RequestHead {
        method: method.to_string(),
        path: path.to_string(),
        path_and_query: Some(path.to_string()),
        protocol: None,
        headers: HeaderMap::new(),
    }
}

#[test]
fn probe_paths_are_the_four_endpoints() {
    for path in ["/livez", "/readyz", "/healthz", "/metrics"] {
        assert!(is_probe_path(path));
    }
    for path in ["", "/", "/livez/", "/eth/v1/node/health", "livez"] {
        assert!(!is_probe_path(path));
    }
}

#[test]
fn probes_are_not_observed() {
    assert!(observe(&head("GET", "/livez"), true).is_none());
    let o = observe(&head("POST", "/"), true).expect("observed");
    assert_eq!((o.method.as_str(), o.path.as_str()), ("POST", "/"));
    assert_eq!((o.upstream, o.proto), ("EL", "HTTP"));
    let o = observe(&head("GET", "/eth/v1/x"), false).expect("observed");
    assert_eq!((o.method.as_str(), o.path.as_str()), ("GET", ""));
    assert_eq!((o.upstream, o.proto), ("CL", "HTTP"));
}

#[test]
fn a_connection_has_one_access_line() {
    let mut log = AccessLog::new(true);
    let lines: Vec<bool> = ["/livez", "/healthz", "/", "/eth/v1/x", "/readyz", "/"]
        .iter()
        .map(|p| log.record(p))
        .collect();
    assert_eq!(lines, vec![false, false, true, false, false, false]);
    let mut off = AccessLog::new(false);
    assert!(!off.record("/"));
    assert!(!off.record("/"));
}

#[test]
fn gauges_show_sync_and_peers() {
    let st = AppState::prepare(Config::default()).expect("starts");
    let pending = Probe::pending();
    assert_eq!(
        update_metrics(&pending, &evaluate_ready_at(&st, &pending, 0)),
        UpstreamGauges {
            el_up: false,
            cl_up: false,
            el_peers: 0,
            cl_peers: 0,
        }
    );
    let probe = Probe {
        el_syncing: Ok(ElSyncingResult::Synced(false)),
        el_peers: Ok("0x17".to_string()),
        cl_status: Ok(ClStatus {
            head_slot: 1,
            sync_distance: 1,
            is_syncing: true,
        }),
        cl_peers: Ok(78),
        ..Probe::pending()
    };
    assert_eq!(
        update_metrics(&probe, &evaluate_ready_at(&st, &probe, 0)),
        UpstreamGauges {
            el_up: true,
            cl_up: false,
            el_peers: 23,
            cl_peers: 78,
        }
    );
    let odd = Probe {
        el_peers: Ok("many".to_string()),
        ..Probe::pending()
    };
    assert_eq!(update_metrics(&odd, &evaluate_ready_at(&st, &odd, 0)).el_peers, 0);
}

#[test]
fn only_open_connections_are_summed() {
    assert_eq!(gauge_backend("ethryx_active_connections"), GaugeBackend::UpDown);
    assert_eq!(gauge_backend("ethryx_upstream_peers"), GaugeBackend::Gauge);
}

#[test]
fn startup_names_the_el_transport() {
    assert_eq!(el_protocol_name(true), "HTTP/2 (h2c)");
    assert_eq!(el_protocol_name(false), "HTTP/1.1");
}

#[test]
fn a_failed_accept_is_followed_by_a_pause() {
    assert_eq!(accept_loop(AcceptEvent::Shutdown), AcceptAction::Stop);
    assert_eq!(accept_loop(AcceptEvent::Accepted), AcceptAction::Serve);
    assert_eq!(accept_loop(AcceptEvent::Failed), AcceptAction::BackOff(Duration::from_millis(100)));
    assert_eq!(ACCEPT_BACKOFF_NANOS, 100_000_000);
}

#[test]
fn zero_grace_does_not_drain() {
    assert!(!drains(&Duration::from_secs(0)));
    assert!(!drains(&Duration::ZERO));
    assert!(drains(&Duration::from_secs(10)));
    assert!(drains(&Duration::from_millis(1)));
}
