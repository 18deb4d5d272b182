use ethryx::config::Config;
use ethryx::health::{
    build_snapshot, check_cl_slot_fresh, check_cl_syncing, check_el_block_fresh, check_el_syncing,
    evaluate_ready, evaluate_ready_at, node_health, node_health_reply, ready, ready_reply, report,
    report_at, slot_age, transport_label, ClStatus, ElBlockResult, ElSyncingResult, Probe,
};
use ethryx::state::AppState;
use ethryx::time::now_unix;

fn state(strict: bool, genesis: u64) -> AppState {
    AppState::prepare(Config {
        readyz_strict: strict,
        cl_genesis_time: Some(genesis),
        cl_seconds_per_slot: Some(12),
        ..Config::default()
    })
    .expect("valid configuration")
}

fn synced_probe() -> Probe {
    Probe {
        el_syncing: Ok(ElSyncingResult::Synced(false)),
        el_peers: Ok("0x10".to_string()),
        el_block: Ok(ElBlockResult {
            number: "0x5".to_string(),
            timestamp: "0x3e2".to_string(),
        }),
        cl_status: Ok(ClStatus {
            head_slot: 10,
            sync_distance: 0,
            is_syncing: false,
        }),
        cl_peers: Ok(64),
    }
}

#[test]
fn el_syncing_false_is_synced() {
    let c = check_el_syncing(&Ok(ElSyncingResult::Synced(false)));
    assert!(c.ok);
    assert_eq!(c.detail, "synced");
}

#[test]
fn el_syncing_object_reports_block_progress() {
    let c = check_el_syncing(&Ok(ElSyncingResult::Syncing {
        current_block: "0x10".to_string(),
        highest_block: "0x20".to_string(),
    }));
    assert!(!c.ok);
    assert_eq!(c.detail, "syncing (block 16, distance 16)");
}

#[test]
fn el_syncing_error_is_prefixed() {
    let c = check_el_syncing(&Err("boom".into()));
    assert!(!c.ok);
    assert_eq!(c.detail, "eth_syncing: boom");
}

#[test]
fn el_syncing_other_forms() {
    let c = check_el_syncing(&Ok(ElSyncingResult::Synced(true)));
    assert!(!c.ok);
    assert_eq!(c.detail, "syncing (true)");
    let c = check_el_syncing(&Ok(ElSyncingResult::Syncing {
        current_block: "later".to_string(),
        highest_block: "0x20".to_string(),
    }));
    assert!(!c.ok);
    assert_eq!(c.detail, "syncing (current later, highest 0x20)");
    let c = check_el_syncing(&Ok(ElSyncingResult::Syncing {
        current_block: "0x20".to_string(),
        highest_block: "0x10".to_string(),
    }));
    assert_eq!(c.detail, "syncing (block 32, distance 0)");
}

#[test]
fn cl_syncing_synced_is_ok() {
    let s = ClStatus {
        head_slot: 42,
        sync_distance: 0,
        is_syncing: false,
    };
    let c = check_cl_syncing(&Ok(s));
    assert!(c.ok);
    assert_eq!(c.detail, "synced (slot 42, distance 0)");
}

#[test]
fn cl_syncing_in_progress_fails() {
    let s = ClStatus {
        head_slot: 42,
        sync_distance: 5,
        is_syncing: true,
    };
    let c = check_cl_syncing(&Ok(s));
    assert!(!c.ok);
    assert_eq!(c.detail, "syncing (slot 42, distance 5)");
}

#[test]
fn cl_syncing_error_names_the_endpoint() {
    let c = check_cl_syncing(&Err("http 404 Not Found".to_string()));
    assert!(!c.ok);
    assert_eq!(c.detail, "node/syncing: http 404 Not Found");
}

#[test]
fn el_block_fresh_within_threshold_is_ok() {
    let block = ElBlockResult {
        number: "0x5".to_string(),
        timestamp: "0x3e2".to_string(),
    };
    let c = check_el_block_fresh(&Ok(block), 60, 1000);
    assert!(c.ok);
    assert_eq!(c.detail, "block 5, age 6s");
}

#[test]
fn el_block_fresh_past_threshold_is_stale() {
    let block = ElBlockResult {
        number: "0x5".to_string(),
        timestamp: "0x384".to_string(),
    };
    let c = check_el_block_fresh(&Ok(block), 60, 1000);
    assert!(!c.ok);
    assert_eq!(c.detail, "block 5 stale: 100s (max 60)");
}

#[test]
fn el_block_fresh_at_the_edges() {
    let block = |timestamp: &str| -> Result<ElBlockResult, String> {
        Ok(ElBlockResult {
            number: "0x5".to_string(),
            timestamp: timestamp.to_string(),
        })
    };
    let c = check_el_block_fresh(&block("0x3ac"), 60, 1000);
    assert_eq!((c.ok, c.detail.as_str()), (true, "block 5, age 60s"));
    let c = check_el_block_fresh(&block("0x3ab"), 60, 1000);
    assert_eq!((c.ok, c.detail.as_str()), (false, "block 5 stale: 61s (max 60)"));
    // A block from the future has no age.
    let c = check_el_block_fresh(&block("0xffff"), 0, 1000);
    assert_eq!((c.ok, c.detail.as_str()), (true, "block 5, age 0s"));
    let c = check_el_block_fresh(&block("soon"), 60, 1000);
    assert_eq!((c.ok, c.detail.as_str()), (false, "block missing fields"));
    let c = check_el_block_fresh(&Err("timeout".to_string()), 60, 1000);
    assert_eq!((c.ok, c.detail.as_str()), (false, "eth_getBlockByNumber: timeout"));
}

#[test]
fn cl_slot_fresh_disabled_when_genesis_zero() {
    let s = ClStatus {
        head_slot: 7,
        sync_distance: 0,
        is_syncing: false,
    };
    let c = check_cl_slot_fresh(&Ok(s), 0, 12, 60, 9_999_999);
    assert!(c.ok);
    assert_eq!(c.detail, "slot 7 (age check disabled)");
}

#[test]
fn cl_slot_fresh_past_threshold_is_stale() {
    let s = ClStatus {
        head_slot: 10,
        sync_distance: 0,
        is_syncing: false,
    };
    let c = check_cl_slot_fresh(&Ok(s), 1000, 12, 60, 1300);
    assert!(!c.ok);
    assert_eq!(c.detail, "slot 10 stale: 180s (max 60)");
}

#[test]
fn cl_slot_fresh_within_threshold_and_on_error() {
    let s = ClStatus {
        head_slot: 10,
        sync_distance: 0,
        is_syncing: false,
    };
    let c = check_cl_slot_fresh(&Ok(s), 1000, 12, 180, 1300);
    assert_eq!((c.ok, c.detail.as_str()), (true, "slot 10, age 180s"));
    let c = check_cl_slot_fresh(&Err("down".to_string()), 0, 12, 60, 1300);
    assert_eq!((c.ok, c.detail.as_str()), (false, "node/syncing: down"));
}

#[test]
fn slot_age_computes_wall_clock_age() {
    assert_eq!(slot_age(10, 1000, 12, 1300), 180);
}

#[test]
fn slot_age_saturates_on_garbage_head_slot() {
    assert_eq!(slot_age(u64::MAX, 1_606_824_023, 12, 2_000_000_000), 0);
}

#[test]
fn slot_age_locates_the_slot_start() {
    assert_eq!(slot_age(10, 1000, 12, 1120), 0);
    assert_eq!(slot_age(10, 1000, 12, 1121), 1);
    assert_eq!(slot_age(10, 1000, 12, 1119), 0);
    assert_eq!(slot_age(1, u64::MAX, 1, u64::MAX), 0);
    assert_eq!(slot_age(0, 0, 0, u64::MAX), u64::MAX);
}

#[test]
fn snapshot_reports_numeric_values_when_healthy() {
    let snap = build_snapshot(
        &Ok(ElSyncingResult::Synced(false)),
        &Ok("0x10".to_string()),
        &Ok(ElBlockResult {
            number: "0x5".to_string(),
            timestamp: "0x3e2".to_string(),
        }),
        &Ok(ClStatus {
            head_slot: 10,
            sync_distance: 0,
            is_syncing: false,
        }),
        &Ok(64u64),
        1000,
        12,
        1300,
    );
    assert_eq!(snap.el.syncing, Some(false));
    assert_eq!(snap.el.peers, Some(16));
    assert_eq!(snap.el.block_number, Some(5));
    assert_eq!(snap.el.block_age_secs, Some(306));
    assert!(snap.el.errors.is_empty());
    assert_eq!(snap.cl.syncing, Some(false));
    assert_eq!(snap.cl.peers, Some(64));
    assert_eq!(snap.cl.head_slot, Some(10));
    assert_eq!(snap.cl.slot_age_secs, Some(180));
    assert!(snap.cl.errors.is_empty());
}

#[test]
fn snapshot_records_errors_and_omits_values_on_failure() {
    let snap = build_snapshot(
        &Err("timeout".to_string()),
        &Err("http 500".to_string()),
        &Err("timeout".to_string()),
        &Err("http 404".to_string()),
        &Err("http 404".to_string()),
        1000,
        12,
        1300,
    );
    assert_eq!(snap.el.syncing, None);
    assert_eq!(snap.el.peers, None);
    assert_eq!(snap.el.block_number, None);
    assert_eq!(snap.el.errors.len(), 3);
    assert_eq!(snap.cl.head_slot, None);
    assert_eq!(snap.cl.errors.len(), 2);
}

#[test]
fn snapshot_reports_el_sync_distance_while_syncing() {
    let snap = build_snapshot(
        &Ok(ElSyncingResult::Syncing {
            current_block: "0x10".to_string(),
            highest_block: "0x20".to_string(),
        }),
        &Err("skip".to_string()),
        &Err("skip".to_string()),
        &Err("skip".to_string()),
        &Err("skip".to_string()),
        0,
        12,
        1300,
    );
    assert_eq!(snap.el.syncing, Some(true));
    assert_eq!(snap.el.sync_distance, Some(16));
}

#[test]
fn snapshot_omits_cl_slot_age_when_genesis_disabled() {
    let snap = build_snapshot(
        &Ok(ElSyncingResult::Synced(false)),
        &Ok("0x10".to_string()),
        &Ok(ElBlockResult {
            number: "0x5".to_string(),
            timestamp: "0x3e2".to_string(),
        }),
        &Ok(ClStatus {
            head_slot: 10,
            sync_distance: 0,
            is_syncing: false,
        }),
        &Ok(64u64),
        0,
        12,
        1300,
    );
    assert_eq!(snap.cl.head_slot, Some(10));
    assert_eq!(snap.cl.slot_age_secs, None);
}

#[test]
fn snapshot_error_texts_are_exact() {
    let snap = build_snapshot(
        &Err("timeout".to_string()),
        &Ok("many".to_string()),
        &Ok(ElBlockResult {
            number: "".to_string(),
            timestamp: "0x1".to_string(),
        }),
        &Err("missing data".to_string()),
        &Err("http 404 Not Found".to_string()),
        1000,
        12,
        1300,
    );
    assert_eq!(
        snap.el.errors,
        vec![
            "eth_syncing: timeout",
            "net_peerCount invalid hex: many",
            "eth_getBlockByNumber: missing fields"
        ]
    );
    assert_eq!(
        snap.cl.errors,
        vec!["node/syncing: missing data", "node/peer_count: http 404 Not Found"]
    );
    let snap = build_snapshot(
        &Ok(ElSyncingResult::Synced(true)),
        &Err("timeout".to_string()),
        &Err("down".to_string()),
        &Err("x".to_string()),
        &Ok(3),
        1000,
        12,
        1300,
    );
    assert_eq!(snap.el.syncing, Some(true));
    assert_eq!(snap.el.sync_distance, None);
    assert_eq!(
        snap.el.errors,
        vec!["net_peerCount: timeout", "eth_getBlockByNumber: down"]
    );
    assert_eq!(snap.cl.peers, Some(3));
}

#[test]
fn pending_probe_is_all_errors() {
    let p = Probe::pending();
    assert_eq!(p.el_syncing.unwrap_err(), "warming up");
    assert_eq!(p.el_peers.unwrap_err(), "warming up");
    assert_eq!(p.el_block.unwrap_err(), "warming up");
    assert_eq!(p.cl_status.unwrap_err(), "warming up");
    assert_eq!(p.cl_peers.unwrap_err(), "warming up");
}

#[test]
fn default_readiness_ignores_age_and_peers() {
    let st = state(false, 1000);
    let mut probe = synced_probe();
    probe.el_peers = Ok("0x0".to_string());
    probe.cl_peers = Err("down".to_string());
    probe.el_block = Err("down".to_string());
    for now in [0, 1300, u64::MAX] {
        let r = evaluate_ready_at(&st, &probe, now);
        assert_eq!(r.status, "ready");
        assert!(r.is_ready());
        assert!(r.el_block_fresh.is_none());
        assert!(r.cl_slot_fresh.is_none());
    }
}

#[test]
fn unknown_or_unfinished_sync_is_not_ready() {
    let st = state(false, 1000);
    let r = evaluate_ready_at(&st, &Probe::pending(), 0);
    assert_eq!(r.status, "not_ready");
    let mut el_behind = synced_probe();
    el_behind.el_syncing = Ok(ElSyncingResult::Synced(true));
    assert!(!evaluate_ready_at(&st, &el_behind, 0).is_ready());
    let mut cl_behind = synced_probe();
    cl_behind.cl_status = Ok(ClStatus {
        head_slot: 10,
        sync_distance: 3,
        is_syncing: true,
    });
    assert!(!evaluate_ready_at(&st, &cl_behind, 0).is_ready());
    let mut cl_down = synced_probe();
    cl_down.cl_status = Err("down".to_string());
    assert!(!evaluate_ready_at(&st, &cl_down, 0).is_ready());
}

#[test]
fn strict_readiness_adds_both_freshness_checks() {
    let st = state(true, 1000);
    let probe = synced_probe();
    // The block dates from 994, the slot from 1120.
    let fresh = evaluate_ready_at(&st, &probe, 1050);
    assert_eq!(fresh.status, "ready");
    assert_eq!(fresh.el_block_fresh.expect("strict").detail, "block 5, age 56s");
    assert_eq!(fresh.cl_slot_fresh.expect("strict").detail, "slot 10, age 0s");
    let old_block = evaluate_ready_at(&st, &probe, 1100);
    assert_eq!(old_block.status, "not_ready");
    assert!(!old_block.el_block_fresh.expect("strict").ok);
    assert!(old_block.cl_slot_fresh.expect("strict").ok);
    let mut new_block = synced_probe();
    new_block.el_block = Ok(ElBlockResult {
        number: "0x6".to_string(),
        timestamp: "0x514".to_string(),
    });
    let old_slot = evaluate_ready_at(&st, &new_block, 1300);
    assert_eq!(old_slot.status, "not_ready");
    assert!(old_slot.el_block_fresh.expect("strict").ok);
    assert!(!old_slot.cl_slot_fresh.expect("strict").ok);
    // Genesis zero leaves the block alone to gate.
    assert!(evaluate_ready_at(&state(true, 0), &new_block, 1300).is_ready());
}

#[test]
fn readyz_status_follows_the_verdict() {
    let st = state(false, 1000);
    let ok = ready(&st, &synced_probe());
    assert_eq!(ok.status, 200);
    assert_eq!(ok.content_type, "application/json");
    assert_eq!(ok.body.status, "ready");
    let down = ready_reply(evaluate_ready_at(&st, &Probe::pending(), 0));
    assert_eq!(down.status, 503);
    assert_eq!(down.body.status, "not_ready");
    assert_eq!(down.body.el_syncing.detail, "eth_syncing: warming up");
    assert!(!evaluate_ready(&st, &Probe::pending()).is_ready());
}

#[test]
fn node_health_is_a_bare_status() {
    let st = state(false, 1000);
    let ok = node_health(&st, &synced_probe());
    assert_eq!((ok.status, ok.body.as_str()), (200, ""));
    let down = node_health_reply(&evaluate_ready_at(&st, &Probe::pending(), 0));
    assert_eq!((down.status, down.body.as_str()), (503, ""));
    assert_eq!(down.content_type, "text/plain; charset=utf-8");
}

#[test]
fn strict_readiness_reads_the_clock() {
    let st = state(true, 0);
    let mut probe = synced_probe();
    probe.el_block = Ok(ElBlockResult {
        number: "0x1".to_string(),
        timestamp: format!("{:x}", now_unix()),
    });
    assert_eq!(ready(&st, &probe).status, 200);
    probe.el_block = Ok(ElBlockResult {
        number: "0x1".to_string(),
        timestamp: "0x1".to_string(),
    });
    assert_eq!(ready(&st, &probe).status, 503);
}

#[test]
fn healthz_is_200_in_every_state() {
    let st = state(false, 1000);
    let ok = report_at(&st, &synced_probe(), true, 1300);
    assert_eq!(ok.status, 200);
    assert_eq!(ok.content_type, "application/json");
    assert_eq!(ok.body.el.transport, "h2c");
    assert_eq!(ok.body.cl.transport, "http/1.1");
    assert_eq!(ok.body.el.block_age_secs, Some(306));
    let down = report(&st, &Probe::pending(), false);
    assert_eq!(down.status, 200);
    assert_eq!(down.body.el.transport, "http/1.1");
    assert_eq!(down.body.el.errors.len(), 3);
    assert_eq!(down.body.cl.errors.len(), 2);
}

#[test]
fn ages_follow_the_clock_between_polls() {
    let st = state(false, 1000);
    let probe = synced_probe();
    let early = report_at(&st, &probe, true, 1300).body;
    let late = report_at(&st, &probe, true, 1307).body;
    assert_eq!(early.el.block_age_secs, Some(306));
    assert_eq!(late.el.block_age_secs, Some(313));
    assert_eq!(early.cl.slot_age_secs, Some(180));
    assert_eq!(late.cl.slot_age_secs, Some(187));
    assert_eq!(early.el.block_number, late.el.block_number);
    assert_eq!(early.cl.head_slot, late.cl.head_slot);
}

#[test]
fn transport_labels() {
    assert_eq!(transport_label(true, Some("https")), "h2");
    assert_eq!(transport_label(true, Some("http")), "h2c");
    assert_eq!(transport_label(true, None), "h2c");
    assert_eq!(transport_label(false, Some("https")), "http/1.1");
    assert_eq!(transport_label(false, None), "http/1.1");
}

#[test]
fn clock_is_past_the_epoch_of_this_library() {
    let now = now_unix();
    assert!(now > 1_700_000_000);
    let std_now = std::time::SystemTime::now()
        .duration_since(std::time::UNIX_EPOCH)
        .unwrap()
        .as_secs();
    assert!(std_now - now <= 2);
    assert_eq!(ethryx::time::unix_secs(None), 0);
    assert_eq!(ethryx::time::unix_secs(Some(std::time::Duration::from_secs(7))), 7);
    assert_eq!(ethryx::time::unix_secs(Some(std::time::Duration::from_millis(7999))), 7);
}
