//! Health of the EL + CL pair: the readiness verdict behind `/readyz` and the
//! verdict-free snapshot behind `/healthz`.

use vstd::prelude::*;

use crate::reply::{json_response, text_response, JsonReply, TextReply};
use crate::state::AppState;
use crate::text;
use crate::time::now_unix;

verus! {

/// One readiness signal: a pass/fail verdict plus a human-readable detail.
#[derive(Debug)]
pub struct Check {
    pub ok: bool,
    pub detail: String,
}

pub struct CheckView {
    pub ok: bool,
    pub detail: Seq<char>,
}

impl View for Check {
    type V = CheckView;

    open spec fn view(&self) -> CheckView {
        CheckView { ok: self.ok, detail: self.detail@ }
    }
}

/// Verdict-free snapshot of the current EL + CL state.
#[derive(Debug)]
pub struct HealthSnapshot {
    pub el: ElHealth,
    pub cl: ClHealth,
}

/// State of the execution layer. A signal that is not available is absent, and
/// what went wrong stands in `errors`.
#[derive(Debug)]
pub struct ElHealth {
    /// HTTP version of the upstream hop: `h2c` / `h2` / `http/1.1`.
    pub transport: &'static str,
    pub syncing: Option<bool>,
    pub sync_distance: Option<u64>,
    pub peers: Option<u64>,
    pub block_number: Option<u64>,
    pub block_age_secs: Option<u64>,
    pub errors: Vec<String>,
}

/// State of the consensus layer, in the same manner.
#[derive(Debug)]
pub struct ClHealth {
    /// HTTP version of the Beacon hop. It never uses h2c prior-knowledge, and an
    /// h2 negotiated over TLS is not tracked, so this is always `http/1.1`.
    pub transport: &'static str,
    pub syncing: Option<bool>,
    pub sync_distance: Option<u64>,
    pub peers: Option<u64>,
    pub head_slot: Option<u64>,
    pub slot_age_secs: Option<u64>,
    pub errors: Vec<String>,
}

pub struct ElHealthView {
    pub transport: Seq<char>,
    pub syncing: Option<bool>,
    pub sync_distance: Option<u64>,
    pub peers: Option<u64>,
    pub block_number: Option<u64>,
    pub block_age_secs: Option<u64>,
    pub errors: Seq<Seq<char>>,
}

pub struct ClHealthView {
    pub transport: Seq<char>,
    pub syncing: Option<bool>,
    pub sync_distance: Option<u64>,
    pub peers: Option<u64>,
    pub head_slot: Option<u64>,
    pub slot_age_secs: Option<u64>,
    pub errors: Seq<Seq<char>>,
}

/// The texts of a list of strings.
pub open spec fn texts(v: Seq<String>) -> Seq<Seq<char>> {
    v.map_values(|s: String| s@)
}

impl View for ElHealth {
    type V = ElHealthView;

    open spec fn view(&self) -> ElHealthView {
        ElHealthView {
            transport: self.transport@,
            syncing: self.syncing,
            sync_distance: self.sync_distance,
            peers: self.peers,
            block_number: self.block_number,
            block_age_secs: self.block_age_secs,
            errors: texts(self.errors@),
        }
    }
}

impl View for ClHealth {
    type V = ClHealthView;

    open spec fn view(&self) -> ClHealthView {
        ClHealthView {
            transport: self.transport@,
            syncing: self.syncing,
            sync_distance: self.sync_distance,
            peers: self.peers,
            head_slot: self.head_slot,
            slot_age_secs: self.slot_age_secs,
            errors: texts(self.errors@),
        }
    }
}

impl Default for ElHealth {
    fn default() -> (r: ElHealth)
        ensures
            r@ == (ElHealthView {
                transport: ""@,
                syncing: None,
                sync_distance: None,
                peers: None,
                block_number: None,
                block_age_secs: None,
                errors: Seq::empty(),
            }),
    {
        let r = ElHealth {
            transport: "",
            syncing: None,
            sync_distance: None,
            peers: None,
            block_number: None,
            block_age_secs: None,
            errors: Vec::new(),
        };
        assert(texts(r.errors@) =~= Seq::empty());
        r
    }
}

impl Default for ClHealth {
    fn default() -> (r: ClHealth)
        ensures
            r@ == (ClHealthView {
                transport: ""@,
                syncing: None,
                sync_distance: None,
                peers: None,
                head_slot: None,
                slot_age_secs: None,
                errors: Seq::empty(),
            }),
    {
        let r = ClHealth {
            transport: "",
            syncing: None,
            sync_distance: None,
            peers: None,
            head_slot: None,
            slot_age_secs: None,
            errors: Vec::new(),
        };
        assert(texts(r.errors@) =~= Seq::empty());
        r
    }
}

/// The load-balancer readiness verdict. The freshness checks are there only
/// under strict readiness. Peer counts are never part of it.
#[derive(Debug)]
pub struct ReadyReport {
    pub status: &'static str,
    pub el_syncing: Check,
    pub cl_syncing: Check,
    pub el_block_fresh: Option<Check>,
    pub cl_slot_fresh: Option<Check>,
}

pub struct ReadyView {
    pub status: Seq<char>,
    pub el_syncing: CheckView,
    pub cl_syncing: CheckView,
    pub el_block_fresh: Option<CheckView>,
    pub cl_slot_fresh: Option<CheckView>,
}

/// The view of an optional check.
pub open spec fn opt_check(c: Option<Check>) -> Option<CheckView> {
    match c {
        Some(c) => Some(c@),
        None => None,
    }
}

impl View for ReadyReport {
    type V = ReadyView;

    open spec fn view(&self) -> ReadyView {
        ReadyView {
            status: self.status@,
            el_syncing: self.el_syncing@,
            cl_syncing: self.cl_syncing@,
            el_block_fresh: opt_check(self.el_block_fresh),
            cl_slot_fresh: opt_check(self.cl_slot_fresh),
        }
    }
}

/// Beacon node sync status.
#[derive(Debug, Clone, Copy, PartialEq, Eq, Structural)]
pub struct ClStatus {
    pub head_slot: u64,
    pub sync_distance: u64,
    pub is_syncing: bool,
}

/// Result of `eth_syncing`: a flag, or the progress in hex quantities.
#[derive(Debug, Clone, PartialEq, Eq)]
pub enum ElSyncingResult {
    Synced(bool),
    Syncing { current_block: String, highest_block: String },
}

/// The fields of `eth_getBlockByNumber` that are read, as hex quantities.
#[derive(Debug, Clone, PartialEq, Eq)]
pub struct ElBlockResult {
    pub number: String,
    pub timestamp: String,
}

/// The five upstream results that one poll captures. Kept raw, so that block and
/// slot ages can be computed anew for each request.
#[derive(Debug)]
pub struct Probe {
    pub el_syncing: Result<ElSyncingResult, String>,
    pub el_peers: Result<String, String>,
    pub el_block: Result<ElBlockResult, String>,
    pub cl_status: Result<ClStatus, String>,
    pub cl_peers: Result<u64, String>,
}

impl Probe {
    /// What is held before the first poll lands: every signal is an error.
    pub fn pending() -> (p: Probe)
        ensures
            p.el_syncing is Err && p.el_syncing->Err_0@ == "warming up"@,
            p.el_peers is Err && p.el_peers->Err_0@ == "warming up"@,
            p.el_block is Err && p.el_block->Err_0@ == "warming up"@,
            p.cl_status is Err && p.cl_status->Err_0@ == "warming up"@,
            p.cl_peers is Err && p.cl_peers->Err_0@ == "warming up"@,
    {
        Probe {
            el_syncing: Err("warming up".to_owned()),
            el_peers: Err("warming up".to_owned()),
            el_block: Err("warming up".to_owned()),
            cl_status: Err("warming up".to_owned()),
            cl_peers: Err("warming up".to_owned()),
        }
    }
}

// ---- readiness verdicts: sync is a fact, freshness uses thresholds ----

/// `a - b`, and zero where that would be negative.
pub open spec fn minus(a: u64, b: u64) -> u64 {
    if a >= b {
        (a - b) as u64
    } else {
        0
    }
}

/// The verdict on the EL sync status.
pub open spec fn el_sync_check(r: Result<ElSyncingResult, String>) -> CheckView {
    match r {
        Ok(ElSyncingResult::Synced(false)) => CheckView { ok: true, detail: "synced"@ },
        Ok(ElSyncingResult::Synced(true)) => CheckView { ok: false, detail: "syncing (true)"@ },
        Ok(ElSyncingResult::Syncing { current_block, highest_block }) => CheckView {
            ok: false,
            detail: match (text::hex_value(current_block@), text::hex_value(highest_block@)) {
                (Some(c), Some(h)) => "syncing (block "@ + text::decimal(c as nat)
                    + ", distance "@ + text::decimal(minus(h, c) as nat) + ")"@,
                _ => "syncing (current "@ + current_block@ + ", highest "@ + highest_block@ + ")"@,
            },
        },
        Err(e) => CheckView { ok: false, detail: "eth_syncing: "@ + e@ },
    }
}

/// The verdict on the CL sync status.
pub open spec fn cl_sync_check(r: Result<ClStatus, String>) -> CheckView {
    match r {
        Ok(s) => CheckView {
            ok: !s.is_syncing,
            detail: (if s.is_syncing {
                "syncing (slot "@
            } else {
                "synced (slot "@
            }) + text::decimal(s.head_slot as nat) + ", distance "@ + text::decimal(
                s.sync_distance as nat,
            ) + ")"@,
        },
        Err(e) => CheckView { ok: false, detail: "node/syncing: "@ + e@ },
    }
}

/// The number and the timestamp of a block, where both are hex quantities.
pub open spec fn block_fields(b: ElBlockResult) -> Option<(u64, u64)> {
    match (text::hex_value(b.number@), text::hex_value(b.timestamp@)) {
        (Some(n), Some(t)) => Some((n, t)),
        _ => None,
    }
}

/// The verdict on the age of the latest EL block.
pub open spec fn el_fresh_check(r: Result<ElBlockResult, String>, max_age: u64, now: u64) -> CheckView {
    match r {
        Ok(b) => match block_fields(b) {
            Some((n, t)) => if minus(now, t) <= max_age {
                CheckView {
                    ok: true,
                    detail: "block "@ + text::decimal(n as nat) + ", age "@ + text::decimal(
                        minus(now, t) as nat,
                    ) + "s"@,
                }
            } else {
                CheckView {
                    ok: false,
                    detail: "block "@ + text::decimal(n as nat) + " stale: "@ + text::decimal(
                        minus(now, t) as nat,
                    ) + "s (max "@ + text::decimal(max_age as nat) + ")"@,
                }
            },
            None => CheckView { ok: false, detail: "block missing fields"@ },
        },
        Err(e) => CheckView { ok: false, detail: "eth_getBlockByNumber: "@ + e@ },
    }
}

/// When a slot starts, in Unix seconds.
pub open spec fn slot_start(head_slot: u64, genesis: u64, seconds_per_slot: u64) -> nat {
    (genesis + head_slot * seconds_per_slot) as nat
}

/// Seconds since the head slot started; zero for a slot that lies ahead.
pub open spec fn slot_age_at(head_slot: u64, genesis: u64, seconds_per_slot: u64, now: u64) -> u64 {
    if now >= slot_start(head_slot, genesis, seconds_per_slot) {
        (now - slot_start(head_slot, genesis, seconds_per_slot)) as u64
    } else {
        0
    }
}

/// The verdict on the age of the CL head slot. Genesis zero switches it off.
pub open spec fn cl_fresh_check(
    r: Result<ClStatus, String>,
    genesis: u64,
    seconds_per_slot: u64,
    max_age: u64,
    now: u64,
) -> CheckView {
    match r {
        Ok(s) => {
            let age = slot_age_at(s.head_slot, genesis, seconds_per_slot, now);
            if genesis == 0 {
                CheckView {
                    ok: true,
                    detail: "slot "@ + text::decimal(s.head_slot as nat)
                        + " (age check disabled)"@,
                }
            } else if age <= max_age {
                CheckView {
                    ok: true,
                    detail: "slot "@ + text::decimal(s.head_slot as nat) + ", age "@
                        + text::decimal(age as nat) + "s"@,
                }
            } else {
                CheckView {
                    ok: false,
                    detail: "slot "@ + text::decimal(s.head_slot as nat) + " stale: "@
                        + text::decimal(age as nat) + "s (max "@ + text::decimal(max_age as nat)
                        + ")"@,
                }
            }
        },
        Err(e) => CheckView { ok: false, detail: "node/syncing: "@ + e@ },
    }
}

pub fn check_el_syncing(r: &Result<ElSyncingResult, String>) -> (c: Check)
    ensures
        c@ == el_sync_check(*r),
{
    match r {
        Ok(ElSyncingResult::Synced(syncing)) => if *syncing {
            Check { ok: false, detail: "syncing (true)".to_owned() }
        } else {
            Check { ok: true, detail: "synced".to_owned() }
        },
        Ok(ElSyncingResult::Syncing { current_block, highest_block }) => {
            let current = text::hex_to_u64(current_block.as_str());
            let highest = text::hex_to_u64(highest_block.as_str());
            let detail = match (current, highest) {
                (Some(c), Some(h)) => {
                    let mut detail = "syncing (block ".to_owned();
                    detail.append(text::u64_decimal(c).as_str());
                    detail.append(", distance ");
                    detail.append(text::u64_decimal(h.saturating_sub(c)).as_str());
                    detail.append(")");
                    detail
                },
                _ => {
                    let mut detail = "syncing (current ".to_owned();
                    detail.append(current_block.as_str());
                    detail.append(", highest ");
                    detail.append(highest_block.as_str());
                    detail.append(")");
                    detail
                },
            };
            Check { ok: false, detail }
        },
        Err(e) => {
            let mut detail = "eth_syncing: ".to_owned();
            detail.append(e.as_str());
            Check { ok: false, detail }
        },
    }
}

pub fn check_cl_syncing(r: &Result<ClStatus, String>) -> (c: Check)
    ensures
        c@ == cl_sync_check(*r),
{
    match r {
        Ok(s) => {
            let mut detail = (if s.is_syncing { "syncing (slot " } else { "synced (slot " }).to_owned();
            detail.append(text::u64_decimal(s.head_slot).as_str());
            detail.append(", distance ");
            detail.append(text::u64_decimal(s.sync_distance).as_str());
            detail.append(")");
            Check { ok: !s.is_syncing, detail }
        },
        Err(e) => {
            let mut detail = "node/syncing: ".to_owned();
            detail.append(e.as_str());
            Check { ok: false, detail }
        },
    }
}

pub fn check_el_block_fresh(r: &Result<ElBlockResult, String>, max_age: u64, now: u64) -> (c: Check)
    ensures
        c@ == el_fresh_check(*r, max_age, now),
{
    match r {
        Ok(block) => {
            let ts = text::hex_to_u64(block.timestamp.as_str());
            let num = text::hex_to_u64(block.number.as_str());
            match (num, ts) {
                (Some(n), Some(t)) => {
                    let age = now.saturating_sub(t);
                    let mut detail = "block ".to_owned();
                    detail.append(text::u64_decimal(n).as_str());
                    if age <= max_age {
                        detail.append(", age ");
                        detail.append(text::u64_decimal(age).as_str());
                        detail.append("s");
                        Check { ok: true, detail }
                    } else {
                        detail.append(" stale: ");
                        detail.append(text::u64_decimal(age).as_str());
                        detail.append("s (max ");
                        detail.append(text::u64_decimal(max_age).as_str());
                        detail.append(")");
                        Check { ok: false, detail }
                    }
                },
                _ => Check { ok: false, detail: "block missing fields".to_owned() },
            }
        },
        Err(e) => {
            let mut detail = "eth_getBlockByNumber: ".to_owned();
            detail.append(e.as_str());
            Check { ok: false, detail }
        },
    }
}

/// Seconds since the head slot started. A head slot that no clock could reach
/// yields zero rather than an overflow.
pub fn slot_age(head_slot: u64, genesis: u64, seconds_per_slot: u64, now: u64) -> (age: u64)
    ensures
        age == slot_age_at(head_slot, genesis, seconds_per_slot, now),
{
    proof {
        assert(head_slot * seconds_per_slot >= 0) by (nonlinear_arith)
            requires
                head_slot >= 0,
                seconds_per_slot >= 0,
        ;
    }
    let since_genesis = match head_slot.checked_mul(seconds_per_slot) {
        Some(secs) => secs,
        None => u64::MAX,
    };
    now.saturating_sub(genesis.saturating_add(since_genesis))
}

pub fn check_cl_slot_fresh(
    r: &Result<ClStatus, String>,
    genesis: u64,
    seconds_per_slot: u64,
    max_age: u64,
    now: u64,
) -> (c: Check)
    ensures
        c@ == cl_fresh_check(*r, genesis, seconds_per_slot, max_age, now),
{
    match r {
        Ok(s) => {
            let mut detail = "slot ".to_owned();
            detail.append(text::u64_decimal(s.head_slot).as_str());
            if genesis == 0 {
                detail.append(" (age check disabled)");
                return Check { ok: true, detail };
            }
            let age = slot_age(s.head_slot, genesis, seconds_per_slot, now);
            if age <= max_age {
                detail.append(", age ");
                detail.append(text::u64_decimal(age).as_str());
                detail.append("s");
                Check { ok: true, detail }
            } else {
                detail.append(" stale: ");
                detail.append(text::u64_decimal(age).as_str());
                detail.append("s (max ");
                detail.append(text::u64_decimal(max_age).as_str());
                detail.append(")");
                Check { ok: false, detail }
            }
        },
        Err(e) => {
            let mut detail = "node/syncing: ".to_owned();
            detail.append(e.as_str());
            Check { ok: false, detail }
        },
    }
}

// ---- /healthz: verdict-free numeric snapshot ----

/// No error, or the one given.
pub open spec fn at_most(error: Option<Seq<char>>) -> Seq<Seq<char>> {
    match error {
        Some(e) => seq![e],
        None => Seq::empty(),
    }
}

pub open spec fn el_sync_error(r: Result<ElSyncingResult, String>) -> Option<Seq<char>> {
    match r {
        Ok(_) => None,
        Err(e) => Some("eth_syncing: "@ + e@),
    }
}

pub open spec fn el_peers_error(r: Result<String, String>) -> Option<Seq<char>> {
    match r {
        Ok(hex) => if text::hex_value(hex@) is Some {
            None
        } else {
            Some("net_peerCount invalid hex: "@ + hex@)
        },
        Err(e) => Some("net_peerCount: "@ + e@),
    }
}

pub open spec fn el_block_error(r: Result<ElBlockResult, String>) -> Option<Seq<char>> {
    match r {
        Ok(b) => if block_fields(b) is Some {
            None
        } else {
            Some("eth_getBlockByNumber: missing fields"@)
        },
        Err(e) => Some("eth_getBlockByNumber: "@ + e@),
    }
}

pub open spec fn cl_status_error(r: Result<ClStatus, String>) -> Option<Seq<char>> {
    match r {
        Ok(_) => None,
        Err(e) => Some("node/syncing: "@ + e@),
    }
}

pub open spec fn cl_peers_error(r: Result<u64, String>) -> Option<Seq<char>> {
    match r {
        Ok(_) => None,
        Err(e) => Some("node/peer_count: "@ + e@),
    }
}

/// Whether the EL is syncing, as far as it said so.
pub open spec fn el_syncing_flag(r: Result<ElSyncingResult, String>) -> Option<bool> {
    match r {
        Ok(ElSyncingResult::Synced(b)) => Some(b),
        Ok(ElSyncingResult::Syncing { .. }) => Some(true),
        Err(_) => None,
    }
}

/// How far the EL is behind, while it is syncing and says so in hex quantities.
pub open spec fn el_distance(r: Result<ElSyncingResult, String>) -> Option<u64> {
    match r {
        Ok(ElSyncingResult::Syncing { current_block, highest_block }) => match (
            text::hex_value(current_block@),
            text::hex_value(highest_block@),
        ) {
            (Some(c), Some(h)) => Some(minus(h, c)),
            _ => None,
        },
        _ => None,
    }
}

/// The EL half of the snapshot, before the transport is filled in.
pub open spec fn el_snapshot(
    sync_r: Result<ElSyncingResult, String>,
    peers_r: Result<String, String>,
    block_r: Result<ElBlockResult, String>,
    now: u64,
) -> ElHealthView {
    let fields = match block_r {
        Ok(b) => block_fields(b),
        Err(_) => None,
    };
    ElHealthView {
        transport: ""@,
        syncing: el_syncing_flag(sync_r),
        sync_distance: el_distance(sync_r),
        peers: match peers_r {
            Ok(hex) => text::hex_value(hex@),
            Err(_) => None,
        },
        block_number: match fields {
            Some((n, _)) => Some(n),
            None => None,
        },
        block_age_secs: match fields {
            Some((_, t)) => Some(minus(now, t)),
            None => None,
        },
        errors: at_most(el_sync_error(sync_r)) + at_most(el_peers_error(peers_r)) + at_most(
            el_block_error(block_r),
        ),
    }
}

/// The CL half of the snapshot, before the transport is filled in.
pub open spec fn cl_snapshot(
    status_r: Result<ClStatus, String>,
    peers_r: Result<u64, String>,
    genesis: u64,
    seconds_per_slot: u64,
    now: u64,
) -> ClHealthView {
    ClHealthView {
        transport: ""@,
        syncing: match status_r {
            Ok(s) => Some(s.is_syncing),
            Err(_) => None,
        },
        sync_distance: match status_r {
            Ok(s) => Some(s.sync_distance),
            Err(_) => None,
        },
        peers: match peers_r {
            Ok(n) => Some(n),
            Err(_) => None,
        },
        head_slot: match status_r {
            Ok(s) => Some(s.head_slot),
            Err(_) => None,
        },
        slot_age_secs: match status_r {
            Ok(s) => if genesis == 0 {
                None
            } else {
                Some(slot_age_at(s.head_slot, genesis, seconds_per_slot, now))
            },
            Err(_) => None,
        },
        errors: at_most(cl_status_error(status_r)) + at_most(cl_peers_error(peers_r)),
    }
}

/// Records `prefix` followed by `e`.
fn push_error(errors: &mut Vec<String>, prefix: &str, e: &str)
    ensures
        texts(final(errors)@) == texts(old(errors)@) + at_most(Some(prefix@ + e@)),
{
    let mut error = prefix.to_owned();
    error.append(e);
    errors.push(error);
    assert(texts(errors@) =~= texts(old(errors)@) + at_most(Some(prefix@ + e@)));
}

/// Folds the five upstream results into a numeric snapshot. Successful signals
/// fill their fields; failed ones are recorded in the layer's `errors`.
pub fn build_snapshot(
    sync_r: &Result<ElSyncingResult, String>,
    peers_r: &Result<String, String>,
    block_r: &Result<ElBlockResult, String>,
    cl_status_r: &Result<ClStatus, String>,
    cl_peers_r: &Result<u64, String>,
    genesis: u64,
    seconds_per_slot: u64,
    now: u64,
) -> (snapshot: HealthSnapshot)
    ensures
        snapshot.el@ == el_snapshot(*sync_r, *peers_r, *block_r, now),
        snapshot.cl@ == cl_snapshot(*cl_status_r, *cl_peers_r, genesis, seconds_per_slot, now),
{
    let mut el = ElHealth::default();
    match sync_r {
        Ok(ElSyncingResult::Synced(syncing)) => {
            el.syncing = Some(*syncing);
        },
        Ok(ElSyncingResult::Syncing { current_block, highest_block }) => {
            el.syncing = Some(true);
            let current = text::hex_to_u64(current_block.as_str());
            let highest = text::hex_to_u64(highest_block.as_str());
            el.sync_distance = match (current, highest) {
                (Some(c), Some(h)) => Some(h.saturating_sub(c)),
                _ => None,
            };
        },
        Err(e) => push_error(&mut el.errors, "eth_syncing: ", e.as_str()),
    }
    assert(texts(el.errors@) =~= at_most(el_sync_error(*sync_r)));
    match peers_r {
        Ok(hex) => match text::hex_to_u64(hex.as_str()) {
            Some(n) => {
                el.peers = Some(n);
            },
            None => push_error(&mut el.errors, "net_peerCount invalid hex: ", hex.as_str()),
        },
        Err(e) => push_error(&mut el.errors, "net_peerCount: ", e.as_str()),
    }
    assert(texts(el.errors@) =~= at_most(el_sync_error(*sync_r)) + at_most(
        el_peers_error(*peers_r),
    ));
    match block_r {
        Ok(block) => {
            let ts = text::hex_to_u64(block.timestamp.as_str());
            let num = text::hex_to_u64(block.number.as_str());
            match (num, ts) {
                (Some(n), Some(t)) => {
                    el.block_number = Some(n);
                    el.block_age_secs = Some(now.saturating_sub(t));
                },
                _ => {
                    push_error(&mut el.errors, "eth_getBlockByNumber: missing fields", "");
                    proof {
                        reveal_strlit("");
                        assert("eth_getBlockByNumber: missing fields"@ + ""@
                            =~= "eth_getBlockByNumber: missing fields"@);
                    }
                },
            }
        },
        Err(e) => push_error(&mut el.errors, "eth_getBlockByNumber: ", e.as_str()),
    }
    assert(texts(el.errors@) =~= at_most(el_sync_error(*sync_r)) + at_most(el_peers_error(*peers_r))
        + at_most(el_block_error(*block_r)));

    let mut cl = ClHealth::default();
    match cl_status_r {
        Ok(s) => {
            cl.syncing = Some(s.is_syncing);
            cl.sync_distance = Some(s.sync_distance);
            cl.head_slot = Some(s.head_slot);
            if genesis != 0 {
                cl.slot_age_secs = Some(slot_age(s.head_slot, genesis, seconds_per_slot, now));
            }
        },
        Err(e) => push_error(&mut cl.errors, "node/syncing: ", e.as_str()),
    }
    assert(texts(cl.errors@) =~= at_most(cl_status_error(*cl_status_r)));
    match cl_peers_r {
        Ok(n) => {
            cl.peers = Some(*n);
        },
        Err(e) => push_error(&mut cl.errors, "node/peer_count: ", e.as_str()),
    }
    assert(texts(cl.errors@) =~= at_most(cl_status_error(*cl_status_r)) + at_most(
        cl_peers_error(*cl_peers_r),
    ));
    HealthSnapshot { el, cl }
}


// ---- the endpoints ----

/// HTTP-version label of an upstream hop. Cleartext h2 is `h2c`; h2 over TLS is `h2`.
pub open spec fn transport_name(uses_h2: bool, scheme: Option<Seq<char>>) -> Seq<char> {
    if !uses_h2 {
        "http/1.1"@
    } else if scheme == Some("https"@) {
        "h2"@
    } else {
        "h2c"@
    }
}

pub fn transport_label(uses_h2: bool, scheme: Option<&str>) -> (r: &'static str)
    ensures
        r@ == transport_name(
            uses_h2,
            match scheme {
                Some(s) => Some(s@),
                None => None,
            },
        ),
{
    let tls = match scheme {
        Some(s) => text::str_eq(s, "https"),
        None => false,
    };
    match (uses_h2, tls) {
        (true, true) => "h2",
        (true, false) => "h2c",
        (false, _) => "http/1.1",
    }
}

/// The EL freshness verdict, which only strict readiness asks for.
pub open spec fn el_fresh_part(state: AppState, probe: Probe, now: u64) -> Option<CheckView> {
    if state.cfg.readyz_strict {
        Some(el_fresh_check(probe.el_block, state.cfg.el_max_block_age_secs, now))
    } else {
        None
    }
}

/// The CL freshness verdict, which only strict readiness asks for.
pub open spec fn cl_fresh_part(state: AppState, probe: Probe, now: u64) -> Option<CheckView> {
    if state.cfg.readyz_strict {
        Some(
            cl_fresh_check(
                probe.cl_status,
                state.cl_genesis_time,
                state.cl_seconds_per_slot,
                state.cfg.cl_max_slot_age_secs,
                now,
            ),
        )
    } else {
        None
    }
}

/// Whether a check that may not apply passes.
pub open spec fn passes(c: Option<CheckView>) -> bool {
    match c {
        Some(c) => c.ok,
        None => true,
    }
}

/// Whether traffic may be routed to the pair.
pub open spec fn is_ready(state: AppState, probe: Probe, now: u64) -> bool {
    &&& el_sync_check(probe.el_syncing).ok
    &&& cl_sync_check(probe.cl_status).ok
    &&& passes(el_fresh_part(state, probe, now))
    &&& passes(cl_fresh_part(state, probe, now))
}

/// The readiness report on a poll at a given time.
pub open spec fn ready_view(state: AppState, probe: Probe, now: u64) -> ReadyView {
    ReadyView {
        status: if is_ready(state, probe, now) {
            "ready"@
        } else {
            "not_ready"@
        },
        el_syncing: el_sync_check(probe.el_syncing),
        cl_syncing: cl_sync_check(probe.cl_status),
        el_block_fresh: el_fresh_part(state, probe, now),
        cl_slot_fresh: cl_fresh_part(state, probe, now),
    }
}

impl ReadyReport {
    /// Whether the report lets traffic in.
    pub open spec fn verdict(self) -> bool {
        self.status@ == "ready"@
    }

    pub fn is_ready(&self) -> (r: bool)
        ensures
            r == self.verdict(),
    {
        text::str_eq(self.status, "ready")
    }
}

proof fn lemma_status_words_differ()
    ensures
        "ready"@ != "not_ready"@,
{
    reveal_strlit("ready");
    reveal_strlit("not_ready");
    assert("ready"@.len() != "not_ready"@.len());
}

/// Judges a poll at a given time.
pub fn evaluate_ready_at(state: &AppState, probe: &Probe, now: u64) -> (report: ReadyReport)
    ensures
        report@ == ready_view(*state, *probe, now),
        report.verdict() == is_ready(*state, *probe, now),
{
    proof {
        lemma_status_words_differ();
    }
    let el_syncing = check_el_syncing(&probe.el_syncing);
    let cl_syncing = check_cl_syncing(&probe.cl_status);
    let mut all_ok = el_syncing.ok && cl_syncing.ok;
    let mut el_block_fresh: Option<Check> = None;
    let mut cl_slot_fresh: Option<Check> = None;
    if state.cfg.readyz_strict {
        let el = check_el_block_fresh(&probe.el_block, state.cfg.el_max_block_age_secs, now);
        let cl = check_cl_slot_fresh(
            &probe.cl_status,
            state.cl_genesis_time,
            state.cl_seconds_per_slot,
            state.cfg.cl_max_slot_age_secs,
            now,
        );
        all_ok = all_ok && el.ok && cl.ok;
        el_block_fresh = Some(el);
        cl_slot_fresh = Some(cl);
    }
    ReadyReport {
        status: if all_ok {
            "ready"
        } else {
            "not_ready"
        },
        el_syncing,
        cl_syncing,
        el_block_fresh,
        cl_slot_fresh,
    }
}

/// Judges a poll now. The clock is read only where freshness counts.
pub fn evaluate_ready(state: &AppState, probe: &Probe) -> (report: ReadyReport)
    ensures
        exists|now: u64|
            report@ == #[trigger] ready_view(*state, *probe, now) && report.verdict() == is_ready(
                *state,
                *probe,
                now,
            ) && (state.cfg.readyz_strict ==> crate::time::is_reading(now)),
{
    let now: u64 = if state.cfg.readyz_strict {
        now_unix()
    } else {
        0
    };
    let report = evaluate_ready_at(state, probe, now);
    assert(report@ == ready_view(*state, *probe, now));
    report
}

/// The status that a readiness verdict is answered with.
pub open spec fn ready_status(ready: bool) -> u16 {
    if ready {
        200
    } else {
        503
    }
}

/// The `/readyz` reply on a report: 200 when ready, else 503.
pub fn ready_reply(report: ReadyReport) -> (r: JsonReply<ReadyReport>)
    ensures
        r.status == ready_status(report.verdict()),
        r.content_type@ == "application/json"@,
        r.body == report,
{
    let code: u16 = if report.is_ready() {
        200
    } else {
        503
    };
    json_response(code, report)
}

/// `/readyz`, the load-balancer readiness gate.
pub fn ready(state: &AppState, probe: &Probe) -> (r: JsonReply<ReadyReport>)
    ensures
        r.content_type@ == "application/json"@,
        exists|now: u64|
            r.body@ == #[trigger] ready_view(*state, *probe, now) && r.status == ready_status(
                is_ready(*state, *probe, now),
            ) && (state.cfg.readyz_strict ==> crate::time::is_reading(now)),
{
    ready_reply(evaluate_ready(state, probe))
}

/// `/eth/v1/node/health` on a report: the readiness verdict as a bare status.
pub fn node_health_reply(report: &ReadyReport) -> (r: TextReply)
    ensures
        r.status == ready_status(report.verdict()),
        r.content_type@ == "text/plain; charset=utf-8"@,
        r.body@ == Seq::<char>::empty(),
{
    let code: u16 = if report.is_ready() {
        200
    } else {
        503
    };
    proof {
        reveal_strlit("");
        assert(""@ =~= Seq::<char>::empty());
    }
    text_response(code, "")
}

/// `/eth/v1/node/health`, answered from the latest poll.
pub fn node_health(state: &AppState, probe: &Probe) -> (r: TextReply)
    ensures
        r.content_type@ == "text/plain; charset=utf-8"@,
        r.body@ == Seq::<char>::empty(),
        exists|now: u64|
            r.status == ready_status(#[trigger] is_ready(*state, *probe, now)) && (
            state.cfg.readyz_strict ==> crate::time::is_reading(now)),
{
    node_health_reply(&evaluate_ready(state, probe))
}

/// The EL half of the `/healthz` document.
pub open spec fn el_report(state: AppState, probe: Probe, el_use_h2: bool, now: u64) -> ElHealthView {
    ElHealthView {
        transport: transport_name(el_use_h2, crate::uri::opt_text(state.el_http_uri.scheme)),
        ..el_snapshot(probe.el_syncing, probe.el_peers, probe.el_block, now)
    }
}

/// The CL half of the `/healthz` document.
pub open spec fn cl_report(state: AppState, probe: Probe, now: u64) -> ClHealthView {
    ClHealthView {
        transport: transport_name(false, crate::uri::opt_text(state.cl_syncing_uri.scheme)),
        ..cl_snapshot(
            probe.cl_status,
            probe.cl_peers,
            state.cl_genesis_time,
            state.cl_seconds_per_slot,
            now,
        )
    }
}

/// `/healthz` at a given time: the state of the pair, always with 200.
pub fn report_at(state: &AppState, probe: &Probe, el_use_h2: bool, now: u64) -> (r: JsonReply<
    HealthSnapshot,
>)
    ensures
        r.status == 200,
        r.content_type@ == "application/json"@,
        r.body.el@ == el_report(*state, *probe, el_use_h2, now),
        r.body.cl@ == cl_report(*state, *probe, now),
{
    let mut snapshot = build_snapshot(
        &probe.el_syncing,
        &probe.el_peers,
        &probe.el_block,
        &probe.cl_status,
        &probe.cl_peers,
        state.cl_genesis_time,
        state.cl_seconds_per_slot,
        now,
    );
    snapshot.el.transport = transport_label(
        el_use_h2,
        match &state.el_http_uri.scheme {
            Some(s) => Some(s.as_str()),
            None => None,
        },
    );
    snapshot.cl.transport = transport_label(
        false,
        match &state.cl_syncing_uri.scheme {
            Some(s) => Some(s.as_str()),
            None => None,
        },
    );
    json_response(200, snapshot)
}

/// `/healthz`: ages are computed anew for each request.
pub fn report(state: &AppState, probe: &Probe, el_use_h2: bool) -> (r: JsonReply<HealthSnapshot>)
    ensures
        r.status == 200,
        r.content_type@ == "application/json"@,
        exists|now: u64|
            r.body.el@ == #[trigger] el_report(*state, *probe, el_use_h2, now) && r.body.cl@
                == cl_report(*state, *probe, now) && crate::time::is_reading(now),
{
    let now = now_unix();
    let r = report_at(state, probe, el_use_h2, now);
    assert(r.body.el@ == el_report(*state, *probe, el_use_h2, now));
    r
}

// ---- laws ----

/// By default readiness is the sync status of both layers and nothing else: the
/// EL reports `false`, and the CL reports that it is not syncing.
pub proof fn law_default_gates_on_sync_only(state: AppState, probe: Probe, now: u64)
    requires
        !state.cfg.readyz_strict,
    ensures
        is_ready(state, probe, now) == (probe.el_syncing == Ok::<ElSyncingResult, String>(
            ElSyncingResult::Synced(false),
        ) && probe.cl_status is Ok && !probe.cl_status->Ok_0.is_syncing),
{
}

/// A stall of the chain, a dip in peers, the age thresholds and the clock leave the
/// default verdict, and the whole report, as they are.
pub proof fn law_default_ignores_freshness_and_peers(
    state: AppState,
    other_state: AppState,
    probe: Probe,
    other_probe: Probe,
    now: u64,
    other_now: u64,
)
    requires
        !state.cfg.readyz_strict,
        !other_state.cfg.readyz_strict,
        probe.el_syncing == other_probe.el_syncing,
        probe.cl_status == other_probe.cl_status,
    ensures
        ready_view(state, probe, now) == ready_view(other_state, other_probe, other_now),
        is_ready(state, probe, now) == is_ready(other_state, other_probe, other_now),
{
}

/// Peer counts never gate, under strict readiness either.
pub proof fn law_peers_never_gate(state: AppState, probe: Probe, other: Probe, now: u64)
    requires
        probe.el_syncing == other.el_syncing,
        probe.el_block == other.el_block,
        probe.cl_status == other.cl_status,
    ensures
        ready_view(state, probe, now) == ready_view(state, other, now),
        is_ready(state, probe, now) == is_ready(state, other, now),
{
}

/// Strict readiness is default readiness, plus an EL block and a CL slot that are
/// fresh: it never lets in what the default keeps out.
pub proof fn law_strict_only_adds_freshness(
    strict: AppState,
    default: AppState,
    probe: Probe,
    now: u64,
)
    requires
        strict.cfg.readyz_strict,
        !default.cfg.readyz_strict,
    ensures
        is_ready(strict, probe, now) == (is_ready(default, probe, now) && el_fresh_check(
            probe.el_block,
            strict.cfg.el_max_block_age_secs,
            now,
        ).ok && cl_fresh_check(
            probe.cl_status,
            strict.cl_genesis_time,
            strict.cl_seconds_per_slot,
            strict.cfg.cl_max_slot_age_secs,
            now,
        ).ok),
{
}

/// While an upstream does not tell its sync status, as before the first poll, the
/// pair is not ready, and `/readyz` answers 503.
pub proof fn law_unknown_sync_status_is_not_ready(state: AppState, probe: Probe, now: u64)
    requires
        probe.el_syncing is Err || probe.cl_status is Err,
    ensures
        !is_ready(state, probe, now),
        ready_status(is_ready(state, probe, now)) == 503,
{
}

/// The status word and the HTTP status say the same.
pub proof fn law_report_status_matches_reply(state: AppState, probe: Probe, now: u64)
    ensures
        (ready_view(state, probe, now).status == "ready"@) == (ready_status(
            is_ready(state, probe, now),
        ) == 200),
{
    lemma_status_words_differ();
}

/// Freshness details are shown exactly under strict readiness.
pub proof fn law_freshness_shown_only_when_strict(state: AppState, probe: Probe, now: u64)
    ensures
        ready_view(state, probe, now).el_block_fresh is Some == state.cfg.readyz_strict,
        ready_view(state, probe, now).cl_slot_fresh is Some == state.cfg.readyz_strict,
{
}

/// One for an absent value.
pub open spec fn absent<T>(v: Option<T>) -> nat {
    if v is None {
        1
    } else {
        0
    }
}

/// A signal is either there or has its error recorded: each layer has as many
/// errors as it has signals missing.
pub proof fn law_missing_signals_have_errors(
    state: AppState,
    probe: Probe,
    el_use_h2: bool,
    now: u64,
)
    ensures
        ({
            let el = el_report(state, probe, el_use_h2, now);
            &&& el.errors.len() == absent(el.syncing) + absent(el.peers) + absent(el.block_number)
            &&& el.block_number is None == el.block_age_secs is None
        }),
        ({
            let cl = cl_report(state, probe, now);
            &&& cl.errors.len() == absent(cl.head_slot) + absent(cl.peers)
            &&& cl.head_slot is None == cl.syncing is None
            &&& cl.head_slot is None == cl.sync_distance is None
        }),
{
}

/// Between two polls only the ages move, and they move with the clock.
pub proof fn law_ages_follow_the_clock(
    state: AppState,
    probe: Probe,
    el_use_h2: bool,
    now: u64,
    later: u64,
)
    requires
        now <= later,
    ensures
        ({
            let before = el_report(state, probe, el_use_h2, now);
            let after = el_report(state, probe, el_use_h2, later);
            &&& after == ElHealthView { block_age_secs: after.block_age_secs, ..before }
            &&& before.block_age_secs matches Some(age) ==> after.block_age_secs is Some && age
                <= after.block_age_secs->0 <= age + (later - now)
            &&& before.block_age_secs matches Some(age) ==> age > 0 ==> after.block_age_secs->0
                == age + (later - now)
        }),
        ({
            let before = cl_report(state, probe, now);
            let after = cl_report(state, probe, later);
            &&& after == ClHealthView { slot_age_secs: after.slot_age_secs, ..before }
            &&& before.slot_age_secs matches Some(age) ==> after.slot_age_secs is Some && age
                <= after.slot_age_secs->0 <= age + (later - now)
            &&& before.slot_age_secs matches Some(age) ==> age > 0 ==> after.slot_age_secs->0
                == age + (later - now)
        }),
{
}

/// Without a new poll a block or a slot only gets staler: fresh later is fresh now.
pub proof fn law_freshness_only_fades(
    block: Result<ElBlockResult, String>,
    status: Result<ClStatus, String>,
    genesis: u64,
    seconds_per_slot: u64,
    max_age: u64,
    now: u64,
    later: u64,
)
    requires
        now <= later,
    ensures
        el_fresh_check(block, max_age, later).ok ==> el_fresh_check(block, max_age, now).ok,
        cl_fresh_check(status, genesis, seconds_per_slot, max_age, later).ok ==> cl_fresh_check(
            status,
            genesis,
            seconds_per_slot,
            max_age,
            now,
        ).ok,
{
}

/// Genesis zero switches the slot age off: it is not reported, and it gates nothing.
pub proof fn law_genesis_zero_disables_slot_age(
    state: AppState,
    probe: Probe,
    max_age: u64,
    now: u64,
)
    requires
        state.cl_genesis_time == 0,
    ensures
        cl_report(state, probe, now).slot_age_secs is None,
        probe.cl_status is Ok ==> cl_fresh_check(
            probe.cl_status,
            state.cl_genesis_time,
            state.cl_seconds_per_slot,
            max_age,
            now,
        ).ok,
{
}

/// The slot age tells when the head slot started, and the other way round.
pub proof fn law_slot_age_locates_slot_start(
    head_slot: u64,
    genesis: u64,
    seconds_per_slot: u64,
    now: u64,
)
    ensures
        now >= genesis + head_slot * seconds_per_slot ==> slot_age_at(
            head_slot,
            genesis,
            seconds_per_slot,
            now,
        ) + genesis + head_slot * seconds_per_slot == now,
        now <= genesis + head_slot * seconds_per_slot ==> slot_age_at(
            head_slot,
            genesis,
            seconds_per_slot,
            now,
        ) == 0,
{
    assert(head_slot * seconds_per_slot >= 0) by (nonlinear_arith)
        requires
            head_slot >= 0,
            seconds_per_slot >= 0,
    ;
}

/// The Beacon hop is reported as HTTP/1.1 whatever the EL verdict is, and the EL
/// hop as HTTP/2 exactly where the verdict says so.
pub proof fn law_transport_shows_the_verdict(
    state: AppState,
    probe: Probe,
    el_use_h2: bool,
    now: u64,
)
    ensures
        cl_report(state, probe, now).transport == "http/1.1"@,
        (el_report(state, probe, el_use_h2, now).transport == "http/1.1"@) == !el_use_h2,
{
    reveal_strlit("http/1.1");
    reveal_strlit("h2");
    reveal_strlit("h2c");
    assert("http/1.1"@.len() == 8 && "h2"@.len() == 2 && "h2c"@.len() == 3);
}

} // verus!
