//! Laws of the readiness verdict and of the health snapshot.

use vstd::prelude::*;

use crate::health;
use crate::health::{
    Check, ClStatus, ElBlockResult, ElSyncingResult, HealthSnapshot, Probe, ReadyReport,
};
use crate::reply::{JsonReply, TextReply};
use crate::state::AppState;
use crate::text;

verus! {

/// The number that a text is as a hex quantity.
pub open spec fn is_hex(s: String, n: u64) -> bool {
    text::hex_value(s@) == Some(n)
}

// ---- the checks ----

/// The EL check passes exactly where the EL says that it is not syncing.
pub proof fn law_el_sync_check(r: Result<ElSyncingResult, String>, c: Check)
    requires
        call_ensures(health::check_el_syncing, (&r,), c),
    ensures
        c.ok <==> (r matches Ok(ElSyncingResult::Synced(syncing)) && !syncing),
{
    assert(c@.ok == c.ok);
}

/// While the EL is syncing, the check shows the current block and how many blocks are
/// left to the highest one; numbers that cannot be read are shown as they came.
pub proof fn law_el_sync_check_shows_progress(
    current_block: String,
    highest_block: String,
    c: Check,
    from: u64,
    to: u64,
    left: u64,
)
    requires
        call_ensures(
            health::check_el_syncing,
            (&Ok(ElSyncingResult::Syncing { current_block, highest_block }),),
            c,
        ),
    ensures
        is_hex(current_block, from) && is_hex(highest_block, to) && from + left == to ==> c.detail@
            == "syncing (block "@ + text::decimal(from as nat) + ", distance "@ + text::decimal(
            left as nat,
        ) + ")"@,
        is_hex(current_block, from) && is_hex(highest_block, to) && from >= to ==> c.detail@
            == "syncing (block "@ + text::decimal(from as nat) + ", distance "@ + text::decimal(0)
            + ")"@,
        text::hex_value(current_block@) is None || text::hex_value(highest_block@) is None
            ==> c.detail@ == "syncing (current "@ + current_block@ + ", highest "@ + highest_block@
            + ")"@,
{
    assert(c@.detail == c.detail@);
}

/// A check of a signal that did not come fails, and its detail is the reason behind the
/// name of the call.
pub proof fn law_failed_signals_fail_their_checks(
    e: String,
    max_age: u64,
    genesis: u64,
    slot_secs: u64,
    now: u64,
    el_sync: Check,
    cl_sync: Check,
    block: Check,
    slot: Check,
)
    requires
        call_ensures(health::check_el_syncing, (&Err(e),), el_sync),
        call_ensures(health::check_cl_syncing, (&Err(e),), cl_sync),
        call_ensures(health::check_el_block_fresh, (&Err(e), max_age, now), block),
        call_ensures(
            health::check_cl_slot_fresh,
            (&Err(e), genesis, slot_secs, max_age, now),
            slot,
        ),
    ensures
        !el_sync.ok && el_sync.detail@ == "eth_syncing: "@ + e@,
        !cl_sync.ok && cl_sync.detail@ == "node/syncing: "@ + e@,
        !block.ok && block.detail@ == "eth_getBlockByNumber: "@ + e@,
        !slot.ok && slot.detail@ == "node/syncing: "@ + e@,
{
    assert(el_sync@.detail == el_sync.detail@ && el_sync@.ok == el_sync.ok);
    assert(cl_sync@.detail == cl_sync.detail@ && cl_sync@.ok == cl_sync.ok);
    assert(block@.detail == block.detail@ && block@.ok == block.ok);
    assert(slot@.detail == slot.detail@ && slot@.ok == slot.ok);
}

/// The EL check says in words what it decides.
pub proof fn law_el_sync_check_words(syncing: bool, c: Check)
    requires
        call_ensures(health::check_el_syncing, (&Ok(ElSyncingResult::Synced(syncing)),), c),
    ensures
        !syncing ==> c.detail@ == "synced"@,
        syncing ==> c.detail@ == "syncing (true)"@,
{
    assert(c@.detail == c.detail@);
}

/// The CL check passes exactly where the CL says that it is not syncing, and shows the
/// head slot and the distance either way.
pub proof fn law_cl_sync_check(r: Result<ClStatus, String>, c: Check)
    requires
        call_ensures(health::check_cl_syncing, (&r,), c),
    ensures
        c.ok <==> (r matches Ok(s) && !s.is_syncing),
        r matches Ok(s) ==> {
            let tail = " (slot "@ + text::decimal(s.head_slot as nat) + ", distance "@
                + text::decimal(s.sync_distance as nat) + ")"@;
            c.detail@ == (if c.ok {
                "synced"@
            } else {
                "syncing"@
            }) + tail
        },
{
    assert(c@.ok == c.ok && c@.detail == c.detail@);
    reveal_strlit("syncing (slot ");
    reveal_strlit("synced (slot ");
    reveal_strlit("syncing");
    reveal_strlit("synced");
    reveal_strlit(" (slot ");
    assert("syncing (slot "@ =~= "syncing"@ + " (slot "@);
    assert("synced (slot "@ =~= "synced"@ + " (slot "@);
    if let Ok(s) = r {
        let tail = " (slot "@ + text::decimal(s.head_slot as nat) + ", distance "@ + text::decimal(
            s.sync_distance as nat,
        ) + ")"@;
        assert(c.detail@ =~= (if c.ok {
            "synced"@
        } else {
            "syncing"@
        }) + tail);
    }
}

/// A block is fresh exactly where both of its numbers can be read and it is no older
/// than the limit, for every limit.
pub proof fn law_block_is_fresh_up_to_the_limit(
    r: Result<ElBlockResult, String>,
    max_age: u64,
    now: u64,
    c: Check,
)
    requires
        call_ensures(health::check_el_block_fresh, (&r, max_age, now), c),
    ensures
        c.ok <==> (r matches Ok(b) && text::hex_value(b.number@) is Some && (text::hex_value(
            b.timestamp@,
        ) matches Some(t) && now <= t + max_age)),
{
    assert(c@.ok == c.ok);
}

/// The block check shows the block's number and age, and the limit where it is missed.
pub proof fn law_block_check_shows_the_age(
    block: ElBlockResult,
    max_age: u64,
    now: u64,
    c: Check,
    n: u64,
    t: u64,
    age: u64,
)
    requires
        call_ensures(health::check_el_block_fresh, (&Ok(block), max_age, now), c),
        is_hex(block.number, n),
        is_hex(block.timestamp, t),
        t + age == now || (t > now && age == 0),
    ensures
        age <= max_age ==> c.detail@ == "block "@ + text::decimal(n as nat) + ", age "@
            + text::decimal(age as nat) + "s"@,
        age > max_age ==> c.detail@ == "block "@ + text::decimal(n as nat) + " stale: "@
            + text::decimal(age as nat) + "s (max "@ + text::decimal(max_age as nat) + ")"@,
{
    assert(c@.detail == c.detail@);
}

/// A block without readable numbers is called that.
pub proof fn law_block_check_names_missing_fields(
    block: ElBlockResult,
    max_age: u64,
    now: u64,
    c: Check,
)
    requires
        call_ensures(health::check_el_block_fresh, (&Ok(block), max_age, now), c),
        text::hex_value(block.number@) is None || text::hex_value(block.timestamp@) is None,
    ensures
        c.detail@ == "block missing fields"@,
{
    assert(c@.detail == c.detail@);
}

/// Seconds that a number of slots lasts; whole numbers are never negative.
proof fn lemma_slots_last(head_slot: u64, slot_secs: u64)
    ensures
        head_slot * slot_secs >= 0,
{
    assert(head_slot * slot_secs >= 0) by (nonlinear_arith)
        requires
            head_slot >= 0,
            slot_secs >= 0,
    ;
}

/// A head slot is fresh exactly where the check is switched off, or where the slot
/// started no longer ago than the limit, for every limit.
pub proof fn law_slot_is_fresh_up_to_the_limit(
    r: Result<ClStatus, String>,
    genesis: u64,
    slot_secs: u64,
    max_age: u64,
    now: u64,
    c: Check,
)
    requires
        call_ensures(health::check_cl_slot_fresh, (&r, genesis, slot_secs, max_age, now), c),
    ensures
        c.ok <==> (r matches Ok(s) && (genesis == 0 || now <= genesis + s.head_slot * slot_secs
            + max_age)),
{
    assert(c@.ok == c.ok);
    if let Ok(s) = r {
        lemma_slots_last(s.head_slot, slot_secs);
    }
}

/// The slot check shows the slot and its age, and the limit where it is missed.
pub proof fn law_slot_check_shows_the_age(
    s: ClStatus,
    genesis: u64,
    slot_secs: u64,
    max_age: u64,
    now: u64,
    c: Check,
    age: u64,
)
    requires
        call_ensures(health::check_cl_slot_fresh, (&Ok(s), genesis, slot_secs, max_age, now), c),
        genesis + s.head_slot * slot_secs + age == now || (genesis + s.head_slot * slot_secs > now
            && age == 0),
    ensures
        genesis == 0 ==> c.detail@ == "slot "@ + text::decimal(s.head_slot as nat)
            + " (age check disabled)"@,
        genesis != 0 && age <= max_age ==> c.detail@ == "slot "@ + text::decimal(
            s.head_slot as nat,
        ) + ", age "@ + text::decimal(age as nat) + "s"@,
        genesis != 0 && age > max_age ==> c.detail@ == "slot "@ + text::decimal(s.head_slot as nat)
            + " stale: "@ + text::decimal(age as nat) + "s (max "@ + text::decimal(max_age as nat)
            + ")"@,
{
    assert(c@.detail == c.detail@);
    lemma_slots_last(s.head_slot, slot_secs);
}

/// A slot's age and the moment it started add up to now; a slot that lies ahead has
/// no age. Nothing overflows.
pub proof fn law_slot_age_adds_up(
    head_slot: u64,
    genesis: u64,
    slot_secs: u64,
    now: u64,
    age: u64,
)
    requires
        call_ensures(health::slot_age, (head_slot, genesis, slot_secs, now), age),
    ensures
        genesis + head_slot * slot_secs <= now ==> genesis + head_slot * slot_secs + age == now,
        genesis + head_slot * slot_secs > now ==> age == 0,
{
    lemma_slots_last(head_slot, slot_secs);
}

// ---- the snapshot ----

/// What the snapshot shows of the EL's sync status: the flag that it gave, and the
/// blocks that are left while it gave both numbers.
pub proof fn law_snapshot_shows_el_sync(
    sync_r: Result<ElSyncingResult, String>,
    peers_r: Result<String, String>,
    block_r: Result<ElBlockResult, String>,
    cl_r: Result<ClStatus, String>,
    cl_peers_r: Result<u64, String>,
    genesis: u64,
    slot_secs: u64,
    now: u64,
    snap: HealthSnapshot,
)
    requires
        call_ensures(
            health::build_snapshot,
            (&sync_r, &peers_r, &block_r, &cl_r, &cl_peers_r, genesis, slot_secs, now),
            snap,
        ),
    ensures
        snap.el.syncing is None <==> sync_r is Err,
        snap.el.syncing == Some(false) <==> sync_r == Ok::<ElSyncingResult, String>(
            ElSyncingResult::Synced(false),
        ),
        sync_r matches Ok(ElSyncingResult::Syncing { current_block, highest_block }) ==> {
            &&& forall|from: u64, to: u64|
                #[trigger] is_hex(current_block, from) && #[trigger] is_hex(highest_block, to)
                    ==> (snap.el.sync_distance matches Some(left) && (if to >= from {
                    from + left == to
                } else {
                    left == 0
                }))
            &&& text::hex_value(current_block@) is None || text::hex_value(highest_block@) is None
                ==> snap.el.sync_distance is None
        },
        !(sync_r matches Ok(ElSyncingResult::Syncing { .. })) ==> snap.el.sync_distance is None,
{
    assert(snap.el@.syncing == snap.el.syncing);
    assert(snap.el@.sync_distance == snap.el.sync_distance);
}

/// What the snapshot shows of the EL's peers and of its latest block: the numbers that
/// were given, and an age that adds up to now with the block's time.
pub proof fn law_snapshot_shows_el_numbers(
    sync_r: Result<ElSyncingResult, String>,
    peers_r: Result<String, String>,
    block_r: Result<ElBlockResult, String>,
    cl_r: Result<ClStatus, String>,
    cl_peers_r: Result<u64, String>,
    genesis: u64,
    slot_secs: u64,
    now: u64,
    snap: HealthSnapshot,
)
    requires
        call_ensures(
            health::build_snapshot,
            (&sync_r, &peers_r, &block_r, &cl_r, &cl_peers_r, genesis, slot_secs, now),
            snap,
        ),
    ensures
        peers_r matches Ok(hex) ==> forall|n: u64|
            #[trigger] is_hex(hex, n) ==> snap.el.peers == Some(n),
        !(peers_r matches Ok(hex) && text::hex_value(hex@) is Some) ==> snap.el.peers is None,
        block_r matches Ok(b) ==> forall|n: u64, t: u64|
            #[trigger] is_hex(b.number, n) && #[trigger] is_hex(b.timestamp, t) ==> {
                &&& snap.el.block_number == Some(n)
                &&& snap.el.block_age_secs matches Some(age) && (if now >= t {
                    t + age == now
                } else {
                    age == 0
                })
            },
        !(block_r matches Ok(b) && text::hex_value(b.number@) is Some && text::hex_value(
            b.timestamp@,
        ) is Some) ==> snap.el.block_number is None && snap.el.block_age_secs is None,
{
    assert(snap.el@.peers == snap.el.peers);
    assert(snap.el@.block_number == snap.el.block_number);
    assert(snap.el@.block_age_secs == snap.el.block_age_secs);
}

/// What the snapshot shows of the CL: what it said of itself, its peers, and an age
/// of the head slot that adds up to now with the moment it started, unless genesis
/// zero switches that off.
pub proof fn law_snapshot_shows_cl(
    sync_r: Result<ElSyncingResult, String>,
    peers_r: Result<String, String>,
    block_r: Result<ElBlockResult, String>,
    cl_r: Result<ClStatus, String>,
    cl_peers_r: Result<u64, String>,
    genesis: u64,
    slot_secs: u64,
    now: u64,
    snap: HealthSnapshot,
)
    requires
        call_ensures(
            health::build_snapshot,
            (&sync_r, &peers_r, &block_r, &cl_r, &cl_peers_r, genesis, slot_secs, now),
            snap,
        ),
    ensures
        cl_r matches Ok(s) ==> {
            &&& snap.cl.syncing == Some(s.is_syncing)
            &&& snap.cl.sync_distance == Some(s.sync_distance)
            &&& snap.cl.head_slot == Some(s.head_slot)
            &&& genesis == 0 ==> snap.cl.slot_age_secs is None
            &&& genesis != 0 ==> (snap.cl.slot_age_secs matches Some(age) && (if genesis
                + s.head_slot * slot_secs <= now {
                genesis + s.head_slot * slot_secs + age == now
            } else {
                age == 0
            }))
        },
        cl_r is Err ==> snap.cl.syncing is None && snap.cl.sync_distance is None
            && snap.cl.head_slot is None && snap.cl.slot_age_secs is None,
        cl_peers_r matches Ok(n) ==> snap.cl.peers == Some(n),
        cl_peers_r is Err ==> snap.cl.peers is None,
{
    assert(snap.cl@.syncing == snap.cl.syncing);
    assert(snap.cl@.sync_distance == snap.cl.sync_distance);
    assert(snap.cl@.head_slot == snap.cl.head_slot);
    assert(snap.cl@.slot_age_secs == snap.cl.slot_age_secs);
    assert(snap.cl@.peers == snap.cl.peers);
    if let Ok(s) = cl_r {
        lemma_slots_last(s.head_slot, slot_secs);
    }
}

/// One where there is an error, and none where there is not.
pub open spec fn one_if(b: bool) -> nat {
    if b {
        1
    } else {
        0
    }
}

/// The errors of a snapshot: exactly one for each signal that failed, in the order of
/// the signals, each the reason behind the name of the call.
pub proof fn law_snapshot_errors(
    sync_r: Result<ElSyncingResult, String>,
    peers_r: Result<String, String>,
    block_r: Result<ElBlockResult, String>,
    cl_r: Result<ClStatus, String>,
    cl_peers_r: Result<u64, String>,
    genesis: u64,
    slot_secs: u64,
    now: u64,
    snap: HealthSnapshot,
)
    requires
        call_ensures(
            health::build_snapshot,
            (&sync_r, &peers_r, &block_r, &cl_r, &cl_peers_r, genesis, slot_secs, now),
            snap,
        ),
    ensures
        ({
            let el = snap.el.errors@;
            let bad_peers = !(peers_r matches Ok(hex) && text::hex_value(hex@) is Some);
            let bad_block = !(block_r matches Ok(b) && text::hex_value(b.number@) is Some
                && text::hex_value(b.timestamp@) is Some);
            let second = one_if(sync_r is Err) as int;
            let third = second + one_if(bad_peers);
            &&& el.len() == third + one_if(bad_block)
            &&& sync_r matches Err(e) ==> el[0]@ == "eth_syncing: "@ + e@
            &&& peers_r matches Err(e) ==> el[second]@ == "net_peerCount: "@ + e@
            &&& bad_peers ==> (peers_r matches Ok(hex) ==> el[second]@
                == "net_peerCount invalid hex: "@ + hex@)
            &&& block_r matches Err(e) ==> el[third]@ == "eth_getBlockByNumber: "@ + e@
            &&& bad_block && block_r is Ok ==> el[third]@
                == "eth_getBlockByNumber: missing fields"@
        }),
        ({
            let cl = snap.cl.errors@;
            let second = one_if(cl_r is Err) as int;
            &&& cl.len() == second + one_if(cl_peers_r is Err)
            &&& cl_r matches Err(e) ==> cl[0]@ == "node/syncing: "@ + e@
            &&& cl_peers_r matches Err(e) ==> cl[second]@ == "node/peer_count: "@ + e@
        }),
{
    let el = snap.el.errors@;
    let cl = snap.cl.errors@;
    let el_texts = snap.el@.errors;
    let cl_texts = snap.cl@.errors;
    assert(el_texts == health::texts(el) && cl_texts == health::texts(cl));
    assert(el_texts.len() == el.len() && cl_texts.len() == cl.len());
    assert(forall|i: int| 0 <= i < el.len() ==> (#[trigger] el_texts[i]) == el[i]@);
    assert(forall|i: int| 0 <= i < cl.len() ==> (#[trigger] cl_texts[i]) == cl[i]@);
    let first_part = health::at_most(health::el_sync_error(sync_r));
    let second_part = health::at_most(health::el_peers_error(peers_r));
    let third_part = health::at_most(health::el_block_error(block_r));
    assert(el_texts == first_part + second_part + third_part);
    if sync_r is Err {
        assert(el_texts[0] == first_part[0]);
    }
    if second_part.len() > 0 {
        assert(el_texts[first_part.len() as int] == second_part[0]);
    }
    if third_part.len() > 0 {
        assert(el_texts[(first_part.len() + second_part.len()) as int] == third_part[0]);
    }
    let cl_first = health::at_most(health::cl_status_error(cl_r));
    let cl_second = health::at_most(health::cl_peers_error(cl_peers_r));
    assert(cl_texts == cl_first + cl_second);
    if cl_r is Err {
        assert(cl_texts[0] == cl_first[0]);
    }
    if cl_second.len() > 0 {
        assert(cl_texts[cl_first.len() as int] == cl_second[0]);
    }
}

/// The HTTP version of a hop: HTTP/1.1 without HTTP/2, and with it `h2` exactly over TLS.
pub proof fn law_transport_names(uses_h2: bool, scheme: Option<&str>, r: &'static str)
    requires
        call_ensures(health::transport_label, (uses_h2, scheme), r),
    ensures
        !uses_h2 ==> r@ == "http/1.1"@,
        uses_h2 && (scheme matches Some(s) && s@ == "https"@) ==> r@ == "h2"@,
        uses_h2 && !(scheme matches Some(s) && s@ == "https"@) ==> r@ == "h2c"@,
{
}

/// `/healthz` is a snapshot of the probe with the chain parameters in force, 200 in
/// every state, and shows the transports of both hops.
pub proof fn law_healthz_is_the_snapshot_of_the_probe(
    state: AppState,
    probe: Probe,
    el_use_h2: bool,
    now: u64,
    r: JsonReply<HealthSnapshot>,
    snap: HealthSnapshot,
)
    requires
        call_ensures(health::report_at, (&state, &probe, el_use_h2, now), r),
        call_ensures(
            health::build_snapshot,
            (
                &probe.el_syncing,
                &probe.el_peers,
                &probe.el_block,
                &probe.cl_status,
                &probe.cl_peers,
                state.cl_genesis_time,
                state.cl_seconds_per_slot,
                now,
            ),
            snap,
        ),
    ensures
        r.status == 200,
        r.content_type@ == "application/json"@,
        r.body.el.syncing == snap.el.syncing,
        r.body.el.sync_distance == snap.el.sync_distance,
        r.body.el.peers == snap.el.peers,
        r.body.el.block_number == snap.el.block_number,
        r.body.el.block_age_secs == snap.el.block_age_secs,
        health::texts(r.body.el.errors@) == health::texts(snap.el.errors@),
        r.body.cl.syncing == snap.cl.syncing,
        r.body.cl.sync_distance == snap.cl.sync_distance,
        r.body.cl.peers == snap.cl.peers,
        r.body.cl.head_slot == snap.cl.head_slot,
        r.body.cl.slot_age_secs == snap.cl.slot_age_secs,
        health::texts(r.body.cl.errors@) == health::texts(snap.cl.errors@),
        r.body.cl.transport@ == "http/1.1"@,
        !el_use_h2 ==> r.body.el.transport@ == "http/1.1"@,
        el_use_h2 ==> r.body.el.transport@ == (if state.el_http_uri.scheme matches Some(s) && s@
            == "https"@ {
            "h2"@
        } else {
            "h2c"@
        }),
{
    let el = r.body.el@;
    let cl = r.body.cl@;
    assert(el.syncing == r.body.el.syncing && snap.el@.syncing == snap.el.syncing);
    assert(el.sync_distance == r.body.el.sync_distance);
    assert(el.transport == r.body.el.transport@ && cl.transport == r.body.cl.transport@);
    assert(cl.syncing == r.body.cl.syncing && snap.cl@.syncing == snap.cl.syncing);
}

/// The strings of an error list are its texts, one for one.
pub proof fn law_error_texts_are_the_errors(errors: Seq<String>, i: int)
    requires
        0 <= i < errors.len(),
    ensures
        health::texts(errors).len() == errors.len(),
        health::texts(errors)[i] == errors[i]@,
{
}

// ---- readiness ----

/// Whether an EL and a CL both say that they are not syncing.
pub open spec fn both_synced(probe: Probe) -> bool {
    &&& probe.el_syncing matches Ok(ElSyncingResult::Synced(syncing)) && !syncing
    &&& probe.cl_status matches Ok(s) && !s.is_syncing
}

/// Whether the latest block is no older, and the head slot started no longer ago, than
/// the operator accepts; genesis zero leaves the slot out.
pub open spec fn both_fresh(state: AppState, probe: Probe, now: u64) -> bool {
    &&& probe.el_block matches Ok(b) && text::hex_value(b.number@) is Some && (text::hex_value(
        b.timestamp@,
    ) matches Some(t) && now <= t + state.cfg.el_max_block_age_secs)
    &&& probe.cl_status matches Ok(s) && (state.cl_genesis_time == 0 || now <= state.cl_genesis_time
        + s.head_slot * state.cl_seconds_per_slot + state.cfg.cl_max_slot_age_secs)
}

pub(crate) proof fn lemma_ready(state: AppState, probe: Probe, now: u64)
    ensures
        health::is_ready(state, probe, now) == (both_synced(probe) && (state.cfg.readyz_strict
            ==> both_fresh(state, probe, now))),
{
    if let Ok(s) = probe.cl_status {
        lemma_slots_last(s.head_slot, state.cl_seconds_per_slot);
    }
}

/// The pair is ready exactly where both layers are synced and, under strict readiness,
/// the block and the slot are within their own limits.
pub proof fn law_ready_means_synced_and_fresh(
    state: AppState,
    probe: Probe,
    now: u64,
    report: ReadyReport,
)
    requires
        call_ensures(health::evaluate_ready_at, (&state, &probe, now), report),
    ensures
        report.status@ == "ready"@ <==> both_synced(probe) && (state.cfg.readyz_strict
            ==> both_fresh(state, probe, now)),
        report.status@ == "ready"@ || report.status@ == "not_ready"@,
{
    lemma_ready(state, probe, now);
    assert(report@.status == report.status@);
}

/// The report shows the checks that it rests on: each of the signal that it is about,
/// and those of freshness only under strict readiness, with the limits in force.
pub proof fn law_report_shows_its_checks(
    state: AppState,
    probe: Probe,
    now: u64,
    report: ReadyReport,
    el_sync: Check,
    cl_sync: Check,
    block: Check,
    slot: Check,
)
    requires
        call_ensures(health::evaluate_ready_at, (&state, &probe, now), report),
        call_ensures(health::check_el_syncing, (&probe.el_syncing,), el_sync),
        call_ensures(health::check_cl_syncing, (&probe.cl_status,), cl_sync),
        call_ensures(
            health::check_el_block_fresh,
            (&probe.el_block, state.cfg.el_max_block_age_secs, now),
            block,
        ),
        call_ensures(
            health::check_cl_slot_fresh,
            (
                &probe.cl_status,
                state.cl_genesis_time,
                state.cl_seconds_per_slot,
                state.cfg.cl_max_slot_age_secs,
                now,
            ),
            slot,
        ),
    ensures
        report.el_syncing.ok == el_sync.ok && report.el_syncing.detail@ == el_sync.detail@,
        report.cl_syncing.ok == cl_sync.ok && report.cl_syncing.detail@ == cl_sync.detail@,
        state.cfg.readyz_strict ==> {
            &&& report.el_block_fresh matches Some(c) && c.ok == block.ok && c.detail@
                == block.detail@
            &&& report.cl_slot_fresh matches Some(c) && c.ok == slot.ok && c.detail@
                == slot.detail@
        },
        !state.cfg.readyz_strict ==> report.el_block_fresh is None && report.cl_slot_fresh is None,
{
    assert(report@.el_syncing == report.el_syncing@ && report@.cl_syncing == report.cl_syncing@);
    assert(report@.el_block_fresh == health::opt_check(report.el_block_fresh));
    assert(report@.cl_slot_fresh == health::opt_check(report.cl_slot_fresh));
    assert(el_sync@.ok == el_sync.ok && cl_sync@.ok == cl_sync.ok);
    assert(block@.ok == block.ok && slot@.ok == slot.ok);
}

/// `/readyz` and the node's health answer 200 to a report that says `ready` and 503 to
/// any other, and `/readyz` shows the report.
pub proof fn law_reports_are_answered_by_their_status(
    report: ReadyReport,
    ready: JsonReply<ReadyReport>,
    node: TextReply,
)
    requires
        call_ensures(health::ready_reply, (report,), ready),
        call_ensures(health::node_health_reply, (&report,), node),
    ensures
        report.status@ == "ready"@ ==> ready.status == 200 && node.status == 200,
        report.status@ != "ready"@ ==> ready.status == 503 && node.status == 503,
        ready.body == report,
        ready.content_type@ == "application/json"@,
        node.body@.len() == 0,
        node.content_type@ == "text/plain; charset=utf-8"@,
{
}

/// By default `/readyz` and the node's health answer 200 exactly where both layers are
/// synced, at any time; they never answer anything but 200 and 503.
pub proof fn law_readyz_by_default(
    state: AppState,
    probe: Probe,
    ready: JsonReply<ReadyReport>,
    node: TextReply,
)
    requires
        call_ensures(health::ready, (&state, &probe), ready),
        call_ensures(health::node_health, (&state, &probe), node),
    ensures
        ready.status == 200 || ready.status == 503,
        node.status == 200 || node.status == 503,
        ready.status == 200 ==> both_synced(probe),
        node.status == 200 ==> both_synced(probe),
        !state.cfg.readyz_strict ==> (ready.status == 200 <==> both_synced(probe)),
        !state.cfg.readyz_strict ==> (node.status == 200 <==> both_synced(probe)),
{
    let at = choose|now: u64|
        ready.body@ == #[trigger] health::ready_view(state, probe, now) && ready.status
            == health::ready_status(health::is_ready(state, probe, now));
    let node_at = choose|now: u64|
        node.status == health::ready_status(#[trigger] health::is_ready(state, probe, now));
    lemma_ready(state, probe, at);
    lemma_ready(state, probe, node_at);
}

/// Under strict readiness a 200 is owed exactly where the pair is synced and, at some
/// reading of the clock, fresh.
pub proof fn law_readyz_under_strict(
    state: AppState,
    probe: Probe,
    ready: JsonReply<ReadyReport>,
) -> (now: u64)
    requires
        call_ensures(health::ready, (&state, &probe), ready),
        state.cfg.readyz_strict,
    ensures
        crate::time::is_reading(now),
        ready.status == 200 <==> both_synced(probe) && both_fresh(state, probe, now),
{
    let at = choose|now: u64|
        ready.body@ == #[trigger] health::ready_view(state, probe, now) && ready.status
            == health::ready_status(health::is_ready(state, probe, now)) && (
        state.cfg.readyz_strict ==> crate::time::is_reading(now));
    lemma_ready(state, probe, at);
    at
}

/// Before the first poll nothing is ready, and every signal is an error.
pub proof fn law_nothing_is_ready_before_the_first_poll(
    state: AppState,
    pending: Probe,
    now: u64,
    report: ReadyReport,
)
    requires
        call_ensures(Probe::pending, (), pending),
        call_ensures(health::evaluate_ready_at, (&state, &pending, now), report),
    ensures
        report.status@ != "ready"@,
        pending.el_syncing is Err && pending.el_peers is Err && pending.el_block is Err,
        pending.cl_status is Err && pending.cl_peers is Err,
{
    lemma_ready(state, pending, now);
    assert(report@.status == report.status@);
}

/// `/healthz` is the report as of a reading of the clock.
pub proof fn law_report_is_of_now(
    state: AppState,
    probe: Probe,
    el_use_h2: bool,
    r: JsonReply<HealthSnapshot>,
) -> (now: u64)
    requires
        call_ensures(health::report, (&state, &probe, el_use_h2), r),
    ensures
        crate::time::is_reading(now),
        forall|at: JsonReply<HealthSnapshot>| #[trigger]
            call_ensures(health::report_at, (&state, &probe, el_use_h2, now), at) ==> r.status
                == at.status && r.content_type@ == at.content_type@ && r.body.el@ == at.body.el@
                && r.body.cl@ == at.body.cl@,
{
    choose|now: u64|
        r.body.el@ == #[trigger] health::el_report(state, probe, el_use_h2, now) && r.body.cl@
            == health::cl_report(state, probe, now) && crate::time::is_reading(now)
}

/// Judging now is judging at a reading of the clock; by default any time will do.
pub proof fn law_judged_now(state: AppState, probe: Probe, report: ReadyReport) -> (now: u64)
    requires
        call_ensures(health::evaluate_ready, (&state, &probe), report),
    ensures
        state.cfg.readyz_strict ==> crate::time::is_reading(now),
        report.status@ == "ready"@ <==> both_synced(probe) && (state.cfg.readyz_strict
            ==> both_fresh(state, probe, now)),
        forall|at: ReadyReport| #[trigger]
            call_ensures(health::evaluate_ready_at, (&state, &probe, now), at) ==> report@ == at@,
{
    let now = choose|now: u64|
        report@ == #[trigger] health::ready_view(state, probe, now) && report.verdict()
            == health::is_ready(state, probe, now) && (state.cfg.readyz_strict
            ==> crate::time::is_reading(now));
    lemma_ready(state, probe, now);
    now
}

/// A report is read as it is written.
pub proof fn law_reports_are_read(report: ReadyReport, r: bool)
    requires
        call_ensures(ReadyReport::is_ready, (&report,), r),
    ensures
        r <==> report.status@ == "ready"@,
{
}

} // verus!
