//! Laws of upstream answers and of the EL transport verdict.

use serde_json::Value;
use vstd::prelude::*;

use crate::health::{ClStatus, ElBlockResult, ElSyncingResult, Probe};
use crate::json;
use crate::status::StatusCode;
use crate::text;
use crate::upstream;
use crate::upstream::{
    Detect, Detection, ElBatchResult, HealthError, RawBatch, RpcResponse, Sent, TransportSwitch,
};

verus! {

// ---- errors ----

/// An error is shown with its whole cause behind the name of its kind.
pub proof fn law_errors_show_their_cause(e: HealthError, r: String, code: String)
    requires
        call_ensures(HealthError::text, (&e,), r),
        e matches HealthError::HttpStatus(status) ==> call_ensures(
            StatusCode::text,
            (&status,),
            code,
        ),
    ensures
        e is Timeout ==> r@ == "timeout"@,
        e matches HealthError::Transport(s) ==> r@ == "transport: "@ + s@,
        e is HttpStatus ==> r@ == "http "@ + code@,
        e matches HealthError::Decode(s) ==> r@ == "decode: "@ + s@,
        e matches HealthError::Rpc(s) ==> r@ == "rpc error: "@ + s@,
{
}

/// Exactly timeouts and failed connections are of the connection; any answer, whatever
/// it says, is not.
pub proof fn law_what_is_of_the_connection(e: HealthError, r: bool)
    requires
        call_ensures(upstream::is_transport, (&e,), r),
    ensures
        e is Timeout || e is Transport ==> r,
        e is HttpStatus || e is Decode || e is Rpc ==> !r,
{
}

/// A body is read exactly of a response whose status is in the two hundreds; anything
/// else is an error that keeps what is known.
pub proof fn law_heads(sent: Sent, r: Result<(), HealthError>, code: u16)
    requires
        call_ensures(upstream::accept_head, (sent,), r),
        sent matches Sent::Responded(status) ==> call_ensures(StatusCode::as_u16, (&status,), code),
    ensures
        r is Ok <==> sent is Responded && 200 <= code < 300,
        sent is TimedOut ==> r == Err::<(), HealthError>(HealthError::Timeout),
        sent matches Sent::Failed(e) ==> r == Err::<(), HealthError>(HealthError::Transport(e)),
        sent matches Sent::Responded(status) ==> r is Err ==> r == Err::<(), HealthError>(
            HealthError::HttpStatus(status),
        ),
{
}

/// A value that decoded is passed on, and a failure keeps its text and its place.
pub proof fn law_decoded<T>(answer: Result<Result<T, String>, HealthError>, r: Result<T, HealthError>)
    requires
        call_ensures(upstream::decoded::<T>, (answer,), r),
    ensures
        answer matches Ok(Ok(v)) ==> r == Ok::<T, HealthError>(v),
        answer matches Ok(Err(e)) ==> r == Err::<T, HealthError>(HealthError::Decode(e)),
        answer matches Err(e) ==> r == Err::<T, HealthError>(e),
{
}

// ---- the EL batch ----

proof fn lemma_first(arr: Seq<RpcResponse>, id: i64, i: int)
    requires
        0 <= i < arr.len(),
        arr[i].id == id,
        forall|j: int| 0 <= j < i ==> (#[trigger] arr[j]).id != id,
    ensures
        upstream::first_with_id(arr, id) == Some(i),
    decreases arr.len(),
{
    let before = arr.drop_last();
    if i < before.len() {
        assert forall|j: int| 0 <= j < i implies (#[trigger] before[j]).id != id by {
            assert(arr[j].id != id);
        }
        lemma_first(before, id, i);
    } else {
        assert forall|j: int| 0 <= j < before.len() implies (#[trigger] before[j]).id != id by {
            assert(arr[j].id != id);
        }
        lemma_none(before, id);
    }
}

proof fn lemma_none(arr: Seq<RpcResponse>, id: i64)
    requires
        forall|j: int| 0 <= j < arr.len() ==> (#[trigger] arr[j]).id != id,
    ensures
        upstream::first_with_id(arr, id) is None,
    decreases arr.len(),
{
    if arr.len() > 0 {
        let before = arr.drop_last();
        assert forall|j: int| 0 <= j < before.len() implies (#[trigger] before[j]).id != id by {
            assert(arr[j].id != id);
        }
        lemma_none(before, id);
        assert(arr[arr.len() - 1].id != id);
    }
}

/// A request is answered by the first response with its id: by its error if it has
/// one, else by its result, wherever in the list it stands.
pub proof fn law_answer_is_that_of_the_id(
    arr: Vec<RpcResponse>,
    id: u32,
    i: int,
    r: Result<String, HealthError>,
)
    requires
        call_ensures(upstream::answer_for, (&arr, id), r),
        0 <= i < arr@.len(),
        arr@[i].id == id,
        forall|j: int| 0 <= j < i ==> (#[trigger] arr@[j]).id != id,
    ensures
        arr@[i].error matches Some(e) ==> (r matches Err(HealthError::Rpc(m)) && m@
            == json::json_text(json::json_view(e))),
        arr@[i].error is None ==> (arr@[i].result matches Some(t) ==> r == Ok::<
            String,
            HealthError,
        >(t)),
        arr@[i].error is None && arr@[i].result is None ==> (r matches Err(HealthError::Decode(m))
            && m@ == "missing result"@),
{
    lemma_first(arr@, id as i64, i);
}

/// A request that no response has the id of is missing its answer.
pub proof fn law_missing_answers_are_named(
    arr: Vec<RpcResponse>,
    id: u32,
    r: Result<String, HealthError>,
)
    requires
        call_ensures(upstream::answer_for, (&arr, id), r),
        forall|j: int| 0 <= j < arr@.len() ==> (#[trigger] arr@[j]).id != id,
    ensures
        r matches Err(HealthError::Decode(m)) && m@ == "missing response for id "@ + text::decimal(
            id as nat,
        ),
{
    lemma_none(arr@, id as i64);
}

/// A batch of three is taken apart by the ids that were asked with, each answer where
/// it belongs; a batch of any other size is refused with its size.
pub proof fn law_batch_is_taken_apart_by_id(
    arr: Vec<RpcResponse>,
    r: Result<RawBatch, HealthError>,
    one: Result<String, HealthError>,
    two: Result<String, HealthError>,
    three: Result<String, HealthError>,
)
    requires
        call_ensures(upstream::el_batch_rpc, (Ok(Ok(arr)),), r),
        call_ensures(upstream::answer_for, (&arr, 1), one),
        call_ensures(upstream::answer_for, (&arr, 2), two),
        call_ensures(upstream::answer_for, (&arr, 3), three),
    ensures
        arr@.len() == 3 ==> (r matches Ok(batch) && same_answer(batch.syncing, one) && same_answer(
            batch.peers,
            two,
        ) && same_answer(batch.block, three)),
        arr@.len() != 3 ==> (r matches Err(HealthError::Decode(m)) && m@
            == "expected 3 responses, got "@ + text::decimal(arr@.len())),
{
}

/// Two answers say the same.
pub open spec fn same_answer(a: Result<String, HealthError>, b: Result<String, HealthError>) -> bool {
    match (a, b) {
        (Ok(s), Ok(t)) => s@ == t@,
        (Err(HealthError::Rpc(s)), Err(HealthError::Rpc(t))) => s@ == t@,
        (Err(HealthError::Decode(s)), Err(HealthError::Decode(t))) => s@ == t@,
        _ => a == b,
    }
}

/// A batch that did not come fails as a whole, with the reason it had.
pub proof fn law_batch_that_did_not_come(
    e: HealthError,
    text: String,
    failed: Result<RawBatch, HealthError>,
    garbled: Result<RawBatch, HealthError>,
)
    requires
        call_ensures(upstream::el_batch_rpc, (Err(e),), failed),
        call_ensures(upstream::el_batch_rpc, (Ok(Err(text)),), garbled),
    ensures
        failed == Err::<RawBatch, HealthError>(e),
        garbled == Err::<RawBatch, HealthError>(HealthError::Decode(text)),
{
}

/// The peer count is what the JSON string holds; what is no JSON string fails to decode.
pub proof fn law_peer_count_is_a_json_string(
    raw: Result<String, HealthError>,
    r: Result<String, HealthError>,
)
    requires
        call_ensures(upstream::decode_peers, (raw,), r),
    ensures
        raw matches Err(e) ==> r == Err::<String, HealthError>(e),
        raw matches Ok(t) ==> (json::json_string(t@) matches Ok(s) ==> (r matches Ok(held) && held@
            == s)),
        raw matches Ok(t) ==> (json::json_string(t@) matches Err(why) ==> (r matches Err(
            HealthError::Decode(m),
        ) && m@ == why)),
{
}

// ---- the transport verdict ----

/// A poll that got through over the transport in use is settled by it: its answers
/// stand, the verdict is kept, and nothing is switched. One that did not is tried over
/// the other transport, and only then.
pub proof fn law_first_exchange(
    prefer_h2: bool,
    primary: Result<ElBatchResult, HealthError>,
    r: Detect,
)
    requires
        call_ensures(upstream::detect_primary, (prefer_h2, primary), r),
    ensures
        primary matches Ok(batch) ==> (r matches Detect::Done(d) && d.batch == batch),
        primary matches Err(e) ==> (if e is Timeout || e is Transport {
            r == Detect::TryOther(e)
        } else {
            r matches Detect::Done(d) && d.batch.syncing == Err::<ElSyncingResult, HealthError>(e)
                && d.batch.peers == Err::<String, HealthError>(e) && d.batch.block == Err::<
                ElBlockResult,
                HealthError,
            >(e)
        }),
        r matches Detect::Done(d) ==> d.use_h2 == prefer_h2 && d.switched is None,
{
}

/// After a failed connection, the verdict moves to the other transport exactly where
/// that one was answered at all; the answers are then its own. Where neither was, the
/// verdict stays and the first failure is reported.
pub proof fn law_second_exchange(
    prefer_h2: bool,
    first: HealthError,
    alt: Result<ElBatchResult, HealthError>,
    r: Detection,
)
    requires
        call_ensures(upstream::detect_fallback, (prefer_h2, first, alt), r),
    ensures
        ({
            let down = alt matches Err(e) && (e is Timeout || e is Transport);
            &&& (r.use_h2 == prefer_h2) == down
            &&& r.switched is None == down
            &&& r.switched matches Some(s) ==> (s is ToHttp2 <==> r.use_h2)
            &&& alt matches Ok(batch) ==> r.batch == batch
            &&& alt matches Err(e) ==> {
                let told = if down {
                    first
                } else {
                    e
                };
                &&& r.batch.syncing == Err::<ElSyncingResult, HealthError>(told)
                &&& r.batch.peers == Err::<String, HealthError>(told)
                &&& r.batch.block == Err::<ElBlockResult, HealthError>(told)
            }
        }),
{
}

/// A switch is told by the version that is used from then on.
pub proof fn law_switch_messages(s: TransportSwitch, m: &'static str)
    requires
        call_ensures(TransportSwitch::message, (s,), m),
    ensures
        s is ToHttp1 ==> m@ == "EL JSON-RPC upstream stopped speaking h2c — using HTTP/1.1"@,
        s is ToHttp2 ==> m@ == "EL JSON-RPC upstream speaks h2c — using HTTP/2"@,
{
}

// ---- Beacon documents ----

/// The member of a JSON object under a key.
pub open spec fn under(doc: json::JsonView, key: Seq<char>, v: json::JsonView) -> bool {
    doc matches json::JsonView::Object(m) && m.dom().contains(key) && m[key] == v
}

/// `v` is a JSON string that is read as the number `n`.
pub open spec fn tells(v: json::JsonView, n: u64) -> bool {
    v matches json::JsonView::Str(s) && text::parsed_u64(s, 10) == Ok::<nat, text::IntError>(
        n as nat,
    )
}

/// A sync status says what the document says: its flag is the boolean under
/// `is_syncing`, its slot and its distance are the numbers under their names.
pub proof fn law_sync_status_is_the_documents(doc: Value, r: Result<ClStatus, String>)
    requires
        call_ensures(upstream::read_syncing, (&doc,), r),
    ensures
        r matches Ok(s) ==> exists|data: json::JsonView, slot: json::JsonView,
            distance: json::JsonView|
            #![trigger under(data, "head_slot"@, slot), under(data, "sync_distance"@, distance)]
            under(json::json_view(doc), "data"@, data) && under(
                data,
                "is_syncing"@,
                json::JsonView::Bool(s.is_syncing),
            ) && under(data, "head_slot"@, slot) && tells(slot, s.head_slot) && under(
                data,
                "sync_distance"@,
                distance,
            ) && tells(distance, s.sync_distance),
{
    if let Ok(s) = r {
        let data = json::json_view(doc).member("data"@)->0;
        let slot = data.member("head_slot"@)->0;
        let distance = data.member("sync_distance"@)->0;
        assert(under(data, "head_slot"@, slot) && under(data, "sync_distance"@, distance));
        lemma_tells(slot, s.head_slot);
        lemma_tells(distance, s.sync_distance);
    }
}

proof fn lemma_digits_fit(s: Seq<char>, radix: nat)
    ensures
        text::digits_value(s, radix) matches Ok(n) ==> n <= u64::MAX,
{
}

proof fn lemma_tells(v: json::JsonView, n: u64)
    ensures
        upstream::decimal_field(Some(v)) == Some(n) <==> tells(v, n),
{
    if let json::JsonView::Str(s) = v {
        lemma_digits_fit(s, 10);
        lemma_digits_fit(s.skip(1), 10);
    }
}

/// A document that has the three fields in their forms yields a status.
pub proof fn law_sync_status_is_owed(
    doc: Value,
    data: json::JsonView,
    flag: bool,
    slot: json::JsonView,
    n: u64,
    distance: json::JsonView,
    d: u64,
    r: Result<ClStatus, String>,
)
    requires
        call_ensures(upstream::read_syncing, (&doc,), r),
        under(json::json_view(doc), "data"@, data),
        under(data, "is_syncing"@, json::JsonView::Bool(flag)),
        under(data, "head_slot"@, slot),
        tells(slot, n),
        under(data, "sync_distance"@, distance),
        tells(distance, d),
    ensures
        r == Ok::<ClStatus, String>(
            ClStatus { head_slot: n, sync_distance: d, is_syncing: flag },
        ),
{
    lemma_tells(slot, n);
    lemma_tells(distance, d);
}

/// A document that lacks a field, or has it in another form, is refused by its name; the
/// first such field counts.
pub proof fn law_sync_status_names_what_is_missing(
    doc: Value,
    data: json::JsonView,
    r: Result<ClStatus, String>,
)
    requires
        call_ensures(upstream::read_syncing, (&doc,), r),
    ensures
        (forall|v: json::JsonView| !#[trigger] under(json::json_view(doc), "data"@, v)) ==> (
        r matches Err(e) && e@ == "missing data"@),
        under(json::json_view(doc), "data"@, data) ==> {
            let no_flag = forall|b: bool|
                !#[trigger] under(data, "is_syncing"@, json::JsonView::Bool(b));
            let no_slot = forall|v: json::JsonView, n: u64|
                !(#[trigger] under(data, "head_slot"@, v) && #[trigger] tells(v, n));
            let no_distance = forall|v: json::JsonView, n: u64|
                !(#[trigger] under(data, "sync_distance"@, v) && #[trigger] tells(v, n));
            &&& no_flag ==> (r matches Err(e) && e@ == "missing is_syncing"@)
            &&& !no_flag && no_slot ==> (r matches Err(e) && e@ == "missing head_slot"@)
            &&& !no_flag && !no_slot && no_distance ==> (r matches Err(e) && e@
                == "missing sync_distance"@)
        },
{
    let view = json::json_view(doc);
    if view.member("data"@) is Some {
        assert(under(view, "data"@, view.member("data"@)->0));
    }
    if under(view, "data"@, data) {
        let slot = data.member("head_slot"@);
        let distance = data.member("sync_distance"@);
        if let Some(json::JsonView::Bool(b)) = data.member("is_syncing"@) {
            assert(under(data, "is_syncing"@, json::JsonView::Bool(b)));
        }
        if upstream::decimal_field(slot) is Some {
            lemma_tells(slot->0, upstream::decimal_field(slot)->0);
            assert(under(data, "head_slot"@, slot->0) && tells(
                slot->0,
                upstream::decimal_field(slot)->0,
            ));
        }
        if upstream::decimal_field(distance) is Some {
            lemma_tells(distance->0, upstream::decimal_field(distance)->0);
            assert(under(data, "sync_distance"@, distance->0) && tells(
                distance->0,
                upstream::decimal_field(distance)->0,
            ));
        }
        assert forall|v: json::JsonView, n: u64| #[trigger]
            under(data, "head_slot"@, v) && #[trigger] tells(v, n) implies upstream::decimal_field(
            slot,
        ) == Some(n) by {
            lemma_tells(v, n);
        }
    }
}

/// The CL's peer count is the number under `connected`, and is owed wherever the
/// document has it.
pub proof fn law_cl_peers_are_the_documents(
    doc: Value,
    data: json::JsonView,
    v: json::JsonView,
    n: u64,
    r: Result<u64, String>,
)
    requires
        call_ensures(upstream::read_peer_count, (&doc,), r),
    ensures
        under(json::json_view(doc), "data"@, data) && under(data, "connected"@, v) && tells(v, n)
            ==> r == Ok::<u64, String>(n),
        (forall|d: json::JsonView| !#[trigger] under(json::json_view(doc), "data"@, d)) ==> (
        r matches Err(e) && e@ == "missing data"@),
        under(json::json_view(doc), "data"@, data) && (forall|w: json::JsonView, m: u64|
            !(#[trigger] under(data, "connected"@, w) && #[trigger] tells(w, m))) ==> (
        r matches Err(e) && e@ == "missing connected"@),
{
    let view = json::json_view(doc);
    if view.member("data"@) is Some {
        assert(under(view, "data"@, view.member("data"@)->0));
    }
    if under(view, "data"@, data) {
        lemma_tells(v, n);
        let w = data.member("connected"@);
        if upstream::decimal_field(w) is Some {
            lemma_tells(w->0, upstream::decimal_field(w)->0);
            assert(under(data, "connected"@, w->0) && tells(w->0, upstream::decimal_field(w)->0));
        }
    }
}

/// A number is read of a JSON string and of nothing else.
pub proof fn law_numbers_come_as_strings(v: Value, r: Option<u64>, n: u64, none: Option<u64>)
    requires
        call_ensures(upstream::parse_decimal_str, (Some(&v),), r),
        call_ensures(upstream::parse_decimal_str, (None,), none),
    ensures
        none is None,
        r == Some(n) <==> tells(json::json_view(v), n),
{
    lemma_tells(json::json_view(v), n);
}

/// A signal of the CL is read off the document that was fetched. Without a document the
/// reason is reported: that of the exchange as it is shown, or that of the decoding.
pub proof fn law_cl_signals_are_read_off_the_document(
    body: Vec<u8>,
    doc: Value,
    status: Result<ClStatus, String>,
    read: Result<ClStatus, String>,
    peers: Result<u64, String>,
    counted: Result<u64, String>,
)
    requires
        call_ensures(upstream::cl_syncing_status, (&Ok(body),), status),
        call_ensures(upstream::cl_peer_count, (&Ok(body),), peers),
        call_ensures(upstream::read_syncing, (&doc,), read),
        call_ensures(upstream::read_peer_count, (&doc,), counted),
    ensures
        json::json_document(body@) == Ok::<json::JsonView, Seq<char>>(json::json_view(doc)) ==> {
            &&& read matches Ok(s) ==> status == Ok::<ClStatus, String>(s)
            &&& read matches Err(e) ==> (status matches Err(m) && m@ == e@)
            &&& counted matches Ok(n) ==> peers == Ok::<u64, String>(n)
            &&& counted matches Err(e) ==> (peers matches Err(m) && m@ == e@)
        },
        json::json_document(body@) matches Err(why) ==> {
            &&& status matches Err(m) && m@ == "decode: "@ + why
            &&& peers matches Err(m) && m@ == "decode: "@ + why
        },
{
}

/// A failed exchange with the CL is reported as it is shown.
pub proof fn law_cl_failures_are_shown(
    e: HealthError,
    shown: String,
    status: Result<ClStatus, String>,
    peers: Result<u64, String>,
)
    requires
        call_ensures(HealthError::text, (&e,), shown),
        call_ensures(upstream::cl_syncing_status, (&Err(e),), status),
        call_ensures(upstream::cl_peer_count, (&Err(e),), peers),
    ensures
        status matches Err(m) && m@ == shown@,
        peers matches Err(m) && m@ == shown@,
{
}

/// A probe holds the five signals of its poll, each in its place, and the failures of
/// the batch as they are shown.
pub proof fn law_probe_holds_the_signals(
    batch: ElBatchResult,
    cl_status: Result<ClStatus, String>,
    cl_peers: Result<u64, String>,
    p: Probe,
    e: HealthError,
    shown: String,
)
    requires
        call_ensures(upstream::assemble, (batch, cl_status, cl_peers), p),
        call_ensures(HealthError::text, (&e,), shown),
    ensures
        p.cl_status == cl_status && p.cl_peers == cl_peers,
        batch.syncing matches Ok(v) ==> p.el_syncing == Ok::<ElSyncingResult, String>(v),
        batch.peers matches Ok(v) ==> p.el_peers == Ok::<String, String>(v),
        batch.block matches Ok(v) ==> p.el_block == Ok::<ElBlockResult, String>(v),
        batch.syncing == Err::<ElSyncingResult, HealthError>(e) ==> (p.el_syncing matches Err(m)
            && m@ == shown@),
        batch.peers == Err::<String, HealthError>(e) ==> (p.el_peers matches Err(m) && m@
            == shown@),
        batch.block == Err::<ElBlockResult, HealthError>(e) ==> (p.el_block matches Err(m) && m@
            == shown@),
{
}

} // verus!
