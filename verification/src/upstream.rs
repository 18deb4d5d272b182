//! One poll of the upstream pair: what each exchange counts as, how the EL batch
//! is taken apart, and which HTTP version the EL hop settles on.

use serde_json::Value;
use vstd::prelude::*;

use crate::health::{ClStatus, ElBlockResult, ElSyncingResult, Probe};
use crate::json::{
    parse_document, parse_string, value_as_bool, value_as_str, value_get, value_text,
};
use crate::status::StatusCode;
use crate::text;

verus! {

/// The JSON-RPC batch that asks the EL for all three signals at once.
pub const EL_BATCH_REQ: &'static str = r#"[{"jsonrpc":"2.0","method":"eth_syncing","params":[],"id":1},{"jsonrpc":"2.0","method":"net_peerCount","params":[],"id":2},{"jsonrpc":"2.0","method":"eth_getBlockByNumber","params":["latest",false],"id":3}]"#;

/// The largest response body that a health probe reads, in bytes.
pub const MAX_PROBE_BODY: usize = 10_485_760;

/// What can go wrong with a health probe.
#[derive(Debug, PartialEq, Eq)]
pub enum HealthError {
    Timeout,
    Transport(String),
    HttpStatus(StatusCode),
    Decode(String),
    Rpc(String),
}

impl Clone for HealthError {
    fn clone(&self) -> (r: HealthError)
        ensures
            r == *self,
    {
        match self {
            HealthError::Timeout => HealthError::Timeout,
            HealthError::Transport(s) => HealthError::Transport(s.clone()),
            HealthError::HttpStatus(status) => HealthError::HttpStatus(*status),
            HealthError::Decode(s) => HealthError::Decode(s.clone()),
            HealthError::Rpc(s) => HealthError::Rpc(s.clone()),
        }
    }
}

impl HealthError {
    /// The error as it is shown.
    pub open spec fn shown(self) -> Seq<char> {
        match self {
            HealthError::Timeout => "timeout"@,
            HealthError::Transport(s) => "transport: "@ + s@,
            HealthError::HttpStatus(status) => "http "@ + status.text_spec(),
            HealthError::Decode(s) => "decode: "@ + s@,
            HealthError::Rpc(s) => "rpc error: "@ + s@,
        }
    }

    pub fn text(&self) -> (r: String)
        ensures
            r@ == self.shown(),
    {
        match self {
            HealthError::Timeout => "timeout".to_owned(),
            HealthError::Transport(s) => "transport: ".to_owned().concat(s.as_str()),
            HealthError::HttpStatus(status) => "http ".to_owned().concat(status.text().as_str()),
            HealthError::Decode(s) => "decode: ".to_owned().concat(s.as_str()),
            HealthError::Rpc(s) => "rpc error: ".to_owned().concat(s.as_str()),
        }
    }

    /// A connection-level failure or a timeout, as opposed to an answer of any kind.
    pub open spec fn is_connection_level(self) -> bool {
        self is Transport || self is Timeout
    }
}

/// The only sign that the chosen HTTP version might be wrong for an upstream. A
/// timeout counts, since an upstream may hang on the HTTP/2 connection preface.
pub fn is_transport(e: &HealthError) -> (r: bool)
    ensures
        r == e.is_connection_level(),
{
    matches!(e, HealthError::Transport(_) | HealthError::Timeout)
}

// ---- one exchange ----

/// How a probe request came out, as far as the response head.
#[derive(Debug)]
pub enum Sent {
    TimedOut,
    Failed(String),
    Responded(StatusCode),
}

/// Whether the response is one whose body is read.
pub fn accept_head(sent: Sent) -> (r: Result<(), HealthError>)
    ensures
        match sent {
            Sent::TimedOut => r == Err::<(), HealthError>(HealthError::Timeout),
            Sent::Failed(e) => r == Err::<(), HealthError>(HealthError::Transport(e)),
            Sent::Responded(status) => if status.success() {
                r is Ok
            } else {
                r == Err::<(), HealthError>(HealthError::HttpStatus(status))
            },
        },
{
    match sent {
        Sent::TimedOut => Err(HealthError::Timeout),
        Sent::Failed(e) => Err(HealthError::Transport(e)),
        Sent::Responded(status) => if status.is_success() {
            Ok(())
        } else {
            Err(HealthError::HttpStatus(status))
        },
    }
}

/// A value read from an answer: an answer that does not decode is an error of its own kind.
pub fn decoded<T>(answer: Result<Result<T, String>, HealthError>) -> (r: Result<T, HealthError>)
    ensures
        match answer {
            Ok(Ok(v)) => r == Ok::<T, HealthError>(v),
            Ok(Err(e)) => r == Err::<T, HealthError>(HealthError::Decode(e)),
            Err(e) => r == Err::<T, HealthError>(e),
        },
{
    match answer {
        Ok(Ok(v)) => Ok(v),
        Ok(Err(e)) => Err(HealthError::Decode(e)),
        Err(e) => Err(e),
    }
}

// ---- the EL batch ----

/// One JSON-RPC response: its id, the text of its result, and its error.
#[derive(Debug)]
pub struct RpcResponse {
    pub id: i64,
    pub result: Option<String>,
    pub error: Option<Value>,
}

/// The three answers of a batch as JSON texts.
#[derive(Debug)]
pub struct RawBatch {
    pub syncing: Result<String, HealthError>,
    pub peers: Result<String, HealthError>,
    pub block: Result<String, HealthError>,
}

/// The three answers of a batch.
#[derive(Debug)]
pub struct ElBatchResult {
    pub syncing: Result<ElSyncingResult, HealthError>,
    pub peers: Result<String, HealthError>,
    pub block: Result<ElBlockResult, HealthError>,
}

impl ElBatchResult {
    /// All three answers are the same failure.
    pub open spec fn all_failed(self, e: HealthError) -> bool {
        &&& self.syncing == Err::<ElSyncingResult, HealthError>(e)
        &&& self.peers == Err::<String, HealthError>(e)
        &&& self.block == Err::<ElBlockResult, HealthError>(e)
    }

    pub fn failed(e: HealthError) -> (r: ElBatchResult)
        ensures
            r.all_failed(e),
    {
        ElBatchResult { syncing: Err(e.clone()), peers: Err(e.clone()), block: Err(e) }
    }
}

/// Position of the first response with this id.
pub open spec fn first_with_id(arr: Seq<RpcResponse>, id: i64) -> Option<int>
    decreases arr.len(),
{
    if arr.len() == 0 {
        None
    } else {
        match first_with_id(arr.drop_last(), id) {
            Some(i) => Some(i),
            None => if arr.last().id == id {
                Some(arr.len() - 1)
            } else {
                None
            },
        }
    }
}

/// What `r` has to be for the request with this id: the result of the first
/// response to it, unless that response is missing, an error or without a result.
pub open spec fn answers(arr: Seq<RpcResponse>, id: i64, r: Result<String, HealthError>) -> bool {
    match first_with_id(arr, id) {
        None => r matches Err(HealthError::Decode(m)) && m@ == "missing response for id "@
            + text::decimal(id as nat),
        Some(i) => match arr[i].error {
            Some(e) => r matches Err(HealthError::Rpc(m)) && m@ == crate::json::json_text(
                crate::json::json_view(e),
            ),
            None => match arr[i].result {
                Some(text) => r == Ok::<String, HealthError>(text),
                None => r matches Err(HealthError::Decode(m)) && m@ == "missing result"@,
            },
        },
    }
}

proof fn lemma_first_with_id(arr: Seq<RpcResponse>, k: int, id: i64)
    requires
        0 <= k <= arr.len(),
        forall|j: int| 0 <= j < k ==> arr[j].id != id,
    ensures
        k < arr.len() && arr[k].id == id ==> first_with_id(arr, id) == Some(k),
        k == arr.len() ==> first_with_id(arr, id) is None,
    decreases arr.len(),
{
    if arr.len() > 0 {
        if k == arr.len() {
            lemma_first_with_id(arr.drop_last(), k - 1, id);
        } else {
            lemma_first_with_id(arr.drop_last(), k, id);
        }
    }
}

/// The answer to the request with this id.
pub fn answer_for(arr: &Vec<RpcResponse>, id: u32) -> (r: Result<String, HealthError>)
    ensures
        answers(arr@, id as i64, r),
{
    let wanted: i64 = id as i64;
    let mut i: usize = 0;
    while i < arr.len()
        invariant
            i <= arr@.len(),
            wanted == id,
            forall|j: int| 0 <= j < i ==> arr@[j].id != wanted,
        decreases arr@.len() - i,
    {
        if arr[i].id == wanted {
            proof {
                lemma_first_with_id(arr@, i as int, wanted);
            }
            return match &arr[i].error {
                Some(e) => Err(HealthError::Rpc(value_text(e))),
                None => match &arr[i].result {
                    Some(text) => Ok(text.clone()),
                    None => Err(HealthError::Decode("missing result".to_owned())),
                },
            };
        }
        i += 1;
    }
    proof {
        lemma_first_with_id(arr@, i as int, wanted);
    }
    Err(
        HealthError::Decode(
            "missing response for id ".to_owned().concat(text::u64_decimal(id as u64).as_str()),
        ),
    )
}

/// What `r` has to be for a list of responses: it has to hold three of them.
pub open spec fn batch_split(arr: Seq<RpcResponse>, r: Result<RawBatch, HealthError>) -> bool {
    if arr.len() == 3 {
        &&& r is Ok
        &&& answers(arr, 1, r->Ok_0.syncing)
        &&& answers(arr, 2, r->Ok_0.peers)
        &&& answers(arr, 3, r->Ok_0.block)
    } else {
        r matches Err(HealthError::Decode(m)) && m@ == "expected 3 responses, got "@
            + text::decimal(arr.len())
    }
}

/// Takes a list of responses apart; their order does not matter.
pub fn split_batch(arr: &Vec<RpcResponse>) -> (r: Result<RawBatch, HealthError>)
    ensures
        batch_split(arr@, r),
{
    if arr.len() != 3 {
        return Err(
            HealthError::Decode(
                "expected 3 responses, got ".to_owned().concat(
                    text::u64_decimal(arr.len() as u64).as_str(),
                ),
            ),
        );
    }
    Ok(RawBatch { syncing: answer_for(arr, 1), peers: answer_for(arr, 2), block: answer_for(arr, 3) })
}

/// The answers in the response to a batch request: an exchange that failed, or a body
/// that is no list of responses, fails as a whole.
pub fn el_batch_rpc(fetched: Result<Result<Vec<RpcResponse>, String>, HealthError>) -> (r: Result<
    RawBatch,
    HealthError,
>)
    ensures
        match fetched {
            Err(e) => r == Err::<RawBatch, HealthError>(e),
            Ok(Err(e)) => r == Err::<RawBatch, HealthError>(HealthError::Decode(e)),
            Ok(Ok(arr)) => batch_split(arr@, r),
        },
{
    match decoded(fetched) {
        Ok(arr) => split_batch(&arr),
        Err(e) => Err(e),
    }
}

/// The peer count in a batch answer: the answer has to be a JSON string.
pub open spec fn peers_of(raw: Result<String, HealthError>, r: Result<String, HealthError>) -> bool {
    match raw {
        Ok(text) => match crate::json::json_string(text@) {
            Ok(s) => r is Ok && r->Ok_0@ == s,
            Err(e) => r matches Err(HealthError::Decode(m)) && m@ == e,
        },
        Err(e) => r == Err::<String, HealthError>(e),
    }
}

pub fn decode_peers(raw: Result<String, HealthError>) -> (r: Result<String, HealthError>)
    ensures
        peers_of(raw, r),
{
    match raw {
        Ok(text) => decoded(Ok(parse_string(text.as_str()))),
        Err(e) => Err(e),
    }
}

// ---- which HTTP version the EL hop uses ----

/// The verdict before the first poll: HTTP/2 is preferred.
pub const INITIAL_USE_H2: bool = true;

/// A change of the EL transport verdict, worth a line in the log.
#[derive(Debug, Clone, Copy, PartialEq, Eq, Structural)]
pub enum TransportSwitch {
    ToHttp1,
    ToHttp2,
}

impl TransportSwitch {
    pub fn message(self) -> (r: &'static str)
        ensures
            r@ == (match self {
                TransportSwitch::ToHttp1 => "EL JSON-RPC upstream stopped speaking h2c — using HTTP/1.1"@,
                TransportSwitch::ToHttp2 => "EL JSON-RPC upstream speaks h2c — using HTTP/2"@,
            }),
    {
        match self {
            TransportSwitch::ToHttp1 => "EL JSON-RPC upstream stopped speaking h2c — using HTTP/1.1",
            TransportSwitch::ToHttp2 => "EL JSON-RPC upstream speaks h2c — using HTTP/2",
        }
    }
}

/// What to do after the batch went out over the preferred transport.
#[derive(Debug)]
pub enum Detect {
    /// The poll is over, and the verdict stands.
    Done(Detection),
    /// The connection itself failed: send the batch over the other transport too.
    TryOther(HealthError),
}

/// The outcome of a poll: its answers, the verdict after it, and whether that is new.
#[derive(Debug)]
pub struct Detection {
    pub batch: ElBatchResult,
    pub use_h2: bool,
    pub switched: Option<TransportSwitch>,
}

/// Whether an exchange got as far as the upstream.
pub open spec fn reached(attempt: Result<ElBatchResult, HealthError>) -> bool {
    match attempt {
        Ok(_) => true,
        Err(e) => !e.is_connection_level(),
    }
}

/// The verdict after a poll whose exchange over the preferred transport came to
/// `primary`, and whose exchange over the other one comes to `alt` if it is made.
pub open spec fn verdict_of(
    prefer_h2: bool,
    primary: Result<ElBatchResult, HealthError>,
    alt: Result<ElBatchResult, HealthError>,
) -> bool {
    if !reached(primary) && reached(alt) {
        !prefer_h2
    } else {
        prefer_h2
    }
}

/// Judges the batch sent over the preferred transport. One that got through settles
/// the poll: the verdict is what it was, whatever the other transport would do.
pub fn detect_primary(prefer_h2: bool, primary: Result<ElBatchResult, HealthError>) -> (r: Detect)
    ensures
        (r is Done) == reached(primary),
        match primary {
            Ok(batch) => r == Detect::Done(Detection { batch, use_h2: prefer_h2, switched: None }),
            Err(e) => if e.is_connection_level() {
                r == Detect::TryOther(e)
            } else {
                r matches Detect::Done(d) && d.batch.all_failed(e) && d.use_h2 == prefer_h2
                    && d.switched is None
            },
        },
        r matches Detect::Done(d) ==> forall|alt: Result<ElBatchResult, HealthError>|
            d.use_h2 == #[trigger] verdict_of(prefer_h2, primary, alt),
{
    match primary {
        Ok(batch) => Detect::Done(Detection { batch, use_h2: prefer_h2, switched: None }),
        Err(e) => if is_transport(&e) {
            Detect::TryOther(e)
        } else {
            Detect::Done(
                Detection { batch: ElBatchResult::failed(e), use_h2: prefer_h2, switched: None },
            )
        },
    }
}

/// The switch away from the preferred transport.
pub open spec fn switch_from(prefer_h2: bool) -> TransportSwitch {
    if prefer_h2 {
        TransportSwitch::ToHttp1
    } else {
        TransportSwitch::ToHttp2
    }
}

/// The verdict after a poll, given which transports the upstream can be reached
/// over: it moves where the one in use is dead and the other one is not.
pub open spec fn verdict_after(use_h2: bool, h2_reached: bool, h1_reached: bool) -> bool {
    if use_h2 {
        h2_reached || !h1_reached
    } else {
        h2_reached && !h1_reached
    }
}

/// Judges the batch sent over the other transport, after the preferred one failed
/// with `first`. The verdict moves exactly where the other one got through.
pub fn detect_fallback(
    prefer_h2: bool,
    first: HealthError,
    alt: Result<ElBatchResult, HealthError>,
) -> (r: Detection)
    ensures
        r.use_h2 == (if reached(alt) {
            !prefer_h2
        } else {
            prefer_h2
        }),
        first.is_connection_level() ==> r.use_h2 == verdict_of(prefer_h2, Err(first), alt),
        r.switched == (if reached(alt) {
            Some(switch_from(prefer_h2))
        } else {
            None
        }),
        match alt {
            Ok(batch) => r.batch == batch,
            Err(e) => if reached(alt) {
                r.batch.all_failed(e)
            } else {
                r.batch.all_failed(first)
            },
        },
{
    let switch = if prefer_h2 {
        TransportSwitch::ToHttp1
    } else {
        TransportSwitch::ToHttp2
    };
    match alt {
        Ok(batch) => Detection { batch, use_h2: !prefer_h2, switched: Some(switch) },
        Err(e) => if is_transport(&e) {
            Detection { batch: ElBatchResult::failed(first), use_h2: prefer_h2, switched: None }
        } else {
            Detection {
                batch: ElBatchResult::failed(e),
                use_h2: !prefer_h2,
                switched: Some(switch),
            }
        },
    }
}

// ---- the CL signals ----

/// A document from the Beacon API, or why there is none.
pub open spec fn cl_document(fetched: Result<Vec<u8>, HealthError>) -> Result<
    crate::json::JsonView,
    Seq<char>,
> {
    match fetched {
        Ok(body) => match crate::json::json_document(body@) {
            Ok(doc) => Ok(doc),
            Err(e) => Err("decode: "@ + e),
        },
        Err(e) => Err(e.shown()),
    }
}

pub fn cl_get_json(fetched: &Result<Vec<u8>, HealthError>) -> (r: Result<Value, String>)
    ensures
        match r {
            Ok(v) => cl_document(*fetched) == Ok::<_, Seq<char>>(crate::json::json_view(v)),
            Err(e) => cl_document(*fetched) == Err::<crate::json::JsonView, Seq<char>>(e@),
        },
{
    match fetched {
        Ok(body) => match parse_document(body.as_slice()) {
            Ok(v) => Ok(v),
            Err(e) => Err("decode: ".to_owned().concat(e.as_str())),
        },
        Err(e) => Err(e.text()),
    }
}

/// The number in a JSON string of decimal digits. A JSON number does not count.
pub open spec fn decimal_field(v: Option<crate::json::JsonView>) -> Option<u64> {
    match v {
        Some(v) => match v.as_str() {
            Some(s) => match text::parsed_u64(s, 10) {
                Ok(n) => Some(n as u64),
                Err(_) => None,
            },
            None => None,
        },
        None => None,
    }
}

pub fn parse_decimal_str(v: Option<&Value>) -> (r: Option<u64>)
    ensures
        r == decimal_field(
            match v {
                Some(v) => Some(crate::json::json_view(*v)),
                None => None,
            },
        ),
{
    match v {
        Some(v) => match value_as_str(v) {
            Some(s) => match text::parse_decimal(s) {
                Ok(n) => Some(n),
                Err(_) => None,
            },
            None => None,
        },
        None => None,
    }
}

/// The sync status in a `/eth/v1/node/syncing` document.
pub open spec fn syncing_of(doc: crate::json::JsonView) -> Result<ClStatus, Seq<char>> {
    match doc.member("data"@) {
        None => Err("missing data"@),
        Some(data) => {
            let is_syncing = match data.member("is_syncing"@) {
                Some(v) => v.as_bool(),
                None => None,
            };
            let head_slot = decimal_field(data.member("head_slot"@));
            let sync_distance = decimal_field(data.member("sync_distance"@));
            if is_syncing is None {
                Err("missing is_syncing"@)
            } else if head_slot is None {
                Err("missing head_slot"@)
            } else if sync_distance is None {
                Err("missing sync_distance"@)
            } else {
                Ok(
                    ClStatus {
                        head_slot: head_slot->0,
                        sync_distance: sync_distance->0,
                        is_syncing: is_syncing->0,
                    },
                )
            }
        },
    }
}

pub fn read_syncing(doc: &Value) -> (r: Result<ClStatus, String>)
    ensures
        match r {
            Ok(s) => syncing_of(crate::json::json_view(*doc)) == Ok::<ClStatus, Seq<char>>(s),
            Err(e) => syncing_of(crate::json::json_view(*doc)) == Err::<ClStatus, Seq<char>>(e@),
        },
{
    let data = match value_get(doc, "data") {
        Some(data) => data,
        None => return Err("missing data".to_owned()),
    };
    let flag = match value_get(data, "is_syncing") {
        Some(v) => value_as_bool(v),
        None => None,
    };
    let is_syncing = match flag {
        Some(b) => b,
        None => return Err("missing is_syncing".to_owned()),
    };
    let head_slot = match parse_decimal_str(value_get(data, "head_slot")) {
        Some(n) => n,
        None => return Err("missing head_slot".to_owned()),
    };
    let sync_distance = match parse_decimal_str(value_get(data, "sync_distance")) {
        Some(n) => n,
        None => return Err("missing sync_distance".to_owned()),
    };
    Ok(ClStatus { head_slot, sync_distance, is_syncing })
}

/// The connected peers in a `/eth/v1/node/peer_count` document.
pub open spec fn peer_count_of(doc: crate::json::JsonView) -> Result<u64, Seq<char>> {
    match doc.member("data"@) {
        None => Err("missing data"@),
        Some(data) => match decimal_field(data.member("connected"@)) {
            Some(n) => Ok(n),
            None => Err("missing connected"@),
        },
    }
}

pub fn read_peer_count(doc: &Value) -> (r: Result<u64, String>)
    ensures
        match r {
            Ok(n) => peer_count_of(crate::json::json_view(*doc)) == Ok::<u64, Seq<char>>(n),
            Err(e) => peer_count_of(crate::json::json_view(*doc)) == Err::<u64, Seq<char>>(e@),
        },
{
    let data = match value_get(doc, "data") {
        Some(data) => data,
        None => return Err("missing data".to_owned()),
    };
    match parse_decimal_str(value_get(data, "connected")) {
        Some(n) => Ok(n),
        None => Err("missing connected".to_owned()),
    }
}

/// The CL sync status that a fetched `/eth/v1/node/syncing` body gives.
pub open spec fn cl_status_of(fetched: Result<Vec<u8>, HealthError>) -> Result<ClStatus, Seq<char>> {
    match cl_document(fetched) {
        Ok(doc) => syncing_of(doc),
        Err(e) => Err(e),
    }
}

pub fn cl_syncing_status(fetched: &Result<Vec<u8>, HealthError>) -> (r: Result<ClStatus, String>)
    ensures
        match r {
            Ok(s) => cl_status_of(*fetched) == Ok::<ClStatus, Seq<char>>(s),
            Err(e) => cl_status_of(*fetched) == Err::<ClStatus, Seq<char>>(e@),
        },
{
    match cl_get_json(fetched) {
        Ok(doc) => read_syncing(&doc),
        Err(e) => Err(e),
    }
}

/// The CL peer count that a fetched `/eth/v1/node/peer_count` body gives.
pub open spec fn cl_peers_of(fetched: Result<Vec<u8>, HealthError>) -> Result<u64, Seq<char>> {
    match cl_document(fetched) {
        Ok(doc) => peer_count_of(doc),
        Err(e) => Err(e),
    }
}

pub fn cl_peer_count(fetched: &Result<Vec<u8>, HealthError>) -> (r: Result<u64, String>)
    ensures
        match r {
            Ok(n) => cl_peers_of(*fetched) == Ok::<u64, Seq<char>>(n),
            Err(e) => cl_peers_of(*fetched) == Err::<u64, Seq<char>>(e@),
        },
{
    match cl_get_json(fetched) {
        Ok(doc) => read_peer_count(&doc),
        Err(e) => Err(e),
    }
}

// ---- the poll as a whole ----

/// A probe signal from a batch answer: a failure is kept as its text.
pub fn signal<T>(answer: Result<T, HealthError>) -> (r: Result<T, String>)
    ensures
        match answer {
            Ok(v) => r == Ok::<T, String>(v),
            Err(e) => r is Err && r->Err_0@ == e.shown(),
        },
{
    match answer {
        Ok(v) => Ok(v),
        Err(e) => Err(e.text()),
    }
}

/// Puts the signals of one poll together.
pub fn assemble(
    batch: ElBatchResult,
    cl_status: Result<ClStatus, String>,
    cl_peers: Result<u64, String>,
) -> (p: Probe)
    ensures
        match batch.syncing {
            Ok(v) => p.el_syncing == Ok::<ElSyncingResult, String>(v),
            Err(e) => p.el_syncing is Err && p.el_syncing->Err_0@ == e.shown(),
        },
        match batch.peers {
            Ok(v) => p.el_peers == Ok::<String, String>(v),
            Err(e) => p.el_peers is Err && p.el_peers->Err_0@ == e.shown(),
        },
        match batch.block {
            Ok(v) => p.el_block == Ok::<ElBlockResult, String>(v),
            Err(e) => p.el_block is Err && p.el_block->Err_0@ == e.shown(),
        },
        p.cl_status == cl_status,
        p.cl_peers == cl_peers,
{
    Probe {
        el_syncing: signal(batch.syncing),
        el_peers: signal(batch.peers),
        el_block: signal(batch.block),
        cl_status,
        cl_peers,
    }
}

// ---- laws ----

/// The verdict after a poll is the one that the reach of the two transports calls for,
/// whichever of them is preferred, and whether or not the other one is tried.
pub proof fn law_poll_gives_the_verdict(
    prefer_h2: bool,
    primary: Result<ElBatchResult, HealthError>,
    alt: Result<ElBatchResult, HealthError>,
)
    ensures
        verdict_of(prefer_h2, primary, alt) == (if prefer_h2 {
            verdict_after(prefer_h2, reached(primary), reached(alt))
        } else {
            verdict_after(prefer_h2, reached(alt), reached(primary))
        }),
{
}

/// After a poll the verdict names a transport that reaches the upstream, if there is one.
pub proof fn law_verdict_reaches_upstream(use_h2: bool, h2_reached: bool, h1_reached: bool)
    requires
        h2_reached || h1_reached,
    ensures
        verdict_after(use_h2, h2_reached, h1_reached) ==> h2_reached,
        !verdict_after(use_h2, h2_reached, h1_reached) ==> h1_reached,
{
}

/// A transport that works stays in use, whatever the other one would do.
pub proof fn law_working_transport_is_kept(use_h2: bool, h2_reached: bool, h1_reached: bool)
    requires
        if use_h2 {
            h2_reached
        } else {
            h1_reached
        },
    ensures
        verdict_after(use_h2, h2_reached, h1_reached) == use_h2,
{
}

/// An upstream that is down keeps the verdict it had.
pub proof fn law_down_upstream_keeps_verdict(use_h2: bool)
    ensures
        verdict_after(use_h2, false, false) == use_h2,
{
}

/// The verdicts of a run of polls: `reach[i]` tells whether the upstream could be
/// reached at poll `i` over HTTP/2 and over HTTP/1.1.
pub open spec fn verdict_over(start: bool, reach: Seq<(bool, bool)>) -> bool
    decreases reach.len(),
{
    if reach.len() == 0 {
        start
    } else {
        verdict_after(verdict_over(start, reach.drop_last()), reach.last().0, reach.last().1)
    }
}

/// The first poll decides for HTTP/2 exactly where an upstream that is up serves it.
pub proof fn law_first_poll_prefers_http2(h2_reached: bool, h1_reached: bool)
    requires
        h2_reached || h1_reached,
    ensures
        verdict_over(INITIAL_USE_H2, seq![(h2_reached, h1_reached)]) == h2_reached,
{
    let reach = seq![(h2_reached, h1_reached)];
    assert(reach.drop_last() =~= Seq::<(bool, bool)>::empty());
    assert(verdict_over(INITIAL_USE_H2, reach.drop_last()) == INITIAL_USE_H2);
}

/// One poll is enough to settle on the only transport that an upstream serves.
pub proof fn law_settles_within_one_poll(start: bool, reach: Seq<(bool, bool)>)
    requires
        reach.len() > 0,
        reach.last().0 != reach.last().1,
    ensures
        verdict_over(start, reach) == reach.last().0,
{
}

/// An upstream that always serves HTTP/1.1 is never taken back to HTTP/2, once it
/// is on HTTP/1.1; a restart prefers HTTP/2 again.
pub proof fn law_http1_is_not_probed_again(reach: Seq<(bool, bool)>)
    requires
        forall|i: int| 0 <= i < reach.len() ==> (#[trigger] reach[i]).1,
    ensures
        !verdict_over(false, reach),
    decreases reach.len(),
{
    if reach.len() > 0 {
        let before = reach.drop_last();
        assert forall|i: int| 0 <= i < before.len() implies (#[trigger] before[i]).1 by {
            assert(reach[i].1);
        }
        law_http1_is_not_probed_again(before);
        assert(reach[reach.len() - 1].1);
    }
}

proof fn lemma_first_with_id_found(arr: Seq<RpcResponse>, id: i64)
    ensures
        match first_with_id(arr, id) {
            Some(i) => 0 <= i < arr.len() && arr[i].id == id,
            None => forall|j: int| 0 <= j < arr.len() ==> (#[trigger] arr[j]).id != id,
        },
    decreases arr.len(),
{
    if arr.len() > 0 {
        lemma_first_with_id_found(arr.drop_last(), id);
        assert forall|j: int|
            0 <= j < arr.len() && first_with_id(arr, id) is None implies (#[trigger] arr[j]).id
            != id by {
            if j < arr.len() - 1 {
                assert(arr.drop_last()[j] == arr[j]);
            }
        }
    }
}

/// The order in which an upstream answers a batch does not matter, as long as each
/// request is answered once.
pub proof fn law_batch_order_is_free(
    arr: Seq<RpcResponse>,
    other: Seq<RpcResponse>,
    id: i64,
    r: Result<String, HealthError>,
)
    requires
        forall|x: RpcResponse| arr.contains(x) == other.contains(x),
        forall|i: int, j: int|
            0 <= i < j < arr.len() ==> (#[trigger] arr[i]).id != (#[trigger] arr[j]).id,
    ensures
        answers(arr, id, r) == answers(other, id, r),
{
    lemma_first_with_id_found(arr, id);
    lemma_first_with_id_found(other, id);
    match first_with_id(other, id) {
        Some(j) => {
            assert(other.contains(other[j]));
            let i = choose|i: int| 0 <= i < arr.len() && arr[i] == other[j];
            assert(arr[i].id == id);
            let k = first_with_id(arr, id)->0;
            assert(arr[k].id == id);
            assert(k == i);
        },
        None => {
            if first_with_id(arr, id) is Some {
                let i = first_with_id(arr, id)->0;
                assert(arr.contains(arr[i]));
                let j = choose|j: int| 0 <= j < other.len() && other[j] == arr[i];
                assert(other[j].id == id);
            }
        },
    }
}

} // verus!
