//! Where a request goes, and how it is handed to an upstream.

use http::HeaderMap;
use vstd::prelude::*;

use crate::headers::{is_upgrade_request, strip_hop_by_hop};
use crate::health;
use crate::health::{HealthSnapshot, Probe, ReadyReport};
use crate::reply::{text_response, JsonReply, TextReply};
use crate::state::AppState;
use crate::text;
use crate::uri::{parse_uri, Uri};

verus! {

/// The head of a request, as far as routing looks into it.
#[derive(Debug)]
pub struct RequestHead {
    pub method: String,
    pub path: String,
    pub path_and_query: Option<String>,
    /// The `:protocol` of an HTTP/2 Extended CONNECT.
    pub protocol: Option<String>,
    pub headers: HeaderMap,
}

/// Where a request is answered.
#[derive(Debug, Clone, Copy, PartialEq, Eq, Structural)]
pub enum Route {
    Healthz,
    Readyz,
    Livez,
    Metrics,
    NodeHealth,
    /// Forward to the Beacon API.
    Cl,
    /// WebSocket over HTTP/2 Extended CONNECT, bridged to the EL.
    WsH2,
    /// WebSocket over an HTTP/1.1 upgrade, bridged to the EL.
    WsH1,
    /// Forward to the EL JSON-RPC upstream, over HTTP/2 where that is the verdict.
    El { use_h2: bool },
}

/// The text in front of the first slash.
pub open spec fn segment(s: Seq<char>) -> Seq<char>
    decreases s.len(),
{
    if s.len() == 0 || s[0] == '/' {
        Seq::empty()
    } else {
        seq![s[0]] + segment(s.skip(1))
    }
}

/// The first path segments that belong to a consensus client.
pub open spec fn cl_segments() -> Set<Seq<char>> {
    set!["eth"@, "teku"@, "prysm"@, "nimbus"@, "lodestar"@, "lighthouse"@]
}

/// Whether a path belongs to the Beacon API or to a consensus client's own API.
pub open spec fn cl_path(path: Seq<char>) -> bool {
    &&& path.len() > 0
    &&& path[0] == '/'
    &&& cl_segments().contains(segment(path.skip(1)))
}

proof fn lemma_segment(s: Seq<char>, k: int)
    requires
        0 <= k <= s.len(),
        k == s.len() || s[k] == '/',
        forall|j: int| 0 <= j < k ==> s[j] != '/',
    ensures
        segment(s) == s.take(k),
    decreases s.len(),
{
    if k == 0 {
        assert(s.take(0) =~= Seq::empty());
    } else {
        lemma_segment(s.skip(1), k - 1);
        assert(seq![s[0]] + s.skip(1).take(k - 1) =~= s.take(k));
    }
}

pub fn is_cl_path(path: &str) -> (r: bool)
    ensures
        r == cl_path(path@),
{
    let chars = text::chars_of(path);
    if chars.len() == 0 || chars[0] != '/' {
        return false;
    }
    let mut end: usize = 1;
    while end < chars.len() && chars[end] != '/'
        invariant
            1 <= end <= chars@.len(),
            chars@ == path@,
            forall|j: int| 1 <= j < end ==> chars@[j] != '/',
        decreases chars@.len() - end,
    {
        end += 1;
    }
    let first = path.substring_char(1, end);
    proof {
        lemma_segment(path@.skip(1), end - 1);
        assert(path@.skip(1).take(end - 1) =~= first@);
    }
    text::str_eq(first, "eth") || text::str_eq(first, "teku") || text::str_eq(first, "prysm")
        || text::str_eq(first, "nimbus") || text::str_eq(first, "lodestar") || text::str_eq(
        first,
        "lighthouse",
    )
}

/// The request opens a WebSocket by HTTP/2 Extended CONNECT.
pub open spec fn extended_connect(req: RequestHead) -> bool {
    &&& req.method@ == "CONNECT"@
    &&& req.protocol is Some
    &&& req.protocol->0@ == "websocket"@
}

/// The request opens a WebSocket by an HTTP/1.1 upgrade.
pub open spec fn upgrade_request(req: RequestHead) -> bool {
    crate::headers::asks_for_websocket(crate::headers::header_entries(req.headers))
}

fn is_extended_connect(req: &RequestHead) -> (r: bool)
    ensures
        r == extended_connect(*req),
{
    text::str_eq(req.method.as_str(), "CONNECT") && match &req.protocol {
        Some(p) => text::str_eq(p.as_str(), "websocket"),
        None => false,
    }
}

/// What a `GET` or a `HEAD` of one of the sidecar's own paths is answered by.
pub open spec fn own_route(path: Seq<char>) -> Option<Route> {
    if path == "/healthz"@ {
        Some(Route::Healthz)
    } else if path == "/readyz"@ {
        Some(Route::Readyz)
    } else if path == "/livez"@ {
        Some(Route::Livez)
    } else if path == "/metrics"@ {
        Some(Route::Metrics)
    } else if path == "/eth/v1/node/health"@ {
        Some(Route::NodeHealth)
    } else {
        None
    }
}

/// Where a request is answered, given the current verdict on the EL transport.
pub open spec fn route_of(req: RequestHead, el_use_h2: bool) -> Route {
    let reads = req.method@ == "GET"@ || req.method@ == "HEAD"@;
    if reads && own_route(req.path@) is Some {
        own_route(req.path@)->0
    } else if cl_path(req.path@) {
        Route::Cl
    } else if extended_connect(req) {
        Route::WsH2
    } else if upgrade_request(req) {
        Route::WsH1
    } else {
        Route::El { use_h2: el_use_h2 }
    }
}

fn find_own_route(path: &str) -> (r: Option<Route>)
    ensures
        r == own_route(path@),
{
    if text::str_eq(path, "/healthz") {
        Some(Route::Healthz)
    } else if text::str_eq(path, "/readyz") {
        Some(Route::Readyz)
    } else if text::str_eq(path, "/livez") {
        Some(Route::Livez)
    } else if text::str_eq(path, "/metrics") {
        Some(Route::Metrics)
    } else if text::str_eq(path, "/eth/v1/node/health") {
        Some(Route::NodeHealth)
    } else {
        None
    }
}

pub fn route(req: &RequestHead, el_use_h2: bool) -> (r: Route)
    ensures
        r == route_of(*req, el_use_h2),
{
    if text::str_eq(req.method.as_str(), "GET") || text::str_eq(req.method.as_str(), "HEAD") {
        if let Some(own) = find_own_route(req.path.as_str()) {
            return own;
        }
    }
    if is_cl_path(req.path.as_str()) {
        return Route::Cl;
    }
    if is_extended_connect(req) {
        return Route::WsH2;
    }
    if is_upgrade_request(&req.headers) {
        return Route::WsH1;
    }
    Route::El { use_h2: el_use_h2 }
}

/// The layer and the protocol that a request counts under.
pub open spec fn class_of(req: RequestHead) -> (Seq<char>, Seq<char>) {
    (
        if cl_path(req.path@) {
            "CL"@
        } else {
            "EL"@
        },
        if extended_connect(req) || upgrade_request(req) {
            "WS"@
        } else {
            "HTTP"@
        },
    )
}

pub fn classify_request(req: &RequestHead) -> (r: (&'static str, &'static str))
    ensures
        (r.0@, r.1@) == class_of(*req),
{
    let upstream_type = if is_cl_path(req.path.as_str()) {
        "CL"
    } else {
        "EL"
    };
    let upstream_proto = if is_extended_connect(req) || is_upgrade_request(&req.headers) {
        "WS"
    } else {
        "HTTP"
    };
    (upstream_type, upstream_proto)
}

// ---- forwarding ----

/// The text of an optional string.
pub open spec fn opt_str(s: Option<&str>) -> Option<Seq<char>> {
    match s {
        Some(t) => Some(t@),
        None => None,
    }
}

/// The URI of a request at an upstream: its base, then path and query of the request.
pub open spec fn target(base: Seq<char>, path_and_query: Option<Seq<char>>) -> Seq<char> {
    text::without_trailing_slashes(base) + (match path_and_query {
        Some(pq) => pq,
        None => "/"@,
    })
}

pub fn upstream_target(base: &str, path_and_query: Option<&str>) -> (r: String)
    ensures
        r@ == target(base@, opt_str(path_and_query)),
{
    let mut uri = text::trim_slashes(base).to_owned();
    uri.append(
        match path_and_query {
            Some(pq) => pq,
            None => "/",
        },
    );
    uri
}

/// Turns the head of a request into that of the request to an upstream: the URI
/// it goes to, and the headers without those of this hop.
pub fn http_proxy(path_and_query: Option<&str>, upstream_base: &str, headers: &mut HeaderMap) -> (r:
    Result<Uri, String>)
    ensures
        ({
            let uri = target(upstream_base@, opt_str(path_and_query));
            match r {
                Ok(u) => u.text@ == uri && crate::uri::uri_parse(uri) == Ok::<_, Seq<char>>(
                    u.parts(),
                ) && crate::headers::header_entries(*final(headers))
                    == crate::headers::header_entries(*old(headers)).remove_keys(
                    crate::headers::hop_by_hop(),
                ),
                Err(e) => crate::uri::uri_parse(uri) == Err::<crate::uri::UriParts, Seq<char>>(e@)
                    && *final(headers) == *old(headers),
            }
        }),
{
    let uri = match parse_uri(upstream_target(upstream_base, path_and_query).as_str()) {
        Ok(uri) => uri,
        Err(e) => return Err(e),
    };
    strip_hop_by_hop(headers);
    Ok(uri)
}

/// Why there is no response to pass on.
#[derive(Debug)]
pub enum ForwardError {
    Failed(String),
    TimedOut,
}

/// The reply that stands in for an upstream's response, where there is none.
pub fn failure_reply(error: &ForwardError) -> (r: TextReply)
    ensures
        r.status == 502,
        r.content_type@ == "text/plain; charset=utf-8"@,
        r.body@ == (match error {
            ForwardError::Failed(e) => e@,
            ForwardError::TimedOut => "upstream timeout"@,
        }),
{
    match error {
        ForwardError::Failed(e) => text_response(502, e.as_str()),
        ForwardError::TimedOut => text_response(502, "upstream timeout"),
    }
}

// ---- the sidecar's own endpoints ----

/// `/livez`: the process is up, and nothing else is asked.
pub fn livez() -> (r: TextReply)
    ensures
        r.status == 200,
        r.content_type@ == "text/plain; charset=utf-8"@,
        r.body@ == "ok"@,
{
    text_response(200, "ok")
}

/// A reply that the sidecar makes from what it knows.
#[derive(Debug)]
pub enum LocalReply {
    Snapshot(JsonReply<HealthSnapshot>),
    Ready(JsonReply<ReadyReport>),
    Text(TextReply),
}

impl LocalReply {
    /// The HTTP status of the reply.
    pub open spec fn status(self) -> u16 {
        match self {
            LocalReply::Snapshot(r) => r.status,
            LocalReply::Ready(r) => r.status,
            LocalReply::Text(r) => r.status,
        }
    }
}

/// Whether `r` is what a route is answered with at the time `now`, given the latest poll.
pub open spec fn answered(
    r: Option<LocalReply>,
    route: Route,
    state: AppState,
    probe: Probe,
    el_use_h2: bool,
    now: u64,
) -> bool {
    match route {
        Route::Healthz => r matches Some(LocalReply::Snapshot(j)) && j.status == 200
            && j.content_type@ == "application/json"@ && j.body.el@ == health::el_report(
            state,
            probe,
            el_use_h2,
            now,
        ) && j.body.cl@ == health::cl_report(state, probe, now),
        Route::Readyz => r matches Some(LocalReply::Ready(j)) && j.status == health::ready_status(
            health::is_ready(state, probe, now),
        ) && j.content_type@ == "application/json"@ && j.body@ == health::ready_view(
            state,
            probe,
            now,
        ),
        Route::Livez => r matches Some(LocalReply::Text(t)) && t.status == 200 && t.content_type@
            == "text/plain; charset=utf-8"@ && t.body@ == "ok"@,
        Route::NodeHealth => r matches Some(LocalReply::Text(t)) && t.status
            == health::ready_status(health::is_ready(state, probe, now)) && t.content_type@
            == "text/plain; charset=utf-8"@ && t.body@ == Seq::<char>::empty(),
        Route::Metrics | Route::Cl | Route::WsH2 | Route::WsH1 | Route::El { .. } => r is None,
    }
}

/// Whether a route may be answered as of the time `now`: ages, and readiness that looks
/// at them, are those of a reading of the clock.
pub open spec fn timely(route: Route, state: AppState, now: u64) -> bool {
    match route {
        Route::Healthz => crate::time::is_reading(now),
        Route::Readyz | Route::NodeHealth => state.cfg.readyz_strict ==> crate::time::is_reading(
            now,
        ),
        _ => true,
    }
}

/// Answers a route from the latest poll; `None` for one that takes more than that.
pub fn dispatch(route: Route, state: &AppState, probe: &Probe, el_use_h2: bool) -> (r: Option<
    LocalReply,
>)
    ensures
        exists|now: u64|
            #[trigger] answered(r, route, *state, *probe, el_use_h2, now) && timely(
                route,
                *state,
                now,
            ),
{
    match route {
        Route::Healthz => {
            let reply = health::report(state, probe, el_use_h2);
            let ghost now = choose|now: u64|
                reply.body.el@ == #[trigger] health::el_report(*state, *probe, el_use_h2, now)
                    && reply.body.cl@ == health::cl_report(*state, *probe, now)
                    && crate::time::is_reading(now);
            let r = Some(LocalReply::Snapshot(reply));
            assert(answered(r, route, *state, *probe, el_use_h2, now));
            r
        },
        Route::Readyz => {
            let reply = health::ready(state, probe);
            let ghost now = choose|now: u64|
                reply.body@ == #[trigger] health::ready_view(*state, *probe, now) && reply.status
                    == health::ready_status(health::is_ready(*state, *probe, now)) && (
                state.cfg.readyz_strict ==> crate::time::is_reading(now));
            let r = Some(LocalReply::Ready(reply));
            assert(answered(r, route, *state, *probe, el_use_h2, now));
            r
        },
        Route::Livez => {
            let r = Some(LocalReply::Text(livez()));
            assert(answered(r, route, *state, *probe, el_use_h2, 0));
            r
        },
        Route::NodeHealth => {
            let reply = health::node_health(state, probe);
            let ghost now = choose|now: u64|
                reply.status == health::ready_status(
                    #[trigger] health::is_ready(*state, *probe, now),
                ) && (state.cfg.readyz_strict ==> crate::time::is_reading(now));
            let r = Some(LocalReply::Text(reply));
            assert(answered(r, route, *state, *probe, el_use_h2, now));
            r
        },
        Route::Metrics | Route::Cl | Route::WsH2 | Route::WsH1 | Route::El { .. } => {
            let r: Option<LocalReply> = None;
            assert(answered(r, route, *state, *probe, el_use_h2, 0));
            r
        },
    }
}

// ---- laws ----

proof fn lemma_not_cl(path: Seq<char>)
    requires
        path == "/healthz"@ || path == "/readyz"@ || path == "/livez"@ || path == "/metrics"@,
    ensures
        !cl_path(path),
{
    reveal_strlit("/healthz");
    reveal_strlit("/readyz");
    reveal_strlit("/livez");
    reveal_strlit("/metrics");
    reveal_strlit("eth");
    reveal_strlit("teku");
    reveal_strlit("prysm");
    reveal_strlit("nimbus");
    reveal_strlit("lodestar");
    reveal_strlit("lighthouse");
    let rest = path.skip(1);
    lemma_segment(rest, rest.len() as int);
    assert(rest.take(rest.len() as int) =~= rest);
    assert(rest.len() != 3 && rest.len() != 4 && rest.len() != 10 && rest.len() != 8);
    if rest.len() == 5 {
        assert(rest[0] == 'l');
        assert("prysm"@[0] == 'p');
    }
    if rest.len() == 6 {
        assert(rest[0] == 'r');
        assert("nimbus"@[0] == 'n');
    }
}

/// A request that a consensus client owns goes to the Beacon API, or is answered
/// as the node's health. The EL never sees it, not even as a WebSocket.
pub proof fn law_cl_paths_stay_off_the_el(req: RequestHead, el_use_h2: bool)
    requires
        cl_path(req.path@),
    ensures
        route_of(req, el_use_h2) is Cl || route_of(req, el_use_h2) is NodeHealth,
        !(req.method@ == "GET"@ || req.method@ == "HEAD"@) ==> route_of(req, el_use_h2) is Cl,
{
    let p = req.path@;
    if p == "/healthz"@ || p == "/readyz"@ || p == "/livez"@ || p == "/metrics"@ {
        lemma_not_cl(p);
    }
}

/// The sidecar's own endpoints answer `GET` and `HEAD` alike, whatever the headers
/// and whatever state the upstreams are in.
pub proof fn law_own_endpoints_are_local(
    req: RequestHead,
    other: RequestHead,
    el_use_h2: bool,
    other_use_h2: bool,
)
    requires
        own_route(req.path@) is Some,
        other.path@ == req.path@,
        req.method@ == "GET"@ || req.method@ == "HEAD"@,
        other.method@ == "GET"@ || other.method@ == "HEAD"@,
    ensures
        route_of(req, el_use_h2) == own_route(req.path@)->0,
        route_of(req, el_use_h2) == route_of(other, other_use_h2),
{
}

/// The EL hop follows the transport verdict, and nothing else does.
pub proof fn law_el_hop_follows_the_verdict(req: RequestHead, el_use_h2: bool)
    ensures
        route_of(req, el_use_h2) matches Route::El { use_h2 } ==> use_h2 == el_use_h2,
        !(route_of(req, el_use_h2) is El) ==> route_of(req, el_use_h2) == route_of(
            req,
            !el_use_h2,
        ),
        route_of(req, el_use_h2) is El == route_of(req, !el_use_h2) is El,
{
}

/// What a request counts as agrees with where it goes: to the layer it is counted
/// under, and as a WebSocket only if it is counted as one.
pub proof fn law_class_agrees_with_route(req: RequestHead, el_use_h2: bool)
    ensures
        route_of(req, el_use_h2) is Cl ==> class_of(req).0 == "CL"@,
        route_of(req, el_use_h2) is El ==> class_of(req) == ("EL"@, "HTTP"@),
        route_of(req, el_use_h2) is WsH1 || route_of(req, el_use_h2) is WsH2 ==> class_of(req) == (
            "EL"@,
            "WS"@,
        ),
{
}

/// The upstream sees path and query as the client sent them, and slashes at the end
/// of the configured base make no difference.
pub proof fn law_target_keeps_path_and_query(base: Seq<char>, path_and_query: Seq<char>)
    ensures
        path_and_query.is_suffix_of(target(base, Some(path_and_query))),
        target(base + "/"@, Some(path_and_query)) == target(base, Some(path_and_query)),
{
    text::law_trailing_slash_is_ignored(base);
    let t = target(base, Some(path_and_query));
    assert(t.subrange(t.len() - path_and_query.len(), t.len() as int) =~= path_and_query);
}

/// `/livez` and `/healthz` answer 200 in every state. `/readyz` and the node's
/// health answer 200 exactly when the pair is ready, and 503 otherwise.
pub proof fn law_liveness_is_not_readiness(
    r: Option<LocalReply>,
    route: Route,
    state: AppState,
    probe: Probe,
    el_use_h2: bool,
    now: u64,
)
    requires
        answered(r, route, state, probe, el_use_h2, now),
    ensures
        route is Livez || route is Healthz ==> r is Some && r->0.status() == 200,
        route is Readyz || route is NodeHealth ==> r is Some && r->0.status() == (
        if health::is_ready(state, probe, now) {
            200
        } else {
            503int
        }),
{
}

} // verus!
