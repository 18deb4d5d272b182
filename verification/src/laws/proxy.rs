//! Laws of routing and forwarding.

use http::HeaderMap;
use vstd::prelude::*;

use crate::headers;
use crate::health;
use crate::health::{HealthSnapshot, Probe};
use crate::laws::headers::of_one_hop;
use crate::laws::health::{both_fresh, both_synced};
use crate::proxy;
use crate::proxy::{ForwardError, LocalReply, RequestHead, Route};
use crate::reply::{JsonReply, TextReply};
use crate::state::AppState;
use crate::uri::Uri;

verus! {

/// The name of an API that a consensus client serves.
pub open spec fn cl_api(name: Seq<char>) -> bool {
    ||| name == "eth"@
    ||| name == "teku"@
    ||| name == "prysm"@
    ||| name == "nimbus"@
    ||| name == "lodestar"@
    ||| name == "lighthouse"@
}

/// The path is that of an API, or lies below it.
pub open spec fn at_or_below(path: Seq<char>, name: Seq<char>) -> bool {
    &&& path.len() >= name.len() + 1
    &&& path[0] == '/'
    &&& path.subrange(1, name.len() as int + 1) == name
    &&& path.len() > name.len() + 1 ==> path[name.len() as int + 1] == '/'
}

proof fn lemma_segment_is(s: Seq<char>, k: int)
    requires
        0 <= k <= s.len(),
        k == s.len() || s[k] == '/',
        forall|j: int| 0 <= j < k ==> (#[trigger] s[j]) != '/',
    ensures
        proxy::segment(s) == s.take(k),
    decreases s.len(),
{
    if k == 0 {
        assert(s.take(0) =~= Seq::empty());
    } else {
        let rest = s.skip(1);
        assert forall|j: int| 0 <= j < k - 1 implies (#[trigger] rest[j]) != '/' by {
            assert(s[j + 1] != '/');
        }
        lemma_segment_is(rest, k - 1);
        assert(seq![s[0]] + rest.take(k - 1) =~= s.take(k));
    }
}

proof fn lemma_segment_bounds(s: Seq<char>)
    ensures
        proxy::segment(s).len() <= s.len(),
        proxy::segment(s) == s.take(proxy::segment(s).len() as int),
        proxy::segment(s).len() < s.len() ==> s[proxy::segment(s).len() as int] == '/',
    decreases s.len(),
{
    if s.len() > 0 && s[0] != '/' {
        let rest = s.skip(1);
        lemma_segment_bounds(rest);
        let n = proxy::segment(rest).len() as int;
        assert(proxy::segment(s) =~= s.take(n + 1));
        if n < rest.len() {
            assert(rest[n] == '/');
        }
    } else {
        assert(proxy::segment(s) =~= s.take(0));
    }
}

proof fn lemma_api_names()
    ensures
        forall|name: Seq<char>, j: int|
            #[trigger] cl_api(name) && 0 <= j < name.len() ==> (#[trigger] name[j]) != '/',
{
    reveal_strlit("eth");
    reveal_strlit("teku");
    reveal_strlit("prysm");
    reveal_strlit("nimbus");
    reveal_strlit("lodestar");
    reveal_strlit("lighthouse");
}

proof fn lemma_cl_path(path: Seq<char>, name: Seq<char>)
    ensures
        cl_api(name) && at_or_below(path, name) ==> proxy::cl_path(path),
        proxy::cl_path(path) ==> {
            let first = proxy::segment(path.skip(1));
            cl_api(first) && at_or_below(path, first)
        },
{
    lemma_api_names();
    if cl_api(name) && at_or_below(path, name) {
        let rest = path.skip(1);
        let k = name.len() as int;
        assert(rest.take(k) =~= name);
        assert forall|j: int| 0 <= j < k implies (#[trigger] rest[j]) != '/' by {
            assert(rest[j] == name[j]);
        }
        lemma_segment_is(rest, k);
    }
    if proxy::cl_path(path) {
        let rest = path.skip(1);
        lemma_segment_bounds(rest);
        let first = proxy::segment(rest);
        assert(path.subrange(1, first.len() as int + 1) =~= first);
    }
}

/// A path belongs to a consensus client exactly where it is that of one of its APIs, or
/// lies below one; a longer name with the same start does not count.
pub proof fn law_cl_paths(path: &str, name: Seq<char>, r: bool)
    requires
        call_ensures(proxy::is_cl_path, (path,), r),
    ensures
        cl_api(name) && at_or_below(path@, name) ==> r,
        r ==> exists|api: Seq<char>| cl_api(api) && #[trigger] at_or_below(path@, api),
{
    lemma_cl_path(path@, name);
    if r {
        let first = proxy::segment(path@.skip(1));
        assert(cl_api(first) && at_or_below(path@, first));
    }
}

/// The endpoint that a path of the sidecar's own belongs to.
pub open spec fn endpoint(path: Seq<char>, route: Route) -> bool {
    ||| path == "/healthz"@ && route is Healthz
    ||| path == "/readyz"@ && route is Readyz
    ||| path == "/livez"@ && route is Livez
    ||| path == "/metrics"@ && route is Metrics
    ||| path == "/eth/v1/node/health"@ && route is NodeHealth
}

/// The request reads one of the sidecar's own endpoints.
pub open spec fn reads_own(req: RequestHead) -> bool {
    &&& req.method@ == "GET"@ || req.method@ == "HEAD"@
    &&& req.path@ == "/healthz"@ || req.path@ == "/readyz"@ || req.path@ == "/livez"@ || req.path@
        == "/metrics"@ || req.path@ == "/eth/v1/node/health"@
}

/// The path of the request belongs to a consensus client.
pub open spec fn of_the_cl(req: RequestHead) -> bool {
    exists|api: Seq<char>| cl_api(api) && #[trigger] at_or_below(req.path@, api)
}

/// The request is an Extended CONNECT for a WebSocket.
pub open spec fn connects(req: RequestHead) -> bool {
    req.method@ == "CONNECT"@ && (req.protocol matches Some(p) && p@ == "websocket"@)
}

/// The headers of the request ask for a WebSocket.
pub open spec fn upgrades(req: RequestHead) -> bool {
    headers::asks_for_websocket(headers::header_entries(req.headers))
}

proof fn lemma_of_the_cl(req: RequestHead)
    ensures
        proxy::cl_path(req.path@) == of_the_cl(req),
{
    lemma_cl_path(req.path@, Seq::empty());
    if proxy::cl_path(req.path@) {
        let first = proxy::segment(req.path@.skip(1));
        assert(cl_api(first) && at_or_below(req.path@, first));
    }
    if of_the_cl(req) {
        let api = choose|api: Seq<char>| cl_api(api) && #[trigger] at_or_below(req.path@, api);
        lemma_cl_path(req.path@, api);
    }
}

proof fn lemma_own_paths_differ()
    ensures
        "/healthz"@ != "/readyz"@,
        "/healthz"@ != "/livez"@,
        "/healthz"@ != "/metrics"@,
        "/healthz"@ != "/eth/v1/node/health"@,
        "/readyz"@ != "/livez"@,
        "/readyz"@ != "/metrics"@,
        "/readyz"@ != "/eth/v1/node/health"@,
        "/livez"@ != "/metrics"@,
        "/livez"@ != "/eth/v1/node/health"@,
        "/metrics"@ != "/eth/v1/node/health"@,
{
    reveal_strlit("/healthz");
    reveal_strlit("/readyz");
    reveal_strlit("/livez");
    reveal_strlit("/metrics");
    reveal_strlit("/eth/v1/node/health");
    assert("/healthz"@[1] == 'h' && "/readyz"@[1] == 'r' && "/livez"@[1] == 'l');
    assert("/metrics"@[1] == 'm' && "/eth/v1/node/health"@[1] == 'e');
}

/// A request that reads one of the sidecar's own endpoints is answered by that endpoint,
/// whatever its headers are, and no other request is.
pub proof fn law_own_endpoints(req: RequestHead, use_h2: bool, r: Route)
    requires
        call_ensures(proxy::route, (&req, use_h2), r),
    ensures
        reads_own(req) ==> endpoint(req.path@, r),
        r is Healthz || r is Readyz || r is Livez || r is Metrics || r is NodeHealth ==> reads_own(
            req,
        ) && endpoint(req.path@, r),
{
    lemma_own_paths_differ();
}

/// Every other request on a path of a consensus client goes to the Beacon API, whatever
/// its method and its headers are, and no other request does.
pub proof fn law_cl_requests(req: RequestHead, use_h2: bool, r: Route)
    requires
        call_ensures(proxy::route, (&req, use_h2), r),
    ensures
        r is Cl <==> !reads_own(req) && of_the_cl(req),
{
    lemma_of_the_cl(req);
    lemma_own_paths_differ();
}

/// What remains opens a WebSocket where it asks for one, at every path: by Extended
/// CONNECT, or by the upgrade that its headers ask for.
pub proof fn law_websocket_requests(req: RequestHead, use_h2: bool, r: Route)
    requires
        call_ensures(proxy::route, (&req, use_h2), r),
    ensures
        r is WsH2 <==> !reads_own(req) && !of_the_cl(req) && connects(req),
        r is WsH1 <==> !reads_own(req) && !of_the_cl(req) && !connects(req) && upgrades(req),
{
    lemma_of_the_cl(req);
    lemma_own_paths_differ();
}

/// Everything else goes to the EL, over the transport of the verdict.
pub proof fn law_everything_else_goes_to_the_el(req: RequestHead, use_h2: bool, r: Route)
    requires
        call_ensures(proxy::route, (&req, use_h2), r),
    ensures
        r is El <==> !reads_own(req) && !of_the_cl(req) && !connects(req) && !upgrades(req),
        r matches Route::El { use_h2: over } ==> over == use_h2,
{
    lemma_of_the_cl(req);
    lemma_own_paths_differ();
}

/// A request is counted under the layer whose path it has, and as a WebSocket exactly
/// where it asks for one, at every path.
pub proof fn law_classes(req: RequestHead, r: (&'static str, &'static str))
    requires
        call_ensures(proxy::classify_request, (&req,), r),
    ensures
        of_the_cl(req) ==> r.0@ == "CL"@,
        !of_the_cl(req) ==> r.0@ == "EL"@,
        connects(req) || upgrades(req) ==> r.1@ == "WS"@,
        !connects(req) && !upgrades(req) ==> r.1@ == "HTTP"@,
{
    lemma_of_the_cl(req);
}

/// Path and query are put behind the base of the upstream without its slashes at the
/// end; a request without either asks for the root.
pub proof fn law_targets(
    base: &str,
    trimmed: &str,
    pq: &str,
    r: String,
    root: String,
)
    requires
        call_ensures(crate::text::trim_slashes, (base,), trimmed),
        call_ensures(proxy::upstream_target, (base, Some(pq)), r),
        call_ensures(proxy::upstream_target, (base, None), root),
    ensures
        r@ == trimmed@ + pq@,
        root@ == trimmed@.push('/'),
{
    reveal_strlit("/");
    assert(trimmed@ + "/"@ =~= trimmed@.push('/'));
}

/// An upstream that gave no response is answered for with a 502 that tells why.
pub proof fn law_missing_responses(error: ForwardError, r: TextReply)
    requires
        call_ensures(proxy::failure_reply, (&error,), r),
    ensures
        r.status == 502,
        r.content_type@ == "text/plain; charset=utf-8"@,
        error matches ForwardError::Failed(e) ==> r.body@ == e@,
        error is TimedOut ==> r.body@ == "upstream timeout"@,
{
}

/// A plain reply is its code and its text.
pub proof fn law_plain_replies(code: u16, msg: &str, r: TextReply)
    requires
        call_ensures(crate::reply::text_response, (code, msg), r),
    ensures
        r.status == code,
        r.body@ == msg@,
        r.content_type@ == "text/plain; charset=utf-8"@,
{
}

/// A JSON reply is its code and its value.
pub proof fn law_json_replies<T>(code: u16, body: T, r: JsonReply<T>)
    requires
        call_ensures(crate::reply::json_response::<T>, (code, body), r),
    ensures
        r.status == code,
        r.body == body,
        r.content_type@ == "application/json"@,
{
}

/// Which routes are answered from the latest poll, and with what status: liveness and
/// the snapshot always with 200, readiness and the node's health with 200 only where
/// both layers are synced, and by default exactly there.
pub proof fn law_local_replies(
    route: Route,
    state: AppState,
    probe: Probe,
    use_h2: bool,
    r: Option<LocalReply>,
)
    requires
        call_ensures(proxy::dispatch, (route, &state, &probe, use_h2), r),
    ensures
        r is None <==> route is Metrics || route is Cl || route is WsH2 || route is WsH1
            || route is El,
        route is Livez ==> (r matches Some(LocalReply::Text(t)) && t.status == 200 && t.body@
            == "ok"@),
        route is Healthz ==> (r matches Some(LocalReply::Snapshot(j)) && j.status == 200),
        route is Readyz ==> (r matches Some(LocalReply::Ready(j)) && (j.status == 200 || j.status
            == 503) && (j.status == 200 ==> both_synced(probe)) && (j.status == 200 <==> (
        j.body.status@ == "ready"@)) && (!state.cfg.readyz_strict && both_synced(probe)
            ==> j.status == 200)),
        route is NodeHealth ==> (r matches Some(LocalReply::Text(t)) && t.body@.len() == 0 && (
        t.status == 200 || t.status == 503) && (t.status == 200 ==> both_synced(probe)) && (
        !state.cfg.readyz_strict && both_synced(probe) ==> t.status == 200)),
{
    let now = choose|now: u64|
        #[trigger] proxy::answered(r, route, state, probe, use_h2, now) && proxy::timely(
            route,
            state,
            now,
        );
    health::law_report_status_matches_reply(state, probe, now);
    if let Some(LocalReply::Ready(j)) = r {
        assert(j.body@.status == j.body.status@);
    }
}

/// A forwarded request goes to its target with every header but those of one hop; one
/// whose target is no URI is refused as it is.
pub proof fn law_forwarding(
    pq: Option<&str>,
    base: &str,
    target: String,
    name: Seq<char>,
    r: Result<Uri, String>,
)
    requires
        call_ensures(proxy::upstream_target, (base, pq), target),
    ensures
        forall|h: &mut HeaderMap| #[trigger]
            call_ensures(proxy::http_proxy, (pq, base, h), r) ==> {
                let before = headers::header_entries(*h);
                let after = headers::header_entries(*final(h));
                &&& r is Ok <==> crate::uri::uri_parse(target@) is Ok
                &&& r matches Ok(uri) ==> uri.text@ == target@
                &&& r matches Err(e) ==> crate::uri::uri_parse(target@) == Err::<
                    crate::uri::UriParts,
                    Seq<char>,
                >(e@)
                &&& after.dom().contains(name) == (before.dom().contains(name) && !(r is Ok
                    && of_one_hop(name)))
                &&& after.dom().contains(name) ==> after[name] == before[name]
            },
{
}

/// `/healthz` is the report as of a reading of the clock.
pub proof fn law_healthz_is_of_now(
    state: AppState,
    probe: Probe,
    use_h2: bool,
    r: Option<LocalReply>,
) -> (now: u64)
    requires
        call_ensures(proxy::dispatch, (Route::Healthz, &state, &probe, use_h2), r),
    ensures
        crate::time::is_reading(now),
        forall|at: JsonReply<HealthSnapshot>| #[trigger]
            call_ensures(health::report_at, (&state, &probe, use_h2, now), at) ==> (
            r matches Some(LocalReply::Snapshot(j)) && j.status == at.status && j.content_type@
                == at.content_type@ && j.body.el@ == at.body.el@ && j.body.cl@ == at.body.cl@),
{
    choose|now: u64|
        #[trigger] proxy::answered(r, Route::Healthz, state, probe, use_h2, now) && proxy::timely(
            Route::Healthz,
            state,
            now,
        )
}

/// Under strict readiness `/readyz` and the node's health answer 200 exactly where the
/// pair is synced and, as of a reading of the clock, fresh.
pub proof fn law_strict_replies_are_of_now(
    route: Route,
    state: AppState,
    probe: Probe,
    use_h2: bool,
    r: Option<LocalReply>,
) -> (now: u64)
    requires
        call_ensures(proxy::dispatch, (route, &state, &probe, use_h2), r),
        route is Readyz || route is NodeHealth,
        state.cfg.readyz_strict,
    ensures
        crate::time::is_reading(now),
        r matches Some(reply) && (reply.status() == 200 <==> both_synced(probe) && both_fresh(
            state,
            probe,
            now,
        )),
{
    let now = choose|now: u64|
        #[trigger] proxy::answered(r, route, state, probe, use_h2, now) && proxy::timely(
            route,
            state,
            now,
        );
    crate::laws::health::lemma_ready(state, probe, now);
    now
}

} // verus!
