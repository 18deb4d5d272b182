//! Laws of the WebSocket handshake and of dialing.

use http::HeaderMap;
use vstd::prelude::*;

use crate::headers;
use crate::laws::headers::has;
use crate::proxy;
use crate::reply::TextReply;
use crate::ws;
use crate::ws::{DialError, WsRequest};

verus! {

/// What the client sent under a name, and what the upstream gets under it, are the same.
pub open spec fn same_under(
    sent: Map<Seq<char>, Seq<Seq<u8>>>,
    got: Map<Seq<char>, Seq<Seq<u8>>>,
    name: Seq<char>,
) -> bool {
    &&& sent.dom().contains(name) == got.dom().contains(name)
    &&& sent.dom().contains(name) ==> sent[name] == got[name]
}

/// The names that a handshake sets or drops.
pub open spec fn of_the_handshake(name: Seq<char>) -> bool {
    ||| name == "host"@
    ||| name == "content-length"@
    ||| name == "connection"@
    ||| name == "upgrade"@
    ||| name == "sec-websocket-key"@
    ||| name == "sec-websocket-version"@
}

proof fn lemma_names_differ()
    ensures
        "host"@.len() == 4,
        "content-length"@.len() == 14,
        "connection"@.len() == 10,
        "upgrade"@.len() == 7,
        "sec-websocket-key"@.len() == 17,
        "sec-websocket-version"@.len() == 21,
{
    reveal_strlit("host");
    reveal_strlit("content-length");
    reveal_strlit("connection");
    reveal_strlit("upgrade");
    reveal_strlit("sec-websocket-key");
    reveal_strlit("sec-websocket-version");
}

/// The handshake that an upstream gets: a `GET` of the client's path and query there,
/// with the upstream's host, the two headers of an upgrade, the client's key and version
/// or those given in their place, and every other header as the client sent it.
pub proof fn law_handshake(
    path_and_query: Option<&str>,
    client: HeaderMap,
    url: &str,
    key: &str,
    r: Result<WsRequest, String>,
    target: String,
    name: Seq<char>,
)
    requires
        call_ensures(ws::build_ws_request_with, (path_and_query, client, url, key), r),
        call_ensures(proxy::upstream_target, (url, path_and_query), target),
    ensures
        r matches Ok(w) ==> {
            let sent = headers::header_entries(client);
            let got = headers::header_entries(w.headers);
            &&& w.method@ == "GET"@
            &&& w.uri.text@ == target@
            &&& crate::uri::uri_parse(target@) == Ok::<crate::uri::UriParts, Seq<char>>(
                w.uri.parts(),
            )
            &&& has(got, "connection"@, "Upgrade"@)
            &&& has(got, "upgrade"@, "websocket"@)
            &&& !got.dom().contains("content-length"@)
            &&& w.uri.authority matches Some(a) ==> has(got, "host"@, a@)
            &&& w.uri.authority is None ==> !got.dom().contains("host"@)
            &&& sent.dom().contains("sec-websocket-key"@) ==> same_under(
                sent,
                got,
                "sec-websocket-key"@,
            )
            &&& !sent.dom().contains("sec-websocket-key"@) ==> has(
                got,
                "sec-websocket-key"@,
                key@,
            )
            &&& sent.dom().contains("sec-websocket-version"@) ==> same_under(
                sent,
                got,
                "sec-websocket-version"@,
            )
            &&& !sent.dom().contains("sec-websocket-version"@) ==> has(
                got,
                "sec-websocket-version"@,
                "13"@,
            )
            &&& !of_the_handshake(name) ==> same_under(sent, got, name)
        },
{
    lemma_names_differ();
}

/// A handshake is built for every target that is a URI, where the key that it needs can
/// stand in a header and the client's headers leave room. Where it is not, the reason
/// is the first of these.
pub proof fn law_handshake_is_owed(
    path_and_query: Option<&str>,
    client: HeaderMap,
    url: &str,
    key: &str,
    r: Result<WsRequest, String>,
    target: String,
)
    requires
        call_ensures(ws::build_ws_request_with, (path_and_query, client, url, key), r),
        call_ensures(proxy::upstream_target, (url, path_and_query), target),
    ensures
        ({
            let sent = headers::header_entries(client);
            let parsed = crate::uri::uri_parse(target@);
            let key_fits = sent.dom().contains("sec-websocket-key"@) || headers::valid_value(key@);
            let room = headers::names_within(sent, 6_549);
            &&& parsed matches Err(why) ==> (r matches Err(e) && e@ == why)
            &&& parsed is Ok && key_fits && room ==> r is Ok
            &&& parsed is Ok && !key_fits && room ==> (r matches Err(e) && e@
                == "failed to parse header value"@)
            &&& parsed is Ok && !key_fits ==> r is Err
            &&& parsed is Ok && key_fits && r is Err ==> (r matches Err(e) && e@
                == "too many headers"@)
        }),
{
}

/// A client that gave a key gets its handshake with that key, and one that gave none
/// with sixteen bytes in base64; the handshake is owed for every URI.
pub proof fn law_random_handshake(
    path_and_query: Option<&str>,
    client: HeaderMap,
    url: &str,
    r: Result<WsRequest, String>,
    target: String,
    name: Seq<char>,
) -> (key: Seq<char>)
    requires
        call_ensures(ws::build_ws_request, (path_and_query, client, url), r),
        call_ensures(proxy::upstream_target, (url, path_and_query), target),
    ensures
        ({
            let sent = headers::header_entries(client);
            &&& !sent.dom().contains("sec-websocket-key"@) ==> ws::drawn_key(key) && key.len() == 24
            &&& headers::names_within(sent, 6_549) ==> (r is Ok <==> crate::uri::uri_parse(
                target@,
            ) is Ok)
            &&& r matches Ok(w) ==> {
                let got = headers::header_entries(w.headers);
                &&& w.method@ == "GET"@ && w.uri.text@ == target@
                &&& has(got, "connection"@, "Upgrade"@) && has(got, "upgrade"@, "websocket"@)
                &&& !got.dom().contains("content-length"@)
                &&& w.uri.authority matches Some(a) ==> has(got, "host"@, a@)
                &&& !sent.dom().contains("sec-websocket-key"@) ==> has(
                    got,
                    "sec-websocket-key"@,
                    key,
                )
                &&& sent.dom().contains("sec-websocket-key"@) ==> same_under(
                    sent,
                    got,
                    "sec-websocket-key"@,
                )
                &&& !of_the_handshake(name) ==> same_under(sent, got, name)
            }
        }),
{
    lemma_names_differ();
    let t = proxy::target(url@, proxy::opt_str(path_and_query));
    let sent = headers::header_entries(client);
    let key = choose|key: Seq<char>|
        #![trigger ws::ws_built(r, t, sent, key)]
        ((ws::drawn_key(key) && ws::websocket_key(key)) || sent.dom().contains(
            "sec-websocket-key"@,
        )) && ws::ws_built(r, t, sent, key);
    if headers::names_within(sent, 6_549) {
        ws::law_handshake_is_built_for_every_uri(r, t, sent, key);
    }
    key
}

/// A client is told that its WebSocket is open only where the upstream's is; else it is
/// answered 502 with the reason, over HTTP/1.1 and HTTP/2 alike.
pub proof fn law_answers_follow_the_dial(
    dialled: Result<(), DialError>,
    connect: TextReply,
    upgrade: Result<(), TextReply>,
)
    requires
        call_ensures(ws::connect_answer, (dialled,), connect),
        call_ensures(ws::upgrade_answer, (dialled,), upgrade),
    ensures
        connect.status == 200 <==> dialled is Ok,
        upgrade is Ok <==> dialled is Ok,
        dialled is Ok ==> connect.body@.len() == 0,
        dialled matches Err(e) ==> {
            let why = match e {
                DialError::Failed(cause) => "upstream ws connect failed: "@ + cause@,
                DialError::TimedOut => "upstream ws connect timed out"@,
            };
            &&& connect.status == 502 && connect.body@ == why
            &&& upgrade matches Err(t) && t.status == 502 && t.body@ == why
        },
{
}

/// A frame goes out as it came in, and only then is the next one read; an end or a
/// failure on either side is the end of the direction.
pub proof fn law_bridge_steps<M>(
    frame: M,
    passed: ws::BridgeAction<M>,
    next: ws::BridgeAction<M>,
    ended: ws::BridgeAction<M>,
    failed: ws::BridgeAction<M>,
    first: ws::BridgeAction<M>,
)
    requires
        call_ensures(ws::bridge_ws::<M>, (ws::BridgeEvent::Received(frame),), passed),
        call_ensures(ws::bridge_ws::<M>, (ws::BridgeEvent::Sent,), next),
        call_ensures(ws::bridge_ws::<M>, (ws::BridgeEvent::Ended,), ended),
        call_ensures(ws::bridge_ws::<M>, (ws::BridgeEvent::SendFailed,), failed),
        call_ensures(ws::bridge_start::<M>, (), first),
    ensures
        passed matches ws::BridgeAction::Send(m) && m == frame,
        next is Receive,
        ended is Stop,
        failed is Stop,
        first is Receive,
{
}

/// A failed dial is told with its cause, and an accepted tunnel with nothing.
pub proof fn law_dial_replies(error: DialError, failed: TextReply, accepted: TextReply)
    requires
        call_ensures(ws::dial_reply, (&error,), failed),
        call_ensures(ws::accept_connect, (), accepted),
    ensures
        failed.status == 502 && failed.content_type@ == "text/plain; charset=utf-8"@,
        error matches DialError::Failed(cause) ==> failed.body@ == "upstream ws connect failed: "@
            + cause@,
        error is TimedOut ==> failed.body@ == "upstream ws connect timed out"@,
        accepted.status == 200 && accepted.body@.len() == 0,
        accepted.content_type@ == "text/plain; charset=utf-8"@,
{
}

} // verus!
