//! WebSocket requests: the handshake that is sent upstream, and what the client is
//! answered when it fails.

use http::HeaderMap;
use vstd::prelude::*;

use crate::headers;
use crate::headers::{header_contains, header_insert, header_remove, is_header_value};
use crate::proxy;
use crate::reply::{text_response, TextReply};
use crate::uri::{parse_uri, Uri};

verus! {

/// The request that opens a WebSocket at the upstream.
#[derive(Debug)]
pub struct WsRequest {
    pub method: &'static str,
    pub uri: Uri,
    pub headers: HeaderMap,
}

/// A letter of the base64 alphabet.
pub open spec fn base64_char(c: char) -> bool {
    'A' <= c <= 'Z' || 'a' <= c <= 'z' || '0' <= c <= '9' || c == '+' || c == '/'
}

/// The text of sixteen bytes in base64, as `Sec-WebSocket-Key` carries it.
pub open spec fn websocket_key(s: Seq<char>) -> bool {
    &&& s.len() == 24
    &&& s[22] == '='
    &&& s[23] == '='
    &&& forall|i: int| 0 <= i < 22 ==> base64_char(#[trigger] s[i])
}

/// `tungstenite::handshake::client::generate_key`: sixteen random bytes in base64.
/// Which bytes they are is left to chance.
#[verifier::external_body]
fn generate_key() -> (r: String)
    ensures
        websocket_key(r@),
{
    tokio_tungstenite::tungstenite::handshake::client::generate_key()
}

/// Whether `key` came from a call of `generate_key`.
pub closed spec fn drawn_key(key: Seq<char>) -> bool {
    exists|s: String| #[trigger] call_ensures(generate_key, (), s) && s@ == key
}

/// A text from `source`, which is known to be one of its results.
fn draw<F: Fn() -> String>(source: F) -> (s: String)
    requires
        call_requires(source, ()),
    ensures
        call_ensures(source, (), s),
{
    source()
}

/// The headers with one value under `name`, in place of all that was there.
pub open spec fn with_header(
    entries: Map<Seq<char>, Seq<Seq<u8>>>,
    name: Seq<char>,
    value: Seq<char>,
) -> Map<Seq<char>, Seq<Seq<u8>>> {
    entries.insert(name, seq![vstd::utf8::encode_utf8(value)])
}

/// As `with_header`, unless there is a value already.
pub open spec fn with_default(
    entries: Map<Seq<char>, Seq<Seq<u8>>>,
    name: Seq<char>,
    value: Seq<char>,
) -> Map<Seq<char>, Seq<Seq<u8>>> {
    if entries.dom().contains(name) {
        entries
    } else {
        with_header(entries, name, value)
    }
}

/// The client's headers without those that never reach the upstream.
pub open spec fn bare_headers(entries: Map<Seq<char>, Seq<Seq<u8>>>) -> Map<Seq<char>, Seq<Seq<u8>>> {
    entries.remove("host"@).remove("content-length"@)
}

/// Those, with the upstream's own host.
pub open spec fn hosted_headers(entries: Map<Seq<char>, Seq<Seq<u8>>>, authority: Option<Seq<char>>) -> Map<Seq<char>, Seq<Seq<u8>>> {
    match authority {
        Some(a) => with_header(bare_headers(entries), "host"@, a),
        None => bare_headers(entries),
    }
}

/// Those, with a key where the client gave none.
pub open spec fn keyed_headers(entries: Map<Seq<char>, Seq<Seq<u8>>>, authority: Option<Seq<char>>, key: Seq<char>) -> Map<Seq<char>, Seq<Seq<u8>>> {
    with_default(hosted_headers(entries, authority), "sec-websocket-key"@, key)
}

/// Those, with a version where the client gave none.
pub open spec fn versioned_headers(entries: Map<Seq<char>, Seq<Seq<u8>>>, authority: Option<Seq<char>>, key: Seq<char>) -> Map<Seq<char>, Seq<Seq<u8>>> {
    with_default(keyed_headers(entries, authority, key), "sec-websocket-version"@, "13"@)
}

/// The headers of the upstream handshake: those of the client, with the upstream's
/// own host, without a content length, with a key and a version where the client
/// gave none, and with the two headers that ask for the upgrade.
pub open spec fn ws_headers(entries: Map<Seq<char>, Seq<Seq<u8>>>, authority: Option<Seq<char>>, key: Seq<char>) -> Map<Seq<char>, Seq<Seq<u8>>> {
    with_header(
        with_header(versioned_headers(entries, authority, key), "connection"@, "Upgrade"@),
        "upgrade"@,
        "websocket"@,
    )
}

/// The headers of the upstream handshake, or why there is none: the target is no
/// URI, or the key is needed and cannot stand in a header.
pub open spec fn ws_outcome(
    target: Seq<char>,
    entries: Map<Seq<char>, Seq<Seq<u8>>>,
    key: Seq<char>,
) -> Result<Map<Seq<char>, Seq<Seq<u8>>>, Seq<char>> {
    match crate::uri::uri_parse(target) {
        Err(e) => Err(e),
        Ok(parts) => if entries.dom().contains("sec-websocket-key"@) || headers::valid_value(key) {
            Ok(ws_headers(entries, parts.authority, key))
        } else {
            Err("failed to parse header value"@)
        },
    }
}

/// `r` is the request to `target` with the headers of `outcome`, or its error.
pub open spec fn ws_result(
    r: Result<WsRequest, String>,
    target: Seq<char>,
    outcome: Result<Map<Seq<char>, Seq<Seq<u8>>>, Seq<char>>,
) -> bool {
    match r {
        Ok(w) => {
            &&& outcome == Ok::<Map<Seq<char>, Seq<Seq<u8>>>, Seq<char>>(
                headers::header_entries(w.headers),
            )
            &&& w.method@ == "GET"@
            &&& w.uri.text@ == target
            &&& crate::uri::uri_parse(target) == Ok::<crate::uri::UriParts, Seq<char>>(
                w.uri.parts(),
            )
        },
        Err(e) => outcome == Err::<Map<Seq<char>, Seq<Seq<u8>>>, Seq<char>>(e@),
    }
}

/// `r` is what a handshake comes to. Only one for a URI whose headers the map of the
/// client cannot take fails for that; up to the limit a map takes them.
pub open spec fn ws_built(
    r: Result<WsRequest, String>,
    target: Seq<char>,
    entries: Map<Seq<char>, Seq<Seq<u8>>>,
    key: Seq<char>,
) -> bool {
    ||| ws_result(r, target, ws_outcome(target, entries, key))
    ||| {
        &&& r matches Err(e) && e@ == "too many headers"@
        &&& crate::uri::uri_parse(target) is Ok
        &&& !headers::names_within(entries, (headers::INSERT_LIMIT - 4) as nat)
    }
}

proof fn lemma_ws_names()
    ensures
        headers::lower_name("host"@),
        headers::lower_name("content-length"@),
        headers::lower_name("sec-websocket-key"@),
        headers::lower_name("sec-websocket-version"@),
        headers::lower_name("connection"@),
        headers::lower_name("upgrade"@),
        headers::valid_value("13"@),
        headers::valid_value("Upgrade"@),
        headers::valid_value("websocket"@),
        "host"@ != "sec-websocket-key"@,
        "content-length"@ != "sec-websocket-key"@,
{
    reveal_strlit("host");
    reveal_strlit("content-length");
    reveal_strlit("sec-websocket-key");
    reveal_strlit("sec-websocket-version");
    reveal_strlit("connection");
    reveal_strlit("upgrade");
    reveal_strlit("13");
    reveal_strlit("Upgrade");
    reveal_strlit("websocket");
}

/// A name in lower case is a name, and lower case leaves it as it is.
proof fn lemma_lower_name(s: Seq<char>)
    requires
        headers::lower_name(s),
    ensures
        headers::valid_name(s),
        headers::lower(s) == s,
{
    assert forall|i: int| 0 <= i < s.len() implies headers::lower_name_char(
        headers::lower_char(#[trigger] s[i]),
    ) && headers::lower_char(s[i]) == s[i] by {
        assert(headers::lower_name_char(s[i]));
    }
    assert(headers::lower(s) =~= s);
}

/// One more name is one more name at most.
proof fn lemma_within_insert(
    entries: Map<Seq<char>, Seq<Seq<u8>>>,
    name: Seq<char>,
    values: Seq<Seq<u8>>,
    n: nat,
)
    requires
        headers::names_within(entries, n),
    ensures
        headers::names_within(entries.insert(name, values), n + 1),
{
    let names = choose|names: Seq<Seq<char>>|
        names.len() <= n && #[trigger] headers::covers(names, entries);
    let more = names.push(name);
    assert forall|k: Seq<char>| #[trigger]
        entries.insert(name, values).dom().contains(k) implies more.contains(k) by {
        if k == name {
            assert(more[names.len() as int] == k);
        } else {
            assert(entries.dom().contains(k));
            let i = names.index_of(k);
            assert(more[i] == k);
        }
    }
    assert(headers::covers(more, entries.insert(name, values)));
}

proof fn lemma_within_remove(entries: Map<Seq<char>, Seq<Seq<u8>>>, name: Seq<char>, n: nat)
    requires
        headers::names_within(entries, n),
    ensures
        headers::names_within(entries.remove(name), n),
{
    let names = choose|names: Seq<Seq<char>>|
        names.len() <= n && #[trigger] headers::covers(names, entries);
    assert(headers::covers(names, entries.remove(name)));
}

/// Puts one value under `name`, where the map has room for it.
fn put(map: &mut HeaderMap, name: &str, value: &str) -> (r: Result<(), String>)
    requires
        headers::lower_name(name@),
        headers::valid_value(value@),
    ensures
        match r {
            Ok(()) => headers::header_entries(*final(map)) == with_header(
                headers::header_entries(*old(map)),
                name@,
                value@,
            ),
            Err(e) => e@ == "too many headers"@ && !headers::names_within(
                headers::header_entries(*old(map)),
                headers::INSERT_LIMIT as nat,
            ),
        },
{
    proof {
        lemma_lower_name(name@);
    }
    match header_insert(map, name, value) {
        Ok(()) => Ok(()),
        Err(_) => Err("too many headers".to_owned()),
    }
}

/// What is within a number is within every larger one.
proof fn lemma_within_grows(entries: Map<Seq<char>, Seq<Seq<u8>>>, n: nat, m: nat)
    requires
        headers::names_within(entries, n),
        n <= m,
    ensures
        headers::names_within(entries, m),
{
    let names = choose|names: Seq<Seq<char>>|
        names.len() <= n && #[trigger] headers::covers(names, entries);
    assert(names.len() <= m && headers::covers(names, entries));
}

proof fn lemma_within_default(
    entries: Map<Seq<char>, Seq<Seq<u8>>>,
    name: Seq<char>,
    value: Seq<char>,
    n: nat,
)
    requires
        headers::names_within(entries, n),
    ensures
        headers::names_within(with_default(entries, name, value), n + 1),
{
    lemma_within_insert(entries, name, seq![vstd::utf8::encode_utf8(value)], n);
    lemma_within_grows(entries, n, n + 1);
}

/// Where a client's headers leave room for four more, there is room at every insertion.
proof fn lemma_room_throughout(
    entries: Map<Seq<char>, Seq<Seq<u8>>>,
    authority: Option<Seq<char>>,
    key: Seq<char>,
)
    requires
        headers::names_within(entries, (headers::INSERT_LIMIT - 4) as nat),
    ensures
        ({
            let limit = headers::INSERT_LIMIT as nat;
            let versioned = versioned_headers(entries, authority, key);
            &&& headers::names_within(bare_headers(entries), limit)
            &&& headers::names_within(hosted_headers(entries, authority), limit)
            &&& headers::names_within(keyed_headers(entries, authority, key), limit)
            &&& headers::names_within(versioned, limit)
            &&& headers::names_within(with_header(versioned, "connection"@, "Upgrade"@), limit)
        }),
{
    let limit = headers::INSERT_LIMIT as nat;
    let n = (limit - 4) as nat;
    let bare = bare_headers(entries);
    let hosted = hosted_headers(entries, authority);
    let keyed = keyed_headers(entries, authority, key);
    let versioned = versioned_headers(entries, authority, key);
    lemma_within_remove(entries, "host"@, n);
    lemma_within_remove(entries.remove("host"@), "content-length"@, n);
    lemma_within_grows(bare, n, n + 1);
    if let Some(a) = authority {
        lemma_within_insert(bare, "host"@, seq![vstd::utf8::encode_utf8(a)], n);
    }
    lemma_within_default(hosted, "sec-websocket-key"@, key, n + 1);
    lemma_within_default(keyed, "sec-websocket-version"@, "13"@, n + 2);
    lemma_within_insert(
        versioned,
        "connection"@,
        seq![vstd::utf8::encode_utf8("Upgrade"@)],
        n + 3,
    );
    lemma_within_grows(bare, n, limit);
    lemma_within_grows(hosted, n + 1, limit);
    lemma_within_grows(keyed, n + 2, limit);
    lemma_within_grows(versioned, n + 3, limit);
}

/// The upstream handshake for a client's request, with `key` where the client gave none.
pub fn build_ws_request_with(
    path_and_query: Option<&str>,
    client_headers: HeaderMap,
    upstream_url: &str,
    key: &str,
) -> (r: Result<WsRequest, String>)
    ensures
        ws_built(
            r,
            proxy::target(upstream_url@, proxy::opt_str(path_and_query)),
            headers::header_entries(client_headers),
            key@,
        ),
{
    let target = proxy::upstream_target(upstream_url, path_and_query);
    let uri = match parse_uri(target.as_str()) {
        Ok(uri) => uri,
        Err(e) => return Err(e),
    };
    let ghost entries = headers::header_entries(client_headers);
    proof {
        lemma_ws_names();
        if headers::names_within(entries, (headers::INSERT_LIMIT - 4) as nat) {
            lemma_room_throughout(entries, crate::uri::opt_text(uri.authority), key@);
        }
    }
    let mut map = client_headers;
    header_remove(&mut map, "host");
    header_remove(&mut map, "content-length");
    if let Some(authority) = &uri.authority {
        if let Err(e) = put(&mut map, "host", authority.as_str()) {
            return Err(e);
        }
    }
    if !header_contains(&map, "sec-websocket-key") {
        if !is_header_value(key) {
            return Err("failed to parse header value".to_owned());
        }
        if let Err(e) = put(&mut map, "sec-websocket-key", key) {
            return Err(e);
        }
    }
    if !header_contains(&map, "sec-websocket-version") {
        if let Err(e) = put(&mut map, "sec-websocket-version", "13") {
            return Err(e);
        }
    }
    if let Err(e) = put(&mut map, "connection", "Upgrade") {
        return Err(e);
    }
    if let Err(e) = put(&mut map, "upgrade", "websocket") {
        return Err(e);
    }
    Ok(WsRequest { method: "GET", uri, headers: map })
}

/// The upstream handshake for a client's request. A client that gave no key gets a
/// random one.
pub fn build_ws_request(
    path_and_query: Option<&str>,
    client_headers: HeaderMap,
    upstream_url: &str,
) -> (r: Result<WsRequest, String>)
    ensures
        ({
            let target = proxy::target(upstream_url@, proxy::opt_str(path_and_query));
            let entries = headers::header_entries(client_headers);
            exists|key: Seq<char>|
                #![trigger ws_built(r, target, entries, key)]
                ((drawn_key(key) && websocket_key(key)) || entries.dom().contains(
                    "sec-websocket-key"@,
                )) && ws_built(r, target, entries, key)
        }),
{
    proof {
        lemma_ws_names();
    }
    let key = if header_contains(&client_headers, "sec-websocket-key") {
        "".to_owned()
    } else {
        let drawn = draw(generate_key);
        assert(call_ensures(generate_key, (), drawn));
        drawn
    };
    build_ws_request_with(path_and_query, client_headers, upstream_url, key.as_str())
}

// ---- dialing ----

/// Why the upstream WebSocket could not be dialed.
#[derive(Debug)]
pub enum DialError {
    Failed(String),
    TimedOut,
}

impl DialError {
    /// The failure as the client is told.
    pub open spec fn shown(self) -> Seq<char> {
        match self {
            DialError::Failed(e) => "upstream ws connect failed: "@ + e@,
            DialError::TimedOut => "upstream ws connect timed out"@,
        }
    }
}

/// What the client is answered instead of a handshake, where the dial came to nothing.
pub fn dial_reply(error: &DialError) -> (r: TextReply)
    ensures
        r.status == 502,
        r.content_type@ == "text/plain; charset=utf-8"@,
        r.body@ == error.shown(),
{
    match error {
        DialError::Failed(e) => {
            let mut msg = "upstream ws connect failed: ".to_owned();
            msg.append(e.as_str());
            text_response(502, msg.as_str())
        },
        DialError::TimedOut => text_response(502, "upstream ws connect timed out"),
    }
}

/// Accepts an Extended CONNECT: the stream becomes the tunnel after this reply.
pub fn accept_connect() -> (r: TextReply)
    ensures
        r.status == 200,
        r.content_type@ == "text/plain; charset=utf-8"@,
        r.body@ == Seq::<char>::empty(),
{
    proof {
        reveal_strlit("");
    }
    text_response(200, "")
}

/// What an Extended CONNECT is answered: it is accepted only once the upstream
/// WebSocket is open.
pub fn connect_answer(dialled: Result<(), DialError>) -> (r: TextReply)
    ensures
        r.content_type@ == "text/plain; charset=utf-8"@,
        match dialled {
            Ok(()) => r.status == 200 && r.body@ == Seq::<char>::empty(),
            Err(e) => r.status == 502 && r.body@ == e.shown(),
        },
{
    match dialled {
        Ok(()) => accept_connect(),
        Err(e) => dial_reply(&e),
    }
}

/// Whether an HTTP/1.1 upgrade goes on to its 101: only once the upstream WebSocket is
/// open. Else, what the client is answered instead.
pub fn upgrade_answer(dialled: Result<(), DialError>) -> (r: Result<(), TextReply>)
    ensures
        match dialled {
            Ok(()) => r is Ok,
            Err(e) => r matches Err(t) && t.status == 502 && t.content_type@
                == "text/plain; charset=utf-8"@ && t.body@ == e.shown(),
        },
{
    match dialled {
        Ok(()) => Ok(()),
        Err(e) => Err(dial_reply(&e)),
    }
}

// ---- the bridge ----

/// What happened on one direction of a bridge. A frame is an `M`.
#[derive(Debug, PartialEq, Eq)]
pub enum BridgeEvent<M> {
    /// A frame came in.
    Received(M),
    /// There is nothing more to read, or reading failed.
    Ended,
    /// The frame was passed on.
    Sent,
    /// The frame could not be passed on.
    SendFailed,
}

/// What that direction does next.
#[derive(Debug, PartialEq, Eq)]
pub enum BridgeAction<M> {
    Receive,
    /// Pass this frame on.
    Send(M),
    /// Both directions end with the first that stops.
    Stop,
}

/// The action that follows an event.
pub open spec fn bridge_after<M>(event: BridgeEvent<M>) -> BridgeAction<M> {
    match event {
        BridgeEvent::Received(m) => BridgeAction::Send(m),
        BridgeEvent::Sent => BridgeAction::Receive,
        BridgeEvent::Ended | BridgeEvent::SendFailed => BridgeAction::Stop,
    }
}

/// One direction of a bridge: each frame that came in is passed on as it is before the
/// next is read, until either side fails.
pub fn bridge_ws<M>(event: BridgeEvent<M>) -> (r: BridgeAction<M>)
    ensures
        r == bridge_after(event),
{
    match event {
        BridgeEvent::Received(m) => BridgeAction::Send(m),
        BridgeEvent::Sent => BridgeAction::Receive,
        BridgeEvent::Ended | BridgeEvent::SendFailed => BridgeAction::Stop,
    }
}

/// What a direction does first: it reads.
pub fn bridge_start<M>() -> (r: BridgeAction<M>)
    ensures
        r is Receive,
{
    BridgeAction::Receive
}

// ---- laws ----

proof fn lemma_key_fits(s: Seq<char>)
    requires
        websocket_key(s),
    ensures
        headers::valid_value(s),
{
    assert forall|i: int| 0 <= i < s.len() implies headers::value_char(#[trigger] s[i]) by {
        if i < 22 {
            assert(base64_char(s[i]));
        }
    }
}

/// With a random key, and with room for its headers, the handshake is built for every
/// target that is a URI.
pub proof fn law_handshake_is_built_for_every_uri(
    r: Result<WsRequest, String>,
    target: Seq<char>,
    entries: Map<Seq<char>, Seq<Seq<u8>>>,
    key: Seq<char>,
)
    requires
        ws_built(r, target, entries, key),
        websocket_key(key) || entries.dom().contains("sec-websocket-key"@),
        headers::names_within(entries, (headers::INSERT_LIMIT - 4) as nat),
    ensures
        r is Ok <==> crate::uri::uri_parse(target) is Ok,
{
    if websocket_key(key) {
        lemma_key_fits(key);
    }
}

/// Headers that the handshake does not set reach the upstream with the values that
/// the client gave them; a key or a version of the client's is kept.
pub proof fn law_client_headers_are_forwarded(
    entries: Map<Seq<char>, Seq<Seq<u8>>>,
    authority: Option<Seq<char>>,
    key: Seq<char>,
    name: Seq<char>,
)
    requires
        entries.dom().contains(name),
        name != "host"@,
        name != "content-length"@,
        name != "connection"@,
        name != "upgrade"@,
    ensures
        ws_headers(entries, authority, key).dom().contains(name),
        ws_headers(entries, authority, key)[name] == entries[name],
{
    lemma_ws_names();
}

/// The client's content length does not reach the upstream, and its host is
/// replaced by the upstream's own.
pub proof fn law_host_is_the_upstreams(
    entries: Map<Seq<char>, Seq<Seq<u8>>>,
    authority: Seq<char>,
    key: Seq<char>,
)
    ensures
        !ws_headers(entries, Some(authority), key).dom().contains("content-length"@),
        ws_headers(entries, Some(authority), key)["host"@] == seq![
            vstd::utf8::encode_utf8(authority),
        ],
{
    lemma_ws_names();
    lemma_ws_names_differ();
}

/// The names that the handshake sets are different from those it drops.
proof fn lemma_ws_names_differ()
    ensures
        "content-length"@ != "host"@,
        "content-length"@ != "connection"@,
        "content-length"@ != "upgrade"@,
        "content-length"@ != "sec-websocket-version"@,
        "host"@ != "connection"@,
        "host"@ != "upgrade"@,
        "host"@ != "sec-websocket-version"@,
        "connection"@ != "upgrade"@,
{
    reveal_strlit("host");
    reveal_strlit("content-length");
    reveal_strlit("sec-websocket-version");
    reveal_strlit("connection");
    reveal_strlit("upgrade");
    assert("host"@.len() == 4 && "content-length"@.len() == 14);
    assert("sec-websocket-version"@.len() == 21 && "connection"@.len() == 10);
    assert("upgrade"@.len() == 7);
}

/// What is sent upstream asks for a WebSocket itself, whatever the client sent: an
/// Extended CONNECT becomes an HTTP/1.1 upgrade.
pub proof fn law_handshake_asks_for_websocket(
    entries: Map<Seq<char>, Seq<Seq<u8>>>,
    authority: Option<Seq<char>>,
    key: Seq<char>,
)
    ensures
        headers::asks_for_websocket(ws_headers(entries, authority, key)),
        ws_headers(entries, authority, key).dom().contains("sec-websocket-key"@),
        ws_headers(entries, authority, key).dom().contains("sec-websocket-version"@),
{
    lemma_ws_names();
    lemma_ws_names_differ();
    let map = ws_headers(entries, authority, key);
    reveal_strlit("Upgrade");
    reveal_strlit("upgrade");
    reveal_strlit("websocket");
    let upgrade = vstd::utf8::encode_utf8("Upgrade"@);
    let websocket = vstd::utf8::encode_utf8("websocket"@);
    vstd::utf8::is_ascii_chars_encode_utf8("Upgrade"@);
    vstd::utf8::is_ascii_chars_encode_utf8("websocket"@);
    lemma_lists_itself(upgrade);
    lemma_lists_itself(websocket);
    assert(upgrade.map_values(|c: u8| headers::lower_byte(c)) =~= headers::ascii("upgrade"@));
    assert(websocket.map_values(|c: u8| headers::lower_byte(c)) =~= headers::ascii("websocket"@));
    assert(map["connection"@][0] == upgrade);
    assert(map["upgrade"@][0] == websocket);
}

/// A value without commas and blanks is a list of itself.
proof fn lemma_lists_itself(v: Seq<u8>)
    requires
        v.len() > 0,
        forall|i: int|
            0 <= i < v.len() ==> (#[trigger] v[i]) != 44 && !headers::blank(v[i]),
    ensures
        headers::lists(v, v.map_values(|c: u8| headers::lower_byte(c))),
{
    assert(headers::element_at(v, 0, v.len() as int));
    assert(v.subrange(0, v.len() as int) =~= v);
    assert(headers::trim_start(v) == v);
    assert(headers::trim_end(v) == v);
}

// ---- whole runs of one direction of a bridge ----

/// What a direction does when it has seen the first `i` of these events.
pub open spec fn bridge_action_at<M>(events: Seq<BridgeEvent<M>>, i: int) -> BridgeAction<M> {
    if i == 0 {
        BridgeAction::Receive
    } else {
        bridge_after(events[i - 1])
    }
}

/// Whether an action can end in an event; after a stop nothing happens.
pub open spec fn bridge_ends_in<M>(action: BridgeAction<M>, event: BridgeEvent<M>) -> bool {
    match action {
        BridgeAction::Receive => event is Received || event is Ended,
        BridgeAction::Send(_) => event is Sent || event is SendFailed,
        BridgeAction::Stop => false,
    }
}

/// The events of one direction from its start on.
pub open spec fn is_bridge_run<M>(events: Seq<BridgeEvent<M>>) -> bool {
    forall|i: int|
        0 <= i < events.len() ==> bridge_ends_in(
            #[trigger] bridge_action_at(events, i),
            events[i],
        )
}

/// The frames that came in, in order.
pub open spec fn received<M>(events: Seq<BridgeEvent<M>>) -> Seq<M>
    decreases events.len(),
{
    if events.len() == 0 {
        Seq::empty()
    } else {
        match events.last() {
            BridgeEvent::Received(m) => received(events.drop_last()).push(m),
            _ => received(events.drop_last()),
        }
    }
}

/// The frames that were passed on, in order.
pub open spec fn passed_on<M>(events: Seq<BridgeEvent<M>>) -> Seq<M>
    decreases events.len(),
{
    if events.len() == 0 {
        Seq::empty()
    } else {
        let before = passed_on(events.drop_last());
        match (bridge_action_at(events, events.len() - 1), events.last()) {
            (BridgeAction::Send(m), BridgeEvent::Sent) => before.push(m),
            _ => before,
        }
    }
}

/// Every frame that came in is passed on once, as it is and in order, but for a last
/// one that is still held or could not be passed on.
pub proof fn law_bridge_passes_frames_on_in_order<M>(events: Seq<BridgeEvent<M>>)
    requires
        is_bridge_run(events),
    ensures
        passed_on(events) == (if events.len() > 0 && (events.last() is Received
            || events.last() is SendFailed) {
            received(events).drop_last()
        } else {
            received(events)
        }),
        passed_on(events).is_prefix_of(received(events)),
    decreases events.len(),
{
    if events.len() > 0 {
        let n = events.len() - 1;
        let before = events.drop_last();
        assert forall|i: int| 0 <= i < before.len() implies bridge_ends_in(
            #[trigger] bridge_action_at(before, i),
            before[i],
        ) by {
            assert(bridge_ends_in(bridge_action_at(events, i), events[i]));
            assert(bridge_action_at(before, i) == bridge_action_at(events, i));
        }
        law_bridge_passes_frames_on_in_order(before);
        assert(bridge_ends_in(bridge_action_at(events, n), events[n]));
        if n > 0 {
            assert(before.last() == events[n - 1]);
            if let BridgeEvent::Received(m) = events[n - 1] {
                assert(received(before) == received(before.drop_last()).push(m));
                assert(received(before).drop_last().push(m) =~= received(before));
            }
        }
        if let BridgeEvent::Received(m) = events[n] {
            assert(received(events).drop_last() =~= received(before));
        }
    }
}

/// Nothing follows the end of a stream, nor a frame that could not be passed on.
pub proof fn law_bridge_stops<M>(events: Seq<BridgeEvent<M>>, i: int)
    requires
        is_bridge_run(events),
        0 <= i < events.len(),
        events[i] is Ended || events[i] is SendFailed,
    ensures
        i == events.len() - 1,
        bridge_action_at(events, i + 1) is Stop,
{
    if i + 1 < events.len() {
        assert(bridge_ends_in(bridge_action_at(events, i + 1), events[i + 1]));
    }
}

/// A drawn key is one that `generate_key` gave.
proof fn law_drawn_keys_are_generated(key: Seq<char>)
    requires
        drawn_key(key),
    ensures
        exists|s: String| #[trigger] call_ensures(generate_key, (), s) && s@ == key,
{
}

} // verus!
