//! HTTP headers: what is dropped on the way through, and what marks an upgrade.

use http::header::MaxSizeReached;
use http::HeaderMap;
use vstd::prelude::*;

verus! {

#[verifier::external_type_specification]
#[verifier::external_body]
#[verifier::reject_recursive_types(T)]
pub struct ExHeaderMap<T>(HeaderMap<T>);

#[verifier::external_type_specification]
#[verifier::external_body]
pub struct ExHeaderValue(http::HeaderValue);

#[verifier::external_type_specification]
#[verifier::external_body]
pub struct ExMaxSizeReached(MaxSizeReached);

/// What a header map holds: the values under each name, in order, the name in lower case.
pub uninterp spec fn header_entries(headers: HeaderMap) -> Map<Seq<char>, Seq<Seq<u8>>>;

/// A header map with at most this many different names always takes one more.
pub const INSERT_LIMIT: usize = 6_553;

/// Every name that has a value occurs in `names`.
pub open spec fn covers(names: Seq<Seq<char>>, entries: Map<Seq<char>, Seq<Seq<u8>>>) -> bool {
    forall|name: Seq<char>| #[trigger] entries.dom().contains(name) ==> names.contains(name)
}

/// There are at most `n` different names.
pub open spec fn names_within(entries: Map<Seq<char>, Seq<Seq<u8>>>, n: nat) -> bool {
    exists|names: Seq<Seq<char>>| names.len() <= n && #[trigger] covers(names, entries)
}

/// A character of a header name that stands for itself.
pub open spec fn lower_name_char(c: char) -> bool {
    ||| 'a' <= c <= 'z'
    ||| '0' <= c <= '9'
    ||| c == '!' || c == '#' || c == '$' || c == '%' || c == '&' || c == '\'' || c == '*'
    ||| c == '+' || c == '-' || c == '.' || c == '^' || c == '_' || c == '`' || c == '|'
    ||| c == '~'
}

/// A header name in lower case.
pub open spec fn lower_name(s: Seq<char>) -> bool {
    &&& 1 <= s.len() <= 65535
    &&& forall|i: int| 0 <= i < s.len() ==> lower_name_char(#[trigger] s[i])
}

/// The character in lower case.
pub open spec fn lower_char(c: char) -> char {
    if 'A' <= c <= 'Z' {
        (c as nat + 32) as char
    } else {
        c
    }
}

/// The text in lower case.
pub open spec fn lower(s: Seq<char>) -> Seq<char> {
    s.map_values(|c: char| lower_char(c))
}

/// Whether `s` names a header, in any letter case.
pub open spec fn valid_name(s: Seq<char>) -> bool {
    &&& 1 <= s.len() <= 65535
    &&& forall|i: int| 0 <= i < s.len() ==> lower_name_char(lower_char(#[trigger] s[i]))
}

/// Whether `s` can stand as a header value: no control characters but the tab.
pub open spec fn valid_value(s: Seq<char>) -> bool {
    forall|i: int| 0 <= i < s.len() ==> value_char(#[trigger] s[i])
}

pub open spec fn value_char(c: char) -> bool {
    c == '\t' || (c >= ' ' && c != '\x7f')
}

/// `HeaderMap::remove`: takes every value under the name out, and nothing else.
#[verifier::external_body]
pub(crate) fn header_remove(headers: &mut HeaderMap, name: &str)
    requires
        lower_name(name@),
    ensures
        header_entries(*final(headers)) == header_entries(*old(headers)).remove(name@),
{
    headers.remove(name);
}

/// `HeaderMap::contains_key`: whether there is a value under the name.
#[verifier::external_body]
pub(crate) fn header_contains(headers: &HeaderMap, name: &str) -> (r: bool)
    requires
        lower_name(name@),
    ensures
        r == header_entries(*headers).dom().contains(name@),
{
    headers.contains_key(name)
}

/// `HeaderMap::try_insert`: puts the value under the lower-case name, in place of all
/// that was there, or leaves the map as it is because it cannot grow. Within
/// `INSERT_LIMIT` names it can always grow; whether a larger map can rests on how it
/// was filled.
#[verifier::external_body]
pub(crate) fn header_insert(headers: &mut HeaderMap, name: &str, value: &str) -> (r: Result<
    (),
    MaxSizeReached,
>)
    requires
        valid_name(name@),
        valid_value(value@),
    ensures
        header_entries(*final(headers)) == (if r is Ok {
            header_entries(*old(headers)).insert(
                lower(name@),
                seq![vstd::utf8::encode_utf8(value@)],
            )
        } else {
            header_entries(*old(headers))
        }),
        names_within(header_entries(*old(headers)), INSERT_LIMIT as nat) ==> r is Ok,
{
    let name = http::HeaderName::from_bytes(name.as_bytes()).expect("header name");
    let value = http::HeaderValue::from_str(value).expect("header value");
    headers.try_insert(name, value).map(|_| ())
}

// ---- what marks an upgrade ----

pub open spec fn blank(b: u8) -> bool {
    b == 32 || b == 9 || b == 10 || b == 12 || b == 13
}

pub open spec fn trim_start(s: Seq<u8>) -> Seq<u8>
    decreases s.len(),
{
    if s.len() > 0 && blank(s[0]) {
        trim_start(s.skip(1))
    } else {
        s
    }
}

pub open spec fn trim_end(s: Seq<u8>) -> Seq<u8>
    decreases s.len(),
{
    if s.len() > 0 && blank(s.last()) {
        trim_end(s.drop_last())
    } else {
        s
    }
}

pub open spec fn lower_byte(b: u8) -> u8 {
    if 65 <= b <= 90 {
        (b + 32) as u8
    } else {
        b
    }
}

/// The bytes of an ASCII text.
pub open spec fn ascii(s: Seq<char>) -> Seq<u8> {
    s.map_values(|c: char| c as u8)
}

/// `v[a..b]` is one element of the comma-separated list `v`.
pub open spec fn element_at(v: Seq<u8>, a: int, b: int) -> bool {
    &&& 0 <= a <= b <= v.len()
    &&& a == 0 || v[a - 1] == 44
    &&& b == v.len() || v[b] == 44
    &&& forall|k: int| a <= k < b ==> v[k] != 44
}

/// The comma-separated list `v` has the element `word`, in any letter case and
/// with any blanks around it.
pub open spec fn lists(v: Seq<u8>, word: Seq<u8>) -> bool {
    exists|a: int, b: int|
        #[trigger] element_at(v, a, b) && trim_end(trim_start(v.subrange(a, b))).map_values(
            |c: u8| lower_byte(c),
        ) == word
}

/// Some value under `name` lists `word`.
pub open spec fn header_lists(
    entries: Map<Seq<char>, Seq<Seq<u8>>>,
    name: Seq<char>,
    word: Seq<char>,
) -> bool {
    &&& entries.dom().contains(name)
    &&& exists|i: int| 0 <= i < entries[name].len() && lists(#[trigger] entries[name][i], ascii(word))
}

/// The headers ask for an HTTP/1.1 upgrade to a WebSocket.
pub open spec fn asks_for_websocket(entries: Map<Seq<char>, Seq<Seq<u8>>>) -> bool {
    &&& header_lists(entries, "connection"@, "upgrade"@)
    &&& header_lists(entries, "upgrade"@, "websocket"@)
}

/// `hyper_tungstenite::is_upgrade_request`, which looks at the headers of a request
/// only: `Connection` has to list `upgrade`, and `Upgrade` has to list `websocket`.
#[verifier::external_body]
pub(crate) fn is_upgrade_request(headers: &HeaderMap) -> (r: bool)
    ensures
        r == asks_for_websocket(header_entries(*headers)),
{
    let mut request = http::Request::new(());
    *request.headers_mut() = headers.clone();
    hyper_tungstenite::is_upgrade_request(&request)
}

// ---- hop-by-hop headers ----

/// The headers that concern one hop only and are not passed on.
pub open spec fn hop_by_hop() -> Set<Seq<char>> {
    set![
        "connection"@,
        "keep-alive"@,
        "proxy-authenticate"@,
        "proxy-authorization"@,
        "te"@,
        "trailer"@,
        "trailers"@,
        "transfer-encoding"@,
        "upgrade"@,
        "host"@,
        "content-length"@,
    ]
}

proof fn lemma_hop_by_hop_names()
    ensures
        lower_name("connection"@),
        lower_name("keep-alive"@),
        lower_name("proxy-authenticate"@),
        lower_name("proxy-authorization"@),
        lower_name("te"@),
        lower_name("trailer"@),
        lower_name("trailers"@),
        lower_name("transfer-encoding"@),
        lower_name("upgrade"@),
        lower_name("host"@),
        lower_name("content-length"@),
{
    reveal_strlit("connection");
    reveal_strlit("keep-alive");
    reveal_strlit("proxy-authenticate");
    reveal_strlit("proxy-authorization");
    reveal_strlit("te");
    reveal_strlit("trailer");
    reveal_strlit("trailers");
    reveal_strlit("transfer-encoding");
    reveal_strlit("upgrade");
    reveal_strlit("host");
    reveal_strlit("content-length");
}

/// Takes the hop-by-hop headers out and leaves every other header as it is.
pub fn strip_hop_by_hop(headers: &mut HeaderMap)
    ensures
        header_entries(*final(headers)) == header_entries(*old(headers)).remove_keys(hop_by_hop()),
        forall|name: Seq<char>| #[trigger]
            header_entries(*final(headers)).dom().contains(name) == (header_entries(
                *old(headers),
            ).dom().contains(name) && !crate::laws::headers::of_one_hop(name)),
{
    proof {
        lemma_hop_by_hop_names();
    }
    header_remove(headers, "connection");
    header_remove(headers, "keep-alive");
    header_remove(headers, "proxy-authenticate");
    header_remove(headers, "proxy-authorization");
    header_remove(headers, "te");
    header_remove(headers, "trailer");
    header_remove(headers, "trailers");
    header_remove(headers, "transfer-encoding");
    header_remove(headers, "upgrade");
    header_remove(headers, "host");
    header_remove(headers, "content-length");
    assert(header_entries(*headers) =~= header_entries(*old(headers)).remove_keys(hop_by_hop()));
}

/// Whether `s` can stand as a header value.
pub fn is_header_value(s: &str) -> (r: bool)
    ensures
        r == valid_value(s@),
{
    let chars = crate::text::chars_of(s);
    let mut i: usize = 0;
    while i < chars.len()
        invariant
            i <= chars@.len(),
            chars@ == s@,
            forall|k: int| 0 <= k < i ==> value_char(#[trigger] chars@[k]),
        decreases chars@.len() - i,
    {
        let c = chars[i];
        if !(c == '\t' || (c >= ' ' && c != '\x7f')) {
            assert(!value_char(s@[i as int]));
            return false;
        }
        i += 1;
    }
    true
}

/// Whether `s` names a header.
pub fn is_header_name(s: &str) -> (r: bool)
    ensures
        r == valid_name(s@),
{
    let chars = crate::text::chars_of(s);
    if chars.len() == 0 || chars.len() > 65535 {
        return false;
    }
    let mut i: usize = 0;
    while i < chars.len()
        invariant
            i <= chars@.len() <= 65535,
            chars@ == s@,
            forall|k: int| 0 <= k < i ==> lower_name_char(lower_char(#[trigger] chars@[k])),
        decreases chars@.len() - i,
    {
        let c = chars[i];
        let alphanumeric = ('a' <= c && c <= 'z') || ('A' <= c && c <= 'Z') || ('0' <= c && c
            <= '9');
        let mark = c == '!' || c == '#' || c == '$' || c == '%' || c == '&' || c == '\'' || c == '*'
            || c == '+' || c == '-' || c == '.' || c == '^' || c == '_' || c == '`' || c == '|' || c
            == '~';
        if !alphanumeric && !mark {
            assert(!lower_name_char(lower_char(s@[i as int])));
            return false;
        }
        i += 1;
    }
    true
}

/// Sets a header from a key and a value, and says whether it did. What is no header at
/// all, or finds no room, changes nothing. This is how trace context is written into
/// a request.
pub fn inject_header(headers: &mut HeaderMap, key: &str, value: &str) -> (set: bool)
    ensures
        set ==> valid_name(key@) && valid_value(value@),
        valid_name(key@) && valid_value(value@) && names_within(
            header_entries(*old(headers)),
            INSERT_LIMIT as nat,
        ) ==> set,
        header_entries(*final(headers)) == (if set {
            header_entries(*old(headers)).insert(
                lower(key@),
                seq![vstd::utf8::encode_utf8(value@)],
            )
        } else {
            header_entries(*old(headers))
        }),
{
    if is_header_name(key) && is_header_value(value) {
        header_insert(headers, key, value).is_ok()
    } else {
        false
    }
}

/// Stripping leaves no hop-by-hop header, keeps every other one with its values,
/// and has nothing left to do a second time.
pub proof fn law_strip_is_exact(entries: Map<Seq<char>, Seq<Seq<u8>>>, name: Seq<char>)
    ensures
        hop_by_hop().contains(name) ==> !entries.remove_keys(hop_by_hop()).dom().contains(name),
        !hop_by_hop().contains(name) ==> {
            &&& entries.remove_keys(hop_by_hop()).dom().contains(name)
                == entries.dom().contains(name)
            &&& entries.dom().contains(name) ==> entries.remove_keys(hop_by_hop())[name]
                == entries[name]
        },
        entries.remove_keys(hop_by_hop()).remove_keys(hop_by_hop()) == entries.remove_keys(
            hop_by_hop(),
        ),
{
    assert(entries.remove_keys(hop_by_hop()).remove_keys(hop_by_hop()) =~= entries.remove_keys(
        hop_by_hop(),
    ));
}

} // verus!
