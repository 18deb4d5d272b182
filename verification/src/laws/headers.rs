//! Laws of header handling.

use http::HeaderMap;
use vstd::prelude::*;

use crate::headers;
use crate::ws;

verus! {

/// The name of a header that concerns one hop only.
pub open spec fn of_one_hop(name: Seq<char>) -> bool {
    ||| name == "connection"@
    ||| name == "keep-alive"@
    ||| name == "proxy-authenticate"@
    ||| name == "proxy-authorization"@
    ||| name == "te"@
    ||| name == "trailer"@
    ||| name == "trailers"@
    ||| name == "transfer-encoding"@
    ||| name == "upgrade"@
    ||| name == "host"@
    ||| name == "content-length"@
}

/// What a message has under a name after it was forwarded: nothing under the name of a
/// header of one hop, and under every other name what it had.
pub proof fn law_only_headers_of_one_hop_are_dropped(
    before: Map<Seq<char>, Seq<Seq<u8>>>,
    after: Map<Seq<char>, Seq<Seq<u8>>>,
    name: Seq<char>,
)
    requires
        after == before.remove_keys(headers::hop_by_hop()),
    ensures
        of_one_hop(name) ==> !after.dom().contains(name),
        !of_one_hop(name) ==> after.dom().contains(name) == before.dom().contains(name),
        !of_one_hop(name) && before.dom().contains(name) ==> after[name] == before[name],
{
}

/// What a body, a cache or a client goes by is never of one hop: these headers pass.
pub proof fn law_end_to_end_headers_pass()
    ensures
        !headers::hop_by_hop().contains("content-type"@),
        !headers::hop_by_hop().contains("content-encoding"@),
        !headers::hop_by_hop().contains("authorization"@),
        !headers::hop_by_hop().contains("accept"@),
        !headers::hop_by_hop().contains("cache-control"@),
        !headers::hop_by_hop().contains("etag"@),
        !headers::hop_by_hop().contains("location"@),
        !headers::hop_by_hop().contains("set-cookie"@),
        !headers::hop_by_hop().contains("traceparent"@),
{
    reveal_strlit("connection");
    reveal_strlit("keep-alive");
    reveal_strlit("proxy-authenticate");
    reveal_strlit("proxy-authorization");
    reveal_strlit("te");
    reveal_strlit("trailer");
    reveal_strlit("trailers");
    reveal_strlit("transfer-encoding");
    reveal_strlit("upgrade");
    reveal_strlit("host");
    reveal_strlit("content-length");
    reveal_strlit("content-type");
    reveal_strlit("content-encoding");
    reveal_strlit("authorization");
    reveal_strlit("accept");
    reveal_strlit("cache-control");
    reveal_strlit("etag");
    reveal_strlit("location");
    reveal_strlit("set-cookie");
    reveal_strlit("traceparent");
    assert("connection"@.len() == 10 && "connection"@[0] == 'c');
    assert("keep-alive"@.len() == 10 && "keep-alive"@[0] == 'k');
    assert("proxy-authenticate"@.len() == 18 && "proxy-authorization"@.len() == 19);
    assert("te"@.len() == 2 && "trailer"@.len() == 7 && "trailers"@.len() == 8);
    assert("transfer-encoding"@.len() == 17 && "upgrade"@.len() == 7 && "host"@.len() == 4);
    assert("content-length"@.len() == 14);
    assert("content-type"@.len() == 12 && "content-encoding"@.len() == 16);
    assert("authorization"@.len() == 13 && "accept"@.len() == 6);
    assert("cache-control"@.len() == 13 && "etag"@.len() == 4 && "etag"@[0] == 'e');
    assert("host"@[0] == 'h' && "trailers"@[0] == 't');
    assert("location"@.len() == 8 && "location"@[0] == 'l');
    assert("set-cookie"@.len() == 10 && "set-cookie"@[0] == 's');
    assert("traceparent"@.len() == 11);
}

/// A header value may hold every character but the control characters, and of those
/// the tab; two texts can stand in one value exactly where each can.
pub proof fn law_header_values(s: &str, a: Seq<char>, c: char, r: bool)
    requires
        call_ensures(headers::is_header_value, (s,), r),
    ensures
        s@.len() == 0 ==> r,
        s@ == a.push(c) ==> (r <==> headers::valid_value(a) && (c == '\t' || (c as nat >= 32
            && c as nat != 127))),
{
    if s@ == a.push(c) {
        assert(s@[a.len() as int] == c);
        assert(forall|i: int| 0 <= i < a.len() ==> (#[trigger] s@[i]) == a[i]);
        if headers::valid_value(s@) {
            assert forall|i: int| 0 <= i < a.len() implies headers::value_char(
                #[trigger] a[i],
            ) by {
                assert(headers::value_char(s@[i]));
            }
            assert(headers::value_char(s@[a.len() as int]));
        }
        if headers::valid_value(a) && (c == '\t' || (c as nat >= 32 && c as nat != 127)) {
            assert forall|i: int| 0 <= i < s@.len() implies headers::value_char(
                #[trigger] s@[i],
            ) by {
                if i < a.len() {
                    assert(headers::value_char(a[i]));
                }
            }
        }
    }
}

/// A character that a header name may hold: a letter, a digit, or one of some marks.
pub open spec fn of_a_name(c: char) -> bool {
    ||| 97 <= c as nat <= 122
    ||| 65 <= c as nat <= 90
    ||| 48 <= c as nat <= 57
    ||| c == '!' || c == '#' || c == '$' || c == '%' || c == '&' || c == '\''
    ||| c == '*' || c == '+' || c == '-' || c == '.' || c == '^' || c == '_'
    ||| c == '`' || c == '|' || c == '~'
}

/// A header name is not empty, not too long, and made of such characters only, in
/// either letter case.
pub proof fn law_header_names(s: &str, r: bool)
    requires
        call_ensures(headers::is_header_name, (s,), r),
    ensures
        r <==> 0 < s@.len() < 65536 && forall|i: int|
            0 <= i < s@.len() ==> of_a_name(#[trigger] s@[i]),
{
    assert forall|c: char| #[trigger] of_a_name(c) == headers::lower_name_char(
        headers::lower_char(c),
    ) by {
    }
    if headers::valid_name(s@) {
        assert forall|i: int| 0 <= i < s@.len() implies of_a_name(#[trigger] s@[i]) by {
            assert(headers::lower_name_char(headers::lower_char(s@[i])));
        }
    }
    if 0 < s@.len() < 65536 && forall|i: int| 0 <= i < s@.len() ==> of_a_name(#[trigger] s@[i]) {
        assert forall|i: int| 0 <= i < s@.len() implies headers::lower_name_char(
            headers::lower_char(#[trigger] s@[i]),
        ) by {
            assert(of_a_name(s@[i]));
        }
    }
}

/// Lower case changes capital letters into small ones and nothing else.
pub proof fn law_lower_case(s: Seq<char>, i: int)
    requires
        0 <= i < s.len(),
    ensures
        headers::lower(s).len() == s.len(),
        65 <= s[i] as nat <= 90 ==> headers::lower(s)[i] as nat == s[i] as nat + 32,
        !(65 <= s[i] as nat <= 90) ==> headers::lower(s)[i] == s[i],
{
}

/// A value that is one word of a list asks for what the word says, whatever stands
/// beside it in the list.
pub proof fn law_one_word_is_enough(before: Seq<u8>, word: Seq<u8>, after: Seq<u8>)
    requires
        word.len() > 0,
        forall|i: int|
            0 <= i < word.len() ==> (#[trigger] word[i]) != 44 && !headers::blank(word[i]),
    ensures
        headers::lists(
            before.push(44u8) + word + seq![44u8] + after,
            word.map_values(|b: u8| headers::lower_byte(b)),
        ),
{
    let v = before.push(44u8) + word + seq![44u8] + after;
    let a = before.len() + 1;
    let b = a + word.len();
    assert(v.subrange(a as int, b as int) =~= word);
    assert(v[a - 1] == 44u8);
    assert(v[b as int] == 44u8);
    assert forall|k: int| a <= k < b implies v[k] != 44 by {
        assert(v[k] == word[k - a]);
    }
    assert(headers::element_at(v, a as int, b as int));
    assert(headers::trim_start(word) == word);
    assert(headers::trim_end(word) == word);
}

/// What the headers of a handshake hold under a name.
pub open spec fn has(entries: Map<Seq<char>, Seq<Seq<u8>>>, name: Seq<char>, value: Seq<char>) -> bool {
    &&& entries.dom().contains(name)
    &&& entries[name].len() == 1
    &&& entries[name][0] == vstd::utf8::encode_utf8(value)
}

/// A header that was set has that one value; every other header is as it was.
pub proof fn law_setting_a_header(
    entries: Map<Seq<char>, Seq<Seq<u8>>>,
    name: Seq<char>,
    value: Seq<char>,
    other: Seq<char>,
)
    ensures
        has(ws::with_header(entries, name, value), name, value),
        other != name ==> ws::with_header(entries, name, value).dom().contains(other)
            == entries.dom().contains(other),
        other != name && entries.dom().contains(other) ==> ws::with_header(
            entries,
            name,
            value,
        )[other] == entries[other],
{
}

/// Forwarding takes the headers of one hop out of a message, whatever it holds, and
/// leaves every other header with its values.
pub proof fn law_forwarding_strips(name: Seq<char>)
    ensures
        forall|h: &mut HeaderMap| #[trigger]
            call_ensures(headers::strip_hop_by_hop, (h,), ()) ==> {
                let before = headers::header_entries(*h);
                let after = headers::header_entries(*final(h));
                &&& of_one_hop(name) ==> !after.dom().contains(name)
                &&& !of_one_hop(name) ==> after.dom().contains(name) == before.dom().contains(name)
                &&& !of_one_hop(name) && before.dom().contains(name) ==> after[name]
                    == before[name]
            },
{
}

/// An injected header replaces what was under its name, in lower case, and nothing else;
/// what is no header changes nothing. With room, every header is taken.
pub proof fn law_injecting(key: &str, value: &str, name: Seq<char>, set: bool)
    ensures
        forall|h: &mut HeaderMap| #[trigger]
            call_ensures(headers::inject_header, (h, key, value), set) ==> {
                let before = headers::header_entries(*h);
                let after = headers::header_entries(*final(h));
                &&& set ==> headers::valid_name(key@) && headers::valid_value(value@) && has(
                    after,
                    headers::lower(key@),
                    value@,
                )
                &&& headers::valid_name(key@) && headers::valid_value(value@)
                    && headers::names_within(before, 6_553) ==> set
                &&& !set || name != headers::lower(key@) ==> {
                    &&& after.dom().contains(name) == before.dom().contains(name)
                    &&& before.dom().contains(name) ==> after[name] == before[name]
                }
            },
{
}

/// A WebSocket is asked for exactly where both headers are there, and each lists its
/// word in one of its values.
pub proof fn law_both_words_are_needed(
    entries: Map<Seq<char>, Seq<Seq<u8>>>,
    i: int,
    j: int,
)
    ensures
        headers::asks_for_websocket(entries) ==> entries.dom().contains("connection"@)
            && entries.dom().contains("upgrade"@),
        entries.dom().contains("connection"@) && entries.dom().contains("upgrade"@) && 0 <= i
            < entries["connection"@].len() && 0 <= j < entries["upgrade"@].len() && headers::lists(
            entries["connection"@][i],
            headers::ascii("upgrade"@),
        ) && headers::lists(entries["upgrade"@][j], headers::ascii("websocket"@))
            ==> headers::asks_for_websocket(entries),
        (forall|k: int|
            0 <= k < entries["connection"@].len() ==> !headers::lists(
                #[trigger] entries["connection"@][k],
                headers::ascii("upgrade"@),
            )) ==> !headers::asks_for_websocket(entries),
        (forall|k: int|
            0 <= k < entries["upgrade"@].len() ==> !headers::lists(
                #[trigger] entries["upgrade"@][k],
                headers::ascii("websocket"@),
            )) ==> !headers::asks_for_websocket(entries),
{
}

} // verus!
