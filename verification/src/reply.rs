//! Replies that the sidecar makes up itself.

use vstd::prelude::*;

verus! {

/// A reply with a JSON body: the value to be rendered, not its rendering.
#[derive(Debug)]
pub struct JsonReply<T> {
    pub status: u16,
    pub content_type: &'static str,
    pub body: T,
}

/// A reply with a plain-text body.
#[derive(Debug)]
pub struct TextReply {
    pub status: u16,
    pub content_type: &'static str,
    pub body: String,
}

pub fn json_response<T>(code: u16, body: T) -> (r: JsonReply<T>)
    ensures
        r.status == code,
        r.content_type@ == "application/json"@,
        r.body == body,
{
    JsonReply { status: code, content_type: "application/json", body }
}

pub fn text_response(code: u16, msg: &str) -> (r: TextReply)
    ensures
        r.status == code,
        r.content_type@ == "text/plain; charset=utf-8"@,
        r.body@ == msg@,
{
    TextReply { status: code, content_type: "text/plain; charset=utf-8", body: msg.to_owned() }
}

} // verus!
