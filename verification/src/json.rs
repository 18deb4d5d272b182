//! JSON documents from upstream.

use serde_json::Value;
use vstd::prelude::*;

verus! {

/// What a JSON value holds; a number by its text.
pub enum JsonView {
    Null,
    Bool(bool),
    Number(Seq<char>),
    Str(Seq<char>),
    Array(Seq<JsonView>),
    Object(Map<Seq<char>, JsonView>),
}

impl JsonView {
    /// The member of an object; nothing else has members.
    pub open spec fn member(self, key: Seq<char>) -> Option<JsonView> {
        match self {
            JsonView::Object(m) => if m.dom().contains(key) {
                Some(m[key])
            } else {
                None
            },
            _ => None,
        }
    }

    pub open spec fn as_str(self) -> Option<Seq<char>> {
        match self {
            JsonView::Str(s) => Some(s),
            _ => None,
        }
    }

    pub open spec fn as_bool(self) -> Option<bool> {
        match self {
            JsonView::Bool(b) => Some(b),
            _ => None,
        }
    }
}

#[verifier::external_type_specification]
#[verifier::external_body]
pub struct ExValue(Value);

/// What a `serde_json::Value` holds.
pub uninterp spec fn json_view(v: Value) -> JsonView;

/// What `serde_json` makes of bytes read as one JSON document: the document, or
/// the text of the decode error.
pub uninterp spec fn json_document(bytes: Seq<u8>) -> Result<JsonView, Seq<char>>;

/// What `serde_json` makes of a text read as one JSON string: its contents, or
/// the text of the decode error.
pub uninterp spec fn json_string(text: Seq<char>) -> Result<Seq<char>, Seq<char>>;

/// The compact text that `serde_json` writes for a value.
pub uninterp spec fn json_text(v: JsonView) -> Seq<char>;

/// `serde_json::from_slice` into a `Value`: succeeds or fails as `json_document`
/// says of the bytes, with the error rendered as text.
#[verifier::external_body]
pub(crate) fn parse_document(bytes: &[u8]) -> (r: Result<Value, String>)
    ensures
        match r {
            Ok(v) => json_document(bytes@) == Ok::<JsonView, Seq<char>>(json_view(v)),
            Err(e) => json_document(bytes@) == Err::<JsonView, Seq<char>>(e@),
        },
{
    serde_json::from_slice::<Value>(bytes).map_err(|e| e.to_string())
}

/// `serde_json::from_str` into a `String`: succeeds or fails as `json_string`
/// says of the text, with the error rendered as text.
#[verifier::external_body]
pub(crate) fn parse_string(text: &str) -> (r: Result<String, String>)
    ensures
        match r {
            Ok(s) => json_string(text@) == Ok::<Seq<char>, Seq<char>>(s@),
            Err(e) => json_string(text@) == Err::<Seq<char>, Seq<char>>(e@),
        },
{
    serde_json::from_str::<String>(text).map_err(|e| e.to_string())
}

/// `Value::get` with a string key: the member of an object, and nothing of any
/// other value or for a key that the object does not have.
#[verifier::external_body]
pub(crate) fn value_get<'a>(v: &'a Value, key: &str) -> (r: Option<&'a Value>)
    ensures
        match r {
            Some(m) => json_view(*v).member(key@) == Some(json_view(*m)),
            None => json_view(*v).member(key@) is None,
        },
{
    v.get(key)
}

/// `Value::as_bool`: the truth value of a JSON boolean, and nothing of any other value.
#[verifier::external_body]
pub(crate) fn value_as_bool(v: &Value) -> (r: Option<bool>)
    ensures
        r == json_view(*v).as_bool(),
{
    v.as_bool()
}

/// `Value::as_str`: the contents of a JSON string, and nothing of any other value.
#[verifier::external_body]
pub(crate) fn value_as_str(v: &Value) -> (r: Option<&str>)
    ensures
        match r {
            Some(s) => json_view(*v).as_str() == Some(s@),
            None => json_view(*v).as_str() is None,
        },
{
    v.as_str()
}

/// The `Display` of `Value`: its compact text, which depends on what the value holds
/// and on nothing else.
#[verifier::external_body]
pub(crate) fn value_text(v: &Value) -> (r: String)
    ensures
        r@ == json_text(json_view(*v)),
{
    v.to_string()
}

} // verus!
