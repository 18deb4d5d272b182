//! HTTP status codes.

use vstd::prelude::*;

use crate::text;

verus! {

/// An HTTP status code, always in the three-digit range.
#[derive(Debug, Clone, Copy, PartialEq, Eq)]
pub struct StatusCode {
    code: u16,
}

/// The reason phrase that `http::StatusCode` shows behind a code.
pub uninterp spec fn status_reason(code: u16) -> Seq<char>;

/// The `Display` of `http::StatusCode`: the code in decimal, a space, and the
/// reason phrase (a placeholder for a code without one).
#[verifier::external_body]
fn http_status_text(code: u16) -> (r: String)
    requires
        100 <= code <= 999,
    ensures
        r@ == text::decimal(code as nat) + " "@ + status_reason(code),
{
    http::StatusCode::from_u16(code).expect("three-digit code").to_string()
}

impl StatusCode {
    #[verifier::type_invariant]
    spec fn in_range(self) -> bool {
        100 <= self.code <= 999
    }

    /// The number of the code.
    pub closed spec fn number(self) -> u16 {
        self.code
    }

    /// The code as text, with its reason phrase.
    pub open spec fn text_spec(self) -> Seq<char> {
        text::decimal(self.number() as nat) + " "@ + status_reason(self.number())
    }

    /// The status code with this number, if there is one.
    pub fn from_u16(code: u16) -> (r: Option<StatusCode>)
        ensures
            match r {
                Some(s) => 100 <= code <= 999 && s.number() == code,
                None => !(100 <= code <= 999),
            },
    {
        if 100 <= code && code <= 999 {
            Some(StatusCode { code })
        } else {
            None
        }
    }

    pub fn as_u16(&self) -> (r: u16)
        ensures
            r == self.number(),
            100 <= r <= 999,
    {
        proof {
            use_type_invariant(self);
        }
        self.code
    }

    /// Whether the code says that the request succeeded.
    pub open spec fn success(self) -> bool {
        200 <= self.number() <= 299
    }

    pub fn is_success(&self) -> (r: bool)
        ensures
            r == self.success(),
    {
        200 <= self.code && self.code <= 299
    }

    /// The code with its reason phrase, `404 Not Found`, say.
    pub fn text(&self) -> (r: String)
        ensures
            r@ == self.text_spec(),
    {
        proof {
            use_type_invariant(self);
        }
        http_status_text(self.code)
    }
}

} // verus!
