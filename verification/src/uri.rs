//! Upstream URIs, as far as the sidecar looks into them.

use vstd::prelude::*;

verus! {

/// The parts of a parsed URI that decisions are made on.
pub struct UriParts {
    pub scheme: Option<Seq<char>>,
    pub authority: Option<Seq<char>>,
}

/// A parsed URI: its text, its scheme (`https`, say) and its authority (host and port).
#[derive(Debug)]
pub struct Uri {
    pub text: String,
    pub scheme: Option<String>,
    pub authority: Option<String>,
}

/// The text of an optional string.
pub open spec fn opt_text(s: Option<String>) -> Option<Seq<char>> {
    match s {
        Some(t) => Some(t@),
        None => None,
    }
}

impl Uri {
    pub open spec fn parts(self) -> UriParts {
        UriParts { scheme: opt_text(self.scheme), authority: opt_text(self.authority) }
    }
}

/// What `http::Uri` makes of a text: its parts, or the text of the parse error.
pub uninterp spec fn uri_parse(s: Seq<char>) -> Result<UriParts, Seq<char>>;

/// The characters of an authority can all stand in a header value.
pub open spec fn fits_header(authority: Option<Seq<char>>) -> bool {
    match authority {
        Some(a) => crate::headers::valid_value(a),
        None => true,
    }
}

/// `http::Uri::from_str`: succeeds or fails as `uri_parse` says of the text, with
/// the scheme and the authority of the URI, or the error rendered as text. An
/// authority holds visible ASCII characters only.
#[verifier::external_body]
fn http_uri(s: &str) -> (r: Result<(Option<String>, Option<String>), String>)
    ensures
        match r {
            Ok(p) => uri_parse(s@) == Ok::<UriParts, Seq<char>>(
                UriParts { scheme: opt_text(p.0), authority: opt_text(p.1) },
            ) && fits_header(opt_text(p.1)),
            Err(e) => uri_parse(s@) == Err::<UriParts, Seq<char>>(e@),
        },
{
    match s.parse::<http::Uri>() {
        Ok(uri) => Ok((
            uri.scheme_str().map(|x| x.to_owned()),
            uri.authority().map(|x| x.as_str().to_owned()),
        )),
        Err(e) => Err(e.to_string()),
    }
}

/// Parses `s` as a URI.
pub fn parse_uri(s: &str) -> (r: Result<Uri, String>)
    ensures
        match r {
            Ok(uri) => uri.text@ == s@ && uri_parse(s@) == Ok::<UriParts, Seq<char>>(uri.parts())
                && fits_header(uri.parts().authority),
            Err(e) => uri_parse(s@) == Err::<UriParts, Seq<char>>(e@),
        },
{
    match http_uri(s) {
        Ok(p) => Ok(Uri { text: s.to_owned(), scheme: p.0, authority: p.1 }),
        Err(e) => Err(e),
    }
}

} // verus!
