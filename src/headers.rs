//! What makes a header name or value valid on the wire, as reqwest decides it.
use vstd::prelude::*;
use std::str::FromStr;

verus! {

/// The normalized form of a header name, or `None` where reqwest refuses it.
pub uninterp spec fn header_name_of(s: Seq<char>) -> Option<Seq<char>>;

/// A character that may stand in a header value: a visible or non-ASCII
/// character, a space or a tab, but no other control character.
pub open spec fn header_char_ok(c: char) -> bool {
    (c as u32 >= 32 && c as u32 != 127) || c == '\t'
}

/// A header value that reqwest accepts.
pub open spec fn header_value_ok(s: Seq<char>) -> bool {
    forall|i: int| 0 <= i < s.len() ==> header_char_ok(#[trigger] s[i])
}

/// Relies on `HeaderName::from_str` (reqwest, from the http crate) to accept
/// or refuse a name, and on `HeaderName::as_str` for its normalized form.
#[verifier::external_body]
pub(crate) fn parse_header_name(s: &str) -> (r: Result<String, reqwest::header::InvalidHeaderName>)
    ensures
        match r {
            Ok(n) => header_name_of(s@) == Some(n@),
            Err(_) => header_name_of(s@) is None,
        },
{
    reqwest::header::HeaderName::from_str(s).map(|n| n.as_str().to_string())
}

/// Relies on `HeaderValue::from_str` (reqwest, from the http crate), which
/// accepts a string exactly when each of its bytes is a tab, or at least 32
/// and not 127.
#[verifier::external_body]
pub(crate) fn check_header_value(s: &str) -> (r: Result<(), reqwest::header::InvalidHeaderValue>)
    ensures
        r is Ok <==> header_value_ok(s@),
{
    reqwest::header::HeaderValue::from_str(s).map(|_| ())
}

} // verus!
