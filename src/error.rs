//! Errors of the tracking calls.
use vstd::prelude::*;

verus! {

#[verifier::external_type_specification]
#[verifier::external_body]
pub struct ExInvalidHeaderName(reqwest::header::InvalidHeaderName);

#[verifier::external_type_specification]
#[verifier::external_body]
pub struct ExInvalidHeaderValue(reqwest::header::InvalidHeaderValue);

#[verifier::external_type_specification]
#[verifier::external_body]
pub struct ExJsonError(serde_json::Error);

#[verifier::external_type_specification]
#[verifier::external_body]
pub struct ExRequestError(reqwest::Error);

/// Everything that can make a tracking call fail. Each kind can be told apart,
/// so that callers may treat `Filtered` and `Disabled` as expected outcomes.
#[derive(Debug)]
pub enum TrackerError {
    /// The configuration source could not be read.
    EnvVar(String),
    /// A required configuration value is absent or unreadable.
    Env(String),
    NotAuthorized,
    TooManyRequests,
    Internal,
    /// The transport failed.
    Request(reqwest::Error),
    /// A payload could not be encoded, or a response body not decoded.
    Serializing(serde_json::Error),
    /// A header name is not valid on the wire.
    HeaderName(reqwest::header::InvalidHeaderName),
    /// A header value is not valid on the wire.
    HeaderValue(reqwest::header::InvalidHeaderValue),
    /// The tracker is disabled: nothing is sent.
    Disabled,
    /// The caller's filter vetoed the event: nothing is sent.
    Filtered,
}

} // verus!
