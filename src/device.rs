//! Reading the device id out of the body of the endpoint's answer.
use vstd::prelude::*;
use crate::error::TrackerError;
use crate::strmap::{pairs_map, pairs_view, StringMap};

verus! {

/// The string map that a JSON text denotes, or `None` where the text is not
/// a JSON object whose values are all strings.
pub uninterp spec fn json_string_map(s: Seq<char>) -> Option<Map<Seq<char>, Seq<char>>>;

/// Relies on `serde_json::from_str` decoding into a `HashMap<String, String>`;
/// its pairs are handed on in the map's own order, each key once.
#[verifier::external_body]
pub(crate) fn parse_string_map(body: &str) -> (r: Result<Vec<(String, String)>, serde_json::Error>)
    ensures
        match r {
            Ok(v) => json_string_map(body@) == Some(pairs_map(pairs_view(v@))),
            Err(_) => json_string_map(body@) is None,
        },
{
    serde_json::from_str::<std::collections::HashMap<String, String>>(body).map(
        |m| m.into_iter().collect(),
    )
}

/// The device id in a decoded answer: the value at `deviceId`, or the empty
/// string where the key is absent.
pub open spec fn device_id_in(m: Map<Seq<char>, Seq<char>>) -> Seq<char> {
    if m.contains_key("deviceId"@) {
        m["deviceId"@]
    } else {
        Seq::empty()
    }
}

/// The device id in a decoded answer; a body that could not be decoded is a
/// serialization error.
pub fn device_id_from_parsed(parsed: Result<Vec<(String, String)>, serde_json::Error>) -> (r: Result<
    String,
    TrackerError,
>)
    ensures
        match parsed {
            Ok(v) => r matches Ok(id) && id@ == device_id_in(pairs_map(pairs_view(v@))),
            Err(e) => r matches Err(TrackerError::Serializing(e2)) && e2 == e,
        },
{
    match parsed {
        Ok(v) => {
            let m = StringMap::from_pairs(v);
            match m.get("deviceId") {
                Some(id) => Ok(id.clone()),
                None => Ok(String::new()),
            }
        },
        Err(e) => Err(TrackerError::Serializing(e)),
    }
}

/// The device id in the body of the endpoint's answer: the value at
/// `deviceId`, the empty string where the key is absent, and a serialization
/// error where the body is not a JSON object of strings.
pub fn device_id_from_body(body: &str) -> (r: Result<String, TrackerError>)
    ensures
        match json_string_map(body@) {
            Some(m) => r matches Ok(id) && id@ == device_id_in(m),
            None => r matches Err(TrackerError::Serializing(_)),
        },
{
    device_id_from_parsed(parse_string_map(body))
}

} // verus!
