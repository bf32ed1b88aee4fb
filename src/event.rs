//! The typed event envelope that goes on the wire.
use vstd::prelude::*;
use crate::strmap::StringMap;

verus! {

/// The kind of an event, sent as a lowercase tag.
#[derive(Debug, Clone, Copy, PartialEq, Eq, Structural)]
pub enum TrackType {
    Decrement,
    Identify,
    Increment,
    Track,
}

impl TrackType {
    /// The wire tag of the kind.
    pub open spec fn spec_tag(self) -> Seq<char> {
        match self {
            TrackType::Decrement => "decrement"@,
            TrackType::Identify => "identify"@,
            TrackType::Increment => "increment"@,
            TrackType::Track => "track"@,
        }
    }

    /// The wire tag of the kind.
    pub fn tag(&self) -> (r: String)
        ensures
            r@ == self.spec_tag(),
    {
        match self {
            TrackType::Decrement => "decrement".to_string(),
            TrackType::Identify => "identify".to_string(),
            TrackType::Increment => "increment".to_string(),
            TrackType::Track => "track".to_string(),
        }
    }
}

/// The profile of a user, sent by an identify call.
pub struct IdentifyUser {
    pub profile_id: String,
    pub email: String,
    pub first_name: String,
    pub last_name: String,
    pub properties: StringMap,
}

/// The body of an event, by kind.
pub enum Payload {
    /// A named event with its merged properties; a revenue event also
    /// carries its amount.
    Track {
        name: String,
        profile_id: Option<String>,
        amount: Option<i64>,
        properties: StringMap,
    },
    /// A user profile, its properties merged.
    Identify(IdentifyUser),
    /// A change of a numeric property of a profile by `value`.
    Counter { profile_id: String, property: String, value: i64 },
}

/// What one tracking call sends: `{"type": <tag>, "payload": <body>}`.
pub struct Envelope {
    pub kind: TrackType,
    pub payload: Payload,
}

/// The decimal digit `d`.
pub open spec fn digit_char(d: nat) -> char {
    seq!['0', '1', '2', '3', '4', '5', '6', '7', '8', '9'][d as int]
}

/// The decimal digits of `n`, without leading zeros.
pub open spec fn nat_text(n: nat) -> Seq<char>
    decreases n,
{
    if n < 10 {
        seq![digit_char(n)]
    } else {
        nat_text(n / 10).push(digit_char(n % 10))
    }
}

/// The decimal text of `n`, with a minus sign when it is negative.
pub open spec fn decimal_text(n: int) -> Seq<char> {
    if n < 0 {
        seq!['-'] + nat_text((-n) as nat)
    } else {
        nat_text(n as nat)
    }
}

/// Relies on `i64`'s `to_string`, which writes the number in decimal.
#[verifier::external_body]
pub(crate) fn i64_text(n: i64) -> (r: String)
    ensures
        r@ == decimal_text(n as int),
{
    n.to_string()
}

} // verus!
