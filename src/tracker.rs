//! The tracker: connection settings, header set, global properties, and the
//! tracking calls that turn their arguments into an envelope.
use vstd::prelude::*;
use vstd::string::StringExecFns;
use crate::error::TrackerError;
use crate::event::{decimal_text, i64_text, Envelope, IdentifyUser, Payload, TrackType};
use crate::headers::{check_header_value, header_name_of, header_value_ok, parse_header_name};
use crate::properties::{local_view, merge_properties, merged};
use crate::strmap::StringMap;

verus! {

/// A header that reqwest accepts, name and value.
pub open spec fn header_accepted(k: Seq<char>, v: Seq<char>) -> bool {
    header_name_of(k) is Some && header_value_ok(v)
}

/// The error that a refused header gives: a bad name is reported before a
/// bad value.
pub open spec fn header_error_for(e: TrackerError, k: Seq<char>, v: Seq<char>) -> bool {
    if header_name_of(k) is None {
        e is HeaderName
    } else {
        e is HeaderValue
    }
}

/// The header set after setting the header `k` to `v`, which replaces any
/// value held under the same normalized name.
pub open spec fn headers_with(
    h: Map<Seq<char>, Seq<char>>,
    k: Seq<char>,
    v: Seq<char>,
) -> Map<Seq<char>, Seq<char>> {
    h.insert(header_name_of(k).unwrap(), v)
}

/// Setting two accepted headers gives the same set in either order where
/// their normalized names differ; where the name is the same, the later
/// value replaces the earlier one.
pub proof fn lemma_header_order(
    h: Map<Seq<char>, Seq<char>>,
    k1: Seq<char>,
    v1: Seq<char>,
    k2: Seq<char>,
    v2: Seq<char>,
)
    requires
        header_accepted(k1, v1),
        header_accepted(k2, v2),
    ensures
        header_name_of(k1) != header_name_of(k2) ==> headers_with(headers_with(h, k1, v1), k2, v2)
            == headers_with(headers_with(h, k2, v2), k1, v1),
        k1 == k2 ==> headers_with(headers_with(h, k1, v1), k2, v2) == headers_with(h, k2, v2),
{
    if header_name_of(k1) != header_name_of(k2) {
        assert(headers_with(headers_with(h, k1, v1), k2, v2) =~= headers_with(
            headers_with(h, k2, v2),
            k1,
            v1,
        ));
    }
    if k1 == k2 {
        assert(headers_with(headers_with(h, k1, v1), k2, v2) =~= headers_with(h, k2, v2));
    }
}

/// The name of the content-type header.
pub open spec fn content_type_name() -> Seq<char> {
    "Content-Type"@
}

/// The value of the content-type header.
pub open spec fn content_type_value() -> Seq<char> {
    "application/json"@
}

/// The name of the client-id header.
pub open spec fn client_id_name() -> Seq<char> {
    "openpanel-client-id"@
}

/// The name of the client-secret header.
pub open spec fn client_secret_name() -> Seq<char> {
    "openpanel-client-secret"@
}

/// An envelope of a track event with the given name, profile, amount and
/// properties.
pub open spec fn is_track_envelope(
    env: Envelope,
    name: Seq<char>,
    profile_id: Option<String>,
    amount: Option<i64>,
    properties: Map<Seq<char>, Seq<char>>,
) -> bool {
    &&& env.kind == TrackType::Track
    &&& env.payload matches Payload::Track { name: n, profile_id: p, amount: a, properties: m }
    &&& n@ == name
    &&& p == profile_id
    &&& a == amount
    &&& m@ == properties
}

/// An envelope of a counter event of the given kind.
pub open spec fn is_counter_envelope(
    env: Envelope,
    kind: TrackType,
    profile_id: Seq<char>,
    property: Seq<char>,
    value: i64,
) -> bool {
    &&& env.kind == kind
    &&& env.payload matches Payload::Counter { profile_id: p, property: q, value: v }
    &&& p@ == profile_id
    &&& q@ == property
    &&& v == value
}

/// A client of the analytics endpoint. Builder calls consume the tracker
/// and hand back the updated one.
pub struct Tracker {
    api_url: String,
    client_id: String,
    client_secret: String,
    headers: StringMap,
    global_props: StringMap,
    disabled: bool,
}

impl Tracker {
    pub closed spec fn spec_api_url(self) -> Seq<char> {
        self.api_url@
    }

    pub closed spec fn spec_client_id(self) -> Seq<char> {
        self.client_id@
    }

    pub closed spec fn spec_client_secret(self) -> Seq<char> {
        self.client_secret@
    }

    /// The header set, keyed by normalized header name.
    pub closed spec fn spec_headers(self) -> Map<Seq<char>, Seq<char>> {
        self.headers@
    }

    pub closed spec fn spec_globals(self) -> Map<Seq<char>, Seq<char>> {
        self.global_props@
    }

    pub closed spec fn spec_disabled(self) -> bool {
        self.disabled
    }

    /// The two trackers agree in all but their header sets.
    pub open spec fn same_but_headers(self, other: Tracker) -> bool {
        &&& self.spec_api_url() == other.spec_api_url()
        &&& self.spec_client_id() == other.spec_client_id()
        &&& self.spec_client_secret() == other.spec_client_secret()
        &&& self.spec_globals() == other.spec_globals()
        &&& self.spec_disabled() == other.spec_disabled()
    }

    /// A tracker for the endpoint at `api_url` with the given credentials,
    /// no headers, no global properties, and enabled.
    pub fn new(api_url: String, client_id: String, client_secret: String) -> (r: Tracker)
        ensures
            r.spec_api_url() == api_url@,
            r.spec_client_id() == client_id@,
            r.spec_client_secret() == client_secret@,
            r.spec_headers() == Map::<Seq<char>, Seq<char>>::empty(),
            r.spec_globals() == Map::<Seq<char>, Seq<char>>::empty(),
            !r.spec_disabled(),
    {
        Tracker {
            api_url,
            client_id,
            client_secret,
            headers: StringMap::new(),
            global_props: StringMap::new(),
            disabled: false,
        }
    }

    /// Sets the header `key` to `value`, replacing a header of the same
    /// normalized name; fails where reqwest refuses the name or the value.
    pub fn with_header(self, key: String, value: String) -> (r: Result<Tracker, TrackerError>)
        ensures
            r is Ok <==> header_accepted(key@, value@),
            match r {
                Ok(t) => t.same_but_headers(self) && t.spec_headers() == headers_with(
                    self.spec_headers(),
                    key@,
                    value@,
                ),
                Err(e) => header_error_for(e, key@, value@),
            },
    {
        let name = match parse_header_name(key.as_str()) {
            Ok(n) => n,
            Err(e) => {
                return Err(TrackerError::HeaderName(e));
            },
        };
        match check_header_value(value.as_str()) {
            Ok(()) => {},
            Err(e) => {
                return Err(TrackerError::HeaderValue(e));
            },
        }
        let mut t = self;
        t.headers.insert(name, value);
        Ok(t)
    }

    /// Sets the default headers: the content type `application/json`, and
    /// the client id and secret; fails as `with_header` does, on the first
    /// header that is refused.
    pub fn with_default_headers(self) -> (r: Result<Tracker, TrackerError>)
        ensures
            r is Ok <==> header_accepted(content_type_name(), content_type_value())
                && header_accepted(client_id_name(), self.spec_client_id())
                && header_accepted(client_secret_name(), self.spec_client_secret()),
            match r {
                Ok(t) => t.same_but_headers(self) && t.spec_headers() == headers_with(
                    headers_with(
                        headers_with(
                            self.spec_headers(),
                            content_type_name(),
                            content_type_value(),
                        ),
                        client_id_name(),
                        self.spec_client_id(),
                    ),
                    client_secret_name(),
                    self.spec_client_secret(),
                ),
                Err(e) => if !header_accepted(content_type_name(), content_type_value()) {
                    header_error_for(e, content_type_name(), content_type_value())
                } else if !header_accepted(client_id_name(), self.spec_client_id()) {
                    header_error_for(e, client_id_name(), self.spec_client_id())
                } else {
                    header_error_for(e, client_secret_name(), self.spec_client_secret())
                },
            },
    {
        let id = self.client_id.clone();
        let secret = self.client_secret.clone();
        let t = self.with_header("Content-Type".to_string(), "application/json".to_string())?;
        let t = t.with_header("openpanel-client-id".to_string(), id)?;
        t.with_header("openpanel-client-secret".to_string(), secret)
    }

    /// Replaces the global properties by `properties`.
    pub fn with_global_properties(self, properties: StringMap) -> (r: Tracker)
        ensures
            r.spec_globals() == properties@,
            r.spec_api_url() == self.spec_api_url(),
            r.spec_client_id() == self.spec_client_id(),
            r.spec_client_secret() == self.spec_client_secret(),
            r.spec_headers() == self.spec_headers(),
            r.spec_disabled() == self.spec_disabled(),
    {
        let mut t = self;
        t.global_props = properties;
        t
    }

    /// Disables the tracker: every later tracking call fails with `Disabled`.
    pub fn disable(self) -> (r: Tracker)
        ensures
            r.spec_disabled(),
            r.spec_api_url() == self.spec_api_url(),
            r.spec_client_id() == self.spec_client_id(),
            r.spec_client_secret() == self.spec_client_secret(),
            r.spec_headers() == self.spec_headers(),
            r.spec_globals() == self.spec_globals(),
    {
        let mut t = self;
        t.disabled = true;
        t
    }

    /// The endpoint's URL.
    pub fn api_url(&self) -> (r: &String)
        ensures
            r@ == self.spec_api_url(),
    {
        &self.api_url
    }

    /// The header set, keyed by normalized header name.
    pub fn headers(&self) -> (r: &StringMap)
        ensures
            r@ == self.spec_headers(),
    {
        &self.headers
    }

    /// The value of the header named `name`, looked up by its normalized
    /// form, so that the case of the name does not matter.
    pub fn header(&self, name: &str) -> (r: Option<&String>)
        ensures
            match header_name_of(name@) {
                Some(n) => match r {
                    Some(v) => self.spec_headers().contains_key(n) && v@ == self.spec_headers()[n],
                    None => !self.spec_headers().contains_key(n),
                },
                None => r is None,
            },
    {
        match parse_header_name(name) {
            Ok(n) => self.headers.get(n.as_str()),
            Err(_) => None,
        }
    }

    /// The global properties.
    pub fn global_properties(&self) -> (r: &StringMap)
        ensures
            r@ == self.spec_globals(),
    {
        &self.global_props
    }

    /// Whether the tracker is disabled.
    pub fn is_disabled(&self) -> (r: bool)
        ensures
            r == self.spec_disabled(),
    {
        self.disabled
    }

    /// The per-call properties with the global properties laid over them.
    pub fn create_properties_with_globals(&self, properties: Option<StringMap>) -> (r: StringMap)
        ensures
            r@ == merged(local_view(properties), self.spec_globals()),
    {
        merge_properties(properties, &self.global_props)
    }

    /// A track event named `event`: the merged properties go to the filter,
    /// if one is given, and a `true` from it vetoes the event with
    /// `Filtered`. Otherwise a disabled tracker fails with `Disabled`, and an
    /// enabled one gives the envelope to send.
    pub fn track<F: Fn(&StringMap) -> bool>(
        &self,
        event: String,
        profile_id: Option<String>,
        properties: Option<StringMap>,
        filter: Option<&F>,
    ) -> (r: Result<Envelope, TrackerError>)
        requires
            filter matches Some(f) ==> forall|m: &StringMap| f.requires((m,)),
        ensures
            match r {
                Ok(env) => {
                    &&& !self.spec_disabled()
                    &&& is_track_envelope(
                        env,
                        event@,
                        profile_id,
                        None,
                        merged(local_view(properties), self.spec_globals()),
                    )
                    &&& filter matches Some(f) ==> env.payload matches Payload::Track {
                        properties: m,
                        ..
                    } && f.ensures((&m,), false)
                },
                Err(TrackerError::Filtered) => filter matches Some(f) && exists|m: StringMap|
                    m@ == merged(local_view(properties), self.spec_globals()) && f.ensures(
                        (&m,),
                        true,
                    ),
                Err(TrackerError::Disabled) => self.spec_disabled() && (filter matches Some(f)
                    ==> exists|m: StringMap|
                    m@ == merged(local_view(properties), self.spec_globals()) && f.ensures(
                        (&m,),
                        false,
                    )),
                Err(_) => false,
            },
    {
        let merged = merge_properties(properties, &self.global_props);
        match filter {
            Some(f) => {
                if f(&merged) {
                    return Err(TrackerError::Filtered);
                }
            },
            None => {},
        }
        if self.disabled {
            return Err(TrackerError::Disabled);
        }
        Ok(
            Envelope {
                kind: TrackType::Track,
                payload: Payload::Track { name: event, profile_id, amount: None, properties: merged },
            },
        )
    }

    /// An identify event for `user`, its properties merged with the global
    /// ones; a disabled tracker fails with `Disabled`.
    pub fn identify(&self, user: IdentifyUser) -> (r: Result<Envelope, TrackerError>)
        ensures
            match r {
                Ok(env) => {
                    &&& !self.spec_disabled()
                    &&& env.kind == TrackType::Identify
                    &&& env.payload matches Payload::Identify(u)
                    &&& u.profile_id == user.profile_id
                    &&& u.email == user.email
                    &&& u.first_name == user.first_name
                    &&& u.last_name == user.last_name
                    &&& u.properties@ == merged(Some(user.properties@), self.spec_globals())
                },
                Err(e) => self.spec_disabled() && e is Disabled,
            },
    {
        if self.disabled {
            return Err(TrackerError::Disabled);
        }
        let IdentifyUser { profile_id, email, first_name, last_name, properties } = user;
        let properties = merge_properties(Some(properties), &self.global_props);
        Ok(
            Envelope {
                kind: TrackType::Identify,
                payload: Payload::Identify(
                    IdentifyUser { profile_id, email, first_name, last_name, properties },
                ),
            },
        )
    }

    /// A decrement event: `value` is sent as given, with no change of sign;
    /// a disabled tracker fails with `Disabled`.
    pub fn decrement(&self, profile_id: String, property: String, value: i64) -> (r: Result<
        Envelope,
        TrackerError,
    >)
        ensures
            match r {
                Ok(env) => !self.spec_disabled() && (is_counter_envelope(
                env,
                TrackType::Decrement,
                profile_id@,
                property@,
                value,
            )),
                Err(e) => self.spec_disabled() && e is Disabled,
            },
    {
        if self.disabled {
            return Err(TrackerError::Disabled);
        }
        Ok(
            Envelope {
                kind: TrackType::Decrement,
                payload: Payload::Counter { profile_id, property, value },
            },
        )
    }

    /// An increment event of `value`; a disabled tracker fails with
    /// `Disabled`.
    pub fn increment(&self, profile_id: String, property: String, value: i64) -> (r: Result<
        Envelope,
        TrackerError,
    >)
        ensures
            match r {
                Ok(env) => !self.spec_disabled() && (is_counter_envelope(
                env,
                TrackType::Increment,
                profile_id@,
                property@,
                value,
            )),
                Err(e) => self.spec_disabled() && e is Disabled,
            },
    {
        if self.disabled {
            return Err(TrackerError::Disabled);
        }
        Ok(
            Envelope {
                kind: TrackType::Increment,
                payload: Payload::Counter { profile_id, property, value },
            },
        )
    }

    /// A revenue event: a track event named `revenue` that carries `amount`,
    /// whose properties are the merged ones with `amount` set to its decimal
    /// text; a disabled tracker fails with `Disabled`.
    pub fn revenue(&self, profile_id: Option<String>, amount: i64, properties: Option<StringMap>) -> (r:
        Result<Envelope, TrackerError>)
        ensures
            match r {
                Ok(env) => !self.spec_disabled() && (is_track_envelope(
                env,
                "revenue"@,
                profile_id,
                Some(amount),
                merged(local_view(properties), self.spec_globals()).insert(
                    "amount"@,
                    decimal_text(amount as int),
                ),
            )),
                Err(e) => self.spec_disabled() && e is Disabled,
            },
    {
        if self.disabled {
            return Err(TrackerError::Disabled);
        }
        let mut merged = merge_properties(properties, &self.global_props);
        merged.insert("amount".to_string(), i64_text(amount));
        Ok(
            Envelope {
                kind: TrackType::Track,
                payload: Payload::Track {
                    name: "revenue".to_string(),
                    profile_id,
                    amount: Some(amount),
                    properties: merged,
                },
            },
        )
    }

    /// The URL to ask for the device id: the endpoint's URL followed by
    /// `/device-id`; a disabled tracker fails with `Disabled`.
    pub fn device_id_url(&self) -> (r: Result<String, TrackerError>)
        ensures
            match r {
                Ok(u) => !self.spec_disabled() && (u@ == self.spec_api_url()
                + "/device-id"@),
                Err(e) => self.spec_disabled() && e is Disabled,
            },
    {
        if self.disabled {
            return Err(TrackerError::Disabled);
        }
        Ok(self.api_url.clone().concat("/device-id"))
    }
}

} // verus!
