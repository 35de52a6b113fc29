//! The event request and its builder: required identifiers, free-form
//! string attributes with unique keys, and an optional timestamp that
//! is validated and canonicalized at build time.
use vstd::prelude::*;

verus! {

/// The set of strings that chrono accepts as a date-time with offset
/// (a relaxed RFC 3339 form). Uninterpreted: only the trusted parser
/// below speaks of it.
pub uninterp spec fn parses_as_rfc3339(s: Seq<char>) -> bool;

/// The canonical UTC RFC 3339 rendering of a parsable timestamp
/// string. Uninterpreted: defined only through the trusted parser
/// below, which computes it from the characters alone.
pub uninterp spec fn canonical_utc_rfc3339(s: Seq<char>) -> Seq<char>;

/// Relies on chrono: `DateTime::<Utc>::from_str` accepts exactly the
/// relaxed RFC 3339 strings and converts the instant to UTC, and
/// `DateTime::<Utc>::to_rfc3339` renders it in RFC 3339 form with an
/// explicit `+00:00` offset. Both depend on the input characters
/// alone, so their composition is named `canonical_utc_rfc3339`.
#[verifier::external_body]
fn canonicalize_timestamp(at: &str) -> (r: Result<String, String>)
    ensures
        r is Ok <==> parses_as_rfc3339(at@),
        r is Ok ==> r->Ok_0@ == canonical_utc_rfc3339(at@),
{
    match at.parse::<chrono::DateTime<chrono::Utc>>() {
        Ok(dt) => Ok(dt.to_rfc3339()),
        Err(e) => Err(format!("Failed to parse timestamp {at} with error {e:?}")),
    }
}

/// No two attribute entries share a key: `data` is a mapping.
pub open spec fn keys_unique(pairs: Seq<(String, String)>) -> bool {
    forall|i: int, j: int|
        0 <= i < j < pairs.len() ==> pairs[i].0@ != pairs[j].0@
}

/// An immutable event payload, produced only by its builder. Once
/// built it is always valid to serialize: a present `event_at` is a
/// canonical UTC RFC 3339 string and the attribute keys are unique.
#[derive(Debug)]
pub struct SendEventRequest {
    pub name: String,
    pub user_id: String,
    pub event_at: Option<String>,
    pub data: Vec<(String, String)>,
}

impl SendEventRequest {
    /// Starts building an event with the two required identifiers.
    pub fn builder(name: String, user_id: String) -> (b: SendEventRequestBuilder)
        ensures
            b.name@ == name@,
            b.user_id@ == user_id@,
            b.event_at is None,
            b.data@ =~= Seq::<(String, String)>::empty(),
    {
        SendEventRequestBuilder::new(name, user_id)
    }
}

/// Staged construction of a [`SendEventRequest`]; consumed by `build`,
/// or discarded whole when a timestamp fails to parse.
#[derive(Debug)]
pub struct SendEventRequestBuilder {
    pub name: String,
    pub user_id: String,
    pub event_at: Option<String>,
    pub data: Vec<(String, String)>,
}

impl SendEventRequestBuilder {
    fn new(name: String, user_id: String) -> (b: Self)
        ensures
            b.name@ == name@,
            b.user_id@ == user_id@,
            b.event_at is None,
            b.data@ =~= Seq::<(String, String)>::empty(),
    {
        Self { name, user_id, event_at: None, data: Vec::new() }
    }

    /// Parses `at` as a date-time with offset and stores its canonical
    /// UTC RFC 3339 form; exactly the non-parsable strings are
    /// rejected, and rejection discards the builder, leaving no
    /// partially updated state behind.
    pub fn event_at(self, at: &str) -> (r: Result<Self, String>)
        ensures
            r is Ok <==> parses_as_rfc3339(at@),
            r is Ok ==> {
                let b = r->Ok_0;
                &&& b.event_at matches Some(t) && t@ == canonical_utc_rfc3339(at@)
                &&& b.name@ == self.name@
                &&& b.user_id@ == self.user_id@
                &&& b.data@ == self.data@
            },
    {
        match canonicalize_timestamp(at) {
            Ok(t) => Ok(Self { event_at: Some(t), ..self }),
            Err(e) => Err(e),
        }
    }

    /// Replaces the attribute mapping wholesale (no merge).
    pub fn data(self, data: Vec<(String, String)>) -> (b: Self)
        requires
            keys_unique(data@),
        ensures
            b.data@ == data@,
            b.name@ == self.name@,
            b.user_id@ == self.user_id@,
            b.event_at == self.event_at,
    {
        Self { data, ..self }
    }

    /// Yields the finished request; all four fields pass through
    /// unchanged, validation having already happened in `event_at`.
    pub fn build(self) -> (req: SendEventRequest)
        ensures
            req.name@ == self.name@,
            req.user_id@ == self.user_id@,
            req.event_at == self.event_at,
            req.data@ == self.data@,
    {
        SendEventRequest {
            name: self.name,
            user_id: self.user_id,
            event_at: self.event_at,
            data: self.data,
        }
    }
}

/// Decides [`keys_unique`] for a prospective attribute mapping, so an
/// unverified caller can establish `data`'s precondition.
pub fn keys_are_unique(pairs: &Vec<(String, String)>) -> (r: bool)
    ensures
        r == keys_unique(pairs@),
{
    let n = pairs.len();
    for i in 0..n
        invariant
            n == pairs@.len(),
            forall|p: int, q: int| 0 <= p < q < pairs@.len() && p < i ==> pairs@[p].0@ != pairs@[q].0@,
    {
        for j in (i + 1)..n
            invariant
                i < n == pairs@.len(),
                forall|p: int, q: int| 0 <= p < q < pairs@.len() && p < i ==> pairs@[p].0@ != pairs@[q].0@,
                forall|q: int| i < q < j ==> pairs@[i as int].0@ != pairs@[q].0@,
        {
            if pairs[i].0 == pairs[j].0 {
                return false;
            }
        }
    }
    true
}

} // verus!
