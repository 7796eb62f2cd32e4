//! Decoding of response bodies: a flat record for single-resource lookups and batch lookups,
//! an envelope with typed counters and loosely-typed documents for searches.
use vstd::prelude::*;

use serde_json::Value;

use crate::ResourceKind;

verus! {

/// `serde_json::Value`, carried through as an opaque value.
#[verifier::external_type_specification]
#[verifier::external_body]
pub struct ExValue(serde_json::Value);

/// The JSON value that `serde_json::from_slice` reads from `body`, `None` where it fails.
pub uninterp spec fn json_of(body: Seq<u8>) -> Option<Value>;

/// The member `key` of an object, as `serde_json::Value::get` finds it; `None` for a
/// missing key or a value that is no object.
pub uninterp spec fn member_of(v: Value, key: Seq<char>) -> Option<Value>;

/// What `serde_json::Value::as_u64` gives.
pub uninterp spec fn u64_of(v: Value) -> Option<u64>;

/// What `serde_json::Value::as_bool` gives.
pub uninterp spec fn bool_of(v: Value) -> Option<bool>;

/// What `serde_json::Value::as_str` gives.
pub uninterp spec fn str_of(v: Value) -> Option<Seq<char>>;

/// The items of an array, as `serde_json::Value::as_array` gives them.
pub uninterp spec fn items_of(v: Value) -> Option<Seq<Value>>;

/// What `serde_json::Value::is_object` gives.
pub uninterp spec fn is_object_of(v: Value) -> bool;

/// Relies on `serde_json::from_slice::<Value>`: reads one JSON document, or fails.
#[verifier::external_body]
fn parse_json(body: &[u8]) -> (r: Option<Value>)
    ensures
        r == json_of(body@),
{
    serde_json::from_slice::<Value>(body).ok()
}

/// Relies on `serde_json::Value::get` with a string key: the member of an object, if any.
#[verifier::external_body]
fn member(v: &Value, key: &str) -> (r: Option<Value>)
    ensures
        r == member_of(*v, key@),
{
    v.get(key).cloned()
}

/// Relies on `serde_json::Value::as_array`: the items of an array, in order.
#[verifier::external_body]
fn items(v: &Value) -> (r: Option<Vec<Value>>)
    ensures
        match r {
            Some(a) => items_of(*v) == Some(a@),
            None => items_of(*v) is None,
        },
{
    v.as_array().cloned()
}

/// Relies on `serde_json::Value::as_u64`: the number, where it is an unsigned integer.
pub assume_specification[ serde_json::Value::as_u64 ](v: &serde_json::Value) -> (r: Option<u64>)
    ensures
        r == u64_of(*v),
;

/// Relies on `serde_json::Value::as_bool`: the boolean, where the value is one.
pub assume_specification[ serde_json::Value::as_bool ](v: &serde_json::Value) -> (r: Option<bool>)
    ensures
        r == bool_of(*v),
;

/// Relies on `serde_json::Value::as_str`: the text, where the value is a string.
pub assume_specification[ serde_json::Value::as_str ](v: &serde_json::Value) -> (r: Option<&str>)
    ensures
        match r {
            Some(s) => str_of(*v) == Some(s@),
            None => str_of(*v) is None,
        },
;

/// Relies on `serde_json::Value::is_object`: whether the value is an object.
pub assume_specification[ serde_json::Value::is_object ](v: &serde_json::Value) -> (r: bool)
    ensures
        r == is_object_of(*v),
;

/// A response body that did not have the expected shape; it carries the body.
#[derive(Clone, Debug, PartialEq, Eq)]
pub struct DecodeError {
    pub body: Vec<u8>,
}

/// The typed counters of a list response, with its documents as loosely-typed records.
#[derive(Debug)]
pub struct Envelope {
    pub num_found: u64,
    pub start: u64,
    pub num_found_exact: bool,
    /// The query as the service echoes it, where it does.
    pub q: Option<String>,
    /// Each document is a JSON object; a field it lacks is simply absent.
    pub docs: Vec<Value>,
}

/// A decoded response.
#[derive(Debug)]
pub enum Response {
    /// The whole body as one JSON object.
    Record(Value),
    /// A list response.
    Envelope(Envelope),
}

/// The unsigned integer member `key` of `v`.
pub open spec fn member_u64(v: Value, key: Seq<char>) -> Option<u64> {
    match member_of(v, key) {
        Some(m) => u64_of(m),
        None => None,
    }
}

/// The boolean member `key` of `v`.
pub open spec fn member_bool(v: Value, key: Seq<char>) -> Option<bool> {
    match member_of(v, key) {
        Some(m) => bool_of(m),
        None => None,
    }
}

/// The string member `key` of `v`.
pub open spec fn member_str(v: Value, key: Seq<char>) -> Option<Seq<char>> {
    match member_of(v, key) {
        Some(m) => str_of(m),
        None => None,
    }
}

/// The array member `key` of `v`.
pub open spec fn member_items(v: Value, key: Seq<char>) -> Option<Seq<Value>> {
    match member_of(v, key) {
        Some(m) => items_of(m),
        None => None,
    }
}

/// Whether every item is a JSON object.
pub open spec fn all_objects(s: Seq<Value>) -> bool {
    forall|i: int| 0 <= i < s.len() ==> is_object_of(#[trigger] s[i])
}

/// Whether `v` has the shape of a list response: unsigned `numFound` and `start`, boolean
/// `numFoundExact`, and `docs`, an array of objects.
pub open spec fn envelope_shape(v: Value) -> bool {
    &&& member_u64(v, "numFound"@) is Some
    &&& member_u64(v, "start"@) is Some
    &&& member_bool(v, "numFoundExact"@) is Some
    &&& member_items(v, "docs"@) matches Some(d) && all_objects(d)
}

/// Whether `e` holds what the list response `v` holds.
pub open spec fn envelope_of(v: Value, e: Envelope) -> bool {
    &&& member_u64(v, "numFound"@) == Some(e.num_found)
    &&& member_u64(v, "start"@) == Some(e.start)
    &&& member_bool(v, "numFoundExact"@) == Some(e.num_found_exact)
    &&& member_str(v, "q"@) == (match e.q {
        Some(q) => Some(q@),
        None => None,
    })
    &&& member_items(v, "docs"@) == Some(e.docs@)
}

/// Decodes a body as one record: it must be a JSON object.
pub fn decode_flat(body: &Vec<u8>) -> (r: Result<Value, DecodeError>)
    ensures
        r is Ok <==> (json_of(body@) matches Some(v) && is_object_of(v)),
        r matches Ok(v) ==> json_of(body@) == Some(v),
        r matches Err(e) ==> e.body@ == body@,
{
    match parse_json(body.as_slice()) {
        Some(v) => {
            if v.is_object() {
                Ok(v)
            } else {
                Err(DecodeError { body: body.clone() })
            }
        },
        None => Err(DecodeError { body: body.clone() }),
    }
}

fn member_u64_exec(v: &Value, key: &str) -> (r: Option<u64>)
    ensures
        r == member_u64(*v, key@),
{
    match member(v, key) {
        Some(m) => m.as_u64(),
        None => None,
    }
}

/// Decodes a list response. Missing document fields stay missing; a body of another shape
/// is an error.
pub fn decode_envelope(body: &Vec<u8>) -> (r: Result<Envelope, DecodeError>)
    ensures
        r is Ok <==> (json_of(body@) matches Some(v) && envelope_shape(v)),
        r matches Ok(e) ==> (json_of(body@) matches Some(v) && envelope_of(v, e)),
        r matches Err(e) ==> e.body@ == body@,
{
    let v = match parse_json(body.as_slice()) {
        Some(v) => v,
        None => return Err(DecodeError { body: body.clone() }),
    };
    let num_found = match member_u64_exec(&v, "numFound") {
        Some(n) => n,
        None => return Err(DecodeError { body: body.clone() }),
    };
    let start = match member_u64_exec(&v, "start") {
        Some(n) => n,
        None => return Err(DecodeError { body: body.clone() }),
    };
    let num_found_exact = match member(&v, "numFoundExact") {
        Some(m) => match m.as_bool() {
            Some(b) => b,
            None => return Err(DecodeError { body: body.clone() }),
        },
        None => return Err(DecodeError { body: body.clone() }),
    };
    let docs = match member(&v, "docs") {
        Some(m) => match items(&m) {
            Some(d) => d,
            None => return Err(DecodeError { body: body.clone() }),
        },
        None => return Err(DecodeError { body: body.clone() }),
    };
    let mut i: usize = 0;
    while i < docs.len()
        invariant
            i <= docs@.len(),
            forall|j: int| 0 <= j < i ==> is_object_of(#[trigger] docs@[j]),
            member_items(v, "docs"@) == Some(docs@),
            json_of(body@) == Some(v),
        decreases docs@.len() - i,
    {
        if !docs[i].is_object() {
            assert(member_items(v, "docs"@) == Some(docs@));
            assert(!is_object_of(docs@[i as int]));
            return Err(DecodeError { body: body.clone() });
        }
        i = i + 1;
    }
    let q = match member(&v, "q") {
        Some(m) => match m.as_str() {
            Some(s) => Some(String::from_str(s)),
            None => None,
        },
        None => None,
    };
    Ok(Envelope { num_found, start, num_found_exact, q, docs })
}

} // verus!

verus! {

/// Whether responses of `kind` are decoded as list envelopes; all others are flat records.
pub open spec fn uses_envelope(kind: ResourceKind) -> bool {
    kind == ResourceKind::Search
}

/// Whether `r` is the outcome of decoding `body` for `kind`.
pub open spec fn decodes_as(kind: ResourceKind, body: Seq<u8>, r: Result<Response, DecodeError>) -> bool {
    if uses_envelope(kind) {
        &&& (r is Ok <==> (json_of(body) matches Some(v) && envelope_shape(v)))
        &&& (r matches Ok(x) ==> (x matches Response::Envelope(e) && json_of(body) matches Some(v)
            && envelope_of(v, e)))
        &&& (r matches Err(e) ==> e.body@ == body)
    } else {
        &&& (r is Ok <==> (json_of(body) matches Some(v) && is_object_of(v)))
        &&& (r matches Ok(x) ==> (x matches Response::Record(v) && json_of(body) == Some(v)))
        &&& (r matches Err(e) ==> e.body@ == body)
    }
}

/// Decodes a body by the strategy of its resource kind.
pub fn decode(kind: ResourceKind, body: &Vec<u8>) -> (r: Result<Response, DecodeError>)
    ensures
        decodes_as(kind, body@, r),
{
    match kind {
        ResourceKind::Search => match decode_envelope(body) {
            Ok(e) => Ok(Response::Envelope(e)),
            Err(e) => Err(e),
        },
        _ => match decode_flat(body) {
            Ok(v) => Ok(Response::Record(v)),
            Err(e) => Err(e),
        },
    }
}

} // verus!
