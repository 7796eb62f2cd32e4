//! The parts of dispatching a request that need no network: building the absolute URL and
//! classifying the transport's answer.
use vstd::prelude::*;

use crate::decode::{decode, decodes_as, DecodeError, Response};
use crate::ResourceKind;

verus! {

/// A failure to obtain a response body.
#[derive(Clone, Debug, PartialEq, Eq)]
pub enum TransportError {
    /// The host and path do not form a valid absolute URL.
    InvalidUrl,
    /// The service answered with a status outside 200..=299.
    Status(u16),
    /// The transport failed before a status was received; the text describes the failure.
    Network(String),
}

/// The character sequences of an ordered query.
pub open spec fn pairs_view(q: Seq<(&'static str, String)>) -> Seq<(Seq<char>, Seq<char>)> {
    q.map_values(|p: (&'static str, String)| (p.0@, p.1@))
}

/// Whether some pair of `query` has the key `key`.
pub open spec fn has_key(query: Seq<(Seq<char>, Seq<char>)>, key: Seq<char>) -> bool {
    exists|i: int| 0 <= i < query.len() && (#[trigger] query[i]).0 == key
}

/// The URL that `url::Url::parse_with_params` gives for a base and an ordered query, or `None`
/// where the base does not parse.
pub uninterp spec fn url_with_params_of(
    base: Seq<char>,
    params: Seq<(Seq<char>, Seq<char>)>,
) -> Option<Seq<char>>;

/// The URL of a successful build, `None` for a failed one.
pub open spec fn url_outcome(r: Result<String, TransportError>) -> Option<Seq<char>> {
    match r {
        Ok(u) => Some(u@),
        Err(_) => None,
    }
}

/// Relies on `url::Url::parse_with_params` (re-exported by reqwest): it parses `base` and
/// appends the pairs, form-encoded, in order; the outcome depends on its arguments alone.
#[verifier::external_body]
pub(crate) fn parse_with_params(base: &str, params: &Vec<(&'static str, String)>) -> (r: Option<String>)
    ensures
        r matches Some(u) ==> url_with_params_of(base@, pairs_view(params@)) == Some(u@),
        r is None ==> url_with_params_of(base@, pairs_view(params@)) is None,
{
    reqwest::Url::parse_with_params(base, params.iter()).ok().map(|u| u.to_string())
}

/// Whether a status code is a success.
pub open spec fn is_success(status: u16) -> bool {
    200 <= status <= 299
}

/// Hands on the body of a successful answer; any other status is a transport error.
pub fn check_status(status: u16, body: Vec<u8>) -> (r: Result<Vec<u8>, TransportError>)
    ensures
        is_success(status) ==> r == Ok::<Vec<u8>, TransportError>(body),
        !is_success(status) ==> r == Err::<Vec<u8>, TransportError>(TransportError::Status(status)),
{
    if 200 <= status && status <= 299 {
        Ok(body)
    } else {
        Err(TransportError::Status(status))
    }
}

/// Why a dispatched request gave no decoded response.
#[derive(Clone, Debug, PartialEq, Eq)]
pub enum RequestError {
    Transport(TransportError),
    Decode(DecodeError),
}

/// Turns the transport's answer to a request of `kind` into its outcome: a status outside
/// 200..=299 is a transport error and nothing is decoded; a success is decoded by the
/// strategy of the kind.
pub fn respond(kind: ResourceKind, status: u16, body: Vec<u8>) -> (r: Result<Response, RequestError>)
    ensures
        !is_success(status) ==> (r matches Err(RequestError::Transport(TransportError::Status(s))) && s == status),
        is_success(status) ==> match r {
            Ok(x) => decodes_as(kind, body@, Ok(x)),
            Err(RequestError::Decode(e)) => decodes_as(kind, body@, Err(e)),
            Err(RequestError::Transport(_)) => false,
        },
{
    match check_status(status, body) {
        Ok(bytes) => match decode(kind, &bytes) {
            Ok(x) => Ok(x),
            Err(e) => Err(RequestError::Decode(e)),
        },
        Err(e) => Err(RequestError::Transport(e)),
    }
}

} // verus!
