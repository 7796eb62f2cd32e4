//! Client-side request construction and response decoding for the Open Library web API.
//!
//! Each resource family (books, authors, subjects, search) has a parameter set built by a
//! builder, a pure resolver from the parameter set to a path and an ordered query, and a
//! decoding strategy for the response body. The transport itself is supplied by the caller.
use vstd::prelude::*;

pub mod text;
pub mod dispatch;
pub mod books;
pub mod authors;
pub mod subject;
pub mod search;
pub mod decode;
pub mod goodreads;

use crate::dispatch::{pairs_view, parse_with_params, url_outcome, url_with_params_of, TransportError};

verus! {

/// The public root of the service.
pub const OPENLIBRARY_HOST: &'static str = "https://openlibrary.org";

/// The resource kinds that a request can address.
#[derive(Clone, Copy, Debug, PartialEq, Eq, Structural)]
pub enum ResourceKind {
    BookByWorkId,
    BookByEditionId,
    BookByIsbn,
    BookBatchLookup,
    AuthorProfile,
    AuthorWorks,
    Subject,
    Search,
}

/// A parameter set could not be built.
#[derive(Clone, Debug, PartialEq, Eq)]
pub enum BuildError {
    /// A field without a default was never set; the text names it.
    MissingRequiredField(String),
}

/// The error that `build` gives for the field named `name`.
pub open spec fn missing(e: BuildError, name: Seq<char>) -> bool {
    e matches BuildError::MissingRequiredField(f) && f@ == name
}

/// A parameter set that resolves to a path and an ordered query.
pub trait OpenlibraryRequest {
    spec fn kind_spec(&self) -> ResourceKind;

    spec fn path_spec(&self) -> Seq<char>;

    spec fn query_spec(&self) -> Seq<(Seq<char>, Seq<char>)>;

    /// The resource kind this parameter set addresses.
    fn kind(&self) -> (r: ResourceKind)
        ensures
            r == self.kind_spec(),
    ;

    /// The path of the resource, relative to the host.
    fn path(&self) -> (r: String)
        ensures
            r@ == self.path_spec(),
    ;

    /// The query parameters, in the order in which they are sent.
    fn query(&self) -> (r: Vec<(&'static str, String)>)
        ensures
            pairs_view(r@) == self.query_spec(),
    ;

    /// The absolute URL of the request against `host`, with each query value encoded.
    fn url(&self, host: &str) -> (r: Result<String, TransportError>)
        ensures
            url_outcome(r) == url_with_params_of(host@ + self.path_spec(), self.query_spec()),
    {
        let mut base = String::from_str(host);
        let path = self.path();
        base.append(path.as_str());
        let query = self.query();
        match parse_with_params(base.as_str(), &query) {
            Some(u) => Ok(u),
            None => Err(TransportError::InvalidUrl),
        }
    }
}

/// Resolution is a function of the parameter set alone: two equal parameter sets resolve to
/// the same path, the same query and the same URL against any one host.
pub proof fn lemma_resolve_deterministic<R: OpenlibraryRequest>(a: R, b: R, host: Seq<char>)
    requires
        a == b,
    ensures
        a.path_spec() == b.path_spec(),
        a.query_spec() == b.query_spec(),
        url_with_params_of(host + a.path_spec(), a.query_spec())
            == url_with_params_of(host + b.path_spec(), b.query_spec()),
{
}

} // verus!
