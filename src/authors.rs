//! Author lookups: an author's profile, or the list of an author's works.
use vstd::prelude::*;

use crate::dispatch::pairs_view;
use crate::text::{decimal, decimal_string};
use crate::{missing, BuildError, OpenlibraryRequest, ResourceKind};

verus! {

/// What an author lookup returns.
#[derive(Clone, Copy, Debug, PartialEq, Eq, Structural)]
pub enum AuthorsType {
    /// The author's profile.
    Data,
    /// The author's works, a page at a time.
    Works,
}

/// A lookup of one author, by identifier.
#[derive(Clone, Debug)]
pub struct Authors {
    pub id: String,
    pub authors_type: AuthorsType,
    pub limit: u32,
    pub offset: u32,
}

impl OpenlibraryRequest for Authors {
    open spec fn kind_spec(&self) -> ResourceKind {
        match self.authors_type {
            AuthorsType::Data => ResourceKind::AuthorProfile,
            AuthorsType::Works => ResourceKind::AuthorWorks,
        }
    }

    open spec fn path_spec(&self) -> Seq<char> {
        match self.authors_type {
            AuthorsType::Data => "/authors/"@ + self.id@ + ".json"@,
            AuthorsType::Works => "/authors/"@ + self.id@ + "/works.json"@,
        }
    }

    open spec fn query_spec(&self) -> Seq<(Seq<char>, Seq<char>)> {
        seq![("limit"@, decimal(self.limit as nat)), ("offset"@, decimal(self.offset as nat))]
    }

    fn kind(&self) -> (r: ResourceKind) {
        match self.authors_type {
            AuthorsType::Data => ResourceKind::AuthorProfile,
            AuthorsType::Works => ResourceKind::AuthorWorks,
        }
    }

    fn path(&self) -> (r: String) {
        let mut p = String::from_str("/authors/");
        p.append(self.id.as_str());
        match self.authors_type {
            AuthorsType::Data => p.append(".json"),
            AuthorsType::Works => p.append("/works.json"),
        }
        p
    }

    fn query(&self) -> (r: Vec<(&'static str, String)>) {
        let mut r: Vec<(&'static str, String)> = Vec::new();
        r.push(("limit", decimal_string(self.limit)));
        r.push(("offset", decimal_string(self.offset)));
        assert(pairs_view(r@) =~= self.query_spec());
        r
    }
}

/// Accumulates the fields of an [`Authors`].
#[derive(Clone, Debug)]
pub struct AuthorsBuilder {
    pub id: Option<String>,
    pub authors_type: Option<AuthorsType>,
    pub limit: Option<u32>,
    pub offset: Option<u32>,
}

impl Default for AuthorsBuilder {
    fn default() -> (r: Self)
        ensures
            r.id is None,
            r.authors_type is None,
            r.limit is None,
            r.offset is None,
    {
        AuthorsBuilder { id: None, authors_type: None, limit: None, offset: None }
    }
}

impl AuthorsBuilder {
    /// Sets the author identifier; the last value set wins.
    pub fn id(self, value: &str) -> (r: Self)
        ensures
            r.id matches Some(s) && s@ == value@,
            r.authors_type == self.authors_type,
            r.limit == self.limit,
            r.offset == self.offset,
    {
        AuthorsBuilder { id: Some(String::from_str(value)), ..self }
    }

    /// Sets what the lookup returns; the last value set wins.
    pub fn authors_type(self, value: AuthorsType) -> (r: Self)
        ensures
            r.id == self.id,
            r.authors_type == Some(value),
            r.limit == self.limit,
            r.offset == self.offset,
    {
        AuthorsBuilder { authors_type: Some(value), ..self }
    }

    /// Sets the number of works per page; 0 leaves it to the service.
    pub fn limit(self, value: u32) -> (r: Self)
        ensures
            r.id == self.id,
            r.authors_type == self.authors_type,
            r.limit == Some(value),
            r.offset == self.offset,
    {
        AuthorsBuilder { limit: Some(value), ..self }
    }

    /// Sets the number of works to skip.
    pub fn offset(self, value: u32) -> (r: Self)
        ensures
            r.id == self.id,
            r.authors_type == self.authors_type,
            r.limit == self.limit,
            r.offset == Some(value),
    {
        AuthorsBuilder { offset: Some(value), ..self }
    }

    /// Builds the lookup. The identifier is required; the rest default to a profile lookup,
    /// a limit of 10 and an offset of 0.
    pub fn build(&self) -> (r: Result<Authors, BuildError>)
        ensures
            r is Ok <==> self.id is Some,
            r matches Ok(a) ==> {
                &&& a.id@ == self.id->Some_0@
                &&& a.authors_type == (match self.authors_type {
                    Some(t) => t,
                    None => AuthorsType::Data,
                })
                &&& a.limit == (match self.limit {
                    Some(l) => l,
                    None => 10u32,
                })
                &&& a.offset == (match self.offset {
                    Some(o) => o,
                    None => 0u32,
                })
            },
            r matches Err(e) ==> missing(e, "id"@),
    {
        match &self.id {
            Some(id) => Ok(Authors {
                id: id.clone(),
                authors_type: match self.authors_type {
                    Some(t) => t,
                    None => AuthorsType::Data,
                },
                limit: match self.limit {
                    Some(l) => l,
                    None => 10,
                },
                offset: match self.offset {
                    Some(o) => o,
                    None => 0,
                },
            }),
            None => Err(BuildError::MissingRequiredField(String::from_str("id"))),
        }
    }
}

} // verus!
