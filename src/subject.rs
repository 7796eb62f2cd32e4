//! Subject lookups.
use vstd::prelude::*;

use crate::dispatch::{has_key, pairs_view};
use crate::text::{bool_string, bool_text, decimal, decimal_string};
use crate::{missing, BuildError, OpenlibraryRequest, ResourceKind};

verus! {

/// A lookup of one subject, with optional filters.
#[derive(Clone, Debug)]
pub struct Subjects {
    pub subject: String,
    pub details: bool,
    pub ebooks: bool,
    /// A year range such as `1500-1600`; `None` sends no filter.
    pub published_in: Option<String>,
    pub limit: u32,
    pub offset: u32,
}

/// The optional `published_in` pair, absent when the filter is unset.
pub open spec fn published_in_pair(p: Option<String>) -> Seq<(Seq<char>, Seq<char>)> {
    match p {
        Some(y) => seq![("published_in"@, y@)],
        None => Seq::empty(),
    }
}

impl OpenlibraryRequest for Subjects {
    open spec fn kind_spec(&self) -> ResourceKind {
        ResourceKind::Subject
    }

    open spec fn path_spec(&self) -> Seq<char> {
        "/subjects/"@ + self.subject@ + ".json"@
    }

    open spec fn query_spec(&self) -> Seq<(Seq<char>, Seq<char>)> {
        seq![("details"@, bool_text(self.details)), ("ebooks"@, bool_text(self.ebooks))]
            + published_in_pair(self.published_in)
            + seq![("limit"@, decimal(self.limit as nat)), ("offset"@, decimal(self.offset as nat))]
    }

    fn kind(&self) -> (r: ResourceKind) {
        ResourceKind::Subject
    }

    fn path(&self) -> (r: String) {
        let mut p = String::from_str("/subjects/");
        p.append(self.subject.as_str());
        p.append(".json");
        p
    }

    fn query(&self) -> (r: Vec<(&'static str, String)>) {
        let mut r: Vec<(&'static str, String)> = Vec::new();
        r.push(("details", bool_string(self.details)));
        r.push(("ebooks", bool_string(self.ebooks)));
        match &self.published_in {
            Some(y) => r.push(("published_in", y.clone())),
            None => {},
        }
        r.push(("limit", decimal_string(self.limit)));
        r.push(("offset", decimal_string(self.offset)));
        assert(pairs_view(r@) =~= self.query_spec());
        r
    }
}

/// Accumulates the fields of a [`Subjects`].
#[derive(Clone, Debug)]
pub struct SubjectsBuilder {
    pub subject: Option<String>,
    pub details: Option<bool>,
    pub ebooks: Option<bool>,
    pub published_in: Option<String>,
    pub limit: Option<u32>,
    pub offset: Option<u32>,
}

impl Default for SubjectsBuilder {
    fn default() -> (r: Self)
        ensures
            r.subject is None,
            r.details is None,
            r.ebooks is None,
            r.published_in is None,
            r.limit is None,
            r.offset is None,
    {
        SubjectsBuilder {
            subject: None,
            details: None,
            ebooks: None,
            published_in: None,
            limit: None,
            offset: None,
        }
    }
}

impl SubjectsBuilder {
    /// Sets the subject name; the last value set wins.
    pub fn subject(self, value: &str) -> (r: Self)
        ensures
            r == (SubjectsBuilder { subject: r.subject, ..self }),
            r.subject matches Some(s) && s@ == value@,
    {
        SubjectsBuilder { subject: Some(String::from_str(value)), ..self }
    }

    /// Asks for details; the last value set wins.
    pub fn details(self, value: bool) -> (r: Self)
        ensures
            r == (SubjectsBuilder { details: Some(value), ..self }),
    {
        SubjectsBuilder { details: Some(value), ..self }
    }

    /// Restricts to works with e-books; the last value set wins.
    pub fn ebooks(self, value: bool) -> (r: Self)
        ensures
            r == (SubjectsBuilder { ebooks: Some(value), ..self }),
    {
        SubjectsBuilder { ebooks: Some(value), ..self }
    }

    /// Sets the year range filter; the last value set wins.
    pub fn published_in(self, value: &str) -> (r: Self)
        ensures
            r == (SubjectsBuilder { published_in: r.published_in, ..self }),
            r.published_in matches Some(s) && s@ == value@,
    {
        SubjectsBuilder { published_in: Some(String::from_str(value)), ..self }
    }

    /// Sets the number of works returned; 0 leaves it to the service.
    pub fn limit(self, value: u32) -> (r: Self)
        ensures
            r == (SubjectsBuilder { limit: Some(value), ..self }),
    {
        SubjectsBuilder { limit: Some(value), ..self }
    }

    /// Sets the number of works to skip.
    pub fn offset(self, value: u32) -> (r: Self)
        ensures
            r == (SubjectsBuilder { offset: Some(value), ..self }),
    {
        SubjectsBuilder { offset: Some(value), ..self }
    }

    /// Builds the lookup. The subject is required; the flags default to false, the year
    /// range to none, the limit to 10 and the offset to 0.
    pub fn build(&self) -> (r: Result<Subjects, BuildError>)
        ensures
            r is Ok <==> self.subject is Some,
            r matches Ok(s) ==> {
                &&& s.subject@ == self.subject->Some_0@
                &&& s.details == (match self.details {
                    Some(d) => d,
                    None => false,
                })
                &&& s.ebooks == (match self.ebooks {
                    Some(e) => e,
                    None => false,
                })
                &&& (s.published_in is Some <==> self.published_in is Some)
                &&& (s.published_in matches Some(y) ==> y@ == self.published_in->Some_0@)
                &&& s.limit == (match self.limit {
                    Some(l) => l,
                    None => 10u32,
                })
                &&& s.offset == (match self.offset {
                    Some(o) => o,
                    None => 0u32,
                })
            },
            r matches Err(e) ==> missing(e, "subject"@),
    {
        match &self.subject {
            Some(subject) => Ok(Subjects {
                subject: subject.clone(),
                details: match self.details {
                    Some(d) => d,
                    None => false,
                },
                ebooks: match self.ebooks {
                    Some(e) => e,
                    None => false,
                },
                published_in: match &self.published_in {
                    Some(y) => Some(y.clone()),
                    None => None,
                },
                limit: match self.limit {
                    Some(l) => l,
                    None => 10,
                },
                offset: match self.offset {
                    Some(o) => o,
                    None => 0,
                },
            }),
            None => Err(BuildError::MissingRequiredField(String::from_str("subject"))),
        }
    }
}

/// An unset year range sends no `published_in` key; a set one sends it as given.
pub proof fn lemma_published_in_omitted(s: Subjects)
    ensures
        s.published_in is None ==> !has_key(s.query_spec(), "published_in"@),
        s.published_in matches Some(y) ==> s.query_spec().contains(("published_in"@, y@)),
{
    reveal_strlit("published_in");
    reveal_strlit("details");
    reveal_strlit("ebooks");
    reveal_strlit("limit");
    reveal_strlit("offset");
    let q = s.query_spec();
    assert("published_in"@.len() == 12 && "details"@.len() == 7 && "ebooks"@.len() == 6);
    assert("limit"@.len() == 5 && "offset"@.len() == 6);
    if s.published_in is None {
        assert(published_in_pair(s.published_in) =~= Seq::empty());
        assert forall|i: int| 0 <= i < q.len() implies (#[trigger] q[i]).0 != "published_in"@ by {
            if i == 0 {
                assert(q[i].0 == "details"@);
            } else if i == 1 {
                assert(q[i].0 == "ebooks"@);
            } else if i == 2 {
                assert(q[i].0 == "limit"@);
            } else {
                assert(q[i].0 == "offset"@);
            }
        }
    } else {
        assert(q[2] == ("published_in"@, s.published_in->Some_0@));
    }
}

} // verus!
