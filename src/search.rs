//! Full-text search over books, authors, subjects or lists.
use vstd::prelude::*;

use crate::dispatch::{has_key, pairs_view};
use crate::text::{decimal, decimal_string, join, join_strings, strings_view};
use crate::{OpenlibraryRequest, ResourceKind};

verus! {

/// What a search looks through.
#[derive(Clone, Copy, Debug, PartialEq, Eq, Structural)]
pub enum SearchType {
    Books,
    Authors,
    Subjects,
    Lists,
}

impl SearchType {
    /// The segment that follows `/search` in the path.
    pub open spec fn suffix_spec(self) -> Seq<char> {
        match self {
            SearchType::Books => ""@,
            SearchType::Authors => "/authors"@,
            SearchType::Subjects => "/subjects"@,
            SearchType::Lists => "/lists"@,
        }
    }

    /// The segment that follows `/search` in the path.
    pub fn suffix(&self) -> (r: &'static str)
        ensures
            r@ == self.suffix_spec(),
    {
        match self {
            SearchType::Books => "",
            SearchType::Authors => "/authors",
            SearchType::Subjects => "/subjects",
            SearchType::Lists => "/lists",
        }
    }
}

/// A search request.
#[derive(Clone, Debug)]
pub struct Search {
    /// The free-text query; `None` sends no `q` key.
    pub query: Option<String>,
    pub search_type: SearchType,
    pub page: u32,
    pub limit: u32,
    /// The fields to return; empty asks for all and sends no `fields` key.
    pub fields: Vec<String>,
}

/// The optional `q` pair, absent when no query is set.
pub open spec fn q_pair(q: Option<String>) -> Seq<(Seq<char>, Seq<char>)> {
    match q {
        Some(s) => seq![("q"@, s@)],
        None => Seq::empty(),
    }
}

/// The optional `fields` pair, absent when no field is named.
pub open spec fn fields_pair(fields: Seq<String>) -> Seq<(Seq<char>, Seq<char>)> {
    if fields.len() == 0 {
        Seq::empty()
    } else {
        seq![("fields"@, join(strings_view(fields), ","@))]
    }
}

impl OpenlibraryRequest for Search {
    open spec fn kind_spec(&self) -> ResourceKind {
        ResourceKind::Search
    }

    open spec fn path_spec(&self) -> Seq<char> {
        "/search"@ + self.search_type.suffix_spec() + ".json"@
    }

    open spec fn query_spec(&self) -> Seq<(Seq<char>, Seq<char>)> {
        seq![("page"@, decimal(self.page as nat)), ("limit"@, decimal(self.limit as nat))]
            + q_pair(self.query)
            + fields_pair(self.fields@)
    }

    fn kind(&self) -> (r: ResourceKind) {
        ResourceKind::Search
    }

    fn path(&self) -> (r: String) {
        let mut p = String::from_str("/search");
        p.append(self.search_type.suffix());
        p.append(".json");
        p
    }

    fn query(&self) -> (r: Vec<(&'static str, String)>) {
        let mut r: Vec<(&'static str, String)> = Vec::new();
        r.push(("page", decimal_string(self.page)));
        r.push(("limit", decimal_string(self.limit)));
        match &self.query {
            Some(q) => r.push(("q", q.clone())),
            None => {},
        }
        if self.fields.len() > 0 {
            r.push(("fields", join_strings(&self.fields, ",")));
        }
        assert(pairs_view(r@) =~= self.query_spec());
        r
    }
}

/// Accumulates the fields of a [`Search`].
#[derive(Clone, Debug)]
pub struct SearchBuilder {
    pub query: Option<String>,
    pub search_type: Option<SearchType>,
    pub page: Option<u32>,
    pub limit: Option<u32>,
    pub fields: Option<Vec<String>>,
}

impl Default for SearchBuilder {
    fn default() -> (r: Self)
        ensures
            r.query is None,
            r.search_type is None,
            r.page is None,
            r.limit is None,
            r.fields is None,
    {
        SearchBuilder { query: None, search_type: None, page: None, limit: None, fields: None }
    }
}

impl SearchBuilder {
    /// Sets the free-text query; the last value set wins.
    pub fn query(self, value: &str) -> (r: Self)
        ensures
            r == (SearchBuilder { query: r.query, ..self }),
            r.query matches Some(s) && s@ == value@,
    {
        SearchBuilder { query: Some(String::from_str(value)), ..self }
    }

    /// Sets what the search looks through; the last value set wins.
    pub fn search_type(self, value: SearchType) -> (r: Self)
        ensures
            r == (SearchBuilder { search_type: Some(value), ..self }),
    {
        SearchBuilder { search_type: Some(value), ..self }
    }

    /// Sets the page, counted from 1; the last value set wins.
    pub fn page(self, value: u32) -> (r: Self)
        ensures
            r == (SearchBuilder { page: Some(value), ..self }),
    {
        SearchBuilder { page: Some(value), ..self }
    }

    /// Sets the number of results per page; 0 leaves it to the service.
    pub fn limit(self, value: u32) -> (r: Self)
        ensures
            r == (SearchBuilder { limit: Some(value), ..self }),
    {
        SearchBuilder { limit: Some(value), ..self }
    }

    /// Sets the fields to return, in order; the last value set wins.
    pub fn fields(self, value: Vec<String>) -> (r: Self)
        ensures
            r == (SearchBuilder { fields: Some(value), ..self }),
    {
        SearchBuilder { fields: Some(value), ..self }
    }

    /// Builds the search. Nothing is required: the query defaults to none, the type to
    /// books, the page to 1, the limit to 10 and the fields to none.
    pub fn build(&self) -> (r: Result<Search, crate::BuildError>)
        ensures
            r matches Ok(s) && {
                &&& (s.query is Some <==> self.query is Some)
                &&& (s.query matches Some(q) ==> q@ == self.query->Some_0@)
                &&& s.search_type == (match self.search_type {
                    Some(t) => t,
                    None => SearchType::Books,
                })
                &&& s.page == (match self.page {
                    Some(p) => p,
                    None => 1u32,
                })
                &&& s.limit == (match self.limit {
                    Some(l) => l,
                    None => 10u32,
                })
                &&& strings_view(s.fields@) == (match self.fields {
                    Some(f) => strings_view(f@),
                    None => Seq::empty(),
                })
            },
    {
        let fields = match &self.fields {
            Some(f) => {
                let c = f.clone();
                assert(strings_view(c@) =~= strings_view(f@));
                c
            },
            None => {
                let e: Vec<String> = Vec::new();
                assert(strings_view(e@) =~= Seq::empty());
                e
            },
        };
        Ok(Search {
            query: match &self.query {
                Some(q) => Some(q.clone()),
                None => None,
            },
            search_type: match self.search_type {
                Some(t) => t,
                None => SearchType::Books,
            },
            page: match self.page {
                Some(p) => p,
                None => 1,
            },
            limit: match self.limit {
                Some(l) => l,
                None => 10,
            },
            fields,
        })
    }
}

/// An empty field list sends no `fields` key; a list of one field `f` sends `fields=f`.
pub proof fn lemma_fields_omitted(s: Search)
    ensures
        s.fields@.len() == 0 ==> !has_key(s.query_spec(), "fields"@),
        s.fields@.len() == 1 ==> s.query_spec().contains(("fields"@, s.fields@[0]@)),
{
    reveal_strlit("fields");
    reveal_strlit("page");
    reveal_strlit("limit");
    reveal_strlit("q");
    let q = s.query_spec();
    if s.fields@.len() == 0 {
        assert(fields_pair(s.fields@) =~= Seq::empty());
        assert("fields"@.len() == 6 && "page"@.len() == 4 && "limit"@.len() == 5 && "q"@.len() == 1);
        assert forall|i: int| 0 <= i < q.len() implies (#[trigger] q[i]).0 != "fields"@ by {
            if i >= 2 {
                assert(q[i] == q_pair(s.query)[i - 2]);
            } else if i == 0 {
                assert(q[i].0 == "page"@);
            } else {
                assert(q[i].0 == "limit"@);
            }
        }
    }
    if s.fields@.len() == 1 {
        assert(strings_view(s.fields@) =~= seq![s.fields@[0]@]);
        assert(q[q.len() - 1] == ("fields"@, s.fields@[0]@));
    }
}

/// An unset query sends no `q` key; a set one sends it as given.
pub proof fn lemma_query_omitted(s: Search)
    ensures
        s.query is None ==> !has_key(s.query_spec(), "q"@),
        s.query matches Some(t) ==> s.query_spec().contains(("q"@, t@)),
{
    reveal_strlit("fields");
    reveal_strlit("page");
    reveal_strlit("limit");
    reveal_strlit("q");
    let q = s.query_spec();
    if s.query is None {
        assert(q_pair(s.query) =~= Seq::empty());
        assert("fields"@.len() == 6 && "page"@.len() == 4 && "limit"@.len() == 5 && "q"@.len() == 1);
        assert forall|i: int| 0 <= i < q.len() implies (#[trigger] q[i]).0 != "q"@ by {
            if i >= 2 {
                assert(q[i] == fields_pair(s.fields@)[i - 2]);
            } else if i == 0 {
                assert(q[i].0 == "page"@);
            } else {
                assert(q[i].0 == "limit"@);
            }
        }
    } else {
        assert(q[2] == ("q"@, s.query->Some_0@));
    }
}

} // verus!
