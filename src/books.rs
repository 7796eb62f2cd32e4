//! Book lookups: one book by work, edition or ISBN identifier, and a batch lookup by
//! scheme-prefixed keys.
use vstd::prelude::*;

use crate::dispatch::pairs_view;
use crate::text::{join, join_strings, strings_view};
use crate::{missing, BuildError, OpenlibraryRequest, ResourceKind};

verus! {

/// The identifier scheme of a single-book lookup.
#[derive(Clone, Copy, Debug, PartialEq, Eq, Structural)]
pub enum BookType {
    Works,
    Editions,
    ISBN,
}

impl BookType {
    /// The path prefix of the scheme.
    pub open spec fn prefix_spec(self) -> Seq<char> {
        match self {
            BookType::Works => "/works"@,
            BookType::Editions => "/books"@,
            BookType::ISBN => "/isbn"@,
        }
    }

    /// The resource kind of a lookup under the scheme.
    pub open spec fn kind_spec(self) -> ResourceKind {
        match self {
            BookType::Works => ResourceKind::BookByWorkId,
            BookType::Editions => ResourceKind::BookByEditionId,
            BookType::ISBN => ResourceKind::BookByIsbn,
        }
    }

    /// The path prefix of the scheme.
    pub fn prefix(&self) -> (r: &'static str)
        ensures
            r@ == self.prefix_spec(),
    {
        match self {
            BookType::Works => "/works",
            BookType::Editions => "/books",
            BookType::ISBN => "/isbn",
        }
    }
}

/// A lookup of one book by identifier.
#[derive(Clone, Debug)]
pub struct Books {
    pub book_type: BookType,
    pub id: String,
}

impl OpenlibraryRequest for Books {
    open spec fn kind_spec(&self) -> ResourceKind {
        self.book_type.kind_spec()
    }

    open spec fn path_spec(&self) -> Seq<char> {
        self.book_type.prefix_spec() + "/"@ + self.id@ + ".json"@
    }

    open spec fn query_spec(&self) -> Seq<(Seq<char>, Seq<char>)> {
        Seq::empty()
    }

    fn kind(&self) -> (r: ResourceKind) {
        match self.book_type {
            BookType::Works => ResourceKind::BookByWorkId,
            BookType::Editions => ResourceKind::BookByEditionId,
            BookType::ISBN => ResourceKind::BookByIsbn,
        }
    }

    fn path(&self) -> (r: String) {
        let mut p = String::from_str(self.book_type.prefix());
        p.append("/");
        p.append(self.id.as_str());
        p.append(".json");
        p
    }

    fn query(&self) -> (r: Vec<(&'static str, String)>) {
        let r: Vec<(&'static str, String)> = Vec::new();
        assert(pairs_view(r@) =~= Seq::empty());
        r
    }
}

/// Accumulates the fields of a [`Books`].
#[derive(Clone, Debug)]
pub struct BooksBuilder {
    pub book_type: Option<BookType>,
    pub id: Option<String>,
}

impl Default for BooksBuilder {
    fn default() -> (r: Self)
        ensures
            r.book_type is None,
            r.id is None,
    {
        BooksBuilder { book_type: None, id: None }
    }
}

impl BooksBuilder {
    /// Sets the identifier scheme; the last value set wins.
    pub fn book_type(self, value: BookType) -> (r: Self)
        ensures
            r.book_type == Some(value),
            r.id == self.id,
    {
        BooksBuilder { book_type: Some(value), ..self }
    }

    /// Sets the identifier; the last value set wins.
    pub fn id(self, value: &str) -> (r: Self)
        ensures
            r.book_type == self.book_type,
            r.id matches Some(s) && s@ == value@,
    {
        BooksBuilder { id: Some(String::from_str(value)), ..self }
    }

    /// Builds the lookup. The scheme defaults to works; the identifier is required.
    pub fn build(&self) -> (r: Result<Books, BuildError>)
        ensures
            r is Ok <==> self.id is Some,
            r matches Ok(b) ==> b.id@ == self.id->Some_0@ && b.book_type == (match self.book_type {
                Some(t) => t,
                None => BookType::Works,
            }),
            r matches Err(e) ==> missing(e, "id"@),
    {
        let book_type = match self.book_type {
            Some(t) => t,
            None => BookType::Works,
        };
        match &self.id {
            Some(id) => Ok(Books { book_type, id: id.clone() }),
            None => Err(BuildError::MissingRequiredField(String::from_str("id"))),
        }
    }
}

/// A lookup of several books at once, keyed by scheme-prefixed identifiers such as
/// `ISBN:0201558025`.
#[derive(Clone, Debug)]
pub struct BooksGeneric {
    pub bibkeys: Vec<String>,
    pub jscmd: String,
}

impl OpenlibraryRequest for BooksGeneric {
    open spec fn kind_spec(&self) -> ResourceKind {
        ResourceKind::BookBatchLookup
    }

    open spec fn path_spec(&self) -> Seq<char> {
        "/api/books"@
    }

    open spec fn query_spec(&self) -> Seq<(Seq<char>, Seq<char>)> {
        seq![
            ("format"@, "json"@),
            ("bibkeys"@, join(strings_view(self.bibkeys@), ","@)),
            ("jscmd"@, self.jscmd@),
        ]
    }

    fn kind(&self) -> (r: ResourceKind) {
        ResourceKind::BookBatchLookup
    }

    fn path(&self) -> (r: String) {
        String::from_str("/api/books")
    }

    fn query(&self) -> (r: Vec<(&'static str, String)>) {
        let mut r: Vec<(&'static str, String)> = Vec::new();
        r.push(("format", String::from_str("json")));
        r.push(("bibkeys", join_strings(&self.bibkeys, ",")));
        r.push(("jscmd", self.jscmd.clone()));
        assert(pairs_view(r@) =~= self.query_spec());
        r
    }
}

/// Accumulates the fields of a [`BooksGeneric`].
#[derive(Clone, Debug)]
pub struct BooksGenericBuilder {
    pub bibkeys: Option<Vec<String>>,
    pub jscmd: Option<String>,
}

impl Default for BooksGenericBuilder {
    fn default() -> (r: Self)
        ensures
            r.bibkeys is None,
            r.jscmd is None,
    {
        BooksGenericBuilder { bibkeys: None, jscmd: None }
    }
}

impl BooksGenericBuilder {
    /// Sets the keys, in the order in which they are sent; the last value set wins.
    pub fn bibkeys(self, value: Vec<String>) -> (r: Self)
        ensures
            r.bibkeys == Some(value),
            r.jscmd == self.jscmd,
    {
        BooksGenericBuilder { bibkeys: Some(value), ..self }
    }

    /// Sets the response command; the last value set wins.
    pub fn jscmd(self, value: &str) -> (r: Self)
        ensures
            r.bibkeys == self.bibkeys,
            r.jscmd matches Some(s) && s@ == value@,
    {
        BooksGenericBuilder { jscmd: Some(String::from_str(value)), ..self }
    }

    /// Builds the lookup. The keys are required and must not be empty; the command defaults
    /// to `viewapi`.
    pub fn build(&self) -> (r: Result<BooksGeneric, BuildError>)
        ensures
            r is Ok <==> (self.bibkeys matches Some(k) && k@.len() > 0),
            r matches Ok(b) ==> strings_view(b.bibkeys@) == strings_view(self.bibkeys->Some_0@)
                && b.jscmd@ == (match self.jscmd {
                Some(c) => c@,
                None => "viewapi"@,
            }),
            r matches Err(e) ==> missing(e, "bibkeys"@),
    {
        match &self.bibkeys {
            Some(keys) => {
                if keys.len() == 0 {
                    return Err(BuildError::MissingRequiredField(String::from_str("bibkeys")));
                }
                let jscmd = match &self.jscmd {
                    Some(c) => c.clone(),
                    None => String::from_str("viewapi"),
                };
                let bibkeys = keys.clone();
                assert(strings_view(bibkeys@) =~= strings_view(keys@));
                Ok(BooksGeneric { bibkeys, jscmd })
            },
            None => Err(BuildError::MissingRequiredField(String::from_str("bibkeys"))),
        }
    }
}

} // verus!
