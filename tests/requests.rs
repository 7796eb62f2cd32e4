use openlibrary_rs::authors::{AuthorsBuilder, AuthorsType};
use openlibrary_rs::books::{BookType, BooksBuilder, BooksGenericBuilder};
use openlibrary_rs::dispatch::TransportError;
use openlibrary_rs::search::{SearchBuilder, SearchType};
use openlibrary_rs::subject::SubjectsBuilder;
use openlibrary_rs::text::{bool_string, decimal_string, join_strings};
use openlibrary_rs::{BuildError, OpenlibraryRequest, ResourceKind, OPENLIBRARY_HOST};

fn pairs(query: Vec<(&'static str, String)>) -> Vec<(String, String)> {
    query.into_iter().map(|(k, v)| (k.to_string(), v)).collect()
}

fn expected(items: &[(&str, &str)]) -> Vec<(String, String)> {
    items.iter().map(|(k, v)| (k.to_string(), v.to_string())).collect()
}

fn missing(name: &str) -> BuildError {
    BuildError::MissingRequiredField(name.to_string())
}

#[test]
fn unset_fields_take_their_defaults() {
    let authors = AuthorsBuilder::default().id("OL23919A").build().unwrap();
    assert_eq!(authors.limit, 10);
    assert_eq!(authors.offset, 0);
    assert_eq!(authors.authors_type, AuthorsType::Data);

    let search = SearchBuilder::default().build().unwrap();
    assert_eq!(search.page, 1);
    assert_eq!(search.limit, 10);
    assert!(search.fields.is_empty());
    assert_eq!(search.query, None);
    assert_eq!(search.search_type, SearchType::Books);

    let subjects = SubjectsBuilder::default().subject("love").build().unwrap();
    assert_eq!(subjects.limit, 10);
    assert_eq!(subjects.offset, 0);
    assert!(!subjects.details);
    assert!(!subjects.ebooks);
    assert_eq!(subjects.published_in, None);

    let books = BooksBuilder::default().id("1").build().unwrap();
    assert_eq!(books.book_type, BookType::Works);

    let batch = BooksGenericBuilder::default()
        .bibkeys(vec!["ISBN:1".to_string()])
        .build()
        .unwrap();
    assert_eq!(batch.jscmd, "viewapi");
}

#[test]
fn required_fields_must_be_set() {
    assert_eq!(BooksBuilder::default().build().unwrap_err(), missing("id"));
    assert_eq!(
        BooksBuilder::default().book_type(BookType::ISBN).build().unwrap_err(),
        missing("id")
    );
    assert_eq!(AuthorsBuilder::default().limit(5).build().unwrap_err(), missing("id"));
    assert_eq!(
        SubjectsBuilder::default().published_in("1500-1600").build().unwrap_err(),
        missing("subject")
    );
    assert_eq!(BooksGenericBuilder::default().build().unwrap_err(), missing("bibkeys"));
    assert_eq!(
        BooksGenericBuilder::default().bibkeys(vec![]).build().unwrap_err(),
        missing("bibkeys")
    );
}

#[test]
fn last_write_wins_and_build_repeats() {
    let builder = AuthorsBuilder::default().id("OL1A").limit(3).limit(7).id("OL2A");
    let first = builder.build().unwrap();
    let second = builder.build().unwrap();
    assert_eq!(first.id, "OL2A");
    assert_eq!(first.limit, 7);
    assert_eq!(second.id, first.id);
    assert_eq!(second.limit, first.limit);
}

#[test]
fn resolving_twice_gives_the_same_result() {
    let search = SearchBuilder::default()
        .query("the lord of the rings")
        .fields(vec!["title".to_string(), "key".to_string()])
        .build()
        .unwrap();
    assert_eq!(search.path(), search.path());
    assert_eq!(pairs(search.query()), pairs(search.query()));
    assert_eq!(search.url(OPENLIBRARY_HOST), search.url(OPENLIBRARY_HOST));
}

#[test]
fn empty_fields_are_omitted() {
    let search = SearchBuilder::default().fields(vec![]).build().unwrap();
    assert_eq!(pairs(search.query()), expected(&[("page", "1"), ("limit", "10")]));

    let search = SearchBuilder::default()
        .fields(vec!["title".to_string()])
        .build()
        .unwrap();
    assert_eq!(
        pairs(search.query()),
        expected(&[("page", "1"), ("limit", "10"), ("fields", "title")])
    );
}

#[test]
fn search_query_is_sent_when_set() {
    let search = SearchBuilder::default()
        .query("dune")
        .page(3)
        .limit(0)
        .fields(vec!["key".to_string(), "title".to_string()])
        .build()
        .unwrap();
    assert_eq!(search.path(), "/search.json");
    assert_eq!(
        pairs(search.query()),
        expected(&[("page", "3"), ("limit", "0"), ("q", "dune"), ("fields", "key,title")])
    );
    assert_eq!(search.kind(), ResourceKind::Search);
}

#[test]
fn search_paths_follow_the_type() {
    let path = |t: SearchType| SearchBuilder::default().search_type(t).build().unwrap().path();
    assert_eq!(path(SearchType::Books), "/search.json");
    assert_eq!(path(SearchType::Authors), "/search/authors.json");
    assert_eq!(path(SearchType::Subjects), "/search/subjects.json");
    assert_eq!(path(SearchType::Lists), "/search/lists.json");
}

#[test]
fn batch_keys_keep_their_order() {
    let batch = BooksGenericBuilder::default()
        .bibkeys(vec!["ISBN:0201558025".to_string(), "LCCN:93005405".to_string()])
        .build()
        .unwrap();
    assert_eq!(batch.path(), "/api/books");
    assert_eq!(
        pairs(batch.query()),
        expected(&[
            ("format", "json"),
            ("bibkeys", "ISBN:0201558025,LCCN:93005405"),
            ("jscmd", "viewapi"),
        ])
    );
    assert_eq!(batch.kind(), ResourceKind::BookBatchLookup);

    let batch = BooksGenericBuilder::default()
        .jscmd("data")
        .bibkeys(vec!["OCLC:1".to_string()])
        .build()
        .unwrap();
    assert_eq!(
        pairs(batch.query()),
        expected(&[("format", "json"), ("bibkeys", "OCLC:1"), ("jscmd", "data")])
    );
}

#[test]
fn book_paths_follow_the_scheme() {
    let path = |t: BookType| BooksBuilder::default().book_type(t).id("X1").build().unwrap();
    let works = path(BookType::Works);
    assert_eq!(works.path(), "/works/X1.json");
    assert_eq!(works.kind(), ResourceKind::BookByWorkId);
    let editions = path(BookType::Editions);
    assert_eq!(editions.path(), "/books/X1.json");
    assert_eq!(editions.kind(), ResourceKind::BookByEditionId);
    let isbn = path(BookType::ISBN);
    assert_eq!(isbn.path(), "/isbn/X1.json");
    assert_eq!(isbn.kind(), ResourceKind::BookByIsbn);
}

#[test]
fn author_paths_and_paging() {
    let profile = AuthorsBuilder::default().id("OL23919A").build().unwrap();
    assert_eq!(profile.path(), "/authors/OL23919A.json");
    assert_eq!(profile.kind(), ResourceKind::AuthorProfile);
    assert_eq!(pairs(profile.query()), expected(&[("limit", "10"), ("offset", "0")]));

    let works = AuthorsBuilder::default()
        .id("OL23919A")
        .authors_type(AuthorsType::Works)
        .limit(50)
        .offset(100)
        .build()
        .unwrap();
    assert_eq!(works.path(), "/authors/OL23919A/works.json");
    assert_eq!(works.kind(), ResourceKind::AuthorWorks);
    assert_eq!(pairs(works.query()), expected(&[("limit", "50"), ("offset", "100")]));
}

#[test]
fn subject_filters() {
    let subjects = SubjectsBuilder::default()
        .subject("love")
        .published_in("1500-1600")
        .details(true)
        .build()
        .unwrap();
    assert_eq!(subjects.path(), "/subjects/love.json");
    assert_eq!(subjects.kind(), ResourceKind::Subject);
    assert_eq!(
        pairs(subjects.query()),
        expected(&[
            ("details", "true"),
            ("ebooks", "false"),
            ("published_in", "1500-1600"),
            ("limit", "10"),
            ("offset", "0"),
        ])
    );

    let plain = SubjectsBuilder::default().subject("fiction").ebooks(true).offset(20).build().unwrap();
    assert_eq!(
        pairs(plain.query()),
        expected(&[("details", "false"), ("ebooks", "true"), ("limit", "10"), ("offset", "20")])
    );
}

#[test]
fn urls_join_host_path_and_encoded_query() {
    let search = SearchBuilder::default().query("the lord of the rings").build().unwrap();
    assert_eq!(
        search.url("https://openlibrary.org").unwrap(),
        "https://openlibrary.org/search.json?page=1&limit=10&q=the+lord+of+the+rings"
    );

    let batch = BooksGenericBuilder::default()
        .bibkeys(vec!["ISBN:0201558025".to_string(), "LCCN:93005405".to_string()])
        .build()
        .unwrap();
    assert_eq!(
        batch.url("http://127.0.0.1:1234").unwrap(),
        "http://127.0.0.1:1234/api/books?format=json&bibkeys=ISBN%3A0201558025%2CLCCN%3A93005405&jscmd=viewapi"
    );
}

#[test]
fn an_invalid_host_is_a_transport_error() {
    let books = BooksBuilder::default().id("1").build().unwrap();
    assert_eq!(books.url("not a host"), Err(TransportError::InvalidUrl));
}

#[test]
fn decimal_rendering() {
    assert_eq!(decimal_string(0), "0");
    assert_eq!(decimal_string(7), "7");
    assert_eq!(decimal_string(10), "10");
    assert_eq!(decimal_string(1200), "1200");
    assert_eq!(decimal_string(u32::MAX), "4294967295");
    assert_eq!(bool_string(true), "true");
    assert_eq!(bool_string(false), "false");
}

#[test]
fn joining_strings() {
    assert_eq!(join_strings(&vec![], ","), "");
    assert_eq!(join_strings(&vec!["a".to_string()], ","), "a");
    assert_eq!(
        join_strings(&vec!["a".to_string(), "".to_string(), "c".to_string()], ", "),
        "a, , c"
    );
}
