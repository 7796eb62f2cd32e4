//! Book search on a third-party catalog page: the request URL, and the numeric book
//! identifiers read from the anchors of the result rows.
use vstd::prelude::*;

verus! {

/// The root of the catalog site.
pub const GOODREADS_URL: &'static str = "https://www.goodreads.com";

/// The CSS selector of a result row.
pub const ROW_SELECTOR: &'static str = "tr";

/// The CSS selector of a link inside a row.
pub const LINK_SELECTOR: &'static str = "a";

/// The regular expression of an identifier: a run of digits.
pub const ID_PATTERN: &'static str = "\\d\\d*";

/// The field of a catalog search.
#[derive(Clone, Copy, Debug, PartialEq, Eq, Structural)]
pub enum SearchField {
    All,
    Title,
    Author,
    Genre,
}

impl SearchField {
    /// The name of the field as the site expects it.
    pub open spec fn name_spec(self) -> Seq<char> {
        match self {
            SearchField::All => "all"@,
            SearchField::Title => "title"@,
            SearchField::Author => "author"@,
            SearchField::Genre => "genre"@,
        }
    }

    /// The name of the field as the site expects it.
    pub fn name(&self) -> (r: &'static str)
        ensures
            r@ == self.name_spec(),
    {
        match self {
            SearchField::All => "all",
            SearchField::Title => "title",
            SearchField::Author => "author",
            SearchField::Genre => "genre",
        }
    }
}

/// A book found in the catalog, by its numeric identifier.
#[derive(Clone, Copy, Debug, PartialEq, Eq, Structural)]
pub struct Book {
    pub id: u32,
}

impl Book {
    /// The book with identifier `id`.
    pub fn new(id: u32) -> (r: Book)
        ensures
            r.id == id,
    {
        Book { id }
    }
}

/// A catalog search.
#[derive(Clone, Debug)]
pub struct Query {
    pub search_term: String,
    pub search_field: SearchField,
}

/// For each element matched by `rows` in `html`, the `href` of the first element matched by
/// `links` inside it (`None` where there is none, or it has no `href`), in document order,
/// as scraper finds them; `None` where a selector does not parse.
pub uninterp spec fn first_link_hrefs_of(
    html: Seq<char>,
    rows: Seq<char>,
    links: Seq<char>,
) -> Option<Seq<Option<Seq<char>>>>;

/// The leftmost match of `pattern` in `text`, as `regex` finds it; `None` where nothing
/// matches or the pattern does not compile.
pub uninterp spec fn first_match_of(pattern: Seq<char>, text: Seq<char>) -> Option<Seq<char>>;

/// The character sequences of a list of optional strings.
pub open spec fn hrefs_view(v: Seq<Option<String>>) -> Seq<Option<Seq<char>>> {
    v.map_values(|h: Option<String>| match h {
        Some(s) => Some(s@),
        None => None,
    })
}

/// Relies on scraper's `Selector::parse`, `Html::parse_document`, `Html::select`,
/// `ElementRef::select` and `Element::attr`: the `href` of the first link of each row.
#[verifier::external_body]
fn first_link_hrefs(html: &str, rows: &str, links: &str) -> (r: Option<Vec<Option<String>>>)
    ensures
        match r {
            Some(v) => first_link_hrefs_of(html@, rows@, links@) == Some(hrefs_view(v@)),
            None => first_link_hrefs_of(html@, rows@, links@) is None,
        },
{
    let rows = scraper::Selector::parse(rows).ok()?;
    let links = scraper::Selector::parse(links).ok()?;
    let doc = scraper::Html::parse_document(html);
    let hrefs = doc.select(&rows).map(|row| {
        row.select(&links).next().and_then(|a| a.value().attr("href")).map(String::from)
    });
    Some(hrefs.collect())
}

/// Relies on `regex::Regex::new` and `Regex::find`: the text of the leftmost match.
#[verifier::external_body]
fn first_match(pattern: &str, text: &str) -> (r: Option<String>)
    ensures
        match r {
            Some(m) => first_match_of(pattern@, text@) == Some(m@),
            None => first_match_of(pattern@, text@) is None,
        },
{
    regex::Regex::new(pattern).ok()?.find(text).map(|m| m.as_str().to_string())
}

/// Whether `c` is an ASCII decimal digit.
pub open spec fn is_digit(c: char) -> bool {
    '0' <= c <= '9'
}

/// The value of a sequence of ASCII decimal digits.
pub open spec fn digits_value(s: Seq<char>) -> nat
    decreases s.len(),
{
    if s.len() == 0 {
        0
    } else {
        digits_value(s.drop_last()) * 10 + (s.last() as nat - '0' as nat) as nat
    }
}

/// The number written by `s` in ASCII decimal digits, where it fits in a `u32`.
pub open spec fn decimal_u32(s: Seq<char>) -> Option<u32> {
    if s.len() > 0 && (forall|i: int| 0 <= i < s.len() ==> is_digit(#[trigger] s[i]))
        && digits_value(s) <= u32::MAX {
        Some(digits_value(s) as u32)
    } else {
        None
    }
}

proof fn lemma_prefix_value_bounded(s: Seq<char>, i: int)
    requires
        0 <= i <= s.len(),
        forall|j: int| 0 <= j < s.len() ==> is_digit(#[trigger] s[j]),
    ensures
        digits_value(s.take(i)) <= digits_value(s),
    decreases s.len(),
{
    if i < s.len() {
        let p = s.drop_last();
        assert(p.take(i) =~= s.take(i));
        assert forall|j: int| 0 <= j < p.len() implies is_digit(#[trigger] p[j]) by {
            assert(p[j] == s[j]);
        }
        lemma_prefix_value_bounded(p, i);
    } else {
        assert(s.take(i) =~= s);
    }
}

/// Reads a catalog identifier: a non-empty run of ASCII digits whose value fits in a `u32`.
pub fn parse_id(digits: &str) -> (r: Option<u32>)
    ensures
        r == decimal_u32(digits@),
{
    let n = digits.unicode_len();
    if n == 0 {
        return None;
    }
    let mut acc: u32 = 0;
    let mut i: usize = 0;
    while i < n
        invariant
            n == digits@.len(),
            i <= n,
            acc as nat == digits_value(digits@.take(i as int)),
            forall|j: int| 0 <= j < i ==> is_digit(#[trigger] digits@[j]),
        decreases n - i,
    {
        let c = digits.get_char(i);
        let ghost next = digits@.take(i as int + 1);
        assert(next.drop_last() =~= digits@.take(i as int));
        if !('0' <= c && c <= '9') {
            return None;
        }
        let d = (c as u32) - ('0' as u32);
        if acc > (u32::MAX - d) / 10 {
            proof {
                assert(digits_value(next) > u32::MAX);
                if forall|j: int| 0 <= j < digits@.len() ==> is_digit(#[trigger] digits@[j]) {
                    lemma_prefix_value_bounded(digits@, i as int + 1);
                }
            }
            return None;
        }
        acc = acc * 10 + d;
        i = i + 1;
    }
    assert(digits@.take(n as int) =~= digits@);
    Some(acc)
}

/// The identifier in a row's link, where the link has a run of digits that fits in a `u32`.
pub open spec fn id_of_href(href: Option<Seq<char>>) -> Option<u32> {
    match href {
        Some(h) => match first_match_of(ID_PATTERN@, h) {
            Some(d) => decimal_u32(d),
            None => None,
        },
        None => None,
    }
}

/// The identifiers of the rows' links, in order, skipping rows without one.
pub open spec fn ids_of(hrefs: Seq<Option<Seq<char>>>) -> Seq<u32>
    decreases hrefs.len(),
{
    if hrefs.len() == 0 {
        Seq::empty()
    } else {
        ids_of(hrefs.drop_last()) + match id_of_href(hrefs.last()) {
            Some(id) => seq![id],
            None => Seq::<u32>::empty(),
        }
    }
}

/// The identifiers that a result page holds.
pub open spec fn page_ids(html: Seq<char>) -> Seq<u32> {
    match first_link_hrefs_of(html, ROW_SELECTOR@, LINK_SELECTOR@) {
        Some(hrefs) => ids_of(hrefs),
        None => Seq::empty(),
    }
}

/// The identifiers of a list of books.
pub open spec fn book_ids(books: Seq<Book>) -> Seq<u32> {
    books.map_values(|b: Book| b.id)
}

impl Query {
    /// The URL of the search.
    pub open spec fn url_spec(&self) -> Seq<char> {
        GOODREADS_URL@ + "/search?q="@ + self.search_term@ + "&search[field]="@
            + self.search_field.name_spec()
    }

    /// The URL of the search.
    pub fn get_url(&self) -> (r: String)
        ensures
            r@ == self.url_spec(),
    {
        let mut u = String::from_str(GOODREADS_URL);
        u.append("/search?q=");
        u.append(self.search_term.as_str());
        u.append("&search[field]=");
        u.append(self.search_field.name());
        u
    }

    /// The identifiers of the books on a result page, in row order. A row whose first link
    /// is missing, has no `href`, or has no run of digits that fits in a `u32` is skipped.
    pub fn get_books(body: &str) -> (r: Vec<Book>)
        ensures
            book_ids(r@) == page_ids(body@),
    {
        let mut r: Vec<Book> = Vec::new();
        let hrefs = match first_link_hrefs(body, ROW_SELECTOR, LINK_SELECTOR) {
            Some(h) => h,
            None => {
                assert(book_ids(r@) =~= Seq::empty());
                return r;
            },
        };
        let ghost all = hrefs_view(hrefs@);
        let mut i: usize = 0;
        while i < hrefs.len()
            invariant
                i <= hrefs@.len(),
                all == hrefs_view(hrefs@),
                page_ids(body@) == ids_of(all),
                book_ids(r@) == ids_of(all.take(i as int)),
            decreases hrefs@.len() - i,
        {
            let ghost before = all.take(i as int);
            assert(all.take(i as int + 1).drop_last() =~= before);
            let ghost old_r = r@;
            match &hrefs[i] {
                Some(h) => match first_match(ID_PATTERN, h.as_str()) {
                    Some(d) => match parse_id(d.as_str()) {
                        Some(id) => {
                            r.push(Book::new(id));
                            assert(book_ids(r@) =~= book_ids(old_r).push(id));
                        },
                        None => {},
                    },
                    None => {},
                },
                None => {},
            }
            assert(book_ids(r@) =~= ids_of(all.take(i as int + 1)));
            i = i + 1;
        }
        assert(all.take(hrefs@.len() as int) =~= all);
        r
    }
}

} // verus!
