//! The book entity: the full persisted record, the record for create and the
//! sparse record for update, with their column descriptions.

use vstd::prelude::*;

use crate::db::Row;
use crate::error::{Error, Result};
use crate::iterable::{
    clone_strings, mask_filter, names_unique, pairs_match, Desc, Iterable, IterableType, Value,
};
use crate::values::{DateTime, Uuid};

verus! {

/// The full book record, one table row: every column always present.
#[derive(Debug)]
pub struct Book {
    pub id: Uuid,
    pub created_at: DateTime,
    pub updated_at: DateTime,
    pub edition_id: Option<Uuid>,
    pub external_id: Option<String>,
    pub external_source: Option<String>,
    pub title: String,
    pub authors: Vec<String>,
    pub publisher: Option<String>,
    pub published_date: Option<DateTime>,
    pub published_year: Option<i32>,
    pub description: Option<String>,
    pub isbn10: Option<String>,
    pub isbn13: Option<String>,
    pub page_count: Option<i32>,
    pub print_type: Option<String>,
    pub categories: Option<Vec<String>>,
    pub maturity_rating: Option<String>,
    pub language: Option<String>,
    pub image_url: Option<String>,
    pub image_url_small: Option<String>,
    pub preview_link: Option<String>,
}

// region: option-to-column value helpers

/// The bound value of an optional identifier: nil when absent.
pub open spec fn opt_uuid_val(o: Option<Uuid>) -> u128 {
    match o {
        Some(u) => u@,
        None => 0,
    }
}

/// The bound value of an optional timestamp: the epoch when absent.
pub open spec fn opt_dt_val(o: Option<DateTime>) -> int {
    match o {
        Some(d) => d@,
        None => 0,
    }
}

/// The bound value of an optional text: empty when absent.
pub open spec fn opt_text_val(o: Option<String>) -> Seq<char> {
    match o {
        Some(s) => s@,
        None => Seq::empty(),
    }
}

/// The bound value of an optional integer: zero when absent.
pub open spec fn opt_i32_val(o: Option<i32>) -> int {
    match o {
        Some(x) => x as int,
        None => 0,
    }
}

/// The bound value of an optional text array: empty when absent.
pub open spec fn opt_texts_val(o: Option<Vec<String>>) -> Seq<Seq<char>> {
    match o {
        Some(v) => v.deep_view(),
        None => Seq::empty(),
    }
}

// endregion: option-to-column value helpers

/// The column description a book reports: all 22 columns, in the fixed
/// order, with absent optional fields bound as default values.
pub open spec fn book_desc(b: Book) -> Desc {
    seq![
        ("id"@, Value::Uuid(b.id@)),
        ("created_at"@, Value::DateTime(b.created_at@)),
        ("updated_at"@, Value::DateTime(b.updated_at@)),
        ("edition_id"@, Value::Uuid(opt_uuid_val(b.edition_id))),
        ("external_id"@, Value::Text(opt_text_val(b.external_id))),
        ("external_source"@, Value::Text(opt_text_val(b.external_source))),
        ("title"@, Value::Text(b.title@)),
        ("authors"@, Value::TextArray(b.authors.deep_view())),
        ("publisher"@, Value::Text(opt_text_val(b.publisher))),
        ("published_date"@, Value::DateTime(opt_dt_val(b.published_date))),
        ("published_year"@, Value::I32(opt_i32_val(b.published_year))),
        ("description"@, Value::Text(opt_text_val(b.description))),
        ("isbn10"@, Value::Text(opt_text_val(b.isbn10))),
        ("isbn13"@, Value::Text(opt_text_val(b.isbn13))),
        ("page_count"@, Value::I32(opt_i32_val(b.page_count))),
        ("print_type"@, Value::Text(opt_text_val(b.print_type))),
        ("categories"@, Value::TextArray(opt_texts_val(b.categories))),
        ("maturity_rating"@, Value::Text(opt_text_val(b.maturity_rating))),
        ("language"@, Value::Text(opt_text_val(b.language))),
        ("image_url"@, Value::Text(opt_text_val(b.image_url))),
        ("image_url_small"@, Value::Text(opt_text_val(b.image_url_small))),
        ("preview_link"@, Value::Text(opt_text_val(b.preview_link))),
    ]
}

/// States, for every column name of the book table, a length and enough
/// characters to tell it apart from every other column name.
pub proof fn lemma_book_column_facts()
    ensures
        "id"@.len() == 2,
        "title"@.len() == 5,
        "isbn10"@.len() == 6,
        "isbn13"@.len() == 6,
        "authors"@.len() == 7,
        "language"@.len() == 8,
        "publisher"@.len() == 9,
        "image_url"@.len() == 9,
        "created_at"@.len() == 10,
        "updated_at"@.len() == 10,
        "edition_id"@.len() == 10,
        "page_count"@.len() == 10,
        "print_type"@.len() == 10,
        "categories"@.len() == 10,
        "external_id"@.len() == 11,
        "description"@.len() == 11,
        "preview_link"@.len() == 12,
        "published_date"@.len() == 14,
        "published_year"@.len() == 14,
        "external_source"@.len() == 15,
        "maturity_rating"@.len() == 15,
        "image_url_small"@.len() == 15,
        "isbn10"@[5] == '0',
        "isbn13"@[5] == '3',
        "publisher"@[0] == 'p',
        "image_url"@[0] == 'i',
        "created_at"@[0] == 'c',
        "updated_at"@[0] == 'u',
        "edition_id"@[0] == 'e',
        "page_count"@[0] == 'p',
        "print_type"@[0] == 'p',
        "categories"@[0] == 'c',
        "created_at"@[1] == 'r',
        "categories"@[1] == 'a',
        "page_count"@[1] == 'a',
        "print_type"@[1] == 'r',
        "external_id"@[0] == 'e',
        "description"@[0] == 'd',
        "published_date"@[10] == 'd',
        "published_year"@[10] == 'y',
        "external_source"@[0] == 'e',
        "maturity_rating"@[0] == 'm',
        "image_url_small"@[0] == 'i',
{
    reveal_strlit("id");
    reveal_strlit("created_at");
    reveal_strlit("updated_at");
    reveal_strlit("edition_id");
    reveal_strlit("external_id");
    reveal_strlit("external_source");
    reveal_strlit("title");
    reveal_strlit("authors");
    reveal_strlit("publisher");
    reveal_strlit("published_date");
    reveal_strlit("published_year");
    reveal_strlit("description");
    reveal_strlit("isbn10");
    reveal_strlit("isbn13");
    reveal_strlit("page_count");
    reveal_strlit("print_type");
    reveal_strlit("categories");
    reveal_strlit("maturity_rating");
    reveal_strlit("language");
    reveal_strlit("image_url");
    reveal_strlit("image_url_small");
    reveal_strlit("preview_link");
}

/// Law: the 22 column names of the book table are pairwise distinct.
#[verifier::rlimit(100)]
pub proof fn lemma_book_columns_distinct(b: Book)
    ensures
        names_unique(book_desc(b)),
{
    lemma_book_column_facts();
    assert(names_unique(book_desc(b)));
}

// region: optional-field binding helpers

/// Binds an optional identifier: the nil identifier when absent.
fn opt_uuid_field(o: &Option<Uuid>) -> (r: IterableType)
    ensures
        r@ == Value::Uuid(opt_uuid_val(*o)),
{
    match o {
        Some(u) => IterableType::Uuid(*u),
        None => IterableType::Uuid(Uuid(0)),
    }
}

/// Binds an optional timestamp: the epoch when absent.
fn opt_dt_field(o: &Option<DateTime>) -> (r: IterableType)
    ensures
        r@ == Value::DateTime(opt_dt_val(*o)),
{
    match o {
        Some(d) => IterableType::DateTime(*d),
        None => IterableType::DateTime(DateTime(0)),
    }
}

/// Binds an optional text: the empty text when absent.
fn opt_text_field(o: &Option<String>) -> (r: IterableType)
    ensures
        r@ == Value::Text(opt_text_val(*o)),
{
    match o {
        Some(s) => IterableType::String(s.clone()),
        None => IterableType::String(String::new()),
    }
}

/// Binds an optional integer: zero when absent.
fn opt_i32_field(o: &Option<i32>) -> (r: IterableType)
    ensures
        r@ == Value::I32(opt_i32_val(*o)),
{
    match o {
        Some(x) => IterableType::I32(*x),
        None => IterableType::I32(0),
    }
}

/// Binds an optional text array: the empty array when absent.
fn opt_texts_field(o: &Option<Vec<String>>) -> (r: IterableType)
    ensures
        r@ == Value::TextArray(opt_texts_val(*o)),
{
    match o {
        Some(v) => IterableType::StringArray(clone_strings(v)),
        None => {
            let e: Vec<String> = Vec::new();
            proof {
                assert(e.deep_view() =~= Seq::<Seq<char>>::empty());
            }
            IterableType::StringArray(e)
        },
    }
}

// endregion: optional-field binding helpers

impl Iterable for Book {
    /// A full record reports every column.
    open spec fn fields_spec(&self) -> Desc {
        book_desc(*self)
    }

    proof fn fields_spec_wf(&self) {
        lemma_book_columns_distinct(*self);
    }

    fn get_fields(&self) -> (r: (Vec<String>, Vec<IterableType>)) {
        let mut names: Vec<String> = Vec::new();
        let mut values: Vec<IterableType> = Vec::new();
        names.push(String::from_str("id"));
        values.push(IterableType::Uuid(self.id));
        names.push(String::from_str("created_at"));
        values.push(IterableType::DateTime(self.created_at));
        names.push(String::from_str("updated_at"));
        values.push(IterableType::DateTime(self.updated_at));
        names.push(String::from_str("edition_id"));
        values.push(opt_uuid_field(&self.edition_id));
        names.push(String::from_str("external_id"));
        values.push(opt_text_field(&self.external_id));
        names.push(String::from_str("external_source"));
        values.push(opt_text_field(&self.external_source));
        names.push(String::from_str("title"));
        values.push(IterableType::String(self.title.clone()));
        names.push(String::from_str("authors"));
        values.push(IterableType::StringArray(clone_strings(&self.authors)));
        names.push(String::from_str("publisher"));
        values.push(opt_text_field(&self.publisher));
        names.push(String::from_str("published_date"));
        values.push(opt_dt_field(&self.published_date));
        names.push(String::from_str("published_year"));
        values.push(opt_i32_field(&self.published_year));
        names.push(String::from_str("description"));
        values.push(opt_text_field(&self.description));
        names.push(String::from_str("isbn10"));
        values.push(opt_text_field(&self.isbn10));
        names.push(String::from_str("isbn13"));
        values.push(opt_text_field(&self.isbn13));
        names.push(String::from_str("page_count"));
        values.push(opt_i32_field(&self.page_count));
        names.push(String::from_str("print_type"));
        values.push(opt_text_field(&self.print_type));
        names.push(String::from_str("categories"));
        values.push(opt_texts_field(&self.categories));
        names.push(String::from_str("maturity_rating"));
        values.push(opt_text_field(&self.maturity_rating));
        names.push(String::from_str("language"));
        values.push(opt_text_field(&self.language));
        names.push(String::from_str("image_url"));
        values.push(opt_text_field(&self.image_url));
        names.push(String::from_str("image_url_small"));
        values.push(opt_text_field(&self.image_url_small));
        names.push(String::from_str("preview_link"));
        values.push(opt_text_field(&self.preview_link));
        proof {
            assert(pairs_match(names@, values@, self.fields_spec()));
        }
        (names, values)
    }
}

// region: BookForCreate

/// The record a caller supplies to create a book: mandatory title and
/// authors, everything else optional.
#[derive(Debug)]
pub struct BookForCreate {
    pub edition_id: Option<Uuid>,
    pub external_id: Option<String>,
    pub external_source: Option<String>,
    pub title: String,
    pub authors: Vec<String>,
    pub publisher: Option<String>,
    pub published_date: Option<DateTime>,
    pub published_year: Option<i32>,
    pub description: Option<String>,
    pub isbn10: Option<String>,
    pub isbn13: Option<String>,
    pub page_count: Option<i32>,
    pub print_type: Option<String>,
    pub categories: Option<Vec<String>>,
    pub maturity_rating: Option<String>,
    pub language: Option<String>,
    pub image_url: Option<String>,
    pub image_url_small: Option<String>,
    pub preview_link: Option<String>,
}

/// Two optional texts hold the same characters, or are both absent.
pub open spec fn opt_str_eq(a: Option<String>, b: Option<String>) -> bool {
    match (a, b) {
        (Some(x), Some(y)) => x@ == y@,
        (None, None) => true,
        _ => false,
    }
}

/// Two optional text arrays hold the same texts, or are both absent.
pub open spec fn opt_strs_eq(a: Option<Vec<String>>, b: Option<Vec<String>>) -> bool {
    match (a, b) {
        (Some(x), Some(y)) => x.deep_view() == y.deep_view(),
        (None, None) => true,
        _ => false,
    }
}

/// The book `b` carries exactly the fields the creator supplied in `c`.
pub open spec fn create_fields_match(b: Book, c: BookForCreate) -> bool {
    &&& b.edition_id == c.edition_id
    &&& opt_str_eq(b.external_id, c.external_id)
    &&& opt_str_eq(b.external_source, c.external_source)
    &&& b.title@ == c.title@
    &&& b.authors.deep_view() == c.authors.deep_view()
    &&& opt_str_eq(b.publisher, c.publisher)
    &&& b.published_date == c.published_date
    &&& b.published_year == c.published_year
    &&& opt_str_eq(b.description, c.description)
    &&& opt_str_eq(b.isbn10, c.isbn10)
    &&& opt_str_eq(b.isbn13, c.isbn13)
    &&& b.page_count == c.page_count
    &&& opt_str_eq(b.print_type, c.print_type)
    &&& opt_strs_eq(b.categories, c.categories)
    &&& opt_str_eq(b.maturity_rating, c.maturity_rating)
    &&& opt_str_eq(b.language, c.language)
    &&& opt_str_eq(b.image_url, c.image_url)
    &&& opt_str_eq(b.image_url_small, c.image_url_small)
    &&& opt_str_eq(b.preview_link, c.preview_link)
}

impl Default for BookForCreate {
    /// An empty record for create: no field supplied.
    fn default() -> (r: Self)
        ensures
            r.title@.len() == 0,
            r.authors@.len() == 0,
            r.edition_id is None,
            r.external_id is None,
            r.external_source is None,
            r.publisher is None,
            r.published_date is None,
            r.published_year is None,
            r.description is None,
            r.isbn10 is None,
            r.isbn13 is None,
            r.page_count is None,
            r.print_type is None,
            r.categories is None,
            r.maturity_rating is None,
            r.language is None,
            r.image_url is None,
            r.image_url_small is None,
            r.preview_link is None,
    {
        BookForCreate {
            edition_id: None,
            external_id: None,
            external_source: None,
            title: String::new(),
            authors: Vec::new(),
            publisher: None,
            published_date: None,
            published_year: None,
            description: None,
            isbn10: None,
            isbn13: None,
            page_count: None,
            print_type: None,
            categories: None,
            maturity_rating: None,
            language: None,
            image_url: None,
            image_url_small: None,
            preview_link: None,
        }
    }
}

impl BookForCreate {
    /// An empty record for create: no field supplied.
    pub fn new() -> (r: Self)
        ensures
            r.title@.len() == 0,
            r.authors@.len() == 0,
            r.edition_id is None,
            r.external_id is None,
            r.external_source is None,
            r.publisher is None,
            r.published_date is None,
            r.published_year is None,
            r.description is None,
            r.isbn10 is None,
            r.isbn13 is None,
            r.page_count is None,
            r.print_type is None,
            r.categories is None,
            r.maturity_rating is None,
            r.language is None,
            r.image_url is None,
            r.image_url_small is None,
            r.preview_link is None,
    {
        Self::default()
    }
}

impl Book {
    /// Validates a record for create and builds the book to persist: title
    /// and authors are mandatory; a fresh identifier and the two timestamps
    /// are generated.
    pub fn new(b_fc: BookForCreate) -> (r: Result<Book>)
        ensures
            b_fc.title@.len() == 0 ==> (r matches Err(Error::BookTitleNotSet)),
            b_fc.title@.len() > 0 && b_fc.authors@.len() == 0 ==> (r matches Err(
                Error::BookAuthorsNotSet,
            )),
            b_fc.title@.len() > 0 && b_fc.authors@.len() > 0 ==> (r matches Ok(b)
                && create_fields_match(b, b_fc) && b.id@ != 0),
    {
        if b_fc.title.as_str().is_empty() {
            return Err(Error::BookTitleNotSet);
        }
        if b_fc.authors.is_empty() {
            return Err(Error::BookAuthorsNotSet);
        }
        Ok(
            Book {
                id: Uuid::new_v4(),
                created_at: DateTime::now(),
                updated_at: DateTime::now(),
                edition_id: b_fc.edition_id,
                external_id: b_fc.external_id,
                external_source: b_fc.external_source,
                title: b_fc.title,
                authors: b_fc.authors,
                publisher: b_fc.publisher,
                published_date: b_fc.published_date,
                published_year: b_fc.published_year,
                description: b_fc.description,
                isbn10: b_fc.isbn10,
                isbn13: b_fc.isbn13,
                page_count: b_fc.page_count,
                print_type: b_fc.print_type,
                categories: b_fc.categories,
                maturity_rating: b_fc.maturity_rating,
                language: b_fc.language,
                image_url: b_fc.image_url,
                image_url_small: b_fc.image_url_small,
                preview_link: b_fc.preview_link,
            },
        )
    }
}

impl Default for Book {
    /// An empty book under a fresh identifier with current timestamps.
    fn default() -> (r: Self)
        ensures
            r.id@ != 0,
            r.title@.len() == 0,
            r.authors@.len() == 0,
            r.edition_id is None,
            r.external_id is None,
            r.external_source is None,
            r.publisher is None,
            r.published_date is None,
            r.published_year is None,
            r.description is None,
            r.isbn10 is None,
            r.isbn13 is None,
            r.page_count is None,
            r.print_type is None,
            r.categories is None,
            r.maturity_rating is None,
            r.language is None,
            r.image_url is None,
            r.image_url_small is None,
            r.preview_link is None,
    {
        Book {
            id: Uuid::new_v4(),
            created_at: DateTime::now(),
            updated_at: DateTime::now(),
            edition_id: None,
            external_id: None,
            external_source: None,
            title: String::new(),
            authors: Vec::new(),
            publisher: None,
            published_date: None,
            published_year: None,
            description: None,
            isbn10: None,
            isbn13: None,
            page_count: None,
            print_type: None,
            categories: None,
            maturity_rating: None,
            language: None,
            image_url: None,
            image_url_small: None,
            preview_link: None,
        }
    }
}

// endregion: BookForCreate

// region: BookForUpdate

/// The sparse record for update: only set fields are persisted, and the
/// updated-timestamp column is always included.
#[derive(Debug)]
pub struct BookForUpdate {
    pub updated_at: DateTime,
    pub edition_id: Option<Uuid>,
    pub external_id: Option<String>,
    pub external_source: Option<String>,
    pub title: Option<String>,
    pub authors: Option<Vec<String>>,
    pub publisher: Option<String>,
    pub published_date: Option<DateTime>,
    pub published_year: Option<i32>,
    pub description: Option<String>,
    pub isbn10: Option<String>,
    pub isbn13: Option<String>,
    pub page_count: Option<i32>,
    pub print_type: Option<String>,
    pub categories: Option<Vec<String>>,
    pub maturity_rating: Option<String>,
    pub language: Option<String>,
    pub image_url: Option<String>,
    pub image_url_small: Option<String>,
    pub preview_link: Option<String>,
}

/// Every column a record for update could set, in order, with the value it
/// would bind.
pub open spec fn upd_full(b: BookForUpdate) -> Desc {
    seq![
        ("updated_at"@, Value::DateTime(b.updated_at@)),
        ("edition_id"@, Value::Uuid(opt_uuid_val(b.edition_id))),
        ("external_id"@, Value::Text(opt_text_val(b.external_id))),
        ("external_source"@, Value::Text(opt_text_val(b.external_source))),
        ("title"@, Value::Text(opt_text_val(b.title))),
        ("authors"@, Value::TextArray(opt_texts_val(b.authors))),
        ("publisher"@, Value::Text(opt_text_val(b.publisher))),
        ("published_date"@, Value::DateTime(opt_dt_val(b.published_date))),
        ("published_year"@, Value::I32(opt_i32_val(b.published_year))),
        ("description"@, Value::Text(opt_text_val(b.description))),
        ("isbn10"@, Value::Text(opt_text_val(b.isbn10))),
        ("isbn13"@, Value::Text(opt_text_val(b.isbn13))),
        ("page_count"@, Value::I32(opt_i32_val(b.page_count))),
        ("print_type"@, Value::Text(opt_text_val(b.print_type))),
        ("categories"@, Value::TextArray(opt_texts_val(b.categories))),
        ("maturity_rating"@, Value::Text(opt_text_val(b.maturity_rating))),
        ("language"@, Value::Text(opt_text_val(b.language))),
        ("image_url"@, Value::Text(opt_text_val(b.image_url))),
        ("image_url_small"@, Value::Text(opt_text_val(b.image_url_small))),
        ("preview_link"@, Value::Text(opt_text_val(b.preview_link))),
    ]
}

/// Which columns a record for update actually sets: the updated-timestamp
/// column always, each other column exactly when its field is populated.
pub open spec fn upd_mask(b: BookForUpdate) -> Seq<bool> {
    seq![
        true,
        b.edition_id is Some,
        b.external_id is Some,
        b.external_source is Some,
        b.title is Some,
        b.authors is Some,
        b.publisher is Some,
        b.published_date is Some,
        b.published_year is Some,
        b.description is Some,
        b.isbn10 is Some,
        b.isbn13 is Some,
        b.page_count is Some,
        b.print_type is Some,
        b.categories is Some,
        b.maturity_rating is Some,
        b.language is Some,
        b.image_url is Some,
        b.image_url_small is Some,
        b.preview_link is Some,
    ]
}

/// Law: the 20 columns a record for update could set are pairwise distinct.
#[verifier::rlimit(100)]
pub proof fn lemma_upd_columns_distinct(b: BookForUpdate)
    ensures
        names_unique(upd_full(b)),
{
    lemma_book_column_facts();
    assert(names_unique(upd_full(b)));
}

impl Default for BookForUpdate {
    /// An empty record for update: no field set, the updated timestamp
    /// current.
    fn default() -> (r: Self)
        ensures
            r.edition_id is None,
            r.external_id is None,
            r.external_source is None,
            r.title is None,
            r.authors is None,
            r.publisher is None,
            r.published_date is None,
            r.published_year is None,
            r.description is None,
            r.isbn10 is None,
            r.isbn13 is None,
            r.page_count is None,
            r.print_type is None,
            r.categories is None,
            r.maturity_rating is None,
            r.language is None,
            r.image_url is None,
            r.image_url_small is None,
            r.preview_link is None,
    {
        BookForUpdate {
            updated_at: DateTime::now(),
            edition_id: None,
            external_id: None,
            external_source: None,
            title: None,
            authors: None,
            publisher: None,
            published_date: None,
            published_year: None,
            description: None,
            isbn10: None,
            isbn13: None,
            page_count: None,
            print_type: None,
            categories: None,
            maturity_rating: None,
            language: None,
            image_url: None,
            image_url_small: None,
            preview_link: None,
        }
    }
}

impl BookForUpdate {
    /// An empty record for update.
    pub fn new() -> (r: Self)
        ensures
            r.edition_id is None,
            r.external_id is None,
            r.external_source is None,
            r.title is None,
            r.authors is None,
            r.publisher is None,
            r.published_date is None,
            r.published_year is None,
            r.description is None,
            r.isbn10 is None,
            r.isbn13 is None,
            r.page_count is None,
            r.print_type is None,
            r.categories is None,
            r.maturity_rating is None,
            r.language is None,
            r.image_url is None,
            r.image_url_small is None,
            r.preview_link is None,
    {
        Self::default()
    }
}

/// Reports the set fields of columns 1 through 5 of a record for
/// update, continuing a partial description.
#[verifier::rlimit(60)]
fn upd_fields_part1(b: &BookForUpdate, names: &mut Vec<String>, values: &mut Vec<IterableType>)
    requires
        pairs_match(old(names)@, old(values)@, mask_filter(upd_full(*b).take(1), upd_mask(*b).take(1))),
    ensures
        pairs_match(final(names)@, final(values)@, mask_filter(upd_full(*b).take(6), upd_mask(*b).take(6))),
{
    let ghost d = upd_full(*b);
    let ghost m = upd_mask(*b);
    match &b.edition_id {
        Some(u) => {
            names.push(String::from_str("edition_id"));
            values.push(IterableType::Uuid(*u));
        },
        None => {},
    }
    proof {
        crate::iterable::lemma_mask_filter_step(d, m, 1);
        assert(pairs_match(names@, values@, mask_filter(d.take(2), m.take(2))));
    }
    match &b.external_id {
        Some(s) => {
            names.push(String::from_str("external_id"));
            values.push(IterableType::String(s.clone()));
        },
        None => {},
    }
    proof {
        crate::iterable::lemma_mask_filter_step(d, m, 2);
        assert(pairs_match(names@, values@, mask_filter(d.take(3), m.take(3))));
    }
    match &b.external_source {
        Some(s) => {
            names.push(String::from_str("external_source"));
            values.push(IterableType::String(s.clone()));
        },
        None => {},
    }
    proof {
        crate::iterable::lemma_mask_filter_step(d, m, 3);
        assert(pairs_match(names@, values@, mask_filter(d.take(4), m.take(4))));
    }
    match &b.title {
        Some(s) => {
            names.push(String::from_str("title"));
            values.push(IterableType::String(s.clone()));
        },
        None => {},
    }
    proof {
        crate::iterable::lemma_mask_filter_step(d, m, 4);
        assert(pairs_match(names@, values@, mask_filter(d.take(5), m.take(5))));
    }
    match &b.authors {
        Some(v) => {
            names.push(String::from_str("authors"));
            values.push(IterableType::StringArray(clone_strings(v)));
        },
        None => {},
    }
    proof {
        crate::iterable::lemma_mask_filter_step(d, m, 5);
        assert(pairs_match(names@, values@, mask_filter(d.take(6), m.take(6))));
    }
}

/// Reports the set fields of columns 6 through 10 of a record for
/// update, continuing a partial description.
#[verifier::rlimit(60)]
fn upd_fields_part2(b: &BookForUpdate, names: &mut Vec<String>, values: &mut Vec<IterableType>)
    requires
        pairs_match(old(names)@, old(values)@, mask_filter(upd_full(*b).take(6), upd_mask(*b).take(6))),
    ensures
        pairs_match(final(names)@, final(values)@, mask_filter(upd_full(*b).take(11), upd_mask(*b).take(11))),
{
    let ghost d = upd_full(*b);
    let ghost m = upd_mask(*b);
    match &b.publisher {
        Some(s) => {
            names.push(String::from_str("publisher"));
            values.push(IterableType::String(s.clone()));
        },
        None => {},
    }
    proof {
        crate::iterable::lemma_mask_filter_step(d, m, 6);
        assert(pairs_match(names@, values@, mask_filter(d.take(7), m.take(7))));
    }
    match &b.published_date {
        Some(t) => {
            names.push(String::from_str("published_date"));
            values.push(IterableType::DateTime(*t));
        },
        None => {},
    }
    proof {
        crate::iterable::lemma_mask_filter_step(d, m, 7);
        assert(pairs_match(names@, values@, mask_filter(d.take(8), m.take(8))));
    }
    match &b.published_year {
        Some(x) => {
            names.push(String::from_str("published_year"));
            values.push(IterableType::I32(*x));
        },
        None => {},
    }
    proof {
        crate::iterable::lemma_mask_filter_step(d, m, 8);
        assert(pairs_match(names@, values@, mask_filter(d.take(9), m.take(9))));
    }
    match &b.description {
        Some(s) => {
            names.push(String::from_str("description"));
            values.push(IterableType::String(s.clone()));
        },
        None => {},
    }
    proof {
        crate::iterable::lemma_mask_filter_step(d, m, 9);
        assert(pairs_match(names@, values@, mask_filter(d.take(10), m.take(10))));
    }
    match &b.isbn10 {
        Some(s) => {
            names.push(String::from_str("isbn10"));
            values.push(IterableType::String(s.clone()));
        },
        None => {},
    }
    proof {
        crate::iterable::lemma_mask_filter_step(d, m, 10);
        assert(pairs_match(names@, values@, mask_filter(d.take(11), m.take(11))));
    }
}

/// Reports the set fields of columns 11 through 15 of a record for
/// update, continuing a partial description.
#[verifier::rlimit(60)]
fn upd_fields_part3(b: &BookForUpdate, names: &mut Vec<String>, values: &mut Vec<IterableType>)
    requires
        pairs_match(old(names)@, old(values)@, mask_filter(upd_full(*b).take(11), upd_mask(*b).take(11))),
    ensures
        pairs_match(final(names)@, final(values)@, mask_filter(upd_full(*b).take(16), upd_mask(*b).take(16))),
{
    let ghost d = upd_full(*b);
    let ghost m = upd_mask(*b);
    match &b.isbn13 {
        Some(s) => {
            names.push(String::from_str("isbn13"));
            values.push(IterableType::String(s.clone()));
        },
        None => {},
    }
    proof {
        crate::iterable::lemma_mask_filter_step(d, m, 11);
        assert(pairs_match(names@, values@, mask_filter(d.take(12), m.take(12))));
    }
    match &b.page_count {
        Some(x) => {
            names.push(String::from_str("page_count"));
            values.push(IterableType::I32(*x));
        },
        None => {},
    }
    proof {
        crate::iterable::lemma_mask_filter_step(d, m, 12);
        assert(pairs_match(names@, values@, mask_filter(d.take(13), m.take(13))));
    }
    match &b.print_type {
        Some(s) => {
            names.push(String::from_str("print_type"));
            values.push(IterableType::String(s.clone()));
        },
        None => {},
    }
    proof {
        crate::iterable::lemma_mask_filter_step(d, m, 13);
        assert(pairs_match(names@, values@, mask_filter(d.take(14), m.take(14))));
    }
    match &b.categories {
        Some(v) => {
            names.push(String::from_str("categories"));
            values.push(IterableType::StringArray(clone_strings(v)));
        },
        None => {},
    }
    proof {
        crate::iterable::lemma_mask_filter_step(d, m, 14);
        assert(pairs_match(names@, values@, mask_filter(d.take(15), m.take(15))));
    }
    match &b.maturity_rating {
        Some(s) => {
            names.push(String::from_str("maturity_rating"));
            values.push(IterableType::String(s.clone()));
        },
        None => {},
    }
    proof {
        crate::iterable::lemma_mask_filter_step(d, m, 15);
        assert(pairs_match(names@, values@, mask_filter(d.take(16), m.take(16))));
    }
}

/// Reports the set fields of columns 16 through 19 of a record for
/// update, continuing a partial description.
#[verifier::rlimit(60)]
fn upd_fields_part4(b: &BookForUpdate, names: &mut Vec<String>, values: &mut Vec<IterableType>)
    requires
        pairs_match(old(names)@, old(values)@, mask_filter(upd_full(*b).take(16), upd_mask(*b).take(16))),
    ensures
        pairs_match(final(names)@, final(values)@, mask_filter(upd_full(*b).take(20), upd_mask(*b).take(20))),
{
    let ghost d = upd_full(*b);
    let ghost m = upd_mask(*b);
    match &b.language {
        Some(s) => {
            names.push(String::from_str("language"));
            values.push(IterableType::String(s.clone()));
        },
        None => {},
    }
    proof {
        crate::iterable::lemma_mask_filter_step(d, m, 16);
        assert(pairs_match(names@, values@, mask_filter(d.take(17), m.take(17))));
    }
    match &b.image_url {
        Some(s) => {
            names.push(String::from_str("image_url"));
            values.push(IterableType::String(s.clone()));
        },
        None => {},
    }
    proof {
        crate::iterable::lemma_mask_filter_step(d, m, 17);
        assert(pairs_match(names@, values@, mask_filter(d.take(18), m.take(18))));
    }
    match &b.image_url_small {
        Some(s) => {
            names.push(String::from_str("image_url_small"));
            values.push(IterableType::String(s.clone()));
        },
        None => {},
    }
    proof {
        crate::iterable::lemma_mask_filter_step(d, m, 18);
        assert(pairs_match(names@, values@, mask_filter(d.take(19), m.take(19))));
    }
    match &b.preview_link {
        Some(s) => {
            names.push(String::from_str("preview_link"));
            values.push(IterableType::String(s.clone()));
        },
        None => {},
    }
    proof {
        crate::iterable::lemma_mask_filter_step(d, m, 19);
        assert(pairs_match(names@, values@, mask_filter(d.take(20), m.take(20))));
    }
}

impl Iterable for BookForUpdate {
    /// A sparse record reports the set columns only, updated timestamp
    /// first.
    open spec fn fields_spec(&self) -> Desc {
        mask_filter(upd_full(*self), upd_mask(*self))
    }

    proof fn fields_spec_wf(&self) {
        lemma_upd_columns_distinct(*self);
        crate::iterable::lemma_mask_filter_unique(upd_full(*self), upd_mask(*self));
    }

    fn get_fields(&self) -> (r: (Vec<String>, Vec<IterableType>)) {
        let ghost d = upd_full(*self);
        let ghost m = upd_mask(*self);
        let mut names: Vec<String> = Vec::new();
        let mut values: Vec<IterableType> = Vec::new();
        proof {
            assert(d.take(0) =~= Seq::<(Seq<char>, Value)>::empty());
            assert(pairs_match(names@, values@, mask_filter(d.take(0), m.take(0))));
        }
        names.push(String::from_str("updated_at"));
        values.push(IterableType::DateTime(self.updated_at));
        proof {
            crate::iterable::lemma_mask_filter_step(d, m, 0);
            assert(pairs_match(names@, values@, mask_filter(d.take(1), m.take(1))));
        }
        upd_fields_part1(self, &mut names, &mut values);
        upd_fields_part2(self, &mut names, &mut values);
        upd_fields_part3(self, &mut names, &mut values);
        upd_fields_part4(self, &mut names, &mut values);
        proof {
            assert(d.take(20) =~= d);
            assert(m.take(20) =~= m);
        }
        (names, values)
    }
}

// endregion: BookForUpdate

// region: reconstruction from a raw row

/// The identifier a column value holds; nil for any other kind.
pub open spec fn val_uuid(v: Value) -> u128 {
    match v {
        Value::Uuid(u) => u,
        _ => 0,
    }
}

/// The timestamp a column value holds; the epoch for any other kind.
pub open spec fn val_dt(v: Value) -> int {
    match v {
        Value::DateTime(m) => m,
        _ => 0,
    }
}

/// The text a column value holds; empty for any other kind.
pub open spec fn val_text(v: Value) -> Seq<char> {
    match v {
        Value::Text(s) => s,
        _ => Seq::empty(),
    }
}

/// The integer a column value holds; zero for any other kind.
pub open spec fn val_i32(v: Value) -> int {
    match v {
        Value::I32(x) => x,
        _ => 0,
    }
}

/// The text array a column value holds; empty for any other kind.
pub open spec fn val_texts(v: Value) -> Seq<Seq<char>> {
    match v {
        Value::TextArray(vs) => vs,
        _ => Seq::empty(),
    }
}

/// A description has the book table's exact shape: 22 columns, under the
/// fixed names and in the fixed order, each of the declared kind and within
/// machine bounds.
pub open spec fn book_shaped(d: Desc) -> bool {
    &&& d.len() == 22
    &&& d[0].0 == "id"@ && d[0].1 is Uuid
    &&& d[1].0 == "created_at"@ && d[1].1 is DateTime && in_i64(val_dt(d[1].1))
    &&& d[2].0 == "updated_at"@ && d[2].1 is DateTime && in_i64(val_dt(d[2].1))
    &&& d[3].0 == "edition_id"@ && d[3].1 is Uuid
    &&& d[4].0 == "external_id"@ && d[4].1 is Text
    &&& d[5].0 == "external_source"@ && d[5].1 is Text
    &&& d[6].0 == "title"@ && d[6].1 is Text
    &&& d[7].0 == "authors"@ && d[7].1 is TextArray
    &&& d[8].0 == "publisher"@ && d[8].1 is Text
    &&& d[9].0 == "published_date"@ && d[9].1 is DateTime && in_i64(val_dt(d[9].1))
    &&& d[10].0 == "published_year"@ && d[10].1 is I32 && in_i32(val_i32(d[10].1))
    &&& d[11].0 == "description"@ && d[11].1 is Text
    &&& d[12].0 == "isbn10"@ && d[12].1 is Text
    &&& d[13].0 == "isbn13"@ && d[13].1 is Text
    &&& d[14].0 == "page_count"@ && d[14].1 is I32 && in_i32(val_i32(d[14].1))
    &&& d[15].0 == "print_type"@ && d[15].1 is Text
    &&& d[16].0 == "categories"@ && d[16].1 is TextArray
    &&& d[17].0 == "maturity_rating"@ && d[17].1 is Text
    &&& d[18].0 == "language"@ && d[18].1 is Text
    &&& d[19].0 == "image_url"@ && d[19].1 is Text
    &&& d[20].0 == "image_url_small"@ && d[20].1 is Text
    &&& d[21].0 == "preview_link"@ && d[21].1 is Text
}

/// The value fits a 64-bit signed integer.
pub open spec fn in_i64(v: int) -> bool {
    i64::MIN <= v <= i64::MAX
}

/// The value fits a 32-bit signed integer.
pub open spec fn in_i32(v: int) -> bool {
    i32::MIN <= v <= i32::MAX
}

/// An optional identifier reconstructs a column value: present exactly when
/// the stored identifier is not nil.
pub open spec fn opt_uuid_match(o: Option<Uuid>, u: u128) -> bool {
    match o {
        Some(x) => x@ == u && u != 0,
        None => u == 0,
    }
}

/// An optional text reconstructs a column value: present exactly when the
/// stored text is not empty.
pub open spec fn opt_text_match(o: Option<String>, s: Seq<char>) -> bool {
    match o {
        Some(x) => x@ == s && s.len() > 0,
        None => s.len() == 0,
    }
}

/// An optional timestamp reconstructs a column value: present exactly when
/// the stored timestamp is not the epoch.
pub open spec fn opt_dt_match(o: Option<DateTime>, m: int) -> bool {
    match o {
        Some(x) => x@ == m && m != 0,
        None => m == 0,
    }
}

/// An optional integer reconstructs a column value: present exactly when
/// the stored integer is not zero.
pub open spec fn opt_i32_match(o: Option<i32>, x: int) -> bool {
    match o {
        Some(y) => y as int == x && x != 0,
        None => x == 0,
    }
}

/// An optional text array reconstructs a column value: present exactly when
/// the stored array is not empty.
pub open spec fn opt_texts_match(o: Option<Vec<String>>, vs: Seq<Seq<char>>) -> bool {
    match o {
        Some(v) => v.deep_view() == vs && vs.len() > 0,
        None => vs.len() == 0,
    }
}

/// The book `b` is the reconstruction of the row `d`: equal in every
/// mandatory field, with each optional field present exactly when the
/// stored column holds a non-default value.
pub open spec fn book_matches_desc(b: Book, d: Desc) -> bool {
    &&& b.id@ == val_uuid(d[0].1)
    &&& b.created_at@ == val_dt(d[1].1)
    &&& b.updated_at@ == val_dt(d[2].1)
    &&& opt_uuid_match(b.edition_id, val_uuid(d[3].1))
    &&& opt_text_match(b.external_id, val_text(d[4].1))
    &&& opt_text_match(b.external_source, val_text(d[5].1))
    &&& b.title@ == val_text(d[6].1)
    &&& b.authors.deep_view() == val_texts(d[7].1)
    &&& opt_text_match(b.publisher, val_text(d[8].1))
    &&& opt_dt_match(b.published_date, val_dt(d[9].1))
    &&& opt_i32_match(b.published_year, val_i32(d[10].1))
    &&& opt_text_match(b.description, val_text(d[11].1))
    &&& opt_text_match(b.isbn10, val_text(d[12].1))
    &&& opt_text_match(b.isbn13, val_text(d[13].1))
    &&& opt_i32_match(b.page_count, val_i32(d[14].1))
    &&& opt_text_match(b.print_type, val_text(d[15].1))
    &&& opt_texts_match(b.categories, val_texts(d[16].1))
    &&& opt_text_match(b.maturity_rating, val_text(d[17].1))
    &&& opt_text_match(b.language, val_text(d[18].1))
    &&& opt_text_match(b.image_url, val_text(d[19].1))
    &&& opt_text_match(b.image_url_small, val_text(d[20].1))
    &&& opt_text_match(b.preview_link, val_text(d[21].1))
}

// region: column readers

/// Reads column `i` as an identifier under the name `key`.
fn col_uuid(row: &Row, i: usize, key: &str) -> (r: Option<Uuid>)
    requires
        row.wf(),
        i < row.names@.len(),
    ensures
        match r {
            Some(u) => row@[i as int].0 == key@ && row@[i as int].1 is Uuid && u@ == val_uuid(
                row@[i as int].1,
            ),
            None => !(row@[i as int].0 == key@ && row@[i as int].1 is Uuid),
        },
{
    let k: String = key.to_owned();
    if !(row.names[i] == k) {
        return None;
    }
    match &row.values[i] {
        IterableType::Uuid(u) => Some(*u),
        _ => None,
    }
}

/// Reads column `i` as a timestamp under the name `key`.
fn col_dt(row: &Row, i: usize, key: &str) -> (r: Option<DateTime>)
    requires
        row.wf(),
        i < row.names@.len(),
    ensures
        match r {
            Some(d) => row@[i as int].0 == key@ && row@[i as int].1 is DateTime && d@ == val_dt(
                row@[i as int].1,
            ) && in_i64(val_dt(row@[i as int].1)),
            None => !(row@[i as int].0 == key@ && row@[i as int].1 is DateTime),
        },
{
    let k: String = key.to_owned();
    if !(row.names[i] == k) {
        return None;
    }
    match &row.values[i] {
        IterableType::DateTime(d) => Some(*d),
        _ => None,
    }
}

/// Reads column `i` as a text under the name `key`.
fn col_text(row: &Row, i: usize, key: &str) -> (r: Option<String>)
    requires
        row.wf(),
        i < row.names@.len(),
    ensures
        match r {
            Some(s) => row@[i as int].0 == key@ && row@[i as int].1 is Text && s@ == val_text(
                row@[i as int].1,
            ),
            None => !(row@[i as int].0 == key@ && row@[i as int].1 is Text),
        },
{
    let k: String = key.to_owned();
    if !(row.names[i] == k) {
        return None;
    }
    match &row.values[i] {
        IterableType::String(s) => Some(s.clone()),
        _ => None,
    }
}

/// Reads column `i` as an integer under the name `key`.
fn col_i32(row: &Row, i: usize, key: &str) -> (r: Option<i32>)
    requires
        row.wf(),
        i < row.names@.len(),
    ensures
        match r {
            Some(x) => row@[i as int].0 == key@ && row@[i as int].1 is I32 && x as int == val_i32(
                row@[i as int].1,
            ) && in_i32(val_i32(row@[i as int].1)),
            None => !(row@[i as int].0 == key@ && row@[i as int].1 is I32),
        },
{
    let k: String = key.to_owned();
    if !(row.names[i] == k) {
        return None;
    }
    match &row.values[i] {
        IterableType::I32(x) => Some(*x),
        _ => None,
    }
}

/// Reads column `i` as a text array under the name `key`.
fn col_texts(row: &Row, i: usize, key: &str) -> (r: Option<Vec<String>>)
    requires
        row.wf(),
        i < row.names@.len(),
    ensures
        match r {
            Some(v) => row@[i as int].0 == key@ && row@[i as int].1 is TextArray && v.deep_view()
                == val_texts(row@[i as int].1),
            None => !(row@[i as int].0 == key@ && row@[i as int].1 is TextArray),
        },
{
    let k: String = key.to_owned();
    if !(row.names[i] == k) {
        return None;
    }
    match &row.values[i] {
        IterableType::StringArray(v) => Some(clone_strings(v)),
        _ => None,
    }
}

// endregion: column readers

// region: optional-field reconstruction helpers

/// The optional identifier a stored identifier reconstructs to.
fn opt_of_uuid(u: Uuid) -> (r: Option<Uuid>)
    ensures
        opt_uuid_match(r, u@),
{
    if u.0 == 0 {
        None
    } else {
        Some(u)
    }
}

/// The optional text a stored text reconstructs to.
fn opt_of_text(s: String) -> (r: Option<String>)
    ensures
        opt_text_match(r, s@),
{
    if s.as_str().is_empty() {
        None
    } else {
        Some(s)
    }
}

/// The optional timestamp a stored timestamp reconstructs to.
fn opt_of_dt(d: DateTime) -> (r: Option<DateTime>)
    ensures
        opt_dt_match(r, d@),
{
    if d.0 == 0 {
        None
    } else {
        Some(d)
    }
}

/// The optional integer a stored integer reconstructs to.
fn opt_of_i32(x: i32) -> (r: Option<i32>)
    ensures
        opt_i32_match(r, x as int),
{
    if x == 0 {
        None
    } else {
        Some(x)
    }
}

/// The optional text array a stored text array reconstructs to.
fn opt_of_texts(v: Vec<String>) -> (r: Option<Vec<String>>)
    ensures
        opt_texts_match(r, v.deep_view()),
{
    if v.is_empty() {
        proof {
            assert(v.deep_view() =~= Seq::<Seq<char>>::empty());
        }
        None
    } else {
        Some(v)
    }
}

// endregion: optional-field reconstruction helpers

impl Book {
    /// Reconstructs a book from a raw result row. The row must have the
    /// book table's exact shape; any other row is a malformed store reply.
    pub fn from_row(row: &Row) -> (r: Result<Book>)
        requires
            row.wf(),
        ensures
            match r {
                Ok(b) => book_shaped(row@) && book_matches_desc(b, row@),
                Err(Error::Sqlx(_)) => !book_shaped(row@),
                _ => false,
            },
    {
        if row.names.len() != 22 {
            return Err(Error::Sqlx(String::from_str("malformed row")));
        }
        let id = match col_uuid(row, 0, "id") {
            Some(u) => u,
            None => {
                return Err(Error::Sqlx(String::from_str("malformed row")));
            },
        };
        let created_at = match col_dt(row, 1, "created_at") {
            Some(d) => d,
            None => {
                return Err(Error::Sqlx(String::from_str("malformed row")));
            },
        };
        let updated_at = match col_dt(row, 2, "updated_at") {
            Some(d) => d,
            None => {
                return Err(Error::Sqlx(String::from_str("malformed row")));
            },
        };
        let edition_id = match col_uuid(row, 3, "edition_id") {
            Some(u) => u,
            None => {
                return Err(Error::Sqlx(String::from_str("malformed row")));
            },
        };
        let external_id = match col_text(row, 4, "external_id") {
            Some(s) => s,
            None => {
                return Err(Error::Sqlx(String::from_str("malformed row")));
            },
        };
        let external_source = match col_text(row, 5, "external_source") {
            Some(s) => s,
            None => {
                return Err(Error::Sqlx(String::from_str("malformed row")));
            },
        };
        let title = match col_text(row, 6, "title") {
            Some(s) => s,
            None => {
                return Err(Error::Sqlx(String::from_str("malformed row")));
            },
        };
        let authors = match col_texts(row, 7, "authors") {
            Some(v) => v,
            None => {
                return Err(Error::Sqlx(String::from_str("malformed row")));
            },
        };
        let publisher = match col_text(row, 8, "publisher") {
            Some(s) => s,
            None => {
                return Err(Error::Sqlx(String::from_str("malformed row")));
            },
        };
        let published_date = match col_dt(row, 9, "published_date") {
            Some(d) => d,
            None => {
                return Err(Error::Sqlx(String::from_str("malformed row")));
            },
        };
        let published_year = match col_i32(row, 10, "published_year") {
            Some(x) => x,
            None => {
                return Err(Error::Sqlx(String::from_str("malformed row")));
            },
        };
        let description = match col_text(row, 11, "description") {
            Some(s) => s,
            None => {
                return Err(Error::Sqlx(String::from_str("malformed row")));
            },
        };
        let isbn10 = match col_text(row, 12, "isbn10") {
            Some(s) => s,
            None => {
                return Err(Error::Sqlx(String::from_str("malformed row")));
            },
        };
        let isbn13 = match col_text(row, 13, "isbn13") {
            Some(s) => s,
            None => {
                return Err(Error::Sqlx(String::from_str("malformed row")));
            },
        };
        let page_count = match col_i32(row, 14, "page_count") {
            Some(x) => x,
            None => {
                return Err(Error::Sqlx(String::from_str("malformed row")));
            },
        };
        let print_type = match col_text(row, 15, "print_type") {
            Some(s) => s,
            None => {
                return Err(Error::Sqlx(String::from_str("malformed row")));
            },
        };
        let categories = match col_texts(row, 16, "categories") {
            Some(v) => v,
            None => {
                return Err(Error::Sqlx(String::from_str("malformed row")));
            },
        };
        let maturity_rating = match col_text(row, 17, "maturity_rating") {
            Some(s) => s,
            None => {
                return Err(Error::Sqlx(String::from_str("malformed row")));
            },
        };
        let language = match col_text(row, 18, "language") {
            Some(s) => s,
            None => {
                return Err(Error::Sqlx(String::from_str("malformed row")));
            },
        };
        let image_url = match col_text(row, 19, "image_url") {
            Some(s) => s,
            None => {
                return Err(Error::Sqlx(String::from_str("malformed row")));
            },
        };
        let image_url_small = match col_text(row, 20, "image_url_small") {
            Some(s) => s,
            None => {
                return Err(Error::Sqlx(String::from_str("malformed row")));
            },
        };
        let preview_link = match col_text(row, 21, "preview_link") {
            Some(s) => s,
            None => {
                return Err(Error::Sqlx(String::from_str("malformed row")));
            },
        };
        Ok(
            Book {
                id,
                created_at,
                updated_at,
                edition_id: opt_of_uuid(edition_id),
                external_id: opt_of_text(external_id),
                external_source: opt_of_text(external_source),
                title,
                authors,
                publisher: opt_of_text(publisher),
                published_date: opt_of_dt(published_date),
                published_year: opt_of_i32(published_year),
                description: opt_of_text(description),
                isbn10: opt_of_text(isbn10),
                isbn13: opt_of_text(isbn13),
                page_count: opt_of_i32(page_count),
                print_type: opt_of_text(print_type),
                categories: opt_of_texts(categories),
                maturity_rating: opt_of_text(maturity_rating),
                language: opt_of_text(language),
                image_url: opt_of_text(image_url),
                image_url_small: opt_of_text(image_url_small),
                preview_link: opt_of_text(preview_link),
            },
        )
    }
}

// endregion: reconstruction from a raw row

} // verus!
