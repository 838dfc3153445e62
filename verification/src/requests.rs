//! The wire shapes of the transport boundary, as plain data, and the
//! conversions between them and the domain records. External text becomes a
//! typed value only through parsing, and a parse failure is reported as an
//! error, never a panic.

use vstd::prelude::*;

use crate::book::{opt_str_eq, Book, BookForCreate, BookForUpdate};
use crate::error::{Error, Result};
use crate::values::{
    datetime_format, datetime_from_text, datetime_parse, datetime_text_of, uuid_format,
    uuid_from_text, uuid_parse, uuid_text_of, DateTime, Uuid,
};

verus! {

/// The wire request that creates a book.
#[derive(Debug)]
pub struct CreateBookRequest {
    pub edition_id: Option<String>,
    pub external_id: Option<String>,
    pub external_source: Option<String>,
    pub title: String,
    pub authors: Vec<String>,
    pub publisher: Option<String>,
    pub published_date: Option<String>,
    pub published_year: Option<i32>,
    pub description: Option<String>,
    pub isbn10: Option<String>,
    pub isbn13: Option<String>,
    pub page_count: Option<i32>,
    pub print_type: Option<String>,
    pub categories: Vec<String>,
    pub maturity_rating: Option<String>,
    pub language: Option<String>,
    pub image_url: Option<String>,
    pub image_url_small: Option<String>,
    pub preview_link: Option<String>,
}

/// The wire reply to a create request.
#[derive(Debug)]
pub struct CreateBookResponse {
    pub success: bool,
}

/// The wire request that updates a book.
#[derive(Debug)]
pub struct UpdateBookRequest {
    pub book_id: String,
    pub edition_id: Option<String>,
    pub external_id: Option<String>,
    pub external_source: Option<String>,
    pub title: Option<String>,
    pub authors: Vec<String>,
    pub publisher: Option<String>,
    pub published_date: Option<String>,
    pub published_year: Option<i32>,
    pub description: Option<String>,
    pub isbn10: Option<String>,
    pub isbn13: Option<String>,
    pub page_count: Option<i32>,
    pub print_type: Option<String>,
    pub categories: Vec<String>,
    pub maturity_rating: Option<String>,
    pub language: Option<String>,
    pub image_url: Option<String>,
    pub image_url_small: Option<String>,
    pub preview_link: Option<String>,
}

/// The wire reply to an update request.
#[derive(Debug)]
pub struct UpdateBookResponse {
    pub success: bool,
}

/// The wire request that deletes a book.
#[derive(Debug)]
pub struct DeleteBookRequest {
    pub book_id: String,
}

/// The wire reply to a delete request.
#[derive(Debug)]
pub struct DeleteBookResponse {
    pub success: bool,
}

/// The wire request that checks liveness.
#[derive(Debug)]
pub struct HealthCheckRequest {}

/// The wire reply to a liveness check.
#[derive(Debug)]
pub struct HealthCheckResponse {
    pub success: bool,
}

/// An optional identifier parses from optional wire text: present exactly
/// when text was present, holding the value the text parses to.
pub open spec fn opt_uuid_parsed(text: Option<String>, o: Option<Uuid>) -> bool {
    match text {
        Some(s) => o matches Some(u) && uuid_from_text(s@) == Some(u@),
        None => o is None,
    }
}

/// An optional timestamp parses from optional wire text: present exactly
/// when text was present, holding the value the text parses to.
pub open spec fn opt_dt_parsed(text: Option<String>, o: Option<DateTime>) -> bool {
    match text {
        Some(s) => o matches Some(d) && datetime_from_text(s@) == Some(d.0),
        None => o is None,
    }
}

/// A repeated wire field maps to an optional list: absent when empty.
pub open spec fn opt_list_of(list: Seq<String>, o: Option<Vec<String>>) -> bool {
    if list.len() == 0 {
        o is None
    } else {
        o matches Some(v) && v@ == list
    }
}

/// Parses an optional identifier field.
fn parse_opt_uuid(text: &Option<String>) -> (r: Result<Option<Uuid>>)
    ensures
        match r {
            Ok(o) => opt_uuid_parsed(*text, o),
            Err(Error::InvalidUuidFormat) => text matches Some(s) && uuid_from_text(s@) is None,
            _ => false,
        },
{
    match text {
        Some(s) => match uuid_parse(s.as_str()) {
            Some(u) => Ok(Some(Uuid(u))),
            None => Err(Error::InvalidUuidFormat),
        },
        None => Ok(None),
    }
}

/// Parses an optional timestamp field in the form `%Y-%m-%d %H:%M:%S`.
fn parse_opt_datetime(text: &Option<String>) -> (r: Result<Option<DateTime>>)
    ensures
        match r {
            Ok(o) => opt_dt_parsed(*text, o),
            Err(Error::InvalidDateTimeFormat) => text matches Some(s) && datetime_from_text(s@)
                is None,
            _ => false,
        },
{
    match text {
        Some(s) => match datetime_parse(s.as_str()) {
            Some(m) => Ok(Some(DateTime(m))),
            None => Err(Error::InvalidDateTimeFormat),
        },
        None => Ok(None),
    }
}

/// Maps a repeated wire field to an optional list: absent when empty.
fn opt_of_list(list: Vec<String>) -> (r: Option<Vec<String>>)
    ensures
        opt_list_of(list@, r),
{
    if list.is_empty() {
        None
    } else {
        Some(list)
    }
}

/// The record for create `b` is the parsed form of the wire request `cbr`.
pub open spec fn create_parsed(cbr: CreateBookRequest, b: BookForCreate) -> bool {
    &&& opt_uuid_parsed(cbr.edition_id, b.edition_id)
    &&& opt_str_eq(b.external_id, cbr.external_id)
    &&& opt_str_eq(b.external_source, cbr.external_source)
    &&& b.title@ == cbr.title@
    &&& b.authors@ == cbr.authors@
    &&& opt_str_eq(b.publisher, cbr.publisher)
    &&& opt_dt_parsed(cbr.published_date, b.published_date)
    &&& b.published_year == cbr.published_year
    &&& opt_str_eq(b.description, cbr.description)
    &&& opt_str_eq(b.isbn10, cbr.isbn10)
    &&& opt_str_eq(b.isbn13, cbr.isbn13)
    &&& b.page_count == cbr.page_count
    &&& opt_str_eq(b.print_type, cbr.print_type)
    &&& opt_list_of(cbr.categories@, b.categories)
    &&& opt_str_eq(b.maturity_rating, cbr.maturity_rating)
    &&& opt_str_eq(b.language, cbr.language)
    &&& opt_str_eq(b.image_url, cbr.image_url)
    &&& opt_str_eq(b.image_url_small, cbr.image_url_small)
    &&& opt_str_eq(b.preview_link, cbr.preview_link)
}

/// The record for update `b` is the parsed form of the wire request `ubr`.
pub open spec fn upd_parsed(ubr: UpdateBookRequest, b: BookForUpdate) -> bool {
    &&& opt_uuid_parsed(ubr.edition_id, b.edition_id)
    &&& opt_str_eq(b.external_id, ubr.external_id)
    &&& opt_str_eq(b.external_source, ubr.external_source)
    &&& opt_str_eq(b.title, ubr.title)
    &&& opt_list_of(ubr.authors@, b.authors)
    &&& opt_str_eq(b.publisher, ubr.publisher)
    &&& opt_dt_parsed(ubr.published_date, b.published_date)
    &&& b.published_year == ubr.published_year
    &&& opt_str_eq(b.description, ubr.description)
    &&& opt_str_eq(b.isbn10, ubr.isbn10)
    &&& opt_str_eq(b.isbn13, ubr.isbn13)
    &&& b.page_count == ubr.page_count
    &&& opt_str_eq(b.print_type, ubr.print_type)
    &&& opt_list_of(ubr.categories@, b.categories)
    &&& opt_str_eq(b.maturity_rating, ubr.maturity_rating)
    &&& opt_str_eq(b.language, ubr.language)
    &&& opt_str_eq(b.image_url, ubr.image_url)
    &&& opt_str_eq(b.image_url_small, ubr.image_url_small)
    &&& opt_str_eq(b.preview_link, ubr.preview_link)
}

impl BookForCreate {
    /// Builds a record for create from the wire request: identifiers and
    /// timestamps are parsed from text, a malformed one is a parse error
    /// and nothing more runs.
    pub fn from_request(cbr: CreateBookRequest) -> (r: Result<BookForCreate>)
        ensures
            match r {
                Ok(b) => create_parsed(cbr, b),
        Err(Error::InvalidUuidFormat) => cbr.edition_id matches Some(s) && uuid_from_text(
                    s@,
                ) is None,
                Err(Error::InvalidDateTimeFormat) => {
                    &&& (cbr.edition_id matches Some(s) ==> uuid_from_text(s@) is Some)
                    &&& cbr.published_date matches Some(s) && datetime_from_text(s@) is None
                },
                _ => false,
            },
    {
        let edition_id = match parse_opt_uuid(&cbr.edition_id) {
            Ok(o) => o,
            Err(e) => {
                return Err(e);
            },
        };
        let published_date = match parse_opt_datetime(&cbr.published_date) {
            Ok(o) => o,
            Err(e) => {
                return Err(e);
            },
        };
        Ok(
            BookForCreate {
                edition_id,
                external_id: cbr.external_id,
                external_source: cbr.external_source,
                title: cbr.title,
                authors: cbr.authors,
                publisher: cbr.publisher,
                published_date,
                published_year: cbr.published_year,
                description: cbr.description,
                isbn10: cbr.isbn10,
                isbn13: cbr.isbn13,
                page_count: cbr.page_count,
                print_type: cbr.print_type,
                categories: opt_of_list(cbr.categories),
                maturity_rating: cbr.maturity_rating,
                language: cbr.language,
                image_url: cbr.image_url,
                image_url_small: cbr.image_url_small,
                preview_link: cbr.preview_link,
            },
        )
    }
}

/// Formats an optional identifier for the wire.
fn format_opt_uuid(o: &Option<Uuid>) -> (r: Option<String>)
    ensures
        match o {
            Some(u) => r matches Some(s) && s@ == uuid_text_of(u@) && uuid_from_text(s@) == Some(
                u@,
            ),
            None => r is None,
        },
{
    match o {
        Some(u) => Some(uuid_format(u.0)),
        None => None,
    }
}

/// Formats an optional timestamp for the wire.
fn format_opt_dt(o: &Option<DateTime>) -> (r: Option<String>)
    ensures
        match o {
            Some(d) => r matches Some(s) && s@ == datetime_text_of(d.0),
            None => r is None,
        },
{
    match o {
        Some(d) => Some(datetime_format(d.0)),
        None => None,
    }
}

/// The wire request `cbr` is the formed (text) image of the record `b_fc`:
/// identifiers and timestamps in their text forms, absent lists as empty
/// repeated fields.
pub open spec fn create_formed(cbr: CreateBookRequest, b_fc: BookForCreate) -> bool {
    &&& (match b_fc.edition_id {
        Some(u) => cbr.edition_id matches Some(s) && s@ == uuid_text_of(u@) && uuid_from_text(s@)
            == Some(u@),
        None => cbr.edition_id is None,
    })
    &&& opt_str_eq(cbr.external_id, b_fc.external_id)
    &&& opt_str_eq(cbr.external_source, b_fc.external_source)
    &&& cbr.title@ == b_fc.title@
    &&& cbr.authors@ == b_fc.authors@
    &&& opt_str_eq(cbr.publisher, b_fc.publisher)
    &&& (match b_fc.published_date {
        Some(d) => cbr.published_date matches Some(s) && s@ == datetime_text_of(d.0),
        None => cbr.published_date is None,
    })
    &&& cbr.published_year == b_fc.published_year
    &&& opt_str_eq(cbr.description, b_fc.description)
    &&& opt_str_eq(cbr.isbn10, b_fc.isbn10)
    &&& opt_str_eq(cbr.isbn13, b_fc.isbn13)
    &&& cbr.page_count == b_fc.page_count
    &&& opt_str_eq(cbr.print_type, b_fc.print_type)
    &&& (match b_fc.categories {
        Some(v) => cbr.categories@ == v@,
        None => cbr.categories@.len() == 0,
    })
    &&& opt_str_eq(cbr.maturity_rating, b_fc.maturity_rating)
    &&& opt_str_eq(cbr.language, b_fc.language)
    &&& opt_str_eq(cbr.image_url, b_fc.image_url)
    &&& opt_str_eq(cbr.image_url_small, b_fc.image_url_small)
    &&& opt_str_eq(cbr.preview_link, b_fc.preview_link)
}

impl CreateBookRequest {
    /// Builds the wire request that carries a record for create:
    /// identifiers and timestamps become their text forms, an absent list
    /// becomes the empty repeated field.
    pub fn from_book(b_fc: BookForCreate) -> (r: CreateBookRequest)
        ensures
            create_formed(r, b_fc),
    {
        let edition_id = format_opt_uuid(&b_fc.edition_id);
        let published_date = format_opt_dt(&b_fc.published_date);
        let categories = match b_fc.categories {
            Some(v) => v,
            None => Vec::new(),
        };
        CreateBookRequest {
            edition_id,
            external_id: b_fc.external_id,
            external_source: b_fc.external_source,
            title: b_fc.title,
            authors: b_fc.authors,
            publisher: b_fc.publisher,
            published_date,
            published_year: b_fc.published_year,
            description: b_fc.description,
            isbn10: b_fc.isbn10,
            isbn13: b_fc.isbn13,
            page_count: b_fc.page_count,
            print_type: b_fc.print_type,
            categories,
            maturity_rating: b_fc.maturity_rating,
            language: b_fc.language,
            image_url: b_fc.image_url,
            image_url_small: b_fc.image_url_small,
            preview_link: b_fc.preview_link,
        }
    }
}

impl BookForUpdate {
    /// Builds a sparse record for update from the wire request: only
    /// populated wire fields are set, the updated timestamp is the current
    /// instant, and a malformed identifier or timestamp is a parse error.
    pub fn from_request(ubr: UpdateBookRequest) -> (r: Result<BookForUpdate>)
        ensures
            match r {
                Ok(b) => upd_parsed(ubr, b),
        Err(Error::InvalidUuidFormat) => ubr.edition_id matches Some(s) && uuid_from_text(
                    s@,
                ) is None,
                Err(Error::InvalidDateTimeFormat) => {
                    &&& (ubr.edition_id matches Some(s) ==> uuid_from_text(s@) is Some)
                    &&& ubr.published_date matches Some(s) && datetime_from_text(s@) is None
                },
                _ => false,
            },
    {
        let edition_id = match parse_opt_uuid(&ubr.edition_id) {
            Ok(o) => o,
            Err(e) => {
                return Err(e);
            },
        };
        let published_date = match parse_opt_datetime(&ubr.published_date) {
            Ok(o) => o,
            Err(e) => {
                return Err(e);
            },
        };
        Ok(
            BookForUpdate {
                updated_at: DateTime::now(),
                edition_id,
                external_id: ubr.external_id,
                external_source: ubr.external_source,
                title: ubr.title,
                authors: opt_of_list(ubr.authors),
                publisher: ubr.publisher,
                published_date,
                published_year: ubr.published_year,
                description: ubr.description,
                isbn10: ubr.isbn10,
                isbn13: ubr.isbn13,
                page_count: ubr.page_count,
                print_type: ubr.print_type,
                categories: opt_of_list(ubr.categories),
                maturity_rating: ubr.maturity_rating,
                language: ubr.language,
                image_url: ubr.image_url,
                image_url_small: ubr.image_url_small,
                preview_link: ubr.preview_link,
            },
        )
    }
}

impl UpdateBookRequest {
    /// Builds the wire request that carries a record for update, with an
    /// empty target identifier for the caller to fill in.
    pub fn from_book(b_fu: BookForUpdate) -> (r: UpdateBookRequest)
        ensures
            r.book_id@.len() == 0,
            (match b_fu.edition_id {
                Some(u) => r.edition_id matches Some(s) && s@ == uuid_text_of(u@),
                None => r.edition_id is None,
            }),
            opt_str_eq(r.external_id, b_fu.external_id),
            opt_str_eq(r.external_source, b_fu.external_source),
            opt_str_eq(r.title, b_fu.title),
            (match b_fu.authors {
                Some(v) => r.authors@ == v@,
                None => r.authors@.len() == 0,
            }),
            opt_str_eq(r.publisher, b_fu.publisher),
            (match b_fu.published_date {
                Some(d) => r.published_date matches Some(s) && s@ == datetime_text_of(d.0),
                None => r.published_date is None,
            }),
            r.published_year == b_fu.published_year,
            opt_str_eq(r.description, b_fu.description),
            opt_str_eq(r.isbn10, b_fu.isbn10),
            opt_str_eq(r.isbn13, b_fu.isbn13),
            r.page_count == b_fu.page_count,
            opt_str_eq(r.print_type, b_fu.print_type),
            (match b_fu.categories {
                Some(v) => r.categories@ == v@,
                None => r.categories@.len() == 0,
            }),
            opt_str_eq(r.maturity_rating, b_fu.maturity_rating),
            opt_str_eq(r.language, b_fu.language),
            opt_str_eq(r.image_url, b_fu.image_url),
            opt_str_eq(r.image_url_small, b_fu.image_url_small),
            opt_str_eq(r.preview_link, b_fu.preview_link),
    {
        let edition_id = format_opt_uuid(&b_fu.edition_id);
        let published_date = format_opt_dt(&b_fu.published_date);
        let authors = match b_fu.authors {
            Some(v) => v,
            None => Vec::new(),
        };
        let categories = match b_fu.categories {
            Some(v) => v,
            None => Vec::new(),
        };
        UpdateBookRequest {
            book_id: String::new(),
            edition_id,
            external_id: b_fu.external_id,
            external_source: b_fu.external_source,
            title: b_fu.title,
            authors,
            publisher: b_fu.publisher,
            published_date,
            published_year: b_fu.published_year,
            description: b_fu.description,
            isbn10: b_fu.isbn10,
            isbn13: b_fu.isbn13,
            page_count: b_fu.page_count,
            print_type: b_fu.print_type,
            categories,
            maturity_rating: b_fu.maturity_rating,
            language: b_fu.language,
            image_url: b_fu.image_url,
            image_url_small: b_fu.image_url_small,
            preview_link: b_fu.preview_link,
        }
    }
}

} // verus!
