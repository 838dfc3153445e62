use galadriel::book::{Book, BookForCreate, BookForUpdate};
use galadriel::crud;
use galadriel::db::{Db, Row};
use galadriel::error::Error;
use galadriel::iterable::{Iterable, IterableType};
use galadriel::model::ModelManager;
use galadriel::requests::{CreateBookRequest, UpdateBookRequest};
use galadriel::values::{datetime_format, datetime_parse, uuid_format, uuid_parse, Uuid};

/// The identifier text form is the lowercase hyphenated one, 36 characters.
#[test]
fn uuid_format_exact() {
    assert_eq!(uuid_format(0), "00000000-0000-0000-0000-000000000000");
    let u: u128 = 0x0123456789abcdef0123456789abcdef;
    let text = uuid_format(u);
    assert_eq!(text, "01234567-89ab-cdef-0123-456789abcdef");
    assert_eq!(text.len(), 36);
}

/// Parsing inverts formatting, and malformed text is rejected.
#[test]
fn uuid_parse_round_trip() {
    let u: u128 = 0x0123456789abcdef0123456789abcdef;
    assert_eq!(uuid_parse(&uuid_format(u)), Some(u));
    assert_eq!(uuid_parse("00000000-0000-0000-0000-000000000000"), Some(0));
    assert_eq!(uuid_parse("not a uuid"), None);
    assert_eq!(uuid_parse(""), None);
}

/// A generated identifier is never nil.
#[test]
fn generated_uuid_not_nil() {
    for _ in 0..32 {
        assert!(Uuid::new_v4() != Uuid::nil());
    }
}

/// Timestamp text in the fixed format parses to the exact microsecond
/// value; other shapes are rejected.
#[test]
fn datetime_parse_exact() {
    assert_eq!(datetime_parse("1970-01-01 00:00:00"), Some(0));
    assert_eq!(datetime_parse("2021-03-04 05:06:07"), Some(1_614_834_367_000_000));
    assert_eq!(datetime_parse("04/03/2021"), None);
    assert_eq!(datetime_parse(""), None);
}

/// Timestamp formatting renders the instant, not its input unchanged.
#[test]
fn datetime_format_exact() {
    assert_eq!(datetime_format(0), "1970-01-01 00:00:00 UTC");
    assert_eq!(datetime_format(1_614_834_367_000_000), "2021-03-04 05:06:07 UTC");
}

/// A malformed identifier in a create request is a parse error, never a
/// panic.
#[test]
fn from_request_bad_uuid() {
    let mut req = CreateBookRequest::from_book(BookForCreate::default());
    req.title = "Novecento".to_string();
    req.authors = vec!["Baricco Alessandro".to_string()];
    req.edition_id = Some("xyz".to_string());

    let res = BookForCreate::from_request(req);
    assert!(matches!(res, Err(Error::InvalidUuidFormat)));
}

/// A malformed timestamp in an update request is a parse error.
#[test]
fn from_request_bad_datetime() {
    let mut req = UpdateBookRequest::from_book(BookForUpdate::default());
    req.published_date = Some("next tuesday".to_string());

    let res = BookForUpdate::from_request(req);
    assert!(matches!(res, Err(Error::InvalidDateTimeFormat)));
}

/// A well-formed create request parses into the record, with identifier
/// and timestamp text converted to typed values.
#[test]
fn from_request_parses_fields() {
    let mut req = CreateBookRequest::from_book(BookForCreate::default());
    req.title = "Novecento".to_string();
    req.authors = vec!["Baricco Alessandro".to_string()];
    req.edition_id = Some("01234567-89ab-cdef-0123-456789abcdef".to_string());
    req.published_date = Some("2021-03-04 05:06:07".to_string());
    req.categories = vec!["novel".to_string()];

    let b = BookForCreate::from_request(req).expect("from_request failed");
    assert_eq!(b.edition_id.map(|u| u.0), Some(0x0123456789abcdef0123456789abcdefu128));
    assert_eq!(b.published_date.map(|d| d.0), Some(1_614_834_367_000_000));
    assert_eq!(b.categories, Some(vec!["novel".to_string()]));
    assert_eq!(b.title, "Novecento");
}

/// A row that does not have the book table's shape is a malformed store
/// reply, not a panic.
#[test]
fn from_row_malformed() {
    let row = Row {
        names: vec!["id".to_string(), "title".to_string()],
        values: vec![
            IterableType::Uuid(Uuid(7)),
            IterableType::String("Novecento".to_string()),
        ],
    };
    assert!(matches!(Book::from_row(&row), Err(Error::Sqlx(_))));
}

/// Inserting a row under an identifier the table already holds is a
/// store-reported constraint failure.
#[test]
fn duplicate_id_rejected() {
    let mut mm = ModelManager::new();
    let mut book_fc = BookForCreate::default();
    book_fc.title = "Novecento".to_string();
    book_fc.authors = vec!["Baricco Alessandro".to_string()];
    let book = Book::new(book_fc).expect("Book::new failed");

    crud::create(&mut mm.db, "books", &book).expect("first create failed");
    let second = crud::create(&mut mm.db, "books", &book);
    assert!(matches!(second, Err(Error::Sqlx(_))));
}

/// An operation against a table the store does not have is a
/// store-reported error.
#[test]
fn unknown_table_rejected() {
    let db = Db::new();
    let res = crud::get_one_by_id(&db, "books", Uuid::new_v4());
    assert!(matches!(res, Err(Error::Sqlx(_))));
}

/// Zero returned rows where one was owed is the entity not found; more
/// than one violates the uniqueness assumption.
#[test]
fn single_row_interpreter() {
    let id = Uuid::new_v4();
    let none = crud::expect_single_row("books", id, Vec::new());
    assert!(matches!(none, Err(Error::SqlxEntityNotFound { .. })));

    let row = || Row { names: Vec::new(), values: Vec::new() };
    let one = crud::expect_single_row("books", id, vec![row()]);
    assert!(one.is_ok());

    let two = crud::expect_single_row("books", id, vec![row(), row()]);
    assert!(matches!(two, Err(Error::InvariantViolation { .. })));
}

/// A zero affected-row count is the entity not found.
#[test]
fn affected_interpreter() {
    let id = Uuid::new_v4();
    assert!(matches!(
        crud::expect_affected("books", id, 0),
        Err(Error::SqlxEntityNotFound { .. })
    ));
    assert!(crud::expect_affected("books", id, 1).is_ok());
}

/// The row an insert returns is exactly the record's description.
#[test]
fn create_returns_described_row() {
    let mut mm = ModelManager::new();
    let mut book_fc = BookForCreate::default();
    book_fc.title = "Novecento".to_string();
    book_fc.authors = vec!["Baricco Alessandro".to_string()];
    let book = Book::new(book_fc).expect("Book::new failed");

    let (names, _) = book.get_fields();
    let row = crud::create(&mut mm.db, "books", &book).expect("create failed");
    assert_eq!(row.names, names);
    assert_eq!(row.values.len(), names.len());
}
