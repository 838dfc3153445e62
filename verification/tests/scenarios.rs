use galadriel::book::{Book, BookForCreate, BookForUpdate};
use galadriel::controller::BookBmc;
use galadriel::error::Error;
use galadriel::model::ModelManager;
use galadriel::routes::{self, StatusCode};
use galadriel::requests::CreateBookRequest;
use galadriel::values::{DateTime, Uuid};

fn novecento() -> BookForCreate {
    let mut book_fc = BookForCreate::default();
    book_fc.title = "Novecento".to_string();
    book_fc.authors = vec!["Baricco Alessandro".to_string()];
    book_fc
}

/// Create followed by a fetch of the returned identifier yields a book
/// equal to the original in every supplied field, with the generated
/// identifier and timestamps populated.
#[test]
fn create_then_get_round_trip() {
    let mut mm = ModelManager::new();
    let mut book_fc = novecento();
    book_fc.publisher = Some("Feltrinelli".to_string());
    book_fc.page_count = Some(321);
    book_fc.categories = Some(vec!["novel".to_string(), "music".to_string()]);

    let id = BookBmc::create(&mut mm, book_fc).expect("create failed");
    assert!(id != Uuid::nil());

    let book = BookBmc::get(&mm, id).expect("get failed");
    assert_eq!(book.id, id);
    assert_eq!(book.title, "Novecento");
    assert_eq!(book.authors, vec!["Baricco Alessandro".to_string()]);
    assert_eq!(book.publisher, Some("Feltrinelli".to_string()));
    assert_eq!(book.page_count, Some(321));
    assert_eq!(
        book.categories,
        Some(vec!["novel".to_string(), "music".to_string()])
    );
    assert_eq!(book.edition_id, None);
    assert_eq!(book.language, None);
}

/// Deleting an already-deleted identifier fails with the entity not found:
/// no crash and no silent success.
#[test]
fn delete_twice_not_found() {
    let mut mm = ModelManager::new();
    let id = BookBmc::create(&mut mm, novecento()).expect("create failed");

    BookBmc::delete(&mut mm, id).expect("first delete failed");

    let second = BookBmc::delete(&mut mm, id);
    assert!(matches!(
        second,
        Err(Error::SqlxEntityNotFound { .. })
    ));
}

/// An update with no field set still succeeds and still sets the
/// updated-timestamp column; everything else stays as it was.
#[test]
fn empty_update_sets_timestamp() {
    let mut mm = ModelManager::new();
    let id = BookBmc::create(&mut mm, novecento()).expect("create failed");

    let mut book_fu = BookForUpdate::default();
    book_fu.updated_at = DateTime(123456789);
    BookBmc::update(&mut mm, book_fu, id).expect("update failed");

    let book = BookBmc::get(&mm, id).expect("get failed");
    assert_eq!(book.updated_at, DateTime(123456789));
    assert_eq!(book.title, "Novecento");
    assert_eq!(book.authors, vec!["Baricco Alessandro".to_string()]);
}

/// A fetch of a never-created identifier fails with the entity not found,
/// not with a violated-invariant report.
#[test]
fn get_missing_id_not_found() {
    let mut mm = ModelManager::new();
    BookBmc::create(&mut mm, novecento()).expect("create failed");

    let missing = Uuid::new_v4();
    let got = BookBmc::get(&mm, missing);
    assert!(matches!(got, Err(Error::SqlxEntityNotFound { .. })));
    assert!(!matches!(got, Err(Error::InvariantViolation { .. })));
}

/// Fetching all rows of an empty table yields the empty list, not an error.
#[test]
fn get_all_empty_table() {
    let mm = ModelManager::new();
    let books = BookBmc::get_all(&mm).expect("get_all failed");
    assert!(books.is_empty());
}

/// A create with an empty title is rejected as a validation failure before
/// any store access: no row is written.
#[test]
fn create_empty_title_rejected() {
    let mut mm = ModelManager::new();
    let mut book_fc = BookForCreate::default();
    book_fc.authors = vec!["Baricco Alessandro".to_string()];

    let res = BookBmc::create(&mut mm, book_fc);
    assert!(matches!(res, Err(Error::BookTitleNotSet)));

    // verify no row was written
    let books = BookBmc::get_all(&mm).expect("get_all failed");
    assert!(books.is_empty());
}

/// A create with an empty authors list is rejected as a validation failure
/// before any store access.
#[test]
fn create_empty_authors_rejected() {
    let mut mm = ModelManager::new();
    let mut book_fc = BookForCreate::default();
    book_fc.title = "Novecento".to_string();

    let res = BookBmc::create(&mut mm, book_fc);
    assert!(matches!(res, Err(Error::BookAuthorsNotSet)));
    assert!(BookBmc::get_all(&mm).expect("get_all failed").is_empty());
}

/// The create route maps an empty title to an invalid-argument status
/// before touching the store.
#[test]
fn create_route_empty_title_invalid_argument() {
    let mut mm = ModelManager::new();
    let mut req = CreateBookRequest::from_book(BookForCreate::default());
    req.authors = vec!["Baricco Alessandro".to_string()];

    let res = routes::create_book(req, &mut mm);
    match res {
        Err(status) => assert_eq!(status.code, StatusCode::InvalidArgument),
        Ok(_) => panic!("empty title was accepted"),
    }
    assert!(BookBmc::get_all(&mm).expect("get_all failed").is_empty());
}

/// Each created book gets its own fresh identifier, and all of them are
/// found by a fetch of all rows, in insertion order.
#[test]
fn two_creates_two_rows() {
    let mut mm = ModelManager::new();
    let id1 = BookBmc::create(&mut mm, novecento()).expect("create failed");
    let mut other = BookForCreate::default();
    other.title = "Oceano mare".to_string();
    other.authors = vec!["Baricco Alessandro".to_string()];
    let id2 = BookBmc::create(&mut mm, other).expect("create failed");

    assert_ne!(id1, id2);
    let books = BookBmc::get_all(&mm).expect("get_all failed");
    assert_eq!(books.len(), 2);
    assert_eq!(books[0].title, "Novecento");
    assert_eq!(books[1].title, "Oceano mare");
}

/// After a delete, fetching the same identifier fails with the entity not
/// found.
#[test]
fn get_after_delete_not_found() {
    let mut mm = ModelManager::new();
    let id = BookBmc::create(&mut mm, novecento()).expect("create failed");
    BookBmc::delete(&mut mm, id).expect("delete failed");

    let got = BookBmc::get(&mm, id);
    assert!(matches!(got, Err(Error::SqlxEntityNotFound { .. })));
}

/// A deliberate boundary of the column encoding: an optional field that
/// holds its column's default value (here, the empty text) is stored as
/// that default and reconstructed as absent.
#[test]
fn default_valued_option_collapses() {
    let mut mm = ModelManager::new();
    let mut book_fc = novecento();
    book_fc.external_id = Some("".to_string());

    let id = BookBmc::create(&mut mm, book_fc).expect("create failed");
    let book = BookBmc::get(&mm, id).expect("get failed");
    assert_eq!(book.external_id, None);
}

/// The create route maps a malformed optional identifier to an
/// invalid-argument status, not success and not an internal error.
#[test]
fn create_route_bad_edition_id_invalid_argument() {
    let mut mm = ModelManager::new();
    let mut req = CreateBookRequest::from_book(novecento());
    req.edition_id = Some("not-a-uuid".to_string());

    let res = routes::create_book(req, &mut mm);
    match res {
        Err(status) => assert_eq!(status.code, StatusCode::InvalidArgument),
        Ok(_) => panic!("malformed edition_id was accepted"),
    }
    assert!(BookBmc::get_all(&mm).expect("get_all failed").is_empty());
}

/// The update route reports a well-formed identifier with no stored row as
/// not found, never as an internal error.
#[test]
fn update_route_missing_id_not_found() {
    let mut mm = ModelManager::new();
    BookBmc::create(&mut mm, novecento()).expect("create failed");

    let mut req = galadriel::requests::UpdateBookRequest::from_book(BookForUpdate::default());
    req.book_id = galadriel::values::uuid_format(Uuid::new_v4().0);
    req.title = Some("Oceano mare".to_string());

    let res = routes::update_book(req, &mut mm);
    match res {
        Err(status) => assert_eq!(status.code, StatusCode::NotFound),
        Ok(_) => panic!("update of a missing id succeeded"),
    }
}

/// The service facade reports liveness.
#[test]
fn health_check_works() {
    let service = galadriel::routes::ServiceGaladriel::new(ModelManager::new());
    let resp = service.health_check(galadriel::requests::HealthCheckRequest {});
    assert!(resp.success);
}
