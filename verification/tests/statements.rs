use galadriel::book::{Book, BookForCreate, BookForUpdate};
use galadriel::iterable::IterableType;
use galadriel::sql;
use galadriel::values::Uuid;

fn sample_book() -> Book {
    let mut book_fc = BookForCreate::default();
    book_fc.title = "Novecento".to_string();
    book_fc.authors = vec!["Baricco Alessandro".to_string()];
    Book::new(book_fc).expect("Book::new failed")
}

/// The INSERT statement lists all 22 columns, one placeholder per column,
/// and binds the described values in the same order.
#[test]
fn insert_statement_text() {
    let book = sample_book();
    let stmt = sql::insert_statement("books", &book);
    assert_eq!(
        stmt.text,
        "INSERT INTO books (id, created_at, updated_at, edition_id, external_id, \
         external_source, title, authors, publisher, published_date, published_year, \
         description, isbn10, isbn13, page_count, print_type, categories, maturity_rating, \
         language, image_url, image_url_small, preview_link) VALUES ($1, $2, $3, $4, $5, $6, \
         $7, $8, $9, $10, $11, $12, $13, $14, $15, $16, $17, $18, $19, $20, $21, $22) \
         RETURNING *"
    );
    assert_eq!(stmt.params.len(), 22);
    assert!(matches!(stmt.params[0], IterableType::Uuid(u) if u == book.id));
    assert!(matches!(&stmt.params[6], IterableType::String(s) if s == "Novecento"));
}

/// The UPDATE statement assigns one placeholder per described column, in
/// description order, and binds the identifier last.
#[test]
fn update_statement_text() {
    let mut book_fu = BookForUpdate::default();
    book_fu.title = Some("Novecento - Un monologo".to_string());
    book_fu.publisher = Some("Feltrinelli".to_string());
    let id = Uuid::new_v4();

    let stmt = sql::update_statement("books", &book_fu, id);
    assert_eq!(
        stmt.text,
        "UPDATE books SET updated_at = $1, title = $2, publisher = $3 WHERE id = $4"
    );
    assert_eq!(stmt.params.len(), 4);
    assert!(matches!(stmt.params[0], IterableType::DateTime(_)));
    assert!(matches!(&stmt.params[1], IterableType::String(s) if s == "Novecento - Un monologo"));
    assert!(matches!(&stmt.params[2], IterableType::String(s) if s == "Feltrinelli"));
    assert!(matches!(stmt.params[3], IterableType::Uuid(u) if u == id));
}

/// The SELECT-by-identifier statement binds exactly the identifier.
#[test]
fn select_by_id_statement_text() {
    let id = Uuid::new_v4();
    let stmt = sql::select_by_id_statement("books", id);
    assert_eq!(stmt.text, "SELECT * FROM books WHERE id = $1");
    assert_eq!(stmt.params.len(), 1);
    assert!(matches!(stmt.params[0], IterableType::Uuid(u) if u == id));
}

/// The SELECT-all statement binds nothing.
#[test]
fn select_all_statement_text() {
    let stmt = sql::select_all_statement("books");
    assert_eq!(stmt.text, "SELECT * FROM books");
    assert!(stmt.params.is_empty());
}

/// The DELETE statement binds exactly the identifier.
#[test]
fn delete_statement_text() {
    let id = Uuid::new_v4();
    let stmt = sql::delete_by_id_statement("books", id);
    assert_eq!(stmt.text, "DELETE FROM books WHERE id = $1");
    assert_eq!(stmt.params.len(), 1);
    assert!(matches!(stmt.params[0], IterableType::Uuid(u) if u == id));
}

/// Decimal text, digit by digit.
#[test]
fn dec_string_exact() {
    assert_eq!(sql::dec_string(0), "0");
    assert_eq!(sql::dec_string(9), "9");
    assert_eq!(sql::dec_string(10), "10");
    assert_eq!(sql::dec_string(23), "23");
    assert_eq!(sql::dec_string(907), "907");
    assert_eq!(sql::dec_string(u64::MAX), "18446744073709551615");
}
