use galadriel::book::{Book, BookForCreate, BookForUpdate};
use galadriel::iterable::Iterable;

/// A full record reports equally many names and values, and no name twice.
#[test]
fn book_describe_aligned_and_unique() {
    let mut book_fc = BookForCreate::default();
    book_fc.title = "Novecento".to_string();
    book_fc.authors = vec!["Baricco Alessandro".to_string()];
    let book = Book::new(book_fc).expect("Book::new failed");

    let (names, values) = book.get_fields();
    assert_eq!(names.len(), values.len());
    assert_eq!(names.len(), 22);
    for i in 0..names.len() {
        for j in (i + 1)..names.len() {
            assert_ne!(names[i], names[j]);
        }
    }
    assert_eq!(names[0], "id");
    assert_eq!(names[6], "title");
    assert_eq!(names[21], "preview_link");
}

/// A sparse record reports the updated-timestamp column always, and beyond
/// it only the populated fields, in column order, without repeats.
#[test]
fn update_describe_sparse() {
    let mut book_fu = BookForUpdate::default();
    book_fu.title = Some("Novecento - Un monologo".to_string());
    book_fu.page_count = Some(100);

    let (names, values) = book_fu.get_fields();
    assert_eq!(names.len(), values.len());
    assert_eq!(names, vec!["updated_at", "title", "page_count"]);
    for i in 0..names.len() {
        for j in (i + 1)..names.len() {
            assert_ne!(names[i], names[j]);
        }
    }
}

/// A record for update with no field set still describes the
/// updated-timestamp column.
#[test]
fn update_describe_empty_still_has_timestamp() {
    let book_fu = BookForUpdate::default();
    let (names, values) = book_fu.get_fields();
    assert_eq!(names, vec!["updated_at"]);
    assert_eq!(values.len(), 1);
}
