use galadriel::book::{Book, BookForCreate};
use galadriel::controller::BookBmc;
use galadriel::model::ModelManager;
use galadriel::requests::CreateBookRequest;
use galadriel::routes;
use galadriel::values::Uuid;

/// The create route persists a book that a later fetch finds, with a
/// non-nil generated identifier and the supplied title and authors.
#[test]
fn create_book_works() {
    let mut model_manager = ModelManager::new();

    let title = "Novecento".to_string();
    let authors = vec!["Baricco Alessandro".to_string()];
    let mut book_fc = BookForCreate::default();
    book_fc.title = title.clone();
    book_fc.authors = authors.clone();

    let create_book_request = CreateBookRequest::from_book(book_fc);
    routes::create_book(create_book_request, &mut model_manager).expect("create_book failed");

    // fetch the created book back (the only row of the table)
    let books = BookBmc::get_all(&model_manager).expect("get_all failed");
    assert_eq!(books.len(), 1);
    let book: &Book = &books[0];

    assert!(book.id != Uuid::nil() && book.title == title && book.authors == authors);
}
