use galadriel::book::{Book, BookForCreate};
use galadriel::crud;
use galadriel::model::ModelManager;
use galadriel::requests::DeleteBookRequest;
use galadriel::routes;
use galadriel::values::uuid_format;

/// The delete route removes the book, so a later fetch by its identifier
/// fails.
#[test]
fn delete_book_works() {
    let mut model_manager = ModelManager::new();

    // create the book in the store
    let title = "Novecento".to_string();
    let authors = vec!["Baricco Alessandro".to_string()];
    let mut book_fc = BookForCreate::default();
    book_fc.title = title.clone();
    book_fc.authors = authors.clone();

    let book = Book::new(book_fc).expect("Book::new failed");
    let res = crud::create(&mut model_manager.db, "books", &book).expect("create failed");
    let book_db = Book::from_row(&res).expect("from_row failed");

    let request = DeleteBookRequest { book_id: uuid_format(book_db.id.0) };
    routes::delete_book(request, &mut model_manager).expect("delete_book failed");

    // check that the book has been deleted
    let book_still_exists =
        crud::get_one_by_id(model_manager.db(), "books", book_db.id).is_ok();
    assert!(!book_still_exists);
}
