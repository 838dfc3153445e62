use galadriel::book::{Book, BookForCreate, BookForUpdate};
use galadriel::crud;
use galadriel::model::ModelManager;
use galadriel::requests::UpdateBookRequest;
use galadriel::routes;
use galadriel::values::uuid_format;

/// The update route sets exactly the populated fields of the request and
/// leaves every other field as it was.
#[test]
fn update_book_works() {
    let mut model_manager = ModelManager::new();

    // create the book in the store
    let title = "Novecento".to_string();
    let authors = vec!["Baricco Alessandro".to_string()];
    let mut book_fc = BookForCreate::default();
    book_fc.title = title.clone();
    book_fc.authors = authors.clone();

    let book = Book::new(book_fc).expect("Book::new failed");
    let res = crud::create(&mut model_manager.db, "books", &book).expect("create failed");
    let book_db = Book::from_row(&res).expect("from_row failed");

    // define fields to update
    let updated_title = "Novecento - Un monologo".to_string();
    let updated_publisher = "Feltrinelli".to_string();
    let updated_page_count = 100;
    let updated_language = "it".to_string();
    let mut book_fu = BookForUpdate::default();
    book_fu.title = Some(updated_title.clone());
    book_fu.publisher = Some(updated_publisher.clone());
    book_fu.page_count = Some(updated_page_count);
    book_fu.language = Some(updated_language.clone());

    let mut update_book_request = UpdateBookRequest::from_book(book_fu);
    update_book_request.book_id = uuid_format(book_db.id.0);

    routes::update_book(update_book_request, &mut model_manager).expect("update_book failed");

    // get the updated book from the store
    let res_upd =
        crud::get_one_by_id(model_manager.db(), "books", book_db.id).expect("get failed");
    let user_auth_db_updated = Book::from_row(&res_upd).expect("from_row failed");

    // check that the book has been updated
    assert!(
        user_auth_db_updated.title == updated_title
            && user_auth_db_updated.publisher == Some(updated_publisher)
            && user_auth_db_updated.page_count == Some(updated_page_count)
            && user_auth_db_updated.language == Some(updated_language)
    );

    // untouched fields are unchanged
    assert_eq!(user_auth_db_updated.authors, authors);
    assert_eq!(user_auth_db_updated.id, book_db.id);
    assert_eq!(user_auth_db_updated.created_at, book_db.created_at);
}
