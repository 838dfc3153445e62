//! The book entity controller: validation, orchestration over the CRUD
//! engine, and reconstruction of typed records from raw rows. Validation
//! failures are reported before the store is touched.

use vstd::prelude::*;

use crate::book::{
    book_desc, book_matches_desc, book_shaped, create_fields_match, Book, BookForCreate,
    BookForUpdate,
};
use crate::crud;
use crate::crud::{has_all_names, matching, row_id_of, update_rows, without};
use crate::db::{lookup, store};
use crate::error::{Error, Result};
use crate::iterable::{Desc, Iterable};
use crate::model::ModelManager;
use crate::values::Uuid;

verus! {

/// The book a create call persists: it carries exactly the supplied fields,
/// under the given fresh identifier.
pub open spec fn created_book(b: Book, c: BookForCreate, id: u128) -> bool {
    &&& create_fields_match(b, c)
    &&& b.id@ == id
    &&& id != 0
}

/// The rows of the book table.
pub open spec fn book_rows(mm: ModelManager) -> Seq<Desc> {
    lookup(mm.db@, "books"@)->Some_0
}

/// The book model controller: create, get, get-all, update and delete for
/// the book table.
pub struct BookBmc;

impl BookBmc {
    /// Validates the record, persists it as a new book and returns the
    /// generated identifier. An empty title or authors list is rejected
    /// before the store is touched.
    pub fn create(model_manager: &mut ModelManager, b_fc: BookForCreate) -> (r: Result<Uuid>)
        requires
            old(model_manager).wf(),
        ensures
            final(model_manager).wf(),
            b_fc.title@.len() == 0 ==> r matches Err(Error::BookTitleNotSet),
            b_fc.title@.len() > 0 && b_fc.authors@.len() == 0 ==> r matches Err(
                Error::BookAuthorsNotSet,
            ),
            match r {
                Ok(id) => {
                    &&& b_fc.title@.len() > 0 && b_fc.authors@.len() > 0
                    &&& id@ != 0
                    &&& matching(book_rows(*old(model_manager)), id@).len() == 0
                    &&& exists|b: Book|
                        #[trigger] created_book(b, b_fc, id@) && final(model_manager).db@ == store(
                            old(model_manager).db@,
                            "books"@,
                            book_rows(*old(model_manager)).push(book_desc(b)),
                        )
                },
                Err(Error::BookTitleNotSet) => b_fc.title@.len() == 0 && *final(model_manager)
                    == *old(model_manager),
                Err(Error::BookAuthorsNotSet) => b_fc.title@.len() > 0 && b_fc.authors@.len() == 0
                    && *final(model_manager) == *old(model_manager),
                Err(Error::Sqlx(_)) => final(model_manager).db@ == old(model_manager).db@
                    && book_rows(*old(model_manager)).len() > 0,
                _ => false,
            },
    {
        let book = match Book::new(b_fc) {
            Ok(b) => b,
            Err(e) => {
                return Err(e);
            },
        };
        let res = match crud::create(&mut model_manager.db, "books", &book) {
            Ok(row) => row,
            Err(e) => {
                proof {
                    if book_rows(*old(model_manager)).len() == 0 {
                        assert(matching(
                            book_rows(*old(model_manager)),
                            row_id_of(book.fields_spec())->0,
                        ).len() == 0);
                    }
                }
                return Err(e);
            },
        };
        let book_created = match Book::from_row(&res) {
            Ok(b) => b,
            Err(e) => {
                proof {
                    assert(book_shaped(res@));
                }
                return Err(e);
            },
        };
        proof {
            crate::db::lemma_lookup_after_store(
                old(model_manager).db@,
                "books"@,
                book_rows(*old(model_manager)).push(book_desc(book)),
            );
            assert(created_book(book, b_fc, book_created.id@));
            assert(model_manager.db@ == store(
                old(model_manager).db@,
                "books"@,
                book_rows(*old(model_manager)).push(book_desc(book)),
            ));
            crate::laws::lemma_book_row_id(book);
            assert(matching(book_rows(*old(model_manager)), book_created.id@).len() == 0);
        }
        Ok(book_created.id)
    }

    /// Returns the one book stored under `id`; a missing book is the entity
    /// not found, two books under one identifier are a violated invariant.
    pub fn get(model_manager: &ModelManager, id: Uuid) -> (r: Result<Book>)
        requires
            model_manager.wf(),
        ensures
            match r {
                Ok(b) => {
                    &&& matching(book_rows(*model_manager), id@).len() == 1
                    &&& book_shaped(matching(book_rows(*model_manager), id@)[0])
                    &&& book_matches_desc(b, matching(book_rows(*model_manager), id@)[0])
                },
                Err(Error::SqlxEntityNotFound { entity, id: eid }) => {
                    &&& matching(book_rows(*model_manager), id@).len() == 0
                    &&& entity@ == "books"@
                    &&& eid == id
                },
                Err(Error::InvariantViolation { entity, id: eid }) => {
                    &&& matching(book_rows(*model_manager), id@).len() >= 2
                    &&& entity@ == "books"@
                    &&& eid == id
                },
                _ => false,
            },
    {
        let res = match crud::get_one_by_id(model_manager.db(), "books", id) {
            Ok(row) => row,
            Err(e) => {
                return Err(e);
            },
        };
        proof {
            crud::lemma_matching_elements(book_rows(*model_manager), id@);
            assert(matching(book_rows(*model_manager), id@)[0] == res@);
            assert(crud::in_rows(
                book_rows(*model_manager),
                matching(book_rows(*model_manager), id@)[0],
            ));
            assert(crud::in_rows(book_rows(*model_manager), res@));
            let j = choose|j: int|
                0 <= j < book_rows(*model_manager).len() && res@ == #[trigger] book_rows(
                    *model_manager,
                )[j];
            assert(book_shaped(res@));
        }
        let book = match Book::from_row(&res) {
            Ok(b) => b,
            Err(e) => {
                proof {
                    assert(false);
                }
                return Err(e);
            },
        };
        Ok(book)
    }

    /// Returns every stored book, in stored order; an empty table yields the
    /// empty list, not an error.
    pub fn get_all(model_manager: &ModelManager) -> (r: Result<Vec<Book>>)
        requires
            model_manager.wf(),
        ensures
            match r {
                Ok(books) => {
                    &&& books@.len() == book_rows(*model_manager).len()
                    &&& forall|k: int|
                        0 <= k < books@.len() ==> book_shaped(
                            #[trigger] book_rows(*model_manager)[k],
                        ) && book_matches_desc(books@[k], book_rows(*model_manager)[k])
                },
                _ => false,
            },
    {
        let res = match crud::get_all(model_manager.db(), "books") {
            Ok(rows) => rows,
            Err(e) => {
                proof {
                    assert(false);
                }
                return Err(e);
            },
        };
        let ghost rows = book_rows(*model_manager);
        let mut books: Vec<Book> = Vec::new();
        let mut j: usize = 0;
        while j < res.len()
            invariant
                model_manager.wf(),
                rows == book_rows(*model_manager),
                res.deep_view() == rows,
                forall|k: int| 0 <= k < res@.len() ==> (#[trigger] res@[k]).wf(),
                j <= res@.len(),
                books@.len() == j,
                forall|k: int|
                    0 <= k < j ==> book_shaped(#[trigger] rows[k]) && book_matches_desc(
                        books@[k],
                        rows[k],
                    ),
            decreases res@.len() - j,
        {
            proof {
                assert(rows[j as int] == res@[j as int]@);
                assert(book_shaped(book_rows(*model_manager)[j as int]));
            }
            let book = match Book::from_row(&res[j]) {
                Ok(b) => b,
                Err(e) => {
                    proof {
                        assert(false);
                    }
                    return Err(e);
                },
            };
            proof {
                assert(rows[j as int] == res@[j as int]@);
            }
            books.push(book);
            j = j + 1;
        }
        Ok(books)
    }

    /// Sets the record's populated fields, and always the updated timestamp,
    /// on the book stored under `id`; zero affected rows is the entity not
    /// found.
    pub fn update(model_manager: &mut ModelManager, b_fu: BookForUpdate, id: Uuid) -> (r: Result<
        (),
    >)
        requires
            old(model_manager).wf(),
        ensures
            final(model_manager).wf(),
            match r {
                Ok(()) => {
                    &&& matching(book_rows(*old(model_manager)), id@).len() >= 1
                    &&& final(model_manager).db@ == store(
                        old(model_manager).db@,
                        "books"@,
                        update_rows(book_rows(*old(model_manager)), id@, b_fu.fields_spec()),
                    )
                },
                Err(Error::SqlxEntityNotFound { entity, id: eid }) => {
                    &&& matching(book_rows(*old(model_manager)), id@).len() == 0
                    &&& final(model_manager).db@ == old(model_manager).db@
                    &&& entity@ == "books"@
                    &&& eid == id
                },
                _ => false,
            },
    {
        let r = crud::update_by_id(&mut model_manager.db, "books", &b_fu, id);
        proof {
            let old_rows = book_rows(*old(model_manager));
            if r is Ok {
                let new_rows = update_rows(old_rows, id@, b_fu.fields_spec());
                crate::db::lemma_lookup_after_store(
                    old(model_manager).db@,
                    "books"@,
                    new_rows,
                );
                assert forall|k: int| 0 <= k < new_rows.len() implies book_shaped(
                    #[trigger] new_rows[k],
                ) by {
                    assert(book_shaped(old_rows[k]));
                    if row_id_of(old_rows[k]) == Some(id@) {
                        crate::laws::lemma_shaped_apply_upd(old_rows[k], b_fu);
                    }
                }
            }
            if r matches Err(Error::Sqlx(_)) {
                let k = choose|k: int|
                    0 <= k < old_rows.len() && row_id_of(#[trigger] old_rows[k]) == Some(id@)
                        && !has_all_names(old_rows[k], b_fu.fields_spec());
                crate::laws::lemma_shaped_has_all(old_rows[k], b_fu);
                assert(false);
            }
        }
        r
    }

    /// Deletes the book stored under `id`; zero affected rows is the entity
    /// not found, reported as such and never as silent success.
    pub fn delete(model_manager: &mut ModelManager, id: Uuid) -> (r: Result<()>)
        requires
            old(model_manager).wf(),
        ensures
            final(model_manager).wf(),
            match r {
                Ok(()) => {
                    &&& matching(book_rows(*old(model_manager)), id@).len() >= 1
                    &&& final(model_manager).db@ == store(
                        old(model_manager).db@,
                        "books"@,
                        without(book_rows(*old(model_manager)), id@),
                    )
                },
                Err(Error::SqlxEntityNotFound { entity, id: eid }) => {
                    &&& matching(book_rows(*old(model_manager)), id@).len() == 0
                    &&& final(model_manager).db@ == old(model_manager).db@
                    &&& entity@ == "books"@
                    &&& eid == id
                },
                _ => false,
            },
    {
        let r = crud::delete_by_id(&mut model_manager.db, "books", id);
        proof {
            let old_rows = book_rows(*old(model_manager));
            if r is Ok {
                let kept = without(old_rows, id@);
                crate::db::lemma_lookup_after_store(old(model_manager).db@, "books"@, kept);
                crud::lemma_without_elements(old_rows, id@);
                assert forall|k: int| 0 <= k < kept.len() implies book_shaped(
                    #[trigger] kept[k],
                ) by {
                    assert(crud::in_rows(old_rows, kept[k]));
                    let j = choose|j: int|
                        0 <= j < old_rows.len() && kept[k] == #[trigger] old_rows[j];
                    assert(book_shaped(old_rows[j]));
                }
            }
        }
        r
    }
}

} // verus!
