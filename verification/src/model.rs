//! The model manager: owns the table store and hands it to the entity
//! controllers. Building one runs the schema step that creates the book
//! table, before any engine call.

use vstd::prelude::*;

use crate::book::book_shaped;
use crate::db::{lookup, Db};
use crate::iterable::Desc;

verus! {

/// The one shared resource of the persistence layer: the table store.
#[derive(Debug)]
pub struct ModelManager {
    pub db: Db,
}

impl ModelManager {
    /// The store is well formed, the book table exists, and — the schema
    /// assumption the engine is handed — every stored book row has the book
    /// table's exact column shape.
    pub open spec fn wf(&self) -> bool {
        &&& self.db.wf()
        &&& lookup(self.db@, "books"@) is Some
        &&& forall|k: int|
            0 <= k < lookup(self.db@, "books"@)->Some_0.len() ==> book_shaped(
                #[trigger] lookup(self.db@, "books"@)->Some_0[k],
            )
    }

    /// A manager over a fresh store holding one empty book table.
    pub fn new() -> (r: ModelManager)
        ensures
            r.wf(),
            lookup(r.db@, "books"@) == Some(Seq::<Desc>::empty()),
    {
        let mut db = Db::new();
        db.create_table("books");
        proof {
            assert(db@[0] == ("books"@, Seq::<Desc>::empty()));
        }
        ModelManager { db }
    }

    /// A reference to the table store.
    pub fn db(&self) -> (r: &Db)
        ensures
            r == &self.db,
    {
        &self.db
    }
}

} // verus!
