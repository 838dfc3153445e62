//! The table store the CRUD engine runs against: named tables of rows, each
//! row an ordered column description. The store is modeled as a sequence of
//! (table name, rows) pairs looked up by first match.

use vstd::prelude::*;

use crate::iterable::{pairs_match, Desc, IterableType};

verus! {

/// One raw result row: column names paired positionally with typed values.
#[derive(Debug)]
pub struct Row {
    pub names: Vec<String>,
    pub values: Vec<IterableType>,
}

/// The description formed by pairing names and values positionally.
pub open spec fn fields_view(ns: Seq<String>, vs: Seq<IterableType>) -> Desc {
    Seq::new(ns.len(), |i: int| (ns[i]@, vs[i]@))
}

/// Aligned name and value vectors form exactly the description they match.
pub proof fn lemma_pairs_match_view(ns: Seq<String>, vs: Seq<IterableType>, d: Desc)
    requires
        pairs_match(ns, vs, d),
    ensures
        fields_view(ns, vs) == d,
{
    assert(fields_view(ns, vs) =~= d);
}

impl Row {
    /// The name and value columns line up.
    pub open spec fn wf(&self) -> bool {
        self.names@.len() == self.values@.len()
    }
}

impl View for Row {
    type V = Desc;

    open spec fn view(&self) -> Desc {
        fields_view(self.names@, self.values@)
    }
}

impl DeepView for Row {
    type V = Desc;

    open spec fn deep_view(&self) -> Desc {
        self@
    }
}

/// Clones a vector of typed values; every clone carries the same
/// mathematical value.
pub fn clone_values(v: &Vec<IterableType>) -> (r: Vec<IterableType>)
    ensures
        r@.len() == v@.len(),
        forall|i: int| 0 <= i < v@.len() ==> r@[i]@ == v@[i]@,
{
    let mut r: Vec<IterableType> = Vec::new();
    let mut i: usize = 0;
    while i < v.len()
        invariant
            i <= v.len(),
            r@.len() == i,
            forall|k: int| 0 <= k < i ==> r@[k]@ == v@[k]@,
        decreases v.len() - i,
    {
        r.push(v[i].clone());
        i = i + 1;
    }
    r
}

impl Clone for Row {
    /// A clone of a well-formed row is a row with the same description.
    fn clone(&self) -> (r: Self)
        ensures
            self.wf() ==> r@ == self@,
            r.wf() == self.wf(),
            r.names@ == self.names@,
    {
        let r = Row {
            names: crate::iterable::clone_strings(&self.names),
            values: clone_values(&self.values),
        };
        proof {
            if self.wf() {
                assert forall|i: int| 0 <= i < self@.len() implies r@[i] == self@[i] by {
                    assert(r.values@[i]@ == self.values@[i]@);
                }
                assert(r@ =~= self@);
            }
        }
        r
    }
}

/// One named table and its rows, in insertion order.
#[derive(Debug)]
pub struct Table {
    pub name: String,
    pub rows: Vec<Row>,
}

impl View for Table {
    type V = (Seq<char>, Seq<Desc>);

    open spec fn view(&self) -> (Seq<char>, Seq<Desc>) {
        (self.name@, self.rows.deep_view())
    }
}

impl DeepView for Table {
    type V = (Seq<char>, Seq<Desc>);

    open spec fn deep_view(&self) -> (Seq<char>, Seq<Desc>) {
        self@
    }
}

/// The store's mathematical value: table names paired with their rows.
pub type DbV = Seq<(Seq<char>, Seq<Desc>)>;

/// The rows of the table named `name`, if the store has such a table.
pub open spec fn lookup(db: DbV, name: Seq<char>) -> Option<Seq<Desc>>
    decreases db.len(),
{
    if db.len() == 0 {
        None
    } else if db[0].0 == name {
        Some(db[0].1)
    } else {
        lookup(db.drop_first(), name)
    }
}

/// The store with the rows of the table named `name` replaced by `rows`.
pub open spec fn store(db: DbV, name: Seq<char>, rows: Seq<Desc>) -> DbV
    decreases db.len(),
{
    if db.len() == 0 {
        db
    } else if db[0].0 == name {
        seq![(name, rows)] + db.drop_first()
    } else {
        seq![db[0]] + store(db.drop_first(), name, rows)
    }
}

/// Looking a name up skips any prefix of tables with other names.
pub proof fn lemma_lookup_skip(db: DbV, name: Seq<char>, i: int)
    requires
        0 <= i <= db.len(),
        forall|k: int| 0 <= k < i ==> db[k].0 != name,
    ensures
        lookup(db, name) == lookup(db.skip(i), name),
    decreases i,
{
    if i > 0 {
        lemma_lookup_skip(db.drop_first(), name, i - 1);
        assert(db.drop_first().skip(i - 1) =~= db.skip(i));
    } else {
        assert(db.skip(0) =~= db);
    }
}

/// A name is absent from the store exactly when no table carries it.
pub proof fn lemma_lookup_none(db: DbV, name: Seq<char>)
    ensures
        lookup(db, name) is None <==> (forall|k: int| 0 <= k < db.len() ==> db[k].0 != name),
    decreases db.len(),
{
    if db.len() > 0 {
        let dd = db.drop_first();
        lemma_lookup_none(dd, name);
        assert(forall|k: int| 0 <= k < dd.len() ==> dd[k] == db[k + 1]);
        if lookup(db, name) is None {
            assert forall|k: int| 0 <= k < db.len() implies db[k].0 != name by {
                if k > 0 {
                    assert(dd[k - 1].0 != name);
                }
            }
        }
        if forall|k: int| 0 <= k < db.len() ==> db[k].0 != name {
            assert forall|k: int| 0 <= k < dd.len() implies dd[k].0 != name by {
                assert(db[k + 1].0 != name);
            }
            assert(lookup(dd, name) is None);
        }
    }
}

/// Storing at the first table of the looked-up name updates that entry and
/// nothing else.
pub proof fn lemma_store_at(db: DbV, name: Seq<char>, rows: Seq<Desc>, i: int)
    requires
        0 <= i < db.len(),
        db[i].0 == name,
        forall|k: int| 0 <= k < i ==> db[k].0 != name,
    ensures
        store(db, name, rows) =~= db.update(i, (name, rows)),
    decreases i,
{
    if i == 0 {
        assert(store(db, name, rows) =~= db.update(0, (name, rows)));
    } else {
        let dd = db.drop_first();
        assert(forall|k: int| 0 <= k < i - 1 ==> dd[k].0 != name);
        lemma_store_at(dd, name, rows, i - 1);
        assert(store(db, name, rows) =~= db.update(i, (name, rows)));
    }
}

/// After storing rows under a name the store has, looking the name up
/// yields exactly those rows.
pub proof fn lemma_lookup_after_store(db: DbV, name: Seq<char>, rows: Seq<Desc>)
    requires
        lookup(db, name) is Some,
    ensures
        lookup(store(db, name, rows), name) == Some(rows),
    decreases db.len(),
{
    if db.len() > 0 && db[0].0 != name {
        lemma_lookup_after_store(db.drop_first(), name, rows);
        assert((seq![db[0]] + store(db.drop_first(), name, rows)).drop_first() =~= store(
            db.drop_first(),
            name,
            rows,
        ));
    }
}

/// The connection the CRUD engine runs against: an in-memory set of named
/// tables, the semantic model of one database.
#[derive(Debug)]
pub struct Db {
    pub tables: Vec<Table>,
}

impl View for Db {
    type V = DbV;

    open spec fn view(&self) -> DbV {
        self.tables.deep_view()
    }
}

/// The store's value lists, entry for entry, the tables it holds.
pub proof fn lemma_db_view_index(db: &Db)
    ensures
        db@.len() == db.tables@.len(),
        forall|k: int|
            0 <= k < db.tables@.len() ==> db@[k] == (
                db.tables@[k].name@,
                db.tables@[k].rows.deep_view(),
            ),
{
    assert forall|k: int| 0 <= k < db.tables@.len() implies db@[k] == (
        db.tables@[k].name@,
        db.tables@[k].rows.deep_view(),
    ) by {
        assert(db@[k] == db.tables@[k].deep_view());
    }
}

impl Db {
    /// Table names are unique and every row is well formed.
    pub open spec fn wf(&self) -> bool {
        &&& forall|i: int, j: int|
            0 <= i < j < self.tables@.len() ==> self.tables@[i].name@ != self.tables@[j].name@
        &&& forall|i: int, j: int|
            0 <= i < self.tables@.len() && 0 <= j < self.tables@[i].rows@.len()
                ==> (#[trigger] self.tables@[i].rows@[j]).wf()
    }

    /// An empty store with no tables.
    pub fn new() -> (r: Db)
        ensures
            r@.len() == 0,
            r.wf(),
    {
        let r = Db { tables: Vec::new() };
        proof {
            assert(r@ =~= Seq::<(Seq<char>, Seq<Desc>)>::empty());
        }
        r
    }

    /// The index of the table named `name`, if the store has one.
    pub fn find_table(&self, name: &str) -> (r: Option<usize>)
        ensures
            match r {
                Some(i) => i < self.tables@.len() && self.tables@[i as int].name@ == name@
                    && lookup(self@, name@) == Some(self.tables@[i as int].rows.deep_view()),
                None => lookup(self@, name@) is None,
            },
    {
        let key: String = name.to_owned();
        let mut i: usize = 0;
        while i < self.tables.len()
            invariant
                i <= self.tables@.len(),
                key@ == name@,
                forall|k: int| 0 <= k < i ==> self.tables@[k].name@ != name@,
            decreases self.tables@.len() - i,
        {
            if self.tables[i].name == key {
                proof {
                    lemma_db_view_index(self);
                    lemma_lookup_skip(self@, name@, i as int);
                    assert(self@.skip(i as int)[0] == self@[i as int]);
                }
                return Some(i);
            }
            i = i + 1;
        }
        proof {
            lemma_db_view_index(self);
            lemma_lookup_skip(self@, name@, i as int);
            assert(self@.skip(i as int) =~= Seq::<(Seq<char>, Seq<Desc>)>::empty());
        }
        None
    }

    /// Creates an empty table under `name`; an existing table of that name
    /// is left as it is. This is the schema-migration step run once at
    /// startup, before any engine call.
    pub fn create_table(&mut self, name: &str)
        requires
            old(self).wf(),
        ensures
            final(self).wf(),
            lookup(old(self)@, name@) is Some ==> final(self)@ == old(self)@,
            lookup(old(self)@, name@) is None ==> final(self)@ == old(self)@.push(
                (name@, Seq::<Desc>::empty()),
            ),
            lookup(final(self)@, name@) is Some,
    {
        let found = self.find_table(name);
        match found {
            Some(_) => {
                proof {
                    assert(self.tables@ == old(self).tables@);
                    assert(self.wf());
                }
            },
            None => {
                proof {
                    lemma_lookup_none(old(self)@, name@);
                    lemma_db_view_index(self);
                }
                let t = Table { name: name.to_owned(), rows: Vec::new() };
                proof {
                    assert(t@.1 =~= Seq::<Desc>::empty());
                }
                self.tables.push(t);
                proof {
                    lemma_db_view_index(self);
                    assert(self@ =~= old(self)@.push((name@, Seq::<Desc>::empty())));
                    assert(forall|k: int|
                        0 <= k < old(self)@.len() ==> old(self)@[k].0 != name@);
                    assert(forall|k: int|
                        0 <= k < old(self).tables@.len() ==> self.tables@[k]
                            == old(self).tables@[k]);
                    lemma_lookup_skip(self@, name@, self@.len() - 1);
                    assert(self@.skip(self@.len() - 1)[0] == self@[self@.len() - 1]);
                    let n = self.tables@.len();
                    assert forall|i: int, j: int| 0 <= i < j < n implies self.tables@[i].name@
                        != self.tables@[j].name@ by {
                        if j < n - 1 {
                            assert(old(self).tables@[i].name@ != old(self).tables@[j].name@);
                        } else {
                            assert(old(self)@[i].0 != name@);
                            assert(old(self)@[i].0 == old(self).tables@[i].name@);
                        }
                    }
                    assert forall|i: int, j: int|
                        0 <= i < n && 0 <= j < self.tables@[i].rows@.len() implies (
                    #[trigger] self.tables@[i].rows@[j]).wf() by {
                        if i < n - 1 {
                            assert((old(self).tables@[i].rows@[j]).wf());
                        } else {
                            assert(self.tables@[i].rows@.len() == 0);
                        }
                    }
                    assert(self.wf());
                }
            },
        }
    }
}

} // verus!
