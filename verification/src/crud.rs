//! The generic CRUD engine: five operations over a table name and a
//! self-describing record, with exact semantics over the table store. Every
//! operation consumes the record's ordered column description, so the bound
//! values can never fall out of step with the columns they belong to.

use vstd::prelude::*;

use crate::db::{fields_view, lookup, store, Db, Row};
use crate::error::{Error, Result};
use crate::iterable::{Desc, Iterable, IterableType, Value};
use crate::values::Uuid;

verus! {

// region: description lookup

/// The value of the first column named `name` in `d`, if any.
pub open spec fn desc_get(d: Desc, name: Seq<char>) -> Option<Value>
    decreases d.len(),
{
    if d.len() == 0 {
        None
    } else if d[0].0 == name {
        Some(d[0].1)
    } else {
        desc_get(d.drop_first(), name)
    }
}

/// Getting a column skips any prefix of columns with other names.
pub proof fn lemma_desc_get_skip(d: Desc, name: Seq<char>, i: int)
    requires
        0 <= i <= d.len(),
        forall|k: int| 0 <= k < i ==> d[k].0 != name,
    ensures
        desc_get(d, name) == desc_get(d.skip(i), name),
    decreases i,
{
    if i > 0 {
        lemma_desc_get_skip(d.drop_first(), name, i - 1);
        assert(d.drop_first().skip(i - 1) =~= d.skip(i));
    } else {
        assert(d.skip(0) =~= d);
    }
}

/// Getting a column finds the first column of its name.
pub proof fn lemma_desc_get_at(d: Desc, name: Seq<char>, c: int)
    requires
        0 <= c < d.len(),
        d[c].0 == name,
        forall|k: int| 0 <= k < c ==> d[k].0 != name,
    ensures
        desc_get(d, name) == Some(d[c].1),
{
    lemma_desc_get_skip(d, name, c);
    assert(d.skip(c)[0] == d[c]);
}

/// A column value found by name occurs as a pair of the description.
pub proof fn lemma_desc_get_mem(d: Desc, name: Seq<char>)
    requires
        desc_get(d, name) is Some,
    ensures
        exists|j: int| 0 <= j < d.len() && #[trigger] d[j] == (name, desc_get(d, name)->0),
    decreases d.len(),
{
    if d.len() > 0 {
        if d[0].0 == name {
            assert(d[0] == (name, desc_get(d, name)->0));
        } else {
            let dd = d.drop_first();
            lemma_desc_get_mem(dd, name);
            let j = choose|j: int| 0 <= j < dd.len() && #[trigger] dd[j] == (
                name,
                desc_get(dd, name)->0,
            );
            assert(d[j + 1] == (name, desc_get(d, name)->0));
        }
    }
}

/// The row `r` occurs somewhere in `rows`.
pub open spec fn in_rows(rows: Seq<Desc>, r: Desc) -> bool {
    exists|j: int| 0 <= j < rows.len() && r == #[trigger] rows[j]
}

/// The identifier a row carries in its `id` column, if that column exists
/// and holds an identifier.
pub open spec fn row_id_of(d: Desc) -> Option<u128> {
    match desc_get(d, "id"@) {
        Some(Value::Uuid(u)) => Some(u),
        _ => None,
    }
}

/// The first index among `names` holding `key`, with the value it pairs to.
#[verifier::loop_isolation(false)]
fn find_name(names: &Vec<String>, values: &Vec<IterableType>, key: &str) -> (r: Option<usize>)
    requires
        names@.len() == values@.len(),
    ensures
        match r {
            Some(j) => j < names@.len() && names@[j as int]@ == key@ && desc_get(
                fields_view(names@, values@),
                key@,
            ) == Some(values@[j as int]@),
            None => desc_get(fields_view(names@, values@), key@) is None,
        },
{
    let k: String = key.to_owned();
    let ghost d = fields_view(names@, values@);
    let mut j: usize = 0;
    while j < names.len()
        invariant
            j <= names@.len(),
            names@.len() == values@.len(),
            k@ == key@,
            d == fields_view(names@, values@),
            forall|i: int| 0 <= i < j ==> d[i].0 != key@,
        decreases names@.len() - j,
    {
        if names[j] == k {
            proof {
                lemma_desc_get_skip(d, key@, j as int);
                assert(d.skip(j as int)[0] == d[j as int]);
            }
            return Some(j);
        }
        j = j + 1;
    }
    proof {
        lemma_desc_get_skip(d, key@, j as int);
        assert(d.skip(j as int) =~= Seq::<(Seq<char>, Value)>::empty());
    }
    None
}

/// The identifier in a row's `id` column, if any.
#[verifier::loop_isolation(false)]
pub fn row_id(row: &Row) -> (r: Option<Uuid>)
    requires
        row.wf(),
    ensures
        match r {
            Some(u) => row_id_of(row@) == Some(u@),
            None => row_id_of(row@) is None,
        },
{
    match find_name(&row.names, &row.values, "id") {
        Some(j) => match &row.values[j] {
            IterableType::Uuid(u) => Some(*u),
            _ => None,
        },
        None => None,
    }
}

// endregion: description lookup

// region: row filtering by identifier

/// The rows of `rows` whose `id` column holds `id`, in order.
pub open spec fn matching(rows: Seq<Desc>, id: u128) -> Seq<Desc>
    decreases rows.len(),
{
    if rows.len() == 0 {
        Seq::empty()
    } else {
        let rest = matching(rows.drop_last(), id);
        if row_id_of(rows.last()) == Some(id) {
            rest.push(rows.last())
        } else {
            rest
        }
    }
}

/// The rows of `rows` whose `id` column does not hold `id`, in order.
pub open spec fn without(rows: Seq<Desc>, id: u128) -> Seq<Desc>
    decreases rows.len(),
{
    if rows.len() == 0 {
        Seq::empty()
    } else {
        let rest = without(rows.drop_last(), id);
        if row_id_of(rows.last()) == Some(id) {
            rest
        } else {
            rest.push(rows.last())
        }
    }
}

/// Extends the matching and non-matching row filters by one row.
pub proof fn lemma_filter_step(rows: Seq<Desc>, id: u128, k: int)
    requires
        0 <= k < rows.len(),
    ensures
        row_id_of(rows[k]) == Some(id) ==> matching(rows.take(k + 1), id) == matching(
            rows.take(k),
            id,
        ).push(rows[k]) && without(rows.take(k + 1), id) == without(rows.take(k), id),
        row_id_of(rows[k]) != Some(id) ==> matching(rows.take(k + 1), id) == matching(
            rows.take(k),
            id,
        ) && without(rows.take(k + 1), id) == without(rows.take(k), id).push(rows[k]),
{
    assert(rows.take(k + 1).drop_last() =~= rows.take(k));
    assert(rows.take(k + 1).last() == rows[k]);
}

/// Every row the identifier filter finds comes from the filtered rows.
pub proof fn lemma_matching_elements(rows: Seq<Desc>, id: u128)
    ensures
        forall|i: int|
            0 <= i < matching(rows, id).len() ==> in_rows(rows, #[trigger] matching(rows, id)[i]),
    decreases rows.len(),
{
    if rows.len() > 0 {
        let dl = rows.drop_last();
        lemma_matching_elements(dl, id);
        let r = matching(rows, id);
        let rr = matching(dl, id);
        assert forall|i: int| 0 <= i < r.len() implies in_rows(rows, #[trigger] r[i]) by {
            if i < rr.len() {
                assert(r[i] == rr[i]);
                assert(in_rows(dl, rr[i]));
                let j = choose|j: int| 0 <= j < dl.len() && rr[i] == #[trigger] dl[j];
                assert(dl[j] == rows[j]);
                assert(rr[i] == rows[j]);
            } else {
                assert(r[i] == rows[rows.len() - 1]);
            }
        }
    }
}

/// Every row the delete filter keeps comes from the filtered rows.
pub proof fn lemma_without_elements(rows: Seq<Desc>, id: u128)
    ensures
        forall|i: int|
            0 <= i < without(rows, id).len() ==> in_rows(rows, #[trigger] without(rows, id)[i]),
    decreases rows.len(),
{
    if rows.len() > 0 {
        let dl = rows.drop_last();
        lemma_without_elements(dl, id);
        let r = without(rows, id);
        let rr = without(dl, id);
        assert forall|i: int| 0 <= i < r.len() implies in_rows(rows, #[trigger] r[i]) by {
            if i < rr.len() {
                assert(r[i] == rr[i]);
                assert(in_rows(dl, rr[i]));
                let j = choose|j: int| 0 <= j < dl.len() && rr[i] == #[trigger] dl[j];
                assert(dl[j] == rows[j]);
                assert(rr[i] == rows[j]);
            } else {
                assert(r[i] == rows[rows.len() - 1]);
            }
        }
    }
}

/// A prefix never holds more matching rows than the whole.
pub proof fn lemma_matching_mono(rows: Seq<Desc>, id: u128, j: int)
    requires
        0 <= j <= rows.len(),
    ensures
        matching(rows.take(j), id).len() <= matching(rows, id).len(),
    decreases rows.len() - j,
{
    if j == rows.len() {
        assert(rows.take(j) =~= rows);
    } else {
        lemma_filter_step(rows, id, j);
        lemma_matching_mono(rows, id, j + 1);
    }
}

// endregion: row filtering by identifier

// region: row update

/// Every column name of `upd` exists in `target`.
pub open spec fn has_all_names(target: Desc, upd: Desc) -> bool {
    forall|i: int| 0 <= i < upd.len() ==> desc_get(target, #[trigger] upd[i].0) is Some
}

/// `target` with each column that `upd` names set to the value `upd` binds;
/// columns `upd` does not name keep their value.
pub open spec fn apply_upd(target: Desc, upd: Desc) -> Desc {
    Seq::new(
        target.len(),
        |i: int|
            match desc_get(upd, target[i].0) {
                Some(v) => (target[i].0, v),
                None => target[i],
            },
    )
}

/// `rows` with every row whose `id` column holds `id` updated by `upd`.
pub open spec fn update_rows(rows: Seq<Desc>, id: u128, upd: Desc) -> Seq<Desc> {
    Seq::new(
        rows.len(),
        |i: int|
            if row_id_of(rows[i]) == Some(id) {
                apply_upd(rows[i], upd)
            } else {
                rows[i]
            },
    )
}

/// Whether every column `upd` names exists in the row.
#[verifier::loop_isolation(false)]
fn row_has_all(row: &Row, names: &Vec<String>, values: &Vec<IterableType>) -> (r: bool)
    requires
        row.wf(),
        names@.len() == values@.len(),
    ensures
        r == has_all_names(row@, fields_view(names@, values@)),
{
    let ghost upd = fields_view(names@, values@);
    let mut i: usize = 0;
    while i < names.len()
        invariant
            i <= names@.len(),
            names@.len() == values@.len(),
            row.wf(),
            upd == fields_view(names@, values@),
            forall|k: int| 0 <= k < i ==> desc_get(row@, #[trigger] upd[k].0) is Some,
        decreases names@.len() - i,
    {
        match find_name(&row.names, &row.values, names[i].as_str()) {
            Some(_) => {},
            None => {
                proof {
                    assert(upd[i as int].0 == names@[i as int]@);
                }
                return false;
            },
        }
        i = i + 1;
    }
    true
}

/// The row with every column `upd` names set to its bound value.
#[verifier::loop_isolation(false)]
fn apply_update_row(row: &Row, names: &Vec<String>, values: &Vec<IterableType>) -> (r: Row)
    requires
        row.wf(),
        names@.len() == values@.len(),
    ensures
        r.wf(),
        r@ == apply_upd(row@, fields_view(names@, values@)),
{
    let ghost upd = fields_view(names@, values@);
    let mut out_names: Vec<String> = Vec::new();
    let mut out_values: Vec<IterableType> = Vec::new();
    let mut i: usize = 0;
    while i < row.names.len()
        invariant
            i <= row.names@.len(),
            row.wf(),
            names@.len() == values@.len(),
            upd == fields_view(names@, values@),
            out_names@.len() == i,
            out_values@.len() == i,
            forall|k: int|
                0 <= k < i ==> (out_names@[k]@, out_values@[k]@) == apply_upd(row@, upd)[k],
        decreases row.names@.len() - i,
    {
        out_names.push(row.names[i].clone());
        match find_name(names, values, row.names[i].as_str()) {
            Some(j) => {
                out_values.push(values[j].clone());
            },
            None => {
                out_values.push(row.values[i].clone());
            },
        }
        i = i + 1;
    }
    let r = Row { names: out_names, values: out_values };
    proof {
        assert(r@ =~= apply_upd(row@, upd));
    }
    r
}

// endregion: row update

// region: the five operations

/// Inserts the record's full description as a new row and returns that row,
/// exactly as a statement `INSERT INTO .. RETURNING *` hands it back. Fails
/// when the table is unknown, or when the row carries an identifier a stored
/// row of the table already carries (the unique-key constraint).
#[verifier::loop_isolation(false)]
pub fn create<R: Iterable>(db: &mut Db, table: &str, record: &R) -> (r: Result<Row>)
    requires
        old(db).wf(),
    ensures
        final(db).wf(),
        match r {
            Ok(row) => {
                &&& lookup(old(db)@, table@) is Some
                &&& row.wf()
                &&& row@ == record.fields_spec()
                &&& (row_id_of(row@) matches Some(u) ==> matching(
                    lookup(old(db)@, table@)->Some_0,
                    u,
                ).len() == 0)
                &&& final(db)@ == store(
                    old(db)@,
                    table@,
                    lookup(old(db)@, table@)->Some_0.push(record.fields_spec()),
                )
            },
            Err(Error::Sqlx(_)) => {
                &&& final(db)@ == old(db)@
                &&& (lookup(old(db)@, table@) is None || (row_id_of(record.fields_spec()) is Some
                    && matching(
                    lookup(old(db)@, table@)->Some_0,
                    row_id_of(record.fields_spec())->0,
                ).len() > 0))
            },
            _ => false,
        },
{
    let (names, values) = record.get_fields();
    proof {
        crate::db::lemma_pairs_match_view(names@, values@, record.fields_spec());
    }
    let row = Row { names, values };
    let ti = match db.find_table(table) {
        Some(i) => i,
        None => {
            return Err(Error::Sqlx(String::from_str("no such table")));
        },
    };
    let ghost rows = lookup(old(db)@, table@)->Some_0;
    let rid = row_id(&row);
    match &rid {
        Some(u) => {
            let mut j: usize = 0;
            while j < db.tables[ti].rows.len()
                invariant
                    old(db).wf(),
                    db == old(db),
                    ti < db.tables@.len(),
                    db.tables@[ti as int].rows.deep_view() == rows,
                    j <= db.tables@[ti as int].rows@.len(),
                    rid matches Some(uu) && uu == *u,
                    forall|k: int| 0 <= k < j ==> row_id_of(rows[k]) != Some(u@),
                decreases db.tables@[ti as int].rows@.len() - j,
            {
                let other = row_id(&db.tables[ti].rows[j]);
                match other {
                    Some(ou) => {
                        if ou.0 == u.0 {
                            proof {
                                lemma_matching_mono(rows, u@, j as int + 1);
                                lemma_filter_step(rows, u@, j as int);
                            }
                            return Err(Error::Sqlx(String::from_str("duplicate key")));
                        }
                    },
                    None => {},
                }
                j = j + 1;
            }
            proof {
                lemma_matching_none(rows, u@);
            }
        },
        None => {},
    }
    let stored = row.clone();
    let ghost stored_v = stored;
    let mut t = db.tables.remove(ti);
    t.rows.push(stored);
    let ghost tv = t;
    db.tables.insert(ti, t);
    proof {
        let tix = ti as int;
        let s0 = old(db).tables@;
        assert(row.wf());
        assert(stored_v@ == record.fields_spec());
        assert(db.tables@.len() == s0.len());
        assert(db.tables@[tix] == tv);
        assert forall|k: int| 0 <= k < s0.len() && k != tix implies db.tables@[k] == s0[k] by {
            assert(db.tables@ == s0.remove(tix).insert(tix, tv));
        }
        assert(tv.rows@ == s0[tix].rows@.push(stored_v));
        assert(tv.rows.deep_view() =~= rows.push(record.fields_spec()));
        lemma_commit(old(db), db, ti as int, table@, rows.push(record.fields_spec()));
    }
    Ok(row)
}

/// No row matches exactly when no index holds a matching row.
pub proof fn lemma_matching_none(rows: Seq<Desc>, id: u128)
    ensures
        matching(rows, id).len() == 0 <==> (forall|k: int|
            0 <= k < rows.len() ==> row_id_of(#[trigger] rows[k]) != Some(id)),
    decreases rows.len(),
{
    if rows.len() > 0 {
        lemma_matching_none(rows.drop_last(), id);
        assert(forall|k: int| 0 <= k < rows.len() - 1 ==> rows.drop_last()[k] == rows[k]);
    }
}

/// Replacing the rows of table `ti` commits `store` on the store's value:
/// the one table changes, every other table stays.
pub proof fn lemma_commit(pre: &Db, post: &Db, ti: int, name: Seq<char>, rows: Seq<Desc>)
    requires
        pre.wf(),
        0 <= ti < pre.tables@.len(),
        pre.tables@[ti].name@ == name,
        post.tables@.len() == pre.tables@.len(),
        post.tables@[ti].name@ == name,
        post.tables@[ti].rows.deep_view() == rows,
        forall|k: int| 0 <= k < pre.tables@.len() && k != ti ==> post.tables@[k] == pre.tables@[k],
        forall|j: int|
            0 <= j < post.tables@[ti].rows@.len() ==> (#[trigger] post.tables@[ti].rows@[j]).wf(),
    ensures
        post.wf(),
        post@ == store(pre@, name, rows),
        lookup(post@, name) == Some(rows),
{
    crate::db::lemma_db_view_index(pre);
    crate::db::lemma_db_view_index(post);
    assert forall|k: int| 0 <= k < ti implies pre@[k].0 != name by {
        assert(pre.tables@[k].name@ != pre.tables@[ti].name@);
    }
    crate::db::lemma_store_at(pre@, name, rows, ti);
    assert(post@ =~= pre@.update(ti, (name, rows)));
    assert(post.wf());
    crate::db::lemma_lookup_skip(post@, name, ti);
    assert(post@.skip(ti)[0] == post@[ti]);
}

/// Returns the single row whose `id` column holds `id`: exactly one row is
/// owed, zero is the entity not found, more than one is a violated
/// uniqueness assumption, reported loudly.
#[verifier::loop_isolation(false)]
pub fn get_one_by_id(db: &Db, table: &str, id: Uuid) -> (r: Result<Row>)
    requires
        db.wf(),
    ensures
        match r {
            Ok(row) => {
                &&& lookup(db@, table@) is Some
                &&& row.wf()
                &&& matching(lookup(db@, table@)->Some_0, id@) == seq![row@]
            },
            Err(Error::SqlxEntityNotFound { entity, id: eid }) => {
                &&& lookup(db@, table@) is Some
                &&& matching(lookup(db@, table@)->Some_0, id@).len() == 0
                &&& entity@ == table@
                &&& eid == id
            },
            Err(Error::InvariantViolation { entity, id: eid }) => {
                &&& lookup(db@, table@) is Some
                &&& matching(lookup(db@, table@)->Some_0, id@).len() >= 2
                &&& entity@ == table@
                &&& eid == id
            },
            Err(Error::Sqlx(_)) => lookup(db@, table@) is None,
            _ => false,
        },
{
    let ti = match db.find_table(table) {
        Some(i) => i,
        None => {
            return Err(Error::Sqlx(String::from_str("no such table")));
        },
    };
    let ghost rows = lookup(db@, table@)->Some_0;
    let mut found: Option<Row> = None;
    let mut j: usize = 0;
    while j < db.tables[ti].rows.len()
        invariant
            db.wf(),
            ti < db.tables@.len(),
            db.tables@[ti as int].rows.deep_view() == rows,
            j <= db.tables@[ti as int].rows@.len(),
            match found {
                Some(row) => matching(rows.take(j as int), id@) == seq![row@] && row.wf(),
                None => matching(rows.take(j as int), id@).len() == 0,
            },
        decreases db.tables@[ti as int].rows@.len() - j,
    {
        let rj = &db.tables[ti].rows[j];
        let other = row_id(rj);
        proof {
            lemma_filter_step(rows, id@, j as int);
        }
        match other {
            Some(ou) => {
                if ou.0 == id.0 {
                    match found {
                        Some(_) => {
                            proof {
                                lemma_matching_mono(rows, id@, j as int + 1);
                            }
                            return Err(
                                Error::InvariantViolation { entity: table.to_owned(), id },
                            );
                        },
                        None => {
                            found = Some(rj.clone());
                        },
                    }
                }
            },
            None => {},
        }
        j = j + 1;
    }
    proof {
        assert(rows.take(rows.len() as int) =~= rows);
    }
    match found {
        Some(row) => Ok(row),
        None => Err(Error::SqlxEntityNotFound { entity: table.to_owned(), id }),
    }
}

/// Returns every row of the table, in stored order; an empty table yields
/// the empty sequence, not an error.
#[verifier::loop_isolation(false)]
pub fn get_all(db: &Db, table: &str) -> (r: Result<Vec<Row>>)
    requires
        db.wf(),
    ensures
        match r {
            Ok(out) => {
                &&& lookup(db@, table@) is Some
                &&& out.deep_view() == lookup(db@, table@)->Some_0
                &&& forall|k: int| 0 <= k < out@.len() ==> (#[trigger] out@[k]).wf()
            },
            Err(Error::Sqlx(_)) => lookup(db@, table@) is None,
            _ => false,
        },
{
    let ti = match db.find_table(table) {
        Some(i) => i,
        None => {
            return Err(Error::Sqlx(String::from_str("no such table")));
        },
    };
    let ghost rows = lookup(db@, table@)->Some_0;
    let mut out: Vec<Row> = Vec::new();
    let mut j: usize = 0;
    while j < db.tables[ti].rows.len()
        invariant
            db.wf(),
            ti < db.tables@.len(),
            db.tables@[ti as int].rows.deep_view() == rows,
            j <= db.tables@[ti as int].rows@.len(),
            out@.len() == j,
            forall|k: int| 0 <= k < j ==> (#[trigger] out@[k]).wf() && out@[k]@ == rows[k],
        decreases db.tables@[ti as int].rows@.len() - j,
    {
        out.push(db.tables[ti].rows[j].clone());
        j = j + 1;
    }
    proof {
        assert(out.deep_view() =~= rows);
    }
    Ok(out)
}

/// Sets the record's described columns on every row whose `id` column holds
/// `id`, as one atomic statement: an unknown table or an unknown column
/// changes nothing; zero affected rows is the entity not found.
#[verifier::loop_isolation(false)]
pub fn update_by_id<R: Iterable>(db: &mut Db, table: &str, record: &R, id: Uuid) -> (r: Result<
    (),
>)
    requires
        old(db).wf(),
    ensures
        final(db).wf(),
        match r {
            Ok(()) => {
                &&& lookup(old(db)@, table@) is Some
                &&& matching(lookup(old(db)@, table@)->Some_0, id@).len() >= 1
                &&& final(db)@ == store(
                    old(db)@,
                    table@,
                    update_rows(lookup(old(db)@, table@)->Some_0, id@, record.fields_spec()),
                )
            },
            Err(Error::SqlxEntityNotFound { entity, id: eid }) => {
                &&& lookup(old(db)@, table@) is Some
                &&& matching(lookup(old(db)@, table@)->Some_0, id@).len() == 0
                &&& final(db)@ == old(db)@
                &&& entity@ == table@
                &&& eid == id
            },
            Err(Error::Sqlx(_)) => {
                &&& final(db)@ == old(db)@
                &&& (lookup(old(db)@, table@) is None || exists|k: int|
                    0 <= k < lookup(old(db)@, table@)->Some_0.len() && row_id_of(
                        #[trigger] lookup(old(db)@, table@)->Some_0[k],
                    ) == Some(id@) && !has_all_names(
                        lookup(old(db)@, table@)->Some_0[k],
                        record.fields_spec(),
                    ))
            },
            _ => false,
        },
{
    let (names, values) = record.get_fields();
    proof {
        crate::db::lemma_pairs_match_view(names@, values@, record.fields_spec());
    }
    let ghost upd = record.fields_spec();
    let ti = match db.find_table(table) {
        Some(i) => i,
        None => {
            return Err(Error::Sqlx(String::from_str("no such table")));
        },
    };
    let ghost rows = lookup(old(db)@, table@)->Some_0;
    let mut any: bool = false;
    let mut j: usize = 0;
    while j < db.tables[ti].rows.len()
        invariant
            old(db).wf(),
            db == old(db),
            ti < db.tables@.len(),
            db.tables@[ti as int].rows.deep_view() == rows,
            j <= db.tables@[ti as int].rows@.len(),
            names@.len() == values@.len(),
            upd == fields_view(names@, values@),
            any <==> matching(rows.take(j as int), id@).len() > 0,
            forall|k: int|
                0 <= k < j && row_id_of(#[trigger] rows[k]) == Some(id@) ==> has_all_names(
                    rows[k],
                    upd,
                ),
        decreases db.tables@[ti as int].rows@.len() - j,
    {
        let rj = &db.tables[ti].rows[j];
        let other = row_id(rj);
        proof {
            lemma_filter_step(rows, id@, j as int);
        }
        match other {
            Some(ou) => {
                if ou.0 == id.0 {
                    if !row_has_all(rj, &names, &values) {
                        return Err(Error::Sqlx(String::from_str("no such column")));
                    }
                    any = true;
                }
            },
            None => {},
        }
        j = j + 1;
    }
    proof {
        assert(rows.take(rows.len() as int) =~= rows);
    }
    if !any {
        return Err(Error::SqlxEntityNotFound { entity: table.to_owned(), id });
    }
    let mut new_rows: Vec<Row> = Vec::new();
    let mut j: usize = 0;
    while j < db.tables[ti].rows.len()
        invariant
            old(db).wf(),
            db == old(db),
            ti < db.tables@.len(),
            db.tables@[ti as int].rows.deep_view() == rows,
            j <= db.tables@[ti as int].rows@.len(),
            names@.len() == values@.len(),
            upd == fields_view(names@, values@),
            new_rows@.len() == j,
            forall|k: int|
                0 <= k < j ==> (#[trigger] new_rows@[k]).wf() && new_rows@[k]@ == update_rows(
                    rows,
                    id@,
                    upd,
                )[k],
        decreases db.tables@[ti as int].rows@.len() - j,
    {
        let rj = &db.tables[ti].rows[j];
        let other = row_id(rj);
        match other {
            Some(ou) => {
                if ou.0 == id.0 {
                    new_rows.push(apply_update_row(rj, &names, &values));
                } else {
                    new_rows.push(rj.clone());
                }
            },
            None => {
                new_rows.push(rj.clone());
            },
        }
        j = j + 1;
    }
    let mut t = db.tables.remove(ti);
    t.rows = new_rows;
    db.tables.insert(ti, t);
    proof {
        assert(db.tables@[ti as int].rows.deep_view() =~= update_rows(rows, id@, upd));
        lemma_commit(old(db), db, ti as int, table@, update_rows(rows, id@, upd));
    }
    Ok(())
}

/// Deletes every row whose `id` column holds `id`; zero affected rows is
/// the entity not found and changes nothing.
#[verifier::loop_isolation(false)]
pub fn delete_by_id(db: &mut Db, table: &str, id: Uuid) -> (r: Result<()>)
    requires
        old(db).wf(),
    ensures
        final(db).wf(),
        match r {
            Ok(()) => {
                &&& lookup(old(db)@, table@) is Some
                &&& matching(lookup(old(db)@, table@)->Some_0, id@).len() >= 1
                &&& final(db)@ == store(
                    old(db)@,
                    table@,
                    without(lookup(old(db)@, table@)->Some_0, id@),
                )
            },
            Err(Error::SqlxEntityNotFound { entity, id: eid }) => {
                &&& lookup(old(db)@, table@) is Some
                &&& matching(lookup(old(db)@, table@)->Some_0, id@).len() == 0
                &&& final(db)@ == old(db)@
                &&& entity@ == table@
                &&& eid == id
            },
            Err(Error::Sqlx(_)) => lookup(old(db)@, table@) is None && final(db)@ == old(db)@,
            _ => false,
        },
{
    let ti = match db.find_table(table) {
        Some(i) => i,
        None => {
            return Err(Error::Sqlx(String::from_str("no such table")));
        },
    };
    let ghost rows = lookup(old(db)@, table@)->Some_0;
    let mut kept: Vec<Row> = Vec::new();
    let mut any: bool = false;
    let mut j: usize = 0;
    while j < db.tables[ti].rows.len()
        invariant
            old(db).wf(),
            db == old(db),
            ti < db.tables@.len(),
            db.tables@[ti as int].rows.deep_view() == rows,
            j <= db.tables@[ti as int].rows@.len(),
            any <==> matching(rows.take(j as int), id@).len() > 0,
            kept.deep_view() == without(rows.take(j as int), id@),
            forall|k: int| 0 <= k < kept@.len() ==> (#[trigger] kept@[k]).wf(),
        decreases db.tables@[ti as int].rows@.len() - j,
    {
        let rj = &db.tables[ti].rows[j];
        let other = row_id(rj);
        proof {
            lemma_filter_step(rows, id@, j as int);
        }
        match other {
            Some(ou) => {
                if ou.0 == id.0 {
                    any = true;
                } else {
                    kept.push(rj.clone());
                    proof {
                        assert(kept.deep_view() =~= without(rows.take(j as int + 1), id@));
                    }
                }
            },
            None => {
                kept.push(rj.clone());
                proof {
                    assert(kept.deep_view() =~= without(rows.take(j as int + 1), id@));
                }
            },
        }
        j = j + 1;
    }
    proof {
        assert(rows.take(rows.len() as int) =~= rows);
    }
    if !any {
        return Err(Error::SqlxEntityNotFound { entity: table.to_owned(), id });
    }
    let mut t = db.tables.remove(ti);
    t.rows = kept;
    db.tables.insert(ti, t);
    proof {
        lemma_commit(old(db), db, ti as int, table@, without(rows, id@));
    }
    Ok(())
}

// endregion: the five operations

// region: outcome interpreters

/// Interprets the rows an outside statement `SELECT .. WHERE id = ..`
/// returned: exactly one row is owed; zero is the entity not found; more
/// than one violates the uniqueness assumption.
pub fn expect_single_row(table: &str, id: Uuid, rows: Vec<Row>) -> (r: Result<Row>)
    ensures
        match r {
            Ok(row) => rows@.len() == 1 && row == rows@[0],
            Err(Error::SqlxEntityNotFound { entity, id: eid }) => rows@.len() == 0 && entity@
                == table@ && eid == id,
            Err(Error::InvariantViolation { entity, id: eid }) => rows@.len() >= 2 && entity@
                == table@ && eid == id,
            _ => false,
        },
{
    let mut rows = rows;
    if rows.len() == 0 {
        Err(Error::SqlxEntityNotFound { entity: table.to_owned(), id })
    } else if rows.len() == 1 {
        Ok(rows.remove(0))
    } else {
        Err(Error::InvariantViolation { entity: table.to_owned(), id })
    }
}

/// Interprets the affected-row count an outside statement reported: zero
/// rows affected is the entity not found.
pub fn expect_affected(table: &str, id: Uuid, affected: u64) -> (r: Result<()>)
    ensures
        match r {
            Ok(()) => affected > 0,
            Err(Error::SqlxEntityNotFound { entity, id: eid }) => affected == 0 && entity@
                == table@ && eid == id,
            _ => false,
        },
{
    if affected == 0 {
        Err(Error::SqlxEntityNotFound { entity: table.to_owned(), id })
    } else {
        Ok(())
    }
}

// endregion: outcome interpreters

} // verus!
