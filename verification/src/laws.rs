//! Laws of the persistence layer that span several operations: the
//! create-then-fetch round trip, the idempotence of delete, and the effect
//! of an update that sets no field.

use vstd::prelude::*;

use crate::book::{
    book_desc, book_matches_desc, book_shaped, in_i32, in_i64, opt_str_eq, opt_strs_eq, upd_full,
    upd_mask, val_dt, val_i32, Book, BookForCreate, BookForUpdate,
};
use crate::crud::{
    apply_upd, desc_get, has_all_names, lemma_desc_get_at, lemma_desc_get_mem, matching,
    row_id_of, without,
};
use crate::iterable::{in_desc, lemma_mask_filter_elements, Desc, Iterable, Value};
use crate::requests::{create_formed, create_parsed, CreateBookRequest};

verus! {

/// No optional field of the book holds its column's default value, so the
/// description of the book loses nothing: absence and the default value are
/// indistinguishable in a stored column.
pub open spec fn canonical_book(b: Book) -> bool {
    &&& (b.edition_id matches Some(u) ==> u@ != 0)
    &&& (b.external_id matches Some(s) ==> s@.len() > 0)
    &&& (b.external_source matches Some(s) ==> s@.len() > 0)
    &&& (b.publisher matches Some(s) ==> s@.len() > 0)
    &&& (b.published_date matches Some(d) ==> d@ != 0)
    &&& (b.published_year matches Some(x) ==> x != 0)
    &&& (b.description matches Some(s) ==> s@.len() > 0)
    &&& (b.isbn10 matches Some(s) ==> s@.len() > 0)
    &&& (b.isbn13 matches Some(s) ==> s@.len() > 0)
    &&& (b.page_count matches Some(x) ==> x != 0)
    &&& (b.print_type matches Some(s) ==> s@.len() > 0)
    &&& (b.categories matches Some(v) ==> v@.len() > 0)
    &&& (b.maturity_rating matches Some(s) ==> s@.len() > 0)
    &&& (b.language matches Some(s) ==> s@.len() > 0)
    &&& (b.image_url matches Some(s) ==> s@.len() > 0)
    &&& (b.image_url_small matches Some(s) ==> s@.len() > 0)
    &&& (b.preview_link matches Some(s) ==> s@.len() > 0)
}

/// Two books agree in every field, compared by mathematical value.
pub open spec fn books_alike(a: Book, b: Book) -> bool {
    &&& a.id@ == b.id@
    &&& a.created_at@ == b.created_at@
    &&& a.updated_at@ == b.updated_at@
    &&& a.edition_id == b.edition_id
    &&& opt_str_eq(a.external_id, b.external_id)
    &&& opt_str_eq(a.external_source, b.external_source)
    &&& a.title@ == b.title@
    &&& a.authors.deep_view() == b.authors.deep_view()
    &&& opt_str_eq(a.publisher, b.publisher)
    &&& a.published_date == b.published_date
    &&& a.published_year == b.published_year
    &&& opt_str_eq(a.description, b.description)
    &&& opt_str_eq(a.isbn10, b.isbn10)
    &&& opt_str_eq(a.isbn13, b.isbn13)
    &&& a.page_count == b.page_count
    &&& opt_str_eq(a.print_type, b.print_type)
    &&& opt_strs_eq(a.categories, b.categories)
    &&& opt_str_eq(a.maturity_rating, b.maturity_rating)
    &&& opt_str_eq(a.language, b.language)
    &&& opt_str_eq(a.image_url, b.image_url)
    &&& opt_str_eq(a.image_url_small, b.image_url_small)
    &&& opt_str_eq(a.preview_link, b.preview_link)
}

/// A book's own description carries its identifier.
pub proof fn lemma_book_row_id(b: Book)
    ensures
        row_id_of(book_desc(b)) == Some(b.id@),
{
    assert(desc_get(book_desc(b), "id"@) == Some(Value::Uuid(b.id@)));
}

/// A book's own description has the book table's shape.
pub proof fn lemma_book_desc_shaped(b: Book)
    ensures
        book_shaped(book_desc(b)),
{
}

/// Law (round trip): after creating a canonical book in a table that does
/// not yet hold its identifier, fetching by that identifier finds exactly
/// the created row, and any record reconstructed from that row agrees with
/// the created book in every field — the supplied ones and the generated
/// identifier and timestamps alike.
#[verifier::rlimit(60)]
pub proof fn lemma_create_round_trip(rows: Seq<Desc>, b: Book, b2: Book)
    requires
        canonical_book(b),
        matching(rows, b.id@).len() == 0,
        book_matches_desc(b2, book_desc(b)),
    ensures
        matching(rows.push(book_desc(b)), b.id@) == seq![book_desc(b)],
        book_shaped(book_desc(b)),
        books_alike(b2, b),
{
    lemma_book_row_id(b);
    assert(rows.push(book_desc(b)).drop_last() =~= rows);
    assert(matching(rows.push(book_desc(b)), b.id@) =~= seq![book_desc(b)]);
    assert(books_alike(b2, b));
}

/// Law (idempotence of delete): after the rows of one identifier are
/// deleted, no row of that identifier remains, so a second delete of the
/// same identifier reports the entity as not found — never a crash and
/// never silent success.
pub proof fn lemma_delete_idempotent(rows: Seq<Desc>, id: u128)
    ensures
        matching(without(rows, id), id).len() == 0,
    decreases rows.len(),
{
    if rows.len() > 0 {
        let dl = rows.drop_last();
        lemma_delete_idempotent(dl, id);
        if row_id_of(rows.last()) != Some(id) {
            assert(without(rows, id) == without(dl, id).push(rows.last()));
            assert(without(dl, id).push(rows.last()).drop_last() =~= without(dl, id));
        }
    }
}

/// Law (empty update): a record for update with no field set still
/// describes exactly one column, the updated timestamp; every row of the
/// book table's shape has that column, so the update succeeds on any stored
/// book, sets its updated timestamp, and leaves every other column as it
/// was.
pub proof fn lemma_empty_update(fu: BookForUpdate, row: Desc)
    requires
        fu.edition_id is None,
        fu.external_id is None,
        fu.external_source is None,
        fu.title is None,
        fu.authors is None,
        fu.publisher is None,
        fu.published_date is None,
        fu.published_year is None,
        fu.description is None,
        fu.isbn10 is None,
        fu.isbn13 is None,
        fu.page_count is None,
        fu.print_type is None,
        fu.categories is None,
        fu.maturity_rating is None,
        fu.language is None,
        fu.image_url is None,
        fu.image_url_small is None,
        fu.preview_link is None,
        book_shaped(row),
    ensures
        fu.fields_spec() == seq![("updated_at"@, Value::DateTime(fu.updated_at@))],
        has_all_names(row, fu.fields_spec()),
        apply_upd(row, fu.fields_spec())[2] == ("updated_at"@, Value::DateTime(fu.updated_at@)),
        forall|i: int|
            0 <= i < row.len() && i != 2 ==> apply_upd(row, fu.fields_spec())[i] == row[i],
{
    reveal_with_fuel(crate::iterable::mask_filter, 21);
    let upd = seq![("updated_at"@, Value::DateTime(fu.updated_at@))];
    assert(fu.fields_spec() =~= upd);
    crate::book::lemma_book_column_facts();
    assert(desc_get(row, "updated_at"@) == Some(row[2].1)) by {
        assert(row[0].0 != "updated_at"@);
        assert(row[1].0 != "updated_at"@);
        crate::crud::lemma_desc_get_skip(row, "updated_at"@, 2);
        assert(row.skip(2)[0] == row[2]);
    }
    assert(has_all_names(row, upd));
    assert forall|i: int| 0 <= i < row.len() && i != 2 implies apply_upd(row, upd)[i] == row[i] by {
        reveal_with_fuel(crate::crud::desc_get, 3);
        assert(row[i].0 != "updated_at"@);
        assert(upd.drop_first() =~= Seq::<(Seq<char>, Value)>::empty());
        assert(desc_get(upd, row[i].0) is None);
    }
    assert(apply_upd(row, upd)[2] == ("updated_at"@, Value::DateTime(fu.updated_at@)));
}

// region: the wire round-trip law

/// Law (wire round trip): a create request formed from a record for create
/// parses back to a record equal to it in every field. Two boundaries the
/// encoding forces: a supplied timestamp does not re-parse (its rendered
/// text carries a zone suffix the fixed parse format rejects), and a
/// supplied empty category list collapses to absent — the law is stated
/// without those inputs.
pub proof fn lemma_create_wire_round_trip(
    cbr: CreateBookRequest,
    b_fc: BookForCreate,
    b2: BookForCreate,
)
    requires
        create_formed(cbr, b_fc),
        create_parsed(cbr, b2),
        b_fc.categories matches Some(v) ==> v@.len() > 0,
        b_fc.published_date is None,
    ensures
        b2.edition_id == b_fc.edition_id,
        opt_str_eq(b2.external_id, b_fc.external_id),
        opt_str_eq(b2.external_source, b_fc.external_source),
        b2.title@ == b_fc.title@,
        b2.authors@ == b_fc.authors@,
        opt_str_eq(b2.publisher, b_fc.publisher),
        b2.published_date is None,
        b2.published_year == b_fc.published_year,
        opt_str_eq(b2.description, b_fc.description),
        opt_str_eq(b2.isbn10, b_fc.isbn10),
        opt_str_eq(b2.isbn13, b_fc.isbn13),
        b2.page_count == b_fc.page_count,
        opt_str_eq(b2.print_type, b_fc.print_type),
        opt_strs_eq(b2.categories, b_fc.categories),
        opt_str_eq(b2.maturity_rating, b_fc.maturity_rating),
        opt_str_eq(b2.language, b_fc.language),
        opt_str_eq(b2.image_url, b_fc.image_url),
        opt_str_eq(b2.image_url_small, b_fc.image_url_small),
        opt_str_eq(b2.preview_link, b_fc.preview_link),
{
}

// endregion: the wire round-trip law

// region: the update-preserves-shape law

/// The name is one of the twenty columns a record for update can set.
pub open spec fn is_updatable_name(n: Seq<char>) -> bool {
    ||| n == "updated_at"@
    ||| n == "edition_id"@
    ||| n == "external_id"@
    ||| n == "external_source"@
    ||| n == "title"@
    ||| n == "authors"@
    ||| n == "publisher"@
    ||| n == "published_date"@
    ||| n == "published_year"@
    ||| n == "description"@
    ||| n == "isbn10"@
    ||| n == "isbn13"@
    ||| n == "page_count"@
    ||| n == "print_type"@
    ||| n == "categories"@
    ||| n == "maturity_rating"@
    ||| n == "language"@
    ||| n == "image_url"@
    ||| n == "image_url_small"@
    ||| n == "preview_link"@
}

/// The value has the kind the book table declares for the named column,
/// and the name is not one of the two generated columns no update may set.
pub open spec fn upd_value_kind_ok(n: Seq<char>, v: Value) -> bool {
    &&& (n == "updated_at"@ ==> v is DateTime && in_i64(val_dt(v)))
    &&& (n == "edition_id"@ ==> v is Uuid)
    &&& (n == "external_id"@ ==> v is Text)
    &&& (n == "external_source"@ ==> v is Text)
    &&& (n == "title"@ ==> v is Text)
    &&& (n == "authors"@ ==> v is TextArray)
    &&& (n == "publisher"@ ==> v is Text)
    &&& (n == "published_date"@ ==> v is DateTime && in_i64(val_dt(v)))
    &&& (n == "published_year"@ ==> v is I32 && in_i32(val_i32(v)))
    &&& (n == "description"@ ==> v is Text)
    &&& (n == "isbn10"@ ==> v is Text)
    &&& (n == "isbn13"@ ==> v is Text)
    &&& (n == "page_count"@ ==> v is I32 && in_i32(val_i32(v)))
    &&& (n == "print_type"@ ==> v is Text)
    &&& (n == "categories"@ ==> v is TextArray)
    &&& (n == "maturity_rating"@ ==> v is Text)
    &&& (n == "language"@ ==> v is Text)
    &&& (n == "image_url"@ ==> v is Text)
    &&& (n == "image_url_small"@ ==> v is Text)
    &&& (n == "preview_link"@ ==> v is Text)
    &&& n != "id"@
    &&& n != "created_at"@
}

/// Every entry a record for update could describe names an updatable
/// column and binds a value of that column's kind.
#[verifier::rlimit(100)]
pub proof fn lemma_upd_full_entries(fu: BookForUpdate)
    ensures
        forall|j: int|
            0 <= j < upd_full(fu).len() ==> is_updatable_name(#[trigger] upd_full(fu)[j].0)
                && upd_value_kind_ok(upd_full(fu)[j].0, upd_full(fu)[j].1),
{
    crate::book::lemma_book_column_facts();
    assert forall|j: int| 0 <= j < upd_full(fu).len() implies is_updatable_name(
        #[trigger] upd_full(fu)[j].0,
    ) && upd_value_kind_ok(upd_full(fu)[j].0, upd_full(fu)[j].1) by {
        assert(is_updatable_name(upd_full(fu)[j].0));
        assert(upd_value_kind_ok(upd_full(fu)[j].0, upd_full(fu)[j].1));
    }
}

/// A row of the book table's shape has every updatable column.
#[verifier::rlimit(100)]
pub proof fn lemma_shaped_columns(row: Desc)
    requires
        book_shaped(row),
    ensures
        forall|n: Seq<char>| is_updatable_name(n) ==> #[trigger] desc_get(row, n) is Some,
{
    crate::book::lemma_book_column_facts();
    assert forall|n: Seq<char>| is_updatable_name(n) implies #[trigger] desc_get(row, n)
        is Some by {
        if n == "updated_at"@ {
            lemma_desc_get_at(row, n, 2);
        } else if n == "edition_id"@ {
            lemma_desc_get_at(row, n, 3);
        } else if n == "external_id"@ {
            lemma_desc_get_at(row, n, 4);
        } else if n == "external_source"@ {
            lemma_desc_get_at(row, n, 5);
        } else if n == "title"@ {
            lemma_desc_get_at(row, n, 6);
        } else if n == "authors"@ {
            lemma_desc_get_at(row, n, 7);
        } else if n == "publisher"@ {
            lemma_desc_get_at(row, n, 8);
        } else if n == "published_date"@ {
            lemma_desc_get_at(row, n, 9);
        } else if n == "published_year"@ {
            lemma_desc_get_at(row, n, 10);
        } else if n == "description"@ {
            lemma_desc_get_at(row, n, 11);
        } else if n == "isbn10"@ {
            lemma_desc_get_at(row, n, 12);
        } else if n == "isbn13"@ {
            lemma_desc_get_at(row, n, 13);
        } else if n == "page_count"@ {
            lemma_desc_get_at(row, n, 14);
        } else if n == "print_type"@ {
            lemma_desc_get_at(row, n, 15);
        } else if n == "categories"@ {
            lemma_desc_get_at(row, n, 16);
        } else if n == "maturity_rating"@ {
            lemma_desc_get_at(row, n, 17);
        } else if n == "language"@ {
            lemma_desc_get_at(row, n, 18);
        } else if n == "image_url"@ {
            lemma_desc_get_at(row, n, 19);
        } else if n == "image_url_small"@ {
            lemma_desc_get_at(row, n, 20);
        } else {
            lemma_desc_get_at(row, n, 21);
        }
    }
}

/// Law: a row of the book table's shape has every column any record for
/// update could set, so an update of a stored book never fails for a
/// missing column.
pub proof fn lemma_shaped_has_all(row: Desc, fu: BookForUpdate)
    requires
        book_shaped(row),
    ensures
        has_all_names(row, fu.fields_spec()),
{
    lemma_upd_full_entries(fu);
    lemma_shaped_columns(row);
    lemma_mask_filter_elements(upd_full(fu), upd_mask(fu));
    let upd = fu.fields_spec();
    assert forall|i: int| 0 <= i < upd.len() implies desc_get(row, #[trigger] upd[i].0)
        is Some by {
        assert(in_desc(upd_full(fu), upd[i]));
        let j = choose|j: int| 0 <= j < upd_full(fu).len() && upd[i] == #[trigger] upd_full(fu)[j];
        assert(is_updatable_name(upd[i].0));
    }
}

/// Law: updating a row of the book table's shape by any record for update
/// yields a row of the same shape — each set column keeps its declared
/// kind, the generated columns are never touched.
#[verifier::rlimit(100)]
pub proof fn lemma_shaped_apply_upd(row: Desc, fu: BookForUpdate)
    requires
        book_shaped(row),
    ensures
        book_shaped(apply_upd(row, fu.fields_spec())),
{
    crate::book::lemma_book_column_facts();
    lemma_upd_full_entries(fu);
    lemma_mask_filter_elements(upd_full(fu), upd_mask(fu));
    let upd = fu.fields_spec();
    let out = apply_upd(row, upd);
    assert forall|i: int|
        0 <= i < 22 && #[trigger] desc_get(upd, row[i].0) is Some implies upd_value_kind_ok(
        row[i].0,
        desc_get(upd, row[i].0)->0,
    ) by {
        lemma_desc_get_mem(upd, row[i].0);
        let v = desc_get(upd, row[i].0)->0;
        let j = choose|j: int| 0 <= j < upd.len() && #[trigger] upd[j] == (row[i].0, v);
        assert(in_desc(upd_full(fu), upd[j]));
        let jj = choose|jj: int|
            0 <= jj < upd_full(fu).len() && upd[j] == #[trigger] upd_full(fu)[jj];
        assert(upd_value_kind_ok(upd_full(fu)[jj].0, upd_full(fu)[jj].1));
    }
    assert(book_shaped(out));
}

// endregion: the update-preserves-shape law

} // verus!
