//! Parameterized SQL statements, built from a record's ordered column
//! description: the text and the bind list come from the same description,
//! so placeholders and parameters can never fall out of step. The table name
//! is trusted, compile-time-known input; it is interpolated into the text
//! and must never be derived from external input.

use vstd::prelude::*;
use vstd::string::StringExecFns;

use crate::iterable::{Desc, Iterable, IterableType};
use crate::values::Uuid;

verus! {

/// One parameterized statement: SQL text and the values to bind, in
/// placeholder order.
#[derive(Debug)]
pub struct Statement {
    pub text: String,
    pub params: Vec<IterableType>,
}

// region: decimal text

/// The decimal digit character for one digit value.
pub open spec fn dec_digit(n: nat) -> char {
    if n == 0 {
        '0'
    } else if n == 1 {
        '1'
    } else if n == 2 {
        '2'
    } else if n == 3 {
        '3'
    } else if n == 4 {
        '4'
    } else if n == 5 {
        '5'
    } else if n == 6 {
        '6'
    } else if n == 7 {
        '7'
    } else if n == 8 {
        '8'
    } else {
        '9'
    }
}

/// The decimal text of a number, most significant digit first.
pub open spec fn dec_str(n: nat) -> Seq<char>
    decreases n,
{
    if n < 10 {
        seq![dec_digit(n)]
    } else {
        dec_str(n / 10).push(dec_digit(n % 10))
    }
}

/// The text of one digit.
fn digit_string(d: u64) -> (s: String)
    requires
        d < 10,
    ensures
        s@ == seq![dec_digit(d as nat)],
{
    proof {
        reveal_strlit("0");
        reveal_strlit("1");
        reveal_strlit("2");
        reveal_strlit("3");
        reveal_strlit("4");
        reveal_strlit("5");
        reveal_strlit("6");
        reveal_strlit("7");
        reveal_strlit("8");
        reveal_strlit("9");
    }
    match d {
        0 => String::from_str("0"),
        1 => String::from_str("1"),
        2 => String::from_str("2"),
        3 => String::from_str("3"),
        4 => String::from_str("4"),
        5 => String::from_str("5"),
        6 => String::from_str("6"),
        7 => String::from_str("7"),
        8 => String::from_str("8"),
        _ => String::from_str("9"),
    }
}

/// The decimal text of a number.
pub fn dec_string(n: u64) -> (s: String)
    ensures
        s@ == dec_str(n as nat),
    decreases n,
{
    if n < 10 {
        digit_string(n)
    } else {
        let mut s = dec_string(n / 10);
        let last = digit_string(n % 10);
        s.append(last.as_str());
        s
    }
}

// endregion: decimal text

// region: statement text

/// The placeholder for bind position `k`.
pub open spec fn placeholder(k: nat) -> Seq<char> {
    "$"@ + dec_str(k)
}

/// The placeholder list `$1, $2, ..` for `n` bind positions.
pub open spec fn placeholders(n: nat) -> Seq<char>
    decreases n,
{
    if n == 0 {
        Seq::empty()
    } else if n == 1 {
        placeholder(1)
    } else {
        placeholders((n - 1) as nat) + ", "@ + placeholder(n)
    }
}

/// The column names joined by commas.
pub open spec fn join_names(names: Seq<Seq<char>>) -> Seq<char>
    decreases names.len(),
{
    if names.len() == 0 {
        Seq::empty()
    } else if names.len() == 1 {
        names[0]
    } else {
        join_names(names.drop_last()) + ", "@ + names.last()
    }
}

/// The assignment list `name1 = $1, name2 = $2, ..`, one placeholder per
/// column, in description order.
pub open spec fn set_clause(names: Seq<Seq<char>>) -> Seq<char>
    decreases names.len(),
{
    if names.len() == 0 {
        Seq::empty()
    } else if names.len() == 1 {
        names[0] + " = "@ + placeholder(1)
    } else {
        set_clause(names.drop_last()) + ", "@ + names.last() + " = "@ + placeholder(names.len())
    }
}

/// The text that inserts one row of the named columns and returns it.
pub open spec fn insert_sql(table: Seq<char>, names: Seq<Seq<char>>) -> Seq<char> {
    "INSERT INTO "@ + table + " ("@ + join_names(names) + ") VALUES ("@ + placeholders(names.len())
        + ") RETURNING *"@
}

/// The text that selects the row of one identifier.
pub open spec fn select_by_id_sql(table: Seq<char>) -> Seq<char> {
    "SELECT * FROM "@ + table + " WHERE id = $1"@
}

/// The text that selects every row.
pub open spec fn select_all_sql(table: Seq<char>) -> Seq<char> {
    "SELECT * FROM "@ + table
}

/// The text that sets the named columns on the row of one identifier, the
/// identifier bound last.
pub open spec fn update_sql(table: Seq<char>, names: Seq<Seq<char>>) -> Seq<char> {
    "UPDATE "@ + table + " SET "@ + set_clause(names) + " WHERE id = "@ + placeholder(
        names.len() + 1,
    )
}

/// The text that deletes the row of one identifier.
pub open spec fn delete_by_id_sql(table: Seq<char>) -> Seq<char> {
    "DELETE FROM "@ + table + " WHERE id = $1"@
}

/// Extends a joined name list by one name.
proof fn lemma_join_step(ns: Seq<Seq<char>>, i: int)
    requires
        1 <= i < ns.len(),
    ensures
        join_names(ns.take(i + 1)) == join_names(ns.take(i)) + ", "@ + ns[i],
        set_clause(ns.take(i + 1)) == set_clause(ns.take(i)) + ", "@ + ns[i] + " = "@ + placeholder(
            (i + 1) as nat,
        ),
{
    assert(ns.take(i + 1).drop_last() =~= ns.take(i));
    assert(ns.take(i + 1).last() == ns[i]);
}

/// The comma-joined text of the given names.
#[verifier::loop_isolation(false)]
fn join_names_exec(names: &Vec<String>) -> (s: String)
    requires
        names@.len() >= 1,
    ensures
        s@ == join_names(names.deep_view()),
{
    let ghost ns = names.deep_view();
    let mut s = names[0].clone();
    proof {
        assert(ns.take(1) =~= seq![ns[0]]);
    }
    let mut i: usize = 1;
    while i < names.len()
        invariant
            1 <= i <= names@.len(),
            s@ == join_names(ns.take(i as int)),
        decreases names@.len() - i,
    {
        s.append(", ");
        s.append(names[i].as_str());
        proof {
            lemma_join_step(ns, i as int);
            assert(s@ == join_names(ns.take(i as int + 1)));
        }
        i = i + 1;
    }
    proof {
        assert(ns.take(ns.len() as int) =~= ns);
    }
    s
}

/// The placeholder list for `n` bind positions.
#[verifier::loop_isolation(false)]
fn placeholders_exec(n: usize) -> (s: String)
    requires
        n >= 1,
    ensures
        s@ == placeholders(n as nat),
{
    let mut s = String::from_str("$");
    let one = dec_string(1);
    s.append(one.as_str());
    proof {
        assert(s@ == placeholder(1));
    }
    let mut i: usize = 1;
    while i < n
        invariant
            1 <= i <= n,
            s@ == placeholders(i as nat),
        decreases n - i,
    {
        s.append(", $");
        let k = dec_string((i as u64) + 1);
        s.append(k.as_str());
        proof {
            reveal_strlit(", $");
            reveal_strlit(", ");
            reveal_strlit("$");
            assert(", $"@ =~= ", "@ + "$"@);
            assert(s@ =~= placeholders((i + 1) as nat));
        }
        i = i + 1;
    }
    s
}

/// The assignment list for the given names.
#[verifier::loop_isolation(false)]
fn set_clause_exec(names: &Vec<String>) -> (s: String)
    requires
        names@.len() >= 1,
    ensures
        s@ == set_clause(names.deep_view()),
{
    let ghost ns = names.deep_view();
    let mut s = names[0].clone();
    s.append(" = ");
    let one = dec_string(1);
    s.append("$");
    s.append(one.as_str());
    proof {
        assert(ns.take(1) =~= seq![ns[0]]);
        assert(s@ =~= set_clause(ns.take(1)));
    }
    let mut i: usize = 1;
    while i < names.len()
        invariant
            1 <= i <= names@.len(),
            s@ == set_clause(ns.take(i as int)),
        decreases names@.len() - i,
    {
        s.append(", ");
        s.append(names[i].as_str());
        s.append(" = $");
        let k = dec_string((i as u64) + 1);
        s.append(k.as_str());
        proof {
            reveal_strlit(" = $");
            reveal_strlit(" = ");
            reveal_strlit("$");
            assert(" = $"@ =~= " = "@ + "$"@);
            lemma_join_step(ns, i as int);
            assert(s@ =~= set_clause(ns.take(i as int + 1)));
        }
        i = i + 1;
    }
    proof {
        assert(ns.take(ns.len() as int) =~= ns);
    }
    s
}

// endregion: statement text

// region: statement builders

/// The INSERT statement for the record's full description: one placeholder
/// per described column, the described values bound in the same order.
pub fn insert_statement<R: Iterable>(table: &str, record: &R) -> (s: Statement)
    requires
        record.fields_spec().len() >= 1,
    ensures
        s.text@ == insert_sql(table@, crate::iterable::desc_names(record.fields_spec())),
        s.params@.len() == record.fields_spec().len(),
        forall|i: int|
            0 <= i < s.params@.len() ==> s.params@[i]@ == record.fields_spec()[i].1,
{
    let (names, values) = record.get_fields();
    proof {
        assert(names.deep_view() =~= crate::iterable::desc_names(record.fields_spec()));
    }
    let mut text = String::from_str("INSERT INTO ");
    text.append(table);
    text.append(" (");
    text.append(join_names_exec(&names).as_str());
    text.append(") VALUES (");
    text.append(placeholders_exec(values.len()).as_str());
    text.append(") RETURNING *");
    Statement { text, params: values }
}

/// The SELECT statement for the row of one identifier, the identifier its
/// only bound value.
pub fn select_by_id_statement(table: &str, id: Uuid) -> (s: Statement)
    ensures
        s.text@ == select_by_id_sql(table@),
        s.params@.len() == 1,
        s.params@[0]@ == crate::iterable::Value::Uuid(id@),
{
    let mut text = String::from_str("SELECT * FROM ");
    text.append(table);
    text.append(" WHERE id = $1");
    let mut params: Vec<IterableType> = Vec::new();
    params.push(IterableType::Uuid(id));
    Statement { text, params }
}

/// The SELECT statement for every row, with no bound value.
pub fn select_all_statement(table: &str) -> (s: Statement)
    ensures
        s.text@ == select_all_sql(table@),
        s.params@.len() == 0,
{
    let mut text = String::from_str("SELECT * FROM ");
    text.append(table);
    Statement { text, params: Vec::new() }
}

/// The UPDATE statement for the record's sparse description: one assignment
/// per described column, the described values bound in the same order and
/// the identifier bound last.
pub fn update_statement<R: Iterable>(table: &str, record: &R, id: Uuid) -> (s: Statement)
    requires
        record.fields_spec().len() >= 1,
        record.fields_spec().len() < u64::MAX,
    ensures
        s.text@ == update_sql(table@, crate::iterable::desc_names(record.fields_spec())),
        s.params@.len() == record.fields_spec().len() + 1,
        forall|i: int|
            0 <= i < record.fields_spec().len() ==> s.params@[i]@ == record.fields_spec()[i].1,
        s.params@[s.params@.len() - 1]@ == crate::iterable::Value::Uuid(id@),
{
    let (names, values) = record.get_fields();
    proof {
        assert(names.deep_view() =~= crate::iterable::desc_names(record.fields_spec()));
    }
    let mut text = String::from_str("UPDATE ");
    text.append(table);
    text.append(" SET ");
    text.append(set_clause_exec(&names).as_str());
    text.append(" WHERE id = $");
    let k = dec_string((values.len() as u64) + 1);
    text.append(k.as_str());
    let mut params = values;
    params.push(IterableType::Uuid(id));
    proof {
        reveal_strlit(" WHERE id = $");
        reveal_strlit(" WHERE id = ");
        reveal_strlit("$");
        assert(" WHERE id = $"@ =~= " WHERE id = "@ + "$"@);
        assert(text@ =~= update_sql(table@, crate::iterable::desc_names(record.fields_spec())));
    }
    Statement { text, params }
}

/// The DELETE statement for the row of one identifier, the identifier its
/// only bound value.
pub fn delete_by_id_statement(table: &str, id: Uuid) -> (s: Statement)
    ensures
        s.text@ == delete_by_id_sql(table@),
        s.params@.len() == 1,
        s.params@[0]@ == crate::iterable::Value::Uuid(id@),
{
    let mut text = String::from_str("DELETE FROM ");
    text.append(table);
    text.append(" WHERE id = $1");
    let mut params: Vec<IterableType> = Vec::new();
    params.push(IterableType::Uuid(id));
    Statement { text, params }
}

// endregion: statement builders

} // verus!
