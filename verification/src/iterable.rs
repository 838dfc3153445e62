//! The self-describing-record capability: a closed variant of typed column
//! values, and a trait by which a record reports its column names and values
//! as one ordered, positionally aligned description.

use vstd::prelude::*;

use crate::values::{DateTime, Uuid};

verus! {

/// The mathematical value of one typed column value.
pub enum Value {
    Uuid(u128),
    DateTime(int),
    Bool(bool),
    Text(Seq<char>),
    I32(int),
    TextArray(Seq<Seq<char>>),
}

/// A closed variant over every scalar or array kind the persistence layer
/// can bind or receive.
#[derive(Debug)]
pub enum IterableType {
    Uuid(Uuid),
    DateTime(DateTime),
    Bool(bool),
    String(String),
    I32(i32),
    StringArray(Vec<String>),
}

impl View for IterableType {
    type V = Value;

    open spec fn view(&self) -> Value {
        match self {
            IterableType::Uuid(u) => Value::Uuid(u@),
            IterableType::DateTime(d) => Value::DateTime(d@),
            IterableType::Bool(b) => Value::Bool(*b),
            IterableType::String(s) => Value::Text(s@),
            IterableType::I32(x) => Value::I32(*x as int),
            IterableType::StringArray(v) => Value::TextArray(v.deep_view()),
        }
    }
}

impl DeepView for IterableType {
    type V = Value;

    open spec fn deep_view(&self) -> Value {
        self.view()
    }
}

impl Clone for IterableType {
    /// A clone carries the same mathematical value.
    fn clone(&self) -> (r: Self)
        ensures
            r@ == self@,
    {
        match self {
            IterableType::Uuid(u) => IterableType::Uuid(*u),
            IterableType::DateTime(d) => IterableType::DateTime(*d),
            IterableType::Bool(b) => IterableType::Bool(*b),
            IterableType::String(s) => IterableType::String(s.clone()),
            IterableType::I32(x) => IterableType::I32(*x),
            IterableType::StringArray(v) => IterableType::StringArray(clone_strings(v)),
        }
    }
}

/// Clones a vector of strings, element for element.
pub fn clone_strings(v: &Vec<String>) -> (r: Vec<String>)
    ensures
        r@ == v@,
        r.deep_view() == v.deep_view(),
{
    let mut r: Vec<String> = Vec::new();
    let mut i: usize = 0;
    while i < v.len()
        invariant
            i <= v.len(),
            r@ == v@.take(i as int),
        decreases v.len() - i,
    {
        r.push(v[i].clone());
        proof {
            assert(r@ =~= v@.take(i as int + 1));
        }
        i = i + 1;
    }
    proof {
        assert(v@.take(v@.len() as int) =~= v@);
        assert(r.deep_view() =~= v.deep_view());
    }
    r
}

/// An ordered column description: names paired with typed values, in the
/// order that fixes both the SQL text and the bind list.
pub type Desc = Seq<(Seq<char>, Value)>;

/// The names of a description, in order.
pub open spec fn desc_names(d: Desc) -> Seq<Seq<char>> {
    d.map_values(|p: (Seq<char>, Value)| p.0)
}

/// The values of a description, in order.
pub open spec fn desc_values(d: Desc) -> Seq<Value> {
    d.map_values(|p: (Seq<char>, Value)| p.1)
}

/// No column name occurs twice within one description.
pub open spec fn names_unique(d: Desc) -> bool {
    forall|i: int, j: int| 0 <= i < j < d.len() ==> d[i].0 != d[j].0
}

/// Name and value vectors report exactly the description `d`: equally long
/// and positionally aligned with it.
pub open spec fn pairs_match(ns: Seq<String>, vs: Seq<IterableType>, d: Desc) -> bool {
    &&& ns.len() == d.len()
    &&& vs.len() == d.len()
    &&& forall|i: int| 0 <= i < d.len() ==> ns[i]@ == d[i].0 && vs[i]@ == d[i].1
}

/// The entries of `d` whose mask bit is set, in order; empty when the mask
/// does not fit the description.
pub open spec fn mask_filter(d: Desc, m: Seq<bool>) -> Desc
    decreases d.len(),
{
    if d.len() == 0 || m.len() != d.len() {
        Seq::empty()
    } else {
        let rest = mask_filter(d.drop_last(), m.drop_last());
        if m.last() {
            rest.push(d.last())
        } else {
            rest
        }
    }
}

/// The pair `p` occurs somewhere in the description `d`.
pub open spec fn in_desc(d: Desc, p: (Seq<char>, Value)) -> bool {
    exists|j: int| 0 <= j < d.len() && p == #[trigger] d[j]
}

/// Every entry of `r` occurs in `d`.
pub open spec fn desc_sub(r: Desc, d: Desc) -> bool {
    forall|i: int| 0 <= i < r.len() ==> in_desc(d, #[trigger] r[i])
}

/// Every entry of a mask filtering comes from the filtered description.
pub proof fn lemma_mask_filter_elements(d: Desc, m: Seq<bool>)
    ensures
        desc_sub(mask_filter(d, m), d),
    decreases d.len(),
{
    if d.len() == 0 || m.len() != d.len() {
    } else {
        let dd = d.drop_last();
        let mm = m.drop_last();
        lemma_mask_filter_elements(dd, mm);
        let r = mask_filter(d, m);
        let rr = mask_filter(dd, mm);
        assert forall|i: int| 0 <= i < r.len() implies in_desc(d, #[trigger] r[i]) by {
            if i < rr.len() {
                assert(r[i] == rr[i]);
                assert(in_desc(dd, rr[i]));
                let j = choose|j: int| 0 <= j < dd.len() && rr[i] == #[trigger] dd[j];
                assert(dd[j] == d[j]);
                assert(r[i] == d[j]);
            } else {
                assert(r[i] == d[d.len() - 1]);
            }
        }
    }
}

/// A mask filtering of a description with unique names has unique names.
pub proof fn lemma_mask_filter_unique(d: Desc, m: Seq<bool>)
    requires
        names_unique(d),
    ensures
        names_unique(mask_filter(d, m)),
    decreases d.len(),
{
    if d.len() == 0 || m.len() != d.len() {
    } else {
        let dd = d.drop_last();
        let mm = m.drop_last();
        assert(names_unique(dd)) by {
            assert(forall|i: int| 0 <= i < dd.len() ==> dd[i] == d[i]);
        }
        lemma_mask_filter_unique(dd, mm);
        if m.last() {
            lemma_mask_filter_elements(dd, mm);
            let rr = mask_filter(dd, mm);
            let r = mask_filter(d, m);
            assert forall|i: int| 0 <= i < rr.len() implies rr[i].0 != d.last().0 by {
                assert(in_desc(dd, rr[i]));
                let j = choose|j: int| 0 <= j < dd.len() && rr[i] == #[trigger] dd[j];
                assert(d[j].0 != d[d.len() - 1].0);
            }
            assert(names_unique(r)) by {
                assert(forall|i: int| 0 <= i < rr.len() ==> r[i] == rr[i]);
                assert(r[r.len() - 1] == d.last());
            }
        }
    }
}

/// Extends a mask filtering of prefixes by one entry: the step a record's
/// `get_fields` takes for each conditionally reported field.
pub proof fn lemma_mask_filter_step(d: Desc, m: Seq<bool>, k: int)
    requires
        0 <= k < d.len(),
        m.len() == d.len(),
    ensures
        m[k] ==> mask_filter(d.take(k + 1), m.take(k + 1)) == mask_filter(
            d.take(k),
            m.take(k),
        ).push(d[k]),
        !m[k] ==> mask_filter(d.take(k + 1), m.take(k + 1)) == mask_filter(d.take(k), m.take(k)),
{
    assert(d.take(k + 1).drop_last() =~= d.take(k));
    assert(m.take(k + 1).drop_last() =~= m.take(k));
    assert(d.take(k + 1).last() == d[k]);
    assert(m.take(k + 1).last() == m[k]);
}

/// The contract a self-describing record implements: report the columns to
/// persist, as equally long, positionally aligned name and value sequences
/// with no repeated name.
pub trait Iterable {
    /// The description this record reports, at the mathematical level.
    spec fn fields_spec(&self) -> Desc;

    /// Law: within one description, the column names are unique.
    proof fn fields_spec_wf(&self)
        ensures
            names_unique(self.fields_spec()),
    ;

    /// Reports the column names and typed values of this record. The two
    /// sequences have equal length and are positionally aligned with the
    /// record's description.
    fn get_fields(&self) -> (r: (Vec<String>, Vec<IterableType>))
        ensures
            pairs_match(r.0@, r.1@, self.fields_spec()),
    ;
}

} // verus!
