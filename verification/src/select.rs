//! The columns a request needs.
//!
//! The columns of the primary key are always fetched, asked for or not: the
//! fields that are not stored are resolved from them, and so is a later fetch
//! of the same row by its key. Every other column is fetched only if its field
//! is asked for. The columns come in the declared order of their fields.

use crate::entity::{stored_at, Entity, EntityView};
use crate::selection::Selection;
use vstd::prelude::*;

verus! {

/// Whether the column behind field `g` is fetched for the selection `s`.
pub open spec fn fetched(e: EntityView, s: Selection, g: int) -> bool {
    e.column_of(g) is Some && (e.is_key(g) || s.spec_has_child(e.fields[g].name@))
}

/// The columns fetched for the first `n` fields.
pub open spec fn projection_upto(e: EntityView, s: Selection, n: int) -> Seq<usize>
    decreases n,
{
    if n <= 0 {
        Seq::empty()
    } else if fetched(e, s, n - 1) {
        projection_upto(e, s, n - 1).push(e.column_of(n - 1)->Some_0)
    } else {
        projection_upto(e, s, n - 1)
    }
}

/// The columns fetched for the selection `s`.
pub open spec fn projection(e: EntityView, s: Selection) -> Seq<usize> {
    projection_upto(e, s, e.fields.len() as int)
}

/// Where in a row the value of field `g` stands, if its column is fetched.
pub open spec fn position(e: EntityView, s: Selection, g: int) -> int {
    projection_upto(e, s, g).len() as int
}

/// Builds the projection for a selection.
pub fn build_select(e: &Entity, select: &Selection) -> (r: Vec<usize>)
    ensures
        r@ == projection(e@, *select),
{
    let mut columns: Vec<usize> = Vec::new();
    let n = e.field_count();
    let mut g: usize = 0;
    while g < n
        invariant
            g <= n == e@.fields.len(),
            columns@ == projection_upto(e@, *select, g as int),
        decreases n - g,
    {
        match e.column_of(g) {
            Some(c) => {
                if e.is_key(g) || select.has_child(e.field(g).name.as_str()) {
                    columns.push(c);
                }
            },
            None => {},
        }
        g += 1;
    }
    columns
}

/// The first `n` fields put at most `n` columns into the projection, and the
/// columns of more fields extend those of fewer.
pub proof fn lemma_projection_grows(e: EntityView, s: Selection, m: int, n: int)
    requires
        0 <= m <= n,
    ensures
        projection_upto(e, s, m).len() <= projection_upto(e, s, n).len() <= n,
        projection_upto(e, s, m) =~= projection_upto(e, s, n).take(
            projection_upto(e, s, m).len() as int,
        ),
    decreases n,
{
    if m < n {
        lemma_projection_grows(e, s, m, n - 1);
    } else if n > 0 {
        lemma_projection_grows(e, s, n - 1, n - 1);
    }
}

/// A row of the projection holds the value of a fetched field `g` at
/// `position(e, s, g)`: the column there is the field's column.
pub proof fn lemma_projection_position(e: EntityView, s: Selection, g: int)
    requires
        0 <= g < e.fields.len(),
        fetched(e, s, g),
    ensures
        0 <= position(e, s, g) < projection(e, s).len(),
        projection(e, s)[position(e, s, g)] == e.column_of(g)->Some_0,
{
    lemma_projection_grows(e, s, g + 1, e.fields.len() as int);
    let upto = projection_upto(e, s, g + 1);
    assert(upto[position(e, s, g)] == e.column_of(g)->Some_0);
    assert(upto == projection(e, s).take(upto.len() as int));
}

/// Whatever is asked for, the projection holds the column of every field of
/// the primary key.
pub proof fn lemma_projection_has_key(e: EntityView, s: Selection)
    requires
        e.wf(),
    ensures
        forall|i: int|
            0 <= i < e.primary_key.len() ==> projection(e, s).contains(
                e.column_of(#[trigger] e.primary_key[i] as int)->Some_0,
            ),
{
    assert forall|i: int| 0 <= i < e.primary_key.len() implies projection(e, s).contains(
        e.column_of(#[trigger] e.primary_key[i] as int)->Some_0,
    ) by {
        let g = e.primary_key[i] as int;
        assert(e.is_key(g));
        lemma_projection_position(e, s, g);
    }
}

/// Every column of the projection is a column of the table, and what stands
/// there is the column of a fetched field.
pub proof fn lemma_projection_columns(e: EntityView, s: Selection, n: int)
    requires
        e.wf(),
        0 <= n <= e.fields.len(),
    ensures
        forall|k: int|
            0 <= k < projection_upto(e, s, n).len() ==> {
                let c = #[trigger] projection_upto(e, s, n)[k];
                c < e.columns.len() && e.field_of(c as int) < n && fetched(
                    e,
                    s,
                    e.field_of(c as int) as int,
                )
            },
    decreases n,
{
    if n > 0 {
        lemma_projection_columns(e, s, n - 1);
        let before = projection_upto(e, s, n - 1);
        let now = projection_upto(e, s, n);
        assert forall|k: int| 0 <= k < now.len() implies {
            let c = #[trigger] now[k];
            c < e.columns.len() && e.field_of(c as int) < n && fetched(
                e,
                s,
                e.field_of(c as int) as int,
            )
        } by {
            if k < before.len() {
                assert(now[k] == before[k]);
            } else {
                assert(stored_at(e.fields, n - 1, now[k] as int));
            }
        }
    }
}

} // verus!
