//! From the rows of a query back to the fields that were asked for.
//!
//! A row holds one value for each column of the projection, in the declared
//! order of the fields. The output of a row lists the fields in the order in
//! which the request names them, and only those: a field that is not asked for
//! is not computed, though its column may have been fetched.
//!
//! A field whose value is another entity, or a list of them, is not followed
//! here: the output names the key by which its rows are to be looked up.

use crate::entity::{Entity, EntityView, FieldKind};
use crate::error::WundergraphError;
use crate::select::{fetched, lemma_projection_position, position, projection, projection_upto};
use crate::selection::Selection;
use crate::value::{clone_cell, Cell};
use vstd::prelude::*;

verus! {

/// One row as the database returns it.
pub type Row = Vec<Cell>;

/// What a requested field of one row resolves to.
#[derive(Debug, PartialEq, Eq)]
pub enum Resolved {
    /// The stored value.
    Value(Cell),
    /// The rows of the entity that field `field` leads to are to be looked up
    /// by `key`: for a reference, the one value of its column; for a field that
    /// is not stored, the primary key of this row.
    Nested { field: usize, key: Vec<Cell> },
}

/// The mathematical content of a [`Resolved`].
pub enum ResolvedView {
    Value(Cell),
    Nested { field: usize, key: Seq<Cell> },
}

impl View for Resolved {
    type V = ResolvedView;

    open spec fn view(&self) -> ResolvedView {
        match *self {
            Resolved::Value(cell) => ResolvedView::Value(cell),
            Resolved::Nested { field, key } => ResolvedView::Nested { field, key: key@ },
        }
    }
}

/// A requested field of one row, under the name by which it was asked for.
#[derive(Debug, PartialEq, Eq)]
pub struct ResolvedField {
    pub name: String,
    pub value: Resolved,
}

/// The values of the primary key in a row.
pub open spec fn key_cells(e: EntityView, s: Selection, row: Seq<Cell>) -> Seq<Cell> {
    Seq::new(e.primary_key.len(), |i: int| row[position(e, s, e.primary_key[i] as int)])
}

/// What field `g` resolves to in a row.
pub open spec fn resolve_field(e: EntityView, s: Selection, row: Seq<Cell>, g: int) -> ResolvedView {
    match e.fields[g].kind {
        FieldKind::Column { .. } => ResolvedView::Value(row[position(e, s, g)]),
        FieldKind::Reference { .. } => ResolvedView::Nested {
            field: g as usize,
            key: seq![row[position(e, s, g)]],
        },
        FieldKind::Virtual => ResolvedView::Nested { field: g as usize, key: key_cells(e, s, row) },
    }
}

/// Every field the selection asks for is a field of the entity.
pub open spec fn all_known(e: EntityView, s: Selection) -> bool {
    forall|j: int|
        0 <= j < s.children@.len() ==> e.find_field((#[trigger] s.children@[j]).name@) is Some
}

/// `object` is the output of `row`: the requested fields in the order of the
/// request, each with what it resolves to.
pub open spec fn object_for(
    object: Seq<ResolvedField>,
    e: EntityView,
    s: Selection,
    row: Seq<Cell>,
) -> bool {
    &&& object.len() == s.children@.len()
    &&& forall|j: int|
        0 <= j < object.len() ==> {
            &&& (#[trigger] object[j]).name@ == s.children@[j].name@
            &&& e.find_field(s.children@[j].name@) matches Some(g)
            &&& object[j].value@ == resolve_field(e, s, row, g)
        }
}

/// Every row has one value for each column of the projection.
pub open spec fn rows_fit(e: EntityView, s: Selection, rows: Seq<Row>) -> bool {
    forall|i: int| 0 <= i < rows.len() ==> (#[trigger] rows[i])@.len() == projection(e, s).len()
}

/// `r` is what resolving `rows` gives.
pub open spec fn resolves_to(
    r: Result<Vec<Vec<ResolvedField>>, WundergraphError>,
    e: EntityView,
    s: Selection,
    rows: Seq<Row>,
) -> bool {
    if rows.len() == 0 {
        r matches Ok(objects) && objects@.len() == 0
    } else if !all_known(e, s) {
        r == Err::<Vec<Vec<ResolvedField>>, WundergraphError>(WundergraphError::UnknownField)
    } else if !rows_fit(e, s, rows) {
        r == Err::<Vec<Vec<ResolvedField>>, WundergraphError>(
            WundergraphError::InternalInvariantViolation,
        )
    } else {
        &&& r matches Ok(objects)
        &&& objects@.len() == rows.len()
        &&& forall|i: int|
            0 <= i < rows.len() ==> object_for((#[trigger] objects@[i])@, e, s, rows[i]@)
    }
}

/// The index of each requested field.
fn requested_fields(e: &Entity, select: &Selection) -> (r: Result<Vec<usize>, WundergraphError>)
    ensures
        match r {
            Ok(fields) => {
                &&& fields@.len() == select.children@.len()
                &&& forall|j: int|
                    0 <= j < fields@.len() ==> e@.find_field(
                        (#[trigger] select.children@[j]).name@,
                    ) == Some(fields@[j] as int)
            },
            Err(x) => x == WundergraphError::UnknownField && !all_known(e@, *select),
        },
{
    let mut fields: Vec<usize> = Vec::new();
    let mut j: usize = 0;
    while j < select.children.len()
        invariant
            j <= select.children@.len(),
            fields@.len() == j,
            forall|k: int|
                0 <= k < j ==> e@.find_field((#[trigger] select.children@[k]).name@) == Some(
                    fields@[k] as int,
                ),
        decreases select.children@.len() - j,
    {
        match e.find_field(select.children[j].name.as_str()) {
            Some(g) => {
                fields.push(g);
            },
            None => {
                assert(e@.find_field(select.children@[j as int].name@) is None);
                return Err(WundergraphError::UnknownField);
            },
        }
        j += 1;
    }
    Ok(fields)
}

/// Walks the fields in declared order and notes, for each, how many values of
/// a row stand before its own; the count at the end is the length of a row.
fn positions(e: &Entity, select: &Selection) -> (r: (Vec<usize>, usize))
    ensures
        r.0@.len() == e@.fields.len(),
        forall|g: int| 0 <= g < r.0@.len() ==> #[trigger] r.0@[g] == position(e@, *select, g),
        r.1 == projection(e@, *select).len(),
{
    let n = e.field_count();
    let mut before: Vec<usize> = Vec::new();
    let mut cursor: usize = 0;
    let mut g: usize = 0;
    while g < n
        invariant
            g <= n == e@.fields.len(),
            before@.len() == g,
            cursor == projection_upto(e@, *select, g as int).len(),
            cursor <= g,
            forall|h: int| 0 <= h < g ==> #[trigger] before@[h] == position(e@, *select, h),
        decreases n - g,
    {
        before.push(cursor);
        if e.column_of(g).is_some() && (e.is_key(g) || select.has_child(
            e.field(g).name.as_str(),
        )) {
            cursor += 1;
        }
        g += 1;
    }
    (before, cursor)
}

/// The values of the primary key in a row.
fn key_of(e: &Entity, select: &Selection, before: &Vec<usize>, row: &Row) -> (r: Vec<Cell>)
    requires
        before@.len() == e@.fields.len(),
        forall|g: int| 0 <= g < before@.len() ==> #[trigger] before@[g] == position(e@, *select, g),
        row@.len() == projection(e@, *select).len(),
    ensures
        r@ == key_cells(e@, *select, row@),
{
    proof {
        use_type_invariant(e);
    }
    let key = e.primary_key();
    let mut cells: Vec<Cell> = Vec::new();
    let mut i: usize = 0;
    while i < key.len()
        invariant
            e.wf(),
            key@ == e@.primary_key,
            i <= key@.len(),
            before@.len() == e@.fields.len(),
            forall|g: int|
                0 <= g < before@.len() ==> #[trigger] before@[g] == position(e@, *select, g),
            row@.len() == projection(e@, *select).len(),
            cells@.len() == i,
            forall|k: int|
                0 <= k < i ==> #[trigger] cells@[k] == row@[position(
                    e@,
                    *select,
                    e@.primary_key[k] as int,
                )],
        decreases key@.len() - i,
    {
        let g = key[i];
        proof {
            assert(e@.primary_key[i as int] == g);
            assert(e@.is_key(g as int));
            lemma_projection_position(e@, *select, g as int);
        }
        cells.push(clone_cell(&row[before[g]]));
        i += 1;
    }
    assert(cells@ =~= key_cells(e@, *select, row@));
    cells
}

/// The output of one row.
fn resolve_row(
    e: &Entity,
    select: &Selection,
    fields: &Vec<usize>,
    before: &Vec<usize>,
    row: &Row,
) -> (r: Vec<ResolvedField>)
    requires
        fields@.len() == select.children@.len(),
        forall|j: int|
            0 <= j < fields@.len() ==> e@.find_field((#[trigger] select.children@[j]).name@)
                == Some(fields@[j] as int),
        before@.len() == e@.fields.len(),
        forall|g: int| 0 <= g < before@.len() ==> #[trigger] before@[g] == position(e@, *select, g),
        row@.len() == projection(e@, *select).len(),
    ensures
        object_for(r@, e@, *select, row@),
{
    let mut object: Vec<ResolvedField> = Vec::new();
    let mut j: usize = 0;
    while j < select.children.len()
        invariant
            j <= select.children@.len(),
            fields@.len() == select.children@.len(),
            forall|k: int|
                0 <= k < fields@.len() ==> e@.find_field((#[trigger] select.children@[k]).name@)
                    == Some(fields@[k] as int),
            before@.len() == e@.fields.len(),
            forall|g: int|
                0 <= g < before@.len() ==> #[trigger] before@[g] == position(e@, *select, g),
            row@.len() == projection(e@, *select).len(),
            object@.len() == j,
            forall|k: int|
                0 <= k < j ==> {
                    &&& (#[trigger] object@[k]).name@ == select.children@[k].name@
                    &&& object@[k].value@ == resolve_field(e@, *select, row@, fields@[k] as int)
                },
        decreases select.children@.len() - j,
    {
        let child = &select.children[j];
        let g = fields[j];
        proof {
            assert(e@.find_field(select.children@[j as int].name@) == Some(g as int));
            assert(e@.named(g as int, child.name@));
        }
        let value = match e.field(g).kind {
            FieldKind::Column { .. } => {
                proof {
                    lemma_projection_position(e@, *select, g as int);
                }
                Resolved::Value(clone_cell(&row[before[g]]))
            },
            FieldKind::Reference { .. } => {
                proof {
                    lemma_projection_position(e@, *select, g as int);
                }
                let mut key: Vec<Cell> = Vec::new();
                key.push(clone_cell(&row[before[g]]));
                assert(key@ =~= seq![row@[position(e@, *select, g as int)]]);
                Resolved::Nested { field: g, key }
            },
            FieldKind::Virtual => Resolved::Nested {
                field: g,
                key: key_of(e, select, before, row),
            },
        };
        object.push(ResolvedField { name: child.name.clone(), value });
        j += 1;
    }
    object
}

/// Maps the rows of a query to their outputs, one for each row and in the
/// order of the rows.
///
/// No rows give no output. Where there are rows, a selection that asks for a
/// field the entity does not have is refused with `UnknownField`; otherwise a
/// row that does not have one value for each column of the projection is an
/// `InternalInvariantViolation`, and no output is given for any row.
pub fn resolve(e: &Entity, select: &Selection, rows: &Vec<Row>) -> (r: Result<
    Vec<Vec<ResolvedField>>,
    WundergraphError,
>)
    ensures
        resolves_to(r, e@, *select, rows@),
{
    if rows.len() == 0 {
        return Ok(Vec::new());
    }
    let fields = match requested_fields(e, select) {
        Ok(fields) => fields,
        Err(x) => {
            return Err(x);
        },
    };
    let (before, width) = positions(e, select);
    let mut objects: Vec<Vec<ResolvedField>> = Vec::new();
    let mut i: usize = 0;
    while i < rows.len()
        invariant
            i <= rows@.len(),
            all_known(e@, *select),
            fields@.len() == select.children@.len(),
            forall|k: int|
                0 <= k < fields@.len() ==> e@.find_field((#[trigger] select.children@[k]).name@)
                    == Some(fields@[k] as int),
            before@.len() == e@.fields.len(),
            forall|g: int|
                0 <= g < before@.len() ==> #[trigger] before@[g] == position(e@, *select, g),
            width == projection(e@, *select).len(),
            objects@.len() == i,
            forall|k: int| 0 <= k < i ==> (#[trigger] rows@[k])@.len() == width,
            forall|k: int|
                0 <= k < i ==> object_for((#[trigger] objects@[k])@, e@, *select, rows@[k]@),
        decreases rows@.len() - i,
    {
        if rows[i].len() != width {
            assert(rows@[i as int]@.len() != projection(e@, *select).len());
            return Err(WundergraphError::InternalInvariantViolation);
        }
        objects.push(resolve_row(e, select, &fields, &before, &rows[i]));
        i += 1;
    }
    Ok(objects)
}

/// The values of a row and the fetched fields correspond one to one: each
/// fetched field has its value at its own place in the row, and each place of
/// the row is that of one fetched field. So a row is read completely, value by
/// value, when the fields are walked in declared order.
pub proof fn lemma_row_is_consumed(e: EntityView, s: Selection, k: int)
    requires
        0 <= k < projection(e, s).len(),
    ensures
        exists|g: int|
            0 <= g < e.fields.len() && fetched(e, s, g) && #[trigger] position(e, s, g) == k,
{
    lemma_place_has_field(e, s, e.fields.len() as int, k);
}

proof fn lemma_place_has_field(e: EntityView, s: Selection, n: int, k: int)
    requires
        0 <= n,
        0 <= k < projection_upto(e, s, n).len(),
    ensures
        exists|g: int| 0 <= g < n && fetched(e, s, g) && #[trigger] position(e, s, g) == k,
    decreases n,
{
    if n > 0 {
        if k < projection_upto(e, s, n - 1).len() {
            lemma_place_has_field(e, s, n - 1, k);
        } else {
            assert(fetched(e, s, n - 1) && position(e, s, n - 1) == k);
        }
    }
}

} // verus!
