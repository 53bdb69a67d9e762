//! From the `primaryKey` argument to the condition that picks one row.
//!
//! The argument is an object with one member for each field of the primary
//! key, called as the field is and holding a scalar of the column's type.

use crate::entity::{Entity, EntityView};
use crate::error::WundergraphError;
use crate::filter::{compiled_within, Compiled};
use crate::query::{and_opt, conjoin, opt_within, Comparator, Predicate};
use crate::value::{find_member, member, InputValue, ObjectField};
use vstd::prelude::*;

verus! {

/// The condition that the key field `g` has the value the object gives for it,
/// or `None` if the object gives none of the column's type.
pub open spec fn key_part(e: EntityView, members: Seq<ObjectField>, g: int) -> Option<Predicate> {
    match (
        member(members, e.fields[g].name@),
        e.fields[g].kind.spec_column(),
        e.fields[g].kind.spec_value_type(),
    ) {
        (Some(InputValue::Scalar(value)), Some(column), Some(ty)) => if value.spec_value_type()
            == ty {
            Some(Predicate::Compare { column, op: Comparator::Eq, value })
        } else {
            None
        },
        _ => None,
    }
}

/// The conditions for the key fields from the `from`-th on, each joined with
/// `AND` to `acc`.
pub open spec fn key_parts(
    e: EntityView,
    members: Seq<ObjectField>,
    from: int,
    acc: Option<Predicate>,
) -> Compiled
    decreases e.primary_key.len() - from,
{
    if from < 0 || from >= e.primary_key.len() {
        Ok(acc)
    } else {
        match key_part(e, members, e.primary_key[from] as int) {
            None => Err(WundergraphError::NoPrimaryKeyArgumentFound),
            Some(p) => key_parts(e, members, from + 1, and_opt(acc, Some(p))),
        }
    }
}

/// The condition that a row has the primary key that `value` describes.
pub open spec fn key_condition(e: EntityView, value: InputValue) -> Compiled {
    match value {
        InputValue::Object(members) => key_parts(e, members@, 0, None),
        _ => Err(WundergraphError::NoPrimaryKeyArgumentFound),
    }
}

fn part(e: &Entity, members: &Vec<ObjectField>, g: usize) -> (r: Option<Predicate>)
    requires
        g < e@.fields.len(),
    ensures
        r == key_part(e@, members@, g as int),
        r matches Some(p) ==> p.within(e@.columns.len()),
{
    let field = e.field(g);
    match (find_member(members, field.name.as_str()), e.column_of(g), field.kind.value_type()) {
        (Some(InputValue::Scalar(value)), Some(column), Some(ty)) => {
            if value.value_type() == ty {
                Some(Predicate::Compare { column, op: Comparator::Eq, value: value.clone() })
            } else {
                None
            }
        },
        _ => None,
    }
}

/// Reads a primary key and gives the condition that a row has it. A value
/// that does not have the shape of the entity's key is refused.
pub fn key_filter(e: &Entity, value: &InputValue) -> (r: Compiled)
    ensures
        r == key_condition(e@, *value),
        compiled_within(r, e@.columns.len()),
        r matches Ok(p) ==> p is Some,
{
    let members = match value {
        InputValue::Object(members) => members,
        _ => {
            return Err(WundergraphError::NoPrimaryKeyArgumentFound);
        },
    };
    proof {
        use_type_invariant(e);
    }
    let key = e.primary_key();
    let mut acc: Option<Predicate> = None;
    let mut i: usize = 0;
    while i < key.len()
        invariant
            e.wf(),
            key@ == e@.primary_key,
            i <= key@.len(),
            key_condition(e@, *value) == key_parts(e@, members@, 0, None),
            key_parts(e@, members@, 0, None) == key_parts(e@, members@, i as int, acc),
            opt_within(acc, e@.columns.len()),
            i > 0 ==> acc is Some,
        decreases key@.len() - i,
    {
        assert(key@[i as int] < e@.fields.len());
        match part(e, members, key[i]) {
            None => {
                return Err(WundergraphError::NoPrimaryKeyArgumentFound);
            },
            Some(p) => {
                acc = conjoin(acc, Some(p));
            },
        }
        i += 1;
    }
    Ok(acc)
}

} // verus!
