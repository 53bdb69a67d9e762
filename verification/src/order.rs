//! From the `order` argument to `ORDER BY` terms.
//!
//! The argument is a list of objects `{ field: <name>, direction: asc|desc }`.
//! Each becomes one term, in the order given: none is dropped, none is moved,
//! and a field named twice stands twice.

use crate::entity::{Entity, EntityView};
use crate::error::WundergraphError;
use crate::query::{Direction, OrderTerm};
use crate::text::str_eq;
use crate::value::{find_member, member, InputValue};
use vstd::prelude::*;

verus! {

/// A field to sort by and the direction, as the request names them.
#[derive(Debug, PartialEq, Eq)]
pub struct OrderRequest {
    pub field: String,
    pub direction: Direction,
}

/// The direction a word stands for.
pub open spec fn direction_named(name: Seq<char>) -> Option<Direction> {
    if name == "asc"@ {
        Some(Direction::Asc)
    } else if name == "desc"@ {
        Some(Direction::Desc)
    } else {
        None
    }
}

/// The field name and the direction that one item of the `order` list holds,
/// or `None` if the item is malformed.
pub open spec fn order_request(item: InputValue) -> Option<(Seq<char>, Direction)> {
    match item {
        InputValue::Object(members) => match (
            member(members@, "field"@),
            member(members@, "direction"@),
        ) {
            (Some(f), Some(d)) => match (f.spec_as_name(), d.spec_as_name()) {
                (Some(field), Some(word)) => match direction_named(word) {
                    Some(direction) => Some((field, direction)),
                    None => None,
                },
                _ => None,
            },
            _ => None,
        },
        _ => None,
    }
}

/// The term that sorts by the field called `field`, or `None` if the entity
/// has no such field or does not store it.
pub open spec fn order_term(e: EntityView, field: Seq<char>, direction: Direction) -> Option<
    OrderTerm,
> {
    match e.find_field(field) {
        Some(g) => match e.column_of(g) {
            Some(column) => Some(OrderTerm { column, direction }),
            None => None,
        },
        None => None,
    }
}

/// The term for one item of the `order` list.
pub open spec fn item_term(e: EntityView, item: InputValue) -> Option<OrderTerm> {
    match order_request(item) {
        Some((field, direction)) => order_term(e, field, direction),
        None => None,
    }
}

/// The terms for the `order` list: a malformed item anywhere in the list is
/// reported before a field that cannot be sorted by.
pub open spec fn order_terms(e: EntityView, items: Seq<InputValue>) -> Result<
    Seq<OrderTerm>,
    WundergraphError,
> {
    if exists|i: int| 0 <= i < items.len() && order_request(#[trigger] items[i]) is None {
        Err(WundergraphError::CouldNotBuildFilterArgument)
    } else if exists|i: int| 0 <= i < items.len() && item_term(e, #[trigger] items[i]) is None {
        Err(WundergraphError::UnknownField)
    } else {
        Ok(Seq::new(items.len(), |i: int| item_term(e, items[i])->Some_0))
    }
}

fn direction_of(name: &str) -> (r: Option<Direction>)
    ensures
        r == direction_named(name@),
{
    if str_eq(name, "asc") {
        Some(Direction::Asc)
    } else if str_eq(name, "desc") {
        Some(Direction::Desc)
    } else {
        None
    }
}

fn request_of(item: &InputValue) -> (r: Option<OrderRequest>)
    ensures
        match r {
            Some(q) => order_request(*item) == Some((q.field@, q.direction)),
            None => order_request(*item) is None,
        },
{
    match item {
        InputValue::Object(members) => {
            let f = find_member(members, "field");
            let d = find_member(members, "direction");
            match (f, d) {
                (Some(f), Some(d)) => match (f.as_name(), d.as_name()) {
                    (Some(field), Some(word)) => match direction_of(word.as_str()) {
                        Some(direction) => Some(OrderRequest { field: field.clone(), direction }),
                        None => None,
                    },
                    _ => None,
                },
                _ => None,
            }
        },
        _ => None,
    }
}

/// Reads the items of the `order` list. A list with a malformed item is
/// refused.
pub fn parse_order(items: &Vec<InputValue>) -> (r: Result<Vec<OrderRequest>, WundergraphError>)
    ensures
        match r {
            Ok(requests) => {
                &&& requests@.len() == items@.len()
                &&& forall|i: int|
                    0 <= i < items@.len() ==> order_request(#[trigger] items@[i]) == Some(
                        (requests@[i].field@, requests@[i].direction),
                    )
            },
            Err(x) => {
                &&& x == WundergraphError::CouldNotBuildFilterArgument
                &&& exists|i: int|
                    0 <= i < items@.len() && order_request(#[trigger] items@[i]) is None
            },
        },
{
    let mut requests: Vec<OrderRequest> = Vec::new();
    let mut k: usize = 0;
    while k < items.len()
        invariant
            k <= items@.len(),
            requests@.len() == k,
            forall|i: int|
                0 <= i < k ==> order_request(#[trigger] items@[i]) == Some(
                    (requests@[i].field@, requests@[i].direction),
                ),
        decreases items@.len() - k,
    {
        match request_of(&items[k]) {
            Some(q) => {
                requests.push(q);
            },
            None => {
                assert(order_request(items@[k as int]) is None);
                return Err(WundergraphError::CouldNotBuildFilterArgument);
            },
        }
        k += 1;
    }
    Ok(requests)
}

/// Turns the requested sort fields into terms, one for one and in the order
/// given. A name that is no stored field of the entity is refused.
pub fn build_order(e: &Entity, requests: &Vec<OrderRequest>) -> (r: Result<
    Vec<OrderTerm>,
    WundergraphError,
>)
    ensures
        match r {
            Ok(terms) => {
                &&& terms@.len() == requests@.len()
                &&& forall|i: int|
                    0 <= i < requests@.len() ==> order_term(
                        e@,
                        (#[trigger] requests@[i]).field@,
                        requests@[i].direction,
                    ) == Some(terms@[i])
            },
            Err(x) => {
                &&& x == WundergraphError::UnknownField
                &&& exists|i: int|
                    0 <= i < requests@.len() && order_term(
                        e@,
                        (#[trigger] requests@[i]).field@,
                        requests@[i].direction,
                    ) is None
            },
        },
{
    let mut terms: Vec<OrderTerm> = Vec::new();
    let mut k: usize = 0;
    while k < requests.len()
        invariant
            k <= requests@.len(),
            terms@.len() == k,
            forall|i: int|
                0 <= i < k ==> order_term(
                    e@,
                    (#[trigger] requests@[i]).field@,
                    requests@[i].direction,
                ) == Some(terms@[i]),
        decreases requests@.len() - k,
    {
        let direction = requests[k].direction;
        let stored = match e.find_field(requests[k].field.as_str()) {
            Some(g) => e.column_of(g),
            None => None,
        };
        match stored {
            Some(column) => {
                terms.push(OrderTerm { column, direction });
            },
            None => {
                assert(order_term(e@, requests@[k as int].field@, requests@[k as int].direction) is None);
                return Err(WundergraphError::UnknownField);
            },
        }
        k += 1;
    }
    Ok(terms)
}

/// Reads the `order` list and turns it into terms.
pub fn order_of(e: &Entity, items: &Vec<InputValue>) -> (r: Result<Vec<OrderTerm>, WundergraphError>)
    ensures
        match r {
            Ok(terms) => order_terms(e@, items@) == Ok::<Seq<OrderTerm>, WundergraphError>(terms@),
            Err(x) => order_terms(e@, items@) == Err::<Seq<OrderTerm>, WundergraphError>(x),
        },
{
    let requests = match parse_order(items) {
        Ok(requests) => requests,
        Err(x) => {
            return Err(x);
        },
    };
    match build_order(e, &requests) {
        Ok(terms) => {
            proof {
                assert forall|i: int| 0 <= i < items@.len() implies item_term(
                    e@,
                    #[trigger] items@[i],
                ) == Some(terms@[i]) by {
                    assert(order_request(items@[i]) == Some(
                        (requests@[i].field@, requests@[i].direction),
                    ));
                    assert(order_term(e@, requests@[i].field@, requests@[i].direction) == Some(
                        terms@[i],
                    ));
                }
                assert(terms@ =~= Seq::new(items@.len(), |i: int| item_term(e@, items@[i])->Some_0));
            }
            Ok(terms)
        },
        Err(x) => {
            proof {
                let i = choose|i: int|
                    0 <= i < requests@.len() && order_term(
                        e@,
                        (#[trigger] requests@[i]).field@,
                        requests@[i].direction,
                    ) is None;
                assert(order_request(items@[i]) == Some(
                    (requests@[i].field@, requests@[i].direction),
                ));
                assert(item_term(e@, items@[i]) is None);
            }
            Err(x)
        },
    }
}

} // verus!
