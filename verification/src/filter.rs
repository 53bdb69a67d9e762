//! From a filter value to a condition on the entity's table.
//!
//! A filter is an object. Each of its members is one constraint, and the
//! members hold together:
//!
//! * `and: [filter, ..]` holds when every filter of the list holds,
//! * `or: [filter, ..]` holds when one filter of the list holds,
//! * `not: filter` holds when the filter does not,
//! * `<field>: { <operator>: value, .. }` compares the field's column, with the
//!   operators `eq ne lt lte gt gte like isNull`.
//!
//! A filter that constrains nothing compiles to `None`, not to a condition that
//! is always true: an empty object, an empty `and` or `or` list, and the
//! negation of such a filter. Inside a list, a filter that constrains nothing is
//! left out.

use crate::entity::{Entity, EntityView};
use crate::error::WundergraphError;
use crate::query::{
    and_opt, conjoin, disjoin, negate, not_opt, opt_within, or_opt, Comparator, Predicate,
};
use crate::text::str_eq;
use crate::value::{InputValue, ObjectField, Scalar, ValueType};
use vstd::prelude::*;

verus! {

/// What compiling a filter gives: a condition, no condition, or the reason why
/// the filter is refused.
pub type Compiled = Result<Option<Predicate>, WundergraphError>;

/// The comparison an operator name stands for. `isNull` is no comparison with a
/// constant and is not among them.
pub open spec fn comparator_named(name: Seq<char>) -> Option<Comparator> {
    if name == "eq"@ {
        Some(Comparator::Eq)
    } else if name == "ne"@ {
        Some(Comparator::Ne)
    } else if name == "lt"@ {
        Some(Comparator::Lt)
    } else if name == "lte"@ {
        Some(Comparator::Lte)
    } else if name == "gt"@ {
        Some(Comparator::Gt)
    } else if name == "gte"@ {
        Some(Comparator::Gte)
    } else if name == "like"@ {
        Some(Comparator::Like)
    } else {
        None
    }
}

/// Whether a comparison can be made on a column of type `ty`: `like` wants
/// text, the others take any type.
pub open spec fn comparable(op: Comparator, ty: ValueType) -> bool {
    op == Comparator::Like ==> ty == ValueType::Text
}

/// One operator applied to the column `column` of type `ty`.
pub open spec fn compile_operator(
    column: usize,
    ty: ValueType,
    name: Seq<char>,
    operand: InputValue,
) -> Result<Predicate, WundergraphError> {
    if name == "isNull"@ {
        match operand {
            InputValue::Scalar(Scalar::Boolean(b)) => if b {
                Ok(Predicate::IsNull { column })
            } else {
                Ok(Predicate::Not(Box::new(Predicate::IsNull { column })))
            },
            _ => Err(WundergraphError::InvalidFilterValue),
        }
    } else {
        match comparator_named(name) {
            None => Err(WundergraphError::UnknownOperator),
            Some(op) => match operand {
                InputValue::Scalar(value) => if value.spec_value_type() == ty && comparable(op, ty) {
                    Ok(Predicate::Compare { column, op, value })
                } else {
                    Err(WundergraphError::InvalidFilterValue)
                },
                _ => Err(WundergraphError::InvalidFilterValue),
            },
        }
    }
}

/// The operators from `from` on, each joined with `AND` to `acc`.
pub open spec fn compile_operators(
    column: usize,
    ty: ValueType,
    ops: Seq<ObjectField>,
    from: int,
    acc: Option<Predicate>,
) -> Compiled
    decreases ops.len() - from,
{
    if from < 0 || from >= ops.len() {
        Ok(acc)
    } else {
        match compile_operator(column, ty, ops[from].name@, ops[from].value) {
            Err(e) => Err(e),
            Ok(p) => compile_operators(column, ty, ops, from + 1, and_opt(acc, Some(p))),
        }
    }
}

/// The constraint `<name>: value` on a field of the entity.
pub open spec fn compile_comparison(e: EntityView, name: Seq<char>, value: InputValue) -> Compiled {
    match e.find_field(name) {
        None => Err(WundergraphError::InvalidFilterArgument),
        Some(g) => match (e.fields[g].kind.spec_column(), e.fields[g].kind.spec_value_type()) {
            (Some(column), Some(ty)) => match value {
                InputValue::Object(ops) => compile_operators(column, ty, ops@, 0, None),
                _ => Err(WundergraphError::InvalidFilterArgument),
            },
            _ => Err(WundergraphError::InvalidFilterArgument),
        },
    }
}

/// The condition a filter stands for.
pub open spec fn compile_spec(e: EntityView, filter: InputValue) -> Compiled
    decreases filter,
{
    match filter {
        InputValue::Object(members) => compile_members(e, members@, 0, None),
        _ => Err(WundergraphError::InvalidFilterArgument),
    }
}

/// The members from `from` on, each joined with `AND` to `acc`.
pub open spec fn compile_members(
    e: EntityView,
    members: Seq<ObjectField>,
    from: int,
    acc: Option<Predicate>,
) -> Compiled
    decreases members, members.len() - from,
{
    if from < 0 || from >= members.len() {
        Ok(acc)
    } else {
        match compile_member(e, members[from]) {
            Err(x) => Err(x),
            Ok(p) => compile_members(e, members, from + 1, and_opt(acc, p)),
        }
    }
}

/// One member of a filter object.
pub open spec fn compile_member(e: EntityView, member: ObjectField) -> Compiled
    decreases member,
{
    if member.name@ == "and"@ {
        match member.value {
            InputValue::List(items) => compile_group(e, items@, 0, None, true),
            _ => Err(WundergraphError::InvalidFilterArgument),
        }
    } else if member.name@ == "or"@ {
        match member.value {
            InputValue::List(items) => compile_group(e, items@, 0, None, false),
            _ => Err(WundergraphError::InvalidFilterArgument),
        }
    } else if member.name@ == "not"@ {
        match compile_spec(e, member.value) {
            Err(x) => Err(x),
            Ok(p) => Ok(not_opt(p)),
        }
    } else {
        compile_comparison(e, member.name@, member.value)
    }
}

/// The filters of a list from `from` on, each joined to `acc`: with `AND` if
/// `all`, else with `OR`.
pub open spec fn compile_group(
    e: EntityView,
    items: Seq<InputValue>,
    from: int,
    acc: Option<Predicate>,
    all: bool,
) -> Compiled
    decreases items, items.len() - from,
{
    if from < 0 || from >= items.len() {
        Ok(acc)
    } else {
        match compile_spec(e, items[from]) {
            Err(x) => Err(x),
            Ok(p) => compile_group(
                e,
                items,
                from + 1,
                if all {
                    and_opt(acc, p)
                } else {
                    or_opt(acc, p)
                },
                all,
            ),
        }
    }
}

/// A compiled filter names only columns of a table with `width` columns.
pub open spec fn compiled_within(r: Compiled, width: nat) -> bool {
    r matches Ok(p) ==> opt_within(p, width)
}

fn comparator_of(name: &str) -> (r: Option<Comparator>)
    ensures
        r == comparator_named(name@),
{
    if str_eq(name, "eq") {
        Some(Comparator::Eq)
    } else if str_eq(name, "ne") {
        Some(Comparator::Ne)
    } else if str_eq(name, "lt") {
        Some(Comparator::Lt)
    } else if str_eq(name, "lte") {
        Some(Comparator::Lte)
    } else if str_eq(name, "gt") {
        Some(Comparator::Gt)
    } else if str_eq(name, "gte") {
        Some(Comparator::Gte)
    } else if str_eq(name, "like") {
        Some(Comparator::Like)
    } else {
        None
    }
}

fn operator(column: usize, ty: ValueType, name: &str, operand: &InputValue) -> (r: Result<
    Predicate,
    WundergraphError,
>)
    ensures
        r == compile_operator(column, ty, name@, *operand),
        r matches Ok(p) ==> p.within((column + 1) as nat),
{
    if str_eq(name, "isNull") {
        match operand {
            InputValue::Scalar(Scalar::Boolean(b)) => {
                if *b {
                    Ok(Predicate::IsNull { column })
                } else {
                    let is_null = Predicate::IsNull { column };
                    assert(is_null.within((column + 1) as nat));
                    Ok(Predicate::Not(Box::new(is_null)))
                }
            },
            _ => Err(WundergraphError::InvalidFilterValue),
        }
    } else {
        match comparator_of(name) {
            None => Err(WundergraphError::UnknownOperator),
            Some(op) => match operand {
                InputValue::Scalar(value) => {
                    let fits = match op {
                        Comparator::Like => ty == ValueType::Text,
                        _ => true,
                    };
                    if value.value_type() == ty && fits {
                        Ok(Predicate::Compare { column, op, value: value.clone() })
                    } else {
                        Err(WundergraphError::InvalidFilterValue)
                    }
                },
                _ => Err(WundergraphError::InvalidFilterValue),
            },
        }
    }
}

fn operators(column: usize, ty: ValueType, ops: &Vec<ObjectField>) -> (r: Compiled)
    ensures
        r == compile_operators(column, ty, ops@, 0, None),
        r matches Ok(Some(p)) ==> p.within((column + 1) as nat),
{
    let mut acc: Option<Predicate> = None;
    let mut i: usize = 0;
    while i < ops.len()
        invariant
            i <= ops@.len(),
            compile_operators(column, ty, ops@, 0, None) == compile_operators(
                column,
                ty,
                ops@,
                i as int,
                acc,
            ),
            opt_within(acc, (column + 1) as nat),
        decreases ops@.len() - i,
    {
        match operator(column, ty, ops[i].name.as_str(), &ops[i].value) {
            Err(x) => {
                return Err(x);
            },
            Ok(p) => {
                acc = conjoin(acc, Some(p));
            },
        }
        i += 1;
    }
    Ok(acc)
}

fn comparison(e: &Entity, name: &str, value: &InputValue) -> (r: Compiled)
    ensures
        r == compile_comparison(e@, name@, *value),
        compiled_within(r, e@.columns.len()),
{
    match e.find_field(name) {
        None => Err(WundergraphError::InvalidFilterArgument),
        Some(g) => {
            let kind = e.field(g).kind;
            let stored = e.column_of(g);
            match (stored, kind.value_type()) {
                (Some(column), Some(ty)) => match value {
                    InputValue::Object(ops) => {
                        let r = operators(column, ty, ops);
                        proof {
                            if r is Ok && r->Ok_0 is Some {
                                lemma_within_wider(
                                    r->Ok_0->Some_0,
                                    (column + 1) as nat,
                                    e@.columns.len(),
                                );
                            }
                        }
                        r
                    },
                    _ => Err(WundergraphError::InvalidFilterArgument),
                },
                _ => Err(WundergraphError::InvalidFilterArgument),
            }
        },
    }
}

/// A predicate on the first `narrow` columns is one on the first `wide`.
pub proof fn lemma_within_wider(p: Predicate, narrow: nat, wide: nat)
    requires
        p.within(narrow),
        narrow <= wide,
    ensures
        p.within(wide),
    decreases p,
{
    match p {
        Predicate::Not(q) => lemma_within_wider(*q, narrow, wide),
        Predicate::And(q, r) => {
            lemma_within_wider(*q, narrow, wide);
            lemma_within_wider(*r, narrow, wide);
        },
        Predicate::Or(q, r) => {
            lemma_within_wider(*q, narrow, wide);
            lemma_within_wider(*r, narrow, wide);
        },
        _ => {},
    }
}

/// Compiles a filter for the entity `e`.
///
/// The filter is refused with `InvalidFilterArgument` where it does not follow
/// the grammar or names a field that the entity does not store, with
/// `UnknownOperator` where an operator is not one of the eight, and with
/// `InvalidFilterValue` where an operand does not fit its column. Members are
/// looked at from left to right and the first fault is reported.
pub fn compile(e: &Entity, filter: &InputValue) -> (r: Compiled)
    ensures
        r == compile_spec(e@, *filter),
        compiled_within(r, e@.columns.len()),
    decreases filter,
{
    match filter {
        InputValue::Object(members) => members_of(e, members),
        _ => Err(WundergraphError::InvalidFilterArgument),
    }
}

fn members_of(e: &Entity, members: &Vec<ObjectField>) -> (r: Compiled)
    ensures
        r == compile_members(e@, members@, 0, None),
        compiled_within(r, e@.columns.len()),
    decreases members,
{
    let mut acc: Option<Predicate> = None;
    let mut i: usize = 0;
    while i < members.len()
        invariant
            i <= members@.len(),
            compile_members(e@, members@, 0, None) == compile_members(e@, members@, i as int, acc),
            opt_within(acc, e@.columns.len()),
        decreases members@.len() - i,
    {
        match member_of(e, &members[i]) {
            Err(x) => {
                return Err(x);
            },
            Ok(p) => {
                acc = conjoin(acc, p);
            },
        }
        i += 1;
    }
    Ok(acc)
}

fn member_of(e: &Entity, member: &ObjectField) -> (r: Compiled)
    ensures
        r == compile_member(e@, *member),
        compiled_within(r, e@.columns.len()),
    decreases member,
{
    let name = member.name.as_str();
    if str_eq(name, "and") {
        match &member.value {
            InputValue::List(items) => group_of(e, items, true),
            _ => Err(WundergraphError::InvalidFilterArgument),
        }
    } else if str_eq(name, "or") {
        match &member.value {
            InputValue::List(items) => group_of(e, items, false),
            _ => Err(WundergraphError::InvalidFilterArgument),
        }
    } else if str_eq(name, "not") {
        match compile(e, &member.value) {
            Err(x) => Err(x),
            Ok(p) => Ok(negate(p)),
        }
    } else {
        comparison(e, name, &member.value)
    }
}

fn group_of(e: &Entity, items: &Vec<InputValue>, all: bool) -> (r: Compiled)
    ensures
        r == compile_group(e@, items@, 0, None, all),
        compiled_within(r, e@.columns.len()),
    decreases items,
{
    let mut acc: Option<Predicate> = None;
    let mut i: usize = 0;
    while i < items.len()
        invariant
            i <= items@.len(),
            compile_group(e@, items@, 0, None, all) == compile_group(e@, items@, i as int, acc, all),
            opt_within(acc, e@.columns.len()),
        decreases items@.len() - i,
    {
        match compile(e, &items[i]) {
            Err(x) => {
                return Err(x);
            },
            Ok(p) => {
                acc = if all {
                    conjoin(acc, p)
                } else {
                    disjoin(acc, p)
                };
            },
        }
        i += 1;
    }
    Ok(acc)
}

/// `filter` is the object with the one member `name: value`.
pub open spec fn sole_member(filter: InputValue, name: Seq<char>, value: InputValue) -> bool {
    &&& filter matches InputValue::Object(members)
    &&& members@.len() == 1
    &&& members@[0].name@ == name
    &&& members@[0].value == value
}

/// `value` is the list without items.
pub open spec fn empty_list(value: InputValue) -> bool {
    value matches InputValue::List(items) && items@.len() == 0
}

/// An `and` or an `or` over no filters constrains nothing.
pub proof fn lemma_empty_group_constrains_nothing(
    e: EntityView,
    filter: InputValue,
    list: InputValue,
    all: bool,
)
    requires
        sole_member(
            filter,
            if all {
                "and"@
            } else {
                "or"@
            },
            list,
        ),
        empty_list(list),
    ensures
        compile_spec(e, filter) == Ok::<Option<Predicate>, WundergraphError>(None),
{
    reveal_strlit("and");
    reveal_strlit("or");
    let members = filter->Object_0@;
    assert(compile_member(e, members[0]) == Ok::<Option<Predicate>, WundergraphError>(None));
    assert(compile_members(e, members, 1, None) == Ok::<Option<Predicate>, WundergraphError>(None));
    assert(compile_members(e, members, 0, None) == compile_members(
        e,
        members,
        1,
        and_opt(None, None),
    ));
}

/// `not` negates what its filter compiles to, and a filter that constrains
/// nothing stays one: `not` of a condition `p` is the condition `NOT p`, `not`
/// of no condition is no condition, and a fault in the filter is the fault of
/// its negation.
pub proof fn lemma_negation(e: EntityView, filter: InputValue, inner: InputValue)
    requires
        sole_member(filter, "not"@, inner),
    ensures
        compile_spec(e, filter) == match compile_spec(e, inner) {
            Err(x) => Err(x),
            Ok(p) => Ok(not_opt(p)),
        },
{
    reveal_strlit("and");
    reveal_strlit("or");
    reveal_strlit("not");
    let members = filter->Object_0@;
    assert("not"@ != "and"@) by {
        assert("not"@[0] != "and"@[0]);
    }
    assert("not"@ != "or"@) by {
        assert("not"@.len() != "or"@.len());
    }
    match compile_member(e, members[0]) {
        Err(x) => {},
        Ok(p) => {
            assert(compile_members(e, members, 1, and_opt(None, p)) == Ok::<
                Option<Predicate>,
                WundergraphError,
            >(and_opt(None, p)));
        },
    }
}

/// The negation of an empty `and` or `or` constrains nothing, as the empty
/// group itself does.
pub proof fn lemma_negated_empty_group_constrains_nothing(
    e: EntityView,
    filter: InputValue,
    group: InputValue,
    list: InputValue,
    all: bool,
)
    requires
        sole_member(filter, "not"@, group),
        sole_member(
            group,
            if all {
                "and"@
            } else {
                "or"@
            },
            list,
        ),
        empty_list(list),
    ensures
        compile_spec(e, filter) == compile_spec(e, group),
        compile_spec(e, group) == Ok::<Option<Predicate>, WundergraphError>(None),
{
    lemma_empty_group_constrains_nothing(e, group, list, all);
    lemma_negation(e, filter, group);
}

} // verus!
