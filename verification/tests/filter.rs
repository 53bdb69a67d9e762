use wundergraph::entity::{Entity, Field, FieldKind};
use wundergraph::error::WundergraphError;
use wundergraph::filter::compile;
use wundergraph::key::key_filter;
use wundergraph::query::{Comparator, Predicate};
use wundergraph::value::{InputValue, ObjectField, Scalar, ValueType};

fn column(name: &str, ordinal: usize, ty: ValueType) -> Field {
    Field { name: name.to_string(), kind: FieldKind::Column { ordinal, ty } }
}

fn person() -> Entity {
    Entity::new(
        "Person".to_string(),
        vec![
            column("id", 0, ValueType::Integer),
            column("name", 1, ValueType::Text),
            column("age", 2, ValueType::Integer),
            Field { name: "pets".to_string(), kind: FieldKind::Virtual },
            column("active", 3, ValueType::Boolean),
            column("height", 4, ValueType::Double),
        ],
        vec![0],
    )
    .unwrap()
}

fn object(members: Vec<(&str, InputValue)>) -> InputValue {
    InputValue::Object(
        members
            .into_iter()
            .map(|(name, value)| ObjectField { name: name.to_string(), value })
            .collect(),
    )
}

fn whole(i: i64) -> InputValue {
    InputValue::Scalar(Scalar::Int(i))
}

fn string(s: &str) -> InputValue {
    InputValue::Scalar(Scalar::Text(s.to_string()))
}

fn boolean(b: bool) -> InputValue {
    InputValue::Scalar(Scalar::Boolean(b))
}

fn compare(column: usize, op: Comparator, value: Scalar) -> Predicate {
    Predicate::Compare { column, op, value }
}

fn and(p: Predicate, q: Predicate) -> Predicate {
    Predicate::And(Box::new(p), Box::new(q))
}

fn or(p: Predicate, q: Predicate) -> Predicate {
    Predicate::Or(Box::new(p), Box::new(q))
}

fn not(p: Predicate) -> Predicate {
    Predicate::Not(Box::new(p))
}

fn age_over(n: i64) -> InputValue {
    object(vec![("age", object(vec![("gt", whole(n))]))])
}

#[test]
fn a_comparison_compiles_to_its_column() {
    assert_eq!(
        compile(&person(), &age_over(30)),
        Ok(Some(compare(2, Comparator::Gt, Scalar::Int(30))))
    );
}

#[test]
fn every_operator_has_its_comparison() {
    let cases = vec![
        ("eq", Comparator::Eq),
        ("ne", Comparator::Ne),
        ("lt", Comparator::Lt),
        ("lte", Comparator::Lte),
        ("gt", Comparator::Gt),
        ("gte", Comparator::Gte),
    ];
    for (name, op) in cases {
        let filter = object(vec![("id", object(vec![(name, whole(7))]))]);
        assert_eq!(compile(&person(), &filter), Ok(Some(compare(0, op, Scalar::Int(7)))));
    }
    let filter = object(vec![("name", object(vec![("like", string("A%"))]))]);
    assert_eq!(
        compile(&person(), &filter),
        Ok(Some(compare(1, Comparator::Like, Scalar::Text("A%".to_string()))))
    );
}

#[test]
fn is_null_takes_a_boolean() {
    let filter = object(vec![("name", object(vec![("isNull", boolean(true))]))]);
    assert_eq!(compile(&person(), &filter), Ok(Some(Predicate::IsNull { column: 1 })));
    let filter = object(vec![("name", object(vec![("isNull", boolean(false))]))]);
    assert_eq!(compile(&person(), &filter), Ok(Some(not(Predicate::IsNull { column: 1 }))));
    let filter = object(vec![("name", object(vec![("isNull", whole(1))]))]);
    assert_eq!(compile(&person(), &filter), Err(WundergraphError::InvalidFilterValue));
}

#[test]
fn the_empty_filter_constrains_nothing() {
    assert_eq!(compile(&person(), &object(vec![])), Ok(None));
    assert_eq!(compile(&person(), &object(vec![("age", object(vec![]))])), Ok(None));
}

#[test]
fn empty_groups_constrain_nothing() {
    let all = object(vec![("and", InputValue::List(vec![]))]);
    let any = object(vec![("or", InputValue::List(vec![]))]);
    assert_eq!(compile(&person(), &all), Ok(None));
    assert_eq!(compile(&person(), &any), Ok(None));
}

#[test]
fn negating_no_constraint_is_no_constraint() {
    let all = object(vec![("not", object(vec![("and", InputValue::List(vec![]))]))]);
    let any = object(vec![("not", object(vec![("or", InputValue::List(vec![]))]))]);
    let none = object(vec![("not", object(vec![]))]);
    assert_eq!(compile(&person(), &all), Ok(None));
    assert_eq!(compile(&person(), &any), Ok(None));
    assert_eq!(compile(&person(), &none), Ok(None));
}

#[test]
fn negating_a_comparison_negates_it() {
    let filter = object(vec![("not", age_over(30))]);
    assert_eq!(
        compile(&person(), &filter),
        Ok(Some(not(compare(2, Comparator::Gt, Scalar::Int(30)))))
    );
}

#[test]
fn members_hold_together_from_left_to_right() {
    let filter = object(vec![
        ("age", object(vec![("gte", whole(18)), ("lt", whole(65))])),
        ("name", object(vec![("eq", string("Ada"))])),
        ("active", object(vec![("eq", boolean(true))])),
    ]);
    let age = and(
        compare(2, Comparator::Gte, Scalar::Int(18)),
        compare(2, Comparator::Lt, Scalar::Int(65)),
    );
    let name = compare(1, Comparator::Eq, Scalar::Text("Ada".to_string()));
    let active = compare(3, Comparator::Eq, Scalar::Boolean(true));
    assert_eq!(compile(&person(), &filter), Ok(Some(and(and(age, name), active))));
}

#[test]
fn groups_join_their_filters() {
    let filter = object(vec![(
        "or",
        InputValue::List(vec![age_over(60), object(vec![]), age_over(70), age_over(80)]),
    )]);
    let expected = or(
        or(compare(2, Comparator::Gt, Scalar::Int(60)), compare(2, Comparator::Gt, Scalar::Int(70))),
        compare(2, Comparator::Gt, Scalar::Int(80)),
    );
    assert_eq!(compile(&person(), &filter), Ok(Some(expected)));
    let filter = object(vec![("and", InputValue::List(vec![age_over(1), age_over(2)]))]);
    let expected =
        and(compare(2, Comparator::Gt, Scalar::Int(1)), compare(2, Comparator::Gt, Scalar::Int(2)));
    assert_eq!(compile(&person(), &filter), Ok(Some(expected)));
}

#[test]
fn groups_nest() {
    let inner = object(vec![("or", InputValue::List(vec![age_over(1), age_over(2)]))]);
    let filter = object(vec![("not", object(vec![("and", InputValue::List(vec![inner, age_over(3)]))]))]);
    let expected = not(and(
        or(compare(2, Comparator::Gt, Scalar::Int(1)), compare(2, Comparator::Gt, Scalar::Int(2))),
        compare(2, Comparator::Gt, Scalar::Int(3)),
    ));
    assert_eq!(compile(&person(), &filter), Ok(Some(expected)));
}

#[test]
fn what_is_no_filter_is_refused() {
    let e = person();
    assert_eq!(compile(&e, &InputValue::Null), Err(WundergraphError::InvalidFilterArgument));
    assert_eq!(compile(&e, &whole(1)), Err(WundergraphError::InvalidFilterArgument));
    assert_eq!(compile(&e, &InputValue::List(vec![])), Err(WundergraphError::InvalidFilterArgument));
    assert_eq!(
        compile(&e, &object(vec![("and", age_over(1))])),
        Err(WundergraphError::InvalidFilterArgument)
    );
    assert_eq!(
        compile(&e, &object(vec![("or", InputValue::Null)])),
        Err(WundergraphError::InvalidFilterArgument)
    );
    assert_eq!(
        compile(&e, &object(vec![("not", InputValue::List(vec![]))])),
        Err(WundergraphError::InvalidFilterArgument)
    );
    assert_eq!(
        compile(&e, &object(vec![("age", whole(3))])),
        Err(WundergraphError::InvalidFilterArgument)
    );
}

#[test]
fn a_field_without_a_column_cannot_be_filtered() {
    let e = person();
    let unknown = object(vec![("weight", object(vec![("gt", whole(30))]))]);
    assert_eq!(compile(&e, &unknown), Err(WundergraphError::InvalidFilterArgument));
    let computed = object(vec![("pets", object(vec![("eq", whole(30))]))]);
    assert_eq!(compile(&e, &computed), Err(WundergraphError::InvalidFilterArgument));
}

#[test]
fn an_unknown_operator_is_refused() {
    let filter = object(vec![("age", object(vec![("above", whole(30))]))]);
    assert_eq!(compile(&person(), &filter), Err(WundergraphError::UnknownOperator));
    let filter = object(vec![("age", object(vec![("GT", whole(30))]))]);
    assert_eq!(compile(&person(), &filter), Err(WundergraphError::UnknownOperator));
}

#[test]
fn an_operand_must_fit_the_column() {
    let e = person();
    let cases = vec![
        object(vec![("age", object(vec![("gt", string("30"))]))]),
        object(vec![("name", object(vec![("eq", whole(3))]))]),
        object(vec![("age", object(vec![("like", whole(3))]))]),
        object(vec![("age", object(vec![("eq", InputValue::Null)]))]),
        object(vec![("age", object(vec![("eq", InputValue::List(vec![whole(1)]))]))]),
        object(vec![("age", object(vec![("eq", InputValue::Enum("OLD".to_string()))]))]),
        object(vec![("height", object(vec![("lt", whole(2))]))]),
        object(vec![("active", object(vec![("eq", InputValue::Scalar(Scalar::Double(0)))]))]),
    ];
    for filter in cases {
        assert_eq!(compile(&e, &filter), Err(WundergraphError::InvalidFilterValue));
    }
    let filter = object(vec![(
        "height",
        object(vec![("lt", InputValue::Scalar(Scalar::Double(0x4000_0000_0000_0000)))]),
    )]);
    assert_eq!(
        compile(&e, &filter),
        Ok(Some(compare(4, Comparator::Lt, Scalar::Double(0x4000_0000_0000_0000))))
    );
}

#[test]
fn the_first_fault_is_reported() {
    let filter = object(vec![
        ("age", object(vec![("above", whole(30))])),
        ("weight", object(vec![("gt", whole(30))])),
    ]);
    assert_eq!(compile(&person(), &filter), Err(WundergraphError::UnknownOperator));
    let filter = object(vec![
        ("weight", object(vec![("gt", whole(30))])),
        ("age", object(vec![("above", whole(30))])),
    ]);
    assert_eq!(compile(&person(), &filter), Err(WundergraphError::InvalidFilterArgument));
    let filter = object(vec![("or", InputValue::List(vec![age_over(1), whole(2)]))]);
    assert_eq!(compile(&person(), &filter), Err(WundergraphError::InvalidFilterArgument));
}

#[test]
fn a_key_of_one_field() {
    let e = person();
    let key = object(vec![("name", string("x")), ("id", whole(5))]);
    assert_eq!(key_filter(&e, &key), Ok(Some(compare(0, Comparator::Eq, Scalar::Int(5)))));
}

#[test]
fn a_key_of_two_fields_follows_the_key() {
    let e = Entity::new(
        "Membership".to_string(),
        vec![column("club", 0, ValueType::Text), column("member", 1, ValueType::Integer)],
        vec![1, 0],
    )
    .unwrap();
    let key = object(vec![("club", string("chess")), ("member", whole(9))]);
    assert_eq!(
        key_filter(&e, &key),
        Ok(Some(and(
            compare(1, Comparator::Eq, Scalar::Int(9)),
            compare(0, Comparator::Eq, Scalar::Text("chess".to_string()))
        )))
    );
    let half = object(vec![("club", string("chess"))]);
    assert_eq!(key_filter(&e, &half), Err(WundergraphError::NoPrimaryKeyArgumentFound));
}

#[test]
fn what_is_no_key_is_refused() {
    let e = person();
    let cases = vec![
        whole(5),
        InputValue::Null,
        object(vec![]),
        object(vec![("id", string("5"))]),
        object(vec![("id", InputValue::Null)]),
        object(vec![("ID", whole(5))]),
    ];
    for key in cases {
        assert_eq!(key_filter(&e, &key), Err(WundergraphError::NoPrimaryKeyArgumentFound));
    }
}
