use wundergraph::backend::{ApplyOffset, Pg, Sqlite};
use wundergraph::context::{PlainContext, QueryModifier, WundergraphContext};
use wundergraph::entity::{Entity, Field, FieldKind};
use wundergraph::error::WundergraphError;
use wundergraph::loading::LoadingHandler;
use wundergraph::order::{build_order, parse_order, OrderRequest};
use wundergraph::query::{Comparator, Direction, OrderTerm, Predicate, Query, NO_LIMIT};
use wundergraph::resolve::{resolve, Resolved, ResolvedField, Row};
use wundergraph::select::build_select;
use wundergraph::selection::{Argument, Selection};
use wundergraph::value::{InputValue, ObjectField, Scalar, ValueType};

type Context = PlainContext<u8>;

fn column(name: &str, ordinal: usize, ty: ValueType) -> Field {
    Field { name: name.to_string(), kind: FieldKind::Column { ordinal, ty } }
}

fn person() -> Entity {
    Entity::new(
        "Person".to_string(),
        vec![
            column("id", 0, ValueType::Integer),
            column("name", 1, ValueType::Text),
            column("age", 2, ValueType::Integer),
        ],
        vec![0],
    )
    .unwrap()
}

fn hero() -> Entity {
    Entity::new(
        "Hero".to_string(),
        vec![
            column("name", 1, ValueType::Text),
            Field { name: "friends".to_string(), kind: FieldKind::Virtual },
            column("id", 0, ValueType::Integer),
            Field {
                name: "home".to_string(),
                kind: FieldKind::Reference { ordinal: 2, ty: ValueType::Integer },
            },
            column("episode", 3, ValueType::Integer),
        ],
        vec![2, 4],
    )
    .unwrap()
}

fn object(members: Vec<(&str, InputValue)>) -> InputValue {
    InputValue::Object(
        members
            .into_iter()
            .map(|(name, value)| ObjectField { name: name.to_string(), value })
            .collect(),
    )
}

fn whole(i: i64) -> InputValue {
    InputValue::Scalar(Scalar::Int(i))
}

fn word(s: &str) -> InputValue {
    InputValue::Enum(s.to_string())
}

fn leaf(name: &str) -> Selection {
    Selection { name: name.to_string(), arguments: vec![], children: vec![] }
}

fn select(arguments: Vec<(&str, InputValue)>, children: Vec<&str>) -> Selection {
    Selection {
        name: "persons".to_string(),
        arguments: arguments
            .into_iter()
            .map(|(name, value)| Argument { name: name.to_string(), value })
            .collect(),
        children: children.into_iter().map(leaf).collect(),
    }
}

fn sort(field: &str, direction: &str) -> InputValue {
    object(vec![("field", word(field)), ("direction", word(direction))])
}

fn on_pg(e: &Entity, s: &Selection) -> Result<Query, WundergraphError> {
    <Entity as LoadingHandler<Pg, Context>>::build_query(e, s)
}

fn on_sqlite(e: &Entity, s: &Selection) -> Result<Query, WundergraphError> {
    <Entity as LoadingHandler<Sqlite, Context>>::build_query(e, s)
}

fn load(e: &Entity, s: &Selection, rows: Vec<Row>) -> Result<Vec<Vec<ResolvedField>>, WundergraphError> {
    <Entity as LoadingHandler<Pg, Context>>::load(e, s, Ok(rows))
}

fn cell(i: i64) -> Option<Scalar> {
    Some(Scalar::Int(i))
}

fn text(s: &str) -> Option<Scalar> {
    Some(Scalar::Text(s.to_string()))
}

fn value(name: &str, cell: Option<Scalar>) -> ResolvedField {
    ResolvedField { name: name.to_string(), value: Resolved::Value(cell) }
}

#[test]
fn names_over_thirty_sorted_two_at_most() {
    let s = select(
        vec![
            ("filter", object(vec![("age", object(vec![("gt", whole(30))]))])),
            ("order", InputValue::List(vec![sort("name", "asc")])),
            ("limit", whole(2)),
        ],
        vec!["name"],
    );
    let expected = Query {
        projection: vec![0, 1],
        filter: Some(Predicate::Compare { column: 2, op: Comparator::Gt, value: Scalar::Int(30) }),
        order: vec![OrderTerm { column: 1, direction: Direction::Asc }],
        limit: Some(2),
        offset: None,
    };
    assert_eq!(on_pg(&person(), &s), Ok(expected));
    let rows = vec![vec![cell(4), text("Ada")], vec![cell(9), text("Bob")]];
    assert_eq!(
        load(&person(), &s, rows),
        Ok(vec![vec![value("name", text("Ada"))], vec![value("name", text("Bob"))]])
    );
}

#[test]
fn an_offset_alone_needs_a_limit_on_one_backend_only() {
    let s = select(vec![("offset", whole(5))], vec!["id"]);
    let plain = on_pg(&person(), &s).unwrap();
    assert_eq!(plain.offset, Some(5));
    assert_eq!(plain.limit, None);
    let marked = on_sqlite(&person(), &s).unwrap();
    assert_eq!(marked.offset, Some(5));
    assert_eq!(marked.limit, Some(NO_LIMIT));
    assert_eq!(NO_LIMIT, -1);
}

#[test]
fn an_offset_beside_a_limit_is_the_same_everywhere() {
    let s = select(vec![("offset", whole(5)), ("limit", whole(10))], vec!["id"]);
    let plain = on_pg(&person(), &s).unwrap();
    let marked = on_sqlite(&person(), &s).unwrap();
    assert_eq!(plain, marked);
    assert_eq!(plain.offset, Some(5));
    assert_eq!(plain.limit, Some(10));
}

#[test]
fn without_an_offset_nothing_is_paged() {
    let s = select(vec![], vec!["id"]);
    let base = Query::select(vec![0]);
    assert_eq!(Pg::apply_offset(Query::select(vec![0]), &s), Ok(Query::select(vec![0])));
    assert_eq!(Sqlite::apply_offset(base, &s), Ok(Query::select(vec![0])));
}

#[test]
fn a_malformed_offset_or_limit_is_refused() {
    let e = person();
    let s = select(vec![("offset", word("five"))], vec!["id"]);
    assert_eq!(on_pg(&e, &s), Err(WundergraphError::CouldNotBuildFilterArgument));
    assert_eq!(on_sqlite(&e, &s), Err(WundergraphError::CouldNotBuildFilterArgument));
    let s = select(vec![("limit", InputValue::Null)], vec!["id"]);
    assert_eq!(on_pg(&e, &s), Err(WundergraphError::CouldNotBuildFilterArgument));
    let s = select(vec![("limit", InputValue::Scalar(Scalar::Text("2".to_string())))], vec!["id"]);
    assert_eq!(on_pg(&e, &s), Err(WundergraphError::CouldNotBuildFilterArgument));
}

#[test]
fn the_limit_that_means_no_limit_is_not_taken_from_a_request() {
    let s = select(vec![("limit", whole(NO_LIMIT))], vec!["id"]);
    assert_eq!(on_pg(&person(), &s), Err(WundergraphError::CouldNotBuildFilterArgument));
    assert_eq!(on_sqlite(&person(), &s), Err(WundergraphError::CouldNotBuildFilterArgument));
    let s = select(vec![("limit", whole(-2))], vec!["id"]);
    assert_eq!(on_pg(&person(), &s).unwrap().limit, Some(-2));
    let s = select(vec![("limit", whole(0))], vec!["id"]);
    assert_eq!(on_pg(&person(), &s).unwrap().limit, Some(0));
}

#[test]
fn the_key_is_always_fetched() {
    let e = person();
    assert_eq!(build_select(&e, &select(vec![], vec![])), vec![0]);
    assert_eq!(build_select(&e, &select(vec![], vec!["age"])), vec![0, 2]);
    assert_eq!(build_select(&e, &select(vec![], vec!["age", "name", "id"])), vec![0, 1, 2]);
    assert_eq!(build_select(&e, &select(vec![], vec!["unknown"])), vec![0]);
    let h = hero();
    assert_eq!(build_select(&h, &select(vec![], vec!["friends"])), vec![0, 3]);
    assert_eq!(build_select(&h, &select(vec![], vec!["home", "name"])), vec![1, 0, 2, 3]);
    assert_eq!(
        <Entity as LoadingHandler<Pg, Context>>::get_select(&h, &select(vec![], vec!["home"])),
        vec![0, 2, 3]
    );
}

#[test]
fn a_filter_that_constrains_nothing_leaves_no_where_clause() {
    let s = select(vec![("filter", object(vec![("and", InputValue::List(vec![]))]))], vec!["id"]);
    assert_eq!(on_pg(&person(), &s), Ok(Query::select(vec![0])));
    let s = select(vec![("filter", object(vec![("weight", object(vec![]))]))], vec!["id"]);
    assert_eq!(on_pg(&person(), &s), Err(WundergraphError::InvalidFilterArgument));
}

#[test]
fn get_filter_is_the_compiler() {
    let e = person();
    let filter = object(vec![("age", object(vec![("lte", whole(3))]))]);
    assert_eq!(
        <Entity as LoadingHandler<Pg, Context>>::get_filter(&e, &filter),
        Ok(Some(Predicate::Compare { column: 2, op: Comparator::Lte, value: Scalar::Int(3) }))
    );
}

#[test]
fn a_second_filter_joins_the_first() {
    let e = person();
    let first = Predicate::IsNull { column: 1 };
    let s = select(vec![("filter", object(vec![("age", object(vec![("eq", whole(3))]))]))], vec![]);
    let q = <Entity as LoadingHandler<Pg, Context>>::apply_filter(
        &e,
        Query::select(vec![0]).filter(first),
        &s,
    )
    .unwrap();
    assert_eq!(
        q.filter,
        Some(Predicate::And(
            Box::new(Predicate::IsNull { column: 1 }),
            Box::new(Predicate::Compare { column: 2, op: Comparator::Eq, value: Scalar::Int(3) })
        ))
    );
}

#[test]
fn sort_terms_keep_their_order() {
    let s = select(
        vec![(
            "order",
            InputValue::List(vec![sort("age", "desc"), sort("name", "asc"), sort("age", "desc")]),
        )],
        vec!["id"],
    );
    let q = on_pg(&person(), &s).unwrap();
    assert_eq!(
        q.order,
        vec![
            OrderTerm { column: 2, direction: Direction::Desc },
            OrderTerm { column: 1, direction: Direction::Asc },
            OrderTerm { column: 2, direction: Direction::Desc },
        ]
    );
}

#[test]
fn sort_terms_follow_earlier_ones() {
    let e = person();
    let s = select(vec![("order", InputValue::List(vec![sort("age", "asc")]))], vec![]);
    let start = Query::select(vec![0]).then_order_by(OrderTerm { column: 0, direction: Direction::Desc });
    let q = <Entity as LoadingHandler<Pg, Context>>::apply_order(&e, start, &s).unwrap();
    assert_eq!(
        q.order,
        vec![
            OrderTerm { column: 0, direction: Direction::Desc },
            OrderTerm { column: 2, direction: Direction::Asc },
        ]
    );
}

#[test]
fn sorting_by_what_is_not_stored_is_refused() {
    let s = select(vec![("order", InputValue::List(vec![sort("weight", "asc")]))], vec!["id"]);
    assert_eq!(on_pg(&person(), &s), Err(WundergraphError::UnknownField));
    let s = select(vec![("order", InputValue::List(vec![sort("friends", "asc")]))], vec!["id"]);
    assert_eq!(on_pg(&hero(), &s), Err(WundergraphError::UnknownField));
}

#[test]
fn a_malformed_sort_term_is_refused() {
    let e = person();
    let cases = vec![
        whole(1),
        object(vec![("field", word("age"))]),
        object(vec![("direction", word("asc"))]),
        sort("age", "ASC"),
        sort("age", "down"),
        object(vec![("field", whole(2)), ("direction", word("asc"))]),
    ];
    for item in cases {
        let s = select(vec![("order", InputValue::List(vec![sort("weight", "asc"), item]))], vec![]);
        assert_eq!(on_pg(&e, &s), Err(WundergraphError::CouldNotBuildFilterArgument));
    }
}

#[test]
fn an_order_that_is_no_list_is_passed_over() {
    let s = select(vec![("order", sort("age", "asc"))], vec!["id"]);
    assert_eq!(on_pg(&person(), &s), Ok(Query::select(vec![0])));
}

#[test]
fn order_requests_are_read_and_resolved_one_for_one() {
    let items = vec![
        sort("age", "desc"),
        object(vec![
            ("direction", InputValue::Scalar(Scalar::Text("asc".to_string()))),
            ("field", InputValue::Scalar(Scalar::Text("id".to_string()))),
        ]),
    ];
    let requests = parse_order(&items).unwrap();
    assert_eq!(
        requests,
        vec![
            OrderRequest { field: "age".to_string(), direction: Direction::Desc },
            OrderRequest { field: "id".to_string(), direction: Direction::Asc },
        ]
    );
    assert_eq!(
        build_order(&person(), &requests),
        Ok(vec![
            OrderTerm { column: 2, direction: Direction::Desc },
            OrderTerm { column: 0, direction: Direction::Asc },
        ])
    );
    assert_eq!(build_order(&person(), &vec![]), Ok(vec![]));
}

#[test]
fn the_first_refused_stage_ends_the_assembly() {
    let s = select(
        vec![
            ("order", InputValue::List(vec![sort("weight", "asc")])),
            ("offset", word("x")),
            ("limit", word("x")),
            ("filter", whole(1)),
        ],
        vec![],
    );
    assert_eq!(on_pg(&person(), &s), Err(WundergraphError::InvalidFilterArgument));
    let s = select(
        vec![("order", InputValue::List(vec![sort("weight", "asc")])), ("offset", word("x"))],
        vec![],
    );
    assert_eq!(on_pg(&person(), &s), Err(WundergraphError::CouldNotBuildFilterArgument));
}

#[test]
fn the_first_argument_of_a_name_counts() {
    let s = select(vec![("limit", whole(3)), ("limit", whole(4))], vec!["id"]);
    assert_eq!(on_pg(&person(), &s).unwrap().limit, Some(3));
    assert_eq!(s.argument("limit"), Some(&whole(3)));
    assert_eq!(s.argument("offset"), None);
}

#[test]
fn children_are_found_by_name() {
    let s = select(vec![], vec!["id", "name", "id"]);
    assert!(s.has_child("id"));
    assert!(s.has_child("name"));
    assert!(!s.has_child("age"));
    assert_eq!(s.select_child("name"), Some(&leaf("name")));
    assert_eq!(s.select_child("age"), None);
}

#[test]
fn a_missing_key_is_reported() {
    let e = person();
    let q = Query::select(vec![0]);
    let s = select(vec![], vec!["id"]);
    assert_eq!(
        <Entity as LoadingHandler<Pg, Context>>::by_primary_key(&e, q, &s),
        Err(WundergraphError::NoPrimaryKeyArgumentFound)
    );
    let s = select(vec![("primaryKey", whole(4))], vec!["id"]);
    assert_eq!(
        <Entity as LoadingHandler<Pg, Context>>::by_primary_key(&e, Query::select(vec![0]), &s),
        Err(WundergraphError::NoPrimaryKeyArgumentFound)
    );
}

#[test]
fn a_key_narrows_the_query_to_one_row() {
    let e = person();
    let s = select(
        vec![("primaryKey", object(vec![("id", whole(4))])), ("limit", whole(10))],
        vec!["name"],
    );
    let q = on_pg(&e, &s).unwrap();
    assert_eq!(q.limit, Some(10));
    let q = <Entity as LoadingHandler<Pg, Context>>::by_primary_key(&e, q, &s).unwrap();
    assert_eq!(q.limit, Some(1));
    assert_eq!(q.projection, vec![0, 1]);
    assert_eq!(
        q.filter,
        Some(Predicate::Compare { column: 0, op: Comparator::Eq, value: Scalar::Int(4) })
    );
}

#[test]
fn no_row_for_a_key_is_no_error() {
    let e = person();
    let s = select(vec![("primaryKey", object(vec![("id", whole(4))]))], vec!["name"]);
    assert_eq!(
        <Entity as LoadingHandler<Pg, Context>>::load_by_primary_key(&e, &s, Ok(vec![])),
        Ok(None)
    );
    let s = select(vec![("primaryKey", object(vec![("id", whole(4))]))], vec!["weight"]);
    assert_eq!(
        <Entity as LoadingHandler<Pg, Context>>::load_by_primary_key(&e, &s, Ok(vec![])),
        Ok(None)
    );
}

#[test]
fn the_row_for_a_key_is_resolved() {
    let e = person();
    let s = select(vec![("primaryKey", object(vec![("id", whole(4))]))], vec!["name", "id"]);
    let rows = vec![vec![cell(4), text("Ada")]];
    assert_eq!(
        <Entity as LoadingHandler<Pg, Context>>::load_by_primary_key(&e, &s, Ok(rows)),
        Ok(Some(vec![value("name", text("Ada")), value("id", cell(4))]))
    );
}

#[test]
fn a_failure_of_the_database_is_passed_on() {
    let e = person();
    let s = select(vec![], vec!["name"]);
    assert_eq!(
        <Entity as LoadingHandler<Pg, Context>>::load(&e, &s, Err(diesel::result::Error::NotFound)),
        Err(WundergraphError::DatabaseExecutionError(diesel::result::Error::NotFound))
    );
    assert_eq!(
        <Entity as LoadingHandler<Pg, Context>>::load_by_primary_key(
            &e,
            &s,
            Err(diesel::result::Error::RollbackTransaction)
        ),
        Err(WundergraphError::DatabaseExecutionError(diesel::result::Error::RollbackTransaction))
    );
}

#[test]
fn output_follows_the_request_not_the_table() {
    let e = person();
    let s = select(vec![], vec!["age", "name", "age"]);
    let rows = vec![vec![cell(1), text("Ada"), cell(36)], vec![cell(2), None, cell(41)]];
    assert_eq!(
        resolve(&e, &s, &rows),
        Ok(vec![
            vec![value("age", cell(36)), value("name", text("Ada")), value("age", cell(36))],
            vec![value("age", cell(41)), value("name", None), value("age", cell(41))],
        ])
    );
}

#[test]
fn what_is_not_asked_for_is_not_in_the_output() {
    let e = person();
    let s = select(vec![], vec![]);
    assert_eq!(resolve(&e, &s, &vec![vec![cell(1)], vec![cell(2)]]), Ok(vec![vec![], vec![]]));
}

#[test]
fn nested_fields_name_their_key() {
    let e = hero();
    let s = select(vec![], vec!["friends", "home", "name"]);
    assert_eq!(build_select(&e, &s), vec![1, 0, 2, 3]);
    let rows = vec![vec![text("Luke"), cell(7), cell(3), cell(4)]];
    assert_eq!(
        resolve(&e, &s, &rows),
        Ok(vec![vec![
            ResolvedField {
                name: "friends".to_string(),
                value: Resolved::Nested { field: 1, key: vec![cell(7), cell(4)] },
            },
            ResolvedField {
                name: "home".to_string(),
                value: Resolved::Nested { field: 3, key: vec![cell(3)] },
            },
            value("name", text("Luke")),
        ]])
    );
}

#[test]
fn a_row_reads_as_long_as_the_projection() {
    let e = hero();
    for children in vec![vec![], vec!["name"], vec!["friends"], vec!["home", "name", "episode"]] {
        let s = select(vec![], children);
        let width = build_select(&e, &s).len();
        let fits: Row = (0..width).map(|i| cell(i as i64)).collect();
        let short: Row = (1..width).map(|i| cell(i as i64)).collect();
        let long: Row = (0..width + 1).map(|i| cell(i as i64)).collect();
        assert!(resolve(&e, &s, &vec![fits]).is_ok());
        assert_eq!(resolve(&e, &s, &vec![short]), Err(WundergraphError::InternalInvariantViolation));
        assert_eq!(resolve(&e, &s, &vec![long]), Err(WundergraphError::InternalInvariantViolation));
    }
}

#[test]
fn one_bad_row_fails_them_all() {
    let e = person();
    let s = select(vec![], vec!["id"]);
    let rows = vec![vec![cell(1)], vec![], vec![cell(3)]];
    assert_eq!(resolve(&e, &s, &rows), Err(WundergraphError::InternalInvariantViolation));
}

#[test]
fn an_unknown_field_cannot_be_resolved() {
    let e = person();
    let s = select(vec![], vec!["id", "weight"]);
    assert_eq!(resolve(&e, &s, &vec![vec![cell(1)]]), Err(WundergraphError::UnknownField));
    assert_eq!(resolve(&e, &s, &vec![vec![]]), Err(WundergraphError::UnknownField));
    assert_eq!(resolve(&e, &s, &vec![]), Ok(vec![]));
}

#[test]
fn a_plain_context_leaves_the_query_alone() {
    let e = person();
    let ctx = PlainContext { connection: 7u8 };
    assert_eq!(*ctx.get_connection(), 7);
    let s = select(vec![("limit", whole(2))], vec!["name"]);
    let q = on_pg(&e, &s).unwrap();
    assert_eq!(ctx.modify_query(&e, &s, on_pg(&e, &s).unwrap()), Ok(on_pg(&e, &s).unwrap()));
    assert_eq!(<Entity as LoadingHandler<Pg, Context>>::modify(&e, &ctx, &s, q), on_pg(&e, &s));
}

#[test]
fn an_entity_describes_nothing_by_itself() {
    let e = person();
    assert_eq!(<Entity as LoadingHandler<Pg, Context>>::field_description(&e, 0), None);
    assert_eq!(<Entity as LoadingHandler<Pg, Context>>::type_description(&e), None);
    assert_eq!(<Entity as LoadingHandler<Pg, Context>>::field_deprecation(&e, 0), None);
    assert_eq!(<Entity as LoadingHandler<Pg, Context>>::entity(&e).name(), "Person");
}

#[test]
fn query_clauses_replace_or_extend() {
    let q = Query::select(vec![2, 0]).limit(3).limit(4).offset(1).offset(2);
    assert_eq!(q.projection, vec![2, 0]);
    assert_eq!(q.limit, Some(4));
    assert_eq!(q.offset, Some(2));
    assert_eq!(q.filter, None);
    assert_eq!(q.order, vec![]);
}
