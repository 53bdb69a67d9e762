use wundergraph::entity::{Entity, Field, FieldKind};
use wundergraph::value::ValueType;

fn column(name: &str, ordinal: usize, ty: ValueType) -> Field {
    Field { name: name.to_string(), kind: FieldKind::Column { ordinal, ty } }
}

fn reference(name: &str, ordinal: usize) -> Field {
    Field { name: name.to_string(), kind: FieldKind::Reference { ordinal, ty: ValueType::Integer } }
}

fn computed(name: &str) -> Field {
    Field { name: name.to_string(), kind: FieldKind::Virtual }
}

fn define(fields: Vec<Field>, key: Vec<usize>) -> Option<Entity> {
    Entity::new("Hero".to_string(), fields, key)
}

fn hero() -> Entity {
    define(
        vec![
            column("name", 1, ValueType::Text),
            computed("friends"),
            column("id", 0, ValueType::Integer),
            reference("home", 2),
        ],
        vec![2],
    )
    .unwrap()
}

#[test]
fn definition_keeps_what_it_was_given() {
    let e = hero();
    assert_eq!(e.name(), "Hero");
    assert_eq!(e.field_count(), 4);
    assert_eq!(e.column_count(), 3);
    assert_eq!(e.primary_key(), &vec![2]);
    assert_eq!(e.field(0).name, "name");
    assert_eq!(e.field(1).kind, FieldKind::Virtual);
}

#[test]
fn field_to_column_and_back() {
    let e = hero();
    assert_eq!(e.column_of(0), Some(1));
    assert_eq!(e.column_of(1), None);
    assert_eq!(e.column_of(2), Some(0));
    assert_eq!(e.column_of(3), Some(2));
    for g in 0..e.field_count() {
        if let Some(c) = e.column_of(g) {
            assert_eq!(e.field_of(c), g);
        }
    }
}

#[test]
fn column_to_field_and_back() {
    let e = hero();
    assert_eq!(e.field_of(0), 2);
    assert_eq!(e.field_of(1), 0);
    assert_eq!(e.field_of(2), 3);
    for c in 0..e.column_count() {
        assert_eq!(e.column_of(e.field_of(c)), Some(c));
    }
}

#[test]
fn column_name_is_the_exposed_name() {
    let e = hero();
    assert_eq!(e.column_name(0), "id");
    assert_eq!(e.column_name(1), "name");
    assert_eq!(e.column_name(2), "home");
}

#[test]
fn find_field_by_name() {
    let e = hero();
    assert_eq!(e.find_field("name"), Some(0));
    assert_eq!(e.find_field("friends"), Some(1));
    assert_eq!(e.find_field("home"), Some(3));
    assert_eq!(e.find_field("Name"), None);
    assert_eq!(e.find_field(""), None);
}

#[test]
fn key_membership() {
    let e = hero();
    assert!(e.is_key(2));
    assert!(!e.is_key(0));
    assert!(!e.is_key(7));
}

#[test]
fn two_fields_of_one_name_are_refused() {
    let fields = vec![column("id", 0, ValueType::Integer), column("id", 1, ValueType::Text)];
    assert!(define(fields, vec![0]).is_none());
}

#[test]
fn two_fields_on_one_column_are_refused() {
    let fields = vec![column("id", 0, ValueType::Integer), column("name", 0, ValueType::Text)];
    assert!(define(fields, vec![0]).is_none());
}

#[test]
fn a_gap_in_the_columns_is_refused() {
    let fields = vec![column("id", 0, ValueType::Integer), column("name", 2, ValueType::Text)];
    assert!(define(fields, vec![0]).is_none());
    let fields = vec![column("id", 1, ValueType::Integer)];
    assert!(define(fields, vec![0]).is_none());
}

#[test]
fn a_column_beyond_the_fields_is_refused() {
    let fields = vec![column("id", 0, ValueType::Integer), column("name", usize::MAX, ValueType::Text)];
    assert!(define(fields, vec![0]).is_none());
}

#[test]
fn a_key_must_name_stored_fields_once() {
    let fields = || vec![column("id", 0, ValueType::Integer), computed("friends"), column("name", 1, ValueType::Text)];
    assert!(define(fields(), vec![]).is_none());
    assert!(define(fields(), vec![1]).is_none());
    assert!(define(fields(), vec![3]).is_none());
    assert!(define(fields(), vec![0, 0]).is_none());
    assert!(define(fields(), vec![0]).is_some());
    assert!(define(fields(), vec![2, 0]).is_some());
}

#[test]
fn an_entity_of_computed_fields_only_has_no_key() {
    assert!(define(vec![computed("friends")], vec![0]).is_none());
    assert!(define(vec![], vec![]).is_none());
}

#[test]
fn kinds_know_their_column() {
    assert_eq!(FieldKind::Virtual.column(), None);
    assert_eq!(FieldKind::Virtual.value_type(), None);
    let k = FieldKind::Reference { ordinal: 4, ty: ValueType::Text };
    assert_eq!(k.column(), Some(4));
    assert_eq!(k.value_type(), Some(ValueType::Text));
}
