//! Values as they arrive in arguments and as they come back in rows.

use crate::text::str_eq;
use vstd::prelude::*;

verus! {

/// The semantic type of a storage column.
#[derive(Clone, Copy, Debug, PartialEq, Eq, Structural)]
pub enum ValueType {
    Integer,
    Text,
    Boolean,
    Double,
}

/// One scalar. A double is held as its IEEE 754 bit pattern, which this library
/// never interprets.
#[derive(Debug, PartialEq, Eq)]
pub enum Scalar {
    Int(i64),
    Text(String),
    Boolean(bool),
    Double(u64),
}

impl Scalar {
    /// The column type this scalar can be compared with.
    pub open spec fn spec_value_type(&self) -> ValueType {
        match *self {
            Scalar::Int(_) => ValueType::Integer,
            Scalar::Text(_) => ValueType::Text,
            Scalar::Boolean(_) => ValueType::Boolean,
            Scalar::Double(_) => ValueType::Double,
        }
    }

    #[verifier::when_used_as_spec(spec_value_type)]
    pub fn value_type(&self) -> (r: ValueType)
        ensures
            r == self.spec_value_type(),
    {
        match self {
            Scalar::Int(_) => ValueType::Integer,
            Scalar::Text(_) => ValueType::Text,
            Scalar::Boolean(_) => ValueType::Boolean,
            Scalar::Double(_) => ValueType::Double,
        }
    }
}

impl Clone for Scalar {
    fn clone(&self) -> (r: Self)
        ensures
            r == *self,
    {
        match self {
            Scalar::Int(i) => Scalar::Int(*i),
            Scalar::Text(s) => Scalar::Text(s.clone()),
            Scalar::Boolean(b) => Scalar::Boolean(*b),
            Scalar::Double(d) => Scalar::Double(*d),
        }
    }
}

/// One value of a row: a scalar, or `None` for SQL `NULL`.
pub type Cell = Option<Scalar>;

/// Copies a cell.
pub fn clone_cell(cell: &Cell) -> (r: Cell)
    ensures
        r == *cell,
{
    match cell {
        Some(s) => Some(s.clone()),
        None => None,
    }
}

/// A named member of an object value.
#[derive(Debug, PartialEq, Eq)]
pub struct ObjectField {
    pub name: String,
    pub value: InputValue,
}

/// An argument value with all variables already replaced by constants.
#[derive(Debug, PartialEq, Eq)]
pub enum InputValue {
    Null,
    Scalar(Scalar),
    Enum(String),
    List(Vec<InputValue>),
    Object(Vec<ObjectField>),
}

impl InputValue {
    /// The integer this value holds, if it is one.
    pub open spec fn spec_as_int(&self) -> Option<i64> {
        match *self {
            InputValue::Scalar(Scalar::Int(i)) => Some(i),
            _ => None,
        }
    }

    #[verifier::when_used_as_spec(spec_as_int)]
    pub fn as_int(&self) -> (r: Option<i64>)
        ensures
            r == self.spec_as_int(),
    {
        match self {
            InputValue::Scalar(Scalar::Int(i)) => Some(*i),
            _ => None,
        }
    }

    /// The text of a string or of an enum literal, if the value is one.
    pub open spec fn spec_as_name(&self) -> Option<Seq<char>> {
        match *self {
            InputValue::Scalar(Scalar::Text(s)) => Some(s@),
            InputValue::Enum(s) => Some(s@),
            _ => None,
        }
    }

    pub fn as_name(&self) -> (r: Option<&String>)
        ensures
            match r {
                Some(s) => self.spec_as_name() == Some(s@),
                None => self.spec_as_name() is None,
            },
    {
        match self {
            InputValue::Scalar(Scalar::Text(s)) => Some(s),
            InputValue::Enum(s) => Some(s),
            _ => None,
        }
    }
}

/// The value of the first member called `name` among those from `from` on.
pub open spec fn member_from(fields: Seq<ObjectField>, name: Seq<char>, from: int) -> Option<
    InputValue,
>
    decreases fields.len() - from,
{
    if from < 0 || from >= fields.len() {
        None
    } else if fields[from].name@ == name {
        Some(fields[from].value)
    } else {
        member_from(fields, name, from + 1)
    }
}

/// The value of the member called `name`: the first one, if several are.
pub open spec fn member(fields: Seq<ObjectField>, name: Seq<char>) -> Option<InputValue> {
    member_from(fields, name, 0)
}

/// Looks a member of an object up by name.
pub fn find_member<'a>(fields: &'a Vec<ObjectField>, name: &str) -> (r: Option<&'a InputValue>)
    ensures
        match r {
            Some(v) => member(fields@, name@) == Some(*v),
            None => member(fields@, name@) is None,
        },
{
    let mut i: usize = 0;
    while i < fields.len()
        invariant
            i <= fields@.len(),
            member(fields@, name@) == member_from(fields@, name@, i as int),
        decreases fields@.len() - i,
    {
        if str_eq(fields[i].name.as_str(), name) {
            return Some(&fields[i].value);
        }
        i += 1;
    }
    None
}

} // verus!
