//! What a request asks for: a field, its arguments and the fields below it.

use crate::text::str_eq;
use crate::value::InputValue;
use vstd::prelude::*;

verus! {

/// A named argument of a selection.
#[derive(Debug, PartialEq, Eq)]
pub struct Argument {
    pub name: String,
    pub value: InputValue,
}

/// One node of the request tree. It is read, never changed.
#[derive(Debug, PartialEq, Eq)]
pub struct Selection {
    pub name: String,
    pub arguments: Vec<Argument>,
    pub children: Vec<Selection>,
}

/// The value of the first argument called `name` among those from `from` on.
pub open spec fn first_argument(args: Seq<Argument>, name: Seq<char>, from: int) -> Option<
    InputValue,
>
    decreases args.len() - from,
{
    if from < 0 || from >= args.len() {
        None
    } else if args[from].name@ == name {
        Some(args[from].value)
    } else {
        first_argument(args, name, from + 1)
    }
}

impl Selection {
    /// The value of the argument called `name`: the first one, if several are.
    pub open spec fn spec_argument(&self, name: Seq<char>) -> Option<InputValue> {
        first_argument(self.arguments@, name, 0)
    }

    /// Whether the field `name` is asked for directly below this node.
    pub open spec fn spec_has_child(&self, name: Seq<char>) -> bool {
        exists|i: int| 0 <= i < self.children@.len() && (#[trigger] self.children@[i]).name@ == name
    }

    /// Looks an argument up by name.
    pub fn argument(&self, name: &str) -> (r: Option<&InputValue>)
        ensures
            match r {
                Some(v) => self.spec_argument(name@) == Some(*v),
                None => self.spec_argument(name@) is None,
            },
    {
        let mut i: usize = 0;
        while i < self.arguments.len()
            invariant
                i <= self.arguments@.len(),
                self.spec_argument(name@) == first_argument(self.arguments@, name@, i as int),
            decreases self.arguments@.len() - i,
        {
            if str_eq(self.arguments[i].name.as_str(), name) {
                return Some(&self.arguments[i].value);
            }
            i += 1;
        }
        None
    }

    /// The selection below this node for the field `name`: the first one, if
    /// the field is asked for more than once.
    pub fn select_child(&self, name: &str) -> (r: Option<&Selection>)
        ensures
            r is Some == self.spec_has_child(name@),
            r matches Some(c) ==> c.name@ == name@ && exists|i: int|
                0 <= i < self.children@.len() && #[trigger] self.children@[i] == *c && forall|
                    j: int,
                | 0 <= j < i ==> (#[trigger] self.children@[j]).name@ != name@,
    {
        let mut i: usize = 0;
        while i < self.children.len()
            invariant
                i <= self.children@.len(),
                forall|j: int| 0 <= j < i ==> (#[trigger] self.children@[j]).name@ != name@,
            decreases self.children@.len() - i,
        {
            if str_eq(self.children[i].name.as_str(), name) {
                return Some(&self.children[i]);
            }
            i += 1;
        }
        None
    }

    /// Whether the field `name` is asked for directly below this node.
    pub fn has_child(&self, name: &str) -> (r: bool)
        ensures
            r == self.spec_has_child(name@),
    {
        self.select_child(name).is_some()
    }
}

} // verus!
