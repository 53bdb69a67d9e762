//! The correspondence between the fields an entity exposes and the columns of
//! the table behind it.
//!
//! Fields are numbered in the order in which the exposed type declares them.
//! Each field is either stored in one column of the table, named by the
//! column's ordinal, or not stored at all. The table is checked once, when the
//! entity is defined; afterwards it is only read.

use crate::text::str_eq;
use crate::value::ValueType;
use vstd::prelude::*;

verus! {

/// How a field gets its value.
#[derive(Clone, Copy, Debug, PartialEq, Eq, Structural)]
pub enum FieldKind {
    /// Stored in the column `ordinal`; the output is the stored scalar.
    Column { ordinal: usize, ty: ValueType },
    /// Stored in the column `ordinal`, which holds the key of another entity;
    /// the output is that entity.
    Reference { ordinal: usize, ty: ValueType },
    /// Not stored: computed from the row's key, as a to-many relationship is.
    Virtual,
}

impl FieldKind {
    /// The ordinal of the column behind the field, if it has one.
    pub open spec fn spec_column(&self) -> Option<usize> {
        match *self {
            FieldKind::Column { ordinal, .. } => Some(ordinal),
            FieldKind::Reference { ordinal, .. } => Some(ordinal),
            FieldKind::Virtual => None,
        }
    }

    #[verifier::when_used_as_spec(spec_column)]
    pub fn column(&self) -> (r: Option<usize>)
        ensures
            r == self.spec_column(),
    {
        match *self {
            FieldKind::Column { ordinal, .. } => Some(ordinal),
            FieldKind::Reference { ordinal, .. } => Some(ordinal),
            FieldKind::Virtual => None,
        }
    }

    /// The type of the column behind the field, if it has one.
    pub open spec fn spec_value_type(&self) -> Option<ValueType> {
        match *self {
            FieldKind::Column { ty, .. } => Some(ty),
            FieldKind::Reference { ty, .. } => Some(ty),
            FieldKind::Virtual => None,
        }
    }

    #[verifier::when_used_as_spec(spec_value_type)]
    pub fn value_type(&self) -> (r: Option<ValueType>)
        ensures
            r == self.spec_value_type(),
    {
        match *self {
            FieldKind::Column { ty, .. } => Some(ty),
            FieldKind::Reference { ty, .. } => Some(ty),
            FieldKind::Virtual => None,
        }
    }
}

/// One exposed attribute of an entity.
#[derive(Debug, PartialEq, Eq)]
pub struct Field {
    pub name: String,
    pub kind: FieldKind,
}

/// Field `g` exists and is stored in column `c`.
pub open spec fn stored_at(fields: Seq<Field>, g: int, c: int) -> bool {
    &&& 0 <= g < fields.len()
    &&& fields[g].kind.spec_column() matches Some(o)
    &&& o == c
}

/// Some field is stored in column `c`.
pub open spec fn column_used(fields: Seq<Field>, c: int) -> bool {
    exists|g: int| stored_at(fields, g, c)
}

/// No two fields have the same name.
pub open spec fn names_distinct(fields: Seq<Field>) -> bool {
    forall|i: int, j: int|
        0 <= i < j < fields.len() ==> (#[trigger] fields[i]).name@ != (#[trigger] fields[j]).name@
}

/// Every column ordinal is smaller than the number of fields.
pub open spec fn columns_in_range(fields: Seq<Field>) -> bool {
    forall|g: int, c: int| #[trigger] stored_at(fields, g, c) ==> c < fields.len()
}

/// No column stands behind two fields.
pub open spec fn columns_injective(fields: Seq<Field>) -> bool {
    forall|g: int, h: int, c: int|
        #[trigger] stored_at(fields, g, c) && #[trigger] stored_at(fields, h, c) ==> g == h
}

/// The ordinals in use are `0, 1, ..` without a gap.
pub open spec fn columns_contiguous(fields: Seq<Field>) -> bool {
    forall|c: int, d: int|
        0 <= d < c && #[trigger] column_used(fields, c) ==> #[trigger] column_used(fields, d)
}

/// The key names at least one field, each once, and only stored fields.
pub open spec fn key_valid(fields: Seq<Field>, key: Seq<usize>) -> bool {
    &&& key.len() > 0
    &&& forall|i: int|
        0 <= i < key.len() ==> (#[trigger] key[i]) < fields.len() && fields[key[i] as int].kind.spec_column() is Some
    &&& forall|i: int, j: int| 0 <= i < j < key.len() ==> #[trigger] key[i] != #[trigger] key[j]
}

/// What makes a list of fields and a primary key a definition of an entity:
/// stored fields and storage columns correspond one to one.
pub open spec fn valid_definition(fields: Seq<Field>, key: Seq<usize>) -> bool {
    &&& names_distinct(fields)
    &&& columns_in_range(fields)
    &&& columns_injective(fields)
    &&& columns_contiguous(fields)
    &&& key_valid(fields, key)
}

/// `columns` lists, for each column ordinal, the field stored there.
pub open spec fn inverse_of(fields: Seq<Field>, columns: Seq<usize>) -> bool {
    &&& forall|c: int| 0 <= c < columns.len() ==> stored_at(fields, #[trigger] columns[c] as int, c)
    &&& forall|g: int, c: int| #[trigger]
        stored_at(fields, g, c) ==> 0 <= c < columns.len() && columns[c] == g
}

/// The mathematical content of an [`Entity`].
pub struct EntityView {
    /// The name of the exposed type.
    pub name: Seq<char>,
    /// The fields in declared order.
    pub fields: Seq<Field>,
    /// For each column ordinal, the index of the field stored there.
    pub columns: Seq<usize>,
    /// The indices of the fields that form the primary key.
    pub primary_key: Seq<usize>,
}

impl EntityView {
    /// The definition is valid and the two directions of the table agree.
    pub open spec fn wf(self) -> bool {
        &&& valid_definition(self.fields, self.primary_key)
        &&& inverse_of(self.fields, self.columns)
    }

    /// The column behind field `g`, or `None` for a field that is not stored.
    pub open spec fn column_of(self, g: int) -> Option<usize> {
        self.fields[g].kind.spec_column()
    }

    /// The field stored in column `c`.
    pub open spec fn field_of(self, c: int) -> usize {
        self.columns[c]
    }

    /// Field `g` exists and is called `name`.
    pub open spec fn named(self, g: int, name: Seq<char>) -> bool {
        0 <= g < self.fields.len() && self.fields[g].name@ == name
    }

    /// The index of the field called `name`.
    pub open spec fn find_field(self, name: Seq<char>) -> Option<int> {
        if exists|g: int| self.named(g, name) {
            Some(choose|g: int| self.named(g, name))
        } else {
            None
        }
    }

    /// Whether field `g` belongs to the primary key.
    pub open spec fn is_key(self, g: int) -> bool {
        exists|i: int| 0 <= i < self.primary_key.len() && #[trigger] self.primary_key[i] == g
    }
}

/// An exposed type backed by one storage table. A value of this type always
/// holds a valid definition.
#[derive(Debug)]
pub struct Entity {
    name: String,
    fields: Vec<Field>,
    columns: Vec<usize>,
    primary_key: Vec<usize>,
}

impl View for Entity {
    type V = EntityView;

    closed spec fn view(&self) -> EntityView {
        EntityView {
            name: self.name@,
            fields: self.fields@,
            columns: self.columns@,
            primary_key: self.primary_key@,
        }
    }
}

fn names_are_distinct(fields: &Vec<Field>) -> (r: bool)
    ensures
        r == names_distinct(fields@),
{
    let mut j: usize = 0;
    while j < fields.len()
        invariant
            j <= fields@.len(),
            forall|a: int, b: int|
                0 <= a < b < j ==> (#[trigger] fields@[a]).name@ != (#[trigger] fields@[b]).name@,
        decreases fields@.len() - j,
    {
        let mut i: usize = 0;
        while i < j
            invariant
                i <= j < fields@.len(),
                forall|a: int| 0 <= a < i ==> (#[trigger] fields@[a]).name@ != fields@[j as int].name@,
            decreases j - i,
        {
            if str_eq(fields[i].name.as_str(), fields[j].name.as_str()) {
                return false;
            }
            i += 1;
        }
        j += 1;
    }
    true
}

/// One more than the largest column ordinal, or `None` if an ordinal is out of
/// range.
fn column_width(fields: &Vec<Field>) -> (r: Option<usize>)
    ensures
        r is Some == columns_in_range(fields@),
        r matches Some(w) ==> {
            &&& w <= fields@.len()
            &&& forall|g: int, c: int| #[trigger] stored_at(fields@, g, c) ==> c < w
            &&& w == 0 || column_used(fields@, w - 1)
        },
{
    let n = fields.len();
    let mut width: usize = 0;
    let mut g: usize = 0;
    while g < n
        invariant
            g <= n == fields@.len(),
            width <= n,
            forall|h: int, c: int| #[trigger] stored_at(fields@, h, c) && h < g ==> c < width,
            width == 0 || column_used(fields@, width - 1),
        decreases n - g,
    {
        match fields[g].kind.column() {
            Some(c) => {
                assert(stored_at(fields@, g as int, c as int));
                if c >= n {
                    return None;
                }
                if c >= width {
                    width = c + 1;
                }
            },
            None => {},
        }
        g += 1;
    }
    Some(width)
}

/// The field behind each column, or `None` if the columns and the stored
/// fields do not correspond one to one.
fn invert(fields: &Vec<Field>, width: usize) -> (r: Option<Vec<usize>>)
    requires
        width <= fields@.len(),
        forall|g: int, c: int| #[trigger] stored_at(fields@, g, c) ==> c < width,
        width == 0 || column_used(fields@, width - 1),
    ensures
        r is Some == (columns_injective(fields@) && columns_contiguous(fields@)),
        r matches Some(columns) ==> inverse_of(fields@, columns@),
{
    let n = fields.len();
    let mut columns: Vec<usize> = Vec::new();
    while columns.len() < width
        invariant
            columns@.len() <= width,
            forall|c: int| 0 <= c < columns@.len() ==> columns@[c] == n,
        decreases width - columns@.len(),
    {
        columns.push(n);
    }
    let mut g: usize = 0;
    while g < n
        invariant
            g <= n == fields@.len(),
            columns@.len() == width,
            forall|g: int, c: int| #[trigger] stored_at(fields@, g, c) ==> c < width,
            forall|c: int|
                0 <= c < width ==> (#[trigger] columns@[c]) == n || (columns@[c] < g && stored_at(
                    fields@,
                    columns@[c] as int,
                    c,
                )),
            forall|h: int, c: int| #[trigger] stored_at(fields@, h, c) && h < g ==> columns@[c] == h,
        decreases n - g,
    {
        match fields[g].kind.column() {
            Some(c) => {
                assert(stored_at(fields@, g as int, c as int));
                if columns[c] != n {
                    assert(stored_at(fields@, columns@[c as int] as int, c as int));
                    return None;
                }
                columns.set(c, g);
            },
            None => {},
        }
        g += 1;
    }
    let mut c: usize = 0;
    while c < width
        invariant
            c <= width == columns@.len(),
            n == fields@.len(),
            width == 0 || column_used(fields@, width - 1),
            forall|d: int| 0 <= d < c ==> (#[trigger] columns@[d]) != n,
            forall|c: int|
                0 <= c < width ==> (#[trigger] columns@[c]) == n || stored_at(
                    fields@,
                    columns@[c] as int,
                    c,
                ),
            forall|h: int, c: int| #[trigger] stored_at(fields@, h, c) ==> 0 <= c < width && columns@[c] == h,
        decreases width - c,
    {
        if columns[c] == n {
            assert(!column_used(fields@, c as int));
            assert(column_used(fields@, width - 1));
            return None;
        }
        c += 1;
    }
    assert(columns_contiguous(fields@)) by {
        assert forall|c: int, d: int| 0 <= d < c && #[trigger] column_used(fields@, c) implies #[trigger] column_used(
            fields@,
            d,
        ) by {
            let g = choose|g: int| stored_at(fields@, g, c);
            assert(stored_at(fields@, g, c));
            assert(stored_at(fields@, columns@[d] as int, d));
        }
    }
    Some(columns)
}

fn key_is_valid(fields: &Vec<Field>, key: &Vec<usize>) -> (r: bool)
    ensures
        r == key_valid(fields@, key@),
{
    if key.len() == 0 {
        return false;
    }
    let mut j: usize = 0;
    while j < key.len()
        invariant
            j <= key@.len(),
            forall|i: int|
                0 <= i < j ==> (#[trigger] key@[i]) < fields@.len() && fields@[key@[i] as int].kind.spec_column() is Some,
            forall|a: int, b: int| 0 <= a < b < j ==> #[trigger] key@[a] != #[trigger] key@[b],
        decreases key@.len() - j,
    {
        let g = key[j];
        if g >= fields.len() {
            return false;
        }
        if fields[g].kind.column().is_none() {
            return false;
        }
        let mut i: usize = 0;
        while i < j
            invariant
                i <= j < key@.len(),
                g == key@[j as int],
                forall|a: int| 0 <= a < i ==> #[trigger] key@[a] != g,
            decreases j - i,
        {
            if key[i] == g {
                return false;
            }
            i += 1;
        }
        j += 1;
    }
    true
}

impl Entity {
    /// Whether the entity holds a valid definition. Every value that executable
    /// code can hold does.
    #[verifier::type_invariant]
    pub open spec fn wf(&self) -> bool {
        self@.wf()
    }

    /// Defines an entity from its fields in declared order and the indices of
    /// the fields that form the primary key. The definition is refused unless
    /// the stored fields and the storage columns correspond one to one.
    pub fn new(name: String, fields: Vec<Field>, primary_key: Vec<usize>) -> (r: Option<
        Entity,
    >)
        ensures
            r is Some == valid_definition(fields@, primary_key@),
            r matches Some(e) ==> {
                &&& e@.name == name@
                &&& e@.fields == fields@
                &&& e@.primary_key == primary_key@
                &&& e.wf()
            },
    {
        if !names_are_distinct(&fields) {
            return None;
        }
        if !key_is_valid(&fields, &primary_key) {
            return None;
        }
        let width = match column_width(&fields) {
            Some(w) => w,
            None => {
                return None;
            },
        };
        let columns = match invert(&fields, width) {
            Some(c) => c,
            None => {
                return None;
            },
        };
        Some(Entity { name, fields, columns, primary_key })
    }

    /// The name of the exposed type.
    pub fn name(&self) -> (r: &String)
        ensures
            r@ == self@.name,
    {
        &self.name
    }

    /// The number of fields.
    pub fn field_count(&self) -> (r: usize)
        ensures
            r == self@.fields.len(),
    {
        self.fields.len()
    }

    /// The number of storage columns.
    pub fn column_count(&self) -> (r: usize)
        ensures
            r == self@.columns.len(),
    {
        self.columns.len()
    }

    /// Field `g`.
    pub fn field(&self, g: usize) -> (r: &Field)
        requires
            g < self@.fields.len(),
        ensures
            *r == self@.fields[g as int],
    {
        &self.fields[g]
    }

    /// The column behind field `g`, or `None` for a field that is not stored.
    pub fn column_of(&self, g: usize) -> (r: Option<usize>)
        requires
            g < self@.fields.len(),
        ensures
            r == self@.column_of(g as int),
            r matches Some(c) ==> c < self@.columns.len() && self@.field_of(c as int) == g,
    {
        proof {
            use_type_invariant(self);
        }
        let r = self.fields[g].kind.column();
        proof {
            if let Some(c) = r {
                assert(stored_at(self@.fields, g as int, c as int));
            }
        }
        r
    }

    /// The field stored in column `c`.
    pub fn field_of(&self, c: usize) -> (r: usize)
        requires
            c < self@.columns.len(),
        ensures
            r == self@.field_of(c as int),
            r < self@.fields.len(),
            self@.column_of(r as int) == Some(c),
    {
        proof {
            use_type_invariant(self);
            assert(stored_at(self@.fields, self@.columns[c as int] as int, c as int));
        }
        self.columns[c]
    }

    /// The exposed name of the field stored in column `c`.
    pub fn column_name(&self, c: usize) -> (r: &String)
        requires
            c < self@.columns.len(),
        ensures
            *r == self@.fields[self@.field_of(c as int) as int].name,
    {
        let g = self.field_of(c);
        &self.fields[g].name
    }

    /// The index of the field called `name`.
    pub fn find_field(&self, name: &str) -> (r: Option<usize>)
        ensures
            match r {
                Some(g) => self@.find_field(name@) == Some(g as int),
                None => self@.find_field(name@) is None,
            },
            r matches Some(g) ==> g < self@.fields.len(),
    {
        proof {
            use_type_invariant(self);
        }
        let mut g: usize = 0;
        while g < self.fields.len()
            invariant
                g <= self.fields@.len(),
                self@.fields == self.fields@,
                self@.wf(),
                forall|h: int| 0 <= h < g ==> !self@.named(h, name@),
            decreases self.fields@.len() - g,
        {
            if str_eq(self.fields[g].name.as_str(), name) {
                proof {
                    assert(self@.named(g as int, name@));
                    let h = choose|h: int| self@.named(h, name@);
                    assert(self@.named(h, name@));
                    assert(names_distinct(self@.fields));
                    if h < g {
                        assert(self@.fields[h].name@ != self@.fields[g as int].name@);
                    } else if g < h {
                        assert(self@.fields[g as int].name@ != self@.fields[h].name@);
                    }
                }
                return Some(g);
            }
            g += 1;
        }
        None
    }

    /// The indices of the fields that form the primary key.
    pub fn primary_key(&self) -> (r: &Vec<usize>)
        ensures
            r@ == self@.primary_key,
    {
        &self.primary_key
    }

    /// Whether field `g` belongs to the primary key.
    pub fn is_key(&self, g: usize) -> (r: bool)
        ensures
            r == self@.is_key(g as int),
    {
        let mut i: usize = 0;
        while i < self.primary_key.len()
            invariant
                i <= self.primary_key@.len(),
                self@.primary_key == self.primary_key@,
                forall|j: int| 0 <= j < i ==> #[trigger] self.primary_key@[j] != g,
            decreases self.primary_key@.len() - i,
        {
            if self.primary_key[i] == g {
                return true;
            }
            i += 1;
        }
        false
    }
}

/// Stored fields and storage columns correspond one to one: from a stored field
/// to its column and back gives the field, and from a column to its field and
/// back gives the column.
pub proof fn lemma_correspondence_is_bijection(e: EntityView)
    requires
        e.wf(),
    ensures
        forall|g: int|
            0 <= g < e.fields.len() ==> match #[trigger] e.column_of(g) {
                Some(c) => c < e.columns.len() && e.field_of(c as int) == g,
                None => true,
            },
        forall|c: int|
            0 <= c < e.columns.len() ==> (#[trigger] e.field_of(c)) < e.fields.len() && e.column_of(
                e.field_of(c) as int,
            ) == Some(c as usize),
{
    assert forall|g: int| 0 <= g < e.fields.len() implies match #[trigger] e.column_of(g) {
        Some(c) => c < e.columns.len() && e.field_of(c as int) == g,
        None => true,
    } by {
        if let Some(c) = e.column_of(g) {
            assert(stored_at(e.fields, g, c as int));
        }
    }
    assert forall|c: int| 0 <= c < e.columns.len() implies (#[trigger] e.field_of(c))
        < e.fields.len() && e.column_of(e.field_of(c) as int) == Some(c as usize) by {
        assert(stored_at(e.fields, e.columns[c] as int, c));
    }
}

} // verus!
