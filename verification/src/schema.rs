//! What is known of the tables and columns of a database.

use crate::text::{bytes_le, lemma_bytes_le_total, str_eq, str_le};
use vstd::prelude::*;
use vstd::string::StringExecFns;
use vstd::utf8::encode_utf8;

verus! {

/// One column as the catalog of the database describes it.
#[derive(Debug, Clone, PartialEq, Eq)]
pub struct ColumnInformation {
    pub column_name: String,
    pub data_type: String,
    pub nullable: bool,
    pub has_default: bool,
}

impl ColumnInformation {
    pub fn new(column_name: String, data_type: String, nullable: bool, has_default: bool) -> (r:
        Self)
        ensures
            r.column_name == column_name,
            r.data_type == data_type,
            r.nullable == nullable,
            r.has_default == has_default,
    {
        ColumnInformation { column_name, data_type, nullable, has_default }
    }

    /// From a row of `information_schema.columns`: name, type, `is_nullable`
    /// and default. The column takes `NULL` where `is_nullable` reads `YES`, and
    /// it has a default where one is given.
    pub fn from_information_schema(
        column_name: String,
        data_type: String,
        is_nullable: String,
        default: Option<String>,
    ) -> (r: Self)
        ensures
            r.column_name == column_name,
            r.data_type == data_type,
            r.nullable == (is_nullable@ == "YES"@),
            r.has_default == default is Some,
    {
        let nullable = str_eq(is_nullable.as_str(), "YES");
        Self::new(column_name, data_type, nullable, default.is_some())
    }

    /// From a row of SQLite's `table_info`: name, type, `notnull` and default.
    /// The column takes `NULL` unless `notnull` is set.
    pub fn from_table_info(
        column_name: String,
        data_type: String,
        not_null: bool,
        default: Option<String>,
    ) -> (r: Self)
        ensures
            r.column_name == column_name,
            r.data_type == data_type,
            r.nullable == !not_null,
            r.has_default == default is Some,
    {
        Self::new(column_name, data_type, !not_null, default.is_some())
    }
}

/// The type of a column, as the type expression of the generated schema.
#[derive(Debug)]
pub struct ColumnType {
    pub rust_name: String,
    pub is_array: bool,
    pub is_nullable: bool,
    pub is_unsigned: bool,
}

/// `text` if `on`, else nothing.
pub open spec fn when(on: bool, text: Seq<char>) -> Seq<char> {
    if on {
        text
    } else {
        Seq::empty()
    }
}

impl ColumnType {
    /// The type expression: the name, wrapped in `Unsigned<..>`, `Array<..>`
    /// and `Nullable<..>` from the inside out, each where it applies.
    pub open spec fn rendered(&self) -> Seq<char> {
        when(self.is_nullable, "Nullable<"@) + when(self.is_array, "Array<"@) + when(
            self.is_unsigned,
            "Unsigned<"@,
        ) + self.rust_name@ + when(self.is_unsigned, ">"@) + when(self.is_array, ">"@) + when(
            self.is_nullable,
            ">"@,
        )
    }

    /// Writes the type expression out.
    pub fn to_string(&self) -> (r: String)
        ensures
            r@ == self.rendered(),
    {
        let mut out = String::new();
        if self.is_nullable {
            out.append("Nullable<");
        }
        if self.is_array {
            out.append("Array<");
        }
        if self.is_unsigned {
            out.append("Unsigned<");
        }
        out.append(self.rust_name.as_str());
        if self.is_unsigned {
            out.append(">");
        }
        if self.is_array {
            out.append(">");
        }
        if self.is_nullable {
            out.append(">");
        }
        assert(out@ =~= self.rendered());
        out
    }
}

/// One column of a table in the generated schema.
#[derive(Debug)]
pub struct ColumnDefinition {
    pub sql_name: String,
    pub ty: ColumnType,
    pub docs: String,
    pub rust_name: Option<String>,
    pub has_default: bool,
}

/// The name of a table, with its schema where it is not the default one.
#[derive(Debug, Clone, PartialEq, Eq, PartialOrd, Ord)]
pub struct TableName {
    pub name: String,
    pub schema: Option<String>,
}

/// `a <= b` for strings: by their UTF-8 bytes.
pub open spec fn text_le(a: Seq<char>, b: Seq<char>) -> bool {
    bytes_le(encode_utf8(a), encode_utf8(b))
}

/// `a <= b` for schemas: no schema comes first.
pub open spec fn schema_le(a: Option<String>, b: Option<String>) -> bool {
    match (a, b) {
        (None, _) => true,
        (Some(_), None) => false,
        (Some(x), Some(y)) => text_le(x@, y@),
    }
}

impl TableName {
    /// `self <= other`: by name, and by schema where the names are the same.
    pub open spec fn spec_le(&self, other: &TableName) -> bool {
        if self.name@ != other.name@ {
            text_le(self.name@, other.name@)
        } else {
            schema_le(self.schema, other.schema)
        }
    }

    /// Whether this name sorts before `other` or is the same.
    #[verifier::when_used_as_spec(spec_le)]
    pub fn le(&self, other: &TableName) -> (r: bool)
        ensures
            r == self.spec_le(other),
    {
        if !str_eq(self.name.as_str(), other.name.as_str()) {
            str_le(self.name.as_str(), other.name.as_str())
        } else {
            match (&self.schema, &other.schema) {
                (None, _) => true,
                (Some(_), None) => false,
                (Some(x), Some(y)) => str_le(x.as_str(), y.as_str()),
            }
        }
    }
}

/// Of two table names one comes first.
pub proof fn lemma_table_names_total(a: TableName, b: TableName)
    ensures
        a.spec_le(&b) || b.spec_le(&a),
{
    lemma_bytes_le_total(encode_utf8(a.name@), encode_utf8(b.name@), 0);
    if let (Some(x), Some(y)) = (a.schema, b.schema) {
        lemma_bytes_le_total(encode_utf8(x@), encode_utf8(y@), 0);
    }
}

/// A foreign key from one table to another.
#[derive(Debug, Clone, PartialEq, Eq, PartialOrd, Ord)]
pub struct ForeignKeyConstraint {
    pub child_table: TableName,
    pub parent_table: TableName,
    pub foreign_key: String,
    pub primary_key: String,
}

impl ForeignKeyConstraint {
    /// The two tables, the one that sorts first in front. Where neither sorts
    /// before the other, the parent is in front.
    pub fn ordered_tables(&self) -> (r: (&TableName, &TableName))
        ensures
            r == if self.parent_table.spec_le(&self.child_table) {
                (&self.parent_table, &self.child_table)
            } else {
                (&self.child_table, &self.parent_table)
            },
            r.0.spec_le(r.1),
    {
        proof {
            lemma_table_names_total(self.parent_table, self.child_table);
        }
        if self.parent_table.le(&self.child_table) {
            (&self.parent_table, &self.child_table)
        } else {
            (&self.child_table, &self.parent_table)
        }
    }
}

} // verus!
