//! The failures a request can end in.

use vstd::prelude::*;

verus! {

/// `diesel::result::Error`, what the database driver reports when a query fails.
/// Nothing is known of its contents here; it is only carried to the caller.
#[verifier::external_type_specification]
#[verifier::external_body]
pub struct ExDatabaseError(diesel::result::Error);

/// Why a request could not be answered.
#[derive(Debug, PartialEq)]
pub enum WundergraphError {
    /// The `primaryKey` argument is missing or does not have the shape of the
    /// table's primary key.
    NoPrimaryKeyArgumentFound,
    /// A name that is no field of the entity, or a field without a column where
    /// a column is needed.
    UnknownField,
    /// A comparison operator outside `eq ne lt lte gt gte like isNull`.
    UnknownOperator,
    /// A filter that does not follow the filter grammar of the entity.
    InvalidFilterArgument,
    /// An operand whose type does not fit the column it is compared with.
    InvalidFilterValue,
    /// A malformed `limit`, `offset` or `order` value.
    CouldNotBuildFilterArgument,
    /// The database refused or failed the query; the driver's error is passed on
    /// as it came.
    DatabaseExecutionError(diesel::result::Error),
    /// A row does not have as many values as the projection has columns.
    InternalInvariantViolation,
}

} // verus!
