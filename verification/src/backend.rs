//! What differs from one database to the next.
//!
//! One thing does: one backend takes an `OFFSET` without a `LIMIT` for "all rows
//! from there on", another refuses such a query and wants a limit that stands
//! for "no limit" beside the offset. A deployment picks its backend once, as a
//! type.

use crate::error::WundergraphError;
use crate::query::{outcome, Query, QueryView, NO_LIMIT};
use crate::selection::Selection;
use vstd::prelude::*;

verus! {

/// The query with the `offset` argument of the selection applied.
///
/// Without the argument the query stays as it is. An `offset` that is no
/// integer is refused. Where the backend wants a limit beside every offset and
/// the selection has no `limit` argument, the limit becomes [`NO_LIMIT`].
pub open spec fn paginate(needs_limit: bool, q: QueryView, s: Selection) -> Result<
    QueryView,
    WundergraphError,
> {
    match s.spec_argument("offset"@) {
        None => Ok(q),
        Some(v) => match v.spec_as_int() {
            None => Err(WundergraphError::CouldNotBuildFilterArgument),
            Some(n) => if needs_limit && s.spec_argument("limit"@) is None {
                Ok(q.offset(n).limit(NO_LIMIT))
            } else {
                Ok(q.offset(n))
            },
        },
    }
}

/// The pagination rule of one backend.
pub trait ApplyOffset {
    /// Whether the backend refuses an offset that has no limit beside it.
    spec fn offset_needs_limit() -> bool;

    /// Applies the `offset` argument of the selection to the query.
    fn apply_offset(query: Query, select: &Selection) -> (r: Result<Query, WundergraphError>)
        ensures
            outcome(r) == paginate(Self::offset_needs_limit(), query@, *select),
    ;
}

fn offset_with(needs_limit: bool, query: Query, select: &Selection) -> (r: Result<
    Query,
    WundergraphError,
>)
    ensures
        outcome(r) == paginate(needs_limit, query@, *select),
{
    match select.argument("offset") {
        None => Ok(query),
        Some(v) => match v.as_int() {
            None => Err(WundergraphError::CouldNotBuildFilterArgument),
            Some(n) => {
                let q = query.offset(n);
                if needs_limit && select.argument("limit").is_none() {
                    Ok(q.limit(NO_LIMIT))
                } else {
                    Ok(q)
                }
            },
        },
    }
}

/// PostgreSQL: an offset stands alone.
#[derive(Clone, Copy, Debug, PartialEq, Eq)]
pub struct Pg;

/// SQLite: an offset without a limit is an error of the query.
#[derive(Clone, Copy, Debug, PartialEq, Eq)]
pub struct Sqlite;

impl ApplyOffset for Pg {
    open spec fn offset_needs_limit() -> bool {
        false
    }

    fn apply_offset(query: Query, select: &Selection) -> (r: Result<Query, WundergraphError>) {
        offset_with(false, query, select)
    }
}

impl ApplyOffset for Sqlite {
    open spec fn offset_needs_limit() -> bool {
        true
    }

    fn apply_offset(query: Query, select: &Selection) -> (r: Result<Query, WundergraphError>) {
        offset_with(true, query, select)
    }
}

/// An offset without a limit: the backend that wants a limit gets the one that
/// stands for "no limit"; on the other the query has the offset and its limit
/// is untouched.
pub proof fn lemma_offset_without_limit(q: QueryView, s: Selection, n: i64)
    requires
        s.spec_argument("offset"@) matches Some(v) && v.spec_as_int() == Some(n),
        s.spec_argument("limit"@) is None,
    ensures
        paginate(Sqlite::offset_needs_limit(), q, s) == Ok::<QueryView, WundergraphError>(
            QueryView { offset: Some(n), limit: Some(NO_LIMIT), ..q },
        ),
        paginate(Pg::offset_needs_limit(), q, s) == Ok::<QueryView, WundergraphError>(
            QueryView { offset: Some(n), ..q },
        ),
{
}

} // verus!
