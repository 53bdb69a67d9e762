//! What the pipeline needs of the caller's context.

use crate::entity::{Entity, EntityView};
use crate::error::WundergraphError;
use crate::query::{outcome, Query, QueryView};
use crate::selection::Selection;
use vstd::prelude::*;

verus! {

/// A context that can hand out the database connection of the request.
pub trait WundergraphContext {
    type Connection;

    fn get_connection(&self) -> &Self::Connection;
}

/// A context that may rewrite a query before it is sent, say to add a
/// condition that hides rows from the caller.
///
/// The pipeline calls `modify_query` once for each query, after every clause
/// has been applied, and sends what comes back without looking at it. The
/// rewritten query has to fetch the same columns: the rows are read by the
/// projection that was built from the selection.
pub trait QueryModifier: WundergraphContext + Sized {
    /// What this context may answer when it is handed `query`, built for
    /// `select` on `entity`: a rewritten query or a refusal. A context that
    /// says nothing here may answer anything.
    open spec fn rewrites(
        &self,
        entity: EntityView,
        select: Selection,
        query: QueryView,
        answer: Result<QueryView, WundergraphError>,
    ) -> bool {
        true
    }

    fn modify_query(&self, entity: &Entity, select: &Selection, query: Query) -> (r: Result<
        Query,
        WundergraphError,
    >)
        ensures
            self.rewrites(entity@, *select, query@, outcome(r)),
    ;
}

/// A context that is nothing but a connection and leaves every query as it is.
#[derive(Debug)]
pub struct PlainContext<C> {
    pub connection: C,
}

impl<C> WundergraphContext for PlainContext<C> {
    type Connection = C;

    fn get_connection(&self) -> (r: &C)
        ensures
            *r == self.connection,
    {
        &self.connection
    }
}

impl<C> QueryModifier for PlainContext<C> {
    open spec fn rewrites(
        &self,
        entity: EntityView,
        select: Selection,
        query: QueryView,
        answer: Result<QueryView, WundergraphError>,
    ) -> bool {
        answer == Ok::<QueryView, WundergraphError>(query)
    }

    fn modify_query(&self, entity: &Entity, select: &Selection, query: Query) -> (r: Result<
        Query,
        WundergraphError,
    >)
        ensures
            r == Ok::<Query, WundergraphError>(query),
    {
        Ok(query)
    }
}

} // verus!
