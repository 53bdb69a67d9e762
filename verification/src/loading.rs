//! The pipeline from a selection to a query and from rows to output.
//!
//! A query is assembled in a fixed sequence: the projection, then the
//! `filter`, `limit`, `offset` and `order` arguments. The first argument that
//! is refused ends the assembly, and no query is made. The context may then
//! rewrite the query. Sending it is the caller's part; what the database
//! answers is handed to [`LoadingHandler::load`].

use crate::backend::{paginate, ApplyOffset};
use crate::context::QueryModifier;
use crate::entity::{Entity, EntityView};
use crate::error::WundergraphError;
use crate::filter::{compile, compile_spec, compiled_within, Compiled};
use crate::key::{key_condition, key_filter};
use crate::order::{order_of, order_terms};
use crate::query::{outcome, OrderTerm, Query, QueryView, NO_LIMIT};
use crate::resolve::{
    all_known, object_for, resolve, resolves_to, rows_fit, ResolvedField, Row,
};
use crate::select::{build_select, lemma_projection_has_key, projection};
use crate::selection::Selection;
use crate::value::InputValue;
use vstd::prelude::*;

verus! {

/// The query with the `filter` argument of the selection applied: without
/// the argument, or with a filter that constrains nothing, the query stays as
/// it is.
pub open spec fn filtered(e: EntityView, q: QueryView, s: Selection) -> Result<
    QueryView,
    WundergraphError,
> {
    match s.spec_argument("filter"@) {
        None => Ok(q),
        Some(v) => match compile_spec(e, v) {
            Err(x) => Err(x),
            Ok(p) => Ok(q.filter_opt(p)),
        },
    }
}

/// The query with the `limit` argument of the selection applied. A limit
/// that is no integer is refused, and so is the one that stands for "no
/// limit".
pub open spec fn limited(q: QueryView, s: Selection) -> Result<QueryView, WundergraphError> {
    match s.spec_argument("limit"@) {
        None => Ok(q),
        Some(v) => match v.spec_as_int() {
            Some(n) => if n != NO_LIMIT {
                Ok(q.limit(n))
            } else {
                Err(WundergraphError::CouldNotBuildFilterArgument)
            },
            None => Err(WundergraphError::CouldNotBuildFilterArgument),
        },
    }
}

/// The query with the `order` argument of the selection applied. An argument
/// that is no list is passed over.
pub open spec fn ordered(e: EntityView, q: QueryView, s: Selection) -> Result<
    QueryView,
    WundergraphError,
> {
    match s.spec_argument("order"@) {
        Some(InputValue::List(items)) => match order_terms(e, items@) {
            Err(x) => Err(x),
            Ok(terms) => Ok(q.then_order_by(terms)),
        },
        _ => Ok(q),
    }
}

/// The query for a selection on a backend.
pub open spec fn build_query_spec(needs_limit: bool, e: EntityView, s: Selection) -> Result<
    QueryView,
    WundergraphError,
> {
    match filtered(e, QueryView::select(projection(e, s)), s) {
        Err(x) => Err(x),
        Ok(q) => match limited(q, s) {
            Err(x) => Err(x),
            Ok(q) => match paginate(needs_limit, q, s) {
                Err(x) => Err(x),
                Ok(q) => ordered(e, q, s),
            },
        },
    }
}

/// The query narrowed to the one row that has the key of the `primaryKey`
/// argument: the key is a further condition and the limit is 1.
pub open spec fn keyed(e: EntityView, q: QueryView, s: Selection) -> Result<
    QueryView,
    WundergraphError,
> {
    match s.spec_argument("primaryKey"@) {
        None => Err(WundergraphError::NoPrimaryKeyArgumentFound),
        Some(v) => match key_condition(e, v) {
            Err(x) => Err(x),
            Ok(p) => Ok(q.filter_opt(p).limit(1)),
        },
    }
}

/// `r` is what the answer `fetched` of the database loads to: an error of the
/// database is passed on as it came, and rows are resolved.
pub open spec fn loads_to(
    r: Result<Vec<Vec<ResolvedField>>, WundergraphError>,
    e: EntityView,
    s: Selection,
    fetched: Result<Vec<Row>, diesel::result::Error>,
) -> bool {
    match fetched {
        Err(cause) => r == Err::<Vec<Vec<ResolvedField>>, WundergraphError>(
            WundergraphError::DatabaseExecutionError(cause),
        ),
        Ok(rows) => resolves_to(r, e, s, rows@),
    }
}

/// `r` is what the answer `fetched` to a query by primary key loads to: the
/// output of the first row, or nothing where no row has the key.
pub open spec fn loads_first(
    r: Result<Option<Vec<ResolvedField>>, WundergraphError>,
    e: EntityView,
    s: Selection,
    fetched: Result<Vec<Row>, diesel::result::Error>,
) -> bool {
    match fetched {
        Err(cause) => r == Err::<Option<Vec<ResolvedField>>, WundergraphError>(
            WundergraphError::DatabaseExecutionError(cause),
        ),
        Ok(rows) => if rows@.len() == 0 {
            r == Ok::<Option<Vec<ResolvedField>>, WundergraphError>(None)
        } else if !all_known(e, s) {
            r == Err::<Option<Vec<ResolvedField>>, WundergraphError>(WundergraphError::UnknownField)
        } else if !rows_fit(e, s, rows@) {
            r == Err::<Option<Vec<ResolvedField>>, WundergraphError>(
                WundergraphError::InternalInvariantViolation,
            )
        } else {
            r matches Ok(Some(object)) && object_for(object@, e, s, rows@[0]@)
        },
    }
}

/// The projection is fixed first and no later stage touches it: a query that
/// is built for a selection fetches exactly the columns of the selection's
/// projection, so the rows that the resolver accepts are those that have one
/// value for each column of the query.
pub proof fn lemma_rows_match_query(needs_limit: bool, e: EntityView, s: Selection, q: QueryView)
    requires
        build_query_spec(needs_limit, e, s) == Ok::<QueryView, WundergraphError>(q),
    ensures
        q.projection == projection(e, s),
        forall|rows: Seq<Row>|
            rows_fit(e, s, rows) <==> (forall|i: int|
                0 <= i < rows.len() ==> (#[trigger] rows[i])@.len() == q.projection.len()),
{
    let q0 = QueryView::select(projection(e, s));
    let q1 = filtered(e, q0, s)->Ok_0;
    let q2 = limited(q1, s)->Ok_0;
    let q3 = paginate(needs_limit, q2, s)->Ok_0;
    assert(q1.projection == q0.projection);
    assert(q2.projection == q1.projection);
    assert(q3.projection == q2.projection);
    assert(q.projection == q3.projection);
}

/// Narrowing a query to one key leaves its projection as it was, so the row
/// that comes back is read as any other.
pub proof fn lemma_key_keeps_projection(e: EntityView, q: QueryView, s: Selection, k: QueryView)
    requires
        keyed(e, q, s) == Ok::<QueryView, WundergraphError>(k),
    ensures
        k.projection == q.projection,
        k.limit == Some(1i64),
        k.order == q.order,
        k.offset == q.offset,
{
}

/// Whatever a selection asks for, the query that is built for it fetches the
/// column of every field of the primary key.
pub proof fn lemma_query_fetches_key(needs_limit: bool, e: EntityView, s: Selection, q: QueryView)
    requires
        e.wf(),
        build_query_spec(needs_limit, e, s) == Ok::<QueryView, WundergraphError>(q),
    ensures
        forall|i: int|
            0 <= i < e.primary_key.len() ==> q.projection.contains(
                e.column_of(#[trigger] e.primary_key[i] as int)->Some_0,
            ),
{
    lemma_rows_match_query(needs_limit, e, s, q);
    lemma_projection_has_key(e, s);
}

/// A lookup by primary key without the `primaryKey` argument is refused, and
/// one whose key no row has gives nothing, which is no error.
pub proof fn lemma_key_lookup(
    e: EntityView,
    q: QueryView,
    s: Selection,
    r: Result<Option<Vec<ResolvedField>>, WundergraphError>,
    rows: Vec<Row>,
)
    requires
        rows@.len() == 0,
        loads_first(r, e, s, Ok::<Vec<Row>, diesel::result::Error>(rows)),
    ensures
        r == Ok::<Option<Vec<ResolvedField>>, WundergraphError>(None),
        s.spec_argument("primaryKey"@) is None ==> keyed(e, q, s) == Err::<
            QueryView,
            WundergraphError,
        >(WundergraphError::NoPrimaryKeyArgumentFound),
{
}

fn order_by_all(query: Query, terms: &Vec<OrderTerm>) -> (r: Query)
    ensures
        r@ == query@.then_order_by(terms@),
{
    let ghost start = query@;
    let mut query = query;
    let mut i: usize = 0;
    while i < terms.len()
        invariant
            i <= terms@.len(),
            query@ == start.then_order_by(terms@.take(i as int)),
        decreases terms@.len() - i,
    {
        query = query.then_order_by(terms[i]);
        assert(start.order + terms@.take(i as int) + seq![terms@[i as int]] =~= start.order
            + terms@.take(i + 1));
        i += 1;
    }
    assert(terms@.take(terms@.len() as int) =~= terms@);
    query
}

/// An exposed type that can be loaded from its table on the backend `DB`, in
/// requests whose context is a `Ctx`.
pub trait LoadingHandler<DB: ApplyOffset, Ctx: QueryModifier>: Sized {
    /// The definition of the entity, the same at every call.
    spec fn definition(&self) -> EntityView;

    /// The definition of the entity.
    fn entity(&self) -> (e: &Entity)
        ensures
            e@ == self.definition(),
    ;

    /// The columns to fetch for a selection.
    fn get_select(&self, select: &Selection) -> (r: Vec<usize>)
        ensures
            r@ == projection(self.definition(), *select),
    {
        build_select(self.entity(), select)
    }

    /// The condition a filter value stands for.
    fn get_filter(&self, input: &InputValue) -> (r: Compiled)
        ensures
            r == compile_spec(self.definition(), *input),
            compiled_within(r, self.definition().columns.len()),
    {
        compile(self.entity(), input)
    }

    /// Applies the `filter` argument of the selection.
    fn apply_filter(&self, query: Query, select: &Selection) -> (r: Result<
        Query,
        WundergraphError,
    >)
        ensures
            outcome(r) == filtered(self.definition(), query@, *select),
    {
        match select.argument("filter") {
            None => Ok(query),
            Some(v) => match compile(self.entity(), v) {
                Err(x) => Err(x),
                Ok(None) => Ok(query),
                Ok(Some(p)) => Ok(query.filter(p)),
            },
        }
    }

    /// Applies the `order` argument of the selection.
    fn apply_order(&self, query: Query, select: &Selection) -> (r: Result<Query, WundergraphError>)
        ensures
            outcome(r) == ordered(self.definition(), query@, *select),
    {
        match select.argument("order") {
            Some(InputValue::List(items)) => match order_of(self.entity(), items) {
                Err(x) => Err(x),
                Ok(terms) => Ok(order_by_all(query, &terms)),
            },
            _ => Ok(query),
        }
    }

    /// Applies the `limit` argument of the selection.
    fn apply_limit(&self, query: Query, select: &Selection) -> (r: Result<Query, WundergraphError>)
        ensures
            outcome(r) == limited(query@, *select),
    {
        match select.argument("limit") {
            None => Ok(query),
            Some(v) => match v.as_int() {
                Some(n) => {
                    if n != NO_LIMIT {
                        Ok(query.limit(n))
                    } else {
                        Err(WundergraphError::CouldNotBuildFilterArgument)
                    }
                },
                None => Err(WundergraphError::CouldNotBuildFilterArgument),
            },
        }
    }

    /// Applies the `offset` argument of the selection, as the backend wants it.
    fn apply_offset(&self, query: Query, select: &Selection) -> (r: Result<
        Query,
        WundergraphError,
    >)
        ensures
            outcome(r) == paginate(DB::offset_needs_limit(), query@, *select),
    {
        DB::apply_offset(query, select)
    }

    /// Builds the query for a selection.
    fn build_query(&self, select: &Selection) -> (r: Result<Query, WundergraphError>)
        ensures
            outcome(r) == build_query_spec(DB::offset_needs_limit(), self.definition(), *select),
    {
        let query = Query::select(self.get_select(select));
        let query = match self.apply_filter(query, select) {
            Ok(q) => q,
            Err(x) => {
                return Err(x);
            },
        };
        let query = match self.apply_limit(query, select) {
            Ok(q) => q,
            Err(x) => {
                return Err(x);
            },
        };
        let query = match self.apply_offset(query, select) {
            Ok(q) => q,
            Err(x) => {
                return Err(x);
            },
        };
        self.apply_order(query, select)
    }

    /// Narrows a query to the row that has the key of the `primaryKey`
    /// argument. Without the argument, or with one that does not have the shape
    /// of the key, there is no query.
    fn by_primary_key(&self, query: Query, select: &Selection) -> (r: Result<
        Query,
        WundergraphError,
    >)
        ensures
            outcome(r) == keyed(self.definition(), query@, *select),
    {
        match select.argument("primaryKey") {
            None => Err(WundergraphError::NoPrimaryKeyArgumentFound),
            Some(v) => match key_filter(self.entity(), v) {
                Err(x) => Err(x),
                Ok(None) => Ok(query.limit(1)),
                Ok(Some(p)) => Ok(query.filter(p).limit(1)),
            },
        }
    }

    /// Hands the finished query to the context, which may rewrite or refuse
    /// it. What comes back is the context's answer for this entity, this
    /// selection and this query, and it is the query to send.
    fn modify(&self, context: &Ctx, select: &Selection, query: Query) -> (r: Result<
        Query,
        WundergraphError,
    >)
        ensures
            context.rewrites(self.definition(), *select, query@, outcome(r)),
    {
        context.modify_query(self.entity(), select, query)
    }

    /// Turns the answer of the database into output, one object for each row.
    fn load(&self, select: &Selection, fetched: Result<Vec<Row>, diesel::result::Error>) -> (r:
        Result<Vec<Vec<ResolvedField>>, WundergraphError>)
        ensures
            loads_to(r, self.definition(), *select, fetched),
    {
        match fetched {
            Err(cause) => Err(WundergraphError::DatabaseExecutionError(cause)),
            Ok(rows) => resolve(self.entity(), select, &rows),
        }
    }

    /// Turns the answer to a query by primary key into output: the object of
    /// the row that has the key, or `None` where no row has it.
    fn load_by_primary_key(
        &self,
        select: &Selection,
        fetched: Result<Vec<Row>, diesel::result::Error>,
    ) -> (r: Result<Option<Vec<ResolvedField>>, WundergraphError>)
        ensures
            loads_first(r, self.definition(), *select, fetched),
    {
        match self.load(select, fetched) {
            Err(x) => Err(x),
            Ok(objects) => {
                let mut objects = objects;
                if objects.len() == 0 {
                    Ok(None)
                } else {
                    Ok(Some(objects.remove(0)))
                }
            },
        }
    }

    /// What field `idx` is for, in words.
    fn field_description(&self, idx: usize) -> (r: Option<String>)
        default_ensures
            r is None,
    {
        None
    }

    /// What the type is for, in words.
    fn type_description(&self) -> (r: Option<String>)
        default_ensures
            r is None,
    {
        None
    }

    /// Whether field `idx` is deprecated, and if so, for what reason if one is
    /// given.
    fn field_deprecation(&self, idx: usize) -> (r: Option<Option<String>>)
        default_ensures
            r is None,
    {
        None
    }
}

impl<DB: ApplyOffset, Ctx: QueryModifier> LoadingHandler<DB, Ctx> for Entity {
    open spec fn definition(&self) -> EntityView {
        self@
    }

    fn entity(&self) -> (e: &Entity) {
        self
    }
}

} // verus!
