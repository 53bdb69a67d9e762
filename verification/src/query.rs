//! The query that is built for one request, as data.

use crate::error::WundergraphError;
use crate::value::Scalar;
use vstd::prelude::*;

verus! {

/// A comparison between a column and a constant.
#[derive(Clone, Copy, Debug, PartialEq, Eq, Structural)]
pub enum Comparator {
    Eq,
    Ne,
    Lt,
    Lte,
    Gt,
    Gte,
    Like,
}

/// A condition on the rows of one table. Columns are named by their ordinal.
#[derive(Debug, PartialEq, Eq)]
pub enum Predicate {
    Compare { column: usize, op: Comparator, value: Scalar },
    IsNull { column: usize },
    Not(Box<Predicate>),
    And(Box<Predicate>, Box<Predicate>),
    Or(Box<Predicate>, Box<Predicate>),
}

impl Predicate {
    /// Every column the predicate names is one of the first `width` columns, so
    /// the predicate can be applied to a table that has that many.
    pub open spec fn within(self, width: nat) -> bool
        decreases self,
    {
        match self {
            Predicate::Compare { column, .. } => column < width,
            Predicate::IsNull { column } => column < width,
            Predicate::Not(p) => p.within(width),
            Predicate::And(p, q) => p.within(width) && q.within(width),
            Predicate::Or(p, q) => p.within(width) && q.within(width),
        }
    }
}

/// The conjunction of two conditions, where `None` is no condition.
pub open spec fn and_opt(a: Option<Predicate>, b: Option<Predicate>) -> Option<Predicate> {
    match (a, b) {
        (Some(p), Some(q)) => Some(Predicate::And(Box::new(p), Box::new(q))),
        (Some(p), None) => Some(p),
        (None, b) => b,
    }
}

/// The disjunction of the conditions that are present: a member that imposes
/// no condition is left out.
pub open spec fn or_opt(a: Option<Predicate>, b: Option<Predicate>) -> Option<Predicate> {
    match (a, b) {
        (Some(p), Some(q)) => Some(Predicate::Or(Box::new(p), Box::new(q))),
        (Some(p), None) => Some(p),
        (None, b) => b,
    }
}

/// The negation of a condition; no condition stays no condition.
pub open spec fn not_opt(a: Option<Predicate>) -> Option<Predicate> {
    match a {
        Some(p) => Some(Predicate::Not(Box::new(p))),
        None => None,
    }
}

/// Whether a condition, if there is one, names only the first `width` columns.
pub open spec fn opt_within(a: Option<Predicate>, width: nat) -> bool {
    a matches Some(p) ==> p.within(width)
}

/// Joins two conditions with `AND`.
pub fn conjoin(a: Option<Predicate>, b: Option<Predicate>) -> (r: Option<Predicate>)
    ensures
        r == and_opt(a, b),
{
    match a {
        Some(p) => match b {
            Some(q) => Some(Predicate::And(Box::new(p), Box::new(q))),
            None => Some(p),
        },
        None => b,
    }
}

/// Joins two conditions with `OR`.
pub fn disjoin(a: Option<Predicate>, b: Option<Predicate>) -> (r: Option<Predicate>)
    ensures
        r == or_opt(a, b),
{
    match a {
        Some(p) => match b {
            Some(q) => Some(Predicate::Or(Box::new(p), Box::new(q))),
            None => Some(p),
        },
        None => b,
    }
}

/// Negates a condition.
pub fn negate(a: Option<Predicate>) -> (r: Option<Predicate>)
    ensures
        r == not_opt(a),
{
    match a {
        Some(p) => Some(Predicate::Not(Box::new(p))),
        None => None,
    }
}

/// Direction of one sort term.
#[derive(Clone, Copy, Debug, PartialEq, Eq, Structural)]
pub enum Direction {
    Asc,
    Desc,
}

/// One `ORDER BY` term.
#[derive(Clone, Copy, Debug, PartialEq, Eq, Structural)]
pub struct OrderTerm {
    pub column: usize,
    pub direction: Direction,
}

/// The limit that stands for "no limit" on a backend that wants a limit
/// beside every offset. It is never taken from a request.
pub const NO_LIMIT: i64 = -1;

/// A `SELECT` on one table.
#[derive(Debug, PartialEq, Eq)]
pub struct Query {
    /// The ordinals of the columns to fetch, in the order of the row's values.
    pub projection: Vec<usize>,
    /// The `WHERE` clause, if there is one.
    pub filter: Option<Predicate>,
    /// The `ORDER BY` terms, most significant first.
    pub order: Vec<OrderTerm>,
    /// The `LIMIT` clause, if there is one.
    pub limit: Option<i64>,
    /// The `OFFSET` clause, if there is one.
    pub offset: Option<i64>,
}

/// The mathematical content of a [`Query`].
pub struct QueryView {
    pub projection: Seq<usize>,
    pub filter: Option<Predicate>,
    pub order: Seq<OrderTerm>,
    pub limit: Option<i64>,
    pub offset: Option<i64>,
}

impl QueryView {
    /// The query that fetches `projection` from every row.
    pub open spec fn select(projection: Seq<usize>) -> QueryView {
        QueryView { projection, filter: None, order: Seq::empty(), limit: None, offset: None }
    }

    /// The query with `p` as a further condition.
    pub open spec fn filter(self, p: Predicate) -> QueryView {
        QueryView { filter: and_opt(self.filter, Some(p)), ..self }
    }

    /// The query with `p`, if there is one, as a further condition.
    pub open spec fn filter_opt(self, p: Option<Predicate>) -> QueryView {
        match p {
            Some(p) => self.filter(p),
            None => self,
        }
    }

    /// The query with its limit set to `n`.
    pub open spec fn limit(self, n: i64) -> QueryView {
        QueryView { limit: Some(n), ..self }
    }

    /// The query with its offset set to `n`.
    pub open spec fn offset(self, n: i64) -> QueryView {
        QueryView { offset: Some(n), ..self }
    }

    /// The query with `terms` after the sort terms it has.
    pub open spec fn then_order_by(self, terms: Seq<OrderTerm>) -> QueryView {
        QueryView { order: self.order + terms, ..self }
    }
}

impl View for Query {
    type V = QueryView;

    open spec fn view(&self) -> QueryView {
        QueryView {
            projection: self.projection@,
            filter: self.filter,
            order: self.order@,
            limit: self.limit,
            offset: self.offset,
        }
    }
}

/// A result with the query, if there is one, replaced by its content.
pub open spec fn outcome(r: Result<Query, WundergraphError>) -> Result<QueryView, WundergraphError> {
    match r {
        Ok(q) => Ok(q@),
        Err(e) => Err(e),
    }
}

impl Query {
    /// The query that fetches the columns `projection` of every row.
    pub fn select(projection: Vec<usize>) -> (r: Query)
        ensures
            r@ == QueryView::select(projection@),
    {
        Query { projection, filter: None, order: Vec::new(), limit: None, offset: None }
    }

    /// Adds a condition; the rows must meet it and every earlier one.
    pub fn filter(self, p: Predicate) -> (r: Query)
        ensures
            r@ == self@.filter(p),
    {
        let Query { projection, filter, order, limit, offset } = self;
        Query { projection, filter: conjoin(filter, Some(p)), order, limit, offset }
    }

    /// Sets the limit, in place of an earlier one.
    pub fn limit(self, n: i64) -> (r: Query)
        ensures
            r@ == self@.limit(n),
    {
        let Query { projection, filter, order, limit: _, offset } = self;
        Query { projection, filter, order, limit: Some(n), offset }
    }

    /// Sets the offset, in place of an earlier one.
    pub fn offset(self, n: i64) -> (r: Query)
        ensures
            r@ == self@.offset(n),
    {
        let Query { projection, filter, order, limit, offset: _ } = self;
        Query { projection, filter, order, limit, offset: Some(n) }
    }

    /// Adds a sort term that decides among rows the earlier terms leave equal.
    pub fn then_order_by(self, term: OrderTerm) -> (r: Query)
        ensures
            r@ == self@.then_order_by(seq![term]),
    {
        let Query { projection, filter, mut order, limit, offset } = self;
        order.push(term);
        assert(order@ =~= self@.order + seq![term]);
        Query { projection, filter, order, limit, offset }
    }
}

} // verus!
