//! Expressions as the planner sees them.
//!
//! Names, literals and operators are interned: two of them are the same
//! exactly if their numbers are. Expressions are interned after they have been
//! normalized, so equivalent expressions are equal.

use vstd::prelude::*;

verus! {

/// The number of a table in a query.
pub type TableId = u64;

/// The name of a window: one that the query gives, or one that the planner
/// made up for the window at a nesting depth.
#[derive(Clone, Copy, Debug, PartialEq, Eq, Structural)]
pub enum WindowName {
    Given(u64),
    Numbered(usize),
}

/// The OVER clause of a call.
#[derive(Clone, Copy, Debug, PartialEq, Eq, Structural)]
pub enum Over {
    /// No OVER clause.
    Absent,
    /// A window that is defined in place.
    Inline(u64),
    /// A window that is defined elsewhere.
    Name(WindowName),
}

/// What the resolver says of a called function.
#[derive(Clone, Copy, Debug, PartialEq, Eq, Structural)]
pub enum CallKind {
    /// A function of one row that gives the same result for the same
    /// arguments.
    Deterministic,
    /// A function of one row that may give another result at every call.
    Nondeterministic,
    /// A function that folds the rows of a group.
    Aggregate,
    /// A function of windows alone.
    WindowOnly,
}

/// The forms of an expression that hold a query of their own.
#[derive(Clone, Copy, Debug, PartialEq, Eq, Structural)]
pub enum SubqueryForm {
    Result,
    Exists,
    InSelect,
    Scalar,
}

/// An expression.
pub enum Expr {
    Column { database: Option<usize>, table: TableId, column: usize, is_rowid_alias: bool },
    RowId { database: Option<usize>, table: TableId },
    /// A literal; number 0 is the numeric literal zero.
    Literal(u64),
    FunctionCall {
        name: u64,
        kind: CallKind,
        /// Whether the call is written with a star.
        star: bool,
        args: ExprList,
        order_by: ExprList,
        /// The terms of a WITHIN GROUP.
        within_group: ExprList,
        filter_clause: Option<Box<Expr>>,
        over_clause: Over,
    },
    Subquery { form: SubqueryForm, query: u64, operands: ExprList },
    /// Any other expression: an operator and its operands.
    Node { op: u64, operands: ExprList },
}

/// Expressions in a row.
pub enum ExprList {
    Nil,
    Cons(Box<Expr>, Box<ExprList>),
}

/// The numeric literal zero.
pub const LITERAL_ZERO: u64 = 0;

impl ExprList {
    pub open spec fn items(self) -> Seq<Expr>
        decreases self,
    {
        match self {
            ExprList::Nil => Seq::empty(),
            ExprList::Cons(head, tail) => seq![*head] + tail.items(),
        }
    }

    /// A copy of the list.
    pub fn copy(&self) -> (r: ExprList)
        ensures
            r == *self,
        decreases self,
    {
        match self {
            ExprList::Nil => ExprList::Nil,
            ExprList::Cons(head, tail) => ExprList::Cons(
                Box::new(head.copy()),
                Box::new(tail.copy()),
            ),
        }
    }

    /// The expressions of the list.
    pub fn to_vec(&self) -> (v: Vec<Expr>)
        ensures
            v@ == self.items(),
        decreases self,
    {
        match self {
            ExprList::Nil => Vec::new(),
            ExprList::Cons(head, tail) => {
                let mut v = tail.to_vec();
                v.insert(0, head.copy());
                assert(v@ =~= self.items());
                v
            },
        }
    }

    /// The list of the expressions, in their order.
    pub fn from_vec(v: Vec<Expr>) -> (r: ExprList)
        ensures
            r.items() == v@,
    {
        let mut rest = v;
        let mut r = ExprList::Nil;
        let ghost all = rest@;
        assert(rest@ + r.items() =~= all);
        while rest.len() > 0
            invariant
                rest@ + r.items() == all,
            ensures
                rest@.len() == 0,
            decreases rest@.len(),
        {
            let ghost before = rest@;
            let ghost tail = r;
            if let Some(last) = rest.pop() {
                r = ExprList::Cons(Box::new(last), Box::new(r));
                assert(rest@ + r.items() =~= before + tail.items());
            }
        }
        assert(r.items() =~= all);
        r
    }
}

impl Expr {
    /// A copy of the expression.
    pub fn copy(&self) -> (r: Expr)
        ensures
            r == *self,
        decreases self,
    {
        match self {
            Expr::Column { database, table, column, is_rowid_alias } => Expr::Column {
                database: *database,
                table: *table,
                column: *column,
                is_rowid_alias: *is_rowid_alias,
            },
            Expr::RowId { database, table } => Expr::RowId { database: *database, table: *table },
            Expr::Literal(id) => Expr::Literal(*id),
            Expr::FunctionCall {
                name,
                kind,
                star,
                args,
                order_by,
                within_group,
                filter_clause,
                over_clause,
            } => {
                let filter: Option<Box<Expr>> = match filter_clause {
                    Some(filter) => Some(Box::new(filter.copy())),
                    None => None,
                };
                Expr::FunctionCall {
                    name: *name,
                    kind: *kind,
                    star: *star,
                    args: args.copy(),
                    order_by: order_by.copy(),
                    within_group: within_group.copy(),
                    filter_clause: filter,
                    over_clause: *over_clause,
                }
            },
            Expr::Subquery { form, query, operands } => Expr::Subquery {
                form: *form,
                query: *query,
                operands: operands.copy(),
            },
            Expr::Node { op, operands } => Expr::Node { op: *op, operands: operands.copy() },
        }
    }
}

/// Whether two expressions are equivalent.
pub fn exprs_are_equivalent(a: &Expr, b: &Expr) -> (r: bool)
    ensures
        r == (*a == *b),
    decreases a,
{
    match (a, b) {
        (
            Expr::Column { database: d1, table: t1, column: c1, is_rowid_alias: r1 },
            Expr::Column { database: d2, table: t2, column: c2, is_rowid_alias: r2 },
        ) => same_database(d1, d2) && *t1 == *t2 && *c1 == *c2 && *r1 == *r2,
        (
            Expr::RowId { database: d1, table: t1 },
            Expr::RowId { database: d2, table: t2 },
        ) => same_database(d1, d2) && *t1 == *t2,
        (Expr::Literal(a), Expr::Literal(b)) => *a == *b,
        (
            Expr::FunctionCall {
                name: n1,
                kind: k1,
                star: s1,
                args: a1,
                order_by: o1,
                within_group: w1,
                filter_clause: f1,
                over_clause: v1,
            },
            Expr::FunctionCall {
                name: n2,
                kind: k2,
                star: s2,
                args: a2,
                order_by: o2,
                within_group: w2,
                filter_clause: f2,
                over_clause: v2,
            },
        ) => {
            let filters: bool = match (f1, f2) {
                (Some(f1), Some(f2)) => exprs_are_equivalent(f1, f2),
                (None, None) => true,
                _ => false,
            };
            *n1 == *n2 && *k1 == *k2 && *s1 == *s2 && *v1 == *v2 && filters && lists_are_equivalent(
                a1,
                a2,
            ) && lists_are_equivalent(o1, o2) && lists_are_equivalent(w1, w2)
        },
        (
            Expr::Subquery { form: f1, query: q1, operands: o1 },
            Expr::Subquery { form: f2, query: q2, operands: o2 },
        ) => *f1 == *f2 && *q1 == *q2 && lists_are_equivalent(o1, o2),
        (
            Expr::Node { op: op1, operands: o1 },
            Expr::Node { op: op2, operands: o2 },
        ) => *op1 == *op2 && lists_are_equivalent(o1, o2),
        _ => false,
    }
}

/// Whether two lists hold equivalent expressions at every place.
pub fn lists_are_equivalent(a: &ExprList, b: &ExprList) -> (r: bool)
    ensures
        r == (*a == *b),
    decreases a,
{
    match (a, b) {
        (ExprList::Nil, ExprList::Nil) => true,
        (ExprList::Cons(h1, t1), ExprList::Cons(h2, t2)) => exprs_are_equivalent(h1, h2)
            && lists_are_equivalent(t1, t2),
        _ => false,
    }
}

fn same_database(a: &Option<usize>, b: &Option<usize>) -> (r: bool)
    ensures
        r == (*a == *b),
{
    match (a, b) {
        (Some(a), Some(b)) => *a == *b,
        (None, None) => true,
        _ => false,
    }
}

} // verus!
