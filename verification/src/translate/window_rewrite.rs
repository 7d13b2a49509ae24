//! Rewrites the expressions of a query so that they read a subquery.
//!
//! What an expression reads becomes a column of the subquery, and the
//! expression refers to that column. Calls over the window at hand keep their
//! place in the outer query, with arguments that read the subquery; calls over
//! other windows move into the subquery as a whole.

use vstd::prelude::*;
use crate::translate::expr::{
    CallKind, Expr, ExprList, Over, TableId, WindowName, exprs_are_equivalent,
};
use crate::translate::window::{RewrittenWindowCall, WindowFunction};
use crate::translate::window_init::ResultSetColumn;

verus! {

/// Subqueries belong to the main database.
pub const SUBQUERY_DATABASE_ID: usize = 0;

/// The state of a rewriting: the columns of the subquery, the aggregates that
/// it computes, and the calls over the window at hand.
pub struct Rewriting {
    pub id: TableId,
    pub name: WindowName,
    pub columns: Seq<ResultSetColumn>,
    pub aggregates: Seq<Expr>,
    pub functions: Seq<WindowFunction>,
}

/// A reference to a column of the subquery.
pub open spec fn column_ref(id: TableId, column: nat) -> Expr {
    Expr::Column {
        database: Some(SUBQUERY_DATABASE_ID),
        table: id,
        column: column as usize,
        is_rowid_alias: false,
    }
}

/// The first of the columns from `from` on that holds `expr`.
pub open spec fn find_column(columns: Seq<ResultSetColumn>, expr: Expr, from: nat) -> Option<nat>
    decreases columns.len() - from,
{
    if from >= columns.len() {
        None
    } else if columns[from as int].expr == expr {
        Some(from)
    } else {
        find_column(columns, expr, from + 1)
    }
}

/// Makes `expr` a new column of the subquery.
pub open spec fn push_fresh(expr: Expr, st: Rewriting, contains_aggregates: bool) -> (
    Expr,
    Rewriting,
) {
    (
        column_ref(st.id, st.columns.len()),
        Rewriting { columns: st.columns.push(ResultSetColumn { expr, contains_aggregates }), ..st },
    )
}

/// Makes `expr` a column of the subquery, unless it is one already.
pub open spec fn push_down(expr: Expr, st: Rewriting, contains_aggregates: bool) -> (
    Expr,
    Rewriting,
) {
    match find_column(st.columns, expr, 0) {
        Some(column) => (column_ref(st.id, column), st),
        None => push_fresh(expr, st, contains_aggregates),
    }
}

/// The aggregates in an expression, behind those that are known, and whether
/// there are any. What stands inside an aggregate or a call over a window is
/// not looked at.
pub open spec fn add_aggregates(expr: Expr, aggregates: Seq<Expr>) -> (Seq<Expr>, bool)
    decreases expr,
{
    match expr {
        Expr::FunctionCall {
            kind,
            args,
            order_by,
            within_group,
            filter_clause,
            over_clause,
            ..
        } => {
            if over_clause != Over::Absent {
                (aggregates, false)
            } else if kind == CallKind::Aggregate {
                (
                    if aggregates.contains(expr) {
                        aggregates
                    } else {
                        aggregates.push(expr)
                    },
                    true,
                )
            } else {
                let (a1, f1) = add_aggregates_list(args, aggregates);
                let (a2, f2) = add_aggregates_list(order_by, a1);
                let (a3, f3) = add_aggregates_list(within_group, a2);
                match filter_clause {
                    Some(filter) => {
                        let (a4, f4) = add_aggregates(*filter, a3);
                        (a4, f1 || f2 || f3 || f4)
                    },
                    None => (a3, f1 || f2 || f3),
                }
            }
        },
        Expr::Subquery { operands, .. } => add_aggregates_list(operands, aggregates),
        Expr::Node { operands, .. } => add_aggregates_list(operands, aggregates),
        _ => (aggregates, false),
    }
}

pub open spec fn add_aggregates_list(list: ExprList, aggregates: Seq<Expr>) -> (Seq<Expr>, bool)
    decreases list,
{
    match list {
        ExprList::Nil => (aggregates, false),
        ExprList::Cons(head, tail) => {
            let (a1, f1) = add_aggregates(*head, aggregates);
            let (a2, f2) = add_aggregates_list(*tail, a1);
            (a2, f1 || f2)
        },
    }
}

/// Whether an expression may have another value each time it is evaluated.
pub open spec fn is_nondeterministic(expr: Expr) -> bool
    decreases expr,
{
    match expr {
        Expr::FunctionCall { kind, args, order_by, within_group, filter_clause, .. } => kind
            == CallKind::Nondeterministic || list_is_nondeterministic(args)
            || list_is_nondeterministic(order_by) || list_is_nondeterministic(within_group)
            || match filter_clause {
            Some(filter) => is_nondeterministic(*filter),
            None => false,
        },
        Expr::Subquery { operands, .. } => list_is_nondeterministic(operands),
        Expr::Node { operands, .. } => list_is_nondeterministic(operands),
        _ => false,
    }
}

pub open spec fn list_is_nondeterministic(list: ExprList) -> bool
    decreases list,
{
    match list {
        ExprList::Nil => false,
        ExprList::Cons(head, tail) => is_nondeterministic(*head) || list_is_nondeterministic(*tail),
    }
}

/// Makes an argument of a call over the window a column of the subquery. A
/// nondeterministic one gets a column of its own at every occurrence.
pub open spec fn push_source(expr: Expr, st: Rewriting) -> (Expr, Rewriting) {
    let (aggregates, found) = add_aggregates(expr, st.aggregates);
    let known = Rewriting { aggregates, ..st };
    if is_nondeterministic(expr) {
        push_fresh(expr, known, found)
    } else {
        push_down(expr, known, found)
    }
}

pub open spec fn push_source_list(list: ExprList, st: Rewriting) -> (ExprList, Rewriting)
    decreases list,
{
    match list {
        ExprList::Nil => (ExprList::Nil, st),
        ExprList::Cons(head, tail) => {
            let (h, s1) = push_source(*head, st);
            let (t, s2) = push_source_list(*tail, s1);
            (ExprList::Cons(Box::new(h), Box::new(t)), s2)
        },
    }
}

/// A call over the window at hand, with arguments and FILTER that read the
/// subquery, and the window by its name. A WITHIN GROUP is handed on as it is.
pub open spec fn rewrite_call(expr: Expr, st: Rewriting) -> (RewrittenWindowCall, Rewriting) {
    match expr {
        Expr::FunctionCall {
            name,
            kind,
            star,
            args,
            order_by,
            within_group,
            filter_clause,
            ..
        } => {
            let (args, s1) = push_source_list(args, st);
            let (filter, s2): (Option<Box<Expr>>, Rewriting) = match filter_clause {
                Some(filter) => {
                    let (f, s2) = push_source(*filter, s1);
                    (Some(Box::new(f)), s2)
                },
                None => (None, s1),
            };
            (
                RewrittenWindowCall {
                    expr: Expr::FunctionCall {
                        name,
                        kind,
                        star,
                        args,
                        order_by,
                        within_group,
                        filter_clause: filter,
                        over_clause: Over::Name(st.name),
                    },
                    filter_expr: match filter {
                        Some(filter) => Some(*filter),
                        None => None,
                    },
                },
                s2,
            )
        },
        _ => (RewrittenWindowCall { expr, filter_expr: None }, st),
    }
}

/// The first call from `from` on that is `expr`, of those that have been
/// rewritten or of those that have not.
pub open spec fn find_call(
    functions: Seq<WindowFunction>,
    expr: Expr,
    rewritten: bool,
    from: nat,
) -> Option<nat>
    decreases functions.len() - from,
{
    if from >= functions.len() {
        None
    } else if functions[from as int].original_expr == expr && (functions[from as int].rewritten
        is Some) == rewritten {
        Some(from)
    } else {
        find_call(functions, expr, rewritten, from + 1)
    }
}

/// The call over the window at hand that an expression is: one that has not
/// been rewritten yet, where there is one.
pub open spec fn window_call(functions: Seq<WindowFunction>, expr: Expr) -> Option<nat> {
    match find_call(functions, expr, false, 0) {
        Some(i) => Some(i),
        None => find_call(functions, expr, true, 0),
    }
}

/// Rewrites an expression.
pub open spec fn rewrite(expr: Expr, st: Rewriting) -> (Expr, Rewriting)
    decreases expr,
{
    match expr {
        Expr::Column { .. } => push_down(expr, st, false),
        Expr::RowId { .. } => push_down(expr, st, false),
        Expr::Literal(_) => (expr, st),
        Expr::Subquery { .. } => push_down(expr, st, false),
        Expr::Node { op, operands } => {
            let (operands, s1) = rewrite_list(operands, st);
            (Expr::Node { op, operands }, s1)
        },
        Expr::FunctionCall {
            name,
            kind,
            star,
            args,
            order_by,
            within_group,
            filter_clause,
            over_clause,
        } => {
            if over_clause == Over::Absent {
                if st.aggregates.contains(expr) {
                    push_down(expr, st, true)
                } else {
                    let (args, s1) = rewrite_list(args, st);
                    let (order_by, s2) = rewrite_list(order_by, s1);
                    let (within_group, s3) = rewrite_list(within_group, s2);
                    let (filter_clause, s4): (Option<Box<Expr>>, Rewriting) = match filter_clause {
                        Some(filter) => {
                            let (f, s4) = rewrite(*filter, s3);
                            (Some(Box::new(f)), s4)
                        },
                        None => (None, s3),
                    };
                    (
                        Expr::FunctionCall {
                            name,
                            kind,
                            star,
                            args,
                            order_by,
                            within_group,
                            filter_clause,
                            over_clause,
                        },
                        s4,
                    )
                }
            } else {
                match window_call(st.functions, expr) {
                    Some(i) => match st.functions[i as int].rewritten {
                        Some(rewritten) => (rewritten.expr, st),
                        None => {
                            let (rewritten, s1) = rewrite_call(expr, st);
                            (
                                rewritten.expr,
                                Rewriting {
                                    functions: s1.functions.update(
                                        i as int,
                                        WindowFunction {
                                            rewritten: Some(rewritten),
                                            ..s1.functions[i as int]
                                        },
                                    ),
                                    ..s1
                                },
                            )
                        },
                    },
                    None => push_down(expr, st, false),
                }
            }
        },
    }
}

pub open spec fn rewrite_list(list: ExprList, st: Rewriting) -> (ExprList, Rewriting)
    decreases list,
{
    match list {
        ExprList::Nil => (ExprList::Nil, st),
        ExprList::Cons(head, tail) => {
            let (h, s1) = rewrite(*head, st);
            let (t, s2) = rewrite_list(*tail, s1);
            (ExprList::Cons(Box::new(h), Box::new(t)), s2)
        },
    }
}

/// Carries a rewriting out.
pub struct Rewriter {
    pub id: TableId,
    pub name: WindowName,
    pub columns: Vec<ResultSetColumn>,
    pub aggregates: Vec<Expr>,
    pub functions: Vec<WindowFunction>,
}

impl View for Rewriter {
    type V = Rewriting;

    open spec fn view(&self) -> Rewriting {
        Rewriting {
            id: self.id,
            name: self.name,
            columns: self.columns@,
            aggregates: self.aggregates@,
            functions: self.functions@,
        }
    }
}

impl Rewriter {
    /// Makes `expr` a new column of the subquery, even if there is an
    /// equivalent one.
    pub fn push_new_subquery_column(&mut self, expr: Expr, contains_aggregates: bool) -> (r: Expr)
        ensures
            (r, final(self)@) == push_fresh(expr, old(self)@, contains_aggregates),
    {
        let column: usize = self.columns.len();
        self.columns.push(ResultSetColumn { expr, contains_aggregates });
        Expr::Column {
            database: Some(SUBQUERY_DATABASE_ID),
            table: self.id,
            column,
            is_rowid_alias: false,
        }
    }

    /// Makes `expr` a column of the subquery, unless there is an equivalent
    /// one.
    pub fn rewrite_expr_as_subquery_column(&mut self, expr: Expr, contains_aggregates: bool) -> (r:
        Expr)
        ensures
            (r, final(self)@) == push_down(expr, old(self)@, contains_aggregates),
    {
        let mut i: usize = 0;
        while i < self.columns.len()
            invariant
                i <= self.columns@.len(),
                *self == *old(self),
                find_column(self.columns@, expr, 0) == find_column(self.columns@, expr, i as nat),
            decreases self.columns@.len() - i,
        {
            if exprs_are_equivalent(&self.columns[i].expr, &expr) {
                return Expr::Column {
                    database: Some(SUBQUERY_DATABASE_ID),
                    table: self.id,
                    column: i,
                    is_rowid_alias: false,
                };
            }
            i = i + 1;
        }
        self.push_new_subquery_column(expr, contains_aggregates)
    }

    /// Makes an argument of a call over the window a column of the subquery.
    pub fn push_into_source_subquery(&mut self, expr: Expr) -> (r: Expr)
        ensures
            (r, final(self)@) == push_source(expr, old(self)@),
    {
        let contains_aggregates: bool = collect_aggregates(&expr, &mut self.aggregates);
        if contains_nondeterministic(&expr) {
            self.push_new_subquery_column(expr, contains_aggregates)
        } else {
            self.rewrite_expr_as_subquery_column(expr, contains_aggregates)
        }
    }

    fn push_list_into_source_subquery(&mut self, list: ExprList) -> (r: ExprList)
        ensures
            (r, final(self)@) == push_source_list(list, old(self)@),
        decreases list,
    {
        match list {
            ExprList::Nil => ExprList::Nil,
            ExprList::Cons(head, tail) => {
                let h = self.push_into_source_subquery(*head);
                let t = self.push_list_into_source_subquery(*tail);
                ExprList::Cons(Box::new(h), Box::new(t))
            },
        }
    }

    /// Rewrites a call over the window at hand: its arguments and its FILTER
    /// read the subquery.
    pub fn rewrite_expr_referencing_current_window(&mut self, expr: Expr) -> (r:
        RewrittenWindowCall)
        ensures
            (r, final(self)@) == rewrite_call(expr, old(self)@),
    {
        match expr {
            Expr::FunctionCall {
                name,
                kind,
                star,
                args,
                order_by,
                within_group,
                filter_clause,
                over_clause,
            } => {
                let window_name = self.name;
                let args = self.push_list_into_source_subquery(args);
                let (filter_clause, filter_expr): (Option<Box<Expr>>, Option<Expr>) =
                    match filter_clause {
                    Some(filter) => {
                        let f = self.push_into_source_subquery(*filter);
                        let copy = f.copy();
                        (Some(Box::new(f)), Some(copy))
                    },
                    None => (None, None),
                };
                RewrittenWindowCall {
                    expr: Expr::FunctionCall {
                        name,
                        kind,
                        star,
                        args,
                        order_by,
                        within_group,
                        filter_clause,
                        over_clause: Over::Name(window_name),
                    },
                    filter_expr,
                }
            },
            other => RewrittenWindowCall { expr: other, filter_expr: None },
        }
    }

    fn find_entry(&self, expr: &Expr, rewritten: bool) -> (r: Option<usize>)
        ensures
            match r {
                Some(i) => i < self.functions@.len() && find_call(
                    self.functions@,
                    *expr,
                    rewritten,
                    0,
                ) == Some(i as nat),
                None => find_call(self.functions@, *expr, rewritten, 0) == None::<nat>,
            },
    {
        let mut i: usize = 0;
        while i < self.functions.len()
            invariant
                i <= self.functions@.len(),
                find_call(self.functions@, *expr, rewritten, 0) == find_call(
                    self.functions@,
                    *expr,
                    rewritten,
                    i as nat,
                ),
            decreases self.functions@.len() - i,
        {
            if exprs_are_equivalent(&self.functions[i].original_expr, expr)
                && self.functions[i].rewritten.is_some() == rewritten {
                return Some(i);
            }
            i = i + 1;
        }
        None
    }

    /// The call over the window at hand that an expression is; one that has
    /// not been rewritten yet when there is one.
    pub fn find_window_function_entry(&self, expr: &Expr) -> (r: Option<usize>)
        ensures
            match r {
                Some(i) => i < self.functions@.len() && window_call(self.functions@, *expr) == Some(
                    i as nat,
                ),
                None => window_call(self.functions@, *expr) == None::<nat>,
            },
    {
        match self.find_entry(expr, false) {
            Some(i) => Some(i),
            None => self.find_entry(expr, true),
        }
    }

    fn is_aggregate(&self, expr: &Expr) -> (r: bool)
        ensures
            r == self.aggregates@.contains(*expr),
    {
        has_expr(&self.aggregates, expr)
    }

    /// Rewrites an expression.
    pub fn rewrite_terminal_expr(&mut self, expr: Expr) -> (r: Expr)
        ensures
            (r, final(self)@) == rewrite(expr, old(self)@),
        decreases expr,
    {
        match expr {
            Expr::Literal(id) => Expr::Literal(id),
            Expr::Node { op, operands } => {
                let operands = self.rewrite_terminal_list(operands);
                Expr::Node { op, operands }
            },
            Expr::FunctionCall {
                name,
                kind,
                star,
                args,
                order_by,
                within_group,
                filter_clause,
                over_clause,
            } => {
                let whole = Expr::FunctionCall {
                    name,
                    kind,
                    star,
                    args,
                    order_by,
                    within_group,
                    filter_clause,
                    over_clause,
                };
                if over_clause == Over::Absent {
                    if self.is_aggregate(&whole) {
                        self.rewrite_expr_as_subquery_column(whole, true)
                    } else {
                        self.rewrite_call_operands(whole)
                    }
                } else {
                    match self.find_window_function_entry(&whole) {
                        Some(i) => self.rewrite_window_call(whole, i),
                        None => self.rewrite_expr_as_subquery_column(whole, false),
                    }
                }
            },
            other => self.rewrite_expr_as_subquery_column(other, false),
        }
    }

    /// Rewrites what stands inside an ordinary call.
    fn rewrite_call_operands(&mut self, expr: Expr) -> (r: Expr)
        requires
            expr matches Expr::FunctionCall { over_clause, .. } && over_clause == Over::Absent,
            !old(self)@.aggregates.contains(expr),
        ensures
            (r, final(self)@) == rewrite(expr, old(self)@),
        decreases expr, 0nat,
    {
        match expr {
            Expr::FunctionCall {
                name,
                kind,
                star,
                args,
                order_by,
                within_group,
                filter_clause,
                over_clause,
            } => {
                let args = self.rewrite_terminal_list(args);
                let order_by = self.rewrite_terminal_list(order_by);
                let within_group = self.rewrite_terminal_list(within_group);
                let filter_clause: Option<Box<Expr>> = match filter_clause {
                    Some(filter) => Some(Box::new(self.rewrite_terminal_expr(*filter))),
                    None => None,
                };
                Expr::FunctionCall {
                    name,
                    kind,
                    star,
                    args,
                    order_by,
                    within_group,
                    filter_clause,
                    over_clause,
                }
            },
            other => other,
        }
    }

    /// Rewrites a call over the window at hand, or repeats how an equal one
    /// was rewritten.
    fn rewrite_window_call(&mut self, expr: Expr, i: usize) -> (r: Expr)
        requires
            expr matches Expr::FunctionCall { over_clause, .. } && over_clause != Over::Absent,
            i < old(self)@.functions.len(),
            window_call(old(self)@.functions, expr) == Some(i as nat),
        ensures
            (r, final(self)@) == rewrite(expr, old(self)@),
    {
        if let Some(rewritten) = &self.functions[i].rewritten {
            return rewritten.expr.copy();
        }
        let rewritten = self.rewrite_expr_referencing_current_window(expr);
        proof {
            rewrite_call_keeps_functions(expr, old(self)@);
        }
        let r = rewritten.expr.copy();
        let entry = WindowFunction {
            func: self.functions[i].func,
            original_expr: self.functions[i].original_expr.copy(),
            rewritten: Some(rewritten),
        };
        self.functions.set(i, entry);
        r
    }

    fn rewrite_terminal_list(&mut self, list: ExprList) -> (r: ExprList)
        ensures
            (r, final(self)@) == rewrite_list(list, old(self)@),
        decreases list, 1nat,
    {
        match list {
            ExprList::Nil => ExprList::Nil,
            ExprList::Cons(head, tail) => {
                let h = self.rewrite_terminal_expr(*head);
                let t = self.rewrite_terminal_list(*tail);
                ExprList::Cons(Box::new(h), Box::new(t))
            },
        }
    }
}

fn has_expr(exprs: &Vec<Expr>, expr: &Expr) -> (r: bool)
    ensures
        r == exprs@.contains(*expr),
{
    let mut i: usize = 0;
    while i < exprs.len()
        invariant
            i <= exprs@.len(),
            forall|j: int| 0 <= j < i ==> exprs@[j] != *expr,
        decreases exprs@.len() - i,
    {
        if exprs_are_equivalent(&exprs[i], expr) {
            assert(exprs@[i as int] == *expr);
            return true;
        }
        i = i + 1;
    }
    false
}

/// Adds the aggregates in an expression to those that are known, and says
/// whether there are any.
pub fn collect_aggregates(expr: &Expr, aggregates: &mut Vec<Expr>) -> (found: bool)
    ensures
        (final(aggregates)@, found) == add_aggregates(*expr, old(aggregates)@),
    decreases expr,
{
    match expr {
        Expr::FunctionCall {
            kind,
            args,
            order_by,
            within_group,
            filter_clause,
            over_clause,
            ..
        } => {
            if *over_clause != Over::Absent {
                false
            } else if *kind == CallKind::Aggregate {
                if !has_expr(aggregates, expr) {
                    aggregates.push(expr.copy());
                }
                true
            } else {
                let f1: bool = collect_aggregates_list(args, aggregates);
                let f2: bool = collect_aggregates_list(order_by, aggregates);
                let f3: bool = collect_aggregates_list(within_group, aggregates);
                match filter_clause {
                    Some(filter) => {
                        let f4: bool = collect_aggregates(filter, aggregates);
                        f1 || f2 || f3 || f4
                    },
                    None => f1 || f2 || f3,
                }
            }
        },
        Expr::Subquery { operands, .. } => collect_aggregates_list(operands, aggregates),
        Expr::Node { operands, .. } => collect_aggregates_list(operands, aggregates),
        _ => false,
    }
}

fn collect_aggregates_list(list: &ExprList, aggregates: &mut Vec<Expr>) -> (found: bool)
    ensures
        (final(aggregates)@, found) == add_aggregates_list(*list, old(aggregates)@),
    decreases list,
{
    match list {
        ExprList::Nil => false,
        ExprList::Cons(head, tail) => {
            let f1: bool = collect_aggregates(head, aggregates);
            let f2: bool = collect_aggregates_list(tail, aggregates);
            f1 || f2
        },
    }
}

/// Whether an expression may have another value each time it is evaluated.
pub fn contains_nondeterministic(expr: &Expr) -> (r: bool)
    ensures
        r == is_nondeterministic(*expr),
    decreases expr,
{
    match expr {
        Expr::FunctionCall { kind, args, order_by, within_group, filter_clause, .. } => {
            let in_filter: bool = match filter_clause {
                Some(filter) => contains_nondeterministic(filter),
                None => false,
            };
            *kind == CallKind::Nondeterministic || list_contains_nondeterministic(args)
                || list_contains_nondeterministic(order_by) || list_contains_nondeterministic(
                within_group,
            ) || in_filter
        },
        Expr::Subquery { operands, .. } => list_contains_nondeterministic(operands),
        Expr::Node { operands, .. } => list_contains_nondeterministic(operands),
        _ => false,
    }
}

fn list_contains_nondeterministic(list: &ExprList) -> (r: bool)
    ensures
        r == list_is_nondeterministic(*list),
    decreases list,
{
    match list {
        ExprList::Nil => false,
        ExprList::Cons(head, tail) => contains_nondeterministic(head)
            || list_contains_nondeterministic(tail),
    }
}

proof fn push_source_list_keeps_functions(list: ExprList, st: Rewriting)
    ensures
        push_source_list(list, st).1.functions == st.functions,
        push_source_list(list, st).1.id == st.id,
        push_source_list(list, st).1.name == st.name,
    decreases list,
{
    if let ExprList::Cons(head, tail) = list {
        push_source_list_keeps_functions(*tail, push_source(*head, st).1);
    }
}

proof fn rewrite_call_keeps_functions(expr: Expr, st: Rewriting)
    ensures
        rewrite_call(expr, st).1.functions == st.functions,
        rewrite_call(expr, st).1.id == st.id,
        rewrite_call(expr, st).1.name == st.name,
{
    if let Expr::FunctionCall { args, .. } = expr {
        push_source_list_keeps_functions(args, st);
    }
}

} // verus!
