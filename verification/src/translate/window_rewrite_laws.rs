//! What holds of rewritten expressions: they read the subquery only, and they
//! mean what they meant.

use vstd::prelude::*;
use crate::translate::expr::{Expr, ExprList, Over, TableId};
use crate::translate::window::WindowFunction;
use crate::translate::window_init::ResultSetColumn;
use crate::translate::window_rewrite;
use crate::translate::window_rewrite::Rewriting;

verus! {

/// An expression with the columns of the subquery put in place of the
/// references to them.
pub open spec fn subst(expr: Expr, id: TableId, columns: Seq<ResultSetColumn>) -> Expr
    decreases expr,
{
    match expr {
        Expr::Column { table, column, .. } => if table == id && column < columns.len() {
            columns[column as int].expr
        } else {
            expr
        },
        Expr::RowId { .. } => expr,
        Expr::Literal(_) => expr,
        Expr::FunctionCall {
            name,
            kind,
            star,
            args,
            order_by,
            within_group,
            filter_clause,
            over_clause,
        } => {
            let filter: Option<Box<Expr>> = match filter_clause {
                Some(filter) => Some(Box::new(subst(*filter, id, columns))),
                None => None,
            };
            Expr::FunctionCall {
                name,
                kind,
                star,
                args: subst_list(args, id, columns),
                order_by: subst_list(order_by, id, columns),
                within_group: subst_list(within_group, id, columns),
                filter_clause: filter,
                over_clause,
            }
        },
        Expr::Subquery { form, query, operands } => Expr::Subquery {
            form,
            query,
            operands: subst_list(operands, id, columns),
        },
        Expr::Node { op, operands } => Expr::Node {
            op,
            operands: subst_list(operands, id, columns),
        },
    }
}

pub open spec fn subst_list(list: ExprList, id: TableId, columns: Seq<ResultSetColumn>) -> ExprList
    decreases list,
{
    match list {
        ExprList::Nil => ExprList::Nil,
        ExprList::Cons(head, tail) => ExprList::Cons(
            Box::new(subst(*head, id, columns)),
            Box::new(subst_list(*tail, id, columns)),
        ),
    }
}

/// Whether all that an expression reads are the first `n` columns of the
/// table.
pub open spec fn reads_only(expr: Expr, id: TableId, n: nat) -> bool
    decreases expr,
{
    match expr {
        Expr::Column { table, column, .. } => table == id && column < n,
        Expr::RowId { .. } => false,
        Expr::Literal(_) => true,
        Expr::FunctionCall {
            args,
            order_by,
            within_group,
            filter_clause,
            ..
        } => reads_only_list(args, id, n)
            && reads_only_list(order_by, id, n) && reads_only_list(within_group, id, n)
            && match filter_clause {
            Some(filter) => reads_only(*filter, id, n),
            None => true,
        },
        Expr::Subquery { .. } => false,
        Expr::Node { operands, .. } => reads_only_list(operands, id, n),
    }
}

pub open spec fn reads_only_list(list: ExprList, id: TableId, n: nat) -> bool
    decreases list,
{
    match list {
        ExprList::Nil => true,
        ExprList::Cons(head, tail) => reads_only(*head, id, n) && reads_only_list(*tail, id, n),
    }
}

/// Whether two expressions differ at most in the names of windows.
pub open spec fn alike(a: Expr, b: Expr) -> bool
    decreases a,
{
    match (a, b) {
        (
            Expr::FunctionCall {
                name: n1,
                kind: k1,
                star: s1,
                args: a1,
                order_by: o1,
                within_group: w1,
                filter_clause: f1,
                over_clause: v1,
            },
            Expr::FunctionCall {
                name: n2,
                kind: k2,
                star: s2,
                args: a2,
                order_by: o2,
                within_group: w2,
                filter_clause: f2,
                over_clause: v2,
            },
        ) => {
            &&& n1 == n2 && k1 == k2 && s1 == s2
            &&& alike_list(a1, a2)
            &&& alike_list(o1, o2)
            &&& alike_list(w1, w2)
            &&& match (f1, f2) {
                (Some(f1), Some(f2)) => alike(*f1, *f2),
                (None, None) => true,
                _ => false,
            }
            &&& v1 == Over::Absent <==> v2 == Over::Absent
        },
        (
            Expr::Subquery { form: f1, query: q1, operands: o1 },
            Expr::Subquery { form: f2, query: q2, operands: o2 },
        ) => f1 == f2 && q1 == q2 && alike_list(o1, o2),
        (
            Expr::Node { op: op1, operands: o1 },
            Expr::Node { op: op2, operands: o2 },
        ) => op1 == op2 && alike_list(o1, o2),
        _ => a == b,
    }
}

pub open spec fn alike_list(a: ExprList, b: ExprList) -> bool
    decreases a,
{
    match (a, b) {
        (ExprList::Nil, ExprList::Nil) => true,
        (ExprList::Cons(h1, t1), ExprList::Cons(h2, t2)) => alike(*h1, *h2) && alike_list(*t1, *t2),
        _ => false,
    }
}

pub(crate) proof fn alike_itself(a: Expr)
    ensures
        alike(a, a),
    decreases a,
{
    match a {
        Expr::FunctionCall { args, order_by, within_group, filter_clause, .. } => {
            alike_itself_list(args);
            alike_itself_list(order_by);
            alike_itself_list(within_group);
            if let Some(filter) = filter_clause {
                alike_itself(*filter);
            }
        },
        Expr::Subquery { operands, .. } => {
            alike_itself_list(operands);
        },
        Expr::Node { operands, .. } => {
            alike_itself_list(operands);
        },
        _ => {},
    }
}

proof fn alike_itself_list(a: ExprList)
    ensures
        alike_list(a, a),
    decreases a,
{
    if let ExprList::Cons(head, tail) = a {
        alike_itself(*head);
        alike_itself_list(*tail);
    }
}

/// More columns behind those that an expression reads change nothing.
pub(crate) proof fn subst_extends(
    expr: Expr,
    id: TableId,
    n: nat,
    few: Seq<ResultSetColumn>,
    many: Seq<ResultSetColumn>,
)
    requires
        reads_only(expr, id, n),
        n <= few.len(),
        few.is_prefix_of(many),
    ensures
        reads_only(expr, id, many.len()),
        subst(expr, id, few) == subst(expr, id, many),
    decreases expr,
{
    match expr {
        Expr::Column { column, .. } => {
            assert(few[column as int] == many[column as int]);
        },
        Expr::FunctionCall { args, order_by, within_group, filter_clause, .. } => {
            subst_extends_list(args, id, n, few, many);
            subst_extends_list(order_by, id, n, few, many);
            subst_extends_list(within_group, id, n, few, many);
            if let Some(filter) = filter_clause {
                subst_extends(*filter, id, n, few, many);
            }
        },
        Expr::Node { operands, .. } => {
            subst_extends_list(operands, id, n, few, many);
        },
        _ => {},
    }
}

proof fn subst_extends_list(
    list: ExprList,
    id: TableId,
    n: nat,
    few: Seq<ResultSetColumn>,
    many: Seq<ResultSetColumn>,
)
    requires
        reads_only_list(list, id, n),
        n <= few.len(),
        few.is_prefix_of(many),
    ensures
        reads_only_list(list, id, many.len()),
        subst_list(list, id, few) == subst_list(list, id, many),
    decreases list,
{
    if let ExprList::Cons(head, tail) = list {
        subst_extends(*head, id, n, few, many);
        subst_extends_list(*tail, id, n, few, many);
    }
}

/// Whether what a rewriting has done so far is right: the calls over the
/// window that it has rewritten read the subquery and mean what they meant.
pub open spec fn consistent(st: Rewriting) -> bool {
    forall|i: int|
        0 <= i < st.functions.len() ==> {
            let f = #[trigger] st.functions[i];
            &&& f.original_expr matches Expr::FunctionCall {
                order_by,
                within_group,
                over_clause,
                ..
            } && order_by == ExprList::Nil && within_group == ExprList::Nil && over_clause
                != Over::Absent
            &&& f.rewritten matches Some(rewritten) ==> {
                &&& reads_only(rewritten.expr, st.id, st.columns.len())
                &&& alike(subst(rewritten.expr, st.id, st.columns), f.original_expr)
            }
        }
}

/// Whether a later state only adds to an earlier one.
pub open spec fn continues(earlier: Rewriting, later: Rewriting) -> bool {
    &&& later.id == earlier.id
    &&& later.name == earlier.name
    &&& earlier.columns.is_prefix_of(later.columns)
    &&& later.functions.len() == earlier.functions.len()
    &&& forall|i: int|
        0 <= i < earlier.functions.len() ==> (#[trigger] later.functions[i]).original_expr
            == earlier.functions[i].original_expr
}

proof fn consistent_with_more_columns(earlier: Rewriting, later: Rewriting)
    requires
        consistent(earlier),
        later.id == earlier.id,
        earlier.columns.is_prefix_of(later.columns),
        later.functions == earlier.functions,
    ensures
        consistent(later),
{
    assert forall|i: int| 0 <= i < later.functions.len() implies {
        let f = #[trigger] later.functions[i];
        &&& f.original_expr matches Expr::FunctionCall { order_by, within_group, over_clause, .. }
            && order_by == ExprList::Nil && within_group == ExprList::Nil && over_clause
            != Over::Absent
        &&& f.rewritten matches Some(rewritten) ==> {
            &&& reads_only(rewritten.expr, later.id, later.columns.len())
            &&& alike(subst(rewritten.expr, later.id, later.columns), f.original_expr)
        }
    } by {
        let f = earlier.functions[i];
        if let Some(rewritten) = f.rewritten {
            subst_extends(
                rewritten.expr,
                earlier.id,
                earlier.columns.len(),
                earlier.columns,
                later.columns,
            );
        }
    }
}

proof fn found_column_holds(columns: Seq<ResultSetColumn>, expr: Expr, from: nat)
    ensures
        window_rewrite::find_column(columns, expr, from) matches Some(i) ==> i < columns.len()
            && columns[i as int].expr == expr,
    decreases columns.len() - from,
{
    if from < columns.len() && columns[from as int].expr != expr {
        found_column_holds(columns, expr, from + 1);
    }
}

pub(crate) proof fn found_call_is(
    functions: Seq<WindowFunction>,
    expr: Expr,
    rewritten: bool,
    from: nat,
)
    ensures
        window_rewrite::find_call(functions, expr, rewritten, from) matches Some(i) ==> i
            < functions.len() && functions[i as int].original_expr == expr,
    decreases functions.len() - from,
{
    if from < functions.len() {
        found_call_is(functions, expr, rewritten, from + 1);
    }
}

pub proof fn push_down_restores(expr: Expr, st: Rewriting, contains_aggregates: bool)
    requires
        consistent(st),
        window_rewrite::push_down(expr, st, contains_aggregates).1.columns.len() <= usize::MAX,
    ensures
        ({
            let (r, after) = window_rewrite::push_down(expr, st, contains_aggregates);
            &&& consistent(after)
            &&& continues(st, after)
            &&& reads_only(r, st.id, after.columns.len())
            &&& subst(r, st.id, after.columns) == expr
        }),
{
    found_column_holds(st.columns, expr, 0);
    consistent_with_more_columns(
        st,
        window_rewrite::push_down(expr, st, contains_aggregates).1,
    );
}

proof fn push_source_restores(expr: Expr, st: Rewriting)
    requires
        consistent(st),
        window_rewrite::push_source(expr, st).1.columns.len() <= usize::MAX,
    ensures
        ({
            let (r, after) = window_rewrite::push_source(expr, st);
            &&& consistent(after)
            &&& continues(st, after)
            &&& reads_only(r, st.id, after.columns.len())
            &&& subst(r, st.id, after.columns) == expr
        }),
{
    let (aggregates, found) = window_rewrite::add_aggregates(expr, st.aggregates);
    let known = Rewriting { aggregates, ..st };
    if window_rewrite::is_nondeterministic(expr) {
        consistent_with_more_columns(st, window_rewrite::push_fresh(expr, known, found).1);
    } else {
        push_down_restores(expr, known, found);
    }
}

proof fn push_source_list_restores(list: ExprList, st: Rewriting)
    requires
        consistent(st),
        window_rewrite::push_source_list(list, st).1.columns.len() <= usize::MAX,
    ensures
        ({
            let (r, after) = window_rewrite::push_source_list(list, st);
            &&& consistent(after)
            &&& continues(st, after)
            &&& reads_only_list(r, st.id, after.columns.len())
            &&& subst_list(r, st.id, after.columns) == list
        }),
    decreases list,
{
    if let ExprList::Cons(head, tail) = list {
        let (h, s1) = window_rewrite::push_source(*head, st);
        push_source_list_grows(*tail, s1);
        push_source_restores(*head, st);
        push_source_list_restores(*tail, s1);
        let s2 = window_rewrite::push_source_list(*tail, s1).1;
        subst_extends(h, st.id, s1.columns.len(), s1.columns, s2.columns);
    }
}

pub(crate) proof fn push_source_list_grows(list: ExprList, st: Rewriting)
    ensures
        st.columns.len() <= window_rewrite::push_source_list(list, st).1.columns.len(),
    decreases list,
{
    if let ExprList::Cons(head, tail) = list {
        push_source_list_grows(*tail, window_rewrite::push_source(*head, st).1);
    }
}

pub(crate) proof fn rewrite_grows(expr: Expr, st: Rewriting)
    ensures
        st.columns.len() <= window_rewrite::rewrite(expr, st).1.columns.len(),
    decreases expr,
{
    match expr {
        Expr::Node { operands, .. } => {
            rewrite_list_grows(operands, st);
        },
        Expr::FunctionCall { args, order_by, within_group, filter_clause, over_clause, .. } => {
            if over_clause == Over::Absent {
                if !st.aggregates.contains(expr) {
                    rewrite_list_grows(args, st);
                    let s1 = window_rewrite::rewrite_list(args, st).1;
                    rewrite_list_grows(order_by, s1);
                    let s2 = window_rewrite::rewrite_list(order_by, s1).1;
                    rewrite_list_grows(within_group, s2);
                    let s3 = window_rewrite::rewrite_list(within_group, s2).1;
                    if let Some(filter) = filter_clause {
                        rewrite_grows(*filter, s3);
                    }
                }
            } else {
                push_source_list_grows(args, st);
            }
        },
        _ => {},
    }
}

pub(crate) proof fn rewrite_list_grows(list: ExprList, st: Rewriting)
    ensures
        st.columns.len() <= window_rewrite::rewrite_list(list, st).1.columns.len(),
    decreases list,
{
    if let ExprList::Cons(head, tail) = list {
        rewrite_grows(*head, st);
        rewrite_list_grows(*tail, window_rewrite::rewrite(*head, st).1);
    }
}

proof fn rewrite_call_restores(expr: Expr, st: Rewriting)
    requires
        consistent(st),
        expr matches Expr::FunctionCall { order_by, within_group, over_clause, .. } && order_by
            == ExprList::Nil && within_group == ExprList::Nil && over_clause != Over::Absent,
        window_rewrite::rewrite_call(expr, st).1.columns.len() <= usize::MAX,
    ensures
        ({
            let (r, after) = window_rewrite::rewrite_call(expr, st);
            &&& consistent(after)
            &&& continues(st, after)
            &&& after.functions == st.functions
            &&& reads_only(r.expr, st.id, after.columns.len())
            &&& alike(subst(r.expr, st.id, after.columns), expr)
        }),
{
    if let Expr::FunctionCall { args, order_by, within_group, filter_clause, .. } = expr {
        let (a, s1) = window_rewrite::push_source_list(args, st);
        push_source_list_restores(args, st);
        push_source_list_keeps(args, st);
        alike_itself_list(args);
        let after = window_rewrite::rewrite_call(expr, st).1;
        assert(subst_list(order_by, st.id, after.columns) == order_by);
        assert(reads_only_list(order_by, st.id, after.columns.len()));
        assert(alike_list(order_by, order_by));
        assert(subst_list(within_group, st.id, after.columns) == within_group);
        assert(reads_only_list(within_group, st.id, after.columns.len()));
        assert(alike_list(within_group, within_group));
        if let Some(filter) = filter_clause {
            push_source_restores(*filter, s1);
            alike_itself(*filter);
            let s2 = window_rewrite::push_source(*filter, s1).1;
            subst_extends_list(a, st.id, s1.columns.len(), s1.columns, s2.columns);
        }
    }
}

proof fn push_source_list_keeps(list: ExprList, st: Rewriting)
    ensures
        window_rewrite::push_source_list(list, st).1.functions == st.functions,
    decreases list,
{
    if let ExprList::Cons(head, tail) = list {
        push_source_list_keeps(*tail, window_rewrite::push_source(*head, st).1);
    }
}

/// A rewritten expression reads nothing but columns of the subquery, and with
/// those columns in place of the references it is the expression that it was,
/// up to the names of windows. Columns that the subquery has are kept.
pub proof fn rewriting_restores(expr: Expr, st: Rewriting)
    requires
        consistent(st),
        window_rewrite::rewrite(expr, st).1.columns.len() <= usize::MAX,
    ensures
        ({
            let (r, after) = window_rewrite::rewrite(expr, st);
            &&& consistent(after)
            &&& continues(st, after)
            &&& reads_only(r, st.id, after.columns.len())
            &&& alike(subst(r, st.id, after.columns), expr)
        }),
    decreases expr,
{
    match expr {
        Expr::Column { .. } => {
            push_down_restores(expr, st, false);
        },
        Expr::RowId { .. } => {
            push_down_restores(expr, st, false);
        },
        Expr::Literal(_) => {},
        Expr::Subquery { .. } => {
            push_down_restores(expr, st, false);
            alike_itself(expr);
        },
        Expr::Node { operands, .. } => {
            list_rewriting_restores(operands, st);
        },
        Expr::FunctionCall { args, order_by, within_group, filter_clause, over_clause, .. } => {
            alike_itself(expr);
            if over_clause == Over::Absent {
                if st.aggregates.contains(expr) {
                    push_down_restores(expr, st, true);
                } else {
                    let (a, s1) = window_rewrite::rewrite_list(args, st);
                    let (o, s2) = window_rewrite::rewrite_list(order_by, s1);
                    let (w, s3) = window_rewrite::rewrite_list(within_group, s2);
                    rewrite_list_grows(order_by, s1);
                    rewrite_list_grows(within_group, s2);
                    if let Some(filter) = filter_clause {
                        rewrite_grows(*filter, s3);
                    }
                    list_rewriting_restores(args, st);
                    list_rewriting_restores(order_by, s1);
                    list_rewriting_restores(within_group, s2);
                    subst_extends_list(a, st.id, s1.columns.len(), s1.columns, s2.columns);
                    subst_extends_list(a, st.id, s2.columns.len(), s2.columns, s3.columns);
                    subst_extends_list(o, st.id, s2.columns.len(), s2.columns, s3.columns);
                    if let Some(filter) = filter_clause {
                        rewriting_restores(*filter, s3);
                        let s4 = window_rewrite::rewrite(*filter, s3).1;
                        subst_extends_list(a, st.id, s3.columns.len(), s3.columns, s4.columns);
                        subst_extends_list(o, st.id, s3.columns.len(), s3.columns, s4.columns);
                        subst_extends_list(w, st.id, s3.columns.len(), s3.columns, s4.columns);
                    }
                }
            } else {
                found_call_is(st.functions, expr, false, 0);
                found_call_is(st.functions, expr, true, 0);
                match window_rewrite::window_call(st.functions, expr) {
                    Some(i) => {
                        if st.functions[i as int].rewritten is None {
                            rewrite_call_restores(expr, st);
                        }
                    },
                    None => {
                        push_down_restores(expr, st, false);
                    },
                }
            }
        },
    }
}

/// The same of several expressions in a row.
pub proof fn list_rewriting_restores(list: ExprList, st: Rewriting)
    requires
        consistent(st),
        window_rewrite::rewrite_list(list, st).1.columns.len() <= usize::MAX,
    ensures
        ({
            let (r, after) = window_rewrite::rewrite_list(list, st);
            &&& consistent(after)
            &&& continues(st, after)
            &&& reads_only_list(r, st.id, after.columns.len())
            &&& alike_list(subst_list(r, st.id, after.columns), list)
        }),
    decreases list,
{
    if let ExprList::Cons(head, tail) = list {
        let (h, s1) = window_rewrite::rewrite(*head, st);
        rewrite_list_grows(*tail, s1);
        rewriting_restores(*head, st);
        list_rewriting_restores(*tail, s1);
        let s2 = window_rewrite::rewrite_list(*tail, s1).1;
        subst_extends(h, st.id, s1.columns.len(), s1.columns, s2.columns);
    }
}

} // verus!
