//! What planning leaves is what code is written for.
//!
//! Setting a window up wants it planned: its keys and the arguments of
//! functions that look rows up are columns of the subquery, and the partition
//! key has a length. Planning rewrites a call when it meets it in the query, so
//! a call that is listed is rewritten if the query holds it.

use vstd::prelude::*;
use crate::function::{AccumulatorFunc, WindowFunc};
use crate::translate::expr::{CallKind, Expr, ExprList, Over, TableId};
use crate::translate::window;
use crate::translate::window::{OrderTerm, Window, WindowFunction};
use crate::translate::window_init;
use crate::translate::window_init::{ResultSetColumn, SourceSubquery};
use crate::translate::window_plan;
use crate::translate::window_plan::{PlanModel, SelectPlan, Source, WindowModel};
use crate::translate::window_plan_laws;
use crate::translate::window_rewrite;
use crate::translate::window_rewrite::Rewriting;
use crate::translate::window_rewrite_laws;

verus! {

/// How many of the first `n` calls are `target` and have not been rewritten.
pub open spec fn pending(functions: Seq<WindowFunction>, target: Expr, n: nat) -> nat
    decreases n,
{
    if n == 0 {
        0
    } else {
        pending(functions, target, (n - 1) as nat) + if functions[n - 1].original_expr == target
            && functions[n - 1].rewritten is None {
            1nat
        } else {
            0
        }
    }
}

/// How many of the calls are `target` and have not been rewritten.
pub open spec fn left(functions: Seq<WindowFunction>, target: Expr) -> nat {
    pending(functions, target, functions.len())
}

/// How often rewriting meets the call `target` in an expression. What stands
/// inside an aggregate, a subquery or another call over a window moves into the
/// subquery as it is.
pub open spec fn meets(expr: Expr, target: Expr) -> nat
    decreases expr,
{
    match expr {
        Expr::Node { operands, .. } => list_meets(operands, target),
        Expr::FunctionCall {
            kind,
            args,
            order_by,
            within_group,
            filter_clause,
            over_clause,
            ..
        } => {
            if over_clause != Over::Absent {
                if expr == target {
                    1
                } else {
                    0
                }
            } else if kind == CallKind::Aggregate {
                0
            } else {
                list_meets(args, target) + list_meets(order_by, target) + list_meets(
                    within_group,
                    target,
                ) + match filter_clause {
                    Some(filter) => meets(*filter, target),
                    None => 0,
                }
            }
        },
        _ => 0,
    }
}

pub open spec fn list_meets(list: ExprList, target: Expr) -> nat
    decreases list,
{
    match list {
        ExprList::Nil => 0,
        ExprList::Cons(head, tail) => meets(*head, target) + list_meets(*tail, target),
    }
}

/// How often rewriting meets `target` in the first `n` result columns.
pub open spec fn columns_meet(columns: Seq<ResultSetColumn>, target: Expr, n: nat) -> nat
    decreases n,
{
    if n == 0 {
        0
    } else {
        columns_meet(columns, target, (n - 1) as nat) + meets(columns[n - 1].expr, target)
    }
}

/// How often rewriting meets `target` in the first `n` terms of an ORDER BY.
pub open spec fn terms_meet(terms: Seq<OrderTerm>, target: Expr, n: nat) -> nat
    decreases n,
{
    if n == 0 {
        0
    } else {
        terms_meet(terms, target, (n - 1) as nat) + meets(terms[n - 1].expr, target)
    }
}

/// Whether a query holds a call as often as a window lists it.
pub open spec fn holds_call(plan: PlanModel, window: WindowModel, target: Expr) -> bool {
    left(window.functions, target) <= columns_meet(
        plan.result_columns,
        target,
        plan.result_columns.len(),
    ) + terms_meet(plan.order_by, target, plan.order_by.len())
}

/// Whether an expression is an aggregate over the rows of a group.
pub open spec fn is_aggregate(expr: Expr) -> bool {
    expr matches Expr::FunctionCall { kind, over_clause, .. } && kind == CallKind::Aggregate
        && over_clause == Over::Absent
}

pub open spec fn all_aggregates(exprs: Seq<Expr>) -> bool {
    forall|i: int| 0 <= i < exprs.len() ==> is_aggregate(#[trigger] exprs[i])
}

/// The arguments of a call.
pub open spec fn call_args(expr: Expr) -> Seq<Expr> {
    match expr {
        Expr::FunctionCall { args, .. } => args.items(),
        _ => Seq::empty(),
    }
}

/// Whether the query gives a function as many arguments as it takes.
pub open spec fn takes_its_arguments(function: WindowFunction) -> bool {
    let args = call_args(function.original_expr);
    &&& args.len() <= u32::MAX
    &&& window::is_positional(function.func) ==> args.len() >= 1
    &&& function.func == AccumulatorFunc::Window(WindowFunc::NthValue) ==> args.len() >= 2
}

/// Whether a window is one that planning starts with, for a query that holds
/// its calls.
pub open spec fn awaits_planning(plan: PlanModel, window: WindowModel) -> bool {
    &&& window_plan_laws::unplanned(window)
    &&& window.deduplicated_partition_by_len is None
    &&& window.functions.len() > 0
    &&& forall|i: int|
        0 <= i < window.functions.len() ==> takes_its_arguments(#[trigger] window.functions[i])
    &&& forall|i: int|
        0 <= i < window.functions.len() ==> {
            let f = #[trigger] window.functions[i];
            window::is_positional(f.func) ==> holds_call(plan, window, f.original_expr)
        }
}

/// Whether a call that has been rewritten reads `count` columns and has as many
/// arguments as it had.
pub open spec fn rewritten_well(function: WindowFunction, count: nat) -> bool {
    function.rewritten matches Some(rewritten) ==> {
        let args = call_args(rewritten.expr);
        &&& rewritten.expr is FunctionCall
        &&& args.len() == call_args(function.original_expr).len()
        &&& forall|i: int|
            0 <= i < args.len() ==> window::is_source_column(#[trigger] args[i], count)
    }
}

/// Whether the calls that a rewriting has dealt with are rewritten well.
pub open spec fn sound(st: Rewriting) -> bool {
    &&& all_aggregates(st.aggregates)
    &&& forall|i: int|
        0 <= i < st.functions.len() ==> {
            let f = #[trigger] st.functions[i];
            &&& f.original_expr matches Expr::FunctionCall { over_clause, .. } && over_clause
                != Over::Absent
            &&& rewritten_well(f, st.columns.len())
        }
}

/// Whether a later state lists the calls of an earlier one, and has its columns.
pub open spec fn keeps(earlier: Rewriting, later: Rewriting) -> bool {
    &&& earlier.columns.len() <= later.columns.len()
    &&& later.functions.len() == earlier.functions.len()
    &&& forall|i: int|
        0 <= i < earlier.functions.len() ==> (#[trigger] later.functions[i]).original_expr
            == earlier.functions[i].original_expr && later.functions[i].func
            == earlier.functions[i].func
}

proof fn found_is_pending(functions: Seq<WindowFunction>, target: Expr, from: nat)
    ensures
        match window_rewrite::find_call(functions, target, false, from) {
            Some(i) => from <= i < functions.len() && functions[i as int].original_expr == target
                && functions[i as int].rewritten is None,
            None => forall|j: int|
                from <= j < functions.len() ==> !((#[trigger] functions[j]).original_expr == target
                    && functions[j].rewritten is None),
        },
    decreases functions.len() - from,
{
    if from < functions.len() {
        found_is_pending(functions, target, from + 1);
    }
}

proof fn none_pending(functions: Seq<WindowFunction>, target: Expr, n: nat)
    requires
        n <= functions.len(),
    ensures
        pending(functions, target, n) == 0 <==> forall|j: int|
            0 <= j < n ==> !((#[trigger] functions[j]).original_expr == target
                && functions[j].rewritten is None),
    decreases n,
{
    if n > 0 {
        none_pending(functions, target, (n - 1) as nat);
    }
}

proof fn rewriting_one_leaves(
    functions: Seq<WindowFunction>,
    i: int,
    done: WindowFunction,
    target: Expr,
    n: nat,
)
    requires
        0 <= i < functions.len(),
        n <= functions.len(),
        functions[i].rewritten is None,
        done.rewritten is Some,
        done.original_expr == functions[i].original_expr,
    ensures
        pending(functions.update(i, done), target, n) + (if i < n && functions[i].original_expr
            == target {
            1nat
        } else {
            0
        }) == pending(functions, target, n),
    decreases n,
{
    if n > 0 {
        rewriting_one_leaves(functions, i, done, target, (n - 1) as nat);
    }
}

proof fn adding_keeps_aggregates(expr: Expr, aggregates: Seq<Expr>)
    requires
        all_aggregates(aggregates),
    ensures
        all_aggregates(window_rewrite::add_aggregates(expr, aggregates).0),
    decreases expr,
{
    match expr {
        Expr::FunctionCall {
            kind,
            args,
            order_by,
            within_group,
            filter_clause,
            over_clause,
            ..
        } => {
            if over_clause == Over::Absent && kind != CallKind::Aggregate {
                adding_list_keeps_aggregates(args, aggregates);
                let a1 = window_rewrite::add_aggregates_list(args, aggregates).0;
                adding_list_keeps_aggregates(order_by, a1);
                let a2 = window_rewrite::add_aggregates_list(order_by, a1).0;
                adding_list_keeps_aggregates(within_group, a2);
                let a3 = window_rewrite::add_aggregates_list(within_group, a2).0;
                if let Some(filter) = filter_clause {
                    adding_keeps_aggregates(*filter, a3);
                }
            }
        },
        Expr::Subquery { operands, .. } => {
            adding_list_keeps_aggregates(operands, aggregates);
        },
        Expr::Node { operands, .. } => {
            adding_list_keeps_aggregates(operands, aggregates);
        },
        _ => {},
    }
}

proof fn adding_list_keeps_aggregates(list: ExprList, aggregates: Seq<Expr>)
    requires
        all_aggregates(aggregates),
    ensures
        all_aggregates(window_rewrite::add_aggregates_list(list, aggregates).0),
    decreases list,
{
    if let ExprList::Cons(head, tail) = list {
        adding_keeps_aggregates(*head, aggregates);
        adding_list_keeps_aggregates(
            *tail,
            window_rewrite::add_aggregates(*head, aggregates).0,
        );
    }
}

proof fn sound_with_more_columns(earlier: Rewriting, later: Rewriting)
    requires
        sound(earlier),
        all_aggregates(later.aggregates),
        earlier.columns.len() <= later.columns.len(),
        later.functions == earlier.functions,
    ensures
        sound(later),
        keeps(earlier, later),
{
    assert forall|i: int| 0 <= i < later.functions.len() implies {
        let f = #[trigger] later.functions[i];
        &&& f.original_expr matches Expr::FunctionCall { over_clause, .. } && over_clause
            != Over::Absent
        &&& rewritten_well(f, later.columns.len())
    } by {
        let f = earlier.functions[i];
        assert(rewritten_well(f, earlier.columns.len()));
    }
}

proof fn found_column_is_one(columns: Seq<ResultSetColumn>, expr: Expr, from: nat)
    ensures
        window_rewrite::find_column(columns, expr, from) matches Some(i) ==> i < columns.len(),
    decreases columns.len() - from,
{
    if from < columns.len() {
        found_column_is_one(columns, expr, from + 1);
    }
}

proof fn push_down_is_sound(expr: Expr, st: Rewriting, contains_aggregates: bool)
    requires
        sound(st),
        window_rewrite::push_down(expr, st, contains_aggregates).1.columns.len() <= usize::MAX,
    ensures
        ({
            let (r, after) = window_rewrite::push_down(expr, st, contains_aggregates);
            &&& sound(after)
            &&& keeps(st, after)
            &&& after.functions == st.functions
            &&& after.columns.len() <= st.columns.len() + 1
            &&& window::is_source_column(r, after.columns.len())
        }),
{
    found_column_is_one(st.columns, expr, 0);
    sound_with_more_columns(st, window_rewrite::push_down(expr, st, contains_aggregates).1);
}

proof fn push_source_is_sound(expr: Expr, st: Rewriting)
    requires
        sound(st),
        window_rewrite::push_source(expr, st).1.columns.len() <= usize::MAX,
    ensures
        ({
            let (r, after) = window_rewrite::push_source(expr, st);
            &&& sound(after)
            &&& keeps(st, after)
            &&& after.functions == st.functions
            &&& window::is_source_column(r, after.columns.len())
        }),
{
    adding_keeps_aggregates(expr, st.aggregates);
    let (aggregates, found) = window_rewrite::add_aggregates(expr, st.aggregates);
    let known = Rewriting { aggregates, ..st };
    sound_with_more_columns(st, known);
    if window_rewrite::is_nondeterministic(expr) {
        sound_with_more_columns(known, window_rewrite::push_fresh(expr, known, found).1);
    } else {
        push_down_is_sound(expr, known, found);
    }
}

proof fn push_source_list_is_sound(list: ExprList, st: Rewriting)
    requires
        sound(st),
        window_rewrite::push_source_list(list, st).1.columns.len() <= usize::MAX,
    ensures
        ({
            let (r, after) = window_rewrite::push_source_list(list, st);
            &&& sound(after)
            &&& keeps(st, after)
            &&& after.functions == st.functions
            &&& r.items().len() == list.items().len()
            &&& forall|i: int|
                0 <= i < r.items().len() ==> window::is_source_column(
                    #[trigger] r.items()[i],
                    after.columns.len(),
                )
        }),
    decreases list,
{
    if let ExprList::Cons(head, tail) = list {
        let (h, s1) = window_rewrite::push_source(*head, st);
        let (t, s2) = window_rewrite::push_source_list(*tail, s1);
        window_rewrite_laws::push_source_list_grows(*tail, s1);
        push_source_is_sound(*head, st);
        push_source_list_is_sound(*tail, s1);
        let r = window_rewrite::push_source_list(list, st).0;
        assert(r.items() =~= seq![h] + t.items());
    }
}

proof fn rewrite_call_is_sound(expr: Expr, st: Rewriting)
    requires
        sound(st),
        expr is FunctionCall,
        window_rewrite::rewrite_call(expr, st).1.columns.len() <= usize::MAX,
    ensures
        ({
            let (r, after) = window_rewrite::rewrite_call(expr, st);
            &&& sound(after)
            &&& keeps(st, after)
            &&& after.functions == st.functions
            &&& r.expr is FunctionCall
            &&& call_args(r.expr).len() == call_args(expr).len()
            &&& forall|i: int|
                0 <= i < call_args(r.expr).len() ==> window::is_source_column(
                    #[trigger] call_args(r.expr)[i],
                    after.columns.len(),
                )
        }),
{
    if let Expr::FunctionCall { args, filter_clause, .. } = expr {
        let s1 = window_rewrite::push_source_list(args, st).1;
        push_source_list_is_sound(args, st);
        if let Some(filter) = filter_clause {
            push_source_is_sound(*filter, s1);
        }
    }
}

proof fn rewriting_is_sound(expr: Expr, target: Expr, st: Rewriting)
    requires
        sound(st),
        window_rewrite::rewrite(expr, st).1.columns.len() <= usize::MAX,
    ensures
        ({
            let after = window_rewrite::rewrite(expr, st).1;
            &&& sound(after)
            &&& keeps(st, after)
            &&& left(after.functions, target) == 0 || left(after.functions, target) + meets(
                expr,
                target,
            ) <= left(st.functions, target)
        }),
    decreases expr,
{
    match expr {
        Expr::Column { .. } => {
            push_down_is_sound(expr, st, false);
        },
        Expr::RowId { .. } => {
            push_down_is_sound(expr, st, false);
        },
        Expr::Literal(_) => {},
        Expr::Subquery { .. } => {
            push_down_is_sound(expr, st, false);
        },
        Expr::Node { operands, .. } => {
            list_rewriting_is_sound(operands, target, st);
        },
        Expr::FunctionCall { args, order_by, within_group, filter_clause, over_clause, .. } => {
            if over_clause == Over::Absent {
                if st.aggregates.contains(expr) {
                    push_down_is_sound(expr, st, true);
                    assert(is_aggregate(expr));
                } else {
                    let s1 = window_rewrite::rewrite_list(args, st).1;
                    let s2 = window_rewrite::rewrite_list(order_by, s1).1;
                    let s3 = window_rewrite::rewrite_list(within_group, s2).1;
                    window_rewrite_laws::rewrite_list_grows(order_by, s1);
                    window_rewrite_laws::rewrite_list_grows(within_group, s2);
                    if let Some(filter) = filter_clause {
                        window_rewrite_laws::rewrite_grows(*filter, s3);
                    }
                    list_rewriting_is_sound(args, target, st);
                    list_rewriting_is_sound(order_by, target, s1);
                    list_rewriting_is_sound(within_group, target, s2);
                    if let Some(filter) = filter_clause {
                        rewriting_is_sound(*filter, target, s3);
                    }
                }
            } else {
                found_is_pending(st.functions, expr, 0);
                window_rewrite_laws::found_call_is(st.functions, expr, true, 0);
                none_pending(st.functions, target, st.functions.len());
                match window_rewrite::window_call(st.functions, expr) {
                    Some(i) => {
                        if st.functions[i as int].rewritten is None {
                            rewriting_call_is_sound(expr, target, st, i as int);
                        }
                    },
                    None => {
                        push_down_is_sound(expr, st, false);
                    },
                }
            }
        },
    }
}

proof fn rewriting_call_is_sound(expr: Expr, target: Expr, st: Rewriting, i: int)
    requires
        sound(st),
        expr matches Expr::FunctionCall { over_clause, .. } && over_clause != Over::Absent,
        window_rewrite::rewrite(expr, st).1.columns.len() <= usize::MAX,
        window_rewrite::window_call(st.functions, expr) == Some(i as nat),
        0 <= i < st.functions.len(),
        st.functions[i].original_expr == expr,
        st.functions[i].rewritten is None,
    ensures
        ({
            let after = window_rewrite::rewrite(expr, st).1;
            &&& sound(after)
            &&& keeps(st, after)
            &&& left(after.functions, target) + meets(expr, target) <= left(
                st.functions,
                target,
            )
        }),
{
    let (rewritten, s1) = window_rewrite::rewrite_call(expr, st);
    rewrite_call_is_sound(expr, st);
    let done = WindowFunction { rewritten: Some(rewritten), ..st.functions[i] };
    let after = window_rewrite::rewrite(expr, st).1;
    assert(after.functions == st.functions.update(i, done));
    rewriting_one_leaves(st.functions, i, done, target, st.functions.len());
    assert forall|j: int| 0 <= j < after.functions.len() implies {
        let f = #[trigger] after.functions[j];
        &&& f.original_expr matches Expr::FunctionCall { over_clause, .. } && over_clause
            != Over::Absent
        &&& rewritten_well(f, after.columns.len())
    } by {
        if j != i {
            assert(after.functions[j] == s1.functions[j]);
        }
    }
}

proof fn list_rewriting_is_sound(list: ExprList, target: Expr, st: Rewriting)
    requires
        sound(st),
        window_rewrite::rewrite_list(list, st).1.columns.len() <= usize::MAX,
    ensures
        ({
            let after = window_rewrite::rewrite_list(list, st).1;
            &&& sound(after)
            &&& keeps(st, after)
            &&& left(after.functions, target) == 0 || left(after.functions, target) + list_meets(
                list,
                target,
            ) <= left(st.functions, target)
        }),
    decreases list,
{
    if let ExprList::Cons(head, tail) = list {
        let s1 = window_rewrite::rewrite(*head, st).1;
        window_rewrite_laws::rewrite_list_grows(*tail, s1);
        rewriting_is_sound(*head, target, st);
        list_rewriting_is_sound(*tail, target, s1);
    }
}

proof fn push_key_is_sound(expr: Expr, st: Rewriting)
    requires
        sound(st),
        window_plan::push_key(expr, st).1.columns.len() <= usize::MAX,
    ensures
        ({
            let (r, after) = window_plan::push_key(expr, st);
            &&& sound(after)
            &&& keeps(st, after)
            &&& after.functions == st.functions
            &&& after.columns.len() <= st.columns.len() + 1
            &&& window::is_source_column(r, after.columns.len())
        }),
{
    adding_keeps_aggregates(expr, st.aggregates);
    let (aggregates, found) = window_rewrite::add_aggregates(expr, st.aggregates);
    let known = Rewriting { aggregates, ..st };
    sound_with_more_columns(st, known);
    push_down_is_sound(expr, known, found);
}

proof fn push_partition_is_sound(exprs: Seq<Expr>, st: Rewriting, n: nat)
    requires
        sound(st),
        window_plan::push_partition(exprs, st, n).1.columns.len() <= usize::MAX,
    ensures
        ({
            let (r, after) = window_plan::push_partition(exprs, st, n);
            &&& sound(after)
            &&& keeps(st, after)
            &&& after.functions == st.functions
            &&& after.columns.len() <= st.columns.len() + n
            &&& n > 0 ==> after.columns.len() > 0
            &&& r.len() == n
        }),
    decreases n,
{
    if n > 0 {
        let s1 = window_plan::push_partition(exprs, st, (n - 1) as nat).1;
        push_partition_is_sound(exprs, st, (n - 1) as nat);
        push_key_is_sound(exprs[n - 1], s1);
    }
}

proof fn push_order_is_sound(terms: Seq<OrderTerm>, st: Rewriting, n: nat)
    requires
        sound(st),
        window_plan::push_order(terms, st, n).1.columns.len() <= usize::MAX,
    ensures
        ({
            let (r, after) = window_plan::push_order(terms, st, n);
            &&& sound(after)
            &&& keeps(st, after)
            &&& after.functions == st.functions
            &&& r.len() == n
            &&& forall|i: int|
                0 <= i < n ==> window::is_source_column(
                    (#[trigger] r[i]).expr,
                    after.columns.len(),
                )
        }),
    decreases n,
{
    if n > 0 {
        let s1 = window_plan::push_order(terms, st, (n - 1) as nat).1;
        push_order_is_sound(terms, st, (n - 1) as nat);
        push_key_is_sound(terms[n - 1].expr, s1);
    }
}

proof fn columns_are_sound(
    columns: Seq<ResultSetColumn>,
    target: Expr,
    st: Rewriting,
    n: nat,
)
    requires
        sound(st),
        window_plan::rewrite_columns(columns, st, n).1.columns.len() <= usize::MAX,
    ensures
        ({
            let (r, after) = window_plan::rewrite_columns(columns, st, n);
            &&& sound(after)
            &&& keeps(st, after)
            &&& r.len() == n
            &&& left(after.functions, target) == 0 || left(after.functions, target) + columns_meet(
                columns,
                target,
                n,
            ) <= left(st.functions, target)
        }),
    decreases n,
{
    if n > 0 {
        let s1 = window_plan::rewrite_columns(columns, st, (n - 1) as nat).1;
        window_rewrite_laws::rewrite_grows(columns[n - 1].expr, s1);
        columns_are_sound(columns, target, st, (n - 1) as nat);
        rewriting_is_sound(columns[n - 1].expr, target, s1);
    }
}

proof fn terms_are_sound(terms: Seq<OrderTerm>, target: Expr, st: Rewriting, n: nat)
    requires
        sound(st),
        window_plan::rewrite_terms(terms, st, n).1.columns.len() <= usize::MAX,
    ensures
        ({
            let after = window_plan::rewrite_terms(terms, st, n).1;
            &&& sound(after)
            &&& keeps(st, after)
            &&& left(after.functions, target) == 0 || left(after.functions, target) + terms_meet(
                terms,
                target,
                n,
            ) <= left(st.functions, target)
        }),
    decreases n,
{
    if n > 0 {
        let s1 = window_plan::rewrite_terms(terms, st, (n - 1) as nat).1;
        window_rewrite_laws::rewrite_grows(terms[n - 1].expr, s1);
        terms_are_sound(terms, target, st, (n - 1) as nat);
        rewriting_is_sound(terms[n - 1].expr, target, s1);
    }
}

/// Whether code can be written for a window over a subquery with `count`
/// columns.
pub open spec fn ready(window: WindowModel, count: nat) -> bool {
    &&& window.name is Some
    &&& window.functions.len() > 0
    &&& forall|i: int|
        0 <= i < window.order_by.len() ==> window::is_source_column(
            (#[trigger] window.order_by[i]).expr,
            count,
        )
    &&& forall|i: int|
        0 <= i < window.functions.len() ==> window::function_ready(
            #[trigger] window.functions[i],
            count,
        )
    &&& match window.deduplicated_partition_by_len {
        Some(len) => 0 < len <= window.partition_by.len(),
        None => window.partition_by.len() == 0,
    }
}

proof fn function_is_ready(
    plan: PlanModel,
    window: WindowModel,
    depth: nat,
    id: TableId,
    i: int,
)
    requires
        awaits_planning(plan, window),
        all_aggregates(plan.aggregates),
        window_plan::split(plan, window, depth, id).subquery.columns.len() <= usize::MAX,
        0 <= i < window.functions.len(),
    ensures
        ({
            let s = window_plan::split(plan, window, depth, id);
            &&& s.window.functions.len() == window.functions.len()
            &&& window::function_ready(s.window.functions[i], s.subquery.columns.len())
            &&& all_aggregates(s.subquery.aggregates)
            &&& s.result_columns.len() == plan.result_columns.len()
            &&& s.window.partition_by.len() == window.partition_by.len()
            &&& window.partition_by.len() > 0 ==> {
                &&& s.window.deduplicated_partition_by_len matches Some(len) && 0 < len
                    <= window.partition_by.len()
            }
            &&& forall|j: int|
                0 <= j < s.window.order_by.len() ==> window::is_source_column(
                    (#[trigger] s.window.order_by[j]).expr,
                    s.subquery.columns.len(),
                )
        }),
{
    let s = window_plan::split(plan, window, depth, id);
    let target = window.functions[i].original_expr;
    let start = Rewriting {
        id,
        name: s.window.name->Some_0,
        columns: Seq::empty(),
        aggregates: plan.aggregates,
        functions: window.functions,
    };
    let s1 = window_plan::push_partition(
        window.partition_by,
        start,
        window.partition_by.len(),
    ).1;
    let (order, s2) = window_plan::push_order(window.order_by, s1, window.order_by.len());
    let s3 = window_plan::rewrite_columns(
        plan.result_columns,
        s2,
        plan.result_columns.len(),
    ).1;
    let s4 = window_plan::rewrite_terms(plan.order_by, s3, plan.order_by.len()).1;
    assert(s.subquery == s4);
    window_plan_laws::order_grows(window.order_by, s1, window.order_by.len());
    window_plan_laws::columns_grow(plan.result_columns, s2, plan.result_columns.len());
    window_plan_laws::terms_grow(plan.order_by, s3, plan.order_by.len());
    assert(sound(start));
    push_partition_is_sound(window.partition_by, start, window.partition_by.len());
    push_order_is_sound(window.order_by, s1, window.order_by.len());
    columns_are_sound(plan.result_columns, target, s2, plan.result_columns.len());
    terms_are_sound(plan.order_by, target, s3, plan.order_by.len());
    let f = s4.functions[i];
    assert(s3.functions[i].func == window.functions[i].func);
    assert(f.func == window.functions[i].func && f.original_expr == target);
    assert(takes_its_arguments(window.functions[i]));
    assert(rewritten_well(f, s4.columns.len()));
    assert(f.args() == call_args(f.call()));
    if f.rewritten is None && window::is_positional(f.func) {
        assert(holds_call(plan, window, target));
        none_pending(s4.functions, target, s4.functions.len());
        assert(left(s4.functions, target) == 0);
    }
    assert(order == s.window.order_by);
}

/// A query that holds the calls of a window leaves, split at that window, a
/// window that code can be written for.
pub proof fn split_window_is_ready(plan: PlanModel, window: WindowModel, depth: nat, id: TableId)
    requires
        awaits_planning(plan, window),
        all_aggregates(plan.aggregates),
        window_plan::split(plan, window, depth, id).subquery.columns.len() <= usize::MAX,
    ensures
        ({
            let s = window_plan::split(plan, window, depth, id);
            let inner = window_plan::inner_plan(plan, window, s);
            &&& ready(s.window, inner.result_columns.len())
            &&& all_aggregates(inner.aggregates)
            &&& s.result_columns.len() == plan.result_columns.len()
        }),
{
    let s = window_plan::split(plan, window, depth, id);
    let inner = window_plan::inner_plan(plan, window, s);
    assert(s.subquery.columns.len() <= inner.result_columns.len());
    function_is_ready(plan, window, depth, id, 0);
    assert forall|i: int| 0 <= i < s.window.functions.len() implies window::function_ready(
        #[trigger] s.window.functions[i],
        inner.result_columns.len(),
    ) by {
        function_is_ready(plan, window, depth, id, i);
        let args = s.window.functions[i].args();
        if window::is_positional(s.window.functions[i].func) {
            assert forall|j: int| 0 <= j < args.len() implies window::is_source_column(
                #[trigger] args[j],
                inner.result_columns.len(),
            ) by {
                assert(window::is_source_column(args[j], s.subquery.columns.len()));
            }
        }
    }
}

/// Whether each window is one that planning starts with when its turn comes.
pub open spec fn all_await_planning(
    plan: PlanModel,
    windows: Seq<WindowModel>,
    depth: nat,
    id: TableId,
) -> bool
    decreases windows.len(),
{
    windows.len() > 0 ==> {
        let s = window_plan::split(plan, windows[0], depth, id);
        &&& awaits_planning(plan, windows[0])
        &&& s.subquery.columns.len() <= usize::MAX
        &&& all_await_planning(
            window_plan::inner_plan(plan, windows[0], s),
            windows.skip(1),
            depth + 1,
            (id + 1) as u64,
        )
    }
}

/// Whether the window of every layer of a plan is planned for any code that
/// reads the columns of the layer below.
pub open spec fn all_planned(plan: SelectPlan) -> bool
    decreases plan,
{
    match plan.source {
        Source::WindowSubquery { plan: inner, .. } => {
            &&& plan.window matches Some(window) && forall|src: SourceSubquery|
                src.collations@.len() == inner.result_columns@.len() ==>
                    #[trigger] window_init::planned(window, src)
            &&& all_planned(*inner)
        },
        Source::Tables(_) => true,
    }
}

proof fn layers_are_planned(
    made: SelectPlan,
    plan: PlanModel,
    windows: Seq<WindowModel>,
    depth: nat,
    id: TableId,
)
    requires
        made.model() == window_plan::nested(plan, windows, depth, id),
        plan.source is Tables,
        all_aggregates(plan.aggregates),
        all_await_planning(plan, windows, depth, id),
    ensures
        all_planned(made),
        made.result_columns@.len() == plan.result_columns.len(),
    decreases windows.len(),
{
    if windows.len() > 0 {
        let s = window_plan::split(plan, windows[0], depth, id);
        let below = window_plan::inner_plan(plan, windows[0], s);
        split_window_is_ready(plan, windows[0], depth, id);
        match made.source {
            Source::WindowSubquery { plan: inner, .. } => {
                assert(inner.model() == window_plan::nested(
                    below,
                    windows.skip(1),
                    depth + 1,
                    (id + 1) as u64,
                ));
                layers_are_planned(
                    *inner,
                    below,
                    windows.skip(1),
                    depth + 1,
                    (id + 1) as u64,
                );
                let window = made.window->Some_0;
                assert(window.model() == s.window);
                assert forall|src: SourceSubquery|
                    src.collations@.len() == inner.result_columns@.len() implies
                    #[trigger] window_init::planned(window, src) by {
                    assert(ready(window.model(), src.collations@.len()));
                }
            },
            Source::Tables(_) => {},
        }
    }
}

/// Every window that planning leaves is planned: code for it can be set up over
/// the columns that the subquery below it yields.
pub proof fn planning_leaves_planned_windows(
    plan: SelectPlan,
    windows: Seq<Window>,
    id: TableId,
    made: SelectPlan,
)
    requires
        made.model() == window_plan::nested(
            plan.model(),
            window_plan::used(window_plan::models(windows)),
            0,
            id,
        ),
        plan.source is Tables,
        all_aggregates(plan.aggregates@),
        all_await_planning(
            plan.model(),
            window_plan::used(window_plan::models(windows)),
            0,
            id,
        ),
    ensures
        all_planned(made),
{
    layers_are_planned(
        made,
        plan.model(),
        window_plan::used(window_plan::models(windows)),
        0,
        id,
    );
}

} // verus!
