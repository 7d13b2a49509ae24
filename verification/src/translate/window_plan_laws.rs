//! What holds of the nested plans for a query with windows.

use vstd::prelude::*;
use crate::translate::expr::{Expr, ExprList, Over, TableId};
use crate::translate::window::OrderTerm;
use crate::translate::window_init::ResultSetColumn;
use crate::translate::window_plan;
use crate::translate::window_plan::{PlanModel, SourceModel, WindowModel};
use crate::translate::window_rewrite;
use crate::translate::window_rewrite::Rewriting;
use crate::translate::window_rewrite_laws;

verus! {

/// How many subqueries of windows stand inside each other.
pub open spec fn layers(plan: PlanModel) -> nat
    decreases plan,
{
    match plan.source {
        SourceModel::WindowSubquery { plan, .. } => 1 + layers(*plan),
        SourceModel::Tables(_) => 0,
    }
}

/// The plan that reads the tables.
pub open spec fn innermost(plan: PlanModel) -> PlanModel
    decreases plan,
{
    match plan.source {
        SourceModel::WindowSubquery { plan, .. } => innermost(*plan),
        SourceModel::Tables(_) => plan,
    }
}

/// There is one subquery for each window. FROM, WHERE and GROUP BY go to the
/// innermost plan, which has no window of its own and plans the subqueries in
/// expressions; LIMIT, OFFSET and DISTINCT stay with the outermost one.
pub proof fn clauses_go_to_their_layers(
    plan: PlanModel,
    windows: Seq<WindowModel>,
    depth: nat,
    id: TableId,
)
    requires
        plan.source is Tables,
        plan.window is None,
    ensures
        ({
            let n = window_plan::nested(plan, windows, depth, id);
            let inner = innermost(n);
            &&& layers(n) == windows.len()
            &&& inner.source == plan.source
            &&& inner.where_clause == plan.where_clause
            &&& inner.group_by == plan.group_by
            &&& inner.window is None
            &&& inner.plans_subqueries
            &&& n.limit == plan.limit
            &&& n.offset == plan.offset
            &&& n.distinct == plan.distinct
            &&& windows.len() > 0 ==> n.where_clause is None && n.group_by is None && n.window
                is Some && n.window->Some_0.frame == windows[0].frame
        }),
    decreases windows.len(),
{
    if windows.len() > 0 {
        let s = window_plan::split(plan, windows[0], depth, id);
        clauses_go_to_their_layers(
            window_plan::inner_plan(plan, windows[0], s),
            windows.skip(1),
            depth + 1,
            (id + 1) as u64,
        );
    }
}

/// Whether the calls over a window are ones that planning starts with.
pub open spec fn unplanned(window: WindowModel) -> bool {
    forall|i: int|
        0 <= i < window.functions.len() ==> {
            let f = #[trigger] window.functions[i];
            &&& f.rewritten is None
            &&& f.original_expr matches Expr::FunctionCall {
                order_by,
                within_group,
                over_clause,
                ..
            } && order_by == ExprList::Nil && within_group == ExprList::Nil && over_clause
                != Over::Absent
        }
}

/// Whether an expression reads the subquery only, and is `original` with the
/// subquery's columns put in.
pub open spec fn stands_for(expr: Expr, original: Expr, st: Rewriting) -> bool {
    &&& window_rewrite_laws::reads_only(expr, st.id, st.columns.len())
    &&& window_rewrite_laws::alike(
        window_rewrite_laws::subst(expr, st.id, st.columns),
        original,
    )
}

proof fn stands_for_later(expr: Expr, original: Expr, earlier: Rewriting, later: Rewriting)
    requires
        stands_for(expr, original, earlier),
        window_rewrite_laws::continues(earlier, later),
    ensures
        stands_for(expr, original, later),
{
    window_rewrite_laws::subst_extends(
        expr,
        earlier.id,
        earlier.columns.len(),
        earlier.columns,
        later.columns,
    );
}

proof fn push_key_restores(expr: Expr, st: Rewriting)
    requires
        window_rewrite_laws::consistent(st),
        window_plan::push_key(expr, st).1.columns.len() <= usize::MAX,
    ensures
        ({
            let (r, after) = window_plan::push_key(expr, st);
            &&& window_rewrite_laws::consistent(after)
            &&& window_rewrite_laws::continues(st, after)
            &&& stands_for(r, expr, after)
        }),
{
    let (aggregates, found) = window_rewrite::add_aggregates(expr, st.aggregates);
    window_rewrite_laws::push_down_restores(expr, Rewriting { aggregates, ..st }, found);
    window_rewrite_laws::alike_itself(expr);
}

proof fn push_partition_restores(exprs: Seq<Expr>, st: Rewriting, n: nat)
    requires
        window_rewrite_laws::consistent(st),
        window_plan::push_partition(exprs, st, n).1.columns.len() <= usize::MAX,
        n <= exprs.len(),
    ensures
        ({
            let (r, after) = window_plan::push_partition(exprs, st, n);
            &&& window_rewrite_laws::consistent(after)
            &&& window_rewrite_laws::continues(st, after)
            &&& r.len() == n
            &&& forall|i: int| 0 <= i < n ==> stands_for(#[trigger] r[i], exprs[i], after)
        }),
    decreases n,
{
    if n > 0 {
        let (r, s1) = window_plan::push_partition(exprs, st, (n - 1) as nat);
        let (e, s2) = window_plan::push_key(exprs[n - 1], s1);
        push_partition_restores(exprs, st, (n - 1) as nat);
        push_key_restores(exprs[n - 1], s1);
        assert forall|i: int| 0 <= i < n implies stands_for(
            #[trigger] r.push(e)[i],
            exprs[i],
            s2,
        ) by {
            if i < n - 1 {
                stands_for_later(r[i], exprs[i], s1, s2);
            }
        }
    }
}

proof fn push_order_restores(terms: Seq<OrderTerm>, st: Rewriting, n: nat)
    requires
        window_rewrite_laws::consistent(st),
        window_plan::push_order(terms, st, n).1.columns.len() <= usize::MAX,
        n <= terms.len(),
    ensures
        ({
            let (r, after) = window_plan::push_order(terms, st, n);
            &&& window_rewrite_laws::consistent(after)
            &&& window_rewrite_laws::continues(st, after)
            &&& r.len() == n
            &&& forall|i: int|
                0 <= i < n ==> stands_for((#[trigger] r[i]).expr, terms[i].expr, after)
        }),
    decreases n,
{
    if n > 0 {
        let (r, s1) = window_plan::push_order(terms, st, (n - 1) as nat);
        let (e, s2) = window_plan::push_key(terms[n - 1].expr, s1);
        push_order_restores(terms, st, (n - 1) as nat);
        push_key_restores(terms[n - 1].expr, s1);
        let term = OrderTerm { expr: e, ..terms[n - 1] };
        assert forall|i: int| 0 <= i < n implies stands_for(
            (#[trigger] r.push(term)[i]).expr,
            terms[i].expr,
            s2,
        ) by {
            if i < n - 1 {
                stands_for_later(r[i].expr, terms[i].expr, s1, s2);
            }
        }
    }
}

proof fn rewrite_columns_restores(columns: Seq<ResultSetColumn>, st: Rewriting, n: nat)
    requires
        window_rewrite_laws::consistent(st),
        window_plan::rewrite_columns(columns, st, n).1.columns.len() <= usize::MAX,
        n <= columns.len(),
    ensures
        ({
            let (r, after) = window_plan::rewrite_columns(columns, st, n);
            &&& window_rewrite_laws::consistent(after)
            &&& window_rewrite_laws::continues(st, after)
            &&& r.len() == n
            &&& forall|i: int|
                0 <= i < n ==> stands_for((#[trigger] r[i]).expr, columns[i].expr, after)
        }),
    decreases n,
{
    if n > 0 {
        let (r, s1) = window_plan::rewrite_columns(columns, st, (n - 1) as nat);
        let (e, s2) = window_rewrite::rewrite(columns[n - 1].expr, s1);
        window_rewrite_laws::rewrite_grows(columns[n - 1].expr, s1);
        rewrite_columns_restores(columns, st, (n - 1) as nat);
        window_rewrite_laws::rewriting_restores(columns[n - 1].expr, s1);
        let column = ResultSetColumn { expr: e, ..columns[n - 1] };
        assert forall|i: int| 0 <= i < n implies stands_for(
            (#[trigger] r.push(column)[i]).expr,
            columns[i].expr,
            s2,
        ) by {
            if i < n - 1 {
                stands_for_later(r[i].expr, columns[i].expr, s1, s2);
            }
        }
    }
}

proof fn rewrite_terms_restores(terms: Seq<OrderTerm>, st: Rewriting, n: nat)
    requires
        window_rewrite_laws::consistent(st),
        window_plan::rewrite_terms(terms, st, n).1.columns.len() <= usize::MAX,
        n <= terms.len(),
    ensures
        ({
            let (r, after) = window_plan::rewrite_terms(terms, st, n);
            &&& window_rewrite_laws::consistent(after)
            &&& window_rewrite_laws::continues(st, after)
            &&& r.len() == n
            &&& forall|i: int|
                0 <= i < n ==> stands_for((#[trigger] r[i]).expr, terms[i].expr, after)
        }),
    decreases n,
{
    if n > 0 {
        let (r, s1) = window_plan::rewrite_terms(terms, st, (n - 1) as nat);
        let (e, s2) = window_rewrite::rewrite(terms[n - 1].expr, s1);
        window_rewrite_laws::rewrite_grows(terms[n - 1].expr, s1);
        rewrite_terms_restores(terms, st, (n - 1) as nat);
        window_rewrite_laws::rewriting_restores(terms[n - 1].expr, s1);
        let term = OrderTerm { expr: e, ..terms[n - 1] };
        assert forall|i: int| 0 <= i < n implies stands_for(
            (#[trigger] r.push(term)[i]).expr,
            terms[i].expr,
            s2,
        ) by {
            if i < n - 1 {
                stands_for_later(r[i].expr, terms[i].expr, s1, s2);
            }
        }
    }
}

pub(crate) proof fn columns_grow(columns: Seq<ResultSetColumn>, st: Rewriting, n: nat)
    ensures
        st.columns.len() <= window_plan::rewrite_columns(columns, st, n).1.columns.len(),
    decreases n,
{
    if n > 0 {
        columns_grow(columns, st, (n - 1) as nat);
        let s = window_plan::rewrite_columns(columns, st, (n - 1) as nat).1;
        window_rewrite_laws::rewrite_grows(columns[n - 1].expr, s);
    }
}

pub(crate) proof fn terms_grow(terms: Seq<OrderTerm>, st: Rewriting, n: nat)
    ensures
        st.columns.len() <= window_plan::rewrite_terms(terms, st, n).1.columns.len(),
    decreases n,
{
    if n > 0 {
        terms_grow(terms, st, (n - 1) as nat);
        let s = window_plan::rewrite_terms(terms, st, (n - 1) as nat).1;
        window_rewrite_laws::rewrite_grows(terms[n - 1].expr, s);
    }
}

pub(crate) proof fn order_grows(terms: Seq<OrderTerm>, st: Rewriting, n: nat)
    ensures
        st.columns.len() <= window_plan::push_order(terms, st, n).1.columns.len(),
    decreases n,
{
    if n > 0 {
        order_grows(terms, st, (n - 1) as nat);
    }
}

/// A query that has been split at a window means what it meant: every column
/// of its result, every term of its ORDER BY, and every key of the window
/// reads the subquery only, and is what it was with the subquery's columns put
/// in place of the references.
pub proof fn split_restores(plan: PlanModel, window: WindowModel, depth: nat, id: TableId)
    requires
        unplanned(window),
        window_plan::split(plan, window, depth, id).subquery.columns.len() <= usize::MAX,
    ensures
        ({
            let s = window_plan::split(plan, window, depth, id);
            &&& s.result_columns.len() == plan.result_columns.len()
            &&& s.order_by.len() == plan.order_by.len()
            &&& s.window.partition_by.len() == window.partition_by.len()
            &&& s.window.order_by.len() == window.order_by.len()
            &&& forall|i: int|
                0 <= i < s.result_columns.len() ==> stands_for(
                    (#[trigger] s.result_columns[i]).expr,
                    plan.result_columns[i].expr,
                    s.subquery,
                )
            &&& forall|i: int|
                0 <= i < s.order_by.len() ==> stands_for(
                    (#[trigger] s.order_by[i]).expr,
                    plan.order_by[i].expr,
                    s.subquery,
                )
            &&& forall|i: int|
                0 <= i < s.window.partition_by.len() ==> stands_for(
                    #[trigger] s.window.partition_by[i],
                    window.partition_by[i],
                    s.subquery,
                )
            &&& forall|i: int|
                0 <= i < s.window.order_by.len() ==> stands_for(
                    (#[trigger] s.window.order_by[i]).expr,
                    window.order_by[i].expr,
                    s.subquery,
                )
        }),
{
    let s = window_plan::split(plan, window, depth, id);
    let start = Rewriting {
        id,
        name: s.subquery.name,
        columns: Seq::empty(),
        aggregates: plan.aggregates,
        functions: window.functions,
    };
    let start = Rewriting { name: s.window.name->Some_0, ..start };
    let (p, s1) = window_plan::push_partition(
        window.partition_by,
        start,
        window.partition_by.len(),
    );
    let (o, s2) = window_plan::push_order(window.order_by, s1, window.order_by.len());
    let (c, s3) = window_plan::rewrite_columns(
        plan.result_columns,
        s2,
        plan.result_columns.len(),
    );
    let (t, s4) = window_plan::rewrite_terms(plan.order_by, s3, plan.order_by.len());
    assert(s.subquery == s4);
    order_grows(window.order_by, s1, window.order_by.len());
    columns_grow(plan.result_columns, s2, plan.result_columns.len());
    terms_grow(plan.order_by, s3, plan.order_by.len());
    push_partition_restores(window.partition_by, start, window.partition_by.len());
    push_order_restores(window.order_by, s1, window.order_by.len());
    rewrite_columns_restores(plan.result_columns, s2, plan.result_columns.len());
    rewrite_terms_restores(plan.order_by, s3, plan.order_by.len());
    assert forall|i: int| 0 <= i < c.len() implies stands_for(
        (#[trigger] c[i]).expr,
        plan.result_columns[i].expr,
        s4,
    ) by {
        stands_for_later(c[i].expr, plan.result_columns[i].expr, s3, s4);
    }
    assert forall|i: int| 0 <= i < o.len() implies stands_for(
        (#[trigger] o[i]).expr,
        window.order_by[i].expr,
        s4,
    ) by {
        stands_for_later(o[i].expr, window.order_by[i].expr, s2, s3);
        stands_for_later(o[i].expr, window.order_by[i].expr, s3, s4);
    }
    assert forall|i: int| 0 <= i < p.len() implies stands_for(
        #[trigger] p[i],
        window.partition_by[i],
        s4,
    ) by {
        stands_for_later(p[i], window.partition_by[i], s1, s2);
        stands_for_later(p[i], window.partition_by[i], s2, s3);
        stands_for_later(p[i], window.partition_by[i], s3, s4);
    }
}

/// No expression stands twice in the ORDER BY of a subquery.
pub proof fn subquery_order_has_no_repetitions(exprs: Seq<Expr>, terms: Seq<OrderTerm>, n: nat)
    requires
        n <= terms.len(),
    ensures
        ({
            let order = window_plan::window_order(exprs, terms, n);
            forall|i: int, j: int| 0 <= i < j < order.len() ==> order[i].expr != order[j].expr
        }),
    decreases n,
{
    if n > 0 {
        subquery_order_has_no_repetitions(exprs, terms, (n - 1) as nat);
        let before = window_plan::window_order(exprs, terms, (n - 1) as nat);
        adding_keeps_apart(before, terms[n - 1]);
    } else {
        partition_order_has_no_repetitions(exprs, exprs.len());
    }
}

proof fn partition_order_has_no_repetitions(exprs: Seq<Expr>, n: nat)
    requires
        n <= exprs.len(),
    ensures
        ({
            let order = window_plan::partition_order(exprs, n);
            forall|i: int, j: int| 0 <= i < j < order.len() ==> order[i].expr != order[j].expr
        }),
    decreases n,
{
    if n > 0 {
        partition_order_has_no_repetitions(exprs, (n - 1) as nat);
        let before = window_plan::partition_order(exprs, (n - 1) as nat);
        adding_keeps_apart(
            before,
            OrderTerm {
                expr: exprs[n - 1],
                order: crate::translate::program::SortOrder::Asc,
                nulls: None,
            },
        );
    }
}

proof fn adding_keeps_apart(terms: Seq<OrderTerm>, term: OrderTerm)
    requires
        forall|i: int, j: int| 0 <= i < j < terms.len() ==> terms[i].expr != terms[j].expr,
    ensures
        ({
            let more = window_plan::add_term(terms, term);
            forall|i: int, j: int| 0 <= i < j < more.len() ==> more[i].expr != more[j].expr
        }),
{
    if !window_plan::has_term(terms, term.expr) {
        assert forall|i: int| 0 <= i < terms.len() implies terms[i].expr != term.expr by {};
    }
}

} // verus!
