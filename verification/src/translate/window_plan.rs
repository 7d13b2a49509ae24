//! Plans for queries with windows.
//!
//! A query may use several windows, but a plan works on one. The query is
//! rewritten into nested subqueries, each bound to one window: the first
//! declared window is the outermost one. Each subquery yields its rows in the
//! order that the window above it wants. The innermost one has no window; it
//! gets the FROM, WHERE, GROUP BY and HAVING of the query, while ORDER BY,
//! LIMIT and OFFSET stay outermost.

use vstd::prelude::*;
use crate::text;
use crate::text::{join2, print_u64};
use crate::translate::expr::{Expr, LITERAL_ZERO, TableId, WindowName, exprs_are_equivalent};
use crate::translate::program::{NullsOrder, SortOrder};
use crate::translate::window::{Frame, OrderTerm, Window, WindowFunction};
use crate::translate::window_init::ResultSetColumn;
use crate::translate::window_rewrite;
use crate::translate::window_rewrite::{Rewriter, Rewriting, collect_aggregates};

verus! {

/// What a plan reads.
pub enum Source {
    /// The tables of a FROM clause.
    Tables(u64),
    /// The subquery of a window, with the depth that it was made at.
    WindowSubquery { id: TableId, depth: usize, plan: Box<SelectPlan> },
}

/// A plan for a SELECT. Clauses that window planning only hands on are
/// interned.
pub struct SelectPlan {
    pub source: Source,
    pub where_clause: Option<u64>,
    pub group_by: Option<u64>,
    pub result_columns: Vec<ResultSetColumn>,
    pub order_by: Vec<OrderTerm>,
    pub aggregates: Vec<Expr>,
    pub limit: Option<u64>,
    pub offset: Option<u64>,
    pub distinct: bool,
    /// Whether the rows come from a VALUES clause.
    pub has_values: bool,
    pub window: Option<Window>,
    /// Whether the subqueries in expressions are to be planned here.
    pub plans_subqueries: bool,
}

/// A window as a value.
pub struct WindowModel {
    pub name: Option<WindowName>,
    pub partition_by: Seq<Expr>,
    pub deduplicated_partition_by_len: Option<usize>,
    pub order_by: Seq<OrderTerm>,
    pub frame: Frame,
    pub functions: Seq<WindowFunction>,
}

/// What a plan reads, as a value.
pub enum SourceModel {
    Tables(u64),
    WindowSubquery { id: TableId, depth: usize, plan: Box<PlanModel> },
}

/// A plan as a value.
pub struct PlanModel {
    pub source: SourceModel,
    pub where_clause: Option<u64>,
    pub group_by: Option<u64>,
    pub result_columns: Seq<ResultSetColumn>,
    pub order_by: Seq<OrderTerm>,
    pub aggregates: Seq<Expr>,
    pub limit: Option<u64>,
    pub offset: Option<u64>,
    pub distinct: bool,
    pub has_values: bool,
    pub window: Option<WindowModel>,
    pub plans_subqueries: bool,
}

impl Window {
    pub open spec fn model(&self) -> WindowModel {
        WindowModel {
            name: self.name,
            partition_by: self.partition_by@,
            deduplicated_partition_by_len: self.deduplicated_partition_by_len,
            order_by: self.order_by@,
            frame: self.frame,
            functions: self.functions@,
        }
    }
}

impl Source {
    pub open spec fn model(&self) -> SourceModel
        decreases self,
    {
        match self {
            Source::Tables(tables) => SourceModel::Tables(*tables),
            Source::WindowSubquery { id, depth, plan } => SourceModel::WindowSubquery {
                id: *id,
                depth: *depth,
                plan: Box::new(plan.model()),
            },
        }
    }
}

impl SelectPlan {
    pub open spec fn model(&self) -> PlanModel
        decreases self,
    {
        PlanModel {
            source: self.source.model(),
            where_clause: self.where_clause,
            group_by: self.group_by,
            result_columns: self.result_columns@,
            order_by: self.order_by@,
            aggregates: self.aggregates@,
            limit: self.limit,
            offset: self.offset,
            distinct: self.distinct,
            has_values: self.has_values,
            window: match self.window {
                Some(window) => Some(window.model()),
                None => None,
            },
            plans_subqueries: self.plans_subqueries,
        }
    }
}

pub open spec fn models(windows: Seq<Window>) -> Seq<WindowModel> {
    windows.map_values(|w: Window| w.model())
}

/// Whether some term of an ORDER BY is `expr`.
pub open spec fn has_term(terms: Seq<OrderTerm>, expr: Expr) -> bool {
    exists|i: int| 0 <= i < terms.len() && (#[trigger] terms[i]).expr == expr
}

/// The terms of a subquery's ORDER BY, with one more unless it is there.
pub open spec fn add_term(terms: Seq<OrderTerm>, term: OrderTerm) -> Seq<OrderTerm> {
    if has_term(terms, term.expr) {
        terms
    } else {
        terms.push(term)
    }
}

/// Makes a key of the window a column of the subquery.
pub open spec fn push_key(expr: Expr, st: Rewriting) -> (Expr, Rewriting) {
    let (aggregates, found) = window_rewrite::add_aggregates(expr, st.aggregates);
    window_rewrite::push_down(expr, Rewriting { aggregates, ..st }, found)
}

/// The first `n` terms of the PARTITION BY, read from the subquery.
pub open spec fn push_partition(exprs: Seq<Expr>, st: Rewriting, n: nat) -> (Seq<Expr>, Rewriting)
    decreases n,
{
    if n == 0 {
        (Seq::empty(), st)
    } else {
        let (done, s1) = push_partition(exprs, st, (n - 1) as nat);
        let (e, s2) = push_key(exprs[n - 1], s1);
        (done.push(e), s2)
    }
}

/// The first `n` terms of the window's ORDER BY, read from the subquery.
pub open spec fn push_order(terms: Seq<OrderTerm>, st: Rewriting, n: nat) -> (
    Seq<OrderTerm>,
    Rewriting,
)
    decreases n,
{
    if n == 0 {
        (Seq::empty(), st)
    } else {
        let (done, s1) = push_order(terms, st, (n - 1) as nat);
        let (e, s2) = push_key(terms[n - 1].expr, s1);
        (done.push(OrderTerm { expr: e, ..terms[n - 1] }), s2)
    }
}

/// The ORDER BY of the subquery: the first `n` terms of the PARTITION BY,
/// without repetitions.
pub open spec fn partition_order(exprs: Seq<Expr>, n: nat) -> Seq<OrderTerm>
    decreases n,
{
    if n == 0 {
        Seq::empty()
    } else {
        add_term(
            partition_order(exprs, (n - 1) as nat),
            OrderTerm { expr: exprs[n - 1], order: SortOrder::Asc, nulls: None },
        )
    }
}

/// The ORDER BY of the subquery: the PARTITION BY and then the first `n`
/// terms of the window's ORDER BY, without repetitions.
pub open spec fn window_order(exprs: Seq<Expr>, terms: Seq<OrderTerm>, n: nat) -> Seq<OrderTerm>
    decreases n,
{
    if n == 0 {
        partition_order(exprs, exprs.len())
    } else {
        add_term(window_order(exprs, terms, (n - 1) as nat), terms[n - 1])
    }
}

/// The first `n` columns of the outer query, read from the subquery.
pub open spec fn rewrite_columns(columns: Seq<ResultSetColumn>, st: Rewriting, n: nat) -> (
    Seq<ResultSetColumn>,
    Rewriting,
)
    decreases n,
{
    if n == 0 {
        (Seq::empty(), st)
    } else {
        let (done, s1) = rewrite_columns(columns, st, (n - 1) as nat);
        let (expr, s2) = window_rewrite::rewrite(columns[n - 1].expr, s1);
        (done.push(ResultSetColumn { expr, ..columns[n - 1] }), s2)
    }
}

/// The first `n` terms of the outer ORDER BY, read from the subquery.
pub open spec fn rewrite_terms(terms: Seq<OrderTerm>, st: Rewriting, n: nat) -> (
    Seq<OrderTerm>,
    Rewriting,
)
    decreases n,
{
    if n == 0 {
        (Seq::empty(), st)
    } else {
        let (done, s1) = rewrite_terms(terms, st, (n - 1) as nat);
        let (expr, s2) = window_rewrite::rewrite(terms[n - 1].expr, s1);
        (done.push(OrderTerm { expr, ..terms[n - 1] }), s2)
    }
}

/// A window and a query split in two: the window and the query as they stand
/// outside, and what the subquery is to yield.
pub struct Split {
    pub window: WindowModel,
    pub result_columns: Seq<ResultSetColumn>,
    pub order_by: Seq<OrderTerm>,
    pub subquery: Rewriting,
}

/// Splits a query at its first window.
pub open spec fn split(plan: PlanModel, window: WindowModel, depth: nat, id: TableId) -> Split {
    let name = match window.name {
        Some(name) => name,
        None => WindowName::Numbered(depth as usize),
    };
    let start = Rewriting {
        id,
        name,
        columns: Seq::empty(),
        aggregates: plan.aggregates,
        functions: window.functions,
    };
    let (partition_by, s1) = push_partition(
        window.partition_by,
        start,
        window.partition_by.len(),
    );
    let (order, s2) = push_order(window.order_by, s1, window.order_by.len());
    let (result_columns, s3) = rewrite_columns(
        plan.result_columns,
        s2,
        plan.result_columns.len(),
    );
    let (order_by, s4) = rewrite_terms(plan.order_by, s3, plan.order_by.len());
    Split {
        window: WindowModel {
            name: Some(name),
            partition_by,
            deduplicated_partition_by_len: if window.partition_by.len() > 0 {
                Some(s1.columns.len() as usize)
            } else {
                window.deduplicated_partition_by_len
            },
            order_by: order,
            frame: window.frame,
            functions: s4.functions,
        },
        result_columns,
        order_by,
        subquery: s4,
    }
}

/// The columns of a subquery. One that nothing is read from yields a constant.
pub open spec fn subquery_columns(columns: Seq<ResultSetColumn>) -> Seq<ResultSetColumn> {
    if columns.len() == 0 {
        seq![
            ResultSetColumn { expr: Expr::Literal(LITERAL_ZERO), contains_aggregates: false },
        ]
    } else {
        columns
    }
}

/// The plan of the subquery under a window, before the windows below it.
pub open spec fn inner_plan(plan: PlanModel, window: WindowModel, split: Split) -> PlanModel {
    PlanModel {
        source: plan.source,
        where_clause: plan.where_clause,
        group_by: plan.group_by,
        result_columns: subquery_columns(split.subquery.columns),
        order_by: window_order(window.partition_by, window.order_by, window.order_by.len()),
        aggregates: split.subquery.aggregates,
        limit: None,
        offset: None,
        distinct: false,
        has_values: false,
        window: None,
        plans_subqueries: false,
    }
}

/// The nested plans for a query with the given windows.
pub open spec fn nested(plan: PlanModel, windows: Seq<WindowModel>, depth: nat, id: TableId) -> PlanModel
    decreases windows.len(),
{
    if windows.len() == 0 {
        PlanModel { plans_subqueries: true, ..plan }
    } else {
        let s = split(plan, windows[0], depth, id);
        PlanModel {
            source: SourceModel::WindowSubquery {
                id,
                depth: depth as usize,
                plan: Box::new(
                    nested(
                        inner_plan(plan, windows[0], s),
                        windows.skip(1),
                        depth + 1,
                        (id + 1) as u64,
                    ),
                ),
            },
            where_clause: None,
            group_by: None,
            result_columns: s.result_columns,
            order_by: s.order_by,
            aggregates: Seq::empty(),
            window: Some(s.window),
            ..plan
        }
    }
}

/// The windows that some function is called over.
pub open spec fn used(windows: Seq<WindowModel>) -> Seq<WindowModel> {
    windows.filter(|w: WindowModel| w.functions.len() > 0)
}

fn find_term(terms: &Vec<OrderTerm>, expr: &Expr) -> (r: bool)
    ensures
        r == has_term(terms@, *expr),
{
    let mut i: usize = 0;
    while i < terms.len()
        invariant
            i <= terms@.len(),
            forall|j: int| 0 <= j < i ==> (#[trigger] terms@[j]).expr != *expr,
        decreases terms@.len() - i,
    {
        if exprs_are_equivalent(&terms[i].expr, expr) {
            assert(terms@[i as int].expr == *expr);
            return true;
        }
        i = i + 1;
    }
    false
}

/// Adds a key of the window to the ORDER BY of the subquery, unless it is
/// there, and makes it a column of the subquery.
fn append_order_by(
    expr: Expr,
    order: SortOrder,
    nulls: Option<NullsOrder>,
    rewriter: &mut Rewriter,
    subquery_order_by: &mut Vec<OrderTerm>,
) -> (r: Expr)
    ensures
        final(subquery_order_by)@ == add_term(
            old(subquery_order_by)@,
            (OrderTerm { expr, order, nulls }),
        ),
        (r, final(rewriter)@) == push_key(expr, old(rewriter)@),
{
    if !find_term(subquery_order_by, &expr) {
        subquery_order_by.push(OrderTerm { expr: expr.copy(), order, nulls });
    }
    let contains_aggregates: bool = collect_aggregates(&expr, &mut rewriter.aggregates);
    rewriter.rewrite_expr_as_subquery_column(expr, contains_aggregates)
}

fn append_partition(
    exprs: Vec<Expr>,
    rewriter: &mut Rewriter,
    subquery_order_by: &mut Vec<OrderTerm>,
) -> (r: Vec<Expr>)
    requires
        old(subquery_order_by)@.len() == 0,
    ensures
        (r@, final(rewriter)@) == push_partition(exprs@, old(rewriter)@, exprs@.len()),
        final(subquery_order_by)@ == partition_order(exprs@, exprs@.len()),
{
    let mut r: Vec<Expr> = Vec::new();
    let mut i: usize = 0;
    assert(subquery_order_by@ =~= Seq::<OrderTerm>::empty());
    while i < exprs.len()
        invariant
            i <= exprs@.len(),
            (r@, rewriter@) == push_partition(exprs@, old(rewriter)@, i as nat),
            subquery_order_by@ == partition_order(exprs@, i as nat),
        decreases exprs@.len() - i,
    {
        let e = append_order_by(
            exprs[i].copy(),
            SortOrder::Asc,
            None,
            rewriter,
            subquery_order_by,
        );
        r.push(e);
        i = i + 1;
    }
    r
}

fn append_order(
    exprs: Ghost<Seq<Expr>>,
    terms: Vec<OrderTerm>,
    rewriter: &mut Rewriter,
    subquery_order_by: &mut Vec<OrderTerm>,
) -> (r: Vec<OrderTerm>)
    requires
        old(subquery_order_by)@ == partition_order(exprs@, exprs@.len()),
    ensures
        (r@, final(rewriter)@) == push_order(terms@, old(rewriter)@, terms@.len()),
        final(subquery_order_by)@ == window_order(exprs@, terms@, terms@.len()),
{
    let mut r: Vec<OrderTerm> = Vec::new();
    let mut i: usize = 0;
    while i < terms.len()
        invariant
            i <= terms@.len(),
            (r@, rewriter@) == push_order(terms@, old(rewriter)@, i as nat),
            subquery_order_by@ == window_order(exprs@, terms@, i as nat),
        decreases terms@.len() - i,
    {
        let order = terms[i].order;
        let nulls = terms[i].nulls;
        let e = append_order_by(terms[i].expr.copy(), order, nulls, rewriter, subquery_order_by);
        r.push(OrderTerm { expr: e, order, nulls });
        i = i + 1;
    }
    r
}

fn rewrite_result_columns(columns: Vec<ResultSetColumn>, rewriter: &mut Rewriter) -> (r: Vec<
    ResultSetColumn,
>)
    ensures
        (r@, final(rewriter)@) == rewrite_columns(columns@, old(rewriter)@, columns@.len()),
{
    let mut r: Vec<ResultSetColumn> = Vec::new();
    let mut i: usize = 0;
    while i < columns.len()
        invariant
            i <= columns@.len(),
            (r@, rewriter@) == rewrite_columns(columns@, old(rewriter)@, i as nat),
        decreases columns@.len() - i,
    {
        let expr = rewriter.rewrite_terminal_expr(columns[i].expr.copy());
        r.push(ResultSetColumn { expr, contains_aggregates: columns[i].contains_aggregates });
        i = i + 1;
    }
    r
}

fn rewrite_order_by(terms: Vec<OrderTerm>, rewriter: &mut Rewriter) -> (r: Vec<OrderTerm>)
    ensures
        (r@, final(rewriter)@) == rewrite_terms(terms@, old(rewriter)@, terms@.len()),
{
    let mut r: Vec<OrderTerm> = Vec::new();
    let mut i: usize = 0;
    while i < terms.len()
        invariant
            i <= terms@.len(),
            (r@, rewriter@) == rewrite_terms(terms@, old(rewriter)@, i as nat),
        decreases terms@.len() - i,
    {
        let expr = rewriter.rewrite_terminal_expr(terms[i].expr.copy());
        r.push(OrderTerm { expr, order: terms[i].order, nulls: terms[i].nulls });
        i = i + 1;
    }
    r
}

/// Splits a query at its first window, and the subquery at the other ones.
fn prepare_window_subquery(
    plan: SelectPlan,
    windows: Vec<Window>,
    depth: usize,
    next_table: TableId,
) -> (r: SelectPlan)
    requires
        depth + windows@.len() <= usize::MAX,
        next_table + windows@.len() <= u64::MAX,
    ensures
        r.model() == nested(plan.model(), models(windows@), depth as nat, next_table),
    decreases windows@.len(),
{
    let mut windows = windows;
    if windows.len() == 0 {
        let mut plan = plan;
        plan.plans_subqueries = true;
        return plan;
    }
    let ghost all = models(windows@);
    let ghost whole = plan.model();
    let current = windows.remove(0);
    assert(models(windows@) =~= all.skip(1));
    assert(current.model() == all[0]);
    let name: WindowName = match current.name {
        Some(name) => name,
        None => WindowName::Numbered(depth),
    };
    let mut rewriter = Rewriter {
        id: next_table,
        name,
        columns: Vec::new(),
        aggregates: plan.aggregates,
        functions: current.functions,
    };
    assert(rewriter.columns@ =~= Seq::<ResultSetColumn>::empty());
    let mut subquery_order_by: Vec<OrderTerm> = Vec::new();
    let had_partition: bool = current.partition_by.len() > 0;
    let ghost exprs = current.partition_by@;
    let partition_by = append_partition(current.partition_by, &mut rewriter, &mut subquery_order_by);
    let deduplicated_partition_by_len: Option<usize> = if had_partition {
        Some(rewriter.columns.len())
    } else {
        current.deduplicated_partition_by_len
    };
    let order = append_order(
        Ghost(exprs),
        current.order_by,
        &mut rewriter,
        &mut subquery_order_by,
    );
    let result_columns = rewrite_result_columns(plan.result_columns, &mut rewriter);
    let order_by = rewrite_order_by(plan.order_by, &mut rewriter);
    let mut subquery_result_columns = rewriter.columns;
    if subquery_result_columns.len() == 0 {
        subquery_result_columns.push(
            ResultSetColumn { expr: Expr::Literal(LITERAL_ZERO), contains_aggregates: false },
        );
        assert(subquery_result_columns@ =~= subquery_columns(Seq::empty()));
    }
    let inner = SelectPlan {
        source: plan.source,
        where_clause: plan.where_clause,
        group_by: plan.group_by,
        result_columns: subquery_result_columns,
        order_by: subquery_order_by,
        aggregates: rewriter.aggregates,
        limit: None,
        offset: None,
        distinct: false,
        has_values: false,
        window: None,
        plans_subqueries: false,
    };
    let window = Window {
        name: Some(name),
        partition_by,
        deduplicated_partition_by_len,
        order_by: order,
        frame: current.frame,
        functions: rewriter.functions,
    };
    proof {
        let s = split(whole, all[0], depth as nat, next_table);
        assert(window.model() == s.window);
        assert(inner.model() == inner_plan(whole, all[0], s));
    }
    let subquery = prepare_window_subquery(inner, windows, depth + 1, next_table + 1);
    let aggregates: Vec<Expr> = Vec::new();
    assert(aggregates@ =~= Seq::<Expr>::empty());
    SelectPlan {
        source: Source::WindowSubquery { id: next_table, depth, plan: Box::new(subquery) },
        where_clause: None,
        group_by: None,
        result_columns,
        order_by,
        aggregates,
        limit: plan.limit,
        offset: plan.offset,
        distinct: plan.distinct,
        has_values: plan.has_values,
        window: Some(window),
        plans_subqueries: plan.plans_subqueries,
    }
}

/// Rewrites a plan for a query with windows into nested plans with one window
/// each. Windows that no function is called over are left out. The subqueries
/// are numbered from `next_table` on.
pub fn plan_windows(plan: SelectPlan, windows: Vec<Window>, next_table: TableId) -> (r: SelectPlan)
    requires
        next_table + windows@.len() <= u64::MAX,
        used(models(windows@)).len() > 0 ==> !plan.has_values,
    ensures
        r.model() == nested(plan.model(), used(models(windows@)), 0, next_table),
{
    let ghost all = models(windows@);
    let total: usize = windows.len();
    let mut rest = windows;
    let mut kept: Vec<Window> = Vec::new();
    let ghost mut done: Seq<WindowModel> = Seq::empty();
    proof {
        assert(done + models(rest@) =~= all);
        assert(models(kept@) =~= used(done)) by {
            reveal(Seq::filter);
        }
    }
    while rest.len() > 0
        invariant
            done + models(rest@) == all,
            models(kept@) == used(done),
            kept@.len() <= done.len(),
            all.len() == total,
        decreases rest@.len(),
    {
        let ghost before = rest@;
        let window = rest.remove(0);
        proof {
            let m = window.model();
            assert(models(before)[0] == m);
            assert(done.push(m) + models(rest@) =~= done + models(before));
            assert(used(done.push(m)) == used(done) + (if m.functions.len() > 0 {
                seq![m]
            } else {
                Seq::empty()
            })) by {
                assert(done.push(m).drop_last() =~= done);
                reveal(Seq::filter);
            }
            done = done.push(m);
        }
        if window.functions.len() > 0 {
            let ghost kept_before = kept@;
            kept.push(window);
            assert(models(kept@) =~= models(kept_before).push(window.model()));
        } else {
            assert(models(kept@) =~= used(done));
        }
    }
    assert(done =~= all);
    prepare_window_subquery(plan, kept, 0, next_table)
}

/// The name that the planner makes up for a window without one.
pub fn generated_window_name(depth: usize) -> (s: String)
    ensures
        s@ == "window_"@ + text::decimal(depth as nat),
{
    join2("window_", print_u64(depth as u64).as_str())
}

/// The name of the subquery of a window.
pub fn window_subquery_name(depth: usize) -> (s: String)
    ensures
        s@ == "window_subquery_"@ + text::decimal(depth as nat),
{
    join2("window_subquery_", print_u64(depth as u64).as_str())
}

/// The name of the buffer of a window.
pub fn buffer_table_name(window_name: &str) -> (s: String)
    ensures
        s@ == "buffer_table_"@ + window_name@,
{
    join2("buffer_table_", window_name)
}

} // verus!
