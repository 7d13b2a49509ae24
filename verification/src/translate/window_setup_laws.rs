//! How window processing is set up: what rows are sorted by, what is kept of
//! them, and where.

use vstd::prelude::*;
use crate::translate::expr::{Expr, ExprList, Over};
use crate::translate::machine;
use crate::translate::program::{Code, Insn, Item, NullsOrder, SortOrder};
use crate::translate::window;
use crate::translate::window::{ColumnRef, OrderTerm, Window, WindowMetadata, WindowRegisters};
use crate::translate::window_emit;
use crate::translate::window_init;
use crate::translate::window_init::{ResultSetColumn, SourceSubquery};
use crate::translate::window_lookup_laws;
use crate::translate::window_machine;
use crate::translate::window_machine::{Cell, Machine};
use crate::translate::window_plan;
use crate::translate::window_row_laws;
use crate::translate::window_step_laws;

verus! {

/// How two values stand in the order that a term wants: negative, zero or
/// positive. None is NULL, and other values stand in order as their numbers do.
pub open spec fn by_term(term: OrderTerm, a: Option<int>, b: Option<int>) -> int {
    let nulls_first = match term.nulls {
        Some(nulls) => nulls == NullsOrder::First,
        None => term.order == SortOrder::Asc,
    };
    match (a, b) {
        (None, None) => 0,
        (None, Some(_)) => if nulls_first {
            -1
        } else {
            1
        },
        (Some(_), None) => if nulls_first {
            1
        } else {
            -1
        },
        (Some(a), Some(b)) => if term.order == SortOrder::Asc {
            a - b
        } else {
            b - a
        },
    }
}

/// How two rows stand in the order of an ORDER BY: the first term by which they
/// differ decides. A row gives every expression a value.
pub open spec fn by_terms(
    terms: Seq<OrderTerm>,
    a: spec_fn(Expr) -> Option<int>,
    b: spec_fn(Expr) -> Option<int>,
) -> int
    decreases terms.len(),
{
    if terms.len() == 0 {
        0
    } else {
        let before = by_terms(terms.drop_last(), a, b);
        let last = terms.last();
        if before != 0 {
            before
        } else {
            by_term(last, a(last.expr), b(last.expr))
        }
    }
}

/// The terms that rows are to be sorted by: the PARTITION BY, upwards, and behind
/// it the ORDER BY.
pub open spec fn wanted_order(exprs: Seq<Expr>, terms: Seq<OrderTerm>) -> Seq<OrderTerm> {
    Seq::new(
        exprs.len(),
        |i: int| OrderTerm { expr: exprs[i], order: SortOrder::Asc, nulls: None },
    ) + terms
}

proof fn equal_by_each_term(
    terms: Seq<OrderTerm>,
    a: spec_fn(Expr) -> Option<int>,
    b: spec_fn(Expr) -> Option<int>,
    i: int,
)
    requires
        by_terms(terms, a, b) == 0,
        0 <= i < terms.len(),
    ensures
        a(terms[i].expr) == b(terms[i].expr),
    decreases terms.len(),
{
    if i < terms.len() - 1 {
        equal_by_each_term(terms.drop_last(), a, b, i);
    }
}

proof fn repetitions_decide_nothing(
    terms: Seq<OrderTerm>,
    all: Seq<OrderTerm>,
    term: OrderTerm,
    a: spec_fn(Expr) -> Option<int>,
    b: spec_fn(Expr) -> Option<int>,
)
    requires
        by_terms(terms, a, b) == by_terms(all, a, b),
    ensures
        by_terms(window_plan::add_term(terms, term), a, b) == by_terms(all.push(term), a, b),
{
    assert(all.push(term).drop_last() =~= all);
    assert(terms.push(term).drop_last() =~= terms);
    if window_plan::has_term(terms, term.expr) && by_terms(terms, a, b) == 0 {
        let i = choose|i: int| 0 <= i < terms.len() && (#[trigger] terms[i]).expr == term.expr;
        equal_by_each_term(terms, a, b, i);
    }
}

proof fn partitions_are_sorted(
    exprs: Seq<Expr>,
    n: nat,
    a: spec_fn(Expr) -> Option<int>,
    b: spec_fn(Expr) -> Option<int>,
)
    requires
        n <= exprs.len(),
    ensures
        by_terms(window_plan::partition_order(exprs, n), a, b) == by_terms(
            wanted_order(exprs.take(n as int), Seq::empty()),
            a,
            b,
        ),
    decreases n,
{
    if n > 0 {
        let k = (n - 1) as nat;
        partitions_are_sorted(exprs, k, a, b);
        let term = OrderTerm { expr: exprs[n - 1], order: SortOrder::Asc, nulls: None };
        repetitions_decide_nothing(
            window_plan::partition_order(exprs, k),
            wanted_order(exprs.take(k as int), Seq::empty()),
            term,
            a,
            b,
        );
        assert(wanted_order(exprs.take(k as int), Seq::empty()).push(term) =~= wanted_order(
            exprs.take(n as int),
            Seq::empty(),
        ));
    }
}

proof fn terms_are_sorted(
    exprs: Seq<Expr>,
    terms: Seq<OrderTerm>,
    n: nat,
    a: spec_fn(Expr) -> Option<int>,
    b: spec_fn(Expr) -> Option<int>,
)
    requires
        n <= terms.len(),
    ensures
        by_terms(window_plan::window_order(exprs, terms, n), a, b) == by_terms(
            wanted_order(exprs, terms.take(n as int)),
            a,
            b,
        ),
    decreases n,
{
    if n == 0 {
        partitions_are_sorted(exprs, exprs.len(), a, b);
        assert(exprs.take(exprs.len() as int) =~= exprs);
        assert(terms.take(0) =~= Seq::<OrderTerm>::empty());
    } else {
        let k = (n - 1) as nat;
        terms_are_sorted(exprs, terms, k, a, b);
        repetitions_decide_nothing(
            window_plan::window_order(exprs, terms, k),
            wanted_order(exprs, terms.take(k as int)),
            terms[n - 1],
            a,
            b,
        );
        assert(wanted_order(exprs, terms.take(k as int)).push(terms[n - 1]) =~= wanted_order(
            exprs,
            terms.take(n as int),
        ));
    }
}

/// The rows of a window come partition by partition, and within a partition in the
/// order of the window: any two rows stand to each other as the PARTITION BY, and
/// behind it the ORDER BY, says. That terms which occur twice are sorted by once
/// makes no difference.
pub proof fn rows_come_by_partition_and_order(
    exprs: Seq<Expr>,
    terms: Seq<OrderTerm>,
    a: spec_fn(Expr) -> Option<int>,
    b: spec_fn(Expr) -> Option<int>,
)
    ensures
        by_terms(window_plan::window_order(exprs, terms, terms.len()), a, b) == by_terms(
            wanted_order(exprs, terms),
            a,
            b,
        ),
{
    terms_are_sorted(exprs, terms, terms.len(), a, b);
    assert(terms.take(terms.len() as int) =~= terms);
}

/// Whether an expression reads a column outside of window functions.
pub open spec fn reads(expr: Expr, c: usize) -> bool
    decreases expr,
{
    match expr {
        Expr::Column { column, .. } => column == c,
        Expr::FunctionCall { args, order_by, filter_clause, over_clause, .. } => over_clause
            == Over::Absent && (reads_in(args, c) || reads_in(order_by, c) || (filter_clause matches Some(
            filter,
        ) && reads(*filter, c))),
        Expr::Subquery { operands, .. } => reads_in(operands, c),
        Expr::Node { operands, .. } => reads_in(operands, c),
        _ => false,
    }
}

pub open spec fn reads_in(list: ExprList, c: usize) -> bool
    decreases list,
{
    match list {
        ExprList::Nil => false,
        ExprList::Cons(head, tail) => reads(*head, c) || reads_in(*tail, c),
    }
}

proof fn reading_collects(expr: Expr, refs: Seq<ColumnRef>, c: usize)
    ensures
        window_init::has_column(window_init::read_columns(expr, refs), c)
            <==> window_init::has_column(refs, c) || reads(expr, c),
    decreases expr,
{
    match expr {
        Expr::Column { column, .. } => {
            let all = window_init::read_columns(expr, refs);
            if !window_init::has_column(refs, column) {
                assert(all.last().column == column);
                if window_init::has_column(refs, c) {
                    let i = choose|i: int| 0 <= i < refs.len() && (#[trigger] refs[i]).column == c;
                    assert(all[i].column == c);
                }
                if window_init::has_column(all, c) && c != column {
                    let i = choose|i: int| 0 <= i < all.len() && (#[trigger] all[i]).column == c;
                    assert(refs[i].column == c);
                }
            }
        },
        Expr::FunctionCall { args, order_by, filter_clause, over_clause, .. } => {
            if over_clause == Over::Absent {
                reading_collects_list(args, refs, c);
                let one = window_init::read_columns_list(args, refs);
                reading_collects_list(order_by, one, c);
                if let Some(filter) = filter_clause {
                    reading_collects(*filter, window_init::read_columns_list(order_by, one), c);
                }
            }
        },
        Expr::Subquery { operands, .. } => {
            reading_collects_list(operands, refs, c);
        },
        Expr::Node { operands, .. } => {
            reading_collects_list(operands, refs, c);
        },
        _ => {},
    }
}

proof fn reading_collects_list(list: ExprList, refs: Seq<ColumnRef>, c: usize)
    ensures
        window_init::has_column(window_init::read_columns_list(list, refs), c)
            <==> window_init::has_column(refs, c) || reads_in(list, c),
    decreases list,
{
    if let ExprList::Cons(head, tail) = list {
        reading_collects(*head, refs, c);
        reading_collects_list(*tail, window_init::read_columns(*head, refs), c);
    }
}

proof fn results_collect(columns: Seq<ResultSetColumn>, n: nat, c: usize)
    requires
        n <= columns.len(),
    ensures
        window_init::has_column(window_init::read_by_results(columns, n), c) <==> exists|i: int|
            0 <= i < n && reads((#[trigger] columns[i]).expr, c),
    decreases n,
{
    if n > 0 {
        let k = (n - 1) as nat;
        results_collect(columns, k, c);
        reading_collects(columns[k as int].expr, window_init::read_by_results(columns, k), c);
    }
}

proof fn order_collects(terms: Seq<OrderTerm>, refs: Seq<ColumnRef>, n: nat, c: usize)
    requires
        n <= terms.len(),
    ensures
        window_init::has_column(window_init::read_by_order(terms, refs, n), c)
            <==> window_init::has_column(refs, c) || exists|i: int|
            0 <= i < n && reads((#[trigger] terms[i]).expr, c),
    decreases n,
{
    if n > 0 {
        let k = (n - 1) as nat;
        order_collects(terms, refs, k, c);
        reading_collects(terms[k as int].expr, window_init::read_by_order(terms, refs, k), c);
    }
}

/// Of the source's columns exactly those are kept for a row that is returned which
/// the result or the ORDER BY of the outer query reads outside of window functions.
pub proof fn columns_that_are_read_are_kept(
    columns: Seq<ResultSetColumn>,
    terms: Seq<OrderTerm>,
    c: usize,
)
    ensures
        window_init::has_column(window_init::read_by_query(columns, terms), c) <==> (exists|i: int|
            0 <= i < columns.len() && reads((#[trigger] columns[i]).expr, c)) || (exists|i: int|
            0 <= i < terms.len() && reads((#[trigger] terms[i]).expr, c)),
{
    results_collect(columns, columns.len(), c);
    order_collects(
        terms,
        window_init::read_by_results(columns, columns.len()),
        terms.len(),
        c,
    );
}

/// The outer query reads the value of a window function where it is when a row is
/// returned, and a column of the source likewise.
pub proof fn values_are_read_where_they_are(
    window: Window,
    m: WindowMetadata,
    refs: Seq<ColumnRef>,
    i: int,
)
    ensures
        ({
            let cached = window_init::cached(window.functions@, refs, m.registers);
            let n = window.functions@.len();
            &&& cached.len() == n + refs.len()
            &&& 0 <= i < n ==> cached[i].expr == window.functions@[i].call() && cached[i].reg
                == window_lookup_laws::result_reg(m, i)
            &&& 0 <= i < refs.len() ==> cached[n + i].expr == refs[i].expr && cached[n + i].reg == (
            m.registers.result_columns_start + i) as usize
        }),
{
}

/// Every register of a window is given out for one purpose alone, behind those of
/// the source, and every cursor stands for itself.
#[verifier::rlimit(80)]
pub proof fn registers_are_given_out_once(
    p: Code,
    window: Window,
    src: SourceSubquery,
    m: WindowMetadata,
    later: Code,
)
    requires
        window_init::planned(window, src),
        window_init::window_init(
            p,
            window,
            src,
            m.expressions_referencing_subquery@.len(),
        ).1.fits(),
        src.result_columns_start_reg + src.collations@.len() <= p.regs,
        m.src_column_count == src.collations@.len(),
        m.registers == window_init::window_init(
            p,
            window,
            src,
            m.expressions_referencing_subquery@.len(),
        ).0,
        m.cursors == window_init::init_cursors(p, window),
        window_emit::grown(
            window_init::window_init(p, window, src, m.expressions_referencing_subquery@.len()).1,
            later,
        ),
    ensures
        window_step_laws::registers_apart(later, window, m),
        window_row_laws::blocks_apart(later, window, m),
        m.cursors.csr_current != m.cursors.csr_write,
        m.cursors.csr_current != m.cursors.csr_end,
        m.cursors.csr_write != m.cursors.csr_end,
        m.cursors.csr_start matches Some(start) ==> start != m.cursors.csr_current && start
            != m.cursors.csr_end && start != m.cursors.csr_write && m.cursors.csr_app != Some(start),
        m.cursors.csr_app matches Some(app) ==> app != m.cursors.csr_current && app
            != m.cursors.csr_end && app != m.cursors.csr_write,
{
    let refs = m.expressions_referencing_subquery@.len();
    let code = window_init::window_init(p, window, src, refs).1;
    let r = m.registers;
    let n = window.order_by@.len();
    let b = window_row_laws::blocks(window, m);
    assert(b.len() == 8);
    assert(b[0] == (r.rowid as int, 1int));
    assert(b[1] == (r.acc_start as int, window.functions@.len() as int));
    assert(b[2] == (r.src_columns_start as int, m.src_column_count as int));
    assert(b[3] == window_row_laws::block(r.new_order_by_columns_start, n));
    assert(b[4] == window_row_laws::block(r.peer_start_reg, n));
    assert(b[5] == window_row_laws::block(r.peer_current_reg, n));
    assert(b[6] == window_row_laws::block(r.peer_end_reg, n));
    assert(b[7] == window_row_laws::block(r.start_offset_reg, 1));
    assert(code.cursors <= u32::MAX);
    assert(p.regs <= code.regs <= u32::MAX);
    assert forall|i: int| 0 <= i < b.len() implies (#[trigger] b[i]).0 + b[i].1 <= later.regs by {
        assert(i == 0 || i == 1 || i == 2 || i == 3 || i == 4 || i == 5 || i == 6 || i == 7);
    }
    assert forall|i: int, j: int| 0 <= i < j < b.len() implies window_step_laws::apart(
        (#[trigger] b[i]).0,
        b[i].1,
        (#[trigger] b[j]).0,
        b[j].1,
    ) by {
        assert(i == 0 || i == 1 || i == 2 || i == 3 || i == 4 || i == 5 || i == 6);
        assert(j == 1 || j == 2 || j == 3 || j == 4 || j == 5 || j == 6 || j == 7);
    }
}

/// The values that a window starts with: no row has been put into the buffer, no
/// key of a partition is saved, and no row is the last of the frame.
pub open spec fn starts_empty(window: Window, r: WindowRegisters, t: Machine) -> bool {
    &&& t.regs[r.rowid] == Cell::Null
    &&& r.partition_start matches Some(saved) ==> forall|i: int|
        0 <= i < window_init::partition_len(window) ==> #[trigger] t.regs[(saved + i) as usize]
            == Cell::Null
    &&& r.frame_end_rowid matches Some(end) ==> t.regs[end] == Cell::Null
}

proof fn nulls(p: Code, count: nat, s: Machine) -> (t: Machine)
    requires
        count > 0,
        p.regs + count <= u32::MAX,
    ensures
        machine::leads(p, p.null_regs(count), s, t, window_machine::effects()),
        t == (Machine { regs: t.regs, ..s }),
        forall|i: int|
            0 <= i < count ==> #[trigger] t.regs[(p.reg() + i) as usize] == Cell::Null,
        forall|r: usize| !(p.regs <= r < p.regs + count) ==> #[trigger] t.regs[r] == s.regs[r],
{
    let step = window_machine::effects();
    let q = p.take_regs(count);
    machine::leads_nowhere(p, q, s, step);
    let item = p.null_regs(count).items.last();
    if count == 1 {
        let t = window_machine::set(s, p.reg(), Cell::Null);
        machine::leads_by_one(p, q, p.null_regs(count), item, s, s, t, step);
        t
    } else {
        let cells = Seq::new(count, |i: int| Cell::Null);
        let t = Machine { regs: window_machine::put(s.regs, p.regs as int, cells), ..s };
        window_machine::put_reads(s.regs, p.regs as int, cells);
        let end = (p.regs + count - 1) as usize;
        assert(Seq::new((end - p.reg() + 1) as nat, |i: int| Cell::Null) =~= cells);
        machine::leads_by_one(p, q, p.null_regs(count), item, s, s, t, step);
        t
    }
}

/// The code at the start leaves the window as it is to start: without a row, a key
/// or a frame.
#[verifier::rlimit(60)]
pub proof fn windows_start_empty(
    p: Code,
    window: Window,
    src: SourceSubquery,
    refs: nat,
    s: Machine,
) -> (t: Machine)
    requires
        window_init::window_init(p, window, src, refs).1.fits(),
    ensures
        machine::leads(
            p,
            window_init::window_init(p, window, src, refs).1,
            s,
            t,
            window_machine::effects(),
        ),
        starts_empty(window, window_init::window_init(p, window, src, refs).0, t),
        t.rows == s.rows,
        t.calls == s.calls,
{
    let step = window_machine::effects();
    let (r, q) = window_init::window_init(p, window, src, refs);
    let c = window_init::init_cursors(p, window);
    let before = window_init::init_before_open(p, window);
    let wants_end = window_init::needs_frame_end(window.functions@);
    let taken = Code { cursors: before.cursors, ..p };
    machine::leads_nowhere(p, taken, s, step);
    let s1 = if wants_end {
        let s1 = nulls(taken, 1, s);
        assert(before == taken.null_regs(1));
        machine::leads_on(p, taken, before, s, s, s1, step);
        assert(s1.regs[(taken.reg() + 0) as usize] == Cell::Null);
        s1
    } else {
        assert(before == taken);
        s
    };
    let opened = window_init::open_buffer(before, c);
    opening(before, c, s1);
    machine::leads_on(p, before, opened, s, s1, s1, step);
    let nf = window.functions@.len();
    let labelled = opened.take_regs(nf).take_regs(nf).take_regs(refs).take_labels(3);
    machine::leads_nowhere(opened, labelled, s1, step);
    machine::leads_on(p, opened, labelled, s, s1, s1, step);
    let s2 = nulls(labelled, 1, s1);
    let after_rowid = labelled.null_regs(1);
    machine::leads_on(p, labelled, after_rowid, s, s1, s2, step);
    assert(s2.regs[(labelled.reg() + 0) as usize] == Cell::Null);
    let k = window_init::partition_len(window);
    let (after, t) = if k > 0 {
        let s3 = nulls(after_rowid, k, s2);
        machine::leads_on(p, after_rowid, after_rowid.null_regs(k), s, s2, s3, step);
        (after_rowid.null_regs(k), s3)
    } else {
        (after_rowid, s2)
    };
    machine::leads_nowhere(after, q, t, step);
    machine::leads_on(p, after, q, s, t, t, step);
    t
}

proof fn opening(p: Code, c: window::WindowCursors, s: Machine)
    ensures
        machine::leads(p, window_init::open_buffer(p, c), s, s, window_machine::effects()),
{
    let step = window_machine::effects();
    let a = Insn::OpenEphemeral { cursor_id: c.csr_current, is_table: true };
    let b = Insn::OpenDup { original_cursor_id: c.csr_current, new_cursor_id: c.csr_write };
    let d = Insn::OpenDup { original_cursor_id: c.csr_current, new_cursor_id: c.csr_end };
    machine::leads_nowhere(p, p, s, step);
    machine::leads_by_one(p, p, p.op(a), Item::Op(a), s, s, s, step);
    machine::leads_by_one(p, p.op(a), p.op(a).op(b), Item::Op(b), s, s, s, step);
    let three = p.op(a).op(b).op(d);
    machine::leads_by_one(p, p.op(a).op(b), three, Item::Op(d), s, s, s, step);
    let start = match c.csr_start {
        Some(new_cursor_id) => {
            let e = Insn::OpenDup { original_cursor_id: c.csr_current, new_cursor_id };
            machine::leads_by_one(p, three, three.op(e), Item::Op(e), s, s, s, step);
            three.op(e)
        },
        None => three,
    };
    if let Some(new_cursor_id) = c.csr_app {
        let e = Insn::OpenDup { original_cursor_id: c.csr_current, new_cursor_id };
        machine::leads_by_one(p, start, start.op(e), Item::Op(e), s, s, s, step);
    }
}

/// All cursors of a window look at one buffer: the first opens it, and every other
/// one is a copy of the first.
pub proof fn cursors_look_at_one_buffer(p: Code, window: Window, i: int)
    ensures
        ({
            let c = window_init::init_cursors(p, window);
            let items = machine::written(p, window_init::open_buffer(p, c));
            &&& items.len() == 3 + (if c.csr_start is Some {
                1int
            } else {
                0
            }) + (if c.csr_app is Some {
                1int
            } else {
                0
            })
            &&& items[0] == Item::Op(
                Insn::OpenEphemeral { cursor_id: c.csr_current, is_table: true },
            )
            &&& 1 <= i < items.len() ==> exists|cursor: usize|
                items[i] == Item::Op(
                    #[trigger] duplicates(c.csr_current, cursor),
                ) && (cursor == c.csr_write || cursor == c.csr_end || c.csr_start == Some(cursor)
                    || c.csr_app == Some(cursor))
        }),
{
    let c = window_init::init_cursors(p, window);
    let q = window_init::open_buffer(p, c);
    let items = machine::written(p, q);
    let base = p.items.len() as int;
    assert(items[0] == q.items[base]);
    if 1 <= i < items.len() {
        assert(items[i] == q.items[base + i]);
        let cursor = q.items[base + i]->Op_0->OpenDup_new_cursor_id;
        assert(items[i] == Item::Op(duplicates(c.csr_current, cursor)));
    }
}

/// The instruction that makes a copy of a cursor.
pub open spec fn duplicates(original: usize, copy: usize) -> Insn {
    Insn::OpenDup { original_cursor_id: original, new_cursor_id: copy }
}

} // verus!
