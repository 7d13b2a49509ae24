//! What the code of window functions does when it is executed.

use vstd::prelude::*;
use crate::function::AccumulatorFunc;
use crate::translate::expr::{Expr, ExprList};
use crate::translate::machine;
use crate::translate::machine::Outcome;
use crate::translate::program::{Code, Fragment, Insn, Item};
use crate::translate::window;
use crate::translate::window::{OrderTerm, Window, WindowFunction, WindowMetadata};
use crate::translate::window_emit;
use crate::translate::window_machine;
use crate::translate::window_machine::{Cell, Machine};
use crate::translate::window_step;

verus! {

/// The register with the state of a function.
pub open spec fn state_reg(m: WindowMetadata, i: int) -> usize {
    (m.registers.acc_start + i) as usize
}

/// The row that a cursor stands at.
pub open spec fn row_at(s: Machine, cursor: usize) -> Seq<Cell> {
    s.rows[s.at[cursor]]
}

/// The values of expressions that are columns, in a row.
pub open spec fn values_in(row: Seq<Cell>, exprs: Seq<Expr>) -> Seq<Cell> {
    Seq::new(exprs.len(), |i: int| row[window::column_of(exprs[i]) as int])
}

/// Whether two machines differ in registers alone, and in none below `bound` but
/// those from `first` on, up to `count`.
pub open spec fn writes_only(
    s: Machine,
    t: Machine,
    bound: nat,
    first: int,
    count: int,
) -> bool {
    &&& t == (Machine { regs: t.regs, ..s })
    &&& forall|r: usize|
        r < bound && !(first <= r < first + count) ==> #[trigger] t.regs[r] == s.regs[r]
}

pub open spec fn columns_only(exprs: Seq<Expr>) -> bool {
    forall|i: int| 0 <= i < exprs.len() ==> #[trigger] exprs[i] is Column
}

proof fn loading(
    p: Code,
    args: Seq<Expr>,
    csr: usize,
    base: nat,
    n: nat,
    s: Machine,
)
    requires
        n <= args.len(),
        base + n <= u32::MAX,
        columns_only(args),
    ensures
        ({
            let q = window_emit::load_args(p, args, csr, base, n);
            let t = Machine {
                regs: window_machine::put(
                    s.regs,
                    base as int,
                    values_in(row_at(s, csr), args).take(n as int),
                ),
                ..s
            };
            machine::leads(p, q, s, t, window_machine::effects())
        }),
    decreases n,
{
    let q = window_emit::load_args(p, args, csr, base, n);
    let step = window_machine::effects();
    let values = values_in(row_at(s, csr), args);
    if n == 0 {
        machine::leads_nowhere(p, q, s, step);
        assert(values.take(0) =~= Seq::<Cell>::empty());
    } else {
        let k = (n - 1) as nat;
        loading(p, args, csr, base, k, s);
        let t = Machine {
            regs: window_machine::put(s.regs, base as int, values.take(k as int)),
            ..s
        };
        let u = Machine {
            regs: window_machine::put(s.regs, base as int, values.take(n as int)),
            ..s
        };
        assert(values.take(n as int).drop_last() =~= values.take(k as int));
        assert(values.take(n as int).last() == values[k as int]);
        assert(args[n - 1] is Column);
        machine::leads_by_one(
            p,
            window_emit::load_args(p, args, csr, base, k),
            q,
            Item::Op(
                Insn::Column {
                    cursor_id: csr,
                    column: window::column_of(args[n - 1]),
                    dest: (base + n - 1) as usize,
                },
            ),
            s,
            t,
            u,
            step,
        );
    }
}

/// Whether the FILTER of a function holds in a row: without one it does, and
/// NULL and zero count as false.
pub open spec fn passes(f: WindowFunction, row: Seq<Cell>) -> bool {
    match (f.func, f.filter()) {
        (AccumulatorFunc::Agg(_), Some(filter)) => {
            let value = row[window::column_of(filter) as int];
            !(value is Null) && value != Cell::Int(0)
        },
        _ => true,
    }
}

/// The state of a function behind one more row: what its arguments were there,
/// where its FILTER holds. A function of windows alone reads as many arguments as
/// it has use for.
pub open spec fn stepped(f: WindowFunction, row: Seq<Cell>, state: Cell) -> Cell {
    let values = values_in(row, f.args());
    if !passes(f, row) {
        state
    } else if f.func is Agg {
        window_machine::entered(f.func, state, values)
    } else {
        window_machine::entered(
            f.func,
            state,
            values.take(window_machine::args_of(f.func) as int),
        )
    }
}

/// Whether what a function reads are columns, and enough of them.
pub open spec fn reads_columns(f: WindowFunction) -> bool {
    &&& columns_only(f.args())
    &&& f.call() is FunctionCall
    &&& f.filter() matches Some(filter) ==> filter is Column
    &&& f.func is Window ==> window_machine::args_of(f.func) <= f.args().len()
}

#[verifier::rlimit(60)]
proof fn stepping_one(p: Code, f: WindowFunction, acc_reg: usize, csr: usize, s: Machine)
    requires
        reads_columns(f),
        acc_reg < p.regs,
        window_emit::step_one(p, f, acc_reg, csr).fits(),
    ensures
        ({
            let q = window_emit::step_one(p, f, acc_reg, csr);
            exists|t: Machine| #[trigger]
                machine::leads(p, q, s, t, window_machine::effects()) && {
                    &&& t.regs[acc_reg] == stepped(f, row_at(s, csr), s.regs[acc_reg])
                    &&& writes_only(s, t, p.regs, acc_reg as int, 1)
                }
        }),
{
    let q = window_emit::step_one(p, f, acc_reg, csr);
    let step = window_machine::effects();
    let args = f.args();
    let base = p.reg();
    let row = row_at(s, csr);
    let values = values_in(row, args);
    let q1 = if args.len() > 0 {
        window_emit::load_args(p.take_regs(args.len()), args, csr, p.regs, args.len())
    } else {
        p
    };
    window_emit::load_args_keeps(p.take_regs(args.len()), args, csr, p.regs, args.len());
    let s1 = if args.len() > 0 {
        Machine { regs: window_machine::put(s.regs, p.regs as int, values), ..s }
    } else {
        s
    };
    assert(machine::leads(p, q1, s, s1, step)) by {
        if args.len() > 0 {
            loading(p.take_regs(args.len()), args, csr, p.regs, args.len(), s);
            assert(values.take(args.len() as int) =~= values);
            assert(machine::written(p.take_regs(args.len()), q1) == machine::written(p, q1));
        } else {
            machine::leads_nowhere(p, q1, s, step);
        }
    }
    window_machine::put_reads(s.regs, p.regs as int, values);
    let read = match f.func {
        AccumulatorFunc::Agg(_) => values,
        AccumulatorFunc::Window(_) => values.take(window_machine::args_of(f.func) as int),
    };
    assert(s1.regs[acc_reg] == s.regs[acc_reg]);
    let after = window_machine::set(
        s1,
        acc_reg,
        window_machine::entered(f.func, s.regs[acc_reg], read),
    );
    match f.func {
        AccumulatorFunc::Agg(func) => {
            let list = match f.call() {
                Expr::FunctionCall { args, .. } => args,
                _ => ExprList::Nil,
            };
            assert(list.items() == args);
            let fragment = Item::Fragment(
                Fragment::AggregationStep {
                    func,
                    args: list,
                    acc_reg,
                    loaded_at: if args.len() > 0 {
                        Some(base)
                    } else {
                        None
                    },
                },
            );
            match f.filter() {
                Some(filter) => {
                    let reg = q1.reg();
                    let tested = q1.take_labels(1).take_regs(1).op(
                        Insn::Column {
                            cursor_id: csr,
                            column: window::column_of(filter),
                            dest: reg,
                        },
                    );
                    let value = row[window::column_of(filter) as int];
                    let s2 = window_machine::set(s1, reg, value);
                    machine::leads_by_one(
                        p,
                        q1,
                        tested,
                        tested.items.last(),
                        s,
                        s1,
                        s2,
                        step,
                    );
                    let skip = q1.label(0);
                    let rest = machine::written(tested, q);
                    assert(rest =~= seq![
                        Item::Op(Insn::IfNot { reg, target_pc: skip, jump_if_null: true }),
                        fragment,
                        Item::Bind(skip),
                    ]);
                    assert(s2.regs[acc_reg] == s.regs[acc_reg]);
                    let s3 = window_machine::set(
                        s2,
                        acc_reg,
                        window_machine::entered(f.func, s.regs[acc_reg], read),
                    );
                    if args.len() > 0 {
                        assert(window_machine::get(s2.regs, base as int, args.len()) =~= values);
                    } else {
                        assert(values =~= Seq::<Cell>::empty());
                    }
                    reveal_with_fuel(machine::place, 3);
                    let t = if passes(f, row) {
                        s3
                    } else {
                        s2
                    };
                    assert(rest[0] is Op && rest[1] == fragment && rest[2] == Item::Bind(skip));
                    if passes(f, row) {
                        assert(machine::exec(rest, 0, s2, step) == machine::exec(
                            rest,
                            1,
                            s2,
                            step,
                        ));
                        assert(machine::exec(rest, 1, s2, step) == machine::exec(
                            rest,
                            2,
                            s3,
                            step,
                        ));
                        assert(machine::exec(rest, 2, s3, step) == machine::exec(
                            rest,
                            3,
                            s3,
                            step,
                        ));
                    } else {
                        assert(machine::exec(rest, 0, s2, step) == machine::exec(
                            rest,
                            3,
                            s2,
                            step,
                        ));
                    }
                    assert(machine::exec(rest, 3, t, step) == Outcome::Through(t));
                    machine::leads_on(p, tested, q, s, s2, t, step);
                },
                None => {
                    if args.len() > 0 {
                        assert(window_machine::get(s1.regs, base as int, args.len()) =~= values);
                    } else {
                        assert(values =~= Seq::<Cell>::empty());
                    }
                    machine::leads_by_one(p, q1, q, fragment, s, s1, after, step);
                },
            }
        },
        AccumulatorFunc::Window(_) => {
            let n = window_machine::args_of(f.func);
            if args.len() > 0 {
                assert(window_machine::get(s1.regs, base as int, n) =~= read);
            } else {
                assert(window_machine::get(s1.regs, 0, 0) =~= read);
            }
            machine::leads_by_one(p, q1, q, q.items.last(), s, s1, after, step);
        },
    }
}

/// When a row enters the frame, every function that has a state steps once: by
/// what its arguments are in the row at the cursor. Functions that look rows up
/// have none. Nothing else is changed.
pub proof fn functions_step_by_the_row(
    p: Code,
    window: Window,
    m: WindowMetadata,
    csr: usize,
    n: nat,
    s: Machine,
) -> (t: Machine)
    requires
        n <= window.functions@.len(),
        m.registers.acc_start + window.functions@.len() <= p.regs,
        window_emit::step_functions(p, window, m, csr, n).fits(),
        forall|i: int| 0 <= i < n ==> reads_columns(#[trigger] window.functions@[i]),
    ensures
        machine::leads(
            p,
            window_emit::step_functions(p, window, m, csr, n),
            s,
            t,
            window_machine::effects(),
        ),
        forall|i: int|
            0 <= i < window.functions@.len() ==> {
                let f = #[trigger] window.functions@[i];
                t.regs[state_reg(m, i)] == if i < n && !window::is_positional(f.func) {
                    stepped(f, row_at(s, csr), s.regs[state_reg(m, i)])
                } else {
                    s.regs[state_reg(m, i)]
                }
            },
        writes_only(
            s,
            t,
            p.regs,
            m.registers.acc_start as int,
            window.functions@.len() as int,
        ),
    decreases n,
{
    let q = window_emit::step_functions(p, window, m, csr, n);
    let step = window_machine::effects();
    if n == 0 {
        machine::leads_nowhere(p, q, s, step);
        s
    } else {
        let k = (n - 1) as nat;
        let q1 = window_emit::step_functions(p, window, m, csr, k);
        let f = window.functions@[k as int];
        window_emit::step_functions_grow(p, window, m, csr, k, n);
        let t1 = functions_step_by_the_row(p, window, m, csr, k, s);
        if window::is_positional(f.func) {
            t1
        } else {
            let reg = state_reg(m, k as int);
            stepping_one(q1, f, reg, csr, t1);
            let t = choose|t: Machine| #[trigger]
                machine::leads(q1, q, t1, t, step) && {
                    &&& t.regs[reg] == stepped(f, row_at(t1, csr), t1.regs[reg])
                    &&& writes_only(t1, t, q1.regs, reg as int, 1)
                };
            machine::leads_on(p, q1, q, s, t1, t, step);
            assert forall|i: int| 0 <= i < window.functions@.len() implies {
                let f = #[trigger] window.functions@[i];
                t.regs[state_reg(m, i)] == if i < n && !window::is_positional(f.func) {
                    stepped(f, row_at(s, csr), s.regs[state_reg(m, i)])
                } else {
                    s.regs[state_reg(m, i)]
                }
            } by {
                if i != k {
                    assert(state_reg(m, i) != reg);
                    assert(t.regs[state_reg(m, i)] == t1.regs[state_reg(m, i)]);
                }
            }
            t
        }
    }
}

/// When a row leaves the frame, every function steps back once, and nothing else
/// is changed.
pub proof fn functions_step_back(
    p: Code,
    window: Window,
    m: WindowMetadata,
    n: nat,
    s: Machine,
) -> (t: Machine)
    requires
        n <= window.functions@.len(),
        m.registers.acc_start + window.functions@.len() <= u32::MAX,
    ensures
        machine::leads(
            p,
            window_emit::inverse_functions(p, window, m, n),
            s,
            t,
            window_machine::effects(),
        ),
        forall|i: int|
            0 <= i < window.functions@.len() ==> {
                let f = #[trigger] window.functions@[i];
                t.regs[state_reg(m, i)] == if i < n {
                    window_machine::departed(f.func, s.regs[state_reg(m, i)])
                } else {
                    s.regs[state_reg(m, i)]
                }
            },
        writes_only(
            s,
            t,
            usize::MAX as nat + 1,
            m.registers.acc_start as int,
            window.functions@.len() as int,
        ),
    decreases n,
{
    let q = window_emit::inverse_functions(p, window, m, n);
    let step = window_machine::effects();
    if n == 0 {
        machine::leads_nowhere(p, q, s, step);
        s
    } else {
        let k = (n - 1) as nat;
        let q1 = window_emit::inverse_functions(p, window, m, k);
        let f = window.functions@[k as int];
        let t1 = functions_step_back(p, window, m, k, s);
        let reg = state_reg(m, k as int);
        let t = window_machine::set(t1, reg, window_machine::departed(f.func, t1.regs[reg]));
        machine::leads_by_one(p, q1, q, q.items.last(), s, t1, t, step);
        assert forall|i: int| 0 <= i < window.functions@.len() implies {
            let f = #[trigger] window.functions@[i];
            t.regs[state_reg(m, i)] == if i < n {
                window_machine::departed(f.func, s.regs[state_reg(m, i)])
            } else {
                s.regs[state_reg(m, i)]
            }
        } by {
            if i != k {
                assert(state_reg(m, i) != reg);
                assert(t.regs[state_reg(m, i)] == t1.regs[state_reg(m, i)]);
            }
        }
        t
    }
}

/// Before a row is returned, the value of every function that has a state is
/// taken from that state, into the register of the function's result.
pub proof fn values_come_from_states(
    p: Code,
    window: Window,
    m: WindowMetadata,
    n: nat,
    s: Machine,
) -> (t: Machine)
    requires
        n <= window.functions@.len(),
        m.registers.acc_start + window.functions@.len() <= u32::MAX,
        m.registers.acc_result_start + window.functions@.len() <= u32::MAX,
        m.registers.acc_start + window.functions@.len() <= m.registers.acc_result_start
            || m.registers.acc_result_start + window.functions@.len() <= m.registers.acc_start,
    ensures
        machine::leads(
            p,
            window_step::final_values(p, window, m, n),
            s,
            t,
            window_machine::effects(),
        ),
        forall|i: int|
            0 <= i < window.functions@.len() ==> {
                let f = #[trigger] window.functions@[i];
                let reg = (m.registers.acc_result_start + i) as usize;
                t.regs[reg] == if i < n && !window::is_positional(f.func) {
                    window_machine::value_of(f.func, s.regs[state_reg(m, i)])
                } else {
                    s.regs[reg]
                }
            },
        writes_only(
            s,
            t,
            usize::MAX as nat + 1,
            m.registers.acc_result_start as int,
            window.functions@.len() as int,
        ),
    decreases n,
{
    let q = window_step::final_values(p, window, m, n);
    let step = window_machine::effects();
    if n == 0 {
        machine::leads_nowhere(p, q, s, step);
        s
    } else {
        let k = (n - 1) as nat;
        let q1 = window_step::final_values(p, window, m, k);
        let f = window.functions@[k as int];
        let t1 = values_come_from_states(p, window, m, k, s);
        if window::is_positional(f.func) {
            t1
        } else {
            let reg = (m.registers.acc_result_start + k) as usize;
            assert(t1.regs[state_reg(m, k as int)] == s.regs[state_reg(m, k as int)]);
            let t = window_machine::set(
                t1,
                reg,
                window_machine::value_of(f.func, s.regs[state_reg(m, k as int)]),
            );
            machine::leads_by_one(p, q1, q, q.items.last(), s, t1, t, step);
            assert forall|i: int| 0 <= i < window.functions@.len() implies {
                let f = #[trigger] window.functions@[i];
                let reg = (m.registers.acc_result_start + i) as usize;
                t.regs[reg] == if i < n && !window::is_positional(f.func) {
                    window_machine::value_of(f.func, s.regs[state_reg(m, i)])
                } else {
                    s.regs[reg]
                }
            } by {
                if i != k {
                    assert((m.registers.acc_result_start + i) as usize != reg);
                    assert(t.regs[(m.registers.acc_result_start + i) as usize]
                        == t1.regs[(m.registers.acc_result_start + i) as usize]);
                }
            }
            t
        }
    }
}

/// The columns that the outer query reads are those of the row that is returned.
pub proof fn columns_come_from_the_current_row(
    p: Code,
    m: WindowMetadata,
    n: nat,
    s: Machine,
) -> (t: Machine)
    requires
        n <= m.expressions_referencing_subquery@.len(),
        m.registers.result_columns_start + m.expressions_referencing_subquery@.len() <= u32::MAX,
    ensures
        machine::leads(
            p,
            window_emit::result_columns(p, m, n),
            s,
            t,
            window_machine::effects(),
        ),
        forall|i: int|
            0 <= i < n ==> t.regs[(m.registers.result_columns_start + i) as usize] == row_at(
                s,
                m.cursors.csr_current,
            )[(#[trigger] m.expressions_referencing_subquery@[i]).column as int],
        writes_only(
            s,
            t,
            usize::MAX as nat + 1,
            m.registers.result_columns_start as int,
            n as int,
        ),
    decreases n,
{
    let q = window_emit::result_columns(p, m, n);
    let step = window_machine::effects();
    if n == 0 {
        machine::leads_nowhere(p, q, s, step);
        s
    } else {
        let k = (n - 1) as nat;
        let q1 = window_emit::result_columns(p, m, k);
        let t1 = columns_come_from_the_current_row(p, m, k, s);
        let reg = (m.registers.result_columns_start + k) as usize;
        let column = m.expressions_referencing_subquery@[k as int].column;
        let t = window_machine::set(t1, reg, row_at(s, m.cursors.csr_current)[column as int]);
        machine::leads_by_one(p, q1, q, q.items.last(), s, t1, t, step);
        t
    }
}

/// A source row is put behind the others: it gets the next number, and its
/// columns are those of the source. The rows before it and the cursors stay.
pub proof fn source_rows_are_appended(p: Code, m: WindowMetadata, s: Machine) -> (t: Machine)
    requires
        window_emit::insert_row(p, m).fits(),
        m.registers.src_columns_start + m.src_column_count <= p.regs,
        m.registers.rowid < p.regs,
    ensures
        machine::leads(
            p,
            window_emit::insert_row(p, m),
            s,
            t,
            window_machine::effects(),
        ),
        t.last == s.last + 1,
        t.rows == s.rows.insert(
            s.last + 1,
            window_machine::get(
                s.regs,
                m.registers.src_columns_start as int,
                m.src_column_count as nat,
            ),
        ),
        t.regs[m.registers.rowid] == Cell::Int(s.last + 1),
        t.at == s.at,
        t.calls == s.calls,
        forall|r: usize| r < p.regs && r != m.registers.rowid ==> #[trigger] t.regs[r] == s.regs[r],
{
    let step = window_machine::effects();
    let q = window_emit::insert_row(p, m);
    let row = window_machine::get(
        s.regs,
        m.registers.src_columns_start as int,
        m.src_column_count as nat,
    );
    let q0 = p.take_regs(1);
    machine::leads_nowhere(p, q0, s, step);
    let q1 = Code { items: p.items.push(q.items[p.items.len() as int]), ..q0 };
    let t1 = window_machine::set(s, p.reg(), Cell::Record(row));
    machine::leads_by_one(p, q0, q1, q.items[p.items.len() as int], s, s, t1, step);
    let q2 = Code { items: q1.items.push(q.items[p.items.len() as int + 1]), ..q1 };
    let t2 = Machine {
        last: s.last + 1,
        ..window_machine::set(t1, m.registers.rowid, Cell::Int(s.last + 1))
    };
    machine::leads_by_one(p, q1, q2, q.items[p.items.len() as int + 1], s, t1, t2, step);
    let t3 = Machine { rows: s.rows.insert(s.last + 1, row), ..t2 };
    assert(q.items =~= q2.items.push(q.items[p.items.len() as int + 2]));
    machine::leads_by_one(p, q2, q, q.items[p.items.len() as int + 2], s, t2, t3, step);
    t3
}

/// The ORDER BY values of a source row are put side by side, in the order of the
/// terms.
pub proof fn order_values_come_from_the_source(
    p: Code,
    terms: Seq<OrderTerm>,
    src: nat,
    dst: nat,
    n: nat,
    s: Machine,
) -> (t: Machine)
    requires
        n <= terms.len(),
        dst + terms.len() <= u32::MAX,
        forall|i: int|
            0 <= i < terms.len() ==> src + window::column_of((#[trigger] terms[i]).expr)
                <= u32::MAX,
        forall|i: int|
            0 <= i < terms.len() ==> !(dst <= src + window::column_of((#[trigger] terms[i]).expr)
                < dst + terms.len()),
    ensures
        machine::leads(
            p,
            window_emit::load_order_by(p, terms, src, dst, n),
            s,
            t,
            window_machine::effects(),
        ),
        forall|i: int|
            0 <= i < n ==> t.regs[(dst + i) as usize] == s.regs[(src + window::column_of(
                (#[trigger] terms[i]).expr,
            )) as usize],
        writes_only(s, t, usize::MAX as nat + 1, dst as int, n as int),
    decreases n,
{
    let q = window_emit::load_order_by(p, terms, src, dst, n);
    let step = window_machine::effects();
    if n == 0 {
        machine::leads_nowhere(p, q, s, step);
        s
    } else {
        let k = (n - 1) as nat;
        let q1 = window_emit::load_order_by(p, terms, src, dst, k);
        let t1 = order_values_come_from_the_source(p, terms, src, dst, k, s);
        let from = (src + window::column_of(terms[k as int].expr)) as usize;
        let to = (dst + k) as usize;
        assert(t1.regs[from] == s.regs[from]);
        let copied = window_machine::get(t1.regs, from as int, 1);
        assert(copied =~= seq![s.regs[from]]);
        assert(window_machine::put(t1.regs, to as int, copied) == t1.regs.insert(
            to,
            s.regs[from],
        )) by {
            reveal_with_fuel(window_machine::put, 2);
        }
        let t = window_machine::set(t1, to, s.regs[from]);
        machine::leads_by_one(p, q1, q, q.items.last(), s, t1, t, step);
        t
    }
}

} // verus!
