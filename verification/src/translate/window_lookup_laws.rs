//! What the lookups of window functions find when they are executed.

use vstd::prelude::*;
use crate::function::{AccumulatorFunc, WindowFunc};
use crate::translate::machine;
use crate::translate::machine::Outcome;
use crate::translate::program::{Code, HaltReason, Item};
use crate::translate::window;
use crate::translate::window::{Window, WindowFunction, WindowMetadata};
use crate::translate::window_lookup;
use crate::translate::window_machine;
use crate::translate::window_machine::{Cell, Machine};

verus! {

/// The register that the value of a function goes to.
pub open spec fn result_reg(m: WindowMetadata, i: int) -> usize {
    (m.registers.acc_result_start + i) as usize
}

/// Whether registers below `bound` but for those of results are the same, and so
/// are the buffer and all cursors but the one that looks rows up.
pub open spec fn leaves_alone(
    s: Machine,
    t: Machine,
    m: WindowMetadata,
    window: Window,
    bound: nat,
) -> bool {
    &&& t.rows == s.rows
    &&& t.last == s.last
    &&& t.calls == s.calls
    &&& forall|c: usize| c != m.cursors.csr_app->Some_0 ==> #[trigger] t.at[c] == s.at[c]
    &&& forall|r: usize|
        r < bound && !(m.registers.acc_result_start <= r < m.registers.acc_result_start
            + window.functions@.len()) ==> #[trigger] t.regs[r] == s.regs[r]
}

/// Whether the results of functions stand in registers that were given out
/// before `p`, and rows are looked up by a cursor of their own.
pub open spec fn results_before(p: Code, window: Window, m: WindowMetadata) -> bool {
    &&& m.registers.acc_result_start + window.functions@.len() <= p.regs
    &&& m.cursors.csr_app matches Some(app) && app != m.cursors.csr_current
}

/// The column of a row of the buffer, or `otherwise` where there is no such row.
pub open spec fn read_row(s: Machine, row: int, column: usize, otherwise: Cell) -> Cell {
    if s.rows.contains_key(row) {
        s.rows[row][column as int]
    } else {
        otherwise
    }
}

/// How far away the row is that lag or lead reads: as far as the second argument
/// says, else one row.
pub open spec fn distance(s: Machine, m: WindowMetadata, f: WindowFunction) -> int {
    if f.args().len() >= 2 {
        window_machine::column(s, m.cursors.csr_current, window::column_of(f.args()[1]))->Int_0
    } else {
        1
    }
}

/// Whether the second argument of a lag or lead, where there is one, is a number
/// in the current row.
pub open spec fn has_distance(s: Machine, m: WindowMetadata, f: WindowFunction) -> bool {
    f.args().len() >= 2 ==> window_machine::column(
        s,
        m.cursors.csr_current,
        window::column_of(f.args()[1]),
    ) is Int
}

/// What lag and lead give where there is no such row: the third argument in the
/// current row, else NULL.
pub open spec fn fallback(s: Machine, m: WindowMetadata, f: WindowFunction) -> Cell {
    if f.args().len() >= 3 {
        window_machine::column(s, m.cursors.csr_current, window::column_of(f.args()[2]))
    } else {
        Cell::Null
    }
}

/// Whether `value` is what a lag or lead gives at the current row: lead reads
/// forward, to rows with greater numbers, and lag backward.
pub open spec fn is_neighbour_value(
    s: Machine,
    m: WindowMetadata,
    f: WindowFunction,
    value: Cell,
) -> bool {
    let here = s.at[m.cursors.csr_current];
    let column = window::column_of(f.args()[0]);
    &&& f.func == AccumulatorFunc::Window(WindowFunc::Lead) ==> value == read_row(
        s,
        here + distance(s, m, f),
        column,
        fallback(s, m, f),
    )
    &&& f.func == AccumulatorFunc::Window(WindowFunc::Lag) ==> value == read_row(
        s,
        here - distance(s, m, f),
        column,
        fallback(s, m, f),
    )
}

#[verifier::rlimit(40)]
proof fn one_neighbour(
    p: Code,
    window: Window,
    f: WindowFunction,
    m: WindowMetadata,
    i: nat,
    s: Machine,
)
    requires
        i < window.functions@.len(),
        window_lookup::is_neighbour(f.func),
        results_before(p, window, m),
        window_lookup::neighbour_lookup(p, f, m, i).fits(),
        has_distance(s, m, f),
    ensures
        ({
            let q = window_lookup::neighbour_lookup(p, f, m, i);
            &&& q.items == p.items + machine::written(p, q)
            &&& machine::exec(
                machine::written(p, q),
                0,
                s,
                window_machine::effects(),
            ) matches Outcome::Through(t) && {
                &&& is_neighbour_value(s, m, f, t.regs[result_reg(m, i as int)])
                &&& leaves_alone(s, t, m, window, p.regs)
                &&& forall|r: usize|
                    r < p.regs && r != result_reg(m, i as int) ==> #[trigger] t.regs[r]
                        == s.regs[r]
            }
        }),
{
    let q = window_lookup::neighbour_lookup(p, f, m, i);
    let items = machine::written(p, q);
    let base = p.items.len() as int;
    let step = window_machine::effects();
    let current = m.cursors.csr_current;
    let app = m.cursors.csr_app->Some_0;
    let result = result_reg(m, i as int);
    let tmp = p.reg();
    let lead = f.func == AccumulatorFunc::Window(WindowFunc::Lead);
    let n = if f.args().len() < 2 {
        6int
    } else {
        7int
    };
    assert(items.len() == n);
    assert(q.items =~= p.items + items);
    let s0 = window_machine::set(s, result, fallback(s, m, f));
    assert(items[0] == q.items[base]);
    assert(machine::exec(items, 0, s, step) == machine::exec(items, 1, s0, step));
    let here = s.at[current];
    let s1 = window_machine::set(s0, tmp, Cell::Int(here));
    assert(items[1] == q.items[base + 1]);
    assert(machine::exec(items, 1, s0, step) == machine::exec(items, 2, s1, step));
    let there = if lead {
        here + distance(s, m, f)
    } else {
        here - distance(s, m, f)
    };
    let k = n - 3;
    let s2 = if f.args().len() < 2 {
        window_machine::set(s1, tmp, Cell::Int(there))
    } else {
        window_machine::set(
            window_machine::set(
                s1,
                (p.regs + 1) as usize,
                window_machine::column(s, current, window::column_of(f.args()[1])),
            ),
            tmp,
            Cell::Int(there),
        )
    };
    if f.args().len() < 2 {
        assert(items[2] == q.items[base + 2]);
        assert(machine::exec(items, 2, s1, step) == machine::exec(items, k, s2, step));
    } else {
        let off = window_machine::set(
            s1,
            (p.regs + 1) as usize,
            window_machine::column(s, current, window::column_of(f.args()[1])),
        );
        assert(items[2] == q.items[base + 2]);
        assert(window_machine::column(s1, current, window::column_of(f.args()[1]))
            == window_machine::column(s, current, window::column_of(f.args()[1])));
        assert(machine::exec(items, 2, s1, step) == machine::exec(items, 3, off, step));
        assert(items[3] == q.items[base + 3]);
        assert(off.regs[tmp] == Cell::Int(here));
        assert(machine::exec(items, 3, off, step) == machine::exec(items, k, s2, step));
    }
    assert(items[k] == q.items[base + k]);
    assert(items[k + 1] == q.items[base + k + 1]);
    assert(items[k + 2] == q.items[base + k + 2]);
    assert(s2.rows == s.rows && s2.at == s.at);
    assert(s2.regs[tmp] == Cell::Int(there));
    assert(s2.regs[result] == fallback(s, m, f));
    if s.rows.contains_key(there) {
        let s3 = Machine { at: s2.at.insert(app, there), ..s2 };
        assert(machine::exec(items, k, s2, step) == machine::exec(items, k + 1, s3, step));
        let s4 = window_machine::set(
            s3,
            result,
            s.rows[there][window::column_of(f.args()[0]) as int],
        );
        assert(machine::exec(items, k + 1, s3, step) == machine::exec(items, k + 2, s4, step));
        assert(machine::exec(items, k + 2, s4, step) == machine::exec(items, k + 3, s4, step));
        assert(machine::exec(items, k + 3, s4, step) == Outcome::Through(s4));
    } else {
        reveal_with_fuel(machine::place, 3);
        assert(machine::exec(items, k, s2, step) == machine::exec(items, k + 3, s2, step));
        assert(machine::exec(items, k + 3, s2, step) == Outcome::Through(s2));
    }
}

pub(crate) proof fn all_neighbours(p: Code, window: Window, m: WindowMetadata, n: nat, s: Machine)
    requires
        n <= window.functions@.len(),
        results_before(p, window, m),
        window_lookup::neighbour_lookups(p, window, m, n).fits(),
        forall|i: int|
            0 <= i < n && window_lookup::is_neighbour((#[trigger] window.functions@[i]).func)
                ==> has_distance(s, m, window.functions@[i]),
    ensures
        ({
            let q = window_lookup::neighbour_lookups(p, window, m, n);
            &&& q.items == p.items + machine::written(p, q)
            &&& machine::exec(
                machine::written(p, q),
                0,
                s,
                window_machine::effects(),
            ) matches Outcome::Through(t) && {
                &&& leaves_alone(s, t, m, window, p.regs)
                &&& forall|i: int|
                    0 <= i < n && window_lookup::is_neighbour(
                        (#[trigger] window.functions@[i]).func,
                    ) ==> is_neighbour_value(
                        s,
                        m,
                        window.functions@[i],
                        t.regs[result_reg(m, i)],
                    )
                &&& forall|i: int|
                    0 <= i < window.functions@.len() && !(i < n && window_lookup::is_neighbour(
                        (#[trigger] window.functions@[i]).func,
                    )) ==> t.regs[result_reg(m, i)] == s.regs[result_reg(m, i)]
            }
        }),
    decreases n,
{
    let q = window_lookup::neighbour_lookups(p, window, m, n);
    let step = window_machine::effects();
    if n == 0 {
        assert(machine::written(p, q) =~= Seq::<Item>::empty());
        assert(q.items =~= p.items + machine::written(p, q));
        assert(machine::exec(machine::written(p, q), 0, s, step) == Outcome::Through(s));
    } else {
        let k = (n - 1) as nat;
        let q1 = window_lookup::neighbour_lookups(p, window, m, k);
        let f = window.functions@[k as int];
        window_lookup::neighbour_lookups_grow(p, window, m, k, n);
        window_lookup::neighbour_lookups_grow(p, window, m, k, k);
        all_neighbours(p, window, m, k, s);
        let t1 = machine::exec(machine::written(p, q1), 0, s, step)->Through_0;
        if window_lookup::is_neighbour(f.func) {
            let current = m.cursors.csr_current;
            assert(t1.at[current] == s.at[current]);
            assert(t1.rows == s.rows);
            one_neighbour(q1, window, f, m, k, t1);
            let a = machine::written(p, q1);
            let b = machine::written(q1, q);
            machine::code_is_executed_in_order(a, b, s, step);
            assert(machine::written(p, q) =~= a + b);
            assert(q.items =~= p.items + machine::written(p, q));
            let t = machine::exec(b, 0, t1, step)->Through_0;
            assert(is_neighbour_value(s, m, f, t.regs[result_reg(m, k as int)]));
            assert forall|i: int|
                0 <= i < k && window_lookup::is_neighbour(
                    (#[trigger] window.functions@[i]).func,
                ) implies is_neighbour_value(
                s,
                m,
                window.functions@[i],
                t.regs[result_reg(m, i)],
            ) by {
                assert(result_reg(m, i) != result_reg(m, k as int));
                assert(t.regs[result_reg(m, i)] == t1.regs[result_reg(m, i)]);
            }
            assert forall|i: int|
                0 <= i < window.functions@.len() && !(i < n && window_lookup::is_neighbour(
                    (#[trigger] window.functions@[i]).func,
                )) implies t.regs[result_reg(m, i)] == s.regs[result_reg(m, i)] by {
                assert(i != k);
                assert(result_reg(m, i) != result_reg(m, k as int));
                assert(t.regs[result_reg(m, i)] == t1.regs[result_reg(m, i)]);
            }
        }
    }
}

/// Every lag and lead of a window finds its row when the code is executed: lead
/// as many rows behind the current one as its second argument says, lag as many
/// before it, and either one row away where it has no second argument. What is
/// found is the first argument in that row; where the buffer holds no such row,
/// it is the third argument in the current row, or NULL where there is none.
pub proof fn lag_and_lead_find_their_rows(p: Code, window: Window, m: WindowMetadata, s: Machine)
    requires
        results_before(p, window, m),
        window_lookup::neighbour_lookups(p, window, m, window.functions@.len()).fits(),
        forall|i: int|
            0 <= i < window.functions@.len() && window_lookup::is_neighbour(
                (#[trigger] window.functions@[i]).func,
            ) ==> has_distance(s, m, window.functions@[i]),
    ensures
        ({
            let q = window_lookup::neighbour_lookups(p, window, m, window.functions@.len());
            machine::exec(
                machine::written(p, q),
                0,
                s,
                window_machine::effects(),
            ) matches Outcome::Through(t) && {
                &&& leaves_alone(s, t, m, window, p.regs)
                &&& forall|i: int|
                    0 <= i < window.functions@.len() && window_lookup::is_neighbour(
                        (#[trigger] window.functions@[i]).func,
                    ) ==> is_neighbour_value(
                        s,
                        m,
                        window.functions@[i],
                        t.regs[result_reg(m, i)],
                    )
            }
        }),
{
    all_neighbours(p, window, m, window.functions@.len(), s);
}

/// In a buffer of rows with the numbers 1 to `n`, with the current one at `r`, a
/// lead without a distance gives the value of row `r + 1`, and NULL at the last
/// row; a lag gives that of row `r - 1`, and NULL at the first.
pub proof fn neighbours_are_one_row_away(
    p: Code,
    window: Window,
    m: WindowMetadata,
    s: Machine,
    n: int,
    r: int,
    i: int,
)
    requires
        results_before(p, window, m),
        window_lookup::neighbour_lookups(p, window, m, window.functions@.len()).fits(),
        forall|j: int|
            0 <= j < window.functions@.len() && window_lookup::is_neighbour(
                (#[trigger] window.functions@[j]).func,
            ) ==> has_distance(s, m, window.functions@[j]),
        forall|k: int| #[trigger] s.rows.contains_key(k) <==> 1 <= k <= n,
        s.at[m.cursors.csr_current] == r,
        1 <= r <= n,
        0 <= i < window.functions@.len(),
        window.functions@[i].args().len() == 1,
    ensures
        ({
            let q = window_lookup::neighbour_lookups(p, window, m, window.functions@.len());
            let f = window.functions@[i];
            let column = window::column_of(f.args()[0]) as int;
            machine::exec(
                machine::written(p, q),
                0,
                s,
                window_machine::effects(),
            ) matches Outcome::Through(t) && {
                let value = t.regs[result_reg(m, i)];
                &&& f.func == AccumulatorFunc::Window(WindowFunc::Lead) ==> value == if r < n {
                    s.rows[r + 1][column]
                } else {
                    Cell::Null
                }
                &&& f.func == AccumulatorFunc::Window(WindowFunc::Lag) ==> value == if r > 1 {
                    s.rows[r - 1][column]
                } else {
                    Cell::Null
                }
            }
        }),
{
    lag_and_lead_find_their_rows(p, window, m, s);
    assert(s.rows.contains_key(r + 1) <==> r < n);
    assert(s.rows.contains_key(r - 1) <==> r > 1);
    let f = window.functions@[i];
    assert(window_lookup::is_neighbour(f.func) ==> has_distance(s, m, f));
}

/// The number of the row that first_value or nth_value wants: the first row, or
/// the one that the second argument says in the current row.
pub open spec fn wanted(s: Machine, m: WindowMetadata, f: WindowFunction) -> Cell {
    if f.func == AccumulatorFunc::Window(WindowFunc::NthValue) {
        window_machine::column(s, m.cursors.csr_current, window::column_of(f.args()[1]))
    } else {
        Cell::Int(1)
    }
}

/// The register with the number of the last row of the frame is one that was
/// given out before `p`, and holds a number.
pub open spec fn knows_frame_end(
    p: Code,
    window: Window,
    m: WindowMetadata,
    s: Machine,
) -> bool {
    m.registers.frame_end_rowid matches Some(end) && end < p.regs && s.regs[end] is Int && !(
    m.registers.acc_result_start <= end < m.registers.acc_result_start + window.functions@.len())
}

pub open spec fn frame_end(m: WindowMetadata, s: Machine) -> int {
    s.regs[m.registers.frame_end_rowid->Some_0]->Int_0
}

/// Whether a first_value or nth_value finds what it wants: a positive number of
/// a row behind the frame's end, or of one that the buffer holds.
pub open spec fn finds(s: Machine, m: WindowMetadata, f: WindowFunction) -> bool {
    wanted(s, m, f) matches Cell::Int(row) && row > 0 && (row > frame_end(m, s)
        || s.rows.contains_key(row))
}

/// One first_value or nth_value, when its code is executed: it gives the first
/// argument in the row that it wants, and NULL where that lies behind the frame's
/// end. A row that is no positive number stops the program, and so does one
/// within the frame that the buffer does not hold.
#[verifier::rlimit(60)]
pub proof fn one_value_is_found(
    p: Code,
    window: Window,
    f: WindowFunction,
    m: WindowMetadata,
    i: nat,
    s: Machine,
)
    requires
        i < window.functions@.len(),
        window::needs_frame_end(f.func),
        results_before(p, window, m),
        knows_frame_end(p, window, m, s),
        window_lookup::value_lookup(p, f, m, i).fits(),
    ensures
        ({
            let q = window_lookup::value_lookup(p, f, m, i);
            &&& q.items == p.items + machine::written(p, q)
            &&& match machine::exec(
                machine::written(p, q),
                0,
                s,
                window_machine::effects(),
            ) {
                Outcome::Through(t) => {
                    &&& finds(s, m, f)
                    &&& t.regs[result_reg(m, i as int)] == if wanted(s, m, f)->Int_0 > frame_end(
                        m,
                        s,
                    ) {
                        Cell::Null
                    } else {
                        s.rows[wanted(s, m, f)->Int_0][window::column_of(f.args()[0]) as int]
                    }
                    &&& leaves_alone(s, t, m, window, p.regs)
                    &&& forall|r: usize|
                        r < p.regs && r != result_reg(m, i as int) ==> #[trigger] t.regs[r]
                            == s.regs[r]
                },
                Outcome::Halted(t) => {
                    &&& !finds(s, m, f)
                    &&& t.stopped == Some(
                        if wanted(s, m, f) matches Cell::Int(row) && row > 0 {
                            HaltReason::MissingFrameRow
                        } else {
                            HaltReason::NthValueArgument
                        },
                    )
                },
                Outcome::Away(_, _) => false,
            }
        }),
{
    let q = window_lookup::value_lookup(p, f, m, i);
    let items = machine::written(p, q);
    let base = p.items.len() as int;
    let step = window_machine::effects();
    let current = m.cursors.csr_current;
    let app = m.cursors.csr_app->Some_0;
    let result = result_reg(m, i as int);
    let target = p.reg();
    let nth = f.func == AccumulatorFunc::Window(WindowFunc::NthValue);
    let k = if nth {
        8int
    } else {
        2int
    };
    assert(items.len() == k + 8);
    assert(q.items =~= p.items + items);
    assert(items[0] == q.items[base]);
    let s0 = window_machine::set(s, result, Cell::Null);
    assert(machine::exec(items, 0, s, step) == machine::exec(items, 1, s0, step));
    assert(items[1] == q.items[base + 1]);
    let s1 = window_machine::set(s0, target, wanted(s, m, f));
    assert(machine::exec(items, 1, s0, step) == machine::exec(items, 2, s1, step));
    let zero = (p.regs + 1) as usize;
    let s2 = if nth {
        window_machine::set(s1, zero, Cell::Int(0))
    } else {
        s1
    };
    if nth {
        assert(items[2] == q.items[base + 2]);
        assert(items[3] == q.items[base + 3]);
        assert(items[4] == q.items[base + 4]);
        assert(items[5] == q.items[base + 5]);
        assert(items[6] == q.items[base + 6]);
        assert(items[7] == q.items[base + 7]);
        reveal_with_fuel(machine::place, 6);
        if wanted(s, m, f) is Int {
            assert(machine::exec(items, 2, s1, step) == machine::exec(items, 3, s1, step));
            assert(machine::exec(items, 3, s1, step) == machine::exec(items, 4, s2, step));
            if wanted(s, m, f)->Int_0 > 0 {
                assert(machine::exec(items, 4, s2, step) == machine::exec(items, 8, s2, step));
            } else {
                assert(machine::exec(items, 4, s2, step) == machine::exec(items, 5, s2, step));
                assert(machine::exec(items, 5, s2, step) == machine::exec(items, 6, s2, step));
            }
        } else {
            assert(machine::exec(items, 2, s1, step) == machine::exec(items, 6, s1, step));
        }
    }
    if wanted(s, m, f) is Int && wanted(s, m, f)->Int_0 > 0 {
        let row = wanted(s, m, f)->Int_0;
        assert(machine::exec(items, 0, s, step) == machine::exec(items, k, s2, step));
        assert(items[k] == q.items[base + k]);
        assert(items[k + 1] == q.items[base + k + 1]);
        assert(items[k + 2] == q.items[base + k + 2]);
        assert(items[k + 3] == q.items[base + k + 3]);
        assert(items[k + 4] == q.items[base + k + 4]);
        assert(items[k + 5] == q.items[base + k + 5]);
        assert(items[k + 6] == q.items[base + k + 6]);
        assert(items[k + 7] == q.items[base + k + 7]);
        assert(s2.regs[target] == Cell::Int(row));
        assert(s2.regs[m.registers.frame_end_rowid->Some_0] == Cell::Int(frame_end(m, s)));
        reveal_with_fuel(machine::place, 8);
        if row > frame_end(m, s) {
            assert(machine::exec(items, k, s2, step) == machine::exec(items, k + 7, s2, step));
            assert(machine::exec(items, k + 7, s2, step) == machine::exec(
                items,
                k + 8,
                s2,
                step,
            ));
            assert(machine::exec(items, k + 8, s2, step) == Outcome::Through(s2));
        } else {
            assert(machine::exec(items, k, s2, step) == machine::exec(items, k + 1, s2, step));
            if s.rows.contains_key(row) {
                let s3 = Machine { at: s2.at.insert(app, row), ..s2 };
                assert(machine::exec(items, k + 1, s2, step) == machine::exec(
                    items,
                    k + 2,
                    s3,
                    step,
                ));
                let s4 = window_machine::set(
                    s3,
                    result,
                    s.rows[row][window::column_of(f.args()[0]) as int],
                );
                assert(machine::exec(items, k + 2, s3, step) == machine::exec(
                    items,
                    k + 3,
                    s4,
                    step,
                ));
                assert(machine::exec(items, k + 3, s4, step) == machine::exec(
                    items,
                    k + 8,
                    s4,
                    step,
                ));
                assert(machine::exec(items, k + 8, s4, step) == Outcome::Through(s4));
            } else {
                assert(machine::exec(items, k + 1, s2, step) == machine::exec(
                    items,
                    k + 5,
                    s2,
                    step,
                ));
            }
        }
    }
}

#[verifier::rlimit(60)]
pub(crate) proof fn all_values(p: Code, window: Window, m: WindowMetadata, n: nat, s: Machine)
    requires
        n <= window.functions@.len(),
        results_before(p, window, m),
        knows_frame_end(p, window, m, s),
        window_lookup::value_lookups(p, window, m, n).fits(),
        forall|i: int|
            0 <= i < n && window::needs_frame_end((#[trigger] window.functions@[i]).func)
                ==> finds(s, m, window.functions@[i]),
    ensures
        ({
            let q = window_lookup::value_lookups(p, window, m, n);
            &&& q.items == p.items + machine::written(p, q)
            &&& machine::exec(
                machine::written(p, q),
                0,
                s,
                window_machine::effects(),
            ) matches Outcome::Through(t) && {
                &&& leaves_alone(s, t, m, window, p.regs)
                &&& forall|i: int|
                    0 <= i < n && window::needs_frame_end((#[trigger] window.functions@[i]).func)
                        ==> t.regs[result_reg(m, i)] == if wanted(
                        s,
                        m,
                        window.functions@[i],
                    )->Int_0 > frame_end(m, s) {
                        Cell::Null
                    } else {
                        s.rows[wanted(s, m, window.functions@[i])->Int_0][window::column_of(
                            window.functions@[i].args()[0],
                        ) as int]
                    }
                &&& forall|i: int|
                    0 <= i < window.functions@.len() && !(i < n && window::needs_frame_end(
                        (#[trigger] window.functions@[i]).func,
                    )) ==> t.regs[result_reg(m, i)] == s.regs[result_reg(m, i)]
            }
        }),
    decreases n,
{
    let q = window_lookup::value_lookups(p, window, m, n);
    let step = window_machine::effects();
    if n == 0 {
        assert(machine::written(p, q) =~= Seq::<Item>::empty());
        assert(q.items =~= p.items + machine::written(p, q));
        assert(machine::exec(machine::written(p, q), 0, s, step) == Outcome::Through(s));
    } else {
        let k = (n - 1) as nat;
        let q1 = window_lookup::value_lookups(p, window, m, k);
        let f = window.functions@[k as int];
        window_lookup::value_lookups_grow(p, window, m, k, n);
        window_lookup::value_lookups_grow(p, window, m, k, k);
        all_values(p, window, m, k, s);
        let t1 = machine::exec(machine::written(p, q1), 0, s, step)->Through_0;
        if window::needs_frame_end(f.func) {
            let current = m.cursors.csr_current;
            assert(t1.at[current] == s.at[current]);
            assert(t1.rows == s.rows);
            assert(t1.regs[m.registers.frame_end_rowid->Some_0]
                == s.regs[m.registers.frame_end_rowid->Some_0]);
            assert(wanted(t1, m, f) == wanted(s, m, f));
            assert(finds(t1, m, f));
            one_value_is_found(q1, window, f, m, k, t1);
            let a = machine::written(p, q1);
            let b = machine::written(q1, q);
            machine::code_is_executed_in_order(a, b, s, step);
            assert(machine::written(p, q) =~= a + b);
            assert(q.items =~= p.items + machine::written(p, q));
            let t = machine::exec(b, 0, t1, step)->Through_0;
            assert forall|i: int|
                0 <= i < window.functions@.len() && i != k implies #[trigger] t.regs[result_reg(
                m,
                i,
            )] == t1.regs[result_reg(m, i)] by {
                assert(result_reg(m, i) != result_reg(m, k as int));
            }
        }
    }
}

/// Every first_value and nth_value of a window finds its row when the code is
/// executed: row one, or the row that its second argument says, counted from the
/// start of the partition. It is NULL where that row lies behind the frame's end.
pub proof fn first_and_nth_values_find_their_rows(
    p: Code,
    window: Window,
    m: WindowMetadata,
    s: Machine,
)
    requires
        results_before(p, window, m),
        knows_frame_end(p, window, m, s),
        window_lookup::value_lookups(p, window, m, window.functions@.len()).fits(),
        forall|i: int|
            0 <= i < window.functions@.len() && window::needs_frame_end(
                (#[trigger] window.functions@[i]).func,
            ) ==> finds(s, m, window.functions@[i]),
    ensures
        ({
            let q = window_lookup::value_lookups(p, window, m, window.functions@.len());
            machine::exec(
                machine::written(p, q),
                0,
                s,
                window_machine::effects(),
            ) matches Outcome::Through(t) && {
                &&& leaves_alone(s, t, m, window, p.regs)
                &&& forall|i: int|
                    0 <= i < window.functions@.len() ==> {
                        let f = #[trigger] window.functions@[i];
                        let row = if f.func == AccumulatorFunc::Window(WindowFunc::FirstValue) {
                            1int
                        } else {
                            window_machine::column(
                                s,
                                m.cursors.csr_current,
                                window::column_of(f.args()[1]),
                            )->Int_0
                        };
                        window::needs_frame_end(f.func) ==> t.regs[result_reg(m, i)] == if row
                            > frame_end(m, s) {
                            Cell::Null
                        } else {
                            s.rows[row][window::column_of(f.args()[0]) as int]
                        }
                    }
            }
        }),
{
    all_values(p, window, m, window.functions@.len(), s);
}

} // verus!
