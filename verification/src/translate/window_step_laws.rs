//! What the operations on frames do when they are executed.

use vstd::prelude::*;
use crate::translate::machine;
use crate::translate::machine::Outcome;
use crate::translate::program::{Code, Insn, Item, Label};
use crate::translate::window;
use crate::translate::window::{FrameMode, Window, WindowMetadata};
use crate::translate::window_emit;
use crate::translate::window_emit::WindowOp;
use crate::translate::window_emit_laws;
use crate::translate::window_laws;
use crate::translate::window_lookup;
use crate::translate::window_lookup_laws;
use crate::translate::window_machine;
use crate::translate::window_machine::{Cell, Machine};
use crate::translate::window_step;

verus! {

/// Whether registers from `a` on and those from `b` on are different ones.
pub open spec fn apart(a: int, m: int, b: int, n: int) -> bool {
    a + m <= b || b + n <= a
}

/// Whether the registers of a window were given out before `p`, and no two of
/// them for one purpose and another.
pub open spec fn registers_apart(p: Code, window: Window, m: WindowMetadata) -> bool {
    let r = m.registers;
    let n = window.functions@.len() as int;
    let k = m.expressions_referencing_subquery@.len() as int;
    &&& r.acc_start + n <= p.regs
    &&& r.acc_result_start + n <= p.regs
    &&& r.result_columns_start + k <= p.regs
    &&& apart(r.acc_start as int, n, r.acc_result_start as int, n)
    &&& apart(r.acc_start as int, n, r.result_columns_start as int, k)
    &&& apart(r.acc_result_start as int, n, r.result_columns_start as int, k)
    &&& r.frame_end_rowid matches Some(end) ==> {
        &&& end < p.regs
        &&& apart(end as int, 1, r.acc_start as int, n)
        &&& apart(end as int, 1, r.acc_result_start as int, n)
        &&& apart(end as int, 1, r.result_columns_start as int, k)
    }
}

/// The machine with a cursor at the next row, where there is one, and its row
/// deleted before that where no operation will reach it any more.
pub open spec fn advanced(s: Machine, window: Window, m: WindowMetadata, op: WindowOp) -> Machine {
    let csr = window_step::op_cursor(m, op);
    let kept = if window_emit::delete_op(window, m.cursors.csr_app is Some) == Some(op) {
        Machine { rows: s.rows.remove(s.at[csr]), ..s }
    } else {
        s
    };
    if window_machine::has_next(kept.rows, s.at[csr]) {
        Machine { at: s.at.insert(csr, window_machine::next_row(kept.rows, s.at[csr])), ..kept }
    } else {
        kept
    }
}

/// Whether there is a row behind the one that a cursor stands at.
pub open spec fn goes_on(s: Machine, m: WindowMetadata, op: WindowOp) -> bool {
    window_machine::has_next(s.rows, s.at[window_step::op_cursor(m, op)])
}

proof fn deleting_keeps_next(rows: Map<int, Seq<Cell>>, at: int)
    ensures
        window_machine::has_next(rows.remove(at), at) == window_machine::has_next(rows, at),
{
    if window_machine::has_next(rows, at) {
        let next = window_machine::next_row(rows, at);
        assert(window_machine::is_next(rows, at, next));
        assert(window_machine::is_next(rows.remove(at), at, next));
    }
    if window_machine::has_next(rows.remove(at), at) {
        let next = window_machine::next_row(rows.remove(at), at);
        assert(window_machine::is_next(rows.remove(at), at, next));
        assert forall|k: int| at < k < next implies !#[trigger] rows.contains_key(k) by {
            assert(!rows.remove(at).contains_key(k));
        }
        assert(window_machine::is_next(rows, at, next));
    }
}

/// Behind an operation the cursor goes to the next row. Where there is none, the
/// code goes on at the label that says so; under ROWS without such a label it
/// just goes on.
pub proof fn cursors_advance(
    p: Code,
    window: Window,
    m: WindowMetadata,
    op: WindowOp,
    break_on_eof: Option<Label>,
    done: Label,
    s: Machine,
)
    requires
        window_step::advance(p, window, m, op, break_on_eof, done).fits(),
        window.frame.mode == FrameMode::Rows || break_on_eof is Some,
        break_on_eof matches Some(target) ==> target.0 < p.labels,
    ensures
        ({
            let q = window_step::advance(p, window, m, op, break_on_eof, done);
            let outcome = machine::exec(
                machine::written(p, q),
                0,
                s,
                window_machine::effects(),
            );
            let t = advanced(s, window, m, op);
            &&& machine::extends(p, q)
            &&& if goes_on(s, m, op) || break_on_eof is None {
                outcome == Outcome::Through(t)
            } else {
                outcome == Outcome::Away(break_on_eof->Some_0, t)
            }
        }),
{
    let q = window_step::advance(p, window, m, op, break_on_eof, done);
    let step = window_machine::effects();
    let items = machine::written(p, q);
    let base = p.items.len() as int;
    let csr = window_step::op_cursor(m, op);
    let deletes = window_emit::delete_op(window, m.cursors.csr_app is Some) == Some(op);
    let k = if deletes {
        1int
    } else {
        0int
    };
    let n = if break_on_eof is Some {
        k + 3
    } else {
        k + 2
    };
    deleting_keeps_next(s.rows, s.at[csr]);
    assert(items.len() == n);
    let kept = if deletes {
        Machine { rows: s.rows.remove(s.at[csr]), ..s }
    } else {
        s
    };
    assert(items[0] == q.items[base]);
    assert(items[k] == q.items[base + k]);
    assert(items[n - 1] == q.items[base + n - 1]);
    assert(machine::exec(items, 0, s, step) == machine::exec(items, k, kept, step));
    let t = advanced(s, window, m, op);
    let after = p.label(0);
    assert(items[n - 1] == Item::Bind(after));
    if goes_on(s, m, op) {
        assert forall|j: int| k + 1 <= j < n - 1 implies #[trigger] items[j] != Item::Bind(
            after,
        ) by {
            assert(items[j] == q.items[base + j]);
        }
        machine::place_found(items, after, k + 1, n - 1);
        assert(machine::exec(items, k, kept, step) == machine::exec(items, n, t, step));
    } else {
        assert(machine::exec(items, k, kept, step) == machine::exec(items, k + 1, t, step));
        if let Some(target) = break_on_eof {
            assert(items[k + 1] == q.items[base + k + 1]);
            assert forall|j: int| k + 2 <= j < n implies #[trigger] items[j] != Item::Bind(
                target,
            ) by {
                assert(items[j] == q.items[base + j]);
            }
            machine::place_absent(items, target, k + 2);
        } else {
            assert(machine::exec(items, k + 1, t, step) == machine::exec(items, n, t, step));
        }
    }
    if goes_on(s, m, op) || break_on_eof is None {
        assert(machine::exec(items, n, t, step) == Outcome::Through(t));
    }
}

/// Whether the states of functions are those behind one more row.
pub open spec fn all_stepped(
    window: Window,
    m: WindowMetadata,
    row: Seq<Cell>,
    before: Map<usize, Cell>,
    after: Map<usize, Cell>,
) -> bool {
    forall|i: int|
        0 <= i < window.functions@.len() ==> {
            let f = #[trigger] window.functions@[i];
            let reg = window_emit_laws::state_reg(m, i);
            after[reg] == if window::is_positional(f.func) {
                before[reg]
            } else {
                window_emit_laws::stepped(f, row, before[reg])
            }
        }
}

/// What an operation does before its cursor advances.
pub open spec fn acted(
    gated: Code,
    window: Window,
    m: WindowMetadata,
    op: WindowOp,
    again: Label,
) -> Code {
    let valued = if op == WindowOp::ReturnRow {
        window_step::final_values(gated, window, m, window.functions@.len())
    } else {
        gated
    };
    window_step::op_body(valued.take_labels(1).bind(again), window, m, op)
}

/// Whether an operation waits, because its countdown is positive.
pub open spec fn waits(countdown: Option<usize>, s: Machine) -> bool {
    countdown matches Some(reg) && s.regs[reg] matches Cell::Int(n) && n > 0
}

/// How an operation ends: where its cursor was at the last row, at `break_on_eof`
/// if there is such a label.
pub open spec fn ended(
    s: Machine,
    t: Machine,
    m: WindowMetadata,
    op: WindowOp,
    break_on_eof: Option<Label>,
) -> Outcome<Machine> {
    if goes_on(s, m, op) || break_on_eof is None {
        Outcome::Through(t)
    } else {
        Outcome::Away(break_on_eof->Some_0, t)
    }
}

/// A row that waits to be returned counts down by one, and nothing else is done.
pub proof fn returning_waits(
    p: Code,
    window: Window,
    m: WindowMetadata,
    reg: usize,
    break_on_eof: Option<Label>,
    s: Machine,
    n: int,
)
    requires
        window.frame.mode == FrameMode::Rows,
        window_step::window_op(p, window, m, WindowOp::ReturnRow, Some(reg), break_on_eof).fits(),
        m.labels.row_output.0 < u32::MAX,
        break_on_eof matches Some(target) ==> target.0 < u32::MAX,
        s.regs[reg] == Cell::Int(n),
        n > 0,
    ensures
        machine::leads(
            p,
            window_step::window_op(p, window, m, WindowOp::ReturnRow, Some(reg), break_on_eof),
            s,
            window_machine::set(s, reg, Cell::Int(n - 1)),
            window_machine::effects(),
        ),
{
    let op = WindowOp::ReturnRow;
    let countdown = Some(reg);
    let q = window_step::window_op(p, window, m, op, countdown, break_on_eof);
    let step = window_machine::effects();
    let done = p.label(0);
    let again = p.label(1);
    let start = p.take_labels(1);
    let t = window_machine::set(s, reg, Cell::Int(n - 1));
    window_step::window_op_grows(p, window, m, op, countdown, break_on_eof);
    machine::leads_nowhere(p, start, s, step);
    let item = Item::Op(Insn::IfPos { reg, target_pc: done, decrement_by: 1 });
    let gated = start.op(Insn::IfPos { reg, target_pc: done, decrement_by: 1 });
    machine::jumps_by_one(p, start, gated, item, done, s, s, t, step);
    let size = window.functions@.len();
    let bound = u32::MAX as nat;
    window_step::final_values_keeps(gated, window, m, size);
    window_laws::final_values_sound(gated, window, m, size, done, bound);
    let valued = window_step::final_values(gated, window, m, size);
    let begin = valued.take_labels(1).bind(again);
    window_laws::bind_places(valued.take_labels(1), again, done);
    window_step::op_body_grows(begin, window, m, op);
    let body = window_step::op_body(begin, window, m, op);
    window_laws::op_body_sound(begin, window, m, op, done, bound);
    let moved = window_step::advance(body, window, m, op, break_on_eof, done);
    window_laws::advance_sound(body, window, m, op, break_on_eof, done, done, bound);
    returning_adds(gated, window, m, again);
    assert(machine::extends(body, moved));
    assert(machine::extends(gated, moved)) by {
        assert forall|i: int| 0 <= i < gated.items.len() implies gated.items[i]
            == moved.items[i] by {
            assert(gated.items[i] == body.items[i]);
        }
    }
    window_laws::places_between(gated, moved, done);
    machine::ends_away(p, gated, moved, done, s, t, step);
    machine::jump_lands(p, moved, q, done, s, t, step);
}

proof fn values_add(p: Code, window: Window, m: WindowMetadata, n: nat)
    ensures
        machine::extends(p, window_step::final_values(p, window, m, n)),
    decreases n,
{
    if n > 0 {
        values_add(p, window, m, (n - 1) as nat);
    }
}

proof fn columns_add(p: Code, m: WindowMetadata, n: nat)
    ensures
        machine::extends(p, window_emit::result_columns(p, m, n)),
    decreases n,
{
    if n > 0 {
        columns_add(p, m, (n - 1) as nat);
    }
}

proof fn value_lookups_add(p: Code, window: Window, m: WindowMetadata, n: nat)
    ensures
        machine::extends(p, window_lookup::value_lookups(p, window, m, n)),
    decreases n,
{
    if n > 0 {
        value_lookups_add(p, window, m, (n - 1) as nat);
    }
}

proof fn neighbour_lookups_add(p: Code, window: Window, m: WindowMetadata, n: nat)
    ensures
        machine::extends(p, window_lookup::neighbour_lookups(p, window, m, n)),
    decreases n,
{
    if n > 0 {
        neighbour_lookups_add(p, window, m, (n - 1) as nat);
    }
}

proof fn returning_adds(gated: Code, window: Window, m: WindowMetadata, again: Label)
    ensures
        machine::extends(gated, acted(gated, window, m, WindowOp::ReturnRow, again)),
{
    let n = window.functions@.len();
    values_add(gated, window, m, n);
    let valued = window_step::final_values(gated, window, m, n);
    let begun = valued.take_labels(1).bind(again);
    let k = m.expressions_referencing_subquery@.len();
    columns_add(begun, m, k);
    let columns = window_emit::result_columns(begun, m, k);
    value_lookups_add(columns, window, m, n);
    let values = window_lookup::value_lookups(columns, window, m, n);
    neighbour_lookups_add(values, window, m, n);
    let looked = window_lookup::neighbour_lookups(values, window, m, n);
    let q = acted(gated, window, m, WindowOp::ReturnRow, again);
    assert(looked.items.is_prefix_of(q.items));
    assert forall|i: int| 0 <= i < gated.items.len() implies gated.items[i] == q.items[i] by {
        assert(gated.items[i] == valued.items[i]);
        assert(valued.items[i] == begun.items[i]);
        assert(begun.items[i] == columns.items[i]);
        assert(columns.items[i] == values.items[i]);
        assert(values.items[i] == looked.items[i]);
        assert(looked.items[i] == q.items[i]);
    }
}

proof fn inverses_add(p: Code, window: Window, m: WindowMetadata, n: nat)
    ensures
        machine::extends(p, window_emit::inverse_functions(p, window, m, n)),
    decreases n,
{
    if n > 0 {
        inverses_add(p, window, m, (n - 1) as nat);
    }
}

/// Under ROWS, the code of an operation has no place for labels that were given
/// out before.
pub(crate) proof fn operations_add(
    p: Code,
    window: Window,
    m: WindowMetadata,
    op: WindowOp,
    countdown: Option<usize>,
    break_on_eof: Option<Label>,
    label: Label,
)
    requires
        window.frame.mode == FrameMode::Rows,
        op != WindowOp::AggStep,
        window_step::window_op(p, window, m, op, countdown, break_on_eof).fits(),
        m.labels.row_output.0 < u32::MAX,
        break_on_eof matches Some(target) ==> target.0 < u32::MAX,
        label.0 < p.labels,
    ensures
        machine::extends(p, window_step::window_op(p, window, m, op, countdown, break_on_eof)),
        window_laws::places(
            window_step::window_op(p, window, m, op, countdown, break_on_eof).items,
            label,
        ) == window_laws::places(p.items, label),
{
    broadcast use window_laws::group_sound;

    let q = window_step::window_op(p, window, m, op, countdown, break_on_eof);
    let done = p.label(0);
    let again = p.label(1);
    let gated = gated_by(p, countdown);
    let size = window.functions@.len();
    let bound = u32::MAX as nat;
    window_step::window_op_grows(p, window, m, op, countdown, break_on_eof);
    window_step::final_values_keeps(gated, window, m, size);
    window_laws::final_values_sound(gated, window, m, size, label, bound);
    let valued = if op == WindowOp::ReturnRow {
        window_step::final_values(gated, window, m, size)
    } else {
        gated
    };
    let begin = valued.take_labels(1).bind(again);
    window_step::op_body_grows(begin, window, m, op);
    let body = window_step::op_body(begin, window, m, op);
    window_laws::op_body_sound(begin, window, m, op, label, bound);
    let moved = window_step::advance(body, window, m, op, break_on_eof, done);
    window_laws::advance_sound(body, window, m, op, break_on_eof, done, label, bound);
    if op == WindowOp::ReturnRow {
        returning_adds(gated, window, m, again);
    } else {
        inverses_add(begin, window, m, size);
        assert(machine::extends(gated, begin));
    }
    assert(machine::extends(body, moved));
    assert forall|i: int| 0 <= i < p.items.len() implies p.items[i] == q.items[i] by {
        assert(p.items[i] == gated.items[i]);
        assert(gated.items[i] == begin.items[i]) by {
            if op == WindowOp::ReturnRow {
                values_add(gated, window, m, size);
                assert(gated.items[i] == valued.items[i]);
            }
        }
        assert(gated.items[i] == body.items[i]);
        assert(body.items[i] == moved.items[i]);
    }
}

/// An operation that does not wait ends as its cursor does.
proof fn operations_end(
    p: Code,
    window: Window,
    m: WindowMetadata,
    op: WindowOp,
    countdown: Option<usize>,
    break_on_eof: Option<Label>,
    s: Machine,
    t: Machine,
)
    requires
        window.frame.mode == FrameMode::Rows,
        window_step::window_op(p, window, m, op, countdown, break_on_eof).fits(),
        break_on_eof matches Some(target) ==> target.0 < p.labels,
        !waits(countdown, s),
        machine::leads(
            gated_by(p, countdown),
            acted(gated_by(p, countdown), window, m, op, p.label(1)),
            s,
            t,
            window_machine::effects(),
        ),
        goes_on(s, m, op) == goes_on(t, m, op),
    ensures
        machine::ends(
            p,
            window_step::window_op(p, window, m, op, countdown, break_on_eof),
            s,
            ended(s, advanced(t, window, m, op), m, op, break_on_eof),
            window_machine::effects(),
        ),
{
    let q = window_step::window_op(p, window, m, op, countdown, break_on_eof);
    let step = window_machine::effects();
    let done = p.label(0);
    let start = p.take_labels(1);
    window_step::window_op_grows(p, window, m, op, countdown, break_on_eof);
    machine::leads_nowhere(p, start, s, step);
    let gated = gated_by(p, countdown);
    if let Some(reg) = countdown {
        let item = Item::Op(Insn::IfPos { reg, target_pc: done, decrement_by: 1 });
        machine::leads_by_one(p, start, gated, item, s, s, s, step);
    }
    let body = acted(gated, window, m, op, p.label(1));
    machine::leads_on(p, gated, body, s, s, t, step);
    let moved = window_step::advance(body, window, m, op, break_on_eof, done);
    window_step::final_values_keeps(gated, window, m, window.functions@.len());
    let valued = if op == WindowOp::ReturnRow {
        window_step::final_values(gated, window, m, window.functions@.len())
    } else {
        gated
    };
    window_step::op_body_grows(valued.take_labels(1).bind(p.label(1)), window, m, op);
    cursors_advance(body, window, m, op, break_on_eof, done, t);
    let u = advanced(t, window, m, op);
    let outcome = ended(s, u, m, op, break_on_eof);
    machine::ends_on(p, body, moved, s, t, outcome, step);
    match outcome {
        Outcome::Through(_) => {
            machine::leads_by_one(p, moved, q, Item::Bind(done), s, u, u, step);
        },
        Outcome::Away(label, _) => {
            let one = machine::written(moved, q);
            assert(one =~= seq![Item::Bind(done)]);
            assert(one[0] == Item::Bind(done));
            machine::place_absent(one, label, 0);
            assert(machine::extends(moved, q));
            machine::ends_away(p, moved, q, label, s, u, step);
        },
        _ => {},
    }
}

/// The code in front of an operation, by which it waits.
pub open spec fn gated_by(p: Code, countdown: Option<usize>) -> Code {
    match countdown {
        Some(reg) => p.take_labels(1).op(
            Insn::IfPos { reg, target_pc: p.label(0), decrement_by: 1 },
        ),
        None => p.take_labels(1),
    }
}

/// Whether the row at the frame's end has entered the frame between `s` and `t`:
/// every function has stepped by it, and the frame's end has gone on.
pub open spec fn row_entered(window: Window, m: WindowMetadata, s: Machine, t: Machine) -> bool {
    &&& all_stepped(
        window,
        m,
        window_emit_laws::row_at(s, m.cursors.csr_end),
        s.regs,
        t.regs,
    )
    &&& m.registers.frame_end_rowid matches Some(end) ==> t.regs[end] == Cell::Int(
        s.at[m.cursors.csr_end],
    )
    &&& t.rows == s.rows
    &&& t.calls == s.calls
    &&& t.last == s.last
    &&& t.at == if goes_on(s, m, WindowOp::AggStep) {
        s.at.insert(
            m.cursors.csr_end,
            window_machine::next_row(s.rows, s.at[m.cursors.csr_end]),
        )
    } else {
        s.at
    }
}

/// Under ROWS, the row at the frame's end enters the frame: every function with a
/// state steps by it, its number becomes that of the last row of the frame, and
/// the frame's end goes on to the next row. Rows stay in the buffer, and nothing
/// is returned.
pub proof fn a_row_enters_the_frame(
    p: Code,
    window: Window,
    m: WindowMetadata,
    countdown: Option<usize>,
    break_on_eof: Option<Label>,
    s: Machine,
) -> (t: Machine)
    requires
        window.frame.mode == FrameMode::Rows,
        window_step::window_op(p, window, m, WindowOp::AggStep, countdown, break_on_eof).fits(),
        break_on_eof matches Some(target) ==> target.0 < p.labels,
        !waits(countdown, s),
        registers_apart(p, window, m),
        forall|i: int|
            0 <= i < window.functions@.len() ==> window_emit_laws::reads_columns(
                #[trigger] window.functions@[i],
            ),
    ensures
        machine::ends(
            p,
            window_step::window_op(p, window, m, WindowOp::AggStep, countdown, break_on_eof),
            s,
            ended(s, t, m, WindowOp::AggStep, break_on_eof),
            window_machine::effects(),
        ),
        row_entered(window, m, s, t),
        forall|r: usize|
            r < p.regs && Some(r) != m.registers.frame_end_rowid && !(m.registers.acc_start <= r
                < m.registers.acc_start + window.functions@.len()) ==> #[trigger] t.regs[r]
                == s.regs[r],
{
    let op = WindowOp::AggStep;
    let step = window_machine::effects();
    let again = p.label(1);
    let gated = gated_by(p, countdown);
    let begun = gated.take_labels(1).bind(again);
    machine::leads_nowhere(gated, gated, s, step);
    machine::leads_by_one(gated, gated, begun, Item::Bind(again), s, s, s, step);
    let n = window.functions@.len();
    window_step::window_op_grows(p, window, m, op, countdown, break_on_eof);
    window_step::op_body_grows(begun, window, m, op);
    window_emit::step_functions_grow(begun, window, m, m.cursors.csr_end, n, n);
    let stepped = window_emit::step_functions(begun, window, m, m.cursors.csr_end, n);
    let body = window_step::op_body(begun, window, m, op);
    let t1 = window_emit_laws::functions_step_by_the_row(
        begun,
        window,
        m,
        m.cursors.csr_end,
        n,
        s,
    );
    machine::leads_on(gated, begun, stepped, s, s, t1, step);
    let t2 = match m.registers.frame_end_rowid {
        Some(end) => window_machine::set(t1, end, Cell::Int(s.at[m.cursors.csr_end])),
        None => t1,
    };
    if m.registers.frame_end_rowid is Some {
        machine::leads_by_one(gated, stepped, body, body.items.last(), s, t1, t2, step);
    }
    operations_end(p, window, m, op, countdown, break_on_eof, s, t2);
    advanced(t2, window, m, op)
}

/// A row is deleted from the buffer only when no operation will reach it any
/// more: never while rows are looked up; behind the operation that returns it
/// where rows never leave the frame, or have left it before, counted row by row
/// or group by group; and behind the one by which it leaves the frame where that
/// comes last. No row is deleted when it enters the frame.
pub proof fn rows_are_deleted_when_done_with(window: Window)
    ensures
        window_emit::delete_op(window, true) is None,
        window_emit::delete_op(window, false) != Some(WindowOp::AggStep),
        window_emit::delete_op(window, false) == Some(WindowOp::ReturnRow)
            <==> window.frame.start is UnboundedPreceding || (window.frame.start is Following
            && window.frame.mode != FrameMode::Range),
        window_emit::delete_op(window, false) == Some(WindowOp::AggInverse)
            <==> window.frame.start is CurrentRow || window.frame.start is Preceding,
{
}

/// Whether the values that a function returns stand in `regs`, for the machine
/// `s` when the row at the current cursor is returned.
pub open spec fn holds_results(
    window: Window,
    m: WindowMetadata,
    s: Machine,
    regs: Map<usize, Cell>,
) -> bool {
    &&& forall|i: int|
        0 <= i < window.functions@.len() ==> {
            let f = #[trigger] window.functions@[i];
            let value = regs[window_lookup_laws::result_reg(m, i)];
            &&& !window::is_positional(f.func) ==> value == window_machine::value_of(
                f.func,
                s.regs[window_emit_laws::state_reg(m, i)],
            )
            &&& window_lookup::is_neighbour(f.func) ==> window_lookup_laws::is_neighbour_value(
                s,
                m,
                f,
                value,
            )
            &&& window::needs_frame_end(f.func) ==> {
                let row = window_lookup_laws::wanted(s, m, f)->Int_0;
                value == if row > window_lookup_laws::frame_end(m, s) {
                    Cell::Null
                } else {
                    s.rows[row][window::column_of(f.args()[0]) as int]
                }
            }
        }
    &&& forall|i: int|
        0 <= i < m.expressions_referencing_subquery@.len()
            ==> regs[(m.registers.result_columns_start + i) as usize] == window_emit_laws::row_at(
            s,
            m.cursors.csr_current,
        )[(#[trigger] m.expressions_referencing_subquery@[i]).column as int]
}

/// Whether what functions look up can be found.
pub open spec fn lookups_succeed(
    p: Code,
    window: Window,
    m: WindowMetadata,
    s: Machine,
) -> bool {
    forall|i: int|
        0 <= i < window.functions@.len() ==> {
            let f = #[trigger] window.functions@[i];
            &&& window::is_positional(f.func) ==> window_lookup_laws::results_before(p, window, m)
            &&& window_lookup::is_neighbour(f.func) ==> window_lookup_laws::has_distance(s, m, f)
            &&& window::needs_frame_end(f.func) ==> {
                &&& window_lookup_laws::knows_frame_end(p, window, m, s)
                &&& window_lookup_laws::finds(s, m, f)
            }
        }
}

proof fn no_values(p: Code, window: Window, m: WindowMetadata, n: nat)
    requires
        n <= window.functions@.len(),
        forall|i: int|
            0 <= i < n ==> !window::needs_frame_end((#[trigger] window.functions@[i]).func),
    ensures
        window_lookup::value_lookups(p, window, m, n) == p,
    decreases n,
{
    if n > 0 {
        no_values(p, window, m, (n - 1) as nat);
        assert(!window::needs_frame_end(window.functions@[n - 1].func));
    }
}

proof fn no_neighbours(p: Code, window: Window, m: WindowMetadata, n: nat)
    requires
        n <= window.functions@.len(),
        forall|i: int|
            0 <= i < n ==> !window_lookup::is_neighbour((#[trigger] window.functions@[i]).func),
    ensures
        window_lookup::neighbour_lookups(p, window, m, n) == p,
    decreases n,
{
    if n > 0 {
        no_neighbours(p, window, m, (n - 1) as nat);
        assert(!window_lookup::is_neighbour(window.functions@[n - 1].func));
    }
}

proof fn looking_up_values(p: Code, window: Window, m: WindowMetadata, s: Machine) -> (t: Machine)
    requires
        registers_apart(p, window, m),
        lookups_succeed(p, window, m, s),
        window_lookup::value_lookups(p, window, m, window.functions@.len()).fits(),
    ensures
        machine::leads(
            p,
            window_lookup::value_lookups(p, window, m, window.functions@.len()),
            s,
            t,
            window_machine::effects(),
        ),
        t.rows == s.rows,
        t.last == s.last,
        t.calls == s.calls,
        forall|c: usize| Some(c) != m.cursors.csr_app ==> #[trigger] t.at[c] == s.at[c],
        forall|r: usize|
            r < p.regs && !(m.registers.acc_result_start <= r < m.registers.acc_result_start
                + window.functions@.len()) ==> #[trigger] t.regs[r] == s.regs[r],
        forall|i: int|
            0 <= i < window.functions@.len() ==> {
                let f = #[trigger] window.functions@[i];
                let reg = window_lookup_laws::result_reg(m, i);
                let row = window_lookup_laws::wanted(s, m, f)->Int_0;
                t.regs[reg] == if !window::needs_frame_end(f.func) {
                    s.regs[reg]
                } else if row > window_lookup_laws::frame_end(m, s) {
                    Cell::Null
                } else {
                    s.rows[row][window::column_of(f.args()[0]) as int]
                }
            },
{
    let n = window.functions@.len();
    let q = window_lookup::value_lookups(p, window, m, n);
    let step = window_machine::effects();
    if exists|i: int|
        0 <= i < n && window::needs_frame_end((#[trigger] window.functions@[i]).func) {
        let i = choose|i: int|
            0 <= i < n && window::needs_frame_end((#[trigger] window.functions@[i]).func);
        assert(window::is_positional(window.functions@[i].func));
        window_lookup_laws::all_values(p, window, m, n, s);
        let t = machine::exec(machine::written(p, q), 0, s, step)->Through_0;
        assert(machine::extends(p, q));
        t
    } else {
        no_values(p, window, m, n);
        machine::leads_nowhere(p, q, s, step);
        s
    }
}

proof fn looking_up_neighbours(p: Code, window: Window, m: WindowMetadata, s: Machine) -> (t:
    Machine)
    requires
        registers_apart(p, window, m),
        forall|i: int|
            0 <= i < window.functions@.len() ==> {
                let f = #[trigger] window.functions@[i];
                &&& window::is_positional(f.func) ==> window_lookup_laws::results_before(
                    p,
                    window,
                    m,
                )
                &&& window_lookup::is_neighbour(f.func) ==> window_lookup_laws::has_distance(
                    s,
                    m,
                    f,
                )
            },
        window_lookup::neighbour_lookups(p, window, m, window.functions@.len()).fits(),
    ensures
        machine::leads(
            p,
            window_lookup::neighbour_lookups(p, window, m, window.functions@.len()),
            s,
            t,
            window_machine::effects(),
        ),
        t.rows == s.rows,
        t.last == s.last,
        t.calls == s.calls,
        forall|c: usize| Some(c) != m.cursors.csr_app ==> #[trigger] t.at[c] == s.at[c],
        forall|r: usize|
            r < p.regs && !(m.registers.acc_result_start <= r < m.registers.acc_result_start
                + window.functions@.len()) ==> #[trigger] t.regs[r] == s.regs[r],
        forall|i: int|
            0 <= i < window.functions@.len() ==> {
                let f = #[trigger] window.functions@[i];
                let reg = window_lookup_laws::result_reg(m, i);
                if window_lookup::is_neighbour(f.func) {
                    window_lookup_laws::is_neighbour_value(s, m, f, t.regs[reg])
                } else {
                    t.regs[reg] == s.regs[reg]
                }
            },
{
    let n = window.functions@.len();
    let q = window_lookup::neighbour_lookups(p, window, m, n);
    let step = window_machine::effects();
    if exists|i: int|
        0 <= i < n && window_lookup::is_neighbour((#[trigger] window.functions@[i]).func) {
        let i = choose|i: int|
            0 <= i < n && window_lookup::is_neighbour((#[trigger] window.functions@[i]).func);
        assert(window::is_positional(window.functions@[i].func));
        window_lookup_laws::all_neighbours(p, window, m, n, s);
        let t = machine::exec(machine::written(p, q), 0, s, step)->Through_0;
        assert(machine::extends(p, q));
        t
    } else {
        no_neighbours(p, window, m, n);
        machine::leads_nowhere(p, q, s, step);
        s
    }
}

/// Whether the row at the current cursor has been returned between `s` and `t`: by
/// one call, with all values in their registers. The cursor has gone on, and
/// states have stayed as they were.
pub open spec fn row_returned(window: Window, m: WindowMetadata, s: Machine, t: Machine) -> bool {
    let current = m.cursors.csr_current;
    &&& t.calls.len() == s.calls.len() + 1
    &&& t.calls.drop_last() == s.calls
    &&& t.calls.last().0 == m.labels.row_output
    &&& holds_results(window, m, s, t.calls.last().1)
    &&& t.rows == if window_emit::delete_op(window, m.cursors.csr_app is Some) == Some(
        WindowOp::ReturnRow,
    ) {
        s.rows.remove(s.at[current])
    } else {
        s.rows
    }
    &&& goes_on(s, m, WindowOp::ReturnRow) ==> window_machine::is_next(
        t.rows,
        s.at[current],
        t.at[current],
    )
    &&& forall|c: usize|
        c != current && Some(c) != m.cursors.csr_app ==> #[trigger] t.at[c] == s.at[c]
    &&& forall|i: int|
        0 <= i < window.functions@.len() ==> t.regs[window_emit_laws::state_reg(m, i)]
            == #[trigger] s.regs[window_emit_laws::state_reg(m, i)]
}

/// Whether a register is none of those that a row is returned in.
pub open spec fn kept_by_returning(window: Window, m: WindowMetadata, r: usize) -> bool {
    &&& !(m.registers.acc_result_start <= r < m.registers.acc_result_start
        + window.functions@.len())
    &&& !(m.registers.result_columns_start <= r < m.registers.result_columns_start
        + m.expressions_referencing_subquery@.len())
}

/// Whether the row at the frame's start has left the frame between `s` and `t`:
/// every function has stepped back once, and the frame's start has gone on.
pub open spec fn row_left(window: Window, m: WindowMetadata, s: Machine, t: Machine) -> bool {
    let start = m.cursors.csr_start->Some_0;
    &&& forall|i: int|
        0 <= i < window.functions@.len() ==> t.regs[window_emit_laws::state_reg(m, i)]
            == window_machine::departed(
            (#[trigger] window.functions@[i]).func,
            s.regs[window_emit_laws::state_reg(m, i)],
        )
    &&& forall|r: usize|
        !(m.registers.acc_start <= r < m.registers.acc_start + window.functions@.len())
            ==> #[trigger] t.regs[r] == s.regs[r]
    &&& t.rows == if window_emit::delete_op(window, m.cursors.csr_app is Some) == Some(
        WindowOp::AggInverse,
    ) {
        s.rows.remove(s.at[start])
    } else {
        s.rows
    }
    &&& goes_on(s, m, WindowOp::AggInverse) ==> window_machine::is_next(
        t.rows,
        s.at[start],
        t.at[start],
    )
    &&& forall|c: usize| Some(c) != m.cursors.csr_start ==> #[trigger] t.at[c] == s.at[c]
    &&& t.calls == s.calls
}

/// Under ROWS, the current row is returned: the subroutine that hands rows out is
/// called once, with the values of all functions and the columns of that row in
/// their registers. Functions with a state have the values that their states give;
/// the others have what they look up. Then the current cursor goes on to the next
/// row. States stay as they are.
#[verifier::rlimit(80)]
pub proof fn a_row_is_returned(
    p: Code,
    window: Window,
    m: WindowMetadata,
    countdown: Option<usize>,
    break_on_eof: Option<Label>,
    s: Machine,
) -> (t: Machine)
    requires
        window.frame.mode == FrameMode::Rows,
        window_step::window_op(p, window, m, WindowOp::ReturnRow, countdown, break_on_eof).fits(),
        break_on_eof matches Some(target) ==> target.0 < p.labels,
        !waits(countdown, s),
        registers_apart(p, window, m),
        lookups_succeed(p, window, m, s),
        m.cursors.csr_app != Some(m.cursors.csr_current),
    ensures
        machine::ends(
            p,
            window_step::window_op(p, window, m, WindowOp::ReturnRow, countdown, break_on_eof),
            s,
            ended(s, t, m, WindowOp::ReturnRow, break_on_eof),
            window_machine::effects(),
        ),
        row_returned(window, m, s, t),
        forall|r: usize|
            r < p.regs && kept_by_returning(window, m, r) ==> #[trigger] t.regs[r] == s.regs[r],
{
    let op = WindowOp::ReturnRow;
    let n = window.functions@.len();
    let step = window_machine::effects();
    let current = m.cursors.csr_current;
    let start = gated_by(p, countdown);
    window_step::window_op_grows(p, window, m, op, countdown, break_on_eof);
    machine::leads_nowhere(start, start, s, step);
    window_step::final_values_keeps(start, window, m, n);
    let valued = window_step::final_values(start, window, m, n);
    let t1 = window_emit_laws::values_come_from_states(start, window, m, n, s);
    let again = p.label(1);
    let begun = valued.take_labels(1).bind(again);
    machine::leads_by_one(start, valued, begun, Item::Bind(again), s, t1, t1, step);
    window_emit::return_row_grows(begun, window, m);
    let k = m.expressions_referencing_subquery@.len();
    window_emit::result_columns_keeps(begun, m, k);
    let columns = window_emit::result_columns(begun, m, k);
    let t2 = window_emit_laws::columns_come_from_the_current_row(begun, m, k, t1);
    machine::leads_on(start, begun, columns, s, t1, t2, step);
    let values = window_lookup::value_lookups(columns, window, m, n);
    window_lookup::value_lookups_grow(columns, window, m, n, n);
    window_lookup::neighbour_lookups_grow(values, window, m, n, n);
    assert forall|i: int| 0 <= i < n implies {
        let f = #[trigger] window.functions@[i];
        &&& window::is_positional(f.func) ==> window_lookup_laws::results_before(
            columns,
            window,
            m,
        )
        &&& window_lookup::is_neighbour(f.func) ==> window_lookup_laws::has_distance(t2, m, f)
        &&& window::needs_frame_end(f.func) ==> {
            &&& window_lookup_laws::knows_frame_end(columns, window, m, t2)
            &&& window_lookup_laws::finds(t2, m, f)
            &&& window_lookup_laws::frame_end(m, t2) == window_lookup_laws::frame_end(m, s)
            &&& window_lookup_laws::wanted(t2, m, f) == window_lookup_laws::wanted(s, m, f)
        }
    } by {
        let f = window.functions@[i];
        if window::needs_frame_end(f.func) {
            let end = m.registers.frame_end_rowid->Some_0;
            assert(t2.regs[end] == t1.regs[end]);
            assert(t1.regs[end] == s.regs[end]);
        }
    }
    let t3 = looking_up_values(columns, window, m, t2);
    machine::leads_on(start, columns, values, s, t2, t3, step);
    assert(t3.at[current] == s.at[current]);
    assert forall|i: int| 0 <= i < n implies {
        let f = #[trigger] window.functions@[i];
        &&& window::is_positional(f.func) ==> window_lookup_laws::results_before(
            values,
            window,
            m,
        )
        &&& window_lookup::is_neighbour(f.func) ==> window_lookup_laws::has_distance(t3, m, f)
    } by {}
    let t4 = looking_up_neighbours(values, window, m, t3);
    let looked = window_lookup::neighbour_lookups(values, window, m, n);
    machine::leads_on(start, values, looked, s, t3, t4, step);
    let body = window_step::op_body(begun, window, m, op);
    let t5 = Machine { calls: t4.calls.push((m.labels.row_output, t4.regs)), ..t4 };
    machine::leads_by_one(start, looked, body, body.items.last(), s, t4, t5, step);
    operations_end(p, window, m, op, countdown, break_on_eof, s, t5);
    let t = advanced(t5, window, m, op);
    assert(t.calls == t5.calls);
    assert(t.calls.drop_last() =~= s.calls);
    deleting_keeps_next(s.rows, s.at[current]);
    assert(t4.at[current] == s.at[current]);
    assert(holds_results(window, m, s, t4.regs)) by {
        assert forall|i: int| 0 <= i < n implies {
            let f = #[trigger] window.functions@[i];
            let value = t4.regs[window_lookup_laws::result_reg(m, i)];
            &&& !window::is_positional(f.func) ==> value == window_machine::value_of(
                f.func,
                s.regs[window_emit_laws::state_reg(m, i)],
            )
            &&& window_lookup::is_neighbour(f.func) ==> window_lookup_laws::is_neighbour_value(
                s,
                m,
                f,
                value,
            )
            &&& window::needs_frame_end(f.func) ==> {
                let row = window_lookup_laws::wanted(s, m, f)->Int_0;
                value == if row > window_lookup_laws::frame_end(m, s) {
                    Cell::Null
                } else {
                    s.rows[row][window::column_of(f.args()[0]) as int]
                }
            }
        } by {
            let f = window.functions@[i];
            let reg = window_lookup_laws::result_reg(m, i);
            assert(t2.regs[reg] == t1.regs[reg]);
        }
        assert forall|i: int| 0 <= i < k implies t4.regs[(m.registers.result_columns_start
            + i) as usize] == window_emit_laws::row_at(
            s,
            current,
        )[(#[trigger] m.expressions_referencing_subquery@[i]).column as int] by {
            let reg = (m.registers.result_columns_start + i) as usize;
            assert(t4.regs[reg] == t3.regs[reg]);
            assert(t3.regs[reg] == t2.regs[reg]);
        }
    }
    assert forall|r: usize| r < p.regs && kept_by_returning(window, m, r) implies #[trigger] t.regs[r]
        == s.regs[r] by {
        assert(t4.regs[r] == t3.regs[r]);
        assert(t3.regs[r] == t2.regs[r]);
        assert(t2.regs[r] == t1.regs[r]);
        assert(t1.regs[r] == s.regs[r]);
    }
    assert forall|i: int| 0 <= i < n implies t.regs[window_emit_laws::state_reg(m, i)]
        == #[trigger] s.regs[window_emit_laws::state_reg(m, i)] by {
        let reg = window_emit_laws::state_reg(m, i);
        assert(t4.regs[reg] == t3.regs[reg]);
        assert(t3.regs[reg] == t2.regs[reg]);
        assert(t2.regs[reg] == t1.regs[reg]);
        assert(t1.regs[reg] == s.regs[reg]);
    }
    t
}

/// Under ROWS, the row at the frame's start leaves the frame: every function steps
/// back once, and the frame's start goes on to the next row. Nothing is returned.
pub proof fn a_row_leaves_the_frame(
    p: Code,
    window: Window,
    m: WindowMetadata,
    countdown: Option<usize>,
    break_on_eof: Option<Label>,
    s: Machine,
) -> (t: Machine)
    requires
        window.frame.mode == FrameMode::Rows,
        window_step::window_op(p, window, m, WindowOp::AggInverse, countdown, break_on_eof).fits(),
        break_on_eof matches Some(target) ==> target.0 < p.labels,
        !waits(countdown, s),
        registers_apart(p, window, m),
        m.cursors.csr_start is Some,
    ensures
        machine::ends(
            p,
            window_step::window_op(p, window, m, WindowOp::AggInverse, countdown, break_on_eof),
            s,
            ended(s, t, m, WindowOp::AggInverse, break_on_eof),
            window_machine::effects(),
        ),
        row_left(window, m, s, t),
{
    let op = WindowOp::AggInverse;
    let step = window_machine::effects();
    let again = p.label(1);
    let gated = gated_by(p, countdown);
    let begun = gated.take_labels(1).bind(again);
    machine::leads_nowhere(gated, gated, s, step);
    machine::leads_by_one(gated, gated, begun, Item::Bind(again), s, s, s, step);
    let n = window.functions@.len();
    window_step::window_op_grows(p, window, m, op, countdown, break_on_eof);
    let body = window_step::op_body(begun, window, m, op);
    let t1 = window_emit_laws::functions_step_back(begun, window, m, n, s);
    machine::leads_on(gated, begun, body, s, s, t1, step);
    operations_end(p, window, m, op, countdown, break_on_eof, s, t1);
    deleting_keeps_next(s.rows, s.at[m.cursors.csr_start->Some_0]);
    advanced(t1, window, m, op)
}

} // verus!
