//! What is done for a whole source row and at the end of a whole partition when
//! it is executed.

use vstd::prelude::*;
use crate::translate::machine;
use crate::translate::machine::Outcome;
use crate::translate::program::{Code, Comment, Insn, Item};
use crate::translate::window::{FrameMode, Window, WindowMetadata};
use crate::translate::window_drain_laws;
use crate::translate::window_emit;
use crate::translate::window_emit::WindowOp;
use crate::translate::window_emit_laws;
use crate::translate::window_laws;
use crate::translate::window_machine;
use crate::translate::window_machine::{Cell, Machine};
use crate::translate::window_row_laws;
use crate::translate::window_step;
use crate::translate::window_step::OutputPlan;
use crate::translate::window_step_laws;

verus! {

/// The machine with the writing cursor at the first row.
pub open spec fn rewound(m: WindowMetadata, s: Machine) -> Machine {
    Machine {
        regs: s.regs.insert(m.registers.flush_buffer_return_offset, Cell::Null),
        at: s.at.insert(m.cursors.csr_write, window_machine::next_row(s.rows, 0)),
        ..s
    }
}

/// At the end of a partition whose current row is the last one, the last row of
/// the partition enters the frame, and then the current row is returned. Behind
/// that the buffer is empty, and the code has run to its end.
#[verifier::rlimit(80)]
pub proof fn the_last_row_is_flushed(
    p: Code,
    window: Window,
    m: WindowMetadata,
    output: OutputPlan,
    s: Machine,
) -> (r: (Machine, Machine, Machine))
    requires
        window_drain_laws::ready(p, window, m),
        window.frame.start is UnboundedPreceding,
        window_step::window_flush(p, window, m, output).fits(),
        m.labels.window_processing_end.0 < p.labels,
        m.labels.flush_buffer.0 < p.labels,
        m.labels.row_output != m.labels.window_processing_end,
        output.distinct_conflict != Some(m.labels.window_processing_end),
        m.cursors.csr_write != m.cursors.csr_end,
        m.cursors.csr_write != m.cursors.csr_current,
        m.cursors.csr_current != m.cursors.csr_end,
        forall|i: int|
            0 <= i < window.functions@.len() ==> window_emit_laws::reads_columns(
                #[trigger] window.functions@[i],
            ),
        window_machine::has_next(s.rows, 0),
        !window_machine::has_next(s.rows, s.at[m.cursors.csr_current]),
    ensures
        ({
            let (entered, returned, t) = r;
            let q = window_step::window_flush(p, window, m, output);
            &&& window_step_laws::row_entered(window, m, rewound(m, s), entered)
            &&& window_step_laws::lookups_succeed(p, window, m, entered) ==> {
                &&& window_step_laws::row_returned(window, m, entered, returned)
                &&& machine::leads(p, q, s, t, window_machine::effects())
                &&& t.rows == Map::<int, Seq<Cell>>::empty()
                &&& t.last == 0
                &&& t.calls == returned.calls
                &&& t.regs == returned.regs
            }
        }),
{
    let step = window_machine::effects();
    let q = window_step::window_flush(p, window, m, output);
    let empty = p.label(0);
    let stop = p.label(1);
    let end = m.labels.window_processing_end;
    let q0 = p.take_labels(2).comment(Comment::ReturnRemaining);
    machine::leads_nowhere(p, q0, s, step);
    let null = Insn::Null { dest: m.registers.flush_buffer_return_offset, dest_end: None };
    let s1 = window_machine::set(s, m.registers.flush_buffer_return_offset, Cell::Null);
    let q1 = q0.op(null);
    machine::leads_by_one(p, q0, q1, Item::Op(null), s, s, s1, step);
    let q2 = q1.bind(m.labels.flush_buffer);
    machine::leads_by_one(p, q1, q2, Item::Bind(m.labels.flush_buffer), s, s1, s1, step);
    let rewind = Insn::Rewind { cursor_id: m.cursors.csr_write, pc_if_empty: empty };
    let s2 = rewound(m, s);
    let begun = q2.op(rewind);
    machine::leads_by_one(p, q2, begun, Item::Op(rewind), s, s1, s2, step);
    window_step::window_op_grows(begun, window, m, WindowOp::AggStep, None, None);
    let stepped = window_step::window_op(begun, window, m, WindowOp::AggStep, None, None);
    window_step::drain_grows(stepped, window, m, stop);
    let drained = window_step::drain(stepped, window, m, stop);
    let entered = window_step_laws::a_row_enters_the_frame(begun, window, m, None, None, s2);
    machine::leads_on(p, begun, stepped, s, s2, entered, step);
    if window_step_laws::lookups_succeed(p, window, m, entered) {
        window_drain_laws::lookups_carry_over(p, stepped, window, m, entered);
        let returned = window_drain_laws::rows_are_returned_to_the_last(
            stepped,
            window,
            m,
            stop,
            entered,
        );
        assert(!window_step_laws::goes_on(entered, m, WindowOp::ReturnRow));
        machine::ends_on(
            p,
            stepped,
            drained,
            s,
            entered,
            Outcome::Away(stop, returned),
            step,
        );
        let q3 = drained.bind(stop);
        machine::jump_lands(p, drained, q3, stop, s, returned, step);
        let q4 = q3.bind(empty);
        machine::leads_by_one(p, q3, q4, Item::Bind(empty), s, returned, returned, step);
        let reset = Insn::ResetSorter { cursor_id: m.cursors.csr_current };
        let t = Machine { rows: Map::empty(), last: 0, ..returned };
        let q5 = q4.op(reset);
        machine::leads_by_one(p, q4, q5, Item::Op(reset), s, returned, t, step);
        let back = Insn::Return {
            return_reg: m.registers.flush_buffer_return_offset,
            can_fallthrough: true,
        };
        let q6 = q5.op(back);
        machine::leads_by_one(p, q5, q6, Item::Op(back), s, t, t, step);
        let goto = Insn::Goto { target_pc: end };
        let q7 = q6.op(goto);
        machine::jumps_by_one(p, q6, q7, Item::Op(goto), end, s, t, t, step);
        let q8 = window_step::row_output(q7, m, output);
        assert(q == q8.bind(end));
        let rest = machine::written(q7, q8);
        let base = q7.items.len() as int;
        assert(rest.len() == if output.distinct_conflict is Some {
            5int
        } else {
            4
        });
        assert forall|j: int| 0 <= j < rest.len() implies #[trigger] rest[j] != Item::Bind(
            end,
        ) by {
            assert(rest[j] == q8.items[base + j]);
        }
        machine::place_absent(rest, end, 0);
        assert(machine::extends(q7, q8));
        machine::ends_away(p, q7, q8, end, s, t, step);
        machine::jump_lands(p, q8, q, end, s, t, step);
        (entered, returned, t)
    } else {
        (entered, entered, entered)
    }
}

/// A row that is sent on goes to the sorter where the outer query is ordered, and
/// else to its result, but never to both; then the subroutine returns.
pub proof fn rows_are_sent_on_once(p: Code, m: WindowMetadata, output: OutputPlan)
    ensures
        ({
            let items = machine::written(p, window_step::row_output(p, m, output));
            &&& items[0] == Item::Bind(m.labels.row_output)
            &&& items.last() == Item::Op(
                Insn::Return { return_reg: m.registers.row_output_return, can_fallthrough: false },
            )
            &&& items[1] is Fragment
            &&& items[1]->Fragment_0 is SorterInsert <==> output.ordered
            &&& items[1]->Fragment_0 is SelectResult <==> !output.ordered
            &&& forall|j: int| 2 <= j < items.len() - 1 ==> #[trigger] items[j] is Bind
            &&& output.distinct_conflict matches Some(conflict) ==> exists|j: int|
                2 <= j < items.len() && #[trigger] items[j] == Item::Bind(conflict)
            &&& window_step::row_output(p, m, output).expr_cache
        }),
{
    let q = window_step::row_output(p, m, output);
    let items = machine::written(p, q);
    let base = p.items.len() as int;
    assert forall|j: int| 0 <= j < items.len() implies #[trigger] items[j] == q.items[base + j] by {}
    assert(items[0] == q.items[base]);
    assert(items[1] == q.items[base + 1]);
    assert(items[2] == q.items[base + 2]);
    assert(items[3] == q.items[base + 3]);
}

/// A source row is taken as the first of its partition exactly where no row of the
/// partition has a number yet; under ROWS any other moves the frame on.
#[verifier::rlimit(80)]
pub proof fn rows_are_first_or_further(p: Code, window: Window, m: WindowMetadata, s: Machine) -> (t:
    Machine)
    requires
        window.frame.mode == FrameMode::Rows,
        m.serves(window),
        window_laws::set_up(p, window, m),
        window_step::window_step(p, window, m).fits(),
        window_step_laws::registers_apart(p, window, m),
        window_row_laws::blocks_apart(p, window, m),
        m.cursors.csr_app != Some(m.cursors.csr_current),
        forall|i: int|
            0 <= i < window.functions@.len() ==> window_emit_laws::reads_columns(
                #[trigger] window.functions@[i],
            ),
        s.regs[m.registers.rowid] is Null ==> s.rows == Map::<int, Seq<Cell>>::empty() && s.last
            >= 0,
        window.frame.end is UnboundedFollowing,
    ensures
        ({
            let begun = window_emit::new_partition(
                window_emit::order_by_values(p, window, m),
                window,
                m,
            );
            let row = window_machine::get(
                s.regs,
                m.registers.src_columns_start as int,
                m.src_column_count as nat,
            );
            &&& machine::leads(
                begun,
                window_step::window_step(p, window, m),
                s,
                t,
                window_machine::effects(),
            )
            &&& t.rows == s.rows.insert(s.last + 1, row)
            &&& t.last == s.last + 1
            &&& t.calls == s.calls
            &&& s.regs[m.registers.rowid] is Null ==> forall|i: int|
                0 <= i < window.functions@.len() ==> t.regs[#[trigger] window_emit_laws::state_reg(
                    m,
                    i,
                )] == Cell::Null
            &&& !(s.regs[m.registers.rowid] is Null) ==> exists|mid: Machine|
                mid.rows == t.rows && mid.at == s.at && #[trigger] window_step_laws::row_entered(
                    window,
                    m,
                    mid,
                    t,
                )
        }),
{
    let step = window_machine::effects();
    let q = window_step::window_step(p, window, m);
    window_step::window_step_parts_grow(p, window, m);
    let begun = window_emit::new_partition(
        window_emit::order_by_values(p, window, m),
        window,
        m,
    );
    let subsequent = begun.label(0);
    let end = begun.label(1);
    let bound = u32::MAX as nat + 1;
    let labelled = begun.take_labels(2);
    let test = Insn::NotNull { reg: m.registers.rowid, target_pc: subsequent };
    let tested = labelled.op(test);
    let first = window_step::first_row(tested, window, m, end);
    let bound_first = first.bind(subsequent);
    let further = window_step::subsequent_row(bound_first, window, m, end);
    assert(q == further.bind(end));
    machine::leads_nowhere(begun, labelled, s, step);
    assert(window_row_laws::blocks(window, m)[0] == window_row_laws::block(
        Some(m.registers.rowid),
        1,
    ));
    assert(window_row_laws::blocks(window, m)[2] == window_row_laws::block(
        Some(m.registers.src_columns_start),
        m.src_column_count as nat,
    ));
    assert(window_emit::grown(p, tested));
    assert(window_emit::grown(p, bound_first));
    if s.regs[m.registers.rowid] is Null {
        machine::leads_by_one(begun, labelled, tested, Item::Op(test), s, s, s, step);
        let t = window_row_laws::the_first_row_starts_the_partition(tested, window, m, end, s);
        machine::ends_on(begun, tested, first, s, s, Outcome::Away(end, t), step);
        window_row_laws::further_rows_move_the_frame(
            bound_first,
            window,
            m,
            end,
            t,
        );
        window_laws::subsequent_row_sound(bound_first, window, m, end, end, bound);
        window_laws::bind_places(first, subsequent, end);
        assert(machine::extends(first, further)) by {
            assert forall|k: int| 0 <= k < first.items.len() implies first.items[k]
                == further.items[k] by {
                assert(first.items[k] == bound_first.items[k]);
                assert(bound_first.items[k] == further.items[k]);
            }
        }
        window_laws::places_between(first, further, end);
        machine::ends_away(begun, first, further, end, s, t, step);
        machine::jump_lands(begun, further, q, end, s, t, step);
        t
    } else {
        machine::jumps_by_one(
            begun,
            labelled,
            tested,
            Item::Op(test),
            subsequent,
            s,
            s,
            s,
            step,
        );
        let blank = Machine { rows: Map::empty(), last: 0, ..s };
        window_row_laws::the_first_row_starts_the_partition(
            tested,
            window,
            m,
            end,
            blank,
        );
        window_laws::first_row_sound(tested, window, m, end, subsequent, bound);
        window_laws::places_between(tested, first, subsequent);
        machine::ends_away(begun, tested, first, subsequent, s, s, step);
        machine::jump_lands(begun, first, bound_first, subsequent, s, s, step);
        let (i, t, _) = window_row_laws::further_rows_move_the_frame(
            bound_first,
            window,
            m,
            end,
            s,
        );
        machine::leads_on(begun, bound_first, further, s, s, t, step);
        machine::leads_by_one(begun, further, q, Item::Bind(end), s, t, t, step);
        assert(window_step_laws::row_entered(window, m, i, t));
        t
    }
}

} // verus!
