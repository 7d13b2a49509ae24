//! What is done for a source row and at the end of a partition, row by row, when
//! it is executed.

use vstd::prelude::*;
use crate::translate::machine;
use crate::translate::machine::Outcome;
use crate::translate::program::{Code, Insn, Item, Label};
use crate::translate::window;
use crate::translate::window::{FrameMode, Window, WindowMetadata};
use crate::translate::window_emit;
use crate::translate::window_emit::WindowOp;
use crate::translate::window_laws;
use crate::translate::window_lookup;
use crate::translate::window_lookup_laws;
use crate::translate::window_machine;
use crate::translate::window_machine::{Cell, Machine};
use crate::translate::window_step;
use crate::translate::window_step_laws;

verus! {

/// A source row whose partition key is the saved one changes nothing. Any other
/// has the buffer flushed by one call, and its own key is saved; the number of
/// the last row is forgotten, so that the row is the first of its partition.
pub proof fn partitions_are_told_apart(p: Code, window: Window, m: WindowMetadata, s: Machine) -> (t:
    Machine)
    requires
        m.registers.partition_start is Some,
        window.deduplicated_partition_by_len is Some,
        0 < window.deduplicated_partition_by_len->Some_0,
        window_emit::new_partition(p, window, m).fits(),
        m.registers.src_columns_start + window.deduplicated_partition_by_len->Some_0 <= u32::MAX,
        m.registers.partition_start->Some_0 + window.deduplicated_partition_by_len->Some_0
            <= u32::MAX,
        window_step_laws::apart(
            m.registers.src_columns_start as int,
            window.deduplicated_partition_by_len->Some_0 as int,
            m.registers.partition_start->Some_0 as int,
            window.deduplicated_partition_by_len->Some_0 as int,
        ),
        window_step_laws::apart(
            m.registers.rowid as int,
            1,
            m.registers.partition_start->Some_0 as int,
            window.deduplicated_partition_by_len->Some_0 as int,
        ),
        window_step_laws::apart(
            m.registers.rowid as int,
            1,
            m.registers.src_columns_start as int,
            window.deduplicated_partition_by_len->Some_0 as int,
        ),
    ensures
        machine::leads(
            p,
            window_emit::new_partition(p, window, m),
            s,
            t,
            window_machine::effects(),
        ),
        ({
            let count = window.deduplicated_partition_by_len->Some_0 as nat;
            let key = window_machine::get(s.regs, m.registers.src_columns_start as int, count);
            let saved = m.registers.partition_start->Some_0;
            let same = forall|i: int|
                0 <= i < count ==> #[trigger] key[i] == s.regs[(saved + i) as usize];
            &&& t.rows == s.rows
            &&& t.at == s.at
            &&& t.last == s.last
            &&& same ==> t.regs == s.regs && t.calls == s.calls
            &&& !same ==> {
                &&& t.calls == s.calls.push((m.labels.flush_buffer, s.regs))
                &&& t.regs[m.registers.rowid] == Cell::Null
                &&& forall|i: int|
                    0 <= i < count ==> t.regs[(saved + i) as usize] == #[trigger] key[i]
                &&& forall|r: usize|
                    r != m.registers.rowid && !(saved <= r < saved + count) ==> #[trigger] t.regs[r]
                        == s.regs[r]
            }
        }),
{
    let q = window_emit::new_partition(p, window, m);
    let step = window_machine::effects();
    let saved = m.registers.partition_start->Some_0;
    let count = window.deduplicated_partition_by_len->Some_0;
    let same_label = p.label(0);
    let new_label = p.label(1);
    let src = m.registers.src_columns_start;
    let key = window_machine::get(s.regs, src as int, count as nat);
    let old_key = window_machine::get(s.regs, saved as int, count as nat);
    let items = machine::written(p, q);
    let base = p.items.len() as int;
    assert(items.len() == 7);
    assert forall|j: int| 0 <= j < 7 implies #[trigger] items[j] == q.items[base + j] by {}
    let s1 = Machine {
        compared: if key == old_key {
            0
        } else {
            1
        },
        ..s
    };
    assert(items[0] == q.items[base]);
    assert(items[1] == q.items[base + 1]);
    assert(items[2] == q.items[base + 2]);
    assert(items[3] == q.items[base + 3]);
    assert(items[4] == q.items[base + 4]);
    assert(items[5] == q.items[base + 5]);
    assert(items[6] == q.items[base + 6]);
    assert(machine::exec(items, 0, s, step) == machine::exec(items, 1, s1, step));
    assert(machine::extends(p, q));
    if key == old_key {
        machine::place_found(items, same_label, 2, 6);
        assert(machine::exec(items, 1, s1, step) == machine::exec(items, 7, s1, step));
        assert(machine::exec(items, 7, s1, step) == Outcome::Through(s1));
        assert forall|i: int| 0 <= i < count implies #[trigger] key[i] == s.regs[(saved
            + i) as usize] by {
            assert(key[i] == old_key[i]);
        }
        s1
    } else {
        assert(exists|i: int| 0 <= i < count && #[trigger] key[i] != s.regs[(saved + i) as usize])
            by {
            if forall|i: int| 0 <= i < count ==> #[trigger] key[i] == s.regs[(saved + i) as usize] {
                assert(key =~= old_key);
            }
        }
        machine::place_found(items, new_label, 2, 2);
        assert(machine::exec(items, 1, s1, step) == machine::exec(items, 3, s1, step));
        let s2 = Machine { calls: s.calls.push((m.labels.flush_buffer, s.regs)), ..s1 };
        assert(machine::exec(items, 3, s1, step) == machine::exec(items, 4, s2, step));
        let s3 = window_machine::set(s2, m.registers.rowid, Cell::Null);
        assert(machine::exec(items, 4, s2, step) == machine::exec(items, 5, s3, step));
        let copied = window_machine::get(s3.regs, src as int, count as nat);
        assert(copied =~= key);
        let t = Machine { regs: window_machine::put(s3.regs, saved as int, key), ..s3 };
        assert(machine::exec(items, 5, s3, step) == machine::exec(items, 6, t, step));
        assert(machine::exec(items, 6, t, step) == machine::exec(items, 7, t, step));
        window_machine::put_reads(s3.regs, saved as int, key);
        assert forall|i: int| 0 <= i < count implies t.regs[(saved + i) as usize]
            == #[trigger] key[i] by {
            assert((saved + i) as usize - saved == i);
        }
        t
    }
}

/// Whether rows can be returned in code behind `p`.
pub open spec fn ready(p: Code, window: Window, m: WindowMetadata) -> bool {
    &&& window.frame.mode == FrameMode::Rows
    &&& window_step_laws::registers_apart(p, window, m)
    &&& m.cursors.csr_app != Some(m.cursors.csr_current)
    &&& m.labels.row_output.0 < u32::MAX
}

/// Where a pass of a loop goes on behind a row that was returned: with the next
/// pass while there are rows, and at `stop` behind the last.
pub open spec fn onward(s: Machine, m: WindowMetadata, again: Label, stop: Label) -> Label {
    if window_step_laws::goes_on(s, m, WindowOp::ReturnRow) {
        again
    } else {
        stop
    }
}

pub(crate) proof fn lookups_carry_over(p: Code, q: Code, window: Window, m: WindowMetadata, s: Machine)
    requires
        p.regs <= q.regs,
        window_step_laws::lookups_succeed(p, window, m, s),
    ensures
        window_step_laws::lookups_succeed(q, window, m, s),
{
    assert forall|i: int| 0 <= i < window.functions@.len() implies {
        let f = #[trigger] window.functions@[i];
        &&& window::is_positional(f.func) ==> window_lookup_laws::results_before(q, window, m)
        &&& window_lookup::is_neighbour(f.func) ==> window_lookup_laws::has_distance(s, m, f)
        &&& window::needs_frame_end(f.func) ==> {
            &&& window_lookup_laws::knows_frame_end(q, window, m, s)
            &&& window_lookup_laws::finds(s, m, f)
        }
    } by {}
}

/// A loop whose body returns one row: the row at the current cursor is returned,
/// and the code goes round again while there are rows behind it.
proof fn a_pass_returns_a_row(
    p: Code,
    window: Window,
    m: WindowMetadata,
    again: Label,
    stop: Label,
    s: Machine,
) -> (t: Machine)
    requires
        ready(p, window, m),
        again.0 < p.labels,
        stop.0 < p.labels,
        window_step::window_op(
            p.bind(again),
            window,
            m,
            WindowOp::ReturnRow,
            None,
            Some(stop),
        ).fits(),
        window_step_laws::lookups_succeed(p, window, m, s),
    ensures
        machine::ends(
            p,
            window_step::window_op(
                p.bind(again),
                window,
                m,
                WindowOp::ReturnRow,
                None,
                Some(stop),
            ).op(Insn::Goto { target_pc: again }),
            s,
            Outcome::Away(onward(s, m, again, stop), t),
            window_machine::effects(),
        ),
        window_step_laws::row_returned(window, m, s, t),
{
    let step = window_machine::effects();
    let begun = p.bind(again);
    machine::leads_nowhere(p, p, s, step);
    machine::leads_by_one(p, p, begun, Item::Bind(again), s, s, s, step);
    lookups_carry_over(p, begun, window, m, s);
    let t = window_step_laws::a_row_is_returned(begun, window, m, None, Some(stop), s);
    let returned = window_step::window_op(
        begun,
        window,
        m,
        WindowOp::ReturnRow,
        None,
        Some(stop),
    );
    let outcome = window_step_laws::ended(s, t, m, WindowOp::ReturnRow, Some(stop));
    machine::ends_on(p, begun, returned, s, s, outcome, step);
    let item = Item::Op(Insn::Goto { target_pc: again });
    let q = returned.op(Insn::Goto { target_pc: again });
    if window_step_laws::goes_on(s, m, WindowOp::ReturnRow) {
        machine::jumps_by_one(p, returned, q, item, again, s, t, t, step);
    } else {
        let one = machine::written(returned, q);
        assert(one =~= seq![item]);
        assert(one[0] == item);
        machine::place_absent(one, stop, 0);
        assert(machine::extends(returned, q));
        machine::ends_away(p, returned, q, stop, s, t, step);
    }
    t
}

/// Where no row leaves the frame, each pass at the end of a partition returns one
/// row, up to the last.
pub proof fn rows_are_returned_to_the_last(
    p: Code,
    window: Window,
    m: WindowMetadata,
    stop: Label,
    s: Machine,
) -> (t: Machine)
    requires
        ready(p, window, m),
        window.frame.start is UnboundedPreceding,
        stop.0 < p.labels,
        window_step::drain(p, window, m, stop).fits(),
        window_step_laws::lookups_succeed(p, window, m, s),
    ensures
        machine::ends(
            p,
            window_step::drain(p, window, m, stop),
            s,
            Outcome::Away(onward(s, m, p.label(0), stop), t),
            window_machine::effects(),
        ),
        window_step_laws::row_returned(window, m, s, t),
{
    let again = p.label(0);
    let begun = p.take_labels(1);
    lookups_carry_over(p, begun, window, m, s);
    window_step::window_op_grows(
        begun.bind(again),
        window,
        m,
        WindowOp::ReturnRow,
        None,
        Some(stop),
    );
    a_pass_returns_a_row(begun, window, m, again, stop, s)
}

/// Where the frame starts with the current row, each pass at the end of a
/// partition returns one row, up to the last, and then that row leaves the frame.
pub proof fn returned_rows_leave_the_frame(
    p: Code,
    window: Window,
    m: WindowMetadata,
    stop: Label,
    s: Machine,
) -> (r: (Machine, Machine))
    requires
        ready(p, window, m),
        window.frame.start is CurrentRow,
        m.cursors.csr_start is Some,
        stop.0 < p.labels,
        window_step::drain(p, window, m, stop).fits(),
        window_step_laws::lookups_succeed(p, window, m, s),
    ensures
        machine::ends(
            p,
            window_step::drain(p, window, m, stop),
            s,
            if window_step_laws::goes_on(s, m, WindowOp::ReturnRow) {
                Outcome::Away(p.label(0), r.1)
            } else {
                Outcome::Away(stop, r.0)
            },
            window_machine::effects(),
        ),
        window_step_laws::row_returned(window, m, s, r.0),
        window_step_laws::row_left(window, m, r.0, r.1),
{
    let step = window_machine::effects();
    let again = p.label(0);
    let start = p.take_labels(1);
    let begun = start.bind(again);
    let q = window_step::drain(p, window, m, stop);
    window_step::window_op_grows(begun, window, m, WindowOp::ReturnRow, None, Some(stop));
    let returned = window_step::window_op(
        begun,
        window,
        m,
        WindowOp::ReturnRow,
        None,
        Some(stop),
    );
    window_step::window_op_grows(returned, window, m, WindowOp::AggInverse, None, None);
    let left = window_step::window_op(returned, window, m, WindowOp::AggInverse, None, None);
    machine::leads_nowhere(p, start, s, step);
    machine::leads_by_one(p, start, begun, Item::Bind(again), s, s, s, step);
    lookups_carry_over(p, begun, window, m, s);
    let t = window_step_laws::a_row_is_returned(begun, window, m, None, Some(stop), s);
    let outcome = window_step_laws::ended(s, t, m, WindowOp::ReturnRow, Some(stop));
    machine::ends_on(p, begun, returned, s, s, outcome, step);
    let u = window_step_laws::a_row_leaves_the_frame(returned, window, m, None, None, t);
    let item = Item::Op(Insn::Goto { target_pc: again });
    if window_step_laws::goes_on(s, m, WindowOp::ReturnRow) {
        machine::leads_on(p, returned, left, s, t, u, step);
        machine::jumps_by_one(p, left, q, item, again, s, u, u, step);
    } else {
        window_step_laws::operations_add(
            returned,
            window,
            m,
            WindowOp::AggInverse,
            None,
            None,
            stop,
        );
        window_laws::op_places(left, Insn::Goto { target_pc: again }, stop);
        assert(machine::extends(returned, q)) by {
            assert forall|i: int| 0 <= i < returned.items.len() implies returned.items[i]
                == q.items[i] by {
                assert(returned.items[i] == left.items[i]);
            }
        }
        window_laws::places_between(returned, q, stop);
        machine::ends_away(p, returned, q, stop, s, t, step);
    }
    (t, u)
}

/// Where the frame starts behind the current row, each pass at the end of a
/// partition returns one row, unless it is still to wait, which it does as often
/// as the offset says; then a row leaves the frame. When the last has left, the
/// rows that remain are returned one by one.
#[verifier::rlimit(60)]
pub proof fn rows_leave_ahead_of_those_returned(
    p: Code,
    window: Window,
    m: WindowMetadata,
    stop: Label,
    s: Machine,
) -> (r: (Machine, Machine, Machine))
    requires
        ready(p, window, m),
        window.frame.start is Following,
        m.cursors.csr_start is Some,
        m.registers.start_offset_reg is Some,
        stop.0 < p.labels,
        window_step::drain(p, window, m, stop).fits(),
        window_step_laws::lookups_succeed(p, window, m, s),
    ensures
        ({
            let offset = m.registers.start_offset_reg->Some_0;
            let waits = window_step_laws::waits(Some(offset), s);
            let again = p.label(1);
            let (mid, t, u) = r;
            let q = window_step::drain(p, window, m, stop);
            let step = window_machine::effects();
            &&& if waits {
                mid == window_machine::set(s, offset, Cell::Int(s.regs[offset]->Int_0 - 1))
            } else {
                window_step_laws::row_returned(window, m, s, mid)
            }
            &&& window_step_laws::row_left(window, m, mid, t)
            &&& if !waits && !window_step_laws::goes_on(s, m, WindowOp::ReturnRow) {
                machine::ends(p, q, s, Outcome::Away(stop, mid), step)
            } else if window_step_laws::goes_on(mid, m, WindowOp::AggInverse) {
                machine::ends(p, q, s, Outcome::Away(again, t), step)
            } else {
                window_step_laws::lookups_succeed(p, window, m, t) ==> {
                    &&& window_step_laws::row_returned(window, m, t, u)
                    &&& exists|next: Label|
                        next != stop && #[trigger] machine::ends(
                            p,
                            q,
                            s,
                            Outcome::Away(onward(t, m, next, stop), u),
                            step,
                        )
                }
            }
        }),
{
    broadcast use window_laws::group_sound;

    let step = window_machine::effects();
    let offset = m.registers.start_offset_reg->Some_0;
    let countdown = m.registers.start_offset_reg;
    let left_label = p.label(0);
    let again = p.label(1);
    let start = p.take_labels(2);
    let begun = start.bind(again);
    let q = window_step::drain(p, window, m, stop);
    window_step::window_op_grows(begun, window, m, WindowOp::ReturnRow, countdown, Some(stop));
    let returned = window_step::window_op(
        begun,
        window,
        m,
        WindowOp::ReturnRow,
        countdown,
        Some(stop),
    );
    window_step::window_op_grows(
        returned,
        window,
        m,
        WindowOp::AggInverse,
        None,
        Some(left_label),
    );
    let left = window_step::window_op(
        returned,
        window,
        m,
        WindowOp::AggInverse,
        None,
        Some(left_label),
    );
    let goto = Insn::Goto { target_pc: again };
    let round = left.op(goto);
    let inverted = round.bind(left_label);
    let next = inverted.label(0);
    let rest = inverted.take_labels(1);
    window_step::window_op_grows(
        rest.bind(next),
        window,
        m,
        WindowOp::ReturnRow,
        None,
        Some(stop),
    );
    let last = window_step::window_op(
        rest.bind(next),
        window,
        m,
        WindowOp::ReturnRow,
        None,
        Some(stop),
    );
    assert(q == last.op(Insn::Goto { target_pc: next }));
    machine::leads_nowhere(p, start, s, step);
    machine::leads_by_one(p, start, begun, Item::Bind(again), s, s, s, step);
    lookups_carry_over(p, begun, window, m, s);
    let waits = window_step_laws::waits(Some(offset), s);
    let mid = if waits {
        let n = s.regs[offset]->Int_0;
        window_step_laws::returning_waits(begun, window, m, offset, Some(stop), s, n);
        window_machine::set(s, offset, Cell::Int(n - 1))
    } else {
        window_step_laws::a_row_is_returned(begun, window, m, countdown, Some(stop), s)
    };
    let outcome = if waits {
        Outcome::Through(mid)
    } else {
        window_step_laws::ended(s, mid, m, WindowOp::ReturnRow, Some(stop))
    };
    machine::ends_on(p, begun, returned, s, s, outcome, step);
    let t = window_step_laws::a_row_leaves_the_frame(
        returned,
        window,
        m,
        None,
        Some(left_label),
        mid,
    );
    window_step_laws::operations_add(
        returned,
        window,
        m,
        WindowOp::AggInverse,
        None,
        Some(left_label),
        stop,
    );
    window_step_laws::operations_add(
        rest.bind(next),
        window,
        m,
        WindowOp::ReturnRow,
        None,
        Some(stop),
        stop,
    );
    window_step_laws::operations_add(
        rest.bind(next),
        window,
        m,
        WindowOp::ReturnRow,
        None,
        Some(stop),
        again,
    );
    assert(machine::extends(round, q)) by {
        assert forall|i: int| 0 <= i < round.items.len() implies round.items[i] == q.items[i] by {
            assert(round.items[i] == rest.bind(next).items[i]);
            assert(rest.bind(next).items[i] == last.items[i]);
        }
    }
    assert(machine::extends(returned, q)) by {
        assert forall|i: int| 0 <= i < returned.items.len() implies returned.items[i]
            == q.items[i] by {
            assert(returned.items[i] == left.items[i]);
            assert(left.items[i] == round.items[i]);
            assert(round.items[i] == q.items[i]);
        }
    }
    if !waits && !window_step_laws::goes_on(s, m, WindowOp::ReturnRow) {
        window_laws::places_between(returned, q, stop);
        machine::ends_away(p, returned, q, stop, s, mid, step);
        (mid, t, t)
    } else if window_step_laws::goes_on(mid, m, WindowOp::AggInverse) {
        machine::leads_on(p, returned, left, s, mid, t, step);
        machine::jumps_by_one(p, left, round, Item::Op(goto), again, s, t, t, step);
        window_laws::places_between(round, q, again);
        machine::ends_away(p, round, q, again, s, t, step);
        (mid, t, t)
    } else {
        machine::ends_on(
            p,
            returned,
            left,
            s,
            mid,
            Outcome::Away(left_label, t),
            step,
        );
        let one = machine::written(left, round);
        assert(one =~= seq![Item::Op(goto)]);
        assert(one[0] == Item::Op(goto));
        machine::place_absent(one, left_label, 0);
        assert(machine::extends(left, round));
        machine::ends_away(p, left, round, left_label, s, t, step);
        machine::jump_lands(p, round, inverted, left_label, s, t, step);
        let u = if window_step_laws::lookups_succeed(p, window, m, t) {
            lookups_carry_over(p, rest, window, m, t);
            let u = a_pass_returns_a_row(rest, window, m, next, stop, t);
            machine::leads_nowhere(inverted, rest, t, step);
            machine::leads_on(p, inverted, rest, s, t, t, step);
            let end = Outcome::Away(onward(t, m, next, stop), u);
            machine::ends_on(p, rest, q, s, t, end, step);
            assert(next != stop);
            u
        } else {
            t
        };
        (mid, t, u)
    }
}

} // verus!
