//! What is done for a source row when it is executed.

use vstd::prelude::*;
use crate::translate::expr::Expr;
use crate::translate::machine;
use crate::translate::machine::Outcome;
use crate::translate::program;
use crate::translate::program::{Code, Comment, Fragment, Insn, Item, Label};
use crate::translate::window;
use crate::translate::window::{FrameBoundary, FrameMode, OrderTerm, Window, WindowMetadata};
use crate::translate::window_drain_laws;
use crate::translate::window_emit;
use crate::translate::window_emit::WindowOp;
use crate::translate::window_emit_laws;
use crate::translate::window_machine;
use crate::translate::window_machine::{Cell, Machine};
use crate::translate::window_step;
use crate::translate::window_step_laws;

verus! {

/// Registers side by side: the first and how many. Where there are none, nothing
/// is next to them.
pub open spec fn block(first: Option<usize>, count: nat) -> (int, int) {
    match first {
        Some(first) => (first as int, count as int),
        None => (0, 0),
    }
}

/// The registers of a window that its first row writes or reads.
pub open spec fn blocks(window: Window, m: WindowMetadata) -> Seq<(int, int)> {
    let r = m.registers;
    let n = window.order_by@.len();
    seq![
        block(Some(r.rowid), 1),
        block(Some(r.acc_start), window.functions@.len()),
        block(Some(r.src_columns_start), m.src_column_count as nat),
        block(r.new_order_by_columns_start, n),
        block(r.peer_start_reg, n),
        block(r.peer_current_reg, n),
        block(r.peer_end_reg, n),
        block(r.start_offset_reg, 1),
    ]
}

/// Whether those registers were given out before `p`, each for one purpose.
pub open spec fn blocks_apart(p: Code, window: Window, m: WindowMetadata) -> bool {
    let b = blocks(window, m);
    &&& forall|i: int| 0 <= i < b.len() ==> (#[trigger] b[i]).0 + b[i].1 <= p.regs
    &&& forall|i: int, j: int|
        0 <= i < j < b.len() ==> window_step_laws::apart(
            (#[trigger] b[i]).0,
            b[i].1,
            (#[trigger] b[j]).0,
            b[j].1,
        )
}

/// Whether the ORDER BY values of the first row stand where `peer` says.
pub open spec fn seeded(
    window: Window,
    m: WindowMetadata,
    peer: Option<usize>,
    s: Machine,
    t: Machine,
) -> bool {
    peer is Some && m.registers.new_order_by_columns_start is Some ==> forall|i: int|
        0 <= i < window.order_by@.len() ==> #[trigger] t.regs[(peer->Some_0 + i) as usize]
            == s.regs[(m.registers.new_order_by_columns_start->Some_0 + i) as usize]
}

proof fn seeding(p: Code, new: usize, peer: Option<usize>, n: nat, s: Machine) -> (t: Machine)
    requires
        n > 0,
        new + n <= u32::MAX,
        peer matches Some(peer) ==> peer + n <= u32::MAX,
        peer matches Some(peer) ==> window_step_laws::apart(
            new as int,
            n as int,
            peer as int,
            n as int,
        ),
    ensures
        machine::leads(
            p,
            window_step::seed_peer(p, new, peer, n),
            s,
            t,
            window_machine::effects(),
        ),
        t == (Machine { regs: t.regs, ..s }),
        peer matches Some(peer) ==> forall|i: int|
            0 <= i < n ==> #[trigger] t.regs[(peer + i) as usize] == s.regs[(new + i) as usize],
        forall|r: usize|
            !(peer matches Some(peer) && peer <= r < peer + n) ==> #[trigger] t.regs[r]
                == s.regs[r],
{
    let q = window_step::seed_peer(p, new, peer, n);
    let step = window_machine::effects();
    machine::leads_nowhere(p, p, s, step);
    match peer {
        Some(dst) => {
            let values = window_machine::get(s.regs, new as int, n);
            let t = Machine { regs: window_machine::put(s.regs, dst as int, values), ..s };
            window_machine::put_reads(s.regs, dst as int, values);
            machine::leads_by_one(p, p, q, q.items.last(), s, s, t, step);
            assert forall|i: int| 0 <= i < n implies #[trigger] t.regs[(dst + i) as usize]
                == s.regs[(new + i) as usize] by {
                assert(values[i] == s.regs[(new + i) as usize]);
            }
            t
        },
        None => s,
    }
}

#[verifier::rlimit(60)]
proof fn seeding_all(p: Code, window: Window, m: WindowMetadata, s: Machine) -> (t: Machine)
    requires
        m.serves(window),
        p.regs <= u32::MAX,
        blocks_apart(p, window, m),
    ensures
        machine::leads(
            p,
            window_step::seed_peers(p, window, m),
            s,
            t,
            window_machine::effects(),
        ),
        t == (Machine { regs: t.regs, ..s }),
        seeded(window, m, m.registers.peer_start_reg, s, t),
        seeded(window, m, m.registers.peer_current_reg, s, t),
        seeded(window, m, m.registers.peer_end_reg, s, t),
        t.regs[m.registers.rowid] == s.regs[m.registers.rowid],
        window_machine::get(
            t.regs,
            m.registers.src_columns_start as int,
            m.src_column_count as nat,
        ) == window_machine::get(
            s.regs,
            m.registers.src_columns_start as int,
            m.src_column_count as nat,
        ),
{
    let step = window_machine::effects();
    let b = blocks(window, m);
    let n = window.order_by@.len();
    let r = m.registers;
    assert(b[2].0 == r.src_columns_start && b[2].1 == m.src_column_count);
    assert(b[0].0 == r.rowid && b[0].1 == 1);
    match r.new_order_by_columns_start {
        None => {
            machine::leads_nowhere(p, p, s, step);
            s
        },
        Some(new) => {
            assert(b[3].0 == new && b[3].1 == n);
            assert(b[4] == block(r.peer_start_reg, n));
            assert(b[5] == block(r.peer_current_reg, n));
            assert(b[6] == block(r.peer_end_reg, n));
            let q0 = p.comment(Comment::SeedPeers);
            machine::leads_nowhere(p, q0, s, step);
            let t1 = seeding(q0, new, r.peer_start_reg, n, s);
            let q1 = window_step::seed_peer(q0, new, r.peer_start_reg, n);
            machine::leads_on(p, q0, q1, s, s, t1, step);
            let t2 = seeding(q1, new, r.peer_current_reg, n, t1);
            let q2 = window_step::seed_peer(q1, new, r.peer_current_reg, n);
            machine::leads_on(p, q1, q2, s, t1, t2, step);
            let t3 = seeding(q2, new, r.peer_end_reg, n, t2);
            let q3 = window_step::seed_peer(q2, new, r.peer_end_reg, n);
            machine::leads_on(p, q2, q3, s, t2, t3, step);
            assert forall|i: int| 0 <= i < n implies t1.regs[(new + i) as usize]
                == #[trigger] s.regs[(new + i) as usize] && t2.regs[(new + i) as usize]
                == s.regs[(new + i) as usize] by {
                assert(t1.regs[(new + i) as usize] == s.regs[(new + i) as usize]);
                assert(t2.regs[(new + i) as usize] == t1.regs[(new + i) as usize]);
            }
            if let Some(peer) = r.peer_start_reg {
                assert forall|i: int| 0 <= i < n implies #[trigger] t3.regs[(peer + i) as usize]
                    == s.regs[(new + i) as usize] by {
                    assert(t3.regs[(peer + i) as usize] == t2.regs[(peer + i) as usize]);
                    assert(t2.regs[(peer + i) as usize] == t1.regs[(peer + i) as usize]);
                }
            }
            if let Some(peer) = r.peer_current_reg {
                assert forall|i: int| 0 <= i < n implies #[trigger] t3.regs[(peer + i) as usize]
                    == s.regs[(new + i) as usize] by {
                    assert(t3.regs[(peer + i) as usize] == t2.regs[(peer + i) as usize]);
                    assert(t2.regs[(peer + i) as usize] == t1.regs[(new + i) as usize]);
                }
            }
            if let Some(peer) = r.peer_end_reg {
                assert forall|i: int| 0 <= i < n implies #[trigger] t3.regs[(peer + i) as usize]
                    == s.regs[(new + i) as usize] by {
                    assert(t3.regs[(peer + i) as usize] == t2.regs[(new + i) as usize]);
                }
            }
            assert(window_machine::get(t3.regs, r.src_columns_start as int, m.src_column_count as nat)
                =~= window_machine::get(
                s.regs,
                r.src_columns_start as int,
                m.src_column_count as nat,
            )) by {
                assert forall|i: int| 0 <= i < m.src_column_count implies #[trigger] t3.regs[(
                r.src_columns_start + i) as usize] == s.regs[(r.src_columns_start + i) as usize] by {
                    let k = (r.src_columns_start + i) as usize;
                    assert(t3.regs[k] == t2.regs[k]);
                    assert(t2.regs[k] == t1.regs[k]);
                    assert(t1.regs[k] == s.regs[k]);
                }
            }
            t3
        },
    }
}

/// The first row of a partition is put into the empty buffer, and all cursors
/// stand at it. No function has a state yet, the ORDER BY values of the row are
/// those of the peers at every cursor, and the offset of the frame's start is
/// computed anew. Nothing is returned.
#[verifier::rlimit(80)]
pub proof fn the_first_row_starts_the_partition(
    p: Code,
    window: Window,
    m: WindowMetadata,
    end: Label,
    s: Machine,
) -> (t: Machine)
    requires
        m.serves(window),
        blocks_apart(p, window, m),
        window_step::first_row(p, window, m, end).fits(),
        end.0 < p.labels,
        s.rows == Map::<int, Seq<Cell>>::empty(),
        s.last >= 0,
    ensures
        machine::ends(
            p,
            window_step::first_row(p, window, m, end),
            s,
            Outcome::Away(end, t),
            window_machine::effects(),
        ),
        t.rows == s.rows.insert(
            s.last + 1,
            window_machine::get(
                s.regs,
                m.registers.src_columns_start as int,
                m.src_column_count as nat,
            ),
        ),
        t.last == s.last + 1,
        t.regs[m.registers.rowid] == Cell::Int(s.last + 1),
        t.at[m.cursors.csr_current] == s.last + 1,
        t.at[m.cursors.csr_end] == s.last + 1,
        m.cursors.csr_start matches Some(start) ==> t.at[start] == s.last + 1,
        forall|i: int|
            0 <= i < window.functions@.len() ==> t.regs[#[trigger] window_emit_laws::state_reg(
                m,
                i,
            )] == Cell::Null,
        seeded(window, m, m.registers.peer_start_reg, s, t),
        seeded(window, m, m.registers.peer_current_reg, s, t),
        seeded(window, m, m.registers.peer_end_reg, s, t),
        window.frame.start is Following && m.registers.start_offset_reg is Some ==> t.regs[m.registers.start_offset_reg->Some_0] == Cell::Computed(
            *window.frame.start->Following_0,
        ),
        t.calls == s.calls,
{
    let step = window_machine::effects();
    let q = window_step::first_row(p, window, m, end);
    let r = m.registers;
    let b = blocks(window, m);
    let n = window.order_by@.len();
    let k = window.functions@.len();
    assert(b[0] == block(Some(r.rowid), 1));
    assert(b[1] == block(Some(r.acc_start), k));
    assert(b[2] == block(Some(r.src_columns_start), m.src_column_count as nat));
    assert(b[4] == block(r.peer_start_reg, n));
    assert(b[5] == block(r.peer_current_reg, n));
    assert(b[6] == block(r.peer_end_reg, n));
    assert(b[7] == block(r.start_offset_reg, 1));
    let row = window_machine::get(s.regs, r.src_columns_start as int, m.src_column_count as nat);
    let s1 = seeding_all(p, window, m, s);
    let q1 = window_step::seed_peers(p, window, m).comment(Comment::ResetAccumulators);
    machine::leads_nowhere(window_step::seed_peers(p, window, m), q1, s1, step);
    machine::leads_on(p, window_step::seed_peers(p, window, m), q1, s, s1, s1, step);
    let nulls = Seq::new(k, |i: int| Cell::Null);
    let s2 = Machine { regs: window_machine::put(s1.regs, r.acc_start as int, nulls), ..s1 };
    window_machine::put_reads(s1.regs, r.acc_start as int, nulls);
    let null = Insn::Null {
        dest: r.acc_start,
        dest_end: Some((r.acc_start + k - 1) as usize),
    };
    let q2 = q1.op(null);
    assert(window_machine::effect(Item::Op(null), s1) == machine::Effect::Next(s2)) by {
        assert(Seq::new(((r.acc_start + k - 1) as usize - r.acc_start + 1) as nat, |i: int| Cell::Null)
            =~= nulls);
    }
    machine::leads_by_one(p, q1, q2, Item::Op(null), s, s1, s2, step);
    let (q3, s3) = match (r.start_offset_reg, window.frame.start) {
        (Some(dest), FrameBoundary::Following(expr)) => {
            let item = Item::Fragment(Fragment::ExprEachTime { expr, dest });
            let q3 = q2.fragment(Fragment::ExprEachTime { expr, dest });
            let s3 = window_machine::set(s2, dest, Cell::Computed(*expr));
            machine::leads_by_one(p, q2, q3, item, s, s2, s3, step);
            (q3, s3)
        },
        _ => (q2, s2),
    };
    assert(window_machine::get(s3.regs, r.src_columns_start as int, m.src_column_count as nat)
        =~= row) by {
        assert forall|i: int| 0 <= i < m.src_column_count implies #[trigger] s3.regs[(
        r.src_columns_start + i) as usize] == s.regs[(r.src_columns_start + i) as usize] by {
            let j = (r.src_columns_start + i) as usize;
            assert(s3.regs[j] == s2.regs[j]);
            assert(s2.regs[j] == s1.regs[j]);
            let cells = window_machine::get(
                s1.regs,
                r.src_columns_start as int,
                m.src_column_count as nat,
            );
            assert(cells[i] == row[i]);
        }
    }
    assert(q3.regs == p.regs);
    let s4 = window_emit_laws::source_rows_are_appended(q3, m, s3);
    let q4 = window_emit::insert_row(q3, m);
    machine::leads_on(p, q3, q4, s, s3, s4, step);
    let at = s.last + 1;
    assert(window_machine::is_next(s4.rows, 0, at));
    assert(window_machine::next_row(s4.rows, 0) == at) by {
        let next = window_machine::next_row(s4.rows, 0);
        assert(window_machine::is_next(s4.rows, 0, next));
        assert(s4.rows.contains_key(next));
    }
    let empty = q4.label(0);
    let q5 = q4.take_labels(1);
    machine::leads_nowhere(q4, q5, s4, step);
    machine::leads_on(p, q4, q5, s, s4, s4, step);
    let (q6, s6) = match m.cursors.csr_start {
        Some(cursor_id) => {
            let insn = Insn::Rewind { cursor_id, pc_if_empty: empty };
            let s6 = Machine { at: s4.at.insert(cursor_id, at), ..s4 };
            machine::leads_by_one(p, q5, q5.op(insn), Item::Op(insn), s, s4, s6, step);
            (q5.op(insn), s6)
        },
        None => (q5, s4),
    };
    let current = Insn::Rewind { cursor_id: m.cursors.csr_current, pc_if_empty: empty };
    let s7 = Machine { at: s6.at.insert(m.cursors.csr_current, at), ..s6 };
    let q7 = q6.op(current);
    machine::leads_by_one(p, q6, q7, Item::Op(current), s, s6, s7, step);
    let last = Insn::Rewind { cursor_id: m.cursors.csr_end, pc_if_empty: empty };
    let t = Machine { at: s7.at.insert(m.cursors.csr_end, at), ..s7 };
    let q8 = q7.op(last);
    machine::leads_by_one(p, q7, q8, Item::Op(last), s, s7, t, step);
    let q9 = q8.bind(empty);
    machine::leads_by_one(p, q8, q9, Item::Bind(empty), s, t, t, step);
    let goto = Insn::Goto { target_pc: end };
    assert(q == q9.op(goto));
    machine::jumps_by_one(p, q9, q, Item::Op(goto), end, s, t, t, step);
    assert forall|i: int| 0 <= i < k implies t.regs[#[trigger] window_emit_laws::state_reg(m, i)]
        == Cell::Null by {
        let reg = window_emit_laws::state_reg(m, i);
        assert(s2.regs[reg] == Cell::Null);
        assert(s3.regs[reg] == s2.regs[reg]);
    }
    seeds_stay(window, m, r.peer_start_reg, 4, s, s1, t);
    seeds_stay(window, m, r.peer_current_reg, 5, s, s1, t);
    seeds_stay(window, m, r.peer_end_reg, 6, s, s1, t);
    t
}

proof fn seeds_stay(
    window: Window,
    m: WindowMetadata,
    peer: Option<usize>,
    at: int,
    s: Machine,
    s1: Machine,
    t: Machine,
)
    requires
        seeded(window, m, peer, s, s1),
        4 <= at <= 6,
        blocks(window, m)[at] == block(peer, window.order_by@.len()),
        peer matches Some(peer) ==> peer + window.order_by@.len() <= u32::MAX,
        forall|r: usize|
            (peer matches Some(peer) && peer <= r < peer + window.order_by@.len())
                ==> #[trigger] t.regs[r] == s1.regs[r],
    ensures
        seeded(window, m, peer, s, t),
{
    if let (Some(peer), Some(new)) = (peer, m.registers.new_order_by_columns_start) {
        assert forall|i: int| 0 <= i < window.order_by@.len() implies #[trigger] t.regs[(peer
            + i) as usize] == s.regs[(new + i) as usize] by {
            assert(t.regs[(peer + i) as usize] == s1.regs[(peer + i) as usize]);
        }
    }
}

/// A row that is a peer of those at the frame's end waits: nothing is done for it
/// until the group of peers is complete. Under ROWS no row waits; without an
/// ORDER BY all rows of a partition do.
pub proof fn peers_wait(p: Code, window: Window, m: WindowMetadata, end: Label, s: Machine) -> (t:
    Machine)
    requires
        m.serves(window),
        window_step::skip_peers(p, window, m, end).fits(),
        end.0 < p.labels,
    ensures
        ({
            let n = window.order_by@.len();
            let q = window_step::skip_peers(p, window, m, end);
            let new = m.registers.new_order_by_columns_start->Some_0;
            let peers = m.registers.peer_end_reg->Some_0;
            let alike = forall|i: int|
                0 <= i < n ==> #[trigger] window_machine::get(s.regs, new as int, n)[i]
                    == s.regs[(peers + i) as usize];
            &&& t == (Machine { compared: t.compared, ..s })
            &&& if window.frame.mode == FrameMode::Rows || (n > 0 && !alike) {
                machine::leads(p, q, s, t, window_machine::effects())
            } else {
                machine::ends(p, q, s, Outcome::Away(end, t), window_machine::effects())
            }
        }),
{
    let step = window_machine::effects();
    let n = window.order_by@.len();
    let q = window_step::skip_peers(p, window, m, end);
    machine::leads_nowhere(p, p, s, step);
    if window.frame.mode == FrameMode::Rows {
        s
    } else if n == 0 {
        let goto = Insn::Goto { target_pc: end };
        machine::jumps_by_one(p, p, q, Item::Op(goto), end, s, s, s, step);
        s
    } else {
        let new = m.registers.new_order_by_columns_start->Some_0;
        let peers = m.registers.peer_end_reg->Some_0;
        let body = p.label(0);
        let a = window_machine::get(s.regs, new as int, n);
        let b = window_machine::get(s.regs, peers as int, n);
        let t = Machine {
            compared: if a == b {
                0
            } else {
                1
            },
            ..s
        };
        let q0 = p.take_labels(1).comment(Comment::DetectPeer);
        machine::leads_nowhere(p, q0, s, step);
        let compare = Insn::Compare {
            start_reg_a: new,
            start_reg_b: peers,
            count: n as usize,
            key_info: program::key_list(window_emit::order_by_keys(window, m)),
        };
        let q1 = q0.op(compare);
        machine::leads_by_one(p, q0, q1, Item::Op(compare), s, s, t, step);
        let jump = Insn::Jump { target_pc_lt: body, target_pc_eq: end, target_pc_gt: body };
        let q2 = q1.op(jump);
        assert(q == q2.bind(body));
        if a == b {
            assert forall|i: int| 0 <= i < n implies #[trigger] a[i] == s.regs[(peers
                + i) as usize] by {
                assert(a[i] == b[i]);
            }
            machine::jumps_by_one(p, q1, q2, Item::Op(jump), end, s, t, t, step);
            let one = machine::written(q2, q);
            assert(one =~= seq![Item::Bind(body)]);
            assert(one[0] == Item::Bind(body));
            machine::place_absent(one, end, 0);
            assert(machine::extends(q2, q));
            machine::ends_away(p, q2, q, end, s, t, step);
        } else {
            if forall|i: int| 0 <= i < n ==> #[trigger] a[i] == s.regs[(peers + i) as usize] {
                assert(a =~= b);
            }
            machine::jumps_by_one(p, q1, q2, Item::Op(jump), body, s, t, t, step);
            machine::jump_lands(p, q2, q, body, s, t, step);
        }
        t
    }
}

/// Under ROWS, every further row of a partition is put into the buffer, then the
/// row at the frame's end enters the frame, then the current row is returned;
/// where the frame ends with the partition, none is returned yet.
#[verifier::rlimit(60)]
pub proof fn further_rows_move_the_frame(
    p: Code,
    window: Window,
    m: WindowMetadata,
    end: Label,
    s: Machine,
) -> (r: (Machine, Machine, Machine))
    requires
        window.frame.mode == FrameMode::Rows,
        window_step::subsequent_row(p, window, m, end).fits(),
        window_step_laws::registers_apart(p, window, m),
        m.registers.src_columns_start + m.src_column_count <= p.regs,
        m.registers.rowid < p.regs,
        m.cursors.csr_app != Some(m.cursors.csr_current),
        forall|i: int|
            0 <= i < window.functions@.len() ==> window_emit_laws::reads_columns(
                #[trigger] window.functions@[i],
            ),
    ensures
        ({
            let (inserted, entered, returned) = r;
            let q = window_step::subsequent_row(p, window, m, end);
            let row = window_machine::get(
                s.regs,
                m.registers.src_columns_start as int,
                m.src_column_count as nat,
            );
            &&& inserted.rows == s.rows.insert(s.last + 1, row)
            &&& inserted.last == s.last + 1
            &&& inserted.at == s.at
            &&& inserted.calls == s.calls
            &&& window_step_laws::row_entered(window, m, inserted, entered)
            &&& if window.frame.end is UnboundedFollowing {
                machine::leads(p, q, s, entered, window_machine::effects())
            } else {
                window_step_laws::lookups_succeed(p, window, m, entered) ==> {
                    &&& window_step_laws::row_returned(window, m, entered, returned)
                    &&& machine::leads(p, q, s, returned, window_machine::effects())
                }
            }
        }),
{
    let step = window_machine::effects();
    let q = window_step::subsequent_row(p, window, m, end);
    let q1 = window_emit::insert_row(p, m);
    assert(window_step::skip_peers(q1, window, m, end) == q1);
    window_step::window_op_grows(q1, window, m, WindowOp::AggStep, None, None);
    let q2 = window_step::window_op(q1, window, m, WindowOp::AggStep, None, None);
    window_step::window_op_grows(q2, window, m, WindowOp::ReturnRow, None, None);
    let s1 = window_emit_laws::source_rows_are_appended(p, m, s);
    let s2 = window_step_laws::a_row_enters_the_frame(q1, window, m, None, None, s1);
    machine::leads_on(p, q1, q2, s, s1, s2, step);
    if !(window.frame.end is UnboundedFollowing) && window_step_laws::lookups_succeed(
        p,
        window,
        m,
        s2,
    ) {
        window_drain_laws::lookups_carry_over(p, q2, window, m, s2);
        let s3 = window_step_laws::a_row_is_returned(q2, window, m, None, None, s2);
        machine::leads_on(p, q2, q, s, s2, s3, step);
        (s1, s2, s3)
    } else {
        (s1, s2, s2)
    }
}

proof fn peer_values(
    p: Code,
    terms: Seq<OrderTerm>,
    csr: usize,
    base: nat,
    n: nat,
    s: Machine,
) -> (t: Machine)
    requires
        n <= terms.len(),
        base + terms.len() <= u32::MAX,
    ensures
        machine::leads(
            p,
            window_step::load_peer(p, terms, csr, base, n),
            s,
            t,
            window_machine::effects(),
        ),
        t == (Machine { regs: t.regs, ..s }),
        forall|i: int|
            0 <= i < n ==> t.regs[(base + i) as usize] == window_emit_laws::row_at(
                s,
                csr,
            )[window::column_of((#[trigger] terms[i]).expr) as int],
        forall|r: usize| !(base <= r < base + n) ==> #[trigger] t.regs[r] == s.regs[r],
    decreases n,
{
    let q = window_step::load_peer(p, terms, csr, base, n);
    let step = window_machine::effects();
    if n == 0 {
        machine::leads_nowhere(p, q, s, step);
        s
    } else {
        let k = (n - 1) as nat;
        let q1 = window_step::load_peer(p, terms, csr, base, k);
        let t1 = peer_values(p, terms, csr, base, k, s);
        let reg = (base + k) as usize;
        let column = window::column_of(terms[k as int].expr);
        let t = window_machine::set(t1, reg, window_emit_laws::row_at(s, csr)[column as int]);
        machine::leads_by_one(p, q1, q, q.items.last(), s, t1, t, step);
        t
    }
}

/// An operation goes on with the next row while its ORDER BY values are those of
/// the peers that it is at. At the first row with others it is done, and those
/// values are kept for the next time.
#[verifier::rlimit(60)]
pub proof fn peers_are_taken_together(
    p: Code,
    window: Window,
    m: WindowMetadata,
    op: WindowOp,
    again: Label,
    s: Machine,
) -> (t: Machine)
    requires
        window.frame.mode != FrameMode::Rows,
        window.order_by@.len() > 0,
        window_step::op_peers(m, op) is Some,
        window_step::op_peers(m, op)->Some_0 + window.order_by@.len() <= p.regs,
        again.0 < p.labels,
        window_step::peer_loop(p, window, m, op, again).fits(),
    ensures
        ({
            let n = window.order_by@.len();
            let q = window_step::peer_loop(p, window, m, op, again);
            let kept = window_step::op_peers(m, op)->Some_0;
            let row = window_emit_laws::row_at(s, window_step::op_cursor(m, op));
            let alike = forall|i: int|
                0 <= i < n ==> s.regs[(kept + i) as usize] == row[window::column_of(
                    (#[trigger] window.order_by@[i]).expr,
                ) as int];
            &&& t == (Machine { regs: t.regs, compared: t.compared, ..s })
            &&& forall|r: usize|
                r < p.regs && !(kept <= r < kept + n) ==> #[trigger] t.regs[r] == s.regs[r]
            &&& forall|i: int|
                0 <= i < n ==> t.regs[(kept + i) as usize] == row[window::column_of(
                    (#[trigger] window.order_by@[i]).expr,
                ) as int]
            &&& if alike {
                machine::ends(p, q, s, Outcome::Away(again, t), window_machine::effects())
            } else {
                machine::leads(p, q, s, t, window_machine::effects())
            }
        }),
{
    let step = window_machine::effects();
    let n = window.order_by@.len();
    let q = window_step::peer_loop(p, window, m, op, again);
    let kept = window_step::op_peers(m, op)->Some_0;
    let csr = window_step::op_cursor(m, op);
    let row = window_emit_laws::row_at(s, csr);
    let terms = window.order_by@;
    let values = p.reg();
    let q0 = p.take_regs(n);
    window_step::load_peer_keeps(q0, terms, csr, p.regs, n);
    machine::leads_nowhere(p, q0, s, step);
    let s1 = peer_values(q0, terms, csr, p.regs, n, s);
    let q1 = window_step::load_peer(q0, terms, csr, p.regs, n);
    machine::leads_on(p, q0, q1, s, s, s1, step);
    let update = q1.label(0);
    let q2 = q1.take_labels(1);
    machine::leads_nowhere(q1, q2, s1, step);
    machine::leads_on(p, q1, q2, s, s1, s1, step);
    let a = window_machine::get(s1.regs, kept as int, n);
    let b = window_machine::get(s1.regs, values as int, n);
    let s2 = Machine {
        compared: if a == b {
            0
        } else {
            1
        },
        ..s1
    };
    let compare = Insn::Compare {
        start_reg_a: kept,
        start_reg_b: values,
        count: n as usize,
        key_info: program::key_list(window_emit::order_by_keys(window, m)),
    };
    let q3 = q2.op(compare);
    machine::leads_by_one(p, q2, q3, Item::Op(compare), s, s1, s2, step);
    let jump = Insn::Jump { target_pc_lt: update, target_pc_eq: again, target_pc_gt: update };
    let q4 = q3.op(jump);
    let q5 = q4.bind(update);
    let copy = Insn::Copy { src_reg: values, dst_reg: kept, extra_amount: (n - 1) as usize };
    assert(q == q5.op(copy));
    assert forall|i: int| 0 <= i < n implies a[i] == s.regs[(kept + i) as usize] && b[i]
        == row[window::column_of((#[trigger] terms[i]).expr) as int] by {
        assert(s1.regs[(kept + i) as usize] == s.regs[(kept + i) as usize]);
    }
    if a == b {
        assert forall|i: int| 0 <= i < n implies s.regs[(kept + i) as usize]
            == row[window::column_of((#[trigger] terms[i]).expr) as int] by {
            assert(a[i] == b[i]);
        }
        machine::jumps_by_one(p, q3, q4, Item::Op(jump), again, s, s2, s2, step);
        let rest = machine::written(q4, q);
        assert(rest =~= seq![Item::Bind(update), Item::Op(copy)]);
        assert(rest[0] == Item::Bind(update));
        assert(rest[1] == Item::Op(copy));
        machine::place_absent(rest, again, 0);
        assert(machine::extends(q4, q));
        machine::ends_away(p, q4, q, again, s, s2, step);
        assert forall|i: int| 0 <= i < n implies s2.regs[(kept + i) as usize]
            == row[window::column_of((#[trigger] terms[i]).expr) as int] by {
            assert(a[i] == b[i]);
        }
        s2
    } else {
        if forall|i: int|
            0 <= i < n ==> s.regs[(kept + i) as usize] == row[window::column_of(
                (#[trigger] terms[i]).expr,
            ) as int] {
            assert forall|i: int| 0 <= i < n implies a[i] == b[i] by {
                assert(b[i] == row[window::column_of(terms[i].expr) as int]);
            }
            assert(a =~= b);
        }
        machine::jumps_by_one(p, q3, q4, Item::Op(jump), update, s, s2, s2, step);
        machine::jump_lands(p, q4, q5, update, s, s2, step);
        let t = Machine { regs: window_machine::put(s2.regs, kept as int, b), ..s2 };
        window_machine::put_reads(s2.regs, kept as int, b);
        machine::leads_by_one(p, q5, q, Item::Op(copy), s, s2, t, step);
        assert forall|i: int| 0 <= i < n implies t.regs[(kept + i) as usize]
            == row[window::column_of((#[trigger] terms[i]).expr) as int] by {
            assert(t.regs[(kept + i) as usize] == b[i]);
        }
        t
    }
}

/// The keys of partitions are compared column by column, each by the collation
/// that the source gives that column; order and NULLs play no part.
pub proof fn partition_keys_go_by_their_columns(
    window: Window,
    m: WindowMetadata,
    count: nat,
    i: int,
    j: int,
)
    requires
        0 <= i < count,
        0 <= j < window.partition_by@.len(),
        window.partition_by@[j] is Column,
        window::column_of(window.partition_by@[j]) == i,
        i < m.src_collations@.len(),
    ensures
        window_emit::partition_keys(window, m, count).len() == count,
        m.src_collations@[i] matches Some(collation) ==> window_emit::partition_keys(
            window,
            m,
            count,
        )[i].collation == collation,
{
    partition_term_is_found(window.partition_by@, i as nat, 0, j);
}

proof fn partition_term_is_found(terms: Seq<Expr>, i: nat, from: nat, j: int)
    requires
        from <= j < terms.len(),
        terms[j] is Column,
        window::column_of(terms[j]) == i,
    ensures
        window_emit::partition_term(terms, i, from) is Column,
        window::column_of(window_emit::partition_term(terms, i, from)) == i,
    decreases terms.len() - from,
{
    if !(terms[from as int] is Column && window::column_of(terms[from as int]) == i) {
        partition_term_is_found(terms, i, from + 1, j);
    }
}

/// Peers are told by ORDER BY values that are compared term by term, each by the
/// collation that the source gives the term's column.
pub proof fn peers_go_by_their_terms(window: Window, m: WindowMetadata, i: int)
    requires
        0 <= i < window.order_by@.len(),
        window.order_by@[i].expr is Column,
        window::column_of(window.order_by@[i].expr) < m.src_collations@.len(),
    ensures
        window_emit::order_by_keys(window, m).len() == window.order_by@.len(),
        m.src_collations@[window::column_of(window.order_by@[i].expr) as int] matches Some(
            collation,
        ) ==> window_emit::order_by_keys(window, m)[i].collation == collation,
{
}

} // verus!
