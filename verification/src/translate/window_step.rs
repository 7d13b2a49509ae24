//! The loops of window processing: what is done for every source row, at the
//! end of every partition, and at the end.

use vstd::prelude::*;
use crate::translate::program;
use crate::translate::program::{
    Code, Comment, Fragment, Insn, Label, ProgramBuilder, make_key_list,
};
use crate::translate::window;
use crate::translate::window::{FrameBoundary, FrameMode, OrderTerm, Window, WindowMetadata};
use crate::translate::window_emit;
use crate::translate::window_emit::{
    WindowOp, build_order_by_key_info, emit_flush_buffer_if_new_partition, emit_function_inverse,
    emit_function_step, emit_insert_row_into_buffer, emit_load_order_by_columns,
    emit_return_one_row, source_column, window_delete_op,
};
use crate::translate::window::positional;

verus! {

/// The cursor that an operation reads and advances.
pub open spec fn op_cursor(m: WindowMetadata, op: WindowOp) -> usize {
    match op {
        WindowOp::AggStep => m.cursors.csr_end,
        WindowOp::ReturnRow => m.cursors.csr_current,
        WindowOp::AggInverse => m.cursors.csr_start->Some_0,
    }
}

/// Where the ORDER BY values of the peers at that cursor are kept.
pub open spec fn op_peers(m: WindowMetadata, op: WindowOp) -> Option<usize> {
    match op {
        WindowOp::AggStep => m.registers.peer_end_reg,
        WindowOp::ReturnRow => m.registers.peer_current_reg,
        WindowOp::AggInverse => m.registers.peer_start_reg,
    }
}

/// The values of the first `n` functions, of those that have a state.
pub open spec fn final_values(p: Code, window: Window, m: WindowMetadata, n: nat) -> Code
    decreases n,
{
    if n == 0 {
        p
    } else {
        let q = final_values(p, window, m, (n - 1) as nat);
        let f = window.functions@[n - 1];
        if window::is_positional(f.func) {
            q
        } else {
            q.op(
                Insn::AggValue {
                    acc_reg: (m.registers.acc_start + n - 1) as usize,
                    dest_reg: (m.registers.acc_result_start + n - 1) as usize,
                    func: f.func,
                },
            )
        }
    }
}

pub(crate) proof fn final_values_keeps(p: Code, window: Window, m: WindowMetadata, n: nat)
    ensures
        final_values(p, window, m, n).regs == p.regs,
        final_values(p, window, m, n).labels == p.labels,
        final_values(p, window, m, n).cursors == p.cursors,
    decreases n,
{
    if n > 0 {
        final_values_keeps(p, window, m, (n - 1) as nat);
    }
}

/// The ORDER BY values of the row at a cursor: the first `n` of them.
pub open spec fn load_peer(p: Code, terms: Seq<OrderTerm>, csr: usize, base: nat, n: nat) -> Code
    decreases n,
{
    if n == 0 {
        p
    } else {
        load_peer(p, terms, csr, base, (n - 1) as nat).op(
            Insn::Column {
                cursor_id: csr,
                column: window::column_of(terms[n - 1].expr),
                dest: (base + n - 1) as usize,
            },
        )
    }
}

pub(crate) proof fn load_peer_keeps(p: Code, terms: Seq<OrderTerm>, csr: usize, base: nat, n: nat)
    ensures
        load_peer(p, terms, csr, base, n).regs == p.regs,
        load_peer(p, terms, csr, base, n).labels == p.labels,
        load_peer(p, terms, csr, base, n).cursors == p.cursors,
    decreases n,
{
    if n > 0 {
        load_peer_keeps(p, terms, csr, base, (n - 1) as nat);
    }
}

/// What an operation does with the row at its cursor.
pub open spec fn op_body(p: Code, window: Window, m: WindowMetadata, op: WindowOp) -> Code {
    let n = window.functions@.len();
    match op {
        WindowOp::AggStep => {
            let q = window_emit::step_functions(p, window, m, m.cursors.csr_end, n);
            match m.registers.frame_end_rowid {
                Some(dest) => q.op(Insn::RowId { cursor_id: m.cursors.csr_end, dest }),
                None => q,
            }
        },
        WindowOp::ReturnRow => window_emit::return_row(p, window, m),
        WindowOp::AggInverse => window_emit::inverse_functions(p, window, m, n),
    }
}

pub(crate) proof fn op_body_grows(p: Code, window: Window, m: WindowMetadata, op: WindowOp)
    ensures
        window_emit::grown(p, op_body(p, window, m, op)),
        op_body(p, window, m, op).cursors == p.cursors,
{
    let n = window.functions@.len();
    match op {
        WindowOp::AggStep => {
            window_emit::step_functions_grow(p, window, m, m.cursors.csr_end, n, n);
        },
        WindowOp::ReturnRow => {
            window_emit::return_row_grows(p, window, m);
        },
        WindowOp::AggInverse => {
            window_emit::inverse_functions_keeps(p, window, m, n);
        },
    }
}

/// The row at the cursor is deleted behind the operation that is the last to
/// reach it; then the cursor is advanced. At the end of the buffer the code
/// goes on at `break_on_eof`, or else, where peers are looped over, at `done`.
pub open spec fn advance(
    p: Code,
    window: Window,
    m: WindowMetadata,
    op: WindowOp,
    break_on_eof: Option<Label>,
    done: Label,
) -> Code {
    let csr = op_cursor(m, op);
    let deleted = if window_emit::delete_op(window, m.cursors.csr_app is Some) == Some(op) {
        p.op(
            Insn::Delete { cursor_id: csr, buffer_of: m.buffer_of, is_part_of_update: false },
        )
    } else {
        p
    };
    let after = deleted.label(0);
    let next = deleted.take_labels(1).op(Insn::Next { cursor_id: csr, pc_if_next: after });
    (match break_on_eof {
        Some(target) => next.op(Insn::Goto { target_pc: target }),
        None => if window.frame.mode != FrameMode::Rows {
            next.op(Insn::Goto { target_pc: done })
        } else {
            next
        },
    }).bind(after)
}

/// Goes back to `again` while the row at the cursor is a peer of the one
/// before it; keeps the ORDER BY values of the first row that is not. Without
/// an ORDER BY all rows are peers; under ROWS no two are.
pub open spec fn peer_loop(
    p: Code,
    window: Window,
    m: WindowMetadata,
    op: WindowOp,
    again: Label,
) -> Code {
    let n = window.order_by@.len();
    if window.frame.mode == FrameMode::Rows {
        p
    } else if n == 0 {
        p.op(Insn::Goto { target_pc: again })
    } else {
        let values = p.reg();
        let kept = op_peers(m, op)->Some_0;
        let q = load_peer(p.take_regs(n), window.order_by@, op_cursor(m, op), p.regs, n);
        let update = q.label(0);
        q.take_labels(1).op(
            Insn::Compare {
                start_reg_a: kept,
                start_reg_b: values,
                count: n as usize,
                key_info: program::key_list(window_emit::order_by_keys(window, m)),
            },
        ).op(
            Insn::Jump { target_pc_lt: update, target_pc_eq: again, target_pc_gt: update },
        ).bind(update).op(
            Insn::Copy { src_reg: values, dst_reg: kept, extra_amount: (n - 1) as usize },
        )
    }
}

pub(crate) proof fn peer_loop_grows(p: Code, window: Window, m: WindowMetadata, op: WindowOp, again: Label)
    ensures
        window_emit::grown(p, peer_loop(p, window, m, op, again)),
        peer_loop(p, window, m, op, again).cursors == p.cursors,
{
    let n = window.order_by@.len();
    load_peer_keeps(p.take_regs(n), window.order_by@, op_cursor(m, op), p.regs, n);
}

/// One operation on the frame.
///
/// While `countdown`, where there is one, is positive, it is decremented
/// instead. Under RANGE and GROUPS the operation is done for a whole group of
/// peers, under ROWS for one row.
pub open spec fn window_op(
    p: Code,
    window: Window,
    m: WindowMetadata,
    op: WindowOp,
    countdown: Option<usize>,
    break_on_eof: Option<Label>,
) -> Code {
    let done = p.label(0);
    let again = p.label(1);
    let start = p.take_labels(1);
    let gated = match countdown {
        Some(reg) => start.op(Insn::IfPos { reg, target_pc: done, decrement_by: 1 }),
        None => start,
    };
    let valued = if op == WindowOp::ReturnRow {
        final_values(gated, window, m, window.functions@.len())
    } else {
        gated
    };
    let body = op_body(valued.take_labels(1).bind(again), window, m, op);
    peer_loop(advance(body, window, m, op, break_on_eof, done), window, m, op, again).bind(done)
}

pub(crate) proof fn window_op_grows(
    p: Code,
    window: Window,
    m: WindowMetadata,
    op: WindowOp,
    countdown: Option<usize>,
    break_on_eof: Option<Label>,
)
    ensures
        window_emit::grown(p, window_op(p, window, m, op, countdown, break_on_eof)),
        window_op(p, window, m, op, countdown, break_on_eof).cursors == p.cursors,
        p.labels + 3 <= window_op(p, window, m, op, countdown, break_on_eof).labels,
{
    let done = p.label(0);
    let again = p.label(1);
    let start = p.take_labels(1);
    let gated = match countdown {
        Some(reg) => start.op(Insn::IfPos { reg, target_pc: done, decrement_by: 1 }),
        None => start,
    };
    final_values_keeps(gated, window, m, window.functions@.len());
    let valued = if op == WindowOp::ReturnRow {
        final_values(gated, window, m, window.functions@.len())
    } else {
        gated
    };
    let begin = valued.take_labels(1).bind(again);
    op_body_grows(begin, window, m, op);
    let body = op_body(begin, window, m, op);
    peer_loop_grows(advance(body, window, m, op, break_on_eof, done), window, m, op, again);
}

/// Writes the values of the functions that have a state.
fn emit_final_values(program: &mut ProgramBuilder, window: &Window, meta: &WindowMetadata)
    requires
        meta.serves(*window),
    ensures
        final(program)@ == final_values(old(program)@, *window, *meta, window.functions@.len()),
{
    let mut i: usize = 0;
    while i < window.functions.len()
        invariant
            i <= window.functions@.len(),
            meta.serves(*window),
            program@ == final_values(old(program)@, *window, *meta, i as nat),
        decreases window.functions@.len() - i,
    {
        if !positional(window.functions[i].func) {
            program.emit_insn(
                Insn::AggValue {
                    acc_reg: meta.registers.acc_start + i,
                    dest_reg: meta.registers.acc_result_start + i,
                    func: window.functions[i].func,
                },
            );
        }
        i = i + 1;
    }
}

/// Writes the loop over peers.
fn emit_peer_loop(
    program: &mut ProgramBuilder,
    window: &Window,
    meta: &WindowMetadata,
    op: WindowOp,
    cursor_for_op: usize,
    peer_ref_reg: Option<usize>,
    label_continue: Label,
)
    requires
        meta.serves(*window),
        op == WindowOp::AggInverse ==> window::has_moving_start(*window),
        cursor_for_op == op_cursor(*meta, op),
        peer_ref_reg == op_peers(*meta, op),
        peer_loop(old(program)@, *window, *meta, op, label_continue).fits(),
    ensures
        final(program)@ == peer_loop(old(program)@, *window, *meta, op, label_continue),
{
    let order_by_len: usize = window.order_by.len();
    if window.frame.mode != FrameMode::Rows {
        if order_by_len == 0 {
            program.emit_insn(Insn::Goto { target_pc: label_continue });
        } else if let Some(peer_ref) = peer_ref_reg {
            proof {
                load_peer_keeps(
                    old(program)@.take_regs(order_by_len as nat),
                    window.order_by@,
                    cursor_for_op,
                    old(program)@.regs,
                    order_by_len as nat,
                );
            }
            let temp_start: usize = program.alloc_registers(order_by_len);
            let ghost start = program@;
            let mut i: usize = 0;
            while i < window.order_by.len()
                invariant
                    i <= window.order_by@.len(),
                    temp_start + window.order_by@.len() <= u32::MAX,
                    program@ == load_peer(
                        start,
                        window.order_by@,
                        cursor_for_op,
                        temp_start as nat,
                        i as nat,
                    ),
                decreases window.order_by@.len() - i,
            {
                program.emit_insn(
                    Insn::Column {
                        cursor_id: cursor_for_op,
                        column: source_column(&window.order_by[i].expr),
                        dest: temp_start + i,
                    },
                );
                i = i + 1;
            }
            let keys = build_order_by_key_info(window, meta);
            let label_update_peer = program.allocate_label();
            program.emit_insn(
                Insn::Compare {
                    start_reg_a: peer_ref,
                    start_reg_b: temp_start,
                    count: order_by_len,
                    key_info: make_key_list(&keys),
                },
            );
            program.emit_insn(
                Insn::Jump {
                    target_pc_lt: label_update_peer,
                    target_pc_eq: label_continue,
                    target_pc_gt: label_update_peer,
                },
            );
            program.preassign_label_to_next_insn(label_update_peer);
            program.emit_insn(
                Insn::Copy {
                    src_reg: temp_start,
                    dst_reg: peer_ref,
                    extra_amount: order_by_len - 1,
                },
            );
        }
    }
}

/// Writes one operation on the frame.
pub fn emit_window_op(
    program: &mut ProgramBuilder,
    window: &Window,
    meta: &WindowMetadata,
    op: WindowOp,
    countdown_reg: Option<usize>,
    break_on_eof: Option<Label>,
)
    requires
        meta.serves(*window),
        op == WindowOp::AggInverse ==> window::has_moving_start(*window),
        window_op(old(program)@, *window, *meta, op, countdown_reg, break_on_eof).fits(),
    ensures
        final(program)@ == window_op(
            old(program)@,
            *window,
            *meta,
            op,
            countdown_reg,
            break_on_eof,
        ),
{
    proof {
        window_op_grows(old(program)@, *window, *meta, op, countdown_reg, break_on_eof);
    }
    let label_done = program.allocate_label();
    let csr_start: usize = match meta.cursors.csr_start {
        Some(csr_start) => csr_start,
        None => 0,
    };
    let (cursor_for_op, peer_ref_reg) = match op {
        WindowOp::AggStep => (meta.cursors.csr_end, meta.registers.peer_end_reg),
        WindowOp::ReturnRow => (meta.cursors.csr_current, meta.registers.peer_current_reg),
        WindowOp::AggInverse => (csr_start, meta.registers.peer_start_reg),
    };
    if let Some(reg) = countdown_reg {
        program.emit_insn(Insn::IfPos { reg, target_pc: label_done, decrement_by: 1 });
    }
    let ghost gated = program@;
    if op == WindowOp::ReturnRow {
        emit_final_values(program, window, meta);
    }
    let ghost valued = program@;
    proof {
        final_values_keeps(gated, *window, *meta, window.functions@.len());
        let begin = valued.take_labels(1).bind(valued.label(0));
        op_body_grows(begin, *window, *meta, op);
        let body = op_body(begin, *window, *meta, op);
        let advanced = advance(body, *window, *meta, op, break_on_eof, label_done);
        peer_loop_grows(advanced, *window, *meta, op, valued.label(0));
    }
    let label_continue = program.allocate_label();
    program.preassign_label_to_next_insn(label_continue);
    let ghost begin = program@;

    match op {
        WindowOp::AggStep => {
            emit_function_step(program, window, meta, meta.cursors.csr_end);
            if let Some(frame_end_rowid) = meta.registers.frame_end_rowid {
                program.emit_insn(
                    Insn::RowId { cursor_id: meta.cursors.csr_end, dest: frame_end_rowid },
                );
            }
        },
        WindowOp::ReturnRow => {
            emit_return_one_row(program, window, meta);
        },
        WindowOp::AggInverse => {
            emit_function_inverse(program, window, meta);
        },
    }
    assert(program@ == op_body(begin, *window, *meta, op));
    let ghost body = program@;

    let deletes: bool = match window_delete_op(window, meta.cursors.csr_app.is_some()) {
        Some(delete_op) => delete_op == op,
        None => false,
    };
    if deletes {
        program.emit_insn(
            Insn::Delete {
                cursor_id: cursor_for_op,
                buffer_of: meta.buffer_of,
                is_part_of_update: false,
            },
        );
    }
    let label_after_next = program.allocate_label();
    program.emit_insn(Insn::Next { cursor_id: cursor_for_op, pc_if_next: label_after_next });
    if let Some(break_target) = break_on_eof {
        program.emit_insn(Insn::Goto { target_pc: break_target });
    } else if window.frame.mode != FrameMode::Rows {
        program.emit_insn(Insn::Goto { target_pc: label_done });
    }
    program.preassign_label_to_next_insn(label_after_next);
    assert(program@ == advance(body, *window, *meta, op, break_on_eof, label_done));
    emit_peer_loop(program, window, meta, op, cursor_for_op, peer_ref_reg, label_continue);
    program.preassign_label_to_next_insn(label_done);
}

/// Keeps the ORDER BY values of the first row of a partition, where a cursor
/// loops over peers.
pub open spec fn seed_peer(p: Code, new_order_by: usize, peer: Option<usize>, n: nat) -> Code {
    match peer {
        Some(dst_reg) => p.op(
            Insn::Copy { src_reg: new_order_by, dst_reg, extra_amount: (n - 1) as usize },
        ),
        None => p,
    }
}

/// Keeps the ORDER BY values of the first row of a partition for every cursor.
pub open spec fn seed_peers(p: Code, window: Window, m: WindowMetadata) -> Code {
    match m.registers.new_order_by_columns_start {
        Some(new_order_by) => {
            let n = window.order_by@.len();
            let start = seed_peer(
                p.comment(Comment::SeedPeers),
                new_order_by,
                m.registers.peer_start_reg,
                n,
            );
            let current = seed_peer(start, new_order_by, m.registers.peer_current_reg, n);
            seed_peer(current, new_order_by, m.registers.peer_end_reg, n)
        },
        None => p,
    }
}

/// The first row of a partition: forgets the state of the functions, buffers
/// the row and places the cursors on it.
pub open spec fn first_row(p: Code, window: Window, m: WindowMetadata, end: Label) -> Code {
    let reset = seed_peers(p, window, m).comment(Comment::ResetAccumulators).op(
        Insn::Null {
            dest: m.registers.acc_start,
            dest_end: Some((m.registers.acc_start + window.functions@.len() - 1) as usize),
        },
    );
    let offset = match (m.registers.start_offset_reg, window.frame.start) {
        (Some(dest), FrameBoundary::Following(expr)) => reset.fragment(
            Fragment::ExprEachTime { expr, dest },
        ),
        _ => reset,
    };
    let inserted = window_emit::insert_row(offset, m);
    let empty = inserted.label(0);
    let labelled = inserted.take_labels(1);
    (match m.cursors.csr_start {
        Some(cursor_id) => labelled.op(Insn::Rewind { cursor_id, pc_if_empty: empty }),
        None => labelled,
    }).op(Insn::Rewind { cursor_id: m.cursors.csr_current, pc_if_empty: empty }).op(
        Insn::Rewind { cursor_id: m.cursors.csr_end, pc_if_empty: empty },
    ).bind(empty).op(Insn::Goto { target_pc: end })
}

/// Goes to `end` for a row that is a peer of the one before it: the frame does
/// not move until the group of peers is complete.
pub open spec fn skip_peers(p: Code, window: Window, m: WindowMetadata, end: Label) -> Code {
    let n = window.order_by@.len();
    if window.frame.mode == FrameMode::Rows {
        p
    } else if n == 0 {
        p.op(Insn::Goto { target_pc: end })
    } else {
        let body = p.label(0);
        p.take_labels(1).comment(Comment::DetectPeer).op(
            Insn::Compare {
                start_reg_a: m.registers.new_order_by_columns_start->Some_0,
                start_reg_b: m.registers.peer_end_reg->Some_0,
                count: n as usize,
                key_info: program::key_list(window_emit::order_by_keys(window, m)),
            },
        ).op(
            Insn::Jump { target_pc_lt: body, target_pc_eq: end, target_pc_gt: body },
        ).bind(body)
    }
}

/// Any other row of a partition: buffers the row, and moves the frame on
/// unless the row is a peer of the one before it. Where the frame ends with
/// the partition nothing is returned before that.
pub open spec fn subsequent_row(p: Code, window: Window, m: WindowMetadata, end: Label) -> Code {
    let inserted = window_emit::insert_row(p, m);
    let stepped = window_op(
        skip_peers(inserted, window, m, end),
        window,
        m,
        WindowOp::AggStep,
        None,
        None,
    );
    if window.frame.end is UnboundedFollowing {
        stepped
    } else {
        window_op(stepped, window, m, WindowOp::ReturnRow, None, None)
    }
}

/// What is done for every source row.
pub open spec fn window_step(p: Code, window: Window, m: WindowMetadata) -> Code {
    let begun = window_emit::new_partition(
        window_emit::order_by_values(p, window, m),
        window,
        m,
    );
    let subsequent = begun.label(0);
    let end = begun.label(1);
    let first = first_row(
        begun.take_labels(2).op(
            Insn::NotNull { reg: m.registers.rowid, target_pc: subsequent },
        ),
        window,
        m,
        end,
    );
    subsequent_row(first.bind(subsequent), window, m, end).bind(end)
}

fn emit_seed_peer(program: &mut ProgramBuilder, new_ob: usize, peer: Option<usize>, n: usize)
    requires
        n > 0,
    ensures
        final(program)@ == seed_peer(old(program)@, new_ob, peer, n as nat),
{
    if let Some(dst_reg) = peer {
        program.emit_insn(Insn::Copy { src_reg: new_ob, dst_reg, extra_amount: n - 1 });
    }
}

fn emit_first_row(
    program: &mut ProgramBuilder,
    window: &Window,
    meta: &WindowMetadata,
    label_step_end: Label,
)
    requires
        meta.serves(*window),
        first_row(old(program)@, *window, *meta, label_step_end).fits(),
    ensures
        final(program)@ == first_row(old(program)@, *window, *meta, label_step_end),
{
    let registers = meta.registers;
    if let Some(new_ob) = registers.new_order_by_columns_start {
        program.add_comment(Comment::SeedPeers);
        let n: usize = window.order_by.len();
        emit_seed_peer(program, new_ob, registers.peer_start_reg, n);
        emit_seed_peer(program, new_ob, registers.peer_current_reg, n);
        emit_seed_peer(program, new_ob, registers.peer_end_reg, n);
    }
    assert(program@ == seed_peers(old(program)@, *window, *meta));
    program.add_comment(Comment::ResetAccumulators);
    program.emit_insn(
        Insn::Null {
            dest: registers.acc_start,
            dest_end: Some(registers.acc_start + window.functions.len() - 1),
        },
    );
    // Every partition evaluates the offset again: the countdown changes it.
    if let Some(start_offset_reg) = registers.start_offset_reg {
        if let FrameBoundary::Following(expr) = &window.frame.start {
            program.emit_fragment(
                Fragment::ExprEachTime { expr: Box::new(expr.copy()), dest: start_offset_reg },
            );
        }
    }
    emit_insert_row_into_buffer(program, meta);
    let label_unreachable_empty = program.allocate_label();
    if let Some(csr_start) = meta.cursors.csr_start {
        program.emit_insn(
            Insn::Rewind { cursor_id: csr_start, pc_if_empty: label_unreachable_empty },
        );
    }
    program.emit_insn(
        Insn::Rewind {
            cursor_id: meta.cursors.csr_current,
            pc_if_empty: label_unreachable_empty,
        },
    );
    program.emit_insn(
        Insn::Rewind { cursor_id: meta.cursors.csr_end, pc_if_empty: label_unreachable_empty },
    );
    program.preassign_label_to_next_insn(label_unreachable_empty);
    program.emit_insn(Insn::Goto { target_pc: label_step_end });
}

fn emit_subsequent_row(
    program: &mut ProgramBuilder,
    window: &Window,
    meta: &WindowMetadata,
    label_step_end: Label,
)
    requires
        meta.serves(*window),
        subsequent_row(old(program)@, *window, *meta, label_step_end).fits(),
    ensures
        final(program)@ == subsequent_row(old(program)@, *window, *meta, label_step_end),
{
    proof {
        let inserted = window_emit::insert_row(old(program)@, *meta);
        let skipped = skip_peers(inserted, *window, *meta, label_step_end);
        window_op_grows(skipped, *window, *meta, WindowOp::AggStep, None, None);
        let stepped = window_op(skipped, *window, *meta, WindowOp::AggStep, None, None);
        window_op_grows(stepped, *window, *meta, WindowOp::ReturnRow, None, None);
    }
    emit_insert_row_into_buffer(program, meta);
    let order_by_len: usize = window.order_by.len();
    if window.frame.mode != FrameMode::Rows {
        if order_by_len == 0 {
            program.emit_insn(Insn::Goto { target_pc: label_step_end });
        } else if let (Some(new_ob), Some(peer_end)) = (
            meta.registers.new_order_by_columns_start,
            meta.registers.peer_end_reg,
        ) {
            let label_step_body = program.allocate_label();
            program.add_comment(Comment::DetectPeer);
            let keys = build_order_by_key_info(window, meta);
            program.emit_insn(
                Insn::Compare {
                    start_reg_a: new_ob,
                    start_reg_b: peer_end,
                    count: order_by_len,
                    key_info: make_key_list(&keys),
                },
            );
            program.emit_insn(
                Insn::Jump {
                    target_pc_lt: label_step_body,
                    target_pc_eq: label_step_end,
                    target_pc_gt: label_step_body,
                },
            );
            program.preassign_label_to_next_insn(label_step_body);
        }
    }
    emit_window_op(program, window, meta, WindowOp::AggStep, None, None);
    let cache_frame: bool = match &window.frame.end {
        FrameBoundary::UnboundedFollowing => true,
        _ => false,
    };
    if !cache_frame {
        emit_window_op(program, window, meta, WindowOp::ReturnRow, None, None);
    }
}

/// Sending a row to the outer query: to its sorter where it has an ORDER BY,
/// else to its result.
#[derive(Clone, Copy, Debug, PartialEq, Eq, Structural)]
pub struct OutputPlan {
    pub ordered: bool,
    /// Where SELECT DISTINCT goes on for a row that was there before.
    pub distinct_conflict: Option<Label>,
}

/// The subroutine that sends the result registers to the outer query. The values
/// of expressions that stand in registers are read from there.
pub open spec fn row_output(p: Code, m: WindowMetadata, output: OutputPlan) -> Code {
    let skip = p.label(0);
    let begun = p.bind(m.labels.row_output).take_labels(1).with_expr_cache();
    let sent = if output.ordered {
        begun.fragment(Fragment::SorterInsert)
    } else {
        begun.fragment(
            Fragment::SelectResult { end: m.labels.window_processing_end, skip },
        )
    };
    (match output.distinct_conflict {
        Some(conflict) => sent.bind(skip).bind(conflict),
        None => sent.bind(skip),
    }).op(
        Insn::Return { return_reg: m.registers.row_output_return, can_fallthrough: false },
    )
}

fn emit_row_output_subroutine(
    program: &mut ProgramBuilder,
    meta: &WindowMetadata,
    output: OutputPlan,
)
    requires
        row_output(old(program)@, *meta, output).fits(),
    ensures
        final(program)@ == row_output(old(program)@, *meta, output),
{
    program.preassign_label_to_next_insn(meta.labels.row_output);
    let label_skip_returning_row = program.allocate_label();
    program.enable_expr_to_reg_cache();
    if output.ordered {
        program.emit_fragment(Fragment::SorterInsert);
    } else {
        program.emit_fragment(
            Fragment::SelectResult {
                end: meta.labels.window_processing_end,
                skip: label_skip_returning_row,
            },
        );
    }
    program.preassign_label_to_next_insn(label_skip_returning_row);
    if let Some(conflict) = output.distinct_conflict {
        program.preassign_label_to_next_insn(conflict);
    }
    program.emit_insn(
        Insn::Return { return_reg: meta.registers.row_output_return, can_fallthrough: false },
    );
}

/// Returns the rows of the buffer that have not been returned.
///
/// Where the frame starts with the partition, one row after the other. Where
/// it starts at the current row, a row leaves it for every row returned. Where
/// it starts behind the current row, rows leave it first, as many as the
/// offset says; when all have left, the rest is returned.
pub open spec fn drain(p: Code, window: Window, m: WindowMetadata, stop: Label) -> Code {
    match window.frame.start {
        FrameBoundary::Following(_) => {
            let left = p.label(0);
            let loop_1 = p.label(1);
            let returned = window_op(
                p.take_labels(2).bind(loop_1),
                window,
                m,
                WindowOp::ReturnRow,
                m.registers.start_offset_reg,
                Some(stop),
            );
            let inverted = window_op(
                returned,
                window,
                m,
                WindowOp::AggInverse,
                None,
                Some(left),
            ).op(Insn::Goto { target_pc: loop_1 }).bind(left);
            let loop_2 = inverted.label(0);
            window_op(
                inverted.take_labels(1).bind(loop_2),
                window,
                m,
                WindowOp::ReturnRow,
                None,
                Some(stop),
            ).op(Insn::Goto { target_pc: loop_2 })
        },
        FrameBoundary::CurrentRow => {
            let again = p.label(0);
            let returned = window_op(
                p.take_labels(1).bind(again),
                window,
                m,
                WindowOp::ReturnRow,
                None,
                Some(stop),
            );
            window_op(returned, window, m, WindowOp::AggInverse, None, None).op(
                Insn::Goto { target_pc: again },
            )
        },
        _ => {
            let again = p.label(0);
            window_op(
                p.take_labels(1).bind(again),
                window,
                m,
                WindowOp::ReturnRow,
                None,
                Some(stop),
            ).op(Insn::Goto { target_pc: again })
        },
    }
}

/// What is done at the end of a partition, and behind it the row output
/// subroutine.
///
/// The code is reached in two ways: at the end of the source, with a return
/// register that is NULL, so that it falls through; and as a subroutine at the
/// end of every other partition.
pub open spec fn window_flush(
    p: Code,
    window: Window,
    m: WindowMetadata,
    output: OutputPlan,
) -> Code {
    let empty = p.label(0);
    let stop = p.label(1);
    let begun = p.take_labels(2).comment(Comment::ReturnRemaining).op(
        Insn::Null { dest: m.registers.flush_buffer_return_offset, dest_end: None },
    ).bind(m.labels.flush_buffer).op(
        Insn::Rewind { cursor_id: m.cursors.csr_write, pc_if_empty: empty },
    );
    let stepped = window_op(begun, window, m, WindowOp::AggStep, None, None);
    row_output(
        drain(stepped, window, m, stop).bind(stop).bind(empty).op(
            Insn::ResetSorter { cursor_id: m.cursors.csr_current },
        ).op(
            Insn::Return {
                return_reg: m.registers.flush_buffer_return_offset,
                can_fallthrough: true,
            },
        ).op(Insn::Goto { target_pc: m.labels.window_processing_end }),
        m,
        output,
    ).bind(m.labels.window_processing_end)
}

pub(crate) proof fn drain_grows(p: Code, window: Window, m: WindowMetadata, stop: Label)
    ensures
        window_emit::grown(p, drain(p, window, m, stop)),
        drain(p, window, m, stop).cursors == p.cursors,
{
    match window.frame.start {
        FrameBoundary::Following(_) => {
            let left = p.label(0);
            let loop_1 = p.label(1);
            let start = p.take_labels(2).bind(loop_1);
            let count = m.registers.start_offset_reg;
            window_op_grows(start, window, m, WindowOp::ReturnRow, count, Some(stop));
            let returned = window_op(start, window, m, WindowOp::ReturnRow, count, Some(stop));
            window_op_grows(returned, window, m, WindowOp::AggInverse, None, Some(left));
            let inverted = window_op(
                returned,
                window,
                m,
                WindowOp::AggInverse,
                None,
                Some(left),
            ).op(Insn::Goto { target_pc: loop_1 }).bind(left);
            let loop_2 = inverted.label(0);
            window_op_grows(
                inverted.take_labels(1).bind(loop_2),
                window,
                m,
                WindowOp::ReturnRow,
                None,
                Some(stop),
            );
        },
        FrameBoundary::CurrentRow => {
            let start = p.take_labels(1).bind(p.label(0));
            window_op_grows(start, window, m, WindowOp::ReturnRow, None, Some(stop));
            let returned = window_op(start, window, m, WindowOp::ReturnRow, None, Some(stop));
            window_op_grows(returned, window, m, WindowOp::AggInverse, None, None);
        },
        _ => {
            let start = p.take_labels(1).bind(p.label(0));
            window_op_grows(start, window, m, WindowOp::ReturnRow, None, Some(stop));
        },
    }
}

/// Whether a frame's start is one that planning leaves.
pub open spec fn supported_start(window: Window) -> bool {
    window.frame.start is UnboundedPreceding || window.frame.start is CurrentRow
        || window.frame.start is Following
}

fn emit_drain(program: &mut ProgramBuilder, window: &Window, meta: &WindowMetadata, stop: Label)
    requires
        meta.serves(*window),
        supported_start(*window),
        drain(old(program)@, *window, *meta, stop).fits(),
    ensures
        final(program)@ == drain(old(program)@, *window, *meta, stop),
{
    match &window.frame.start {
        FrameBoundary::Following(_) => {
            proof {
                let p = old(program)@;
                let left = p.label(0);
                let loop_1 = p.label(1);
                let start = p.take_labels(2).bind(loop_1);
                let count = meta.registers.start_offset_reg;
                window_op_grows(start, *window, *meta, WindowOp::ReturnRow, count, Some(stop));
                let returned = window_op(
                    start,
                    *window,
                    *meta,
                    WindowOp::ReturnRow,
                    count,
                    Some(stop),
                );
                window_op_grows(returned, *window, *meta, WindowOp::AggInverse, None, Some(left));
                let inverted = window_op(
                    returned,
                    *window,
                    *meta,
                    WindowOp::AggInverse,
                    None,
                    Some(left),
                ).op(Insn::Goto { target_pc: loop_1 }).bind(left);
                window_op_grows(
                    inverted.take_labels(1).bind(inverted.label(0)),
                    *window,
                    *meta,
                    WindowOp::ReturnRow,
                    None,
                    Some(stop),
                );
            }
            let label_after_inverse_eof = program.allocate_label();
            let label_loop_1 = program.allocate_label();
            program.preassign_label_to_next_insn(label_loop_1);
            emit_window_op(
                program,
                window,
                meta,
                WindowOp::ReturnRow,
                meta.registers.start_offset_reg,
                Some(stop),
            );
            emit_window_op(
                program,
                window,
                meta,
                WindowOp::AggInverse,
                None,
                Some(label_after_inverse_eof),
            );
            program.emit_insn(Insn::Goto { target_pc: label_loop_1 });
            program.preassign_label_to_next_insn(label_after_inverse_eof);
            let label_loop_2 = program.allocate_label();
            program.preassign_label_to_next_insn(label_loop_2);
            emit_window_op(program, window, meta, WindowOp::ReturnRow, None, Some(stop));
            program.emit_insn(Insn::Goto { target_pc: label_loop_2 });
        },
        FrameBoundary::CurrentRow => {
            proof {
                let p = old(program)@;
                let start = p.take_labels(1).bind(p.label(0));
                window_op_grows(start, *window, *meta, WindowOp::ReturnRow, None, Some(stop));
                let returned = window_op(
                    start,
                    *window,
                    *meta,
                    WindowOp::ReturnRow,
                    None,
                    Some(stop),
                );
                window_op_grows(returned, *window, *meta, WindowOp::AggInverse, None, None);
            }
            let label_loop_start = program.allocate_label();
            program.preassign_label_to_next_insn(label_loop_start);
            emit_window_op(program, window, meta, WindowOp::ReturnRow, None, Some(stop));
            emit_window_op(program, window, meta, WindowOp::AggInverse, None, None);
            program.emit_insn(Insn::Goto { target_pc: label_loop_start });
        },
        _ => {
            proof {
                let p = old(program)@;
                let start = p.take_labels(1).bind(p.label(0));
                window_op_grows(start, *window, *meta, WindowOp::ReturnRow, None, Some(stop));
            }
            let label_loop_start = program.allocate_label();
            program.preassign_label_to_next_insn(label_loop_start);
            emit_window_op(program, window, meta, WindowOp::ReturnRow, None, Some(stop));
            program.emit_insn(Insn::Goto { target_pc: label_loop_start });
        },
    }
}

/// Writes what is done at the end of a partition.
pub fn emit_window_flush(
    program: &mut ProgramBuilder,
    window: &Window,
    meta: &WindowMetadata,
    output: OutputPlan,
)
    requires
        meta.serves(*window),
        supported_start(*window),
        window_flush(old(program)@, *window, *meta, output).fits(),
    ensures
        final(program)@ == window_flush(old(program)@, *window, *meta, output),
{
    proof {
        let p = old(program)@;
        let begun = p.take_labels(2).comment(Comment::ReturnRemaining).op(
            Insn::Null { dest: meta.registers.flush_buffer_return_offset, dest_end: None },
        ).bind(meta.labels.flush_buffer).op(
            Insn::Rewind { cursor_id: meta.cursors.csr_write, pc_if_empty: p.label(0) },
        );
        window_op_grows(begun, *window, *meta, WindowOp::AggStep, None, None);
        let stepped = window_op(begun, *window, *meta, WindowOp::AggStep, None, None);
        drain_grows(stepped, *window, *meta, p.label(1));
    }
    let label_empty = program.allocate_label();
    let label_break = program.allocate_label();
    program.add_comment(Comment::ReturnRemaining);
    program.emit_insn(
        Insn::Null { dest: meta.registers.flush_buffer_return_offset, dest_end: None },
    );
    program.preassign_label_to_next_insn(meta.labels.flush_buffer);
    program.emit_insn(
        Insn::Rewind { cursor_id: meta.cursors.csr_write, pc_if_empty: label_empty },
    );
    emit_window_op(program, window, meta, WindowOp::AggStep, None, None);
    emit_drain(program, window, meta, label_break);
    program.preassign_label_to_next_insn(label_break);
    program.preassign_label_to_next_insn(label_empty);
    program.emit_insn(Insn::ResetSorter { cursor_id: meta.cursors.csr_current });
    program.emit_insn(
        Insn::Return {
            return_reg: meta.registers.flush_buffer_return_offset,
            can_fallthrough: true,
        },
    );
    program.emit_insn(Insn::Goto { target_pc: meta.labels.window_processing_end });
    emit_row_output_subroutine(program, meta, output);
    program.preassign_label_to_next_insn(meta.labels.window_processing_end);
}

/// Writers of the code of windows.
pub struct EmitWindow;

impl EmitWindow {
    /// Writes what is done for every source row.
    ///
    /// The first row of a partition is buffered, and the cursors are placed on
    /// it; it is returned with the rows behind it. Any other row is buffered,
    /// and unless it is a peer of the one before it, rows enter the frame and
    /// are returned.
    pub fn emit_window_step(
        program: &mut ProgramBuilder,
        window: &Window,
        meta: &WindowMetadata,
    )
        requires
            meta.serves(*window),
            window_step(old(program)@, *window, *meta).fits(),
        ensures
            final(program)@ == window_step(old(program)@, *window, *meta),
    {
        proof {
            window_step_parts_grow(old(program)@, *window, *meta);
        }
        emit_load_order_by_columns(program, window, meta);
        emit_flush_buffer_if_new_partition(program, window, meta);
        let label_subsequent = program.allocate_label();
        let label_step_end = program.allocate_label();
        program.emit_insn(
            Insn::NotNull { reg: meta.registers.rowid, target_pc: label_subsequent },
        );
        emit_first_row(program, window, meta, label_step_end);
        program.preassign_label_to_next_insn(label_subsequent);
        emit_subsequent_row(program, window, meta, label_step_end);
        program.preassign_label_to_next_insn(label_step_end);
    }
}

/// The parts of a step give out no less than the parts before them.
pub(crate) proof fn window_step_parts_grow(p: Code, window: Window, m: WindowMetadata)
    ensures
        ({
            let loaded = window_emit::order_by_values(p, window, m);
            let begun = window_emit::new_partition(loaded, window, m);
            let tested = begun.take_labels(2).op(
                Insn::NotNull { reg: m.registers.rowid, target_pc: begun.label(0) },
            );
            let first = first_row(tested, window, m, begun.label(1));
            let last = subsequent_row(first.bind(begun.label(0)), window, m, begun.label(1));
            &&& window_emit::grown(p, loaded)
            &&& window_emit::grown(loaded, begun)
            &&& window_emit::grown(tested, first)
            &&& window_emit::grown(first, last)
            &&& loaded.cursors == p.cursors
            &&& last.cursors == p.cursors
        }),
{
    if let Some(dst) = m.registers.new_order_by_columns_start {
        window_emit::load_order_by_keeps(
            p,
            window.order_by@,
            m.registers.src_columns_start as nat,
            dst as nat,
            window.order_by@.len(),
        );
    }
    let loaded = window_emit::order_by_values(p, window, m);
    let begun = window_emit::new_partition(loaded, window, m);
    let tested = begun.take_labels(2).op(
        Insn::NotNull { reg: m.registers.rowid, target_pc: begun.label(0) },
    );
    let first = first_row(tested, window, m, begun.label(1));
    let inserted = window_emit::insert_row(first.bind(begun.label(0)), m);
    let skipped = skip_peers(inserted, window, m, begun.label(1));
    window_op_grows(skipped, window, m, WindowOp::AggStep, None, None);
    let stepped = window_op(skipped, window, m, WindowOp::AggStep, None, None);
    window_op_grows(stepped, window, m, WindowOp::ReturnRow, None, None);
}

} // verus!
