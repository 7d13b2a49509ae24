//! The code that looks up, when a row is returned, the values of functions
//! that are columns of another row: first_value, nth_value, lag and lead.

use vstd::prelude::*;
use crate::function::{AccumulatorFunc, WindowFunc};
use crate::translate::expr::Expr;
use crate::translate::program::{Code, HaltReason, Insn, ProgramBuilder, SQLITE_ERROR};
use crate::translate::window;
use crate::translate::window::{Window, WindowFunction, WindowMetadata};

verus! {

/// The column that an argument reads.
fn source_column(expr: &Expr) -> (c: usize)
    ensures
        c == window::column_of(*expr),
{
    match expr {
        Expr::Column { column, .. } => *column,
        _ => 0,
    }
}

/// The row that first_value and nth_value read: the first one, or the one that
/// the second argument says, which has to be a positive integer.
pub open spec fn target_row(p: Code, function: WindowFunction, csr_current: usize) -> Code {
    let target = p.reg();
    let q = p.take_regs(1);
    if function.func == AccumulatorFunc::Window(WindowFunc::NthValue) {
        let ok = q.label(0);
        let err = q.label(1);
        let zero = q.reg();
        q.op(
            Insn::Column {
                cursor_id: csr_current,
                column: window::column_of(function.args()[1]),
                dest: target,
            },
        ).take_labels(2).op(Insn::MustBeInt { reg: target, target_pc: Some(err) }).take_regs(1).op(
            Insn::Integer { value: 0, dest: zero },
        ).op(Insn::Gt { lhs: target, rhs: zero, target_pc: ok }).bind(err).op(
            Insn::Halt { err_code: SQLITE_ERROR, reason: HaltReason::NthValueArgument },
        ).bind(ok)
    } else {
        q.op(Insn::Integer { value: 1, dest: target })
    }
}

/// The value of one first_value or nth_value: NULL where the row lies behind
/// the frame's end, else the column of that row, which the buffer holds.
pub open spec fn value_lookup(p: Code, function: WindowFunction, m: WindowMetadata, i: nat) -> Code {
    let result = (m.registers.acc_result_start + i) as usize;
    let target = p.reg();
    let q = target_row(
        p.op(Insn::Null { dest: result, dest_end: None }),
        function,
        m.cursors.csr_current,
    );
    let past_end = q.label(0);
    let missing = q.label(1);
    let done = q.label(2);
    q.take_labels(3).op(
        Insn::Gt { lhs: target, rhs: m.registers.frame_end_rowid->Some_0, target_pc: past_end },
    ).op(
        Insn::SeekRowid {
            cursor_id: m.cursors.csr_app->Some_0,
            src_reg: target,
            target_pc: missing,
        },
    ).op(
        Insn::Column {
            cursor_id: m.cursors.csr_app->Some_0,
            column: window::column_of(function.args()[0]),
            dest: result,
        },
    ).op(Insn::Goto { target_pc: done }).bind(missing).op(
        Insn::Halt { err_code: SQLITE_ERROR, reason: HaltReason::MissingFrameRow },
    ).bind(past_end).bind(done)
}

/// The values of all first_value and nth_value among the first `n` functions.
pub open spec fn value_lookups(p: Code, window: Window, m: WindowMetadata, n: nat) -> Code
    decreases n,
{
    if n == 0 {
        p
    } else {
        let q = value_lookups(p, window, m, (n - 1) as nat);
        let f = window.functions@[n - 1];
        if window::needs_frame_end(f.func) {
            value_lookup(q, f, m, (n - 1) as nat)
        } else {
            q
        }
    }
}

/// Lookups take registers and labels and give none back.
pub(crate) proof fn value_lookups_grow(p: Code, window: Window, m: WindowMetadata, k: nat, n: nat)
    requires
        k <= n,
    ensures
        value_lookups(p, window, m, k).regs <= value_lookups(p, window, m, n).regs,
        value_lookups(p, window, m, k).labels <= value_lookups(p, window, m, n).labels,
        value_lookups(p, window, m, k).cursors == p.cursors,
        value_lookups(p, window, m, n).cursors == p.cursors,
        p.regs <= value_lookups(p, window, m, n).regs,
        p.labels <= value_lookups(p, window, m, n).labels,
    decreases n,
{
    if n > 0 {
        if k < n {
            value_lookups_grow(p, window, m, k, (n - 1) as nat);
        } else {
            value_lookups_grow(p, window, m, (n - 1) as nat, (n - 1) as nat);
        }
    }
}

/// Writes the lookup of the row that first_value and nth_value read.
fn emit_target_row(program: &mut ProgramBuilder, function: &WindowFunction, csr_current: usize) -> (r:
    usize)
    requires
        target_row(old(program)@, *function, csr_current).fits(),
        function.func == AccumulatorFunc::Window(WindowFunc::NthValue) ==> function.args().len()
            >= 2,
    ensures
        r == old(program)@.reg(),
        final(program)@ == target_row(old(program)@, *function, csr_current),
{
    let is_nth: bool = match function.func {
        AccumulatorFunc::Window(WindowFunc::NthValue) => true,
        _ => false,
    };
    let target_reg: usize = program.alloc_register();
    if is_nth {
        let args = function.arguments();
        program.emit_insn(
            Insn::Column {
                cursor_id: csr_current,
                column: source_column(&args[1]),
                dest: target_reg,
            },
        );
        let lbl_n_ok = program.allocate_label();
        let lbl_n_err = program.allocate_label();
        program.emit_insn(Insn::MustBeInt { reg: target_reg, target_pc: Some(lbl_n_err) });
        let reg_zero: usize = program.alloc_register();
        program.emit_insn(Insn::Integer { value: 0, dest: reg_zero });
        program.emit_insn(Insn::Gt { lhs: target_reg, rhs: reg_zero, target_pc: lbl_n_ok });
        program.preassign_label_to_next_insn(lbl_n_err);
        program.emit_insn(
            Insn::Halt { err_code: SQLITE_ERROR, reason: HaltReason::NthValueArgument },
        );
        program.preassign_label_to_next_insn(lbl_n_ok);
    } else {
        program.emit_insn(Insn::Integer { value: 1, dest: target_reg });
    }
    target_reg
}

/// Writes the lookup for every first_value and nth_value of the window.
///
/// The row is NULL where it lies behind the frame's end. A row within the
/// frame that the buffer does not hold is an error of the program.
pub fn emit_first_value_nth_value_lookup(
    program: &mut ProgramBuilder,
    window: &Window,
    meta: &WindowMetadata,
)
    requires
        meta.serves(*window),
        value_lookups(old(program)@, *window, *meta, window.functions@.len()).fits(),
    ensures
        final(program)@ == value_lookups(
            old(program)@,
            *window,
            *meta,
            window.functions@.len(),
        ),
{
    let csr_current: usize = meta.cursors.csr_current;
    let mut i: usize = 0;
    while i < window.functions.len()
        invariant
            i <= window.functions@.len(),
            csr_current == meta.cursors.csr_current,
            meta.serves(*window),
            value_lookups(old(program)@, *window, *meta, window.functions@.len()).fits(),
            program@ == value_lookups(old(program)@, *window, *meta, i as nat),
        decreases window.functions@.len() - i,
    {
        let function = &window.functions[i];
        proof {
            value_lookups_grow(
                old(program)@,
                *window,
                *meta,
                (i + 1) as nat,
                window.functions@.len(),
            );
        }
        let wanted: bool = match function.func {
            AccumulatorFunc::Window(WindowFunc::FirstValue) => true,
            AccumulatorFunc::Window(WindowFunc::NthValue) => true,
            _ => false,
        };
        if wanted {
            if let (Some(csr_app), Some(frame_end_rowid)) = (
                meta.cursors.csr_app,
                meta.registers.frame_end_rowid,
            ) {
                let result_reg: usize = meta.registers.acc_result_start + i;
                let args = function.arguments();
                program.emit_insn(Insn::Null { dest: result_reg, dest_end: None });
                let target_reg: usize = emit_target_row(program, function, csr_current);
                let lbl_past_frame_end = program.allocate_label();
                let lbl_missing_row = program.allocate_label();
                let lbl_done = program.allocate_label();
                program.emit_insn(
                    Insn::Gt {
                        lhs: target_reg,
                        rhs: frame_end_rowid,
                        target_pc: lbl_past_frame_end,
                    },
                );
                program.emit_insn(
                    Insn::SeekRowid {
                        cursor_id: csr_app,
                        src_reg: target_reg,
                        target_pc: lbl_missing_row,
                    },
                );
                program.emit_insn(
                    Insn::Column {
                        cursor_id: csr_app,
                        column: source_column(&args[0]),
                        dest: result_reg,
                    },
                );
                program.emit_insn(Insn::Goto { target_pc: lbl_done });
                program.preassign_label_to_next_insn(lbl_missing_row);
                program.emit_insn(
                    Insn::Halt { err_code: SQLITE_ERROR, reason: HaltReason::MissingFrameRow },
                );
                program.preassign_label_to_next_insn(lbl_past_frame_end);
                program.preassign_label_to_next_insn(lbl_done);
            }
        }
        i = i + 1;
    }
}

/// The row that lag and lead read: as far before or behind the current one as
/// the second argument says, or one.
pub open spec fn neighbour_row(p: Code, function: WindowFunction, csr_current: usize) -> Code {
    let is_lead = function.func == AccumulatorFunc::Window(WindowFunc::Lead);
    let tmp = p.reg();
    let q = p.take_regs(1).op(Insn::RowId { cursor_id: csr_current, dest: tmp });
    if function.args().len() < 2 {
        q.op(
            Insn::AddImm {
                register: tmp,
                value: if is_lead {
                    1
                } else {
                    -1i64
                },
            },
        )
    } else {
        let offset = q.reg();
        let r = q.take_regs(1).op(
            Insn::Column {
                cursor_id: csr_current,
                column: window::column_of(function.args()[1]),
                dest: offset,
            },
        );
        if is_lead {
            r.op(Insn::Add { lhs: tmp, rhs: offset, dest: tmp })
        } else {
            r.op(Insn::Subtract { lhs: tmp, rhs: offset, dest: tmp })
        }
    }
}

/// The value of one lag or lead: the column of the row, or the third argument
/// where there is no such row, or NULL.
pub open spec fn neighbour_lookup(
    p: Code,
    function: WindowFunction,
    m: WindowMetadata,
    i: nat,
) -> Code {
    let result = (m.registers.acc_result_start + i) as usize;
    let q = if function.args().len() < 3 {
        p.op(Insn::Null { dest: result, dest_end: None })
    } else {
        p.op(
            Insn::Column {
                cursor_id: m.cursors.csr_current,
                column: window::column_of(function.args()[2]),
                dest: result,
            },
        )
    };
    let r = neighbour_row(q, function, m.cursors.csr_current);
    let miss = r.label(0);
    r.take_labels(1).op(
        Insn::SeekRowid {
            cursor_id: m.cursors.csr_app->Some_0,
            src_reg: q.reg(),
            target_pc: miss,
        },
    ).op(
        Insn::Column {
            cursor_id: m.cursors.csr_app->Some_0,
            column: window::column_of(function.args()[0]),
            dest: result,
        },
    ).bind(miss)
}

/// Whether a function is lag or lead.
pub open spec fn is_neighbour(func: AccumulatorFunc) -> bool {
    func == AccumulatorFunc::Window(WindowFunc::Lag) || func == AccumulatorFunc::Window(
        WindowFunc::Lead,
    )
}

/// The values of all lag and lead among the first `n` functions.
pub open spec fn neighbour_lookups(p: Code, window: Window, m: WindowMetadata, n: nat) -> Code
    decreases n,
{
    if n == 0 {
        p
    } else {
        let q = neighbour_lookups(p, window, m, (n - 1) as nat);
        let f = window.functions@[n - 1];
        if is_neighbour(f.func) {
            neighbour_lookup(q, f, m, (n - 1) as nat)
        } else {
            q
        }
    }
}

/// Lookups take registers and labels and give none back.
pub(crate) proof fn neighbour_lookups_grow(p: Code, window: Window, m: WindowMetadata, k: nat, n: nat)
    requires
        k <= n,
    ensures
        neighbour_lookups(p, window, m, k).regs <= neighbour_lookups(p, window, m, n).regs,
        neighbour_lookups(p, window, m, k).labels <= neighbour_lookups(p, window, m, n).labels,
        neighbour_lookups(p, window, m, k).cursors == p.cursors,
        neighbour_lookups(p, window, m, n).cursors == p.cursors,
        p.regs <= neighbour_lookups(p, window, m, n).regs,
        p.labels <= neighbour_lookups(p, window, m, n).labels,
    decreases n,
{
    if n > 0 {
        if k < n {
            neighbour_lookups_grow(p, window, m, k, (n - 1) as nat);
        } else {
            neighbour_lookups_grow(p, window, m, (n - 1) as nat, (n - 1) as nat);
        }
    }
}

/// Writes the lookup for every lag and lead of the window.
pub fn emit_lag_lead_lookup(program: &mut ProgramBuilder, window: &Window, meta: &WindowMetadata)
    requires
        meta.serves(*window),
        neighbour_lookups(old(program)@, *window, *meta, window.functions@.len()).fits(),
    ensures
        final(program)@ == neighbour_lookups(
            old(program)@,
            *window,
            *meta,
            window.functions@.len(),
        ),
{
    let csr_current: usize = meta.cursors.csr_current;
    let mut i: usize = 0;
    while i < window.functions.len()
        invariant
            i <= window.functions@.len(),
            csr_current == meta.cursors.csr_current,
            meta.serves(*window),
            neighbour_lookups(old(program)@, *window, *meta, window.functions@.len()).fits(),
            program@ == neighbour_lookups(old(program)@, *window, *meta, i as nat),
        decreases window.functions@.len() - i,
    {
        let function = &window.functions[i];
        proof {
            neighbour_lookups_grow(
                old(program)@,
                *window,
                *meta,
                (i + 1) as nat,
                window.functions@.len(),
            );
        }
        let direction: Option<bool> = match function.func {
            AccumulatorFunc::Window(WindowFunc::Lag) => Some(false),
            AccumulatorFunc::Window(WindowFunc::Lead) => Some(true),
            _ => None,
        };
        if let (Some(is_lead), Some(csr_app)) = (direction, meta.cursors.csr_app) {
            let result_reg: usize = meta.registers.acc_result_start + i;
            let args = function.arguments();
            if args.len() < 3 {
                program.emit_insn(Insn::Null { dest: result_reg, dest_end: None });
            } else {
                program.emit_insn(
                    Insn::Column {
                        cursor_id: csr_current,
                        column: source_column(&args[2]),
                        dest: result_reg,
                    },
                );
            }
            let tmp_reg: usize = program.alloc_register();
            program.emit_insn(Insn::RowId { cursor_id: csr_current, dest: tmp_reg });
            if args.len() < 2 {
                let value: i64 = if is_lead {
                    1
                } else {
                    -1i64
                };
                program.emit_insn(Insn::AddImm { register: tmp_reg, value });
            } else {
                let offset_reg: usize = program.alloc_register();
                program.emit_insn(
                    Insn::Column {
                        cursor_id: csr_current,
                        column: source_column(&args[1]),
                        dest: offset_reg,
                    },
                );
                if is_lead {
                    program.emit_insn(
                        Insn::Add { lhs: tmp_reg, rhs: offset_reg, dest: tmp_reg },
                    );
                } else {
                    program.emit_insn(
                        Insn::Subtract { lhs: tmp_reg, rhs: offset_reg, dest: tmp_reg },
                    );
                }
            }
            let lbl_miss = program.allocate_label();
            program.emit_insn(
                Insn::SeekRowid { cursor_id: csr_app, src_reg: tmp_reg, target_pc: lbl_miss },
            );
            program.emit_insn(
                Insn::Column {
                    cursor_id: csr_app,
                    column: source_column(&args[0]),
                    dest: result_reg,
                },
            );
            program.preassign_label_to_next_insn(lbl_miss);
        }
        i = i + 1;
    }
}

} // verus!
