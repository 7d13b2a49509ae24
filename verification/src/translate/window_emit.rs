//! The code that evaluates window functions.
//!
//! Rows of the source subquery are buffered partition by partition. Three
//! cursors walk over the buffer: one at the end of the frame, where rows enter
//! it, one at the row that is returned, and, for frames whose start moves, one
//! at the start, where rows leave it.

use vstd::prelude::*;
use crate::function::AccumulatorFunc;
use crate::translate::expr::{Expr, ExprList};
use crate::translate::program;
use crate::translate::program::{
    Code, CollationSeq, Comment, Fragment, Insn, KeyInfo, ProgramBuilder, SortOrder,
    make_key_list,
};
use crate::translate::window;
use crate::translate::window::{
    FrameBoundary, FrameMode, OrderTerm, Window, WindowFunction, WindowMetadata, collation,
    positional,
};
use crate::translate::window_lookup;
use crate::translate::window_lookup::{emit_first_value_nth_value_lookup, emit_lag_lead_lookup};

verus! {

/// Whether `q` has given out at least what `p` has.
pub open spec fn grown(p: Code, q: Code) -> bool {
    p.regs <= q.regs && p.labels <= q.labels && p.cursors <= q.cursors
}

/// How a column is compared for equality.
pub open spec fn equality_key(collation: CollationSeq) -> KeyInfo {
    KeyInfo { sort_order: SortOrder::Asc, collation, nulls_order: None }
}

/// How the ORDER BY values of two rows are compared.
pub open spec fn order_by_keys(window: Window, m: WindowMetadata) -> Seq<KeyInfo> {
    Seq::new(
        window.order_by@.len(),
        |i: int| equality_key(
            window::collation_of(m.src_collations@, window.order_by@[i].expr),
        ),
    )
}

/// Builds the comparison of ORDER BY values. Peers are found by equality
/// alone, so the direction of the order plays no part.
pub(crate) fn build_order_by_key_info(window: &Window, meta: &WindowMetadata) -> (v: Vec<KeyInfo>)
    ensures
        v@ == order_by_keys(*window, *meta),
{
    let mut v: Vec<KeyInfo> = Vec::new();
    let mut i: usize = 0;
    while i < window.order_by.len()
        invariant
            i <= window.order_by@.len(),
            v@ == order_by_keys(*window, *meta).take(i as int),
        decreases window.order_by@.len() - i,
    {
        let collation = collation(&meta.src_collations, &window.order_by[i].expr);
        v.push(KeyInfo { sort_order: SortOrder::Asc, collation, nulls_order: None });
        i = i + 1;
        assert(v@ =~= order_by_keys(*window, *meta).take(i as int));
    }
    assert(order_by_keys(*window, *meta).take(i as int) =~= order_by_keys(*window, *meta));
    v
}

pub(crate) fn source_column(expr: &Expr) -> (c: usize)
    ensures
        c == window::column_of(*expr),
{
    match expr {
        Expr::Column { column, .. } => *column,
        _ => 0,
    }
}

/// Puts the ORDER BY values of the current source row side by side: the
/// first `n` terms.
pub open spec fn load_order_by(p: Code, terms: Seq<OrderTerm>, src: nat, dst: nat, n: nat) -> Code
    decreases n,
{
    if n == 0 {
        p
    } else {
        load_order_by(p, terms, src, dst, (n - 1) as nat).op(
            Insn::Copy {
                src_reg: (src + window::column_of(terms[n - 1].expr)) as usize,
                dst_reg: (dst + n - 1) as usize,
                extra_amount: 0,
            },
        )
    }
}

pub(crate) proof fn load_order_by_keeps(p: Code, terms: Seq<OrderTerm>, src: nat, dst: nat, n: nat)
    ensures
        load_order_by(p, terms, src, dst, n).regs == p.regs,
        load_order_by(p, terms, src, dst, n).labels == p.labels,
        load_order_by(p, terms, src, dst, n).cursors == p.cursors,
    decreases n,
{
    if n > 0 {
        load_order_by_keeps(p, terms, src, dst, (n - 1) as nat);
    }
}

/// The ORDER BY values of the current source row, where the window has any.
pub open spec fn order_by_values(p: Code, window: Window, m: WindowMetadata) -> Code {
    match m.registers.new_order_by_columns_start {
        Some(dst) => load_order_by(
            p,
            window.order_by@,
            m.registers.src_columns_start as nat,
            dst as nat,
            window.order_by@.len(),
        ),
        None => p,
    }
}

/// Writes the code that puts the ORDER BY values side by side. Source columns
/// are deduplicated and may stand in another order.
pub(crate) fn emit_load_order_by_columns(
    program: &mut ProgramBuilder,
    window: &Window,
    meta: &WindowMetadata,
)
    requires
        meta.serves(*window),
    ensures
        final(program)@ == order_by_values(old(program)@, *window, *meta),
{
    if let Some(dst) = meta.registers.new_order_by_columns_start {
        let src: usize = meta.registers.src_columns_start;
        let mut i: usize = 0;
        while i < window.order_by.len()
            invariant
                i <= window.order_by@.len(),
                src == meta.registers.src_columns_start,
                meta.registers.new_order_by_columns_start == Some(dst),
                meta.serves(*window),
                program@ == load_order_by(
                    old(program)@,
                    window.order_by@,
                    src as nat,
                    dst as nat,
                    i as nat,
                ),
            decreases window.order_by@.len() - i,
        {
            assert(window::is_source_column(
                window.order_by@[i as int].expr,
                meta.src_column_count as nat,
            ));
            let column: usize = source_column(&window.order_by[i].expr);
            program.emit_insn(
                Insn::Copy { src_reg: src + column, dst_reg: dst + i, extra_amount: 0 },
            );
            i = i + 1;
        }
    }
}

/// The term of the PARTITION BY that reads column `i` of the source subquery,
/// or else the `i`-th one.
pub open spec fn partition_term(terms: Seq<Expr>, i: nat, from: nat) -> Expr
    decreases terms.len() - from,
{
    if from >= terms.len() {
        terms[i as int]
    } else if terms[from as int] is Column && window::column_of(terms[from as int]) == i {
        terms[from as int]
    } else {
        partition_term(terms, i, from + 1)
    }
}

/// How the keys of two partitions are compared.
pub open spec fn partition_keys(window: Window, m: WindowMetadata, count: nat) -> Seq<KeyInfo> {
    Seq::new(
        count,
        |i: int| equality_key(
            window::collation_of(
                m.src_collations@,
                partition_term(window.partition_by@, i as nat, 0),
            ),
        ),
    )
}

fn find_partition_collation(window: &Window, meta: &WindowMetadata, i: usize) -> (c: CollationSeq)
    requires
        i < window.partition_by@.len(),
    ensures
        c == window::collation_of(
            meta.src_collations@,
            partition_term(window.partition_by@, i as nat, 0),
        ),
{
    let mut j: usize = 0;
    while j < window.partition_by.len()
        invariant
            j <= window.partition_by@.len(),
            i < window.partition_by@.len(),
            partition_term(window.partition_by@, i as nat, 0) == partition_term(
                window.partition_by@,
                i as nat,
                j as nat,
            ),
        decreases window.partition_by@.len() - j,
    {
        if let Expr::Column { column, .. } = &window.partition_by[j] {
            if *column == i {
                return collation(&meta.src_collations, &window.partition_by[j]);
            }
        }
        j = j + 1;
    }
    collation(&meta.src_collations, &window.partition_by[i])
}

fn build_partition_key_info(window: &Window, meta: &WindowMetadata, count: usize) -> (v: Vec<
    KeyInfo,
>)
    requires
        count <= window.partition_by@.len(),
    ensures
        v@ == partition_keys(*window, *meta, count as nat),
{
    let mut v: Vec<KeyInfo> = Vec::new();
    let mut i: usize = 0;
    while i < count
        invariant
            i <= count,
            count <= window.partition_by@.len(),
            v@ == partition_keys(*window, *meta, count as nat).take(i as int),
        decreases count - i,
    {
        let collation = find_partition_collation(window, meta, i);
        v.push(KeyInfo { sort_order: SortOrder::Asc, collation, nulls_order: None });
        i = i + 1;
        assert(v@ =~= partition_keys(*window, *meta, count as nat).take(i as int));
    }
    assert(v@ =~= partition_keys(*window, *meta, count as nat));
    v
}

/// Where the source row's partition key is not the saved one: flushes the
/// buffer, forgets the row number, and saves the new key.
pub open spec fn new_partition(p: Code, window: Window, m: WindowMetadata) -> Code {
    match m.registers.partition_start {
        None => p,
        Some(saved) => {
            let same = p.label(0);
            let new = p.label(1);
            let count = window.deduplicated_partition_by_len->Some_0;
            p.take_labels(2).comment(Comment::ComparePartitionKeys).op(
                Insn::Compare {
                    start_reg_a: m.registers.src_columns_start,
                    start_reg_b: saved,
                    count,
                    key_info: program::key_list(partition_keys(window, m, count as nat)),
                },
            ).op(
                Insn::Jump { target_pc_lt: new, target_pc_eq: same, target_pc_gt: new },
            ).bind(new).comment(Comment::NewPartition).op(
                Insn::Gosub {
                    target_pc: m.labels.flush_buffer,
                    return_reg: m.registers.flush_buffer_return_offset,
                },
            ).op(Insn::Null { dest: m.registers.rowid, dest_end: None }).op(
                Insn::Copy {
                    src_reg: m.registers.src_columns_start,
                    dst_reg: saved,
                    extra_amount: (count - 1) as usize,
                },
            ).bind(same)
        },
    }
}

/// Writes the code that flushes the buffer at the start of a new partition.
pub(crate) fn emit_flush_buffer_if_new_partition(
    program: &mut ProgramBuilder,
    window: &Window,
    meta: &WindowMetadata,
)
    requires
        meta.serves(*window),
        new_partition(old(program)@, *window, *meta).fits(),
    ensures
        final(program)@ == new_partition(old(program)@, *window, *meta),
{
    if let (Some(saved), Some(partition_by_len)) = (
        meta.registers.partition_start,
        window.deduplicated_partition_by_len,
    ) {
        let same_partition_label = program.allocate_label();
        let new_partition_label = program.allocate_label();
        program.add_comment(Comment::ComparePartitionKeys);
        let keys = build_partition_key_info(window, meta, partition_by_len);
        program.emit_insn(
            Insn::Compare {
                start_reg_a: meta.registers.src_columns_start,
                start_reg_b: saved,
                count: partition_by_len,
                key_info: make_key_list(&keys),
            },
        );
        program.emit_insn(
            Insn::Jump {
                target_pc_lt: new_partition_label,
                target_pc_eq: same_partition_label,
                target_pc_gt: new_partition_label,
            },
        );
        program.preassign_label_to_next_insn(new_partition_label);
        program.add_comment(Comment::NewPartition);
        program.emit_insn(
            Insn::Gosub {
                target_pc: meta.labels.flush_buffer,
                return_reg: meta.registers.flush_buffer_return_offset,
            },
        );
        program.emit_insn(Insn::Null { dest: meta.registers.rowid, dest_end: None });
        program.emit_insn(
            Insn::Copy {
                src_reg: meta.registers.src_columns_start,
                dst_reg: saved,
                extra_amount: partition_by_len - 1,
            },
        );
        program.preassign_label_to_next_insn(same_partition_label);
    }
}

/// Puts the source row behind the others in the buffer.
pub open spec fn insert_row(p: Code, m: WindowMetadata) -> Code {
    p.take_regs(1).op(
        Insn::MakeRecord {
            start_reg: m.registers.src_columns_start as u32,
            count: m.src_column_count as u32,
            dest_reg: p.regs as u32,
        },
    ).op(
        Insn::NewRowid {
            cursor: m.cursors.csr_write,
            rowid_reg: m.registers.rowid,
            prev_largest_reg: 0,
        },
    ).op(
        Insn::Insert {
            cursor: m.cursors.csr_write,
            key_reg: m.registers.rowid,
            record_reg: p.reg(),
            require_seek: true,
            buffer_of: m.buffer_of,
        },
    )
}

/// Writes the code that puts the source row into the buffer.
pub(crate) fn emit_insert_row_into_buffer(program: &mut ProgramBuilder, meta: &WindowMetadata)
    requires
        meta.registers.src_columns_start + meta.src_column_count <= u32::MAX,
        insert_row(old(program)@, *meta).fits(),
    ensures
        final(program)@ == insert_row(old(program)@, *meta),
{
    let reg_record: usize = program.alloc_register();
    program.emit_insn(
        Insn::MakeRecord {
            start_reg: meta.registers.src_columns_start as u32,
            count: meta.src_column_count as u32,
            dest_reg: reg_record as u32,
        },
    );
    program.emit_insn(
        Insn::NewRowid {
            cursor: meta.cursors.csr_write,
            rowid_reg: meta.registers.rowid,
            prev_largest_reg: 0,
        },
    );
    program.emit_insn(
        Insn::Insert {
            cursor: meta.cursors.csr_write,
            key_reg: meta.registers.rowid,
            record_reg: reg_record,
            require_seek: true,
            buffer_of: meta.buffer_of,
        },
    );
}

/// The three operations on frames. Each reads the row at one cursor and then
/// advances that cursor.
#[derive(Clone, Copy, Debug, PartialEq, Eq, Structural)]
pub enum WindowOp {
    /// A row enters the frame at its end.
    AggStep,
    /// The current row is returned.
    ReturnRow,
    /// A row leaves the frame at its start.
    AggInverse,
}

/// The operation behind which no cursor reaches a row any more.
///
/// Functions that look rows up need the whole partition. Otherwise a row is
/// done with once it has been returned, if no row ever leaves the frame before
/// that, or once it has left the frame.
pub open spec fn delete_op(window: Window, has_csr_app: bool) -> Option<WindowOp> {
    if has_csr_app {
        None
    } else {
        match window.frame.start {
            FrameBoundary::UnboundedPreceding => Some(WindowOp::ReturnRow),
            FrameBoundary::Following(_) => if window.frame.mode == FrameMode::Range {
                None
            } else {
                Some(WindowOp::ReturnRow)
            },
            FrameBoundary::CurrentRow => Some(WindowOp::AggInverse),
            FrameBoundary::Preceding(_) => Some(WindowOp::AggInverse),
            FrameBoundary::UnboundedFollowing => None,
        }
    }
}

/// The operation behind which a buffered row can be deleted.
pub fn window_delete_op(window: &Window, has_csr_app: bool) -> (op: Option<WindowOp>)
    ensures
        op == delete_op(*window, has_csr_app),
{
    if has_csr_app {
        return None;
    }
    match &window.frame.start {
        FrameBoundary::UnboundedPreceding => Some(WindowOp::ReturnRow),
        FrameBoundary::Following(_) => {
            if window.frame.mode == FrameMode::Range {
                None
            } else {
                Some(WindowOp::ReturnRow)
            }
        },
        FrameBoundary::CurrentRow => Some(WindowOp::AggInverse),
        FrameBoundary::Preceding(_) => Some(WindowOp::AggInverse),
        FrameBoundary::UnboundedFollowing => None,
    }
}

/// Loads the arguments that are columns from the row at a cursor: the first
/// `n` arguments.
pub open spec fn load_args(p: Code, args: Seq<Expr>, csr: usize, base: nat, n: nat) -> Code
    decreases n,
{
    if n == 0 {
        p
    } else {
        let q = load_args(p, args, csr, base, (n - 1) as nat);
        if args[n - 1] is Column {
            q.op(
                Insn::Column {
                    cursor_id: csr,
                    column: window::column_of(args[n - 1]),
                    dest: (base + n - 1) as usize,
                },
            )
        } else {
            q
        }
    }
}

pub(crate) proof fn load_args_keeps(p: Code, args: Seq<Expr>, csr: usize, base: nat, n: nat)
    ensures
        load_args(p, args, csr, base, n).regs == p.regs,
        load_args(p, args, csr, base, n).labels == p.labels,
        load_args(p, args, csr, base, n).cursors == p.cursors,
    decreases n,
{
    if n > 0 {
        load_args_keeps(p, args, csr, base, (n - 1) as nat);
    }
}

/// The value of a FILTER, and the jump where it does not hold.
pub open spec fn filter_test(p: Code, filter: Expr, csr: usize) -> Code {
    let skip = p.label(0);
    let reg = p.reg();
    let q = p.take_labels(1).take_regs(1);
    (if filter is Column {
        q.op(Insn::Column { cursor_id: csr, column: window::column_of(filter), dest: reg })
    } else {
        q.fragment(Fragment::Expr { expr: Box::new(filter), dest: reg })
    }).op(Insn::IfNot { reg, target_pc: skip, jump_if_null: true })
}

/// One step of one function: its arguments come from the row at the cursor,
/// into registers of their own. An aggregate with a FILTER steps only where
/// that holds.
pub open spec fn step_one(
    p: Code,
    function: WindowFunction,
    acc_reg: usize,
    csr: usize,
) -> Code {
    let args = function.args();
    let base = p.reg();
    let q = if args.len() > 0 {
        load_args(p.take_regs(args.len()), args, csr, p.regs, args.len())
    } else {
        p
    };
    match function.func {
        AccumulatorFunc::Agg(func) => {
            let step = Fragment::AggregationStep {
                func,
                args: match function.call() {
                    Expr::FunctionCall { args, .. } => args,
                    _ => ExprList::Nil,
                },
                acc_reg,
                loaded_at: if args.len() > 0 {
                    Some(base)
                } else {
                    None
                },
            };
            match function.filter() {
                Some(filter) => filter_test(q, filter, csr).fragment(step).bind(q.label(0)),
                None => q.fragment(step),
            }
        },
        AccumulatorFunc::Window(_) => q.op(
            Insn::AggStep {
                acc_reg,
                col: if args.len() > 0 {
                    base
                } else {
                    0
                },
                delimiter: 0,
                func: function.func,
            },
        ),
    }
}

/// One step of each of the first `n` functions. Functions that look rows up
/// have no state and take no step.
pub open spec fn step_functions(
    p: Code,
    window: Window,
    m: WindowMetadata,
    csr: usize,
    n: nat,
) -> Code
    decreases n,
{
    if n == 0 {
        p
    } else {
        let q = step_functions(p, window, m, csr, (n - 1) as nat);
        let f = window.functions@[n - 1];
        if window::is_positional(f.func) {
            q
        } else {
            step_one(q, f, (m.registers.acc_start + n - 1) as usize, csr)
        }
    }
}

proof fn step_one_grows(p: Code, function: WindowFunction, acc_reg: usize, csr: usize)
    ensures
        grown(p, step_one(p, function, acc_reg, csr)),
        step_one(p, function, acc_reg, csr).cursors == p.cursors,
        p.regs + function.args().len() <= step_one(p, function, acc_reg, csr).regs,
{
    let args = function.args();
    load_args_keeps(p.take_regs(args.len()), args, csr, p.regs, args.len());
}

pub(crate) proof fn step_functions_grow(
    p: Code,
    window: Window,
    m: WindowMetadata,
    csr: usize,
    k: nat,
    n: nat,
)
    requires
        k <= n,
    ensures
        grown(p, step_functions(p, window, m, csr, k)),
        grown(step_functions(p, window, m, csr, k), step_functions(p, window, m, csr, n)),
        step_functions(p, window, m, csr, k).cursors == p.cursors,
        step_functions(p, window, m, csr, n).cursors == p.cursors,
    decreases n,
{
    if n > 0 {
        let j = (n - 1) as nat;
        step_one_grows(
            step_functions(p, window, m, csr, j),
            window.functions@[n - 1],
            (m.registers.acc_start + n - 1) as usize,
            csr,
        );
        if k < n {
            step_functions_grow(p, window, m, csr, k, j);
        } else {
            step_functions_grow(p, window, m, csr, j, j);
        }
    }
}

/// Writes one step of one function.
fn emit_step_one(
    program: &mut ProgramBuilder,
    function: &WindowFunction,
    acc_reg: usize,
    read_csr: usize,
)
    requires
        function.call() is FunctionCall,
        step_one(old(program)@, *function, acc_reg, read_csr).fits(),
    ensures
        final(program)@ == step_one(old(program)@, *function, acc_reg, read_csr),
{
    let args = function.arguments();
    proof {
        step_one_grows(old(program)@, *function, acc_reg, read_csr);
    }
    let mut loaded_at: Option<usize> = None;
    if args.len() > 0 {
        let base: usize = program.alloc_registers(args.len());
        loaded_at = Some(base);
        let ghost start = program@;
        let mut j: usize = 0;
        while j < args.len()
            invariant
                j <= args@.len(),
                base + args@.len() <= u32::MAX,
                program@ == load_args(start, args@, read_csr, base as nat, j as nat),
            decreases args@.len() - j,
        {
            if let Expr::Column { column, .. } = &args[j] {
                program.emit_insn(
                    Insn::Column { cursor_id: read_csr, column: *column, dest: base + j },
                );
            }
            j = j + 1;
        }
        proof {
            load_args_keeps(start, args@, read_csr, base as nat, args@.len());
        }
    }
    match function.func {
        AccumulatorFunc::Agg(func) => {
            let call_args: ExprList = match function.current_expr() {
                Expr::FunctionCall { args, .. } => args.copy(),
                _ => ExprList::Nil,
            };
            let filter: Option<&Expr> = match &function.rewritten {
                Some(rewritten) => match &rewritten.filter_expr {
                    Some(filter) => Some(filter),
                    None => None,
                },
                None => None,
            };
            match filter {
                Some(filter) => {
                    let label = program.allocate_label();
                    let filter_reg: usize = program.alloc_register();
                    if let Expr::Column { column, .. } = filter {
                        program.emit_insn(
                            Insn::Column {
                                cursor_id: read_csr,
                                column: *column,
                                dest: filter_reg,
                            },
                        );
                    } else {
                        program.emit_fragment(
                            Fragment::Expr { expr: Box::new(filter.copy()), dest: filter_reg },
                        );
                    }
                    program.emit_insn(
                        Insn::IfNot { reg: filter_reg, target_pc: label, jump_if_null: true },
                    );
                    program.emit_fragment(
                        Fragment::AggregationStep { func, args: call_args, acc_reg, loaded_at },
                    );
                    program.preassign_label_to_next_insn(label);
                },
                None => {
                    program.emit_fragment(
                        Fragment::AggregationStep { func, args: call_args, acc_reg, loaded_at },
                    );
                },
            }
        },
        AccumulatorFunc::Window(_) => {
            let col: usize = match loaded_at {
                Some(base) => base,
                None => 0,
            };
            program.emit_insn(
                Insn::AggStep { acc_reg, col, delimiter: 0, func: function.func },
            );
        },
    }
}

/// Writes one step of every function that has a state. The arguments are
/// loaded into registers of their own, so the source row, which may belong to
/// the next partition, is left alone.
pub(crate) fn emit_function_step(
    program: &mut ProgramBuilder,
    window: &Window,
    meta: &WindowMetadata,
    read_csr: usize,
)
    requires
        meta.serves(*window),
        step_functions(old(program)@, *window, *meta, read_csr, window.functions@.len()).fits(),
    ensures
        final(program)@ == step_functions(
            old(program)@,
            *window,
            *meta,
            read_csr,
            window.functions@.len(),
        ),
{
    let mut i: usize = 0;
    while i < window.functions.len()
        invariant
            i <= window.functions@.len(),
            meta.serves(*window),
            step_functions(
                old(program)@,
                *window,
                *meta,
                read_csr,
                window.functions@.len(),
            ).fits(),
            program@ == step_functions(old(program)@, *window, *meta, read_csr, i as nat),
        decreases window.functions@.len() - i,
    {
        proof {
            step_functions_grow(
                old(program)@,
                *window,
                *meta,
                read_csr,
                (i + 1) as nat,
                window.functions@.len(),
            );
        }
        let function = &window.functions[i];
        if !positional(function.func) {
            emit_step_one(program, function, meta.registers.acc_start + i, read_csr);
        }
        i = i + 1;
    }
}

/// The step back of each of the first `n` functions.
pub open spec fn inverse_functions(p: Code, window: Window, m: WindowMetadata, n: nat) -> Code
    decreases n,
{
    if n == 0 {
        p
    } else {
        inverse_functions(p, window, m, (n - 1) as nat).op(
            Insn::AggInverse {
                acc_reg: (m.registers.acc_start + n - 1) as usize,
                col: 0,
                delimiter: 0,
                func: window.functions@[n - 1].func,
            },
        )
    }
}

pub(crate) proof fn inverse_functions_keeps(p: Code, window: Window, m: WindowMetadata, n: nat)
    ensures
        inverse_functions(p, window, m, n).regs == p.regs,
        inverse_functions(p, window, m, n).labels == p.labels,
        inverse_functions(p, window, m, n).cursors == p.cursors,
    decreases n,
{
    if n > 0 {
        inverse_functions_keeps(p, window, m, (n - 1) as nat);
    }
}

/// Writes the step back of every function. The functions whose frames start
/// to move count rows only, so no column of the leaving row is loaded.
pub(crate) fn emit_function_inverse(
    program: &mut ProgramBuilder,
    window: &Window,
    meta: &WindowMetadata,
)
    requires
        meta.serves(*window),
    ensures
        final(program)@ == inverse_functions(
            old(program)@,
            *window,
            *meta,
            window.functions@.len(),
        ),
{
    let mut i: usize = 0;
    while i < window.functions.len()
        invariant
            i <= window.functions@.len(),
            meta.serves(*window),
            program@ == inverse_functions(old(program)@, *window, *meta, i as nat),
        decreases window.functions@.len() - i,
    {
        program.emit_insn(
            Insn::AggInverse {
                acc_reg: meta.registers.acc_start + i,
                col: 0,
                delimiter: 0,
                func: window.functions[i].func,
            },
        );
        i = i + 1;
    }
}

/// The columns that the outer query reads, from the current row: the first
/// `n` of them.
pub open spec fn result_columns(p: Code, m: WindowMetadata, n: nat) -> Code
    decreases n,
{
    if n == 0 {
        p
    } else {
        result_columns(p, m, (n - 1) as nat).fragment(
            Fragment::ColumnOrRowId {
                cursor_id: m.cursors.csr_current,
                column: m.expressions_referencing_subquery@[n - 1].column,
                dest: (m.registers.result_columns_start + n - 1) as usize,
            },
        )
    }
}

pub(crate) proof fn result_columns_keeps(p: Code, m: WindowMetadata, n: nat)
    ensures
        result_columns(p, m, n).regs == p.regs,
        result_columns(p, m, n).labels == p.labels,
        result_columns(p, m, n).cursors == p.cursors,
    decreases n,
{
    if n > 0 {
        result_columns_keeps(p, m, (n - 1) as nat);
    }
}

/// Returns the current row: its columns, the values that are looked up, and
/// the row output subroutine.
pub open spec fn return_row(p: Code, window: Window, m: WindowMetadata) -> Code {
    let columns = result_columns(p, m, m.expressions_referencing_subquery@.len());
    let values = window_lookup::value_lookups(columns, window, m, window.functions@.len());
    window_lookup::neighbour_lookups(values, window, m, window.functions@.len()).op(
        Insn::Gosub {
            target_pc: m.labels.row_output,
            return_reg: m.registers.row_output_return,
        },
    )
}

pub(crate) proof fn return_row_grows(p: Code, window: Window, m: WindowMetadata)
    ensures
        grown(p, return_row(p, window, m)),
        return_row(p, window, m).cursors == p.cursors,
{
    let n = window.functions@.len();
    result_columns_keeps(p, m, m.expressions_referencing_subquery@.len());
    let columns = result_columns(p, m, m.expressions_referencing_subquery@.len());
    window_lookup::value_lookups_grow(columns, window, m, n, n);
    let values = window_lookup::value_lookups(columns, window, m, n);
    window_lookup::neighbour_lookups_grow(values, window, m, n, n);
}

/// Writes the code that returns the current row.
pub(crate) fn emit_return_one_row(
    program: &mut ProgramBuilder,
    window: &Window,
    meta: &WindowMetadata,
)
    requires
        meta.serves(*window),
        return_row(old(program)@, *window, *meta).fits(),
    ensures
        final(program)@ == return_row(old(program)@, *window, *meta),
{
    let ghost n = meta.expressions_referencing_subquery@.len();
    let mut i: usize = 0;
    while i < meta.expressions_referencing_subquery.len()
        invariant
            i <= meta.expressions_referencing_subquery@.len(),
            meta.serves(*window),
            program@ == result_columns(old(program)@, *meta, i as nat),
        decreases meta.expressions_referencing_subquery@.len() - i,
    {
        program.emit_fragment(
            Fragment::ColumnOrRowId {
                cursor_id: meta.cursors.csr_current,
                column: meta.expressions_referencing_subquery[i].column,
                dest: meta.registers.result_columns_start + i,
            },
        );
        i = i + 1;
    }
    proof {
        let k = window.functions@.len();
        result_columns_keeps(old(program)@, *meta, n);
        let columns = result_columns(old(program)@, *meta, n);
        window_lookup::value_lookups_grow(columns, *window, *meta, k, k);
        let values = window_lookup::value_lookups(columns, *window, *meta, k);
        window_lookup::neighbour_lookups_grow(values, *window, *meta, k, k);
    }
    emit_first_value_nth_value_lookup(program, window, meta);
    emit_lag_lead_lookup(program, window, meta);
    program.emit_insn(
        Insn::Gosub {
            target_pc: meta.labels.row_output,
            return_reg: meta.registers.row_output_return,
        },
    );
}

} // verus!
