//! The start of window processing: the buffer, its cursors, and the registers
//! that the code uses throughout.

use vstd::prelude::*;
use crate::function::{AccumulatorFunc, WindowFunc};
use crate::translate::expr::{Expr, ExprList, Over, TableId, WindowName};
use crate::translate::program::{Code, CollationSeq, Insn, ProgramBuilder};
use crate::translate::window;
use crate::translate::window::{
    ColumnRef, FrameBoundary, FrameMode, OrderTerm, Window, WindowCursors, WindowFunction,
    WindowLabels, WindowMetadata, WindowRegisters, positional,
};
use crate::translate::window_step::EmitWindow;

verus! {

/// A column of a query's result.
pub struct ResultSetColumn {
    pub expr: Expr,
    pub contains_aggregates: bool,
}

/// A copy of result columns.
pub fn copy_result_columns(columns: &Vec<ResultSetColumn>) -> (r: Vec<ResultSetColumn>)
    ensures
        r@ == columns@,
{
    let mut r: Vec<ResultSetColumn> = Vec::new();
    let mut i: usize = 0;
    while i < columns.len()
        invariant
            i <= columns@.len(),
            r@ == columns@.take(i as int),
        decreases columns@.len() - i,
    {
        r.push(
            ResultSetColumn {
                expr: columns[i].expr.copy(),
                contains_aggregates: columns[i].contains_aggregates,
            },
        );
        i = i + 1;
        assert(r@ =~= columns@.take(i as int));
    }
    assert(columns@.take(i as int) =~= columns@);
    r
}

/// The subquery that a window reads: its rows come in registers in a row.
pub struct SourceSubquery {
    pub id: TableId,
    pub result_columns_start_reg: usize,
    /// The collation of every column.
    pub collations: Vec<Option<CollationSeq>>,
}

/// An expression whose value stands in a register.
pub struct CachedExpr {
    pub expr: Expr,
    pub reg: usize,
}

/// Whether some expression read so far reads `column`.
pub open spec fn has_column(refs: Seq<ColumnRef>, column: usize) -> bool {
    exists|i: int| 0 <= i < refs.len() && (#[trigger] refs[i]).column == column
}

/// The columns of the source subquery that an expression reads, each at its
/// first occurrence. Calls over a window are computed from the buffer, so
/// what stands inside them is not read by the query itself.
pub open spec fn read_columns(expr: Expr, refs: Seq<ColumnRef>) -> Seq<ColumnRef>
    decreases expr,
{
    match expr {
        Expr::Column { column, .. } => if has_column(refs, column) {
            refs
        } else {
            refs.push(ColumnRef { expr, column })
        },
        Expr::RowId { .. } => refs,
        Expr::Literal(_) => refs,
        Expr::FunctionCall { args, order_by, filter_clause, over_clause, .. } => {
            if over_clause != Over::Absent {
                refs
            } else {
                let listed = read_columns_list(order_by, read_columns_list(args, refs));
                match filter_clause {
                    Some(filter) => read_columns(*filter, listed),
                    None => listed,
                }
            }
        },
        Expr::Subquery { operands, .. } => read_columns_list(operands, refs),
        Expr::Node { operands, .. } => read_columns_list(operands, refs),
    }
}

pub open spec fn read_columns_list(list: ExprList, refs: Seq<ColumnRef>) -> Seq<ColumnRef>
    decreases list,
{
    match list {
        ExprList::Nil => refs,
        ExprList::Cons(head, tail) => read_columns_list(*tail, read_columns(*head, refs)),
    }
}

/// The columns that the first `n` columns of a result read.
pub open spec fn read_by_results(
    columns: Seq<ResultSetColumn>,
    n: nat,
) -> Seq<ColumnRef>
    decreases n,
{
    if n == 0 {
        Seq::empty()
    } else {
        read_columns(columns[n - 1].expr, read_by_results(columns, (n - 1) as nat))
    }
}

/// The columns that the first `n` terms of an ORDER BY read besides `refs`.
pub open spec fn read_by_order(
    terms: Seq<OrderTerm>,
    refs: Seq<ColumnRef>,
    n: nat,
) -> Seq<ColumnRef>
    decreases n,
{
    if n == 0 {
        refs
    } else {
        read_columns(terms[n - 1].expr, read_by_order(terms, refs, (n - 1) as nat))
    }
}

/// The columns that a query reads.
pub open spec fn read_by_query(columns: Seq<ResultSetColumn>, terms: Seq<OrderTerm>) -> Seq<
    ColumnRef,
> {
    read_by_order(terms, read_by_results(columns, columns.len()), terms.len())
}

fn collect_expr(expr: &Expr, refs: &mut Vec<ColumnRef>)
    ensures
        final(refs)@ == read_columns(*expr, old(refs)@),
    decreases expr,
{
    match expr {
        Expr::Column { column, .. } => {
            let mut known: bool = false;
            let mut i: usize = 0;
            while i < refs.len()
                invariant
                    i <= refs@.len(),
                    refs@ == old(refs)@,
                    known == exists|j: int| 0 <= j < i && (#[trigger] refs@[j]).column == *column,
                decreases refs@.len() - i,
            {
                if refs[i].column == *column {
                    known = true;
                    assert(refs@[i as int].column == *column);
                }
                i = i + 1;
            }
            assert(known == has_column(old(refs)@, *column));
            if !known {
                refs.push(ColumnRef { expr: expr.copy(), column: *column });
            }
        },
        Expr::RowId { .. } => {},
        Expr::Literal(_) => {},
        Expr::FunctionCall { args, order_by, filter_clause, over_clause, .. } => {
            if *over_clause == Over::Absent {
                collect_list(args, refs);
                collect_list(order_by, refs);
                if let Some(filter) = filter_clause {
                    collect_expr(filter, refs);
                }
            }
        },
        Expr::Subquery { operands, .. } => {
            collect_list(operands, refs);
        },
        Expr::Node { operands, .. } => {
            collect_list(operands, refs);
        },
    }
}

fn collect_list(list: &ExprList, refs: &mut Vec<ColumnRef>)
    ensures
        final(refs)@ == read_columns_list(*list, old(refs)@),
    decreases list,
{
    match list {
        ExprList::Nil => {},
        ExprList::Cons(head, tail) => {
            collect_expr(head, refs);
            collect_list(tail, refs);
        },
    }
}

/// The columns of the source subquery that a query reads.
pub fn collect_expressions_referencing_subquery(
    result_columns: &Vec<ResultSetColumn>,
    order_by: &Vec<OrderTerm>,
) -> (refs: Vec<ColumnRef>)
    ensures
        refs@ == read_by_query(result_columns@, order_by@),
{
    let mut refs: Vec<ColumnRef> = Vec::new();
    let mut i: usize = 0;
    while i < result_columns.len()
        invariant
            i <= result_columns@.len(),
            refs@ == read_by_results(result_columns@, i as nat),
        decreases result_columns@.len() - i,
    {
        collect_expr(&result_columns[i].expr, &mut refs);
        i = i + 1;
    }
    let ghost first = refs@;
    let mut j: usize = 0;
    while j < order_by.len()
        invariant
            j <= order_by@.len(),
            refs@ == read_by_order(order_by@, first, j as nat),
        decreases order_by@.len() - j,
    {
        collect_expr(&order_by[j].expr, &mut refs);
        j = j + 1;
    }
    refs
}

/// No column is read twice: each stands in one register.
pub proof fn read_columns_are_distinct(expr: Expr, refs: Seq<ColumnRef>)
    requires
        forall|i: int, j: int| 0 <= i < j < refs.len() ==> refs[i].column != refs[j].column,
    ensures
        ({
            let all = read_columns(expr, refs);
            forall|i: int, j: int| 0 <= i < j < all.len() ==> all[i].column != all[j].column
        }),
    decreases expr,
{
    match expr {
        Expr::Column { column, .. } => {
            if !has_column(refs, column) {
                assert forall|i: int| 0 <= i < refs.len() implies refs[i].column != column by {};
            }
        },
        Expr::FunctionCall { args, order_by, filter_clause, over_clause, .. } => {
            if over_clause == Over::Absent {
                read_columns_list_are_distinct(args, refs);
                read_columns_list_are_distinct(order_by, read_columns_list(args, refs));
                if let Some(filter) = filter_clause {
                    read_columns_are_distinct(
                        *filter,
                        read_columns_list(order_by, read_columns_list(args, refs)),
                    );
                }
            }
        },
        Expr::Subquery { operands, .. } => {
            read_columns_list_are_distinct(operands, refs);
        },
        Expr::Node { operands, .. } => {
            read_columns_list_are_distinct(operands, refs);
        },
        _ => {},
    }
}

proof fn read_columns_list_are_distinct(list: ExprList, refs: Seq<ColumnRef>)
    requires
        forall|i: int, j: int| 0 <= i < j < refs.len() ==> refs[i].column != refs[j].column,
    ensures
        ({
            let all = read_columns_list(list, refs);
            forall|i: int, j: int| 0 <= i < j < all.len() ==> all[i].column != all[j].column
        }),
    decreases list,
{
    if let ExprList::Cons(head, tail) = list {
        read_columns_are_distinct(*head, refs);
        read_columns_list_are_distinct(*tail, read_columns(*head, refs));
    }
}

/// `count` registers, where any are wanted.
pub open spec fn opt_regs(p: Code, wanted: bool, count: nat) -> (Option<usize>, Code) {
    if wanted && count > 0 {
        (Some(p.reg()), p.take_regs(count))
    } else {
        (None, p)
    }
}

fn alloc_optional_registers(program: &mut ProgramBuilder, wanted: bool, count: usize) -> (r: Option<
    usize,
>)
    requires
        wanted ==> old(program)@.regs + count <= u32::MAX,
    ensures
        (r, final(program)@) == opt_regs(old(program)@, wanted, count as nat),
{
    if wanted && count > 0 {
        Some(program.alloc_registers(count))
    } else {
        None
    }
}

/// Whether some function looks rows up in the buffer.
pub open spec fn needs_csr_app(functions: Seq<WindowFunction>) -> bool {
    exists|i: int| 0 <= i < functions.len() && window::is_positional((#[trigger] functions[i]).func)
}

/// Whether some function depends on where the frame ends.
pub open spec fn needs_frame_end(functions: Seq<WindowFunction>) -> bool {
    exists|i: int|
        0 <= i < functions.len() && window::needs_frame_end((#[trigger] functions[i]).func)
}

/// The cursors of a window.
pub open spec fn init_cursors(p: Code, window: Window) -> WindowCursors {
    let moving = window::has_moving_start(window);
    WindowCursors {
        csr_current: p.cursor(0),
        csr_write: p.cursor(1),
        csr_end: p.cursor(2),
        csr_start: if moving {
            Some(p.cursor(3))
        } else {
            None
        },
        csr_app: if needs_csr_app(window.functions@) {
            Some(
                p.cursor(
                    if moving {
                        4
                    } else {
                        3
                    },
                ),
            )
        } else {
            None
        },
    }
}

/// The cursors and the register that is set before the buffer is opened.
pub open spec fn init_before_open(p: Code, window: Window) -> Code {
    let taken = p.take_cursors(
        3 + (if window::has_moving_start(window) {
            1nat
        } else {
            0
        }) + (if needs_csr_app(window.functions@) {
            1nat
        } else {
            0
        }),
    );
    if needs_frame_end(window.functions@) {
        taken.null_regs(1)
    } else {
        taken
    }
}

/// Opens the buffer under one cursor, and the other cursors on the same
/// buffer.
pub open spec fn open_buffer(p: Code, cursors: WindowCursors) -> Code {
    let current = cursors.csr_current;
    let three = p.op(Insn::OpenEphemeral { cursor_id: current, is_table: true }).op(
        Insn::OpenDup { original_cursor_id: current, new_cursor_id: cursors.csr_write },
    ).op(Insn::OpenDup { original_cursor_id: current, new_cursor_id: cursors.csr_end });
    let start = match cursors.csr_start {
        Some(new_cursor_id) => three.op(
            Insn::OpenDup { original_cursor_id: current, new_cursor_id },
        ),
        None => three,
    };
    match cursors.csr_app {
        Some(new_cursor_id) => start.op(
            Insn::OpenDup { original_cursor_id: current, new_cursor_id },
        ),
        None => start,
    }
}

/// How many columns hold the partition key.
pub open spec fn partition_len(window: Window) -> nat {
    match window.deduplicated_partition_by_len {
        Some(len) => len as nat,
        None => window.partition_by@.len(),
    }
}

/// The registers of a window with `refs` columns to hand on, and the program
/// behind them. `q` is the program when the buffer has been opened.
pub open spec fn init_registers(
    q: Code,
    window: Window,
    src: SourceSubquery,
    refs: nat,
    frame_end_rowid: Option<usize>,
) -> (WindowRegisters, Code) {
    let nf = window.functions@.len();
    let n = window.order_by@.len();
    let k = partition_len(window);
    let peers = window.frame.mode != FrameMode::Rows;
    let results = q.take_regs(nf);
    let columns = results.take_regs(nf);
    let labelled = columns.take_regs(refs).take_labels(3);
    let after_rowid = labelled.null_regs(1);
    let after_partition = if k > 0 {
        after_rowid.null_regs(k)
    } else {
        after_rowid
    };
    let (new_ob, p1) = opt_regs(after_partition.take_regs(1), true, n);
    let (peer_start, p2) = opt_regs(p1, window::has_moving_start(window), n);
    let (peer_current, p3) = opt_regs(p2, peers, n);
    let (peer_end, p4) = opt_regs(p3, peers, n);
    let (start_offset, p5) = opt_regs(p4, window.frame.start is Following, 1);
    (
        WindowRegisters {
            rowid: labelled.reg(),
            partition_start: if k > 0 {
                Some(after_rowid.reg())
            } else {
                None
            },
            acc_start: q.reg(),
            acc_result_start: results.reg(),
            flush_buffer_return_offset: after_partition.reg(),
            src_columns_start: src.result_columns_start_reg,
            result_columns_start: columns.reg(),
            new_order_by_columns_start: new_ob,
            peer_start_reg: peer_start,
            peer_current_reg: peer_current,
            peer_end_reg: peer_end,
            start_offset_reg: start_offset,
            row_output_return: p5.reg(),
            frame_end_rowid,
        },
        p5.take_regs(1),
    )
}

/// The program when a window is set up.
pub open spec fn window_init(p: Code, window: Window, src: SourceSubquery, refs: nat) -> (
    WindowRegisters,
    Code,
) {
    let opened = open_buffer(init_before_open(p, window), init_cursors(p, window));
    init_registers(
        opened,
        window,
        src,
        refs,
        if needs_frame_end(window.functions@) {
            Some(p.reg())
        } else {
            None
        },
    )
}

/// The registers that the values of the functions and of the columns stand
/// in.
pub open spec fn cached(
    functions: Seq<WindowFunction>,
    refs: Seq<ColumnRef>,
    registers: WindowRegisters,
) -> Seq<CachedExpr> {
    Seq::new(
        functions.len(),
        |i: int| CachedExpr {
            expr: functions[i].call(),
            reg: (registers.acc_result_start + i) as usize,
        },
    ) + Seq::new(
        refs.len(),
        |i: int| CachedExpr {
            expr: refs[i].expr,
            reg: (registers.result_columns_start + i) as usize,
        },
    )
}

/// Whether planning has left a window that code can be written for.
pub open spec fn planned(window: Window, src: SourceSubquery) -> bool {
    let count = src.collations@.len();
    &&& window.name is Some
    &&& window.functions@.len() > 0
    &&& forall|i: int|
        0 <= i < window.order_by@.len() ==> window::is_source_column(
            (#[trigger] window.order_by@[i]).expr,
            count,
        )
    &&& forall|i: int|
        0 <= i < window.functions@.len() ==> window::function_ready(
            #[trigger] window.functions@[i],
            count,
        )
    &&& match window.deduplicated_partition_by_len {
        Some(len) => 0 < len <= window.partition_by@.len(),
        None => window.partition_by@.len() == 0,
    }
}

fn any_function(functions: &Vec<WindowFunction>) -> (r: (bool, bool))
    ensures
        r.0 == needs_csr_app(functions@),
        r.1 == needs_frame_end(functions@),
{
    let mut app: bool = false;
    let mut end: bool = false;
    let mut i: usize = 0;
    while i < functions.len()
        invariant
            i <= functions@.len(),
            app == exists|j: int| 0 <= j < i && window::is_positional((#[trigger] functions@[j]).func),
            end == exists|j: int|
                0 <= j < i && window::needs_frame_end((#[trigger] functions@[j]).func),
        decreases functions@.len() - i,
    {
        let func = functions[i].func;
        if positional(func) {
            app = true;
            assert(window::is_positional(functions@[i as int].func));
        }
        let by_frame_end: bool = match func {
            AccumulatorFunc::Window(WindowFunc::FirstValue) => true,
            AccumulatorFunc::Window(WindowFunc::NthValue) => true,
            _ => false,
        };
        if by_frame_end {
            end = true;
            assert(window::needs_frame_end(functions@[i as int].func));
        }
        i = i + 1;
    }
    (app, end)
}

fn open_window_buffer(program: &mut ProgramBuilder, window: &Window) -> (r: (
    WindowCursors,
    Option<usize>,
))
    requires
        open_buffer(
            init_before_open(old(program)@, *window),
            init_cursors(old(program)@, *window),
        ).fits(),
    ensures
        r.0 == init_cursors(old(program)@, *window),
        r.1 == (if needs_frame_end(window.functions@) {
            Some(old(program)@.reg())
        } else {
            None
        }),
        final(program)@ == open_buffer(
            init_before_open(old(program)@, *window),
            init_cursors(old(program)@, *window),
        ),
{
    let ghost p = program@;
    let moving: bool = match &window.frame.start {
        FrameBoundary::UnboundedPreceding => false,
        _ => true,
    };
    let (with_app, with_end) = any_function(&window.functions);
    let csr_current: usize = program.alloc_cursor_id();
    let csr_write: usize = program.alloc_cursor_id();
    let csr_end: usize = program.alloc_cursor_id();
    let csr_start: Option<usize> = if moving {
        Some(program.alloc_cursor_id())
    } else {
        None
    };
    let csr_app: Option<usize> = if with_app {
        Some(program.alloc_cursor_id())
    } else {
        None
    };
    let frame_end_rowid: Option<usize> = if with_end {
        Some(program.alloc_registers_and_init_w_null(1))
    } else {
        None
    };
    let cursors = WindowCursors { csr_write, csr_current, csr_end, csr_start, csr_app };
    assert(cursors == init_cursors(p, *window));
    assert(program@ == init_before_open(p, *window));
    program.emit_insn(Insn::OpenEphemeral { cursor_id: csr_current, is_table: true });
    program.emit_insn(
        Insn::OpenDup { original_cursor_id: csr_current, new_cursor_id: csr_write },
    );
    program.emit_insn(Insn::OpenDup { original_cursor_id: csr_current, new_cursor_id: csr_end });
    if let Some(csr_start) = csr_start {
        program.emit_insn(
            Insn::OpenDup { original_cursor_id: csr_current, new_cursor_id: csr_start },
        );
    }
    if let Some(csr_app) = csr_app {
        program.emit_insn(
            Insn::OpenDup { original_cursor_id: csr_current, new_cursor_id: csr_app },
        );
    }
    (cursors, frame_end_rowid)
}

fn alloc_window_registers(
    program: &mut ProgramBuilder,
    window: &Window,
    src: &SourceSubquery,
    refs: usize,
    frame_end_rowid: Option<usize>,
) -> (r: (WindowRegisters, WindowLabels))
    requires
        init_registers(old(program)@, *window, *src, refs as nat, frame_end_rowid).1.fits(),
    ensures
        (r.0, final(program)@) == init_registers(
            old(program)@,
            *window,
            *src,
            refs as nat,
            frame_end_rowid,
        ),
        r.1 == (WindowLabels {
            flush_buffer: old(program)@.label(0),
            row_output: old(program)@.label(1),
            window_processing_end: old(program)@.label(2),
        }),
{
    let moving: bool = match &window.frame.start {
        FrameBoundary::UnboundedPreceding => false,
        _ => true,
    };
    let following: bool = match &window.frame.start {
        FrameBoundary::Following(_) => true,
        _ => false,
    };
    let partition_by_len: usize = match window.deduplicated_partition_by_len {
        Some(len) => len,
        None => window.partition_by.len(),
    };
    let order_by_len: usize = window.order_by.len();
    let window_function_count: usize = window.functions.len();
    let acc_start: usize = program.alloc_registers(window_function_count);
    let acc_result_start: usize = program.alloc_registers(window_function_count);
    let result_columns_start: usize = program.alloc_registers(refs);
    let flush_buffer = program.allocate_label();
    let row_output = program.allocate_label();
    let window_processing_end = program.allocate_label();
    let labels = WindowLabels { flush_buffer, row_output, window_processing_end };
    let rowid: usize = program.alloc_registers_and_init_w_null(1);
    let partition_start: Option<usize> = if partition_by_len > 0 {
        Some(program.alloc_registers_and_init_w_null(partition_by_len))
    } else {
        None
    };
    let flush_buffer_return_offset: usize = program.alloc_register();
    let peers: bool = window.frame.mode != FrameMode::Rows;
    let new_order_by_columns_start = alloc_optional_registers(program, true, order_by_len);
    let peer_start_reg = alloc_optional_registers(program, moving, order_by_len);
    let peer_current_reg = alloc_optional_registers(program, peers, order_by_len);
    let peer_end_reg = alloc_optional_registers(program, peers, order_by_len);
    let start_offset_reg = alloc_optional_registers(program, following, 1);
    let row_output_return: usize = program.alloc_register();
    let registers = WindowRegisters {
        rowid,
        partition_start,
        acc_start,
        acc_result_start,
        flush_buffer_return_offset,
        src_columns_start: src.result_columns_start_reg,
        result_columns_start,
        new_order_by_columns_start,
        peer_start_reg,
        peer_current_reg,
        peer_end_reg,
        start_offset_reg,
        row_output_return,
        frame_end_rowid,
    };
    (registers, labels)
}

fn copy_collations(v: &Vec<Option<CollationSeq>>) -> (r: Vec<Option<CollationSeq>>)
    ensures
        r@ == v@,
{
    let mut r: Vec<Option<CollationSeq>> = Vec::new();
    let mut i: usize = 0;
    while i < v.len()
        invariant
            i <= v@.len(),
            r@ == v@.take(i as int),
        decreases v@.len() - i,
    {
        r.push(v[i]);
        i = i + 1;
        assert(r@ =~= v@.take(i as int));
    }
    assert(v@.take(i as int) =~= v@);
    r
}

impl EmitWindow {
    /// Opens the buffer, takes the registers of the window, and notes in which
    /// registers the outer query finds the values of the functions and of the
    /// columns that it reads.
    pub fn init(
        program: &mut ProgramBuilder,
        cache: &mut Vec<CachedExpr>,
        window: &Window,
        src: &SourceSubquery,
        result_columns: &Vec<ResultSetColumn>,
        order_by: &Vec<OrderTerm>,
    ) -> (meta: WindowMetadata)
        requires
            planned(*window, *src),
            src.result_columns_start_reg + src.collations@.len() <= u32::MAX,
            window_init(
                old(program)@,
                *window,
                *src,
                read_by_query(result_columns@, order_by@).len(),
            ).1.fits(),
        ensures
            meta.serves(*window),
            ({
                let refs = read_by_query(result_columns@, order_by@);
                let (registers, code) = window_init(old(program)@, *window, *src, refs.len());
                &&& final(program)@ == code
                &&& meta.registers == registers
                &&& meta.expressions_referencing_subquery@ == refs
                &&& final(cache)@ == old(cache)@ + cached(window.functions@, refs, registers)
            }),
            meta.cursors == init_cursors(old(program)@, *window),
            meta.labels == (WindowLabels {
                flush_buffer: old(program)@.label(0),
                row_output: old(program)@.label(1),
                window_processing_end: old(program)@.label(2),
            }),
            meta.src_column_count == src.collations@.len(),
            meta.src_collations@ == src.collations@,
            window.name == Some(meta.buffer_of),
    {
        let refs = collect_expressions_referencing_subquery(result_columns, order_by);
        let buffer_of: WindowName = match window.name {
            Some(name) => name,
            None => WindowName::Numbered(0),
        };
        let (cursors, frame_end_rowid) = open_window_buffer(program, window);
        let (registers, labels) = alloc_window_registers(
            program,
            window,
            src,
            refs.len(),
            frame_end_rowid,
        );
        cache_registers(cache, window, &refs, &registers);
        WindowMetadata {
            labels,
            registers,
            cursors,
            src_column_count: src.collations.len(),
            src_collations: copy_collations(&src.collations),
            expressions_referencing_subquery: refs,
            buffer_of,
        }
    }
}

fn cache_registers(
    cache: &mut Vec<CachedExpr>,
    window: &Window,
    refs: &Vec<ColumnRef>,
    registers: &WindowRegisters,
)
    requires
        registers.acc_result_start + window.functions@.len() <= u32::MAX,
        registers.result_columns_start + refs@.len() <= u32::MAX,
    ensures
        final(cache)@ == old(cache)@ + cached(window.functions@, refs@, *registers),
{
    let ghost all = cached(window.functions@, refs@, *registers);
    let mut i: usize = 0;
    while i < window.functions.len()
        invariant
            i <= window.functions@.len(),
            registers.acc_result_start + window.functions@.len() <= u32::MAX,
            all == cached(window.functions@, refs@, *registers),
            cache@ == old(cache)@ + all.take(i as int),
        decreases window.functions@.len() - i,
    {
        cache.push(
            CachedExpr {
                expr: window.functions[i].current_expr().copy(),
                reg: registers.acc_result_start + i,
            },
        );
        i = i + 1;
        assert(cache@ =~= old(cache)@ + all.take(i as int));
    }
    let ghost nf = window.functions@.len() as int;
    let mut j: usize = 0;
    while j < refs.len()
        invariant
            j <= refs@.len(),
            nf == window.functions@.len(),
            registers.result_columns_start + refs@.len() <= u32::MAX,
            all == cached(window.functions@, refs@, *registers),
            cache@ == old(cache)@ + all.take(nf + j),
        decreases refs@.len() - j,
    {
        cache.push(
            CachedExpr {
                expr: refs[j].expr.copy(),
                reg: registers.result_columns_start + j,
            },
        );
        j = j + 1;
        assert(cache@ =~= old(cache)@ + all.take(nf + j));
    }
    assert(all.take(nf + j) =~= all);
}

} // verus!
