//! Windows: their definitions, and what the code that evaluates one uses.

use vstd::prelude::*;
use crate::function::{AccumulatorFunc, WindowFunc};
use crate::translate::expr::{Expr, WindowName};
use crate::translate::program::{CollationSeq, Label, NullsOrder, SortOrder};

verus! {

/// How a frame's boundaries are counted.
#[derive(Clone, Copy, Debug, PartialEq, Eq, Structural)]
pub enum FrameMode {
    Rows,
    Range,
    Groups,
}

/// Where a frame starts or ends.
pub enum FrameBoundary {
    UnboundedPreceding,
    Preceding(Box<Expr>),
    CurrentRow,
    Following(Box<Expr>),
    UnboundedFollowing,
}

/// The rows around the current one that a window function sees.
pub struct Frame {
    pub mode: FrameMode,
    pub start: FrameBoundary,
    pub end: FrameBoundary,
}

/// A term of an ORDER BY.
pub struct OrderTerm {
    pub expr: Expr,
    pub order: SortOrder,
    pub nulls: Option<NullsOrder>,
}

/// A window function call whose arguments refer to the source subquery.
pub struct RewrittenWindowCall {
    pub expr: Expr,
    pub filter_expr: Option<Expr>,
}

/// A call of a function over a window.
pub struct WindowFunction {
    pub func: AccumulatorFunc,
    pub original_expr: Expr,
    pub rewritten: Option<RewrittenWindowCall>,
}

impl WindowFunction {
    /// The call as it stands in the rewritten query.
    pub open spec fn call(&self) -> Expr {
        match self.rewritten {
            Some(rewritten) => rewritten.expr,
            None => self.original_expr,
        }
    }

    /// The call as it stands in the rewritten query.
    pub fn current_expr(&self) -> (e: &Expr)
        ensures
            *e == self.call(),
    {
        match &self.rewritten {
            Some(rewritten) => &rewritten.expr,
            None => &self.original_expr,
        }
    }

    /// The arguments of the call.
    pub open spec fn args(&self) -> Seq<Expr> {
        match self.call() {
            Expr::FunctionCall { args, .. } => args.items(),
            _ => Seq::empty(),
        }
    }

    /// The arguments of the call.
    pub fn arguments(&self) -> (v: Vec<Expr>)
        ensures
            v@ == self.args(),
    {
        match self.current_expr() {
            Expr::FunctionCall { args, .. } => args.to_vec(),
            _ => Vec::new(),
        }
    }

    /// The FILTER of the call, where it has been rewritten.
    pub open spec fn filter(&self) -> Option<Expr> {
        match self.rewritten {
            Some(rewritten) => rewritten.filter_expr,
            None => None,
        }
    }
}

/// Whether the value of a function is looked up in the buffer when a row is
/// returned.
pub open spec fn is_positional(func: AccumulatorFunc) -> bool {
    func == AccumulatorFunc::Window(WindowFunc::FirstValue) || func == AccumulatorFunc::Window(
        WindowFunc::NthValue,
    ) || func == AccumulatorFunc::Window(WindowFunc::Lag) || func == AccumulatorFunc::Window(
        WindowFunc::Lead,
    )
}

/// Whether the value of a function depends on where the frame ends.
pub open spec fn needs_frame_end(func: AccumulatorFunc) -> bool {
    func == AccumulatorFunc::Window(WindowFunc::FirstValue) || func == AccumulatorFunc::Window(
        WindowFunc::NthValue,
    )
}

pub fn positional(func: AccumulatorFunc) -> (r: bool)
    ensures
        r == is_positional(func),
{
    match func {
        AccumulatorFunc::Window(WindowFunc::FirstValue) => true,
        AccumulatorFunc::Window(WindowFunc::NthValue) => true,
        AccumulatorFunc::Window(WindowFunc::Lag) => true,
        AccumulatorFunc::Window(WindowFunc::Lead) => true,
        _ => false,
    }
}

/// A window: which rows belong together, in which order, and what is computed
/// over them.
pub struct Window {
    pub name: Option<WindowName>,
    pub partition_by: Vec<Expr>,
    /// How many columns of the source subquery hold the partition key.
    pub deduplicated_partition_by_len: Option<usize>,
    pub order_by: Vec<OrderTerm>,
    pub frame: Frame,
    pub functions: Vec<WindowFunction>,
}

/// The column that an expression refers to.
pub open spec fn column_of(expr: Expr) -> usize {
    match expr {
        Expr::Column { column, .. } => column,
        _ => 0,
    }
}

/// The collation of a column of the source subquery.
pub open spec fn collation_of(collations: Seq<Option<CollationSeq>>, expr: Expr) -> CollationSeq {
    let column = column_of(expr);
    if expr is Column && column < collations.len() && collations[column as int] is Some {
        collations[column as int]->Some_0
    } else {
        CollationSeq::Binary
    }
}

/// The collation of a column of the source subquery.
pub fn collation(collations: &Vec<Option<CollationSeq>>, expr: &Expr) -> (c: CollationSeq)
    ensures
        c == collation_of(collations@, *expr),
{
    match expr {
        Expr::Column { column, .. } => {
            if *column < collations.len() {
                match collations[*column] {
                    Some(collation) => collation,
                    None => CollationSeq::Binary,
                }
            } else {
                CollationSeq::Binary
            }
        },
        _ => CollationSeq::Binary,
    }
}

/// The places that the code of a window jumps to from afar.
#[derive(Clone, Copy, Debug, PartialEq, Eq, Structural)]
pub struct WindowLabels {
    /// The subroutine that flushes buffered rows.
    pub flush_buffer: Label,
    /// The subroutine that sends the result registers to the outer query.
    /// Every place that returns a row goes there, so what has a single jump
    /// target per row is written once.
    pub row_output: Label,
    /// The end of window processing.
    pub window_processing_end: Label,
}

/// The registers that the code of a window uses throughout.
#[derive(Clone, Copy, Debug, PartialEq, Eq, Structural)]
pub struct WindowRegisters {
    /// The row number of the last row in the buffer; NULL before the first
    /// row of a partition.
    pub rowid: usize,
    /// The key of the current partition.
    pub partition_start: Option<usize>,
    /// The state of the functions.
    pub acc_start: usize,
    /// The values of the functions.
    pub acc_result_start: usize,
    /// Where the flush subroutine returns to.
    pub flush_buffer_return_offset: usize,
    /// The columns of the current row of the source subquery.
    pub src_columns_start: usize,
    /// The columns that the outer query reads.
    pub result_columns_start: usize,
    /// The ORDER BY values of the current row.
    pub new_order_by_columns_start: Option<usize>,
    /// The ORDER BY values of the peers at the frame's start, for a frame
    /// whose start moves.
    pub peer_start_reg: Option<usize>,
    /// The ORDER BY values of the peers at the current row.
    pub peer_current_reg: Option<usize>,
    /// The ORDER BY values of the peers at the frame's end.
    pub peer_end_reg: Option<usize>,
    /// How far behind the current row the frame starts.
    pub start_offset_reg: Option<usize>,
    /// Where the row output subroutine returns to.
    pub row_output_return: usize,
    /// The row number of the last row in the frame.
    pub frame_end_rowid: Option<usize>,
}

/// The cursors on the buffer, which holds the rows of the current partition.
#[derive(Clone, Copy, Debug, PartialEq, Eq, Structural)]
pub struct WindowCursors {
    /// Writes new rows.
    pub csr_write: usize,
    /// Stands at the row that is returned.
    pub csr_current: usize,
    /// Stands at the frame's end.
    pub csr_end: usize,
    /// Stands at the frame's start, where that moves.
    pub csr_start: Option<usize>,
    /// Looks rows up, for functions whose value is a row's column.
    pub csr_app: Option<usize>,
}

/// An expression and the column of the source subquery that it reads.
pub struct ColumnRef {
    pub expr: Expr,
    pub column: usize,
}

/// What the code of a window uses.
pub struct WindowMetadata {
    pub labels: WindowLabels,
    pub registers: WindowRegisters,
    pub cursors: WindowCursors,
    /// How many columns the source subquery has.
    pub src_column_count: usize,
    /// The collations of those columns.
    pub src_collations: Vec<Option<CollationSeq>>,
    /// The expressions of the query that read the source subquery.
    pub expressions_referencing_subquery: Vec<ColumnRef>,
    /// The window that the buffer belongs to.
    pub buffer_of: WindowName,
}

/// Whether a frame's start moves with the current row.
pub open spec fn has_moving_start(window: Window) -> bool {
    !(window.frame.start is UnboundedPreceding)
}

/// Whether `reg`, where there is one, starts `count` registers.
pub open spec fn opt_block(reg: Option<usize>, count: nat) -> bool {
    reg matches Some(reg) ==> reg + count <= u32::MAX
}

/// Whether an expression refers to a column of a source subquery with `count`
/// columns.
pub open spec fn is_source_column(expr: Expr, count: nat) -> bool {
    expr is Column && column_of(expr) < count
}

/// Whether a function's arguments are such that code can be written for it:
/// positional functions read columns of the source subquery.
pub open spec fn function_ready(function: WindowFunction, count: nat) -> bool {
    let args = function.args();
    &&& function.call() is FunctionCall
    &&& args.len() <= u32::MAX
    &&& is_positional(function.func) ==> args.len() >= 1 && forall|i: int|
        0 <= i < args.len() ==> is_source_column(#[trigger] args[i], count)
    &&& function.func == AccumulatorFunc::Window(WindowFunc::NthValue) ==> args.len() >= 2
}

impl WindowMetadata {
    /// Whether the metadata belong to the window, as planning leaves it.
    pub open spec fn serves(&self, window: Window) -> bool {
        let n = window.order_by@.len();
        let r = self.registers;
        &&& window.functions@.len() > 0
        &&& r.acc_start + window.functions@.len() <= u32::MAX
        &&& r.acc_result_start + window.functions@.len() <= u32::MAX
        &&& r.src_columns_start + self.src_column_count <= u32::MAX
        &&& r.result_columns_start + self.expressions_referencing_subquery@.len() <= u32::MAX
        &&& opt_block(r.new_order_by_columns_start, n)
        &&& opt_block(r.peer_start_reg, n)
        &&& opt_block(r.peer_current_reg, n)
        &&& opt_block(r.peer_end_reg, n)
        // ORDER BY values are kept exactly for windows with an ORDER BY.
        &&& r.new_order_by_columns_start is Some <==> n > 0
        &&& window.frame.mode != FrameMode::Rows && n > 0 ==> {
            &&& r.peer_current_reg is Some
            &&& r.peer_end_reg is Some
            &&& has_moving_start(window) ==> r.peer_start_reg is Some
        }
        &&& forall|i: int|
            0 <= i < n ==> is_source_column(
                (#[trigger] window.order_by@[i]).expr,
                self.src_column_count as nat,
            )
        // A partition key is kept for windows with a PARTITION BY only.
        &&& r.partition_start is Some ==> {
            &&& window.deduplicated_partition_by_len matches Some(len) && 0 < len
                <= window.partition_by@.len()
            &&& r.partition_start->Some_0 + window.deduplicated_partition_by_len->Some_0 <= u32::MAX
        }
        &&& has_moving_start(window) ==> self.cursors.csr_start is Some
        &&& r.start_offset_reg is Some ==> window.frame.start is Following
        &&& forall|i: int|
            0 <= i < window.functions@.len() ==> {
                let f = #[trigger] window.functions@[i];
                &&& function_ready(f, self.src_column_count as nat)
                &&& is_positional(f.func) ==> self.cursors.csr_app is Some
                &&& needs_frame_end(f.func) ==> r.frame_end_rowid is Some
            }
    }
}

} // verus!
