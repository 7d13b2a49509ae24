//! Runs the code that is emitted for windows on a small machine.

use std::collections::BTreeMap;

use tursokit::function::{AccumulatorFunc, AggFunc, WindowFunc};
use tursokit::translate::expr::{exprs_are_equivalent, CallKind, Expr, ExprList, Over, WindowName};
use tursokit::translate::program::{
    Comment, Fragment, Insn, Item, Label, ProgramBuilder, SortOrder,
};
use tursokit::translate::window::{
    Frame, FrameBoundary, FrameMode, OrderTerm, Window, WindowFunction,
};
use tursokit::translate::window_init::{CachedExpr, ResultSetColumn, SourceSubquery};
use tursokit::translate::window_plan::{
    buffer_table_name, generated_window_name, plan_windows, window_subquery_name, SelectPlan,
    Source,
};
use tursokit::translate::window_step::{emit_window_flush, EmitWindow, OutputPlan};

#[derive(Clone, Debug, PartialEq)]
enum Cell {
    Null,
    Int(i64),
    /// Rows that were stepped, rows that left, and the sum of arguments.
    Acc(i64, i64, i64),
}

#[derive(Default)]
struct Table {
    rows: BTreeMap<i64, Vec<Cell>>,
}

struct Machine<'a> {
    program: &'a ProgramBuilder,
    regs: BTreeMap<usize, Cell>,
    labels: BTreeMap<usize, usize>,
    table: Table,
    positions: BTreeMap<usize, i64>,
    ordering: std::cmp::Ordering,
    cache: &'a [CachedExpr],
    result_columns: &'a [ResultSetColumn],
    output: Vec<Vec<Cell>>,
    most_buffered: usize,
    halted: Option<&'static str>,
}

impl<'a> Machine<'a> {
    fn new(
        program: &'a ProgramBuilder,
        cache: &'a [CachedExpr],
        result_columns: &'a [ResultSetColumn],
    ) -> Self {
        let mut labels = BTreeMap::new();
        for (pc, item) in program.items.iter().enumerate() {
            if let Item::Bind(Label(label)) = item {
                assert!(labels.insert(*label, pc).is_none(), "label bound twice");
            }
        }
        Machine {
            program,
            regs: BTreeMap::new(),
            labels,
            table: Table::default(),
            positions: BTreeMap::new(),
            ordering: std::cmp::Ordering::Equal,
            cache,
            result_columns,
            output: Vec::new(),
            most_buffered: 0,
            halted: None,
        }
    }

    fn get(&self, reg: usize) -> Cell {
        self.regs.get(&reg).cloned().unwrap_or(Cell::Null)
    }

    fn number(&self, reg: usize) -> i64 {
        match self.get(reg) {
            Cell::Int(n) => n,
            other => panic!("register {reg} holds {other:?}"),
        }
    }

    fn set(&mut self, reg: usize, cell: Cell) {
        self.regs.insert(reg, cell);
    }

    fn pc(&self, label: &Label) -> usize {
        self.labels[&label.0]
    }

    fn column(&self, cursor: usize, column: usize) -> Cell {
        self.table.rows[&self.positions[&cursor]][column].clone()
    }

    fn evaluate(&self, expr: &Expr) -> Cell {
        for cached in self.cache {
            if exprs_are_equivalent(&cached.expr, expr) {
                return self.get(cached.reg);
            }
        }
        match expr {
            Expr::Literal(n) => Cell::Int(*n as i64),
            _ => panic!("expression is not cached"),
        }
    }

    fn step(&mut self, acc_reg: usize, arg: Option<i64>) {
        let (n, left, sum) = match self.get(acc_reg) {
            Cell::Acc(n, left, sum) => (n, left, sum),
            Cell::Null => (0, 0, 0),
            other => panic!("accumulator holds {other:?}"),
        };
        self.set(acc_reg, Cell::Acc(n + 1, left, sum + arg.unwrap_or(0)));
    }

    fn value(&self, acc_reg: usize, func: &AccumulatorFunc) -> Cell {
        let (n, left, sum) = match self.get(acc_reg) {
            Cell::Acc(n, left, sum) => (n, left, sum),
            Cell::Null => (0, 0, 0),
            other => panic!("accumulator holds {other:?}"),
        };
        match func {
            AccumulatorFunc::Agg(AggFunc::Sum) => Cell::Int(sum),
            AccumulatorFunc::Agg(AggFunc::Count0) => Cell::Int(n),
            AccumulatorFunc::Window(WindowFunc::RowNumber) => Cell::Int(n),
            // In hundredths.
            AccumulatorFunc::Window(WindowFunc::CumeDist) => Cell::Int(100 * left / n),
            other => panic!("no value for {other:?}"),
        }
    }

    fn fragment(&mut self, fragment: &Fragment) {
        match fragment {
            Fragment::Expr { expr, dest } | Fragment::ExprEachTime { expr, dest } => {
                let v = self.evaluate(expr);
                self.set(*dest, v);
            }
            Fragment::AggregationStep { acc_reg, loaded_at, .. } => {
                let arg = loaded_at.map(|reg| self.number(reg));
                self.step(*acc_reg, arg);
            }
            Fragment::ColumnOrRowId { cursor_id, column, dest } => {
                let v = self.column(*cursor_id, *column);
                self.set(*dest, v);
            }
            Fragment::SelectResult { .. } => {
                let row = self
                    .result_columns
                    .iter()
                    .map(|c| self.evaluate(&c.expr))
                    .collect();
                self.output.push(row);
            }
            _ => panic!("unexpected fragment"),
        }
    }

    fn run(&mut self, start: usize, stop: usize) {
        let mut pc = start;
        while pc != stop {
            let item = &self.program.items[pc];
            pc += 1;
            let insn = match item {
                Item::Bind(_) => continue,
                Item::Fragment(f) => {
                    self.fragment(f);
                    continue;
                }
                Item::Op(insn) => insn,
            };
            match insn {
                Insn::OpenEphemeral { .. } | Insn::OpenDup { .. } => {}
                Insn::Null { dest, dest_end } => {
                    for reg in *dest..=dest_end.unwrap_or(*dest) {
                        self.set(reg, Cell::Null);
                    }
                }
                Insn::NotNull { reg, target_pc } => {
                    if self.get(*reg) != Cell::Null {
                        pc = self.pc(target_pc);
                    }
                }
                Insn::Integer { value, dest } => self.set(*dest, Cell::Int(*value)),
                Insn::Copy { src_reg, dst_reg, extra_amount } => {
                    for i in 0..=*extra_amount {
                        let v = self.get(src_reg + i);
                        self.set(dst_reg + i, v);
                    }
                }
                Insn::Rewind { cursor_id, pc_if_empty } => match self.table.rows.keys().next() {
                    Some(first) => {
                        self.positions.insert(*cursor_id, *first);
                    }
                    None => pc = self.pc(pc_if_empty),
                },
                Insn::Next { cursor_id, pc_if_next } => {
                    let at = self.positions[cursor_id];
                    if let Some((next, _)) = self.table.rows.range(at + 1..).next() {
                        self.positions.insert(*cursor_id, *next);
                        pc = self.pc(pc_if_next);
                    }
                }
                Insn::Goto { target_pc } => pc = self.pc(target_pc),
                Insn::Gosub { target_pc, return_reg } => {
                    self.set(*return_reg, Cell::Int(pc as i64));
                    pc = self.pc(target_pc);
                }
                Insn::Return { return_reg, can_fallthrough } => match self.get(*return_reg) {
                    Cell::Int(n) => pc = n as usize,
                    _ => assert!(*can_fallthrough),
                },
                Insn::Compare { start_reg_a, start_reg_b, count, .. } => {
                    let a: Vec<Option<i64>> = (0..*count).map(|i| self.opt(start_reg_a + i)).collect();
                    let b: Vec<Option<i64>> = (0..*count).map(|i| self.opt(start_reg_b + i)).collect();
                    self.ordering = a.cmp(&b);
                }
                Insn::Jump { target_pc_lt, target_pc_eq, target_pc_gt } => {
                    pc = self.pc(match self.ordering {
                        std::cmp::Ordering::Less => target_pc_lt,
                        std::cmp::Ordering::Equal => target_pc_eq,
                        std::cmp::Ordering::Greater => target_pc_gt,
                    });
                }
                Insn::Gt { lhs, rhs, target_pc } => {
                    if self.number(*lhs) > self.number(*rhs) {
                        pc = self.pc(target_pc);
                    }
                }
                Insn::IfPos { reg, target_pc, decrement_by } => {
                    let n = self.number(*reg);
                    if n > 0 {
                        self.set(*reg, Cell::Int(n - *decrement_by as i64));
                        pc = self.pc(target_pc);
                    }
                }
                Insn::MustBeInt { reg, target_pc } => {
                    if !matches!(self.get(*reg), Cell::Int(_)) {
                        pc = self.pc(&target_pc.unwrap());
                    }
                }
                Insn::Halt { err_code, reason } => {
                    assert_eq!(*err_code, 1);
                    self.halted = Some(reason.description());
                    return;
                }
                Insn::MakeRecord { .. } => {}
                Insn::NewRowid { rowid_reg, .. } => {
                    let n = self.table.rows.keys().next_back().copied().unwrap_or(0) + 1;
                    self.set(*rowid_reg, Cell::Int(n));
                }
                Insn::Insert { key_reg, .. } => {
                    let rowid = self.number(*key_reg);
                    let row = (0..3).map(|i| self.get(SRC + i)).collect();
                    self.table.rows.insert(rowid, row);
                    self.most_buffered = self.most_buffered.max(self.table.rows.len());
                }
                Insn::Delete { cursor_id, .. } => {
                    self.table.rows.remove(&self.positions[cursor_id]).unwrap();
                }
                Insn::RowId { cursor_id, dest } => {
                    let n = self.positions[cursor_id];
                    self.set(*dest, Cell::Int(n));
                }
                Insn::SeekRowid { cursor_id, src_reg, target_pc } => {
                    let n = self.number(*src_reg);
                    if self.table.rows.contains_key(&n) {
                        self.positions.insert(*cursor_id, n);
                    } else {
                        pc = self.pc(target_pc);
                    }
                }
                Insn::Column { cursor_id, column, dest } => {
                    let v = self.column(*cursor_id, *column);
                    self.set(*dest, v);
                }
                Insn::ResetSorter { .. } => self.table.rows.clear(),
                Insn::AddImm { register, value } => {
                    let n = self.number(*register) + value;
                    self.set(*register, Cell::Int(n));
                }
                Insn::Add { lhs, rhs, dest } => {
                    let n = self.number(*lhs) + self.number(*rhs);
                    self.set(*dest, Cell::Int(n));
                }
                Insn::Subtract { lhs, rhs, dest } => {
                    let n = self.number(*lhs) - self.number(*rhs);
                    self.set(*dest, Cell::Int(n));
                }
                Insn::AggStep { acc_reg, .. } => self.step(*acc_reg, None),
                Insn::AggInverse { acc_reg, .. } => {
                    if let Cell::Acc(n, left, sum) = self.get(*acc_reg) {
                        self.set(*acc_reg, Cell::Acc(n, left + 1, sum));
                    }
                }
                Insn::AggValue { acc_reg, dest_reg, func } => {
                    let v = self.value(*acc_reg, func);
                    self.set(*dest_reg, v);
                }
                _ => panic!("unexpected instruction"),
            }
        }
    }

    fn opt(&self, reg: usize) -> Option<i64> {
        match self.get(reg) {
            Cell::Int(n) => Some(n),
            _ => None,
        }
    }
}

/// The number of the subquery that is read.
const SUBQUERY: u64 = 9;

/// The register of its first column.
const SRC: usize = 1;

fn column(column: usize) -> Expr {
    Expr::Column {
        database: None,
        table: SUBQUERY,
        column,
        is_rowid_alias: false,
    }
}

fn function(number: u64, func: AccumulatorFunc, args: Vec<Expr>) -> WindowFunction {
    WindowFunction {
        func,
        original_expr: Expr::FunctionCall {
            name: number,
            kind: CallKind::WindowOnly,
            star: false,
            args: ExprList::from_vec(args),
            order_by: ExprList::Nil,
            within_group: ExprList::Nil,
            filter_clause: None,
            over_clause: Over::Name(WindowName::Numbered(0)),
        },
        rewritten: None,
    }
}

fn window(
    functions: Vec<WindowFunction>,
    partitioned: bool,
    mode: FrameMode,
    start: FrameBoundary,
    end: FrameBoundary,
) -> Window {
    Window {
        name: Some(WindowName::Numbered(0)),
        partition_by: if partitioned { vec![column(0)] } else { vec![] },
        deduplicated_partition_by_len: if partitioned { Some(1) } else { None },
        order_by: vec![OrderTerm {
            expr: column(1),
            order: SortOrder::Asc,
            nulls: None,
        }],
        frame: Frame { mode, start, end },
        functions,
    }
}

/// Runs a window over rows of a partition, an order and a value, and gives the
/// values of its functions behind the columns of each row.
fn run(window: &Window, rows: &[[i64; 3]]) -> (Vec<Vec<Cell>>, usize) {
    let (output, most_buffered, halted) = run_until_halt(window, rows);
    assert_eq!(halted, None);
    (output, most_buffered)
}

/// A program for a window, and what it is about.
struct Emitted {
    program: ProgramBuilder,
    cache: Vec<CachedExpr>,
    result_columns: Vec<ResultSetColumn>,
    step: usize,
    flush: usize,
    end: usize,
}

fn emit(window: &Window) -> Emitted {
    let mut program = ProgramBuilder::new();
    while program.next_reg < SRC {
        program.alloc_register();
    }
    assert_eq!(program.alloc_registers(3), SRC);
    let src = SourceSubquery {
        id: SUBQUERY,
        result_columns_start_reg: SRC,
        collations: vec![None, None, None],
    };
    let mut result_columns: Vec<ResultSetColumn> = (0..3)
        .map(|i| ResultSetColumn {
            expr: column(i),
            contains_aggregates: false,
        })
        .collect();
    for f in &window.functions {
        result_columns.push(ResultSetColumn {
            expr: f.original_expr.copy(),
            contains_aggregates: false,
        });
    }
    let order_by: Vec<OrderTerm> = vec![];
    let mut cache: Vec<CachedExpr> = vec![];
    let meta = EmitWindow::init(
        &mut program,
        &mut cache,
        window,
        &src,
        &result_columns,
        &order_by,
    );
    let step = program.items.len();
    EmitWindow::emit_window_step(&mut program, window, &meta);
    let flush = program.items.len();
    let output = OutputPlan {
        ordered: false,
        distinct_conflict: None,
    };
    emit_window_flush(&mut program, window, &meta, output);
    let end = program.items.len();
    Emitted {
        program,
        cache,
        result_columns,
        step,
        flush,
        end,
    }
}

/// The same, with the reason for which the program stopped.
fn run_until_halt(
    window: &Window,
    rows: &[[i64; 3]],
) -> (Vec<Vec<Cell>>, usize, Option<&'static str>) {
    let Emitted {
        program,
        cache,
        result_columns,
        step,
        flush,
        end,
    } = emit(window);
    let mut machine = Machine::new(&program, &cache, &result_columns);
    machine.run(0, step);
    for row in rows {
        for (i, n) in row.iter().enumerate() {
            machine.set(SRC + i, Cell::Int(*n));
        }
        if machine.halted.is_none() {
            machine.run(step, flush);
        }
    }
    if machine.halted.is_none() {
        machine.run(flush, end);
    }
    (machine.output, machine.most_buffered, machine.halted)
}

fn ints(row: &[Cell]) -> Vec<i64> {
    row.iter()
        .map(|c| match c {
            Cell::Int(n) => *n,
            Cell::Null => -1,
            other => panic!("unexpected {other:?}"),
        })
        .collect()
}

const ROWS: [[i64; 3]; 6] = [
    [1, 10, 1],
    [1, 20, 2],
    [1, 20, 3],
    [1, 30, 4],
    [2, 10, 5],
    [2, 20, 6],
];

fn sum() -> WindowFunction {
    function(1, AccumulatorFunc::Agg(AggFunc::Sum), vec![column(2)])
}

#[test]
fn sums_run_over_peers() {
    let w = window(
        vec![sum()],
        true,
        FrameMode::Range,
        FrameBoundary::UnboundedPreceding,
        FrameBoundary::CurrentRow,
    );
    let (rows, _) = run(&w, &ROWS);
    let got: Vec<Vec<i64>> = rows.iter().map(|r| ints(r)).collect();
    assert_eq!(
        got,
        [
            [1, 10, 1, 1],
            [1, 20, 2, 6],
            [1, 20, 3, 6],
            [1, 30, 4, 10],
            [2, 10, 5, 5],
            [2, 20, 6, 11],
        ]
    );
}

#[test]
fn sums_run_row_by_row() {
    let w = window(
        vec![
            sum(),
            function(2, AccumulatorFunc::Window(WindowFunc::RowNumber), vec![]),
        ],
        true,
        FrameMode::Rows,
        FrameBoundary::UnboundedPreceding,
        FrameBoundary::CurrentRow,
    );
    let (rows, most_buffered) = run(&w, &ROWS);
    let got: Vec<Vec<i64>> = rows.iter().map(|r| ints(r)).collect();
    assert_eq!(
        got,
        [
            [1, 10, 1, 1, 1],
            [1, 20, 2, 3, 2],
            [1, 20, 3, 6, 3],
            [1, 30, 4, 10, 4],
            [2, 10, 5, 5, 1],
            [2, 20, 6, 11, 2],
        ]
    );
    // Rows that were returned are dropped from the buffer.
    assert_eq!(most_buffered, 2);
}

#[test]
fn rows_are_counted_without_partitions() {
    let w = window(
        vec![function(
            2,
            AccumulatorFunc::Window(WindowFunc::RowNumber),
            vec![],
        )],
        false,
        FrameMode::Rows,
        FrameBoundary::UnboundedPreceding,
        FrameBoundary::CurrentRow,
    );
    let (rows, _) = run(&w, &ROWS);
    let got: Vec<i64> = rows.iter().map(|r| ints(r)[3]).collect();
    assert_eq!(got, [1, 2, 3, 4, 5, 6]);
    assert!(run(&w, &[]).0.is_empty());
}

#[test]
fn values_are_looked_up_in_the_frame() {
    let w = window(
        vec![
            function(
                3,
                AccumulatorFunc::Window(WindowFunc::FirstValue),
                vec![column(2)],
            ),
            function(
                4,
                AccumulatorFunc::Window(WindowFunc::NthValue),
                vec![column(2), column(0)],
            ),
            function(
                5,
                AccumulatorFunc::Window(WindowFunc::NthValue),
                vec![column(2), column(1)],
            ),
        ],
        true,
        FrameMode::Range,
        FrameBoundary::UnboundedPreceding,
        FrameBoundary::CurrentRow,
    );
    let rows = [[2, 1, 7], [2, 2, 8], [2, 2, 9], [2, 4, 5]];
    let (rows, _) = run(&w, &rows);
    let got: Vec<Vec<i64>> = rows.iter().map(|r| ints(&r[3..])).collect();
    // The second value is beyond the frame of the first row.
    assert_eq!(got, [[7, -1, 7], [7, 8, 8], [7, 8, 8], [7, 8, 5]]);
}

#[test]
fn neighbours_are_looked_up_in_the_partition() {
    let w = window(
        vec![
            function(6, AccumulatorFunc::Window(WindowFunc::Lag), vec![column(2)]),
            function(
                7,
                AccumulatorFunc::Window(WindowFunc::Lead),
                vec![column(2), column(0), column(1)],
            ),
        ],
        true,
        FrameMode::Rows,
        FrameBoundary::UnboundedPreceding,
        FrameBoundary::UnboundedFollowing,
    );
    let (rows, most_buffered) = run(&w, &ROWS);
    let got: Vec<Vec<i64>> = rows.iter().map(|r| ints(&r[3..])).collect();
    assert_eq!(
        got,
        [
            [-1, 2],
            [1, 3],
            [2, 4],
            [3, 30],
            [-1, 10],
            [5, 20],
        ]
    );
    // The whole partition stays in the buffer.
    assert_eq!(most_buffered, 4);
}

#[test]
fn frames_that_start_behind_the_row_let_rows_leave_first() {
    let w = window(
        vec![function(
            8,
            AccumulatorFunc::Window(WindowFunc::CumeDist),
            vec![],
        )],
        true,
        FrameMode::Groups,
        FrameBoundary::Following(Box::new(Expr::Literal(1))),
        FrameBoundary::UnboundedFollowing,
    );
    let (rows, _) = run(&w, &ROWS);
    let got: Vec<i64> = rows.iter().map(|r| ints(r)[3]).collect();
    assert_eq!(got, [25, 75, 75, 100, 50, 100]);
}

#[test]
fn nth_value_wants_a_positive_number() {
    let w = window(
        vec![function(
            4,
            AccumulatorFunc::Window(WindowFunc::NthValue),
            vec![column(2), column(0)],
        )],
        true,
        FrameMode::Range,
        FrameBoundary::UnboundedPreceding,
        FrameBoundary::CurrentRow,
    );
    let (rows, _, halted) = run_until_halt(&w, &[[0, 1, 7]]);
    assert!(rows.is_empty());
    assert_eq!(
        halted,
        Some("second argument to nth_value must be a positive integer")
    );
}

/// A column of the table that is queried: `a` to `f`.
fn field(name: char) -> Expr {
    Expr::Column {
        database: None,
        table: 1,
        column: name as usize - 'a' as usize,
        is_rowid_alias: false,
    }
}

/// A column of a subquery.
fn sub(table: u64, column: usize) -> Expr {
    Expr::Column {
        database: Some(0),
        table,
        column,
        is_rowid_alias: false,
    }
}

const MAX: u64 = 70;
const MIN: u64 = 71;
const PLUS: u64 = 80;

fn plus_one(e: Expr) -> Expr {
    Expr::Node {
        op: PLUS,
        operands: ExprList::from_vec(vec![e, Expr::Literal(1)]),
    }
}

fn over(name: u64, arg: Expr, over_clause: Over) -> Expr {
    Expr::FunctionCall {
        name,
        kind: CallKind::Aggregate,
        star: false,
        args: ExprList::from_vec(vec![arg]),
        order_by: ExprList::Nil,
        within_group: ExprList::Nil,
        filter_clause: None,
        over_clause,
    }
}

fn asc(expr: Expr) -> OrderTerm {
    OrderTerm {
        expr,
        order: SortOrder::Asc,
        nulls: None,
    }
}

fn inline_window(partition: Expr, order: Expr, calls: Vec<Expr>) -> Window {
    Window {
        name: None,
        partition_by: vec![partition],
        deduplicated_partition_by_len: None,
        order_by: vec![asc(order)],
        frame: Frame {
            mode: FrameMode::Range,
            start: FrameBoundary::UnboundedPreceding,
            end: FrameBoundary::CurrentRow,
        },
        functions: calls
            .into_iter()
            .map(|original_expr| WindowFunction {
                func: AccumulatorFunc::Agg(AggFunc::Max),
                original_expr,
                rewritten: None,
            })
            .collect(),
    }
}

fn select(columns: Vec<Expr>, order_by: Vec<Expr>) -> SelectPlan {
    SelectPlan {
        source: Source::Tables(3),
        where_clause: Some(4),
        group_by: None,
        result_columns: columns
            .into_iter()
            .map(|expr| ResultSetColumn {
                expr,
                contains_aggregates: false,
            })
            .collect(),
        order_by: order_by.into_iter().map(asc).collect(),
        aggregates: vec![],
        limit: Some(5),
        offset: Some(6),
        distinct: true,
        has_values: false,
        window: None,
        plans_subqueries: false,
    }
}

fn assert_columns(plan: &SelectPlan, expected: &[Expr]) {
    assert_eq!(plan.result_columns.len(), expected.len());
    for (column, expected) in plan.result_columns.iter().zip(expected) {
        assert!(exprs_are_equivalent(&column.expr, expected));
    }
}

fn assert_order(plan: &SelectPlan, expected: &[Expr]) {
    assert_eq!(plan.order_by.len(), expected.len());
    for (term, expected) in plan.order_by.iter().zip(expected) {
        assert!(exprs_are_equivalent(&term.expr, expected));
    }
}

fn subquery(plan: SelectPlan, id: u64, depth: usize) -> SelectPlan {
    match plan.source {
        Source::WindowSubquery {
            id: got,
            depth: got_depth,
            plan,
        } => {
            assert_eq!((got, got_depth), (id, depth));
            *plan
        }
        Source::Tables(_) => panic!("expected a subquery"),
    }
}

#[test]
fn one_window_becomes_one_subquery() {
    // SELECT a+1, max(b) OVER (PARTITION BY c ORDER BY d),
    //        min(c) OVER (PARTITION BY c ORDER BY d) FROM t1 ORDER BY e
    let max = over(MAX, field('b'), Over::Inline(1));
    let min = over(MIN, field('c'), Over::Inline(1));
    let plan = select(
        vec![plus_one(field('a')), max.copy(), min.copy()],
        vec![field('e')],
    );
    let window = inline_window(field('c'), field('d'), vec![max, min]);
    let outer = plan_windows(plan, vec![window], 50);
    let name = Over::Name(WindowName::Numbered(0));
    assert_columns(
        &outer,
        &[
            plus_one(sub(50, 2)),
            over(MAX, sub(50, 3), name),
            over(MIN, sub(50, 0), name),
        ],
    );
    assert_order(&outer, &[sub(50, 4)]);
    assert_eq!((outer.limit, outer.offset, outer.distinct), (Some(5), Some(6), true));
    assert_eq!(outer.where_clause, None);
    {
        let window = outer.window.as_ref().unwrap();
        assert_eq!(window.name, Some(WindowName::Numbered(0)));
        assert_eq!(window.deduplicated_partition_by_len, Some(1));
        assert!(exprs_are_equivalent(&window.partition_by[0], &sub(50, 0)));
        assert!(exprs_are_equivalent(&window.order_by[0].expr, &sub(50, 1)));
        assert!(exprs_are_equivalent(
            window.functions[1].current_expr(),
            &over(MIN, sub(50, 0), name)
        ));
    }
    let inner = subquery(outer, 50, 0);
    assert_columns(
        &inner,
        &[field('c'), field('d'), field('a'), field('b'), field('e')],
    );
    assert_order(&inner, &[field('c'), field('d')]);
    assert_eq!((inner.limit, inner.offset, inner.distinct), (None, None, false));
    assert_eq!(inner.where_clause, Some(4));
    assert!(inner.window.is_none());
    assert!(matches!(inner.source, Source::Tables(3)));
}

#[test]
fn the_first_window_is_the_outermost() {
    // SELECT a, max(b) OVER (PARTITION BY c ORDER BY d),
    //        min(c) OVER (PARTITION BY e ORDER BY f) FROM t1
    let max = over(MAX, field('b'), Over::Inline(1));
    let min = over(MIN, field('c'), Over::Inline(2));
    let plan = select(vec![field('a'), max.copy(), min.copy()], vec![]);
    let windows = vec![
        inline_window(field('c'), field('d'), vec![max]),
        inline_window(field('e'), field('f'), vec![min.copy()]),
        // No function refers to this one.
        inline_window(field('a'), field('a'), vec![]),
    ];
    let outer = plan_windows(plan, windows, 50);
    let first = Over::Name(WindowName::Numbered(0));
    let second = Over::Name(WindowName::Numbered(1));
    assert_columns(&outer, &[sub(50, 2), over(MAX, sub(50, 3), first), sub(50, 4)]);
    let middle = subquery(outer, 50, 0);
    assert_columns(
        &middle,
        &[
            sub(51, 2),
            sub(51, 3),
            sub(51, 4),
            sub(51, 5),
            over(MIN, sub(51, 2), second),
        ],
    );
    assert_order(&middle, &[sub(51, 2), sub(51, 3)]);
    assert_eq!(middle.window.as_ref().unwrap().functions.len(), 1);
    assert_eq!((middle.limit, middle.where_clause), (None, None));
    let inner = subquery(middle, 51, 1);
    assert_columns(
        &inner,
        &[
            field('e'),
            field('f'),
            field('c'),
            field('d'),
            field('a'),
            field('b'),
        ],
    );
    assert_order(&inner, &[field('e'), field('f')]);
    assert_eq!(inner.where_clause, Some(4));
    assert!(matches!(inner.source, Source::Tables(3)));
}

#[test]
fn equal_terms_order_a_subquery_once() {
    let max = over(MAX, field('b'), Over::Inline(1));
    let plan = select(vec![max.copy()], vec![]);
    let window = inline_window(field('a'), field('a'), vec![max]);
    let inner = subquery(plan_windows(plan, vec![window], 50), 50, 0);
    assert_order(&inner, &[field('a')]);
    assert_columns(&inner, &[field('a'), field('b')]);
}

#[test]
fn a_subquery_has_at_least_one_column() {
    // SELECT count() OVER () FROM t1
    let count = Expr::FunctionCall {
        name: 72,
        kind: CallKind::Aggregate,
        star: true,
        args: ExprList::Nil,
        order_by: ExprList::Nil,
        within_group: ExprList::Nil,
        filter_clause: None,
        over_clause: Over::Inline(1),
    };
    let mut window = inline_window(field('a'), field('a'), vec![count.copy()]);
    window.partition_by = vec![];
    window.order_by = vec![];
    let outer = plan_windows(select(vec![count], vec![]), vec![window], 50);
    assert_eq!(outer.window.as_ref().unwrap().deduplicated_partition_by_len, None);
    let inner = subquery(outer, 50, 0);
    assert_columns(&inner, &[Expr::Literal(0)]);
}

#[test]
fn random_arguments_are_computed_one_by_one() {
    // SELECT max(random()) OVER (ORDER BY a), min(random()) OVER (ORDER BY a)
    let random = || Expr::FunctionCall {
        name: 73,
        kind: CallKind::Nondeterministic,
        star: false,
        args: ExprList::Nil,
        order_by: ExprList::Nil,
        within_group: ExprList::Nil,
        filter_clause: None,
        over_clause: Over::Absent,
    };
    let max = over(MAX, random(), Over::Inline(1));
    let min = over(MIN, random(), Over::Inline(1));
    let mut window = inline_window(field('a'), field('a'), vec![max.copy(), min.copy()]);
    window.partition_by = vec![];
    let outer = plan_windows(select(vec![max, min], vec![]), vec![window], 50);
    let name = Over::Name(WindowName::Numbered(0));
    assert_columns(
        &outer,
        &[over(MAX, sub(50, 1), name), over(MIN, sub(50, 2), name)],
    );
    assert_columns(&subquery(outer, 50, 0), &[field('a'), random(), random()]);
}

#[test]
fn generated_names_have_depths() {
    assert_ne!(generated_window_name(1), generated_window_name(2));
    assert_ne!(window_subquery_name(1), window_subquery_name(2));
    assert_eq!(buffer_table_name("w"), "buffer_table_w");
}

#[test]
fn remarks_stand_before_what_they_explain() {
    let w = window(
        vec![sum()],
        true,
        FrameMode::Range,
        FrameBoundary::UnboundedPreceding,
        FrameBoundary::CurrentRow,
    );
    let program = emit(&w).program;
    let remarks: Vec<&str> = program.comments.iter().map(|c| c.1.detail()).collect();
    assert_eq!(
        remarks,
        [
            "compare partition keys to detect new partition",
            "detected new partition",
            "initialize per-cursor peer-reference registers for new partition",
            "reset accumulator registers",
            "compare ORDER BY columns to detect peer",
            "return remaining buffered rows",
        ]
    );
    for (at, comment) in &program.comments {
        let item = &program.items[*at];
        let explained = match comment {
            Comment::ComparePartitionKeys | Comment::DetectPeer => {
                matches!(item, Item::Op(Insn::Compare { .. }))
            }
            Comment::NewPartition => matches!(item, Item::Op(Insn::Gosub { .. })),
            Comment::SeedPeers => matches!(item, Item::Op(Insn::Copy { .. })),
            Comment::ResetAccumulators | Comment::ReturnRemaining => {
                matches!(item, Item::Op(Insn::Null { .. }))
            }
        };
        assert!(explained, "{comment:?}");
    }
    // Rows are no peers of each other under ROWS.
    let w = window(
        vec![sum()],
        false,
        FrameMode::Rows,
        FrameBoundary::UnboundedPreceding,
        FrameBoundary::CurrentRow,
    );
    let remarks = emit(&w).program.comments;
    assert!(remarks.iter().all(|c| c.1 != Comment::DetectPeer));
    assert!(remarks.iter().all(|c| c.1 != Comment::NewPartition));
}

fn lag(arg: Expr, over_clause: Over) -> Expr {
    Expr::FunctionCall {
        name: 74,
        kind: CallKind::WindowOnly,
        star: false,
        args: ExprList::from_vec(vec![arg]),
        order_by: ExprList::Nil,
        within_group: ExprList::Nil,
        filter_clause: None,
        over_clause,
    }
}

fn lag_window(calls: usize) -> Window {
    let call = lag(plus_one(field('b')), Over::Inline(1));
    let calls = (0..calls).map(|_| call.copy()).collect();
    let mut window = inline_window(field('c'), field('d'), calls);
    for f in &mut window.functions {
        f.func = AccumulatorFunc::Window(WindowFunc::Lag);
    }
    window
}

#[test]
fn planned_windows_read_their_subquery() {
    // SELECT lag(b+1) OVER w FROM t1 ORDER BY lag(b+1) OVER w
    let call = lag(plus_one(field('b')), Over::Inline(1));
    let plan = select(vec![call.copy()], vec![call]);
    let outer = plan_windows(plan, vec![lag_window(2)], 50);
    let name = Over::Name(WindowName::Numbered(0));
    let window = outer.window.as_ref().unwrap();
    for f in &window.functions {
        assert!(exprs_are_equivalent(f.current_expr(), &lag(sub(50, 2), name)));
    }
    assert!(exprs_are_equivalent(&window.order_by[0].expr, &sub(50, 1)));
    assert_eq!(window.deduplicated_partition_by_len, Some(1));
    assert_eq!(subquery(outer, 50, 0).result_columns.len(), 3);
}

#[test]
fn calls_that_the_query_does_not_hold_stay_as_they_are() {
    let call = lag(plus_one(field('b')), Over::Inline(1));
    let plan = select(vec![call.copy()], vec![]);
    let outer = plan_windows(plan, vec![lag_window(2)], 50);
    let window = outer.window.as_ref().unwrap();
    assert!(window.functions[0].rewritten.is_some());
    assert!(window.functions[1].rewritten.is_none());
    assert!(exprs_are_equivalent(window.functions[1].current_expr(), &call));
}

#[test]
fn groups_are_read_from_the_subquery_in_ordinary_calls_only() {
    let grouped = |kind: CallKind, inside: Expr, over_clause: Over| Expr::FunctionCall {
        name: 75,
        kind,
        star: false,
        args: ExprList::Nil,
        order_by: ExprList::Nil,
        within_group: ExprList::from_vec(vec![inside]),
        filter_clause: None,
        over_clause,
    };
    let plain = grouped(CallKind::Deterministic, field('a'), Over::Absent);
    let call = grouped(CallKind::Aggregate, field('b'), Over::Inline(1));
    assert!(!exprs_are_equivalent(
        &plain,
        &grouped(CallKind::Deterministic, field('b'), Over::Absent)
    ));
    let plan = select(vec![plain, call.copy()], vec![]);
    let window = inline_window(field('c'), field('d'), vec![call]);
    let outer = plan_windows(plan, vec![window], 50);
    let name = Over::Name(WindowName::Numbered(0));
    assert_columns(
        &outer,
        &[
            grouped(CallKind::Deterministic, sub(50, 2), Over::Absent),
            grouped(CallKind::Aggregate, field('b'), name),
        ],
    );
    assert_columns(
        &subquery(outer, 50, 0),
        &[field('c'), field('d'), field('a')],
    );
}
