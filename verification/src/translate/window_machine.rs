//! The machine that executes the code of windows, as far as that code goes.
//!
//! Rows of the current partition stand in a buffer under their numbers, and
//! cursors stand at rows of the buffer. The state of a function is the history
//! of the rows that entered its frame and how many have left it.

use vstd::prelude::*;
use crate::function::{AccumulatorFunc, WindowFunc};
use crate::translate::expr::Expr;
use crate::translate::machine::Effect;
use crate::translate::program::{Fragment, HaltReason, Insn, Item, Label};

verus! {

/// What a register holds.
pub enum Cell {
    Null,
    Int(int),
    /// Any other value, by its number.
    Other(int),
    Record(Seq<Cell>),
    /// The state of a function: what its arguments were for each row that
    /// entered the frame, and how many rows have left it.
    State { func: AccumulatorFunc, entered: Seq<Seq<Cell>>, left: nat },
    /// The value of a function with a state.
    Value { func: AccumulatorFunc, entered: Seq<Seq<Cell>>, left: nat },
    /// The value of an expression.
    Computed(Expr),
}

/// The machine.
pub struct Machine {
    pub regs: Map<usize, Cell>,
    /// The buffer: rows by their numbers.
    pub rows: Map<int, Seq<Cell>>,
    /// The number that the next row gets, less one.
    pub last: int,
    /// Where cursors stand.
    pub at: Map<usize, int>,
    /// How the last comparison came out: negative, zero or positive.
    pub compared: int,
    pub stopped: Option<HaltReason>,
    /// The subroutines that were called, each with the registers at that time.
    /// A call changes nothing that the code around it uses.
    pub calls: Seq<(Label, Map<usize, Cell>)>,
}

/// The registers with values written side by side.
pub open spec fn put(regs: Map<usize, Cell>, start: int, values: Seq<Cell>) -> Map<usize, Cell>
    decreases values.len(),
{
    if values.len() == 0 {
        regs
    } else {
        put(regs, start, values.drop_last()).insert(
            (start + values.len() - 1) as usize,
            values.last(),
        )
    }
}

/// The values of `count` registers side by side.
pub open spec fn get(regs: Map<usize, Cell>, start: int, count: nat) -> Seq<Cell> {
    Seq::new(count, |i: int| regs[(start + i) as usize])
}

/// Values that were written side by side stand where they were written, and
/// other registers keep theirs.
pub proof fn put_reads(regs: Map<usize, Cell>, start: int, values: Seq<Cell>)
    requires
        0 <= start,
        start + values.len() <= u32::MAX + 1,
    ensures
        forall|r: usize| #[trigger]
            put(regs, start, values)[r] == if start <= r < start + values.len() {
                values[r - start]
            } else {
                regs[r]
            },
    decreases values.len(),
{
    if values.len() > 0 {
        let before = values.drop_last();
        put_reads(regs, start, before);
        let last = (start + values.len() - 1) as usize;
        assert forall|r: usize| #[trigger]
            put(regs, start, values)[r] == if start <= r < start + values.len() {
                values[r - start]
            } else {
                regs[r]
            } by {
            assert(put(regs, start, values) == put(regs, start, before).insert(
                last,
                values.last(),
            ));
            if r != last {
                assert(put(regs, start, values)[r] == put(regs, start, before)[r]);
            }
        }
    }
}

/// A value of the row that a cursor stands at.
pub open spec fn column(s: Machine, cursor: usize, column: usize) -> Cell {
    s.rows[s.at[cursor]][column as int]
}

/// The sum of two values; what is no number counts as NULL.
pub open spec fn plus(a: Cell, b: Cell) -> Cell {
    match (a, b) {
        (Cell::Int(a), Cell::Int(b)) => Cell::Int(a + b),
        _ => Cell::Null,
    }
}

/// The difference of two values; what is no number counts as NULL.
pub open spec fn minus(a: Cell, b: Cell) -> Cell {
    match (a, b) {
        (Cell::Int(a), Cell::Int(b)) => Cell::Int(a - b),
        _ => Cell::Null,
    }
}

/// Whether a value is a number that is greater than another.
pub open spec fn exceeds(a: Cell, b: Cell) -> bool {
    match (a, b) {
        (Cell::Int(a), Cell::Int(b)) => a > b,
        _ => false,
    }
}

/// The state of a function behind one more row.
pub open spec fn entered(func: AccumulatorFunc, state: Cell, args: Seq<Cell>) -> Cell {
    match state {
        Cell::State { entered, left, .. } => Cell::State {
            func,
            entered: entered.push(args),
            left,
        },
        _ => Cell::State { func, entered: seq![args], left: 0 },
    }
}

/// The state of a function behind one row less.
pub open spec fn departed(func: AccumulatorFunc, state: Cell) -> Cell {
    match state {
        Cell::State { entered, left, .. } => Cell::State { func, entered, left: left + 1 },
        _ => Cell::State { func, entered: Seq::empty(), left: 1 },
    }
}

/// The value of a function in a state.
pub open spec fn value_of(func: AccumulatorFunc, state: Cell) -> Cell {
    match state {
        Cell::State { entered, left, .. } => Cell::Value { func, entered, left },
        _ => Cell::Value { func, entered: Seq::empty(), left: 0 },
    }
}

/// The number of the first row behind `at`, where there is one.
pub open spec fn is_next(rows: Map<int, Seq<Cell>>, at: int, next: int) -> bool {
    &&& rows.contains_key(next)
    &&& at < next
    &&& forall|k: int| at < k < next ==> !#[trigger] rows.contains_key(k)
}

pub open spec fn has_next(rows: Map<int, Seq<Cell>>, at: int) -> bool {
    exists|next: int| is_next(rows, at, next)
}

pub open spec fn next_row(rows: Map<int, Seq<Cell>>, at: int) -> int {
    choose|next: int| is_next(rows, at, next)
}

/// The machine with a value in a register.
pub open spec fn set(s: Machine, reg: usize, value: Cell) -> Machine {
    Machine { regs: s.regs.insert(reg, value), ..s }
}

/// What an instruction does.
pub open spec fn insn_effect(insn: Insn, s: Machine) -> Effect<Machine> {
    match insn {
        Insn::Null { dest, dest_end } => match dest_end {
            None => Effect::Next(set(s, dest, Cell::Null)),
            Some(end) => Effect::Next(
                Machine {
                    regs: put(
                        s.regs,
                        dest as int,
                        Seq::new((end - dest + 1) as nat, |i: int| Cell::Null),
                    ),
                    ..s
                },
            ),
        },
        Insn::NotNull { reg, target_pc } => if s.regs[reg] is Null {
            Effect::Next(s)
        } else {
            Effect::Jump(target_pc, s)
        },
        Insn::Integer { value, dest } => Effect::Next(set(s, dest, Cell::Int(value as int))),
        Insn::Copy { src_reg, dst_reg, extra_amount } => Effect::Next(
            Machine {
                regs: put(
                    s.regs,
                    dst_reg as int,
                    get(s.regs, src_reg as int, (extra_amount + 1) as nat),
                ),
                ..s
            },
        ),
        Insn::Rewind { cursor_id, pc_if_empty } => if has_next(s.rows, 0) {
            Effect::Next(Machine { at: s.at.insert(cursor_id, next_row(s.rows, 0)), ..s })
        } else {
            Effect::Jump(pc_if_empty, s)
        },
        Insn::Next { cursor_id, pc_if_next } => if has_next(s.rows, s.at[cursor_id]) {
            Effect::Jump(
                pc_if_next,
                Machine {
                    at: s.at.insert(cursor_id, next_row(s.rows, s.at[cursor_id])),
                    ..s
                },
            )
        } else {
            Effect::Next(s)
        },
        Insn::Goto { target_pc } => Effect::Jump(target_pc, s),
        Insn::Gt { lhs, rhs, target_pc } => if exceeds(s.regs[lhs], s.regs[rhs]) {
            Effect::Jump(target_pc, s)
        } else {
            Effect::Next(s)
        },
        Insn::Compare { start_reg_a, start_reg_b, count, .. } => Effect::Next(
            Machine {
                compared: if get(s.regs, start_reg_a as int, count as nat) == get(
                    s.regs,
                    start_reg_b as int,
                    count as nat,
                ) {
                    0
                } else {
                    1
                },
                ..s
            },
        ),
        Insn::Jump { target_pc_lt, target_pc_eq, target_pc_gt } => if s.compared < 0 {
            Effect::Jump(target_pc_lt, s)
        } else if s.compared == 0 {
            Effect::Jump(target_pc_eq, s)
        } else {
            Effect::Jump(target_pc_gt, s)
        },
        Insn::IfPos { reg, target_pc, decrement_by } => match s.regs[reg] {
            Cell::Int(n) => if n > 0 {
                Effect::Jump(target_pc, set(s, reg, Cell::Int(n - decrement_by)))
            } else {
                Effect::Next(s)
            },
            _ => Effect::Next(s),
        },
        Insn::IfNot { reg, target_pc, jump_if_null } => match s.regs[reg] {
            Cell::Int(n) => if n == 0 {
                Effect::Jump(target_pc, s)
            } else {
                Effect::Next(s)
            },
            Cell::Null => if jump_if_null {
                Effect::Jump(target_pc, s)
            } else {
                Effect::Next(s)
            },
            _ => Effect::Next(s),
        },
        Insn::MustBeInt { reg, target_pc } => if s.regs[reg] is Int {
            Effect::Next(s)
        } else {
            match target_pc {
                Some(target) => Effect::Jump(target, s),
                None => Effect::Stop(s),
            }
        },
        Insn::Halt { reason, .. } => Effect::Stop(Machine { stopped: Some(reason), ..s }),
        Insn::MakeRecord { start_reg, count, dest_reg } => Effect::Next(
            set(
                s,
                dest_reg as usize,
                Cell::Record(get(s.regs, start_reg as int, count as nat)),
            ),
        ),
        Insn::NewRowid { rowid_reg, .. } => Effect::Next(
            Machine { last: s.last + 1, ..set(s, rowid_reg, Cell::Int(s.last + 1)) },
        ),
        Insn::Insert { key_reg, record_reg, .. } => match (s.regs[key_reg], s.regs[record_reg]) {
            (Cell::Int(n), Cell::Record(row)) => Effect::Next(
                Machine { rows: s.rows.insert(n, row), ..s },
            ),
            _ => Effect::Stop(s),
        },
        Insn::Delete { cursor_id, .. } => Effect::Next(
            Machine { rows: s.rows.remove(s.at[cursor_id]), ..s },
        ),
        Insn::RowId { cursor_id, dest } => Effect::Next(
            set(s, dest, Cell::Int(s.at[cursor_id])),
        ),
        Insn::SeekRowid { cursor_id, src_reg, target_pc } => match s.regs[src_reg] {
            Cell::Int(n) => if s.rows.contains_key(n) {
                Effect::Next(Machine { at: s.at.insert(cursor_id, n), ..s })
            } else {
                Effect::Jump(target_pc, s)
            },
            _ => Effect::Jump(target_pc, s),
        },
        Insn::Column { cursor_id, column: c, dest } => Effect::Next(
            set(s, dest, column(s, cursor_id, c)),
        ),
        Insn::ResetSorter { .. } => Effect::Next(Machine { rows: Map::empty(), last: 0, ..s }),
        Insn::AddImm { register, value } => Effect::Next(
            set(s, register, plus(s.regs[register], Cell::Int(value as int))),
        ),
        Insn::Add { lhs, rhs, dest } => Effect::Next(
            set(s, dest, plus(s.regs[lhs], s.regs[rhs])),
        ),
        Insn::Subtract { lhs, rhs, dest } => Effect::Next(
            set(s, dest, minus(s.regs[lhs], s.regs[rhs])),
        ),
        Insn::AggStep { acc_reg, col, func, .. } => Effect::Next(
            set(
                s,
                acc_reg,
                entered(func, s.regs[acc_reg], get(s.regs, col as int, args_of(func))),
            ),
        ),
        Insn::AggInverse { acc_reg, func, .. } => Effect::Next(
            set(s, acc_reg, departed(func, s.regs[acc_reg])),
        ),
        Insn::Gosub { target_pc, .. } => Effect::Next(
            Machine { calls: s.calls.push((target_pc, s.regs)), ..s },
        ),
        Insn::AggValue { acc_reg, dest_reg, func } => Effect::Next(
            set(s, dest_reg, value_of(func, s.regs[acc_reg])),
        ),
        _ => Effect::Next(s),
    }
}

/// How many arguments a function of windows reads in a step: last_value and
/// ntile read one, those that count rows read none.
pub open spec fn args_of(func: AccumulatorFunc) -> nat {
    if func == AccumulatorFunc::Window(WindowFunc::Ntile) || func == AccumulatorFunc::Window(
        WindowFunc::LastValue,
    ) {
        1
    } else {
        0
    }
}

/// What a fragment does: values go where they are wanted, and aggregates step by
/// the arguments that have been loaded.
pub open spec fn fragment_effect(fragment: Fragment, s: Machine) -> Effect<Machine> {
    match fragment {
        Fragment::AggregationStep { func, args, acc_reg, loaded_at } => Effect::Next(
            set(
                s,
                acc_reg,
                entered(
                    AccumulatorFunc::Agg(func),
                    s.regs[acc_reg],
                    match loaded_at {
                        Some(base) => get(s.regs, base as int, args.items().len()),
                        None => Seq::empty(),
                    },
                ),
            ),
        ),
        Fragment::ColumnOrRowId { cursor_id, column: c, dest } => Effect::Next(
            set(s, dest, column(s, cursor_id, c)),
        ),
        Fragment::ExprEachTime { expr, dest } => Effect::Next(
            set(s, dest, Cell::Computed(*expr)),
        ),
        _ => Effect::Next(s),
    }
}

/// What an item does.
pub open spec fn effect(item: Item, s: Machine) -> Effect<Machine> {
    match item {
        Item::Op(insn) => insn_effect(insn, s),
        Item::Bind(_) => Effect::Next(s),
        Item::Fragment(fragment) => fragment_effect(fragment, s),
    }
}

/// What items do, as a function.
pub open spec fn effects() -> spec_fn(Item, Machine) -> Effect<Machine> {
    |item: Item, s: Machine| effect(item, s)
}

} // verus!
