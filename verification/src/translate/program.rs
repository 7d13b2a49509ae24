//! Programs of the virtual machine while they are being written.
//!
//! A program is a row of items: instructions, places that a label stands for,
//! and fragments, that is, code which another part of the compiler writes in
//! that place. Fragments use registers, labels and cursors that the program
//! has not given out.

use vstd::prelude::*;
use crate::function::{AccumulatorFunc, AggFunc};
use crate::translate::expr::{Expr, ExprList, TableId, WindowName};
use crate::translate::window_init::ResultSetColumn;

verus! {

/// A place in the program that may not be written yet.
#[derive(Clone, Copy, Debug, PartialEq, Eq, Structural)]
pub struct Label(pub usize);

#[derive(Clone, Copy, Debug, PartialEq, Eq, Structural)]
pub enum SortOrder {
    Asc,
    Desc,
}

#[derive(Clone, Copy, Debug, PartialEq, Eq, Structural)]
pub enum NullsOrder {
    First,
    Last,
}

/// How text is compared.
#[derive(Clone, Copy, Debug, PartialEq, Eq, Structural)]
pub enum CollationSeq {
    Binary,
    NoCase,
    Rtrim,
}

/// How one column of a key is compared.
#[derive(Clone, Copy, Debug, PartialEq, Eq, Structural)]
pub struct KeyInfo {
    pub sort_order: SortOrder,
    pub collation: CollationSeq,
    pub nulls_order: Option<NullsOrder>,
}

/// How the columns of a key are compared, from the first one on.
pub enum KeyList {
    End,
    Key(KeyInfo, Box<KeyList>),
}

impl KeyList {
    pub open spec fn keys(self) -> Seq<KeyInfo>
        decreases self,
    {
        match self {
            KeyList::End => Seq::empty(),
            KeyList::Key(key, rest) => seq![key] + rest.keys(),
        }
    }
}

/// The list of the keys.
pub open spec fn key_list(keys: Seq<KeyInfo>) -> KeyList
    decreases keys.len(),
{
    if keys.len() == 0 {
        KeyList::End
    } else {
        KeyList::Key(keys[0], Box::new(key_list(keys.skip(1))))
    }
}

/// The list holds the keys that it was made of.
pub(crate) proof fn key_list_keys(keys: Seq<KeyInfo>)
    ensures
        key_list(keys).keys() == keys,
    decreases keys.len(),
{
    if keys.len() > 0 {
        key_list_keys(keys.skip(1));
        assert(seq![keys[0]] + keys.skip(1) =~= keys);
    }
}

/// Makes a list of keys.
pub fn make_key_list(keys: &Vec<KeyInfo>) -> (r: KeyList)
    ensures
        r == key_list(keys@),
{
    let mut r = KeyList::End;
    let mut i: usize = keys.len();
    assert(keys@.skip(i as int) =~= Seq::<KeyInfo>::empty());
    while i > 0
        invariant
            i <= keys@.len(),
            r == key_list(keys@.skip(i as int)),
        decreases i,
    {
        i = i - 1;
        r = KeyList::Key(keys[i], Box::new(r));
        assert(keys@.skip(i as int).skip(1) =~= keys@.skip(i + 1));
    }
    assert(keys@.skip(0) =~= keys@);
    r
}

/// The code of an error that has no code of its own.
pub const SQLITE_ERROR: usize = 1;

/// Why a program stops with an error.
#[derive(Clone, Copy, Debug, PartialEq, Eq, Structural)]
pub enum HaltReason {
    NthValueArgument,
    MissingFrameRow,
}

impl HaltReason {
    /// The text of the error.
    pub open spec fn text(self) -> Seq<char> {
        match self {
            HaltReason::NthValueArgument => "second argument to nth_value must be a positive integer"@,
            HaltReason::MissingFrameRow => "first_value/nth_value could not find a saved row within its frame"@,
        }
    }

    pub fn description(&self) -> (s: &'static str)
        ensures
            s@ == self.text(),
    {
        match self {
            HaltReason::NthValueArgument => "second argument to nth_value must be a positive integer",
            HaltReason::MissingFrameRow => "first_value/nth_value could not find a saved row within its frame",
        }
    }
}

/// An instruction.
#[allow(inconsistent_fields)]
pub enum Insn {
    OpenEphemeral { cursor_id: usize, is_table: bool },
    OpenDup { original_cursor_id: usize, new_cursor_id: usize },
    OpenPseudo { cursor_id: usize, content_reg: usize, num_fields: usize },
    Close { cursor_id: usize },
    Null { dest: usize, dest_end: Option<usize> },
    NotNull { reg: usize, target_pc: Label },
    Integer { value: i64, dest: usize },
    Copy { src_reg: usize, dst_reg: usize, extra_amount: usize },
    Rewind { cursor_id: usize, pc_if_empty: Label },
    Next { cursor_id: usize, pc_if_next: Label },
    Goto { target_pc: Label },
    Gosub { target_pc: Label, return_reg: usize },
    Return { return_reg: usize, can_fallthrough: bool },
    Compare { start_reg_a: usize, start_reg_b: usize, count: usize, key_info: KeyList },
    Jump { target_pc_lt: Label, target_pc_eq: Label, target_pc_gt: Label },
    Gt { lhs: usize, rhs: usize, target_pc: Label },
    IfPos { reg: usize, target_pc: Label, decrement_by: usize },
    IfNot { reg: usize, target_pc: Label, jump_if_null: bool },
    DecrJumpZero { reg: usize, target_pc: Label },
    MustBeInt { reg: usize, target_pc: Option<Label> },
    Halt { err_code: usize, reason: HaltReason },
    MakeRecord { start_reg: u32, count: u32, dest_reg: u32 },
    NewRowid { cursor: usize, rowid_reg: usize, prev_largest_reg: usize },
    Insert {
        cursor: usize,
        key_reg: usize,
        record_reg: usize,
        require_seek: bool,
        buffer_of: WindowName,
    },
    Delete { cursor_id: usize, buffer_of: WindowName, is_part_of_update: bool },
    IdxDelete {
        start_reg: usize,
        num_regs: usize,
        cursor_id: usize,
        raise_error_if_no_matching_entry: bool,
    },
    RowId { cursor_id: usize, dest: usize },
    SeekRowid { cursor_id: usize, src_reg: usize, target_pc: Label },
    Column { cursor_id: usize, column: usize, dest: usize },
    ResetSorter { cursor_id: usize },
    AddImm { register: usize, value: i64 },
    Add { lhs: usize, rhs: usize, dest: usize },
    Subtract { lhs: usize, rhs: usize, dest: usize },
    AggStep { acc_reg: usize, col: usize, delimiter: usize, func: AccumulatorFunc },
    AggInverse { acc_reg: usize, col: usize, delimiter: usize, func: AccumulatorFunc },
    AggValue { acc_reg: usize, dest_reg: usize, func: AccumulatorFunc },
}

/// A step that EXPLAIN QUERY PLAN shows.
#[derive(Clone, Copy, Debug, PartialEq, Eq, Structural)]
pub enum ExplainStep {
    Setup,
    RecursiveStep,
}

impl ExplainStep {
    /// How the step is shown.
    pub open spec fn text(self) -> Seq<char> {
        match self {
            ExplainStep::Setup => "SETUP"@,
            ExplainStep::RecursiveStep => "RECURSIVE STEP"@,
        }
    }

    pub fn detail(&self) -> (s: &'static str)
        ensures
            s@ == self.text(),
    {
        match self {
            ExplainStep::Setup => "SETUP",
            ExplainStep::RecursiveStep => "RECURSIVE STEP",
        }
    }
}

/// A remark on the instructions that follow, which EXPLAIN shows.
#[derive(Clone, Copy, Debug, PartialEq, Eq, Structural)]
pub enum Comment {
    SeedPeers,
    ResetAccumulators,
    DetectPeer,
    ComparePartitionKeys,
    NewPartition,
    ReturnRemaining,
}

impl Comment {
    /// How the remark is shown.
    pub open spec fn text(self) -> Seq<char> {
        match self {
            Comment::SeedPeers =>
                "initialize per-cursor peer-reference registers for new partition"@,
            Comment::ResetAccumulators => "reset accumulator registers"@,
            Comment::DetectPeer => "compare ORDER BY columns to detect peer"@,
            Comment::ComparePartitionKeys => "compare partition keys to detect new partition"@,
            Comment::NewPartition => "detected new partition"@,
            Comment::ReturnRemaining => "return remaining buffered rows"@,
        }
    }

    pub fn detail(&self) -> (s: &'static str)
        ensures
            s@ == self.text(),
    {
        match self {
            Comment::SeedPeers =>
                "initialize per-cursor peer-reference registers for new partition",
            Comment::ResetAccumulators => "reset accumulator registers",
            Comment::DetectPeer => "compare ORDER BY columns to detect peer",
            Comment::ComparePartitionKeys => "compare partition keys to detect new partition",
            Comment::NewPartition => "detected new partition",
            Comment::ReturnRemaining => "return remaining buffered rows",
        }
    }
}

/// Code that another part of the compiler writes.
pub enum Fragment {
    /// The value of an expression.
    Expr { expr: Box<Expr>, dest: usize },
    /// The value of an expression at this place in the program, even if it is
    /// constant: its register is written again and again.
    ExprEachTime { expr: Box<Expr>, dest: usize },
    /// One step of an aggregate. Arguments that are columns have been loaded
    /// into the registers from `loaded_at` on.
    AggregationStep { func: AggFunc, args: ExprList, acc_reg: usize, loaded_at: Option<usize> },
    /// A column of the row at a cursor, or its row number where the column is
    /// an alias of it.
    ColumnOrRowId { cursor_id: usize, column: usize, dest: usize },
    /// A row of the result, with the query's limit and offset: to `end` when
    /// the limit is reached, to `skip` for a row that is not returned.
    SelectResult { end: Label, skip: Label },
    /// A row for the sorter of the query's ORDER BY.
    SorterInsert,
    /// The start of LIMIT and OFFSET: their values, and the jump to `end` when
    /// nothing is wanted.
    InitLimit { end: Label, limit_reg: Option<usize>, offset_reg: Option<usize> },
    /// The start of a step that EXPLAIN QUERY PLAN shows.
    Explain(ExplainStep),
    /// The end of such a step.
    EndExplain,
    /// The first part of a recursive query.
    InitialQuery,
    /// The part of a recursive query that is run again and again.
    RecursiveQuery,
    /// A row for the destination of the query.
    ColumnsToDestination { start_reg: usize, count: usize },
}

/// An item of a program.
pub enum Item {
    Op(Insn),
    /// The place that a label stands for.
    Bind(Label),
    Fragment(Fragment),
}

/// The cursor that was given out for a table.
pub open spec fn table_cursor(cursors: Seq<(TableId, usize)>, table: TableId) -> Option<usize>
    decreases cursors.len(),
{
    if cursors.len() == 0 {
        None
    } else if cursors.last().0 == table {
        Some(cursors.last().1)
    } else {
        table_cursor(cursors.drop_last(), table)
    }
}

/// A program as a value: what is written, the first register, label and cursor
/// that are free, and what is noted of it.
pub struct Code {
    pub items: Seq<Item>,
    /// Remarks, each with the number of items before it.
    pub comments: Seq<(usize, Comment)>,
    pub regs: nat,
    pub labels: nat,
    pub cursors: nat,
    /// The cursors that were given out for tables.
    pub table_cursors: Seq<(TableId, usize)>,
    /// Whether expressions whose values stand in registers are read from there.
    pub expr_cache: bool,
    /// The columns of the result.
    pub result_columns: Seq<ResultSetColumn>,
    /// The first of the registers that a row of the result stands in.
    pub reg_result_cols_start: Option<usize>,
}

impl Code {
    pub open spec fn op(self, insn: Insn) -> Code {
        Code { items: self.items.push(Item::Op(insn)), ..self }
    }

    pub open spec fn bind(self, label: Label) -> Code {
        Code { items: self.items.push(Item::Bind(label)), ..self }
    }

    pub open spec fn fragment(self, fragment: Fragment) -> Code {
        Code { items: self.items.push(Item::Fragment(fragment)), ..self }
    }

    pub open spec fn comment(self, comment: Comment) -> Code {
        Code { comments: self.comments.push((self.items.len() as usize, comment)), ..self }
    }

    pub open spec fn take_regs(self, count: nat) -> Code {
        Code { regs: self.regs + count, ..self }
    }

    pub open spec fn take_labels(self, count: nat) -> Code {
        Code { labels: self.labels + count, ..self }
    }

    pub open spec fn take_cursors(self, count: nat) -> Code {
        Code { cursors: self.cursors + count, ..self }
    }

    /// The cursor of a table: the one that was given out for it, else a new one.
    pub open spec fn keyed_cursor(self, table: TableId) -> (usize, Code) {
        match table_cursor(self.table_cursors, table) {
            Some(cursor_id) => (cursor_id, self),
            None => (
                self.cursor(0),
                Code {
                    table_cursors: self.table_cursors.push((table, self.cursor(0))),
                    ..self.take_cursors(1)
                },
            ),
        }
    }

    /// From here on expressions whose values stand in registers are read from
    /// there.
    pub open spec fn with_expr_cache(self) -> Code {
        Code { expr_cache: true, ..self }
    }

    /// Says what the rows of the result are and where they stand.
    pub open spec fn with_result(self, columns: Seq<ResultSetColumn>, start: usize) -> Code {
        Code { result_columns: columns, reg_result_cols_start: Some(start), ..self }
    }

    /// The first free register.
    pub open spec fn reg(self) -> usize {
        self.regs as usize
    }

    /// The label that is `i` behind the first free one.
    pub open spec fn label(self, i: nat) -> Label {
        Label((self.labels + i) as usize)
    }

    /// The cursor that is `i` behind the first free one.
    pub open spec fn cursor(self, i: nat) -> usize {
        (self.cursors + i) as usize
    }

    /// Takes `count` registers and sets them to NULL.
    pub open spec fn null_regs(self, count: nat) -> Code {
        self.take_regs(count).op(
            Insn::Null {
                dest: self.reg(),
                dest_end: if count == 1 {
                    None
                } else {
                    Some((self.regs + count - 1) as usize)
                },
            },
        )
    }

    /// Registers are written into instructions as 32-bit numbers.
    pub open spec fn fits(self) -> bool {
        self.regs <= u32::MAX && self.labels <= u32::MAX && self.cursors <= u32::MAX
    }
}

/// A program while it is being written.
pub struct ProgramBuilder {
    pub items: Vec<Item>,
    pub comments: Vec<(usize, Comment)>,
    pub next_reg: usize,
    pub next_label: usize,
    pub next_cursor: usize,
    pub table_cursors: Vec<(TableId, usize)>,
    pub expr_cache: bool,
    pub result_columns: Vec<ResultSetColumn>,
    pub reg_result_cols_start: Option<usize>,
}

impl View for ProgramBuilder {
    type V = Code;

    open spec fn view(&self) -> Code {
        Code {
            items: self.items@,
            comments: self.comments@,
            regs: self.next_reg as nat,
            labels: self.next_label as nat,
            cursors: self.next_cursor as nat,
            table_cursors: self.table_cursors@,
            expr_cache: self.expr_cache,
            result_columns: self.result_columns@,
            reg_result_cols_start: self.reg_result_cols_start,
        }
    }
}

impl ProgramBuilder {
    /// An empty program. Register 0 is never given out.
    pub fn new() -> (p: ProgramBuilder)
        ensures
            p@ == (Code {
                items: Seq::empty(),
                comments: Seq::empty(),
                regs: 1,
                labels: 0,
                cursors: 0,
                table_cursors: Seq::empty(),
                expr_cache: false,
                result_columns: Seq::empty(),
                reg_result_cols_start: None,
            }),
    {
        ProgramBuilder {
            items: Vec::new(),
            comments: Vec::new(),
            next_reg: 1,
            next_label: 0,
            next_cursor: 0,
            table_cursors: Vec::new(),
            expr_cache: false,
            result_columns: Vec::new(),
            reg_result_cols_start: None,
        }
    }

    /// Writes an instruction.
    pub fn emit_insn(&mut self, insn: Insn)
        ensures
            final(self)@ == old(self)@.op(insn),
    {
        self.items.push(Item::Op(insn));
    }

    /// Remarks on the instructions that follow.
    pub fn add_comment(&mut self, comment: Comment)
        ensures
            final(self)@ == old(self)@.comment(comment),
    {
        let offset: usize = self.items.len();
        self.comments.push((offset, comment));
    }

    /// Leaves room for a fragment.
    pub fn emit_fragment(&mut self, fragment: Fragment)
        ensures
            final(self)@ == old(self)@.fragment(fragment),
    {
        self.items.push(Item::Fragment(fragment));
    }

    /// Lets a label stand for the place of the next instruction.
    pub fn preassign_label_to_next_insn(&mut self, label: Label)
        ensures
            final(self)@ == old(self)@.bind(label),
    {
        self.items.push(Item::Bind(label));
    }

    /// A label that stands for no place yet.
    pub fn allocate_label(&mut self) -> (l: Label)
        requires
            old(self)@.labels < u32::MAX,
        ensures
            l == old(self)@.label(0),
            final(self)@ == old(self)@.take_labels(1),
    {
        let l = Label(self.next_label);
        self.next_label = self.next_label + 1;
        l
    }

    /// `count` registers in a row: the first of them.
    pub fn alloc_registers(&mut self, count: usize) -> (r: usize)
        requires
            old(self)@.regs + count <= u32::MAX,
        ensures
            r == old(self)@.reg(),
            final(self)@ == old(self)@.take_regs(count as nat),
    {
        let r: usize = self.next_reg;
        self.next_reg = self.next_reg + count;
        r
    }

    /// One register.
    pub fn alloc_register(&mut self) -> (r: usize)
        requires
            old(self)@.regs < u32::MAX,
        ensures
            r == old(self)@.reg(),
            final(self)@ == old(self)@.take_regs(1),
    {
        self.alloc_registers(1)
    }

    /// `count` registers in a row, set to NULL: the first of them.
    pub fn alloc_registers_and_init_w_null(&mut self, count: usize) -> (r: usize)
        requires
            0 < count,
            old(self)@.regs + count <= u32::MAX,
        ensures
            r == old(self)@.reg(),
            final(self)@ == old(self)@.null_regs(count as nat),
    {
        let r: usize = self.alloc_registers(count);
        let dest_end: Option<usize> = if count == 1 {
            None
        } else {
            Some(r + count - 1)
        };
        self.emit_insn(Insn::Null { dest: r, dest_end });
        r
    }

    /// A cursor.
    pub fn alloc_cursor_id(&mut self) -> (c: usize)
        requires
            old(self)@.cursors < u32::MAX,
        ensures
            c == old(self)@.cursor(0),
            final(self)@ == old(self)@.take_cursors(1),
    {
        let c: usize = self.next_cursor;
        self.next_cursor = self.next_cursor + 1;
        c
    }

    /// The cursor of a table: the one that was given out for it, else a new one.
    pub fn alloc_cursor_id_keyed_if_not_exists(&mut self, table: TableId) -> (c: usize)
        requires
            old(self)@.keyed_cursor(table).1.cursors <= u32::MAX,
        ensures
            (c, final(self)@) == old(self)@.keyed_cursor(table),
    {
        let mut i: usize = self.table_cursors.len();
        let ghost all = self.table_cursors@;
        assert(all.take(i as int) =~= all);
        while i > 0
            invariant
                i <= all.len(),
                self@ == old(self)@,
                all == self.table_cursors@,
                table_cursor(all, table) == table_cursor(all.take(i as int), table),
            decreases i,
        {
            assert(all.take(i as int).last() == all[i - 1]);
            assert(all.take(i as int).drop_last() =~= all.take(i - 1));
            if self.table_cursors[i - 1].0 == table {
                return self.table_cursors[i - 1].1;
            }
            i = i - 1;
        }
        assert(table_cursor(all, table) is None);
        let c: usize = self.alloc_cursor_id();
        self.table_cursors.push((table, c));
        c
    }

    /// From here on expressions whose values stand in registers are read from
    /// there.
    pub fn enable_expr_to_reg_cache(&mut self)
        ensures
            final(self)@ == old(self)@.with_expr_cache(),
    {
        self.expr_cache = true;
    }

    /// Says what the rows of the result are and where they stand.
    pub fn set_result(&mut self, columns: Vec<ResultSetColumn>, start: usize)
        ensures
            final(self)@ == old(self)@.with_result(columns@, start),
    {
        self.result_columns = columns;
        self.reg_result_cols_start = Some(start);
    }
}

} // verus!
