//! Recursive common table expressions.
//!
//! Rows wait in a queue, an index that is ordered by the keys of the
//! expression's ORDER BY and then by the order in which rows came. A row is
//! taken from the queue, handed to the destination, and given to the recursive
//! part, which puts new rows into the queue, until the queue is empty or the
//! limit is reached. Under UNION a second index holds the rows that were seen.

use vstd::prelude::*;
use crate::error::LimboError;
use crate::text;
use crate::text::{join2, print_u64};
use crate::translate::expr::TableId;
use crate::translate::program::{
    Code, CollationSeq, ExplainStep, Fragment, Insn, Label, NullsOrder, ProgramBuilder, SortOrder,
};
use crate::translate::window_init::{copy_result_columns, ResultSetColumn};
use crate::translate::window_laws;

verus! {

/// The collations of a SELECT's columns: of the first row of its VALUES, where
/// it has one, and of its result columns.
pub struct SelectCollations {
    pub first_values: Vec<Option<CollationSeq>>,
    pub result_columns: Vec<Option<CollationSeq>>,
}

/// The query of a part of a recursive expression, as far as its collations go.
pub enum QueryPart {
    Select(SelectCollations),
    CompoundSelect { left: Vec<SelectCollations>, right_most: SelectCollations },
    /// No SELECT at all.
    Other,
}

/// A term of the expression's ORDER BY.
#[derive(Clone, Copy)]
pub struct QueueTerm {
    pub result_column_index: usize,
    pub order: SortOrder,
    pub nulls: Option<NullsOrder>,
    pub collation: Option<CollationSeq>,
}

/// A part of a recursive expression: its query, the columns of its result, and
/// where its rows go.
pub struct CtePart {
    pub query: QueryPart,
    pub result_columns: Vec<ResultSetColumn>,
    pub destination: QueryDestination,
}

/// Where the rows of a part go.
pub enum QueryDestination {
    /// Not decided yet.
    Unset,
    RecursiveCteQueue(QueueDestination),
}

/// A recursive expression.
pub struct RecursiveCtePlan {
    pub name: String,
    /// The table by which the recursive part reads a row of the queue.
    pub input_table_id: TableId,
    pub union_all: bool,
    pub queue_order: Vec<QueueTerm>,
    pub initial_query: CtePart,
    pub recursive_query: CtePart,
    pub has_limit: bool,
    pub has_offset: bool,
}

impl RecursiveCtePlan {
    /// How many columns the result has: as many as that of the initial part.
    pub open spec fn width(self) -> nat {
        self.initial_query.result_columns@.len()
    }
}

/// The name of a column of an index that the expression uses.
#[derive(Clone, Copy, Debug, PartialEq, Eq, Structural)]
pub enum ColumnName {
    NullRank(usize),
    Priority(usize),
    Sequence,
    Result(usize),
    Distinct(usize),
}

impl ColumnName {
    /// The name as text.
    pub open spec fn text(self) -> Seq<char> {
        match self {
            ColumnName::NullRank(i) => "null-rank-"@ + text::decimal(i as nat),
            ColumnName::Priority(i) => "priority-"@ + text::decimal(i as nat),
            ColumnName::Sequence => "sequence"@,
            ColumnName::Result(i) => "result-"@ + text::decimal(i as nat),
            ColumnName::Distinct(i) => "distinct-"@ + text::decimal(i as nat),
        }
    }

    pub fn name(&self) -> (s: String)
        ensures
            s@ == self.text(),
    {
        match self {
            ColumnName::NullRank(i) => join2("null-rank-", print_u64(*i as u64).as_str()),
            ColumnName::Priority(i) => join2("priority-", print_u64(*i as u64).as_str()),
            ColumnName::Sequence => "sequence".to_owned(),
            ColumnName::Result(i) => join2("result-", print_u64(*i as u64).as_str()),
            ColumnName::Distinct(i) => join2("distinct-", print_u64(*i as u64).as_str()),
        }
    }
}

/// A column of an index that the expression uses.
#[derive(Clone, Copy, Debug, PartialEq, Eq, Structural)]
pub struct IndexColumn {
    pub name: ColumnName,
    pub order: SortOrder,
    pub pos_in_table: usize,
    pub collation: Option<CollationSeq>,
}

/// How a row's place in the queue depends on one of its columns.
#[derive(Clone, Copy, Debug, PartialEq, Eq, Structural)]
pub struct RecursiveCteQueueKey {
    pub result_column_index: usize,
    /// Where NULLs go, if not where the order puts them by itself.
    pub nulls_override: Option<NullsOrder>,
}

/// The collation of a column of a SELECT.
pub open spec fn select_collation(select: SelectCollations, i: nat) -> Option<CollationSeq> {
    if i < select.first_values@.len() {
        select.first_values@[i as int]
    } else {
        select.result_columns@[i as int]
    }
}

/// Whether a SELECT has a column.
pub open spec fn select_has(select: SelectCollations, i: nat) -> bool {
    i < select.first_values@.len() || i < select.result_columns@.len()
}

/// The first collation that the SELECTs from `from` on give a column.
pub open spec fn first_collation(left: Seq<SelectCollations>, i: nat, from: nat) -> Option<
    CollationSeq,
>
    decreases left.len() - from,
{
    if from >= left.len() {
        None
    } else if select_collation(left[from as int], i) is Some {
        select_collation(left[from as int], i)
    } else {
        first_collation(left, i, from + 1)
    }
}

/// The collation that a part gives a column: that of the first SELECT which
/// has one.
pub open spec fn part_collation(part: QueryPart, i: nat) -> Option<CollationSeq> {
    match part {
        QueryPart::Select(select) => select_collation(select, i),
        QueryPart::CompoundSelect { left, right_most } => match first_collation(left@, i, 0) {
            Some(collation) => Some(collation),
            None => select_collation(right_most, i),
        },
        QueryPart::Other => None,
    }
}

/// Whether all SELECTs of a part have a column.
pub open spec fn part_has(part: QueryPart, i: nat) -> bool {
    match part {
        QueryPart::Select(select) => select_has(select, i),
        QueryPart::CompoundSelect { left, right_most } => select_has(right_most, i) && forall|j: int|
            0 <= j < left@.len() ==> select_has(#[trigger] left@[j], i),
        QueryPart::Other => true,
    }
}

/// The collation of a column of the expression: the initial part decides, and
/// where it does not, the recursive one.
pub open spec fn column_collation(plan: RecursiveCtePlan, i: nat) -> Option<CollationSeq> {
    match part_collation(plan.initial_query.query, i) {
        Some(collation) => Some(collation),
        None => part_collation(plan.recursive_query.query, i),
    }
}

/// The text of the error for a part that is no SELECT.
pub open spec fn not_a_select() -> Seq<char> {
    "recursive CTE query is not a SELECT"@
}

fn query_collation(select: &SelectCollations, i: usize) -> (c: Option<CollationSeq>)
    requires
        select_has(*select, i as nat),
    ensures
        c == select_collation(*select, i as nat),
{
    if i < select.first_values.len() {
        select.first_values[i]
    } else {
        select.result_columns[i]
    }
}

/// The collation that a part gives a column.
pub fn recursive_cte_query_result_column_collation(query: &QueryPart, result_column_index: usize) -> (r:
    Result<Option<CollationSeq>, LimboError>)
    requires
        part_has(*query, result_column_index as nat),
    ensures
        match r {
            Ok(c) => !(query is Other) && c == part_collation(*query, result_column_index as nat),
            Err(e) => query is Other && e.is_internal_error(not_a_select()),
        },
{
    match query {
        QueryPart::Select(select) => Ok(query_collation(select, result_column_index)),
        QueryPart::CompoundSelect { left, right_most } => {
            let mut j: usize = 0;
            while j < left.len()
                invariant
                    j <= left@.len(),
                    part_has(*query, result_column_index as nat),
                    *query == (QueryPart::CompoundSelect { left: *left, right_most: *right_most }),
                    first_collation(left@, result_column_index as nat, 0) == first_collation(
                        left@,
                        result_column_index as nat,
                        j as nat,
                    ),
                decreases left@.len() - j,
            {
                assert(select_has(left@[j as int], result_column_index as nat));
                let collation = query_collation(&left[j], result_column_index);
                if collation.is_some() {
                    return Ok(collation);
                }
                j = j + 1;
            }
            Ok(query_collation(right_most, result_column_index))
        },
        QueryPart::Other => Err(
            LimboError::InternalError("recursive CTE query is not a SELECT".to_owned()),
        ),
    }
}

/// The collation of a column of the expression.
pub fn recursive_cte_result_column_collation(
    plan: &RecursiveCtePlan,
    result_column_index: usize,
) -> (r: Result<Option<CollationSeq>, LimboError>)
    requires
        part_has(plan.initial_query.query, result_column_index as nat),
        part_has(plan.recursive_query.query, result_column_index as nat),
    ensures
        match r {
            Ok(c) => c == column_collation(*plan, result_column_index as nat),
            Err(e) => e.is_internal_error(not_a_select()),
        },
        r is Err <==> plan.initial_query.query is Other || (part_collation(
            plan.initial_query.query,
            result_column_index as nat,
        ) is None && plan.recursive_query.query is Other),
{
    match recursive_cte_query_result_column_collation(&plan.initial_query.query, result_column_index) {
        Ok(Some(collation)) => Ok(Some(collation)),
        Ok(None) => recursive_cte_query_result_column_collation(
            &plan.recursive_query.query,
            result_column_index,
        ),
        Err(e) => Err(e),
    }
}

/// Where NULLs go, if not where the order puts them by itself: first in
/// ascending order, last in descending order.
pub open spec fn nulls_override(term: QueueTerm) -> Option<NullsOrder> {
    match (term.nulls, term.order) {
        (Some(NullsOrder::First), SortOrder::Desc) => Some(NullsOrder::First),
        (Some(NullsOrder::Last), SortOrder::Asc) => Some(NullsOrder::Last),
        _ => None,
    }
}

/// The columns of the queue that order it: for each of the first `n` terms the
/// value, and before it a column that ranks NULLs, where they go elsewhere
/// than the order puts them.
pub open spec fn priority_columns(plan: RecursiveCtePlan, n: nat) -> Seq<IndexColumn>
    decreases n,
{
    if n == 0 {
        Seq::empty()
    } else {
        let done = priority_columns(plan, (n - 1) as nat);
        let term = plan.queue_order@[n - 1];
        let ranked = if nulls_override(term) is Some {
            done.push(
                IndexColumn {
                    name: ColumnName::NullRank((n - 1) as usize),
                    order: SortOrder::Asc,
                    pos_in_table: done.len() as usize,
                    collation: None,
                },
            )
        } else {
            done
        };
        ranked.push(
            IndexColumn {
                name: ColumnName::Priority((n - 1) as usize),
                order: term.order,
                pos_in_table: ranked.len() as usize,
                collation: match term.collation {
                    Some(collation) => Some(collation),
                    None => column_collation(plan, term.result_column_index as nat),
                },
            },
        )
    }
}

/// A column that plays no part in an order of its own.
pub open spec fn plain_column(name: ColumnName, pos: nat) -> IndexColumn {
    IndexColumn { name, order: SortOrder::Asc, pos_in_table: pos as usize, collation: None }
}

/// The columns of the queue: those that order it, the number in the order in
/// which rows came, and the row.
pub open spec fn queue_columns(plan: RecursiveCtePlan) -> Seq<IndexColumn> {
    let keys = priority_columns(plan, plan.queue_order@.len());
    keys.push(plain_column(ColumnName::Sequence, keys.len())) + Seq::new(
        plan.width(),
        |i: int| plain_column(ColumnName::Result(i as usize), (keys.len() + 1 + i) as nat),
    )
}

/// How rows are placed in the queue.
pub open spec fn queue_keys(plan: RecursiveCtePlan) -> Seq<RecursiveCteQueueKey> {
    Seq::new(
        plan.queue_order@.len(),
        |i: int| RecursiveCteQueueKey {
            result_column_index: plan.queue_order@[i].result_column_index,
            nulls_override: nulls_override(plan.queue_order@[i]),
        },
    )
}

/// The columns of the index of rows that were seen.
pub open spec fn seen_columns(plan: RecursiveCtePlan) -> Seq<IndexColumn> {
    Seq::new(
        plan.width(),
        |i: int| IndexColumn {
            name: ColumnName::Distinct(i as usize),
            order: SortOrder::Asc,
            pos_in_table: i as usize,
            collation: column_collation(plan, i as nat),
        },
    )
}

/// Every column of the queue stands at its place in the index, and behind the
/// columns that order it there is one more before the row.
pub proof fn queue_columns_are_in_place(plan: RecursiveCtePlan)
    requires
        queue_columns(plan).len() <= usize::MAX,
    ensures
        queue_columns(plan).len() == priority_columns(plan, plan.queue_order@.len()).len() + 1
            + plan.width(),
        forall|i: int|
            0 <= i < queue_columns(plan).len() ==> (#[trigger] queue_columns(plan)[i]).pos_in_table
                == i,
{
    priority_columns_are_in_place(plan, plan.queue_order@.len());
}

proof fn priority_columns_are_in_place(plan: RecursiveCtePlan, n: nat)
    requires
        priority_columns(plan, n).len() <= usize::MAX,
    ensures
        forall|i: int|
            0 <= i < priority_columns(plan, n).len() ==> (#[trigger] priority_columns(
                plan,
                n,
            )[i]).pos_in_table == i,
    decreases n,
{
    if n > 0 {
        priority_columns_are_in_place(plan, (n - 1) as nat);
    }
}

/// Appends an item, unless the allocator refuses.
fn try_push<T>(v: &mut Vec<T>, item: T) -> (r: Result<(), LimboError>)
    ensures
        match r {
            Ok(_) => final(v)@ == old(v)@.push(item),
            Err(e) => e is OutOfMemory,
        },
{
    if v.try_reserve(1).is_err() {
        return Err(LimboError::OutOfMemory);
    }
    v.push(item);
    Ok(())
}

/// Whether every column that a plan speaks of exists.
pub open spec fn well_formed(plan: RecursiveCtePlan) -> bool {
    &&& forall|i: nat|
        i < plan.width() ==> #[trigger] part_has(plan.initial_query.query, i) && part_has(
            plan.recursive_query.query,
            i,
        )
    &&& forall|i: int|
        0 <= i < plan.queue_order@.len() ==> (#[trigger] plan.queue_order@[i]).result_column_index
            < plan.width()
}

fn build_queue(plan: &RecursiveCtePlan) -> (r: Result<
    (Vec<IndexColumn>, Vec<RecursiveCteQueueKey>),
    LimboError,
>)
    requires
        well_formed(*plan),
        queue_columns(*plan).len() <= u32::MAX,
        !(plan.initial_query.query is Other),
        !(plan.recursive_query.query is Other),
    ensures
        match r {
            Ok((columns, keys)) => columns@ == queue_columns(*plan) && keys@ == queue_keys(*plan),
            Err(e) => e is OutOfMemory,
        },
{
    let mut columns: Vec<IndexColumn> = Vec::new();
    let mut keys: Vec<RecursiveCteQueueKey> = Vec::new();
    let mut i: usize = 0;
    while i < plan.queue_order.len()
        invariant
            i <= plan.queue_order@.len(),
            well_formed(*plan),
            !(plan.initial_query.query is Other),
            !(plan.recursive_query.query is Other),
            columns@ == priority_columns(*plan, i as nat),
            keys@ == queue_keys(*plan).take(i as int),
        decreases plan.queue_order@.len() - i,
    {
        let term = plan.queue_order[i];
        assert(plan.queue_order@[i as int].result_column_index < plan.width());
        assert(part_has(plan.initial_query.query, term.result_column_index as nat));
        let moved: Option<NullsOrder> = match (term.nulls, term.order) {
            (Some(NullsOrder::First), SortOrder::Desc) => Some(NullsOrder::First),
            (Some(NullsOrder::Last), SortOrder::Asc) => Some(NullsOrder::Last),
            _ => None,
        };
        if moved.is_some() {
            let pos_in_table: usize = columns.len();
            match try_push(
                &mut columns,
                IndexColumn {
                    name: ColumnName::NullRank(i),
                    order: SortOrder::Asc,
                    pos_in_table,
                    collation: None,
                },
            ) {
                Ok(_) => {},
                Err(e) => {
                    return Err(e);
                },
            }
        }
        let of_column = match recursive_cte_result_column_collation(
            plan,
            term.result_column_index,
        ) {
            Ok(c) => c,
            Err(e) => {
                return Err(e);
            },
        };
        let collation: Option<CollationSeq> = match term.collation {
            Some(collation) => Some(collation),
            None => of_column,
        };
        let pos_in_table: usize = columns.len();
        match try_push(
            &mut columns,
            IndexColumn {
                name: ColumnName::Priority(i),
                order: term.order,
                pos_in_table,
                collation,
            },
        ) {
            Ok(_) => {},
            Err(e) => {
                return Err(e);
            },
        }
        match try_push(
            &mut keys,
            RecursiveCteQueueKey {
                result_column_index: term.result_column_index,
                nulls_override: moved,
            },
        ) {
            Ok(_) => {},
            Err(e) => {
                return Err(e);
            },
        }
        i = i + 1;
        assert(keys@ =~= queue_keys(*plan).take(i as int));
    }
    assert(keys@ =~= queue_keys(*plan));
    let count: usize = columns.len();
    match try_push(
        &mut columns,
        IndexColumn {
            name: ColumnName::Sequence,
            order: SortOrder::Asc,
            pos_in_table: count,
            collation: None,
        },
    ) {
        Ok(_) => {},
        Err(e) => {
            return Err(e);
        },
    }
    let ghost all = queue_columns(*plan);
    assert(columns@ =~= all.take(count + 1));
    let width: usize = plan.initial_query.result_columns.len();
    let mut j: usize = 0;
    while j < width
        invariant
            j <= width == plan.width(),
            all == queue_columns(*plan),
            all.len() == count + 1 + width <= u32::MAX,
            count == priority_columns(*plan, plan.queue_order@.len()).len(),
            columns@ == all.take(count + 1 + j),
        decreases width - j,
    {
        let pos_in_table: usize = columns.len();
        match try_push(
            &mut columns,
            IndexColumn {
                name: ColumnName::Result(j),
                order: SortOrder::Asc,
                pos_in_table,
                collation: None,
            },
        ) {
            Ok(_) => {},
            Err(e) => {
                return Err(e);
            },
        }
        j = j + 1;
        assert(columns@ =~= all.take(count + 1 + j));
    }
    assert(columns@ =~= all);
    Ok((columns, keys))
}

fn build_seen(plan: &RecursiveCtePlan) -> (r: Result<Vec<IndexColumn>, LimboError>)
    requires
        well_formed(*plan),
        !(plan.initial_query.query is Other),
        !(plan.recursive_query.query is Other),
    ensures
        match r {
            Ok(columns) => columns@ == seen_columns(*plan),
            Err(e) => e is OutOfMemory && plan.width() > 0,
        },
{
    let mut columns: Vec<IndexColumn> = Vec::new();
    let width: usize = plan.initial_query.result_columns.len();
    let mut i: usize = 0;
    while i < width
        invariant
            i <= width == plan.width(),
            well_formed(*plan),
            !(plan.initial_query.query is Other),
            !(plan.recursive_query.query is Other),
            columns@ == seen_columns(*plan).take(i as int),
        decreases width - i,
    {
        assert(part_has(plan.initial_query.query, i as nat));
        let collation = match recursive_cte_result_column_collation(plan, i) {
            Ok(c) => c,
            Err(e) => {
                return Err(e);
            },
        };
        match try_push(
            &mut columns,
            IndexColumn {
                name: ColumnName::Distinct(i),
                order: SortOrder::Asc,
                pos_in_table: i,
                collation,
            },
        ) {
            Ok(_) => {},
            Err(e) => {
                return Err(e);
            },
        }
        i = i + 1;
        assert(columns@ =~= seen_columns(*plan).take(i as int));
    }
    assert(columns@ =~= seen_columns(*plan));
    Ok(columns)
}

/// Reads the first `n` columns of the row at the front of the queue.
pub open spec fn read_queue(p: Code, cursor_id: usize, base: nat, n: nat) -> Code
    decreases n,
{
    if n == 0 {
        p
    } else {
        read_queue(p, cursor_id, base, (n - 1) as nat).op(
            Insn::Column {
                cursor_id,
                column: (n - 1) as usize,
                dest: (base + n - 1) as usize,
            },
        )
    }
}

proof fn read_queue_keeps(p: Code, cursor_id: usize, base: nat, n: nat)
    ensures
        read_queue(p, cursor_id, base, n).regs == p.regs,
        read_queue(p, cursor_id, base, n).labels == p.labels,
        read_queue(p, cursor_id, base, n).cursors == p.cursors,
    decreases n,
{
    if n > 0 {
        read_queue_keeps(p, cursor_id, base, (n - 1) as nat);
    }
}

/// A register, where it is wanted.
pub open spec fn opt_reg(p: Code, wanted: bool) -> (Option<usize>, Code) {
    if wanted {
        (Some(p.reg()), p.take_regs(1))
    } else {
        (None, p)
    }
}

/// The cursors and registers of a recursive expression whose code starts at
/// `p`.
pub struct CteLayout {
    pub input_cursor: usize,
    pub queue_cursor: usize,
    pub seen_cursor: Option<usize>,
    pub input_record_reg: usize,
    pub limit_reg: Option<usize>,
    pub offset_reg: Option<usize>,
    pub queue_row_regs: usize,
    pub result_row_regs: usize,
    pub end: Label,
    pub dequeue: Label,
    pub run: Label,
}

pub open spec fn cte_layout(p: Code, plan: RecursiveCtePlan) -> CteLayout {
    let (input_cursor, p0) = p.take_regs(1).keyed_cursor(plan.input_table_id);
    let (limit_reg, p1) = opt_reg(p0, plan.has_limit);
    let (offset_reg, p2) = opt_reg(p1, plan.has_offset);
    CteLayout {
        input_cursor,
        queue_cursor: p0.cursor(0),
        seen_cursor: if plan.union_all {
            None
        } else {
            Some(p0.cursor(1))
        },
        input_record_reg: p.reg(),
        limit_reg,
        offset_reg,
        queue_row_regs: p2.reg(),
        result_row_regs: (p2.regs + priority_columns(plan, plan.queue_order@.len()).len()
            + 1) as usize,
        end: p.label(0),
        dequeue: p.label(1),
        run: p.label(2),
    }
}

/// Opens the cursors and runs the initial part.
pub open spec fn cte_setup(p: Code, plan: RecursiveCtePlan) -> Code {
    let l = cte_layout(p, plan);
    let queue = p.take_regs(1).keyed_cursor(plan.input_table_id).1.op(
        Insn::OpenPseudo {
            cursor_id: l.input_cursor,
            content_reg: l.input_record_reg,
            num_fields: plan.width() as usize,
        },
    ).take_cursors(1).op(Insn::OpenEphemeral { cursor_id: l.queue_cursor, is_table: false });
    let opened = match l.seen_cursor {
        Some(cursor_id) => queue.take_cursors(1).op(
            Insn::OpenEphemeral { cursor_id, is_table: false },
        ),
        None => queue,
    };
    let (_, q1) = opt_reg(opened.take_labels(3), plan.has_limit);
    let (_, q2) = opt_reg(q1, plan.has_offset);
    q2.fragment(
        Fragment::InitLimit {
            end: l.end,
            limit_reg: l.limit_reg,
            offset_reg: l.offset_reg,
        },
    ).fragment(Fragment::Explain(ExplainStep::Setup)).fragment(Fragment::InitialQuery).fragment(
        Fragment::EndExplain,
    )
}

/// Takes a row from the queue, hands it to the destination unless the offset
/// skips it, and runs the recursive part, until the queue is empty or the
/// limit is reached.
pub open spec fn cte_loop(p: Code, plan: RecursiveCtePlan, l: CteLayout) -> Code {
    let count = queue_columns(plan).len();
    let read = read_queue(
        p.bind(l.dequeue).op(
            Insn::Rewind { cursor_id: l.queue_cursor, pc_if_empty: l.end },
        ).take_regs(count),
        l.queue_cursor,
        l.queue_row_regs as nat,
        count,
    );
    let taken = read.op(
        Insn::IdxDelete {
            start_reg: l.queue_row_regs,
            num_regs: count as usize,
            cursor_id: l.queue_cursor,
            raise_error_if_no_matching_entry: false,
        },
    ).op(
        Insn::MakeRecord {
            start_reg: l.result_row_regs as u32,
            count: plan.width() as u32,
            dest_reg: l.input_record_reg as u32,
        },
    );
    let offset = match l.offset_reg {
        Some(reg) => taken.op(Insn::IfPos { reg, target_pc: l.run, decrement_by: 1 }),
        None => taken,
    };
    let sent = offset.fragment(
        Fragment::ColumnsToDestination {
            start_reg: l.result_row_regs,
            count: plan.width() as usize,
        },
    );
    let limited = match l.limit_reg {
        Some(reg) => sent.op(Insn::DecrJumpZero { reg, target_pc: l.end }),
        None => sent,
    };
    limited.bind(l.run).fragment(Fragment::Explain(ExplainStep::RecursiveStep)).fragment(
        Fragment::RecursiveQuery,
    ).fragment(Fragment::EndExplain).op(Insn::Goto { target_pc: l.dequeue }).bind(l.end)
}

/// Closes the cursors.
pub open spec fn cte_close(p: Code, l: CteLayout) -> Code {
    let queue = p.op(Insn::Close { cursor_id: l.queue_cursor });
    (match l.seen_cursor {
        Some(cursor_id) => queue.op(Insn::Close { cursor_id }),
        None => queue,
    }).op(Insn::Close { cursor_id: l.input_cursor })
}

/// The code of a recursive expression. The columns of its result are those of
/// the initial part.
pub open spec fn recursive_cte(p: Code, plan: RecursiveCtePlan) -> Code {
    let l = cte_layout(p, plan);
    cte_close(cte_loop(cte_setup(p, plan), plan, l), l).with_result(
        plan.initial_query.result_columns@,
        l.result_row_regs,
    )
}

/// An index that is there only while the query runs, without row numbers.
pub struct CteIndex {
    pub name: String,
    pub columns: Vec<IndexColumn>,
    pub unique: bool,
}

/// An index, by what it holds.
pub struct CteIndexModel {
    pub name: Seq<char>,
    pub columns: Seq<IndexColumn>,
    pub unique: bool,
}

impl View for CteIndex {
    type V = CteIndexModel;

    open spec fn view(&self) -> CteIndexModel {
        CteIndexModel { name: self.name@, columns: self.columns@, unique: self.unique }
    }
}

/// The queue that the parts of a recursive expression put their rows into.
pub struct QueueDestination {
    pub cursor_id: usize,
    pub index: CteIndex,
    pub sort_keys: Vec<RecursiveCteQueueKey>,
    pub seen_rows: Option<SeenRows>,
}

/// The index of rows that were seen.
pub struct SeenRows {
    pub cursor_id: usize,
    pub index: CteIndex,
}

/// A queue, by what it holds.
pub struct QueueModel {
    pub cursor_id: usize,
    pub index: CteIndexModel,
    pub sort_keys: Seq<RecursiveCteQueueKey>,
    /// The cursor and the index of rows that were seen.
    pub seen_rows: Option<(usize, CteIndexModel)>,
}

impl View for QueueDestination {
    type V = QueueModel;

    open spec fn view(&self) -> QueueModel {
        QueueModel {
            cursor_id: self.cursor_id,
            index: self.index@,
            sort_keys: self.sort_keys@,
            seen_rows: match self.seen_rows {
                Some(seen) => Some((seen.cursor_id, seen.index@)),
                None => None,
            },
        }
    }
}

impl CteIndex {
    /// A copy.
    pub fn copy(&self) -> (r: CteIndex)
        ensures
            r@ == self@,
    {
        CteIndex {
            name: self.name.clone(),
            columns: vstd::slice::slice_to_vec(self.columns.as_slice()),
            unique: self.unique,
        }
    }
}

impl QueueDestination {
    /// A copy.
    pub fn copy(&self) -> (r: QueueDestination)
        ensures
            r@ == self@,
    {
        let seen_rows: Option<SeenRows> = match &self.seen_rows {
            Some(seen) => Some(SeenRows { cursor_id: seen.cursor_id, index: seen.index.copy() }),
            None => None,
        };
        QueueDestination {
            cursor_id: self.cursor_id,
            index: self.index.copy(),
            sort_keys: vstd::slice::slice_to_vec(self.sort_keys.as_slice()),
            seen_rows,
        }
    }
}

/// The queue of a recursive expression whose code starts at `p`. Rows that were
/// seen are kept where none is to come twice.
pub open spec fn cte_queue(p: Code, plan: RecursiveCtePlan) -> QueueModel {
    let l = cte_layout(p, plan);
    QueueModel {
        cursor_id: l.queue_cursor,
        index: CteIndexModel {
            name: "recursive-queue-"@ + plan.name@,
            columns: queue_columns(plan),
            unique: true,
        },
        sort_keys: queue_keys(plan),
        seen_rows: match l.seen_cursor {
            Some(cursor_id) => Some(
                (
                    cursor_id,
                    CteIndexModel {
                        name: "recursive-distinct-"@ + plan.name@,
                        columns: seen_columns(plan),
                        unique: false,
                    },
                ),
            ),
            None => None,
        },
    }
}

/// Whether the rows of a part go to a queue.
pub open spec fn goes_to(part: CtePart, queue: QueueModel) -> bool {
    part.destination matches QueryDestination::RecursiveCteQueue(q) && q@ == queue
}

/// Whether both parts of a plan put their rows into a queue, and the plan is
/// the same else.
pub open spec fn both_go_to(
    before: RecursiveCtePlan,
    after: RecursiveCtePlan,
    queue: QueueModel,
) -> bool {
    &&& goes_to(after.initial_query, queue)
    &&& goes_to(after.recursive_query, queue)
    &&& after == (RecursiveCtePlan {
        initial_query: CtePart {
            destination: after.initial_query.destination,
            ..before.initial_query
        },
        recursive_query: CtePart {
            destination: after.recursive_query.destination,
            ..before.recursive_query
        },
        ..before
    })
}

/// Writes the code of a recursive expression, given the columns and keys of its
/// queue and the columns of the index of rows that were seen, if there is one.
/// Both parts are to put their rows into the queue, which is returned with the
/// registers that the rows of the result stand in.
pub fn write_recursive_cte(
    program: &mut ProgramBuilder,
    plan: &mut RecursiveCtePlan,
    columns: Vec<IndexColumn>,
    sort_keys: Vec<RecursiveCteQueueKey>,
    seen_columns: Vec<IndexColumn>,
) -> (r: (QueueDestination, usize))
    requires
        well_formed(*old(plan)),
        recursive_cte(old(program)@, *old(plan)).fits(),
        !(old(plan).initial_query.query is Other),
        !(old(plan).recursive_query.query is Other),
        columns@ == queue_columns(*old(plan)),
        sort_keys@ == queue_keys(*old(plan)),
        seen_columns@ == if old(plan).union_all {
            Seq::<IndexColumn>::empty()
        } else {
            self::seen_columns(*old(plan))
        },
    ensures
        final(program)@ == recursive_cte(old(program)@, *old(plan)),
        final(program)@.result_columns == old(plan).initial_query.result_columns@,
        final(program)@.reg_result_cols_start == Some(r.1),
        r.1 == cte_layout(old(program)@, *old(plan)).result_row_regs,
        r.0@ == cte_queue(old(program)@, *old(plan)),
        both_go_to(*old(plan), *final(plan), r.0@),
{
    let ghost p = program@;
    let ghost planned = *plan;
    let ghost l = cte_layout(p, planned);
    let ghost count = queue_columns(planned).len();
    proof {
        let start = cte_setup(p, planned);
        read_queue_keeps(
            start.bind(l.dequeue).op(
                Insn::Rewind { cursor_id: l.queue_cursor, pc_if_empty: l.end },
            ).take_regs(count),
            l.queue_cursor,
            l.queue_row_regs as nat,
            count,
        );
        queue_columns_are_in_place(planned);
    }
    let num_result_columns: usize = plan.initial_query.result_columns.len();
    let sort_count: usize = columns.len() - 1 - num_result_columns;
    let input_record_reg: usize = program.alloc_register();
    let input_cursor_id: usize = program.alloc_cursor_id_keyed_if_not_exists(plan.input_table_id);
    program.emit_insn(
        Insn::OpenPseudo {
            cursor_id: input_cursor_id,
            content_reg: input_record_reg,
            num_fields: num_result_columns,
        },
    );
    let queue_cursor_id: usize = program.alloc_cursor_id();
    program.emit_insn(Insn::OpenEphemeral { cursor_id: queue_cursor_id, is_table: false });
    let seen_cursor_id: Option<usize> = if plan.union_all {
        None
    } else {
        let cursor_id: usize = program.alloc_cursor_id();
        program.emit_insn(Insn::OpenEphemeral { cursor_id, is_table: false });
        Some(cursor_id)
    };
    let seen_rows: Option<SeenRows> = match seen_cursor_id {
        Some(cursor_id) => Some(
            SeenRows {
                cursor_id,
                index: CteIndex {
                    name: join2("recursive-distinct-", plan.name.as_str()),
                    columns: seen_columns,
                    unique: false,
                },
            },
        ),
        None => None,
    };
    let queue_column_count: usize = columns.len();
    let queue = QueueDestination {
        cursor_id: queue_cursor_id,
        index: CteIndex {
            name: join2("recursive-queue-", plan.name.as_str()),
            columns,
            unique: true,
        },
        sort_keys,
        seen_rows,
    };
    assert(queue@ == cte_queue(p, planned));
    plan.initial_query.destination = QueryDestination::RecursiveCteQueue(queue.copy());
    plan.recursive_query.destination = QueryDestination::RecursiveCteQueue(queue.copy());

    let recursive_cte_end = program.allocate_label();
    let dequeue_next_row = program.allocate_label();
    let run_recursive_query = program.allocate_label();
    let limit_reg: Option<usize> = if plan.has_limit {
        Some(program.alloc_register())
    } else {
        None
    };
    let offset_reg: Option<usize> = if plan.has_offset {
        Some(program.alloc_register())
    } else {
        None
    };
    program.emit_fragment(
        Fragment::InitLimit { end: recursive_cte_end, limit_reg, offset_reg },
    );
    program.emit_fragment(Fragment::Explain(ExplainStep::Setup));
    program.emit_fragment(Fragment::InitialQuery);
    program.emit_fragment(Fragment::EndExplain);
    assert(program@ == cte_setup(p, planned));

    program.preassign_label_to_next_insn(dequeue_next_row);
    program.emit_insn(
        Insn::Rewind { cursor_id: queue_cursor_id, pc_if_empty: recursive_cte_end },
    );
    let queue_row_regs: usize = program.alloc_registers(queue_column_count);
    let ghost start = program@;
    let mut i: usize = 0;
    while i < queue_column_count
        invariant
            i <= queue_column_count,
            queue_row_regs + queue_column_count <= u32::MAX,
            program@ == read_queue(start, queue_cursor_id, queue_row_regs as nat, i as nat),
        decreases queue_column_count - i,
    {
        program.emit_insn(
            Insn::Column { cursor_id: queue_cursor_id, column: i, dest: queue_row_regs + i },
        );
        i = i + 1;
    }
    let result_row_regs: usize = queue_row_regs + sort_count + 1;
    program.emit_insn(
        Insn::IdxDelete {
            start_reg: queue_row_regs,
            num_regs: queue_column_count,
            cursor_id: queue_cursor_id,
            raise_error_if_no_matching_entry: false,
        },
    );
    program.emit_insn(
        Insn::MakeRecord {
            start_reg: result_row_regs as u32,
            count: num_result_columns as u32,
            dest_reg: input_record_reg as u32,
        },
    );
    if let Some(reg) = offset_reg {
        program.emit_insn(Insn::IfPos { reg, target_pc: run_recursive_query, decrement_by: 1 });
    }
    program.emit_fragment(
        Fragment::ColumnsToDestination { start_reg: result_row_regs, count: num_result_columns },
    );
    if let Some(reg) = limit_reg {
        program.emit_insn(Insn::DecrJumpZero { reg, target_pc: recursive_cte_end });
    }
    program.preassign_label_to_next_insn(run_recursive_query);
    program.emit_fragment(Fragment::Explain(ExplainStep::RecursiveStep));
    program.emit_fragment(Fragment::RecursiveQuery);
    program.emit_fragment(Fragment::EndExplain);
    program.emit_insn(Insn::Goto { target_pc: dequeue_next_row });
    program.preassign_label_to_next_insn(recursive_cte_end);
    program.emit_insn(Insn::Close { cursor_id: queue_cursor_id });
    if let Some(cursor_id) = seen_cursor_id {
        program.emit_insn(Insn::Close { cursor_id });
    }
    program.emit_insn(Insn::Close { cursor_id: input_cursor_id });
    program.set_result(copy_result_columns(&plan.initial_query.result_columns), result_row_regs);
    (queue, result_row_regs)
}

/// Writes the code of a recursive expression. Both parts are to put their rows
/// into one queue, which is returned with the registers that the rows of the
/// result stand in.
///
/// Nothing is said of when the allocator refuses; neither the program nor the
/// plan has changed then.
pub fn emit_recursive_cte(program: &mut ProgramBuilder, plan: &mut RecursiveCtePlan) -> (r: Result<
    (QueueDestination, usize),
    LimboError,
>)
    requires
        well_formed(*old(plan)),
        recursive_cte(old(program)@, *old(plan)).fits(),
    ensures
        match r {
            Ok((queue, result_row_regs)) => {
                &&& final(program)@ == recursive_cte(old(program)@, *old(plan))
                &&& final(program)@.result_columns == old(plan).initial_query.result_columns@
                &&& final(program)@.reg_result_cols_start == Some(result_row_regs)
                &&& result_row_regs == cte_layout(old(program)@, *old(plan)).result_row_regs
                &&& queue@ == cte_queue(old(program)@, *old(plan))
                &&& both_go_to(*old(plan), *final(plan), queue@)
                &&& !(old(plan).initial_query.query is Other)
                &&& !(old(plan).recursive_query.query is Other)
            },
            Err(e) => {
                &&& final(program)@ == old(program)@
                &&& *final(plan) == *old(plan)
                &&& if old(plan).initial_query.query is Other
                    || old(plan).recursive_query.query is Other {
                    e.is_internal_error(not_a_select())
                } else {
                    e is OutOfMemory
                }
            },
        },
{
    let is_select: bool = match (&plan.initial_query.query, &plan.recursive_query.query) {
        (QueryPart::Other, _) => false,
        (_, QueryPart::Other) => false,
        _ => true,
    };
    if !is_select {
        return Err(LimboError::InternalError("recursive CTE query is not a SELECT".to_owned()));
    }
    proof {
        let l = cte_layout(program@, *plan);
        let count = queue_columns(*plan).len();
        read_queue_keeps(
            cte_setup(program@, *plan).bind(l.dequeue).op(
                Insn::Rewind { cursor_id: l.queue_cursor, pc_if_empty: l.end },
            ).take_regs(count),
            l.queue_cursor,
            l.queue_row_regs as nat,
            count,
        );
    }
    let (columns, sort_keys) = match build_queue(plan) {
        Ok(built) => built,
        Err(e) => {
            return Err(e);
        },
    };
    let seen_columns: Vec<IndexColumn> = if plan.union_all {
        Vec::new()
    } else {
        match build_seen(plan) {
            Ok(columns) => columns,
            Err(e) => {
                return Err(e);
            },
        }
    };
    Ok(write_recursive_cte(program, plan, columns, sort_keys, seen_columns))
}

proof fn read_queue_sound(
    p: Code,
    cursor_id: usize,
    base: nat,
    n: nat,
    label: Label,
    bound: nat,
)
    ensures
        window_laws::sound_step(p, read_queue(p, cursor_id, base, n), label, bound),
    decreases n,
{
    broadcast use window_laws::group_sound;

    read_queue_keeps(p, cursor_id, base, n);
    if n > 0 {
        read_queue_keeps(p, cursor_id, base, (n - 1) as nat);
        read_queue_sound(p, cursor_id, base, (n - 1) as nat, label, bound);
    }
}

/// The code of a recursive expression gives every label that it takes exactly
/// one place, and no other label; its jumps go to labels that have been given
/// out.
pub proof fn recursive_cte_is_sound(p: Code, plan: RecursiveCtePlan, label: Label, bound: nat)
    requires
        recursive_cte(p, plan).fits(),
        recursive_cte(p, plan).labels <= bound,
    ensures
        window_laws::sound_step(p, recursive_cte(p, plan), label, bound),
{
    broadcast use window_laws::group_sound;

    let l = cte_layout(p, plan);
    let count = queue_columns(plan).len();
    let setup = cte_setup(p, plan);
    let start = setup.bind(l.dequeue).op(
        Insn::Rewind { cursor_id: l.queue_cursor, pc_if_empty: l.end },
    ).take_regs(count);
    read_queue_keeps(start, l.queue_cursor, l.queue_row_regs as nat, count);
    read_queue_sound(start, l.queue_cursor, l.queue_row_regs as nat, count, label, bound);
}

} // verus!
