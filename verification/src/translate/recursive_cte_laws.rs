//! What the code of a recursive expression hands out when it is executed.

use vstd::prelude::*;
use crate::translate::machine;
use crate::translate::machine::{Effect, Outcome};
use crate::translate::program;
use crate::translate::program::{Code, ExplainStep, Fragment, Insn, Item};
use crate::translate::recursive_cte;
use crate::translate::recursive_cte::{CteLayout, RecursiveCtePlan};
use crate::translate::window_machine;
use crate::translate::window_machine::Cell;

verus! {

/// The machine that executes the code of a recursive expression.
pub struct CteMachine {
    pub regs: Map<usize, Cell>,
    /// The entries of indexes, by their cursors, in their order.
    pub indexes: Map<usize, Seq<Seq<Cell>>>,
    /// The registers that pseudo-cursors read.
    pub inputs: Map<usize, usize>,
    /// The rows that were handed to the destination.
    pub out: Seq<Seq<Cell>>,
}

/// What the parts of an expression do: the first one puts entries into the
/// queue, and the other one does so for a row that it is given. The queue keeps
/// its entries in order.
pub struct Parts {
    pub limit: int,
    pub offset: int,
    pub initial: spec_fn(Seq<Seq<Cell>>) -> Seq<Seq<Cell>>,
    pub again: spec_fn(Seq<Cell>, Seq<Seq<Cell>>) -> Seq<Seq<Cell>>,
    /// The cursor of the queue that the parts write to.
    pub queue: usize,
    /// The cursor by which the other part reads its row.
    pub input: usize,
}

/// Entries without the first that is `key`.
pub open spec fn without(entries: Seq<Seq<Cell>>, key: Seq<Cell>) -> Seq<Seq<Cell>>
    decreases entries.len(),
{
    if entries.len() == 0 {
        entries
    } else if entries[0] == key {
        entries.skip(1)
    } else {
        seq![entries[0]] + without(entries.skip(1), key)
    }
}

pub open spec fn set(s: CteMachine, reg: usize, value: Cell) -> CteMachine {
    CteMachine { regs: s.regs.insert(reg, value), ..s }
}

/// The machine with a register set to a number, where there is a register.
pub open spec fn set_opt(s: CteMachine, reg: Option<usize>, n: int) -> CteMachine {
    match reg {
        Some(reg) => set(s, reg, Cell::Int(n)),
        None => s,
    }
}

/// What an instruction does.
pub open spec fn insn_effect(insn: Insn, s: CteMachine) -> Effect<CteMachine> {
    match insn {
        Insn::OpenPseudo { cursor_id, content_reg, .. } => Effect::Next(
            CteMachine { inputs: s.inputs.insert(cursor_id, content_reg), ..s },
        ),
        Insn::OpenEphemeral { cursor_id, .. } => Effect::Next(
            CteMachine { indexes: s.indexes.insert(cursor_id, Seq::empty()), ..s },
        ),
        Insn::Close { .. } => Effect::Next(s),
        Insn::Rewind { cursor_id, pc_if_empty } => if s.indexes[cursor_id].len() == 0 {
            Effect::Jump(pc_if_empty, s)
        } else {
            Effect::Next(s)
        },
        Insn::Column { cursor_id, column, dest } => Effect::Next(
            set(s, dest, s.indexes[cursor_id][0][column as int]),
        ),
        Insn::IdxDelete { start_reg, num_regs, cursor_id, .. } => Effect::Next(
            CteMachine {
                indexes: s.indexes.insert(
                    cursor_id,
                    without(
                        s.indexes[cursor_id],
                        window_machine::get(s.regs, start_reg as int, num_regs as nat),
                    ),
                ),
                ..s
            },
        ),
        Insn::MakeRecord { start_reg, count, dest_reg } => Effect::Next(
            set(
                s,
                dest_reg as usize,
                Cell::Record(window_machine::get(s.regs, start_reg as int, count as nat)),
            ),
        ),
        Insn::IfPos { reg, target_pc, decrement_by } => if s.regs[reg]->Int_0 > 0 {
            Effect::Jump(target_pc, set(s, reg, Cell::Int(s.regs[reg]->Int_0 - decrement_by)))
        } else {
            Effect::Next(s)
        },
        Insn::DecrJumpZero { reg, target_pc } => {
            let t = set(s, reg, Cell::Int(s.regs[reg]->Int_0 - 1));
            if s.regs[reg]->Int_0 - 1 == 0 {
                Effect::Jump(target_pc, t)
            } else {
                Effect::Next(t)
            }
        },
        Insn::Goto { target_pc } => Effect::Jump(target_pc, s),
        _ => Effect::Stop(s),
    }
}

/// What a fragment does. A limit of zero ends the expression before it begins.
pub open spec fn fragment_effect(fragment: Fragment, s: CteMachine, parts: Parts) -> Effect<
    CteMachine,
> {
    match fragment {
        Fragment::InitLimit { end, limit_reg, offset_reg } => {
            let t = set_opt(set_opt(s, limit_reg, parts.limit), offset_reg, parts.offset);
            if limit_reg is Some && parts.limit == 0 {
                Effect::Jump(end, t)
            } else {
                Effect::Next(t)
            }
        },
        Fragment::Explain(_) => Effect::Next(s),
        Fragment::EndExplain => Effect::Next(s),
        Fragment::InitialQuery => Effect::Next(
            CteMachine {
                indexes: s.indexes.insert(
                    parts.queue,
                    (parts.initial)(s.indexes[parts.queue]),
                ),
                ..s
            },
        ),
        Fragment::RecursiveQuery => match s.regs[s.inputs[parts.input]] {
            Cell::Record(row) => Effect::Next(
                CteMachine {
                    indexes: s.indexes.insert(
                        parts.queue,
                        (parts.again)(row, s.indexes[parts.queue]),
                    ),
                    ..s
                },
            ),
            _ => Effect::Stop(s),
        },
        Fragment::ColumnsToDestination { start_reg, count } => Effect::Next(
            CteMachine {
                out: s.out.push(window_machine::get(s.regs, start_reg as int, count as nat)),
                ..s
            },
        ),
        _ => Effect::Stop(s),
    }
}

/// What items do, as a function.
pub open spec fn effects(parts: Parts) -> spec_fn(Item, CteMachine) -> Effect<CteMachine> {
    |item: Item, s: CteMachine|
        match item {
            Item::Op(insn) => insn_effect(insn, s),
            Item::Bind(_) => Effect::Next(s),
            Item::Fragment(fragment) => fragment_effect(fragment, s, parts),
        }
}

/// The row in an entry of the queue: what stands behind the columns that order
/// the queue and the one that numbers its entries.
pub open spec fn row_in(plan: RecursiveCtePlan, entry: Seq<Cell>) -> Seq<Cell> {
    entry.skip(
        recursive_cte::priority_columns(plan, plan.queue_order@.len()).len() as int + 1,
    )
}

/// The queue behind `k` rows that were taken from its front, each given to the
/// recursive part.
pub open spec fn waiting(plan: RecursiveCtePlan, parts: Parts, k: nat) -> Seq<Seq<Cell>>
    decreases k,
{
    if k == 0 {
        (parts.initial)(Seq::empty())
    } else {
        let before = waiting(plan, parts, (k - 1) as nat);
        if before.len() == 0 {
            before
        } else {
            (parts.again)(row_in(plan, before[0]), before.skip(1))
        }
    }
}

/// The rows that were taken from the front of the queue, up to `k`.
pub open spec fn taken(plan: RecursiveCtePlan, parts: Parts, k: nat) -> Seq<Seq<Cell>>
    decreases k,
{
    if k == 0 {
        Seq::empty()
    } else {
        let before = taken(plan, parts, (k - 1) as nat);
        let queue = waiting(plan, parts, (k - 1) as nat);
        if queue.len() == 0 {
            before
        } else {
            before.push(row_in(plan, queue[0]))
        }
    }
}

/// Rows without the first `offset` ones.
pub open spec fn past(rows: Seq<Seq<Cell>>, offset: int) -> Seq<Seq<Cell>> {
    if offset <= 0 {
        rows
    } else if offset >= rows.len() {
        Seq::empty()
    } else {
        rows.skip(offset)
    }
}

/// The first `limit` of rows; a negative limit is none.
pub open spec fn up_to(rows: Seq<Seq<Cell>>, limit: int) -> Seq<Seq<Cell>> {
    if 0 <= limit < rows.len() {
        rows.take(limit)
    } else {
        rows
    }
}

/// The rows that LIMIT and OFFSET leave of those that were taken.
pub open spec fn wanted(plan: RecursiveCtePlan, parts: Parts, rows: Seq<Seq<Cell>>) -> Seq<
    Seq<Cell>,
> {
    let rest = if plan.has_offset {
        past(rows, parts.offset)
    } else {
        rows
    };
    if plan.has_limit {
        up_to(rest, parts.limit)
    } else {
        rest
    }
}

/// Whether all entries of the queue have a value for each of its columns.
pub open spec fn wide(plan: RecursiveCtePlan, entries: Seq<Seq<Cell>>) -> bool {
    forall|i: int|
        0 <= i < entries.len() ==> (#[trigger] entries[i]).len() == recursive_cte::queue_columns(
            plan,
        ).len()
}

/// Whether the parts of an expression put whole entries into its queue, and read
/// the row that they are given by the cursor of the expression's own table.
pub open spec fn parts_fit(plan: RecursiveCtePlan, parts: Parts, p: Code) -> bool {
    let q = recursive_cte::recursive_cte(p, plan);
    &&& wide(plan, (parts.initial)(Seq::empty()))
    &&& forall|row: Seq<Cell>, entries: Seq<Seq<Cell>>|
        wide(plan, entries) ==> wide(plan, #[trigger] (parts.again)(row, entries))
    &&& parts.queue == recursive_cte::cte_queue(p, plan).cursor_id
    &&& program::table_cursor(q.table_cursors, plan.input_table_id) == Some(parts.input)
}

spec fn reads(l: CteLayout, n: nat) -> Seq<Item> {
    Seq::new(
        n,
        |i: int|
            Item::Op(
                Insn::Column {
                    cursor_id: l.queue_cursor,
                    column: i as usize,
                    dest: (l.queue_row_regs + i) as usize,
                },
            ),
    )
}

proof fn read_queue_items(p: Code, l: CteLayout, n: nat)
    ensures
        recursive_cte::read_queue(p, l.queue_cursor, l.queue_row_regs as nat, n) == (Code {
            items: p.items + reads(l, n),
            ..p
        }),
    decreases n,
{
    if n == 0 {
        assert(p.items + reads(l, 0) =~= p.items);
    } else {
        read_queue_items(p, l, (n - 1) as nat);
        assert(p.items + reads(l, n) =~= (p.items + reads(l, (n - 1) as nat)).push(
            reads(l, n)[n - 1],
        ));
    }
}

spec fn setup_items(plan: RecursiveCtePlan, l: CteLayout) -> Seq<Item> {
    seq![
        Item::Op(
            Insn::OpenPseudo {
                cursor_id: l.input_cursor,
                content_reg: l.input_record_reg,
                num_fields: plan.width() as usize,
            },
        ),
        Item::Op(Insn::OpenEphemeral { cursor_id: l.queue_cursor, is_table: false }),
    ] + (match l.seen_cursor {
        Some(cursor_id) => seq![Item::Op(Insn::OpenEphemeral { cursor_id, is_table: false })],
        None => Seq::empty(),
    }) + seq![
        Item::Fragment(
            Fragment::InitLimit { end: l.end, limit_reg: l.limit_reg, offset_reg: l.offset_reg },
        ),
        Item::Fragment(Fragment::Explain(ExplainStep::Setup)),
        Item::Fragment(Fragment::InitialQuery),
        Item::Fragment(Fragment::EndExplain),
    ]
}

spec fn take_items(plan: RecursiveCtePlan, l: CteLayout) -> Seq<Item> {
    let count = recursive_cte::queue_columns(plan).len();
    seq![
        Item::Op(Insn::Rewind { cursor_id: l.queue_cursor, pc_if_empty: l.end }),
    ] + reads(l, count) + seq![
        Item::Op(
            Insn::IdxDelete {
                start_reg: l.queue_row_regs,
                num_regs: count as usize,
                cursor_id: l.queue_cursor,
                raise_error_if_no_matching_entry: false,
            },
        ),
        Item::Op(
            Insn::MakeRecord {
                start_reg: l.result_row_regs as u32,
                count: plan.width() as u32,
                dest_reg: l.input_record_reg as u32,
            },
        ),
    ]
}

spec fn send_items(plan: RecursiveCtePlan, l: CteLayout) -> Seq<Item> {
    (match l.offset_reg {
        Some(reg) => seq![
            Item::Op(Insn::IfPos { reg, target_pc: l.run, decrement_by: 1 }),
        ],
        None => Seq::empty(),
    }) + seq![
        Item::Fragment(
            Fragment::ColumnsToDestination {
                start_reg: l.result_row_regs,
                count: plan.width() as usize,
            },
        ),
    ] + (match l.limit_reg {
        Some(reg) => seq![Item::Op(Insn::DecrJumpZero { reg, target_pc: l.end })],
        None => Seq::empty(),
    })
}

spec fn again_items(l: CteLayout) -> Seq<Item> {
    seq![
        Item::Bind(l.run),
        Item::Fragment(Fragment::Explain(ExplainStep::RecursiveStep)),
        Item::Fragment(Fragment::RecursiveQuery),
        Item::Fragment(Fragment::EndExplain),
        Item::Op(Insn::Goto { target_pc: l.dequeue }),
        Item::Bind(l.end),
        Item::Op(Insn::Close { cursor_id: l.queue_cursor }),
    ] + (match l.seen_cursor {
        Some(cursor_id) => seq![Item::Op(Insn::Close { cursor_id })],
        None => Seq::empty(),
    }) + seq![Item::Op(Insn::Close { cursor_id: l.input_cursor })]
}

spec fn loop_items(plan: RecursiveCtePlan, l: CteLayout) -> Seq<Item> {
    take_items(plan, l) + (send_items(plan, l) + again_items(l))
}

spec fn front_items(plan: RecursiveCtePlan, l: CteLayout) -> Seq<Item> {
    setup_items(plan, l).push(Item::Bind(l.dequeue))
}

proof fn setup_items_are(p: Code, plan: RecursiveCtePlan)
    ensures
        ({
            let l = recursive_cte::cte_layout(p, plan);
            recursive_cte::cte_setup(p, plan).items == p.items + setup_items(plan, l)
        }),
{
    let l = recursive_cte::cte_layout(p, plan);
    assert(recursive_cte::cte_setup(p, plan).items =~= p.items + setup_items(plan, l));
}

spec fn limited(taken: Code, plan: RecursiveCtePlan, l: CteLayout) -> Code {
    let offset = match l.offset_reg {
        Some(reg) => taken.op(Insn::IfPos { reg, target_pc: l.run, decrement_by: 1 }),
        None => taken,
    };
    let sent = offset.fragment(
        Fragment::ColumnsToDestination {
            start_reg: l.result_row_regs,
            count: plan.width() as usize,
        },
    );
    match l.limit_reg {
        Some(reg) => sent.op(Insn::DecrJumpZero { reg, target_pc: l.end }),
        None => sent,
    }
}

proof fn send_items_are(taken: Code, plan: RecursiveCtePlan, l: CteLayout)
    ensures
        limited(taken, plan, l).items == taken.items + send_items(plan, l),
{
    assert(limited(taken, plan, l).items =~= taken.items + send_items(plan, l));
}

spec fn closed(limited: Code, l: CteLayout) -> Code {
    recursive_cte::cte_close(
        limited.bind(l.run).fragment(Fragment::Explain(ExplainStep::RecursiveStep)).fragment(
            Fragment::RecursiveQuery,
        ).fragment(Fragment::EndExplain).op(Insn::Goto { target_pc: l.dequeue }).bind(l.end),
        l,
    )
}

proof fn again_items_are(limited: Code, l: CteLayout)
    ensures
        closed(limited, l).items == limited.items + again_items(l),
{
    assert(closed(limited, l).items =~= limited.items + again_items(l));
}

#[verifier::rlimit(80)]
proof fn loop_items_are(p: Code, plan: RecursiveCtePlan, l: CteLayout)
    ensures
        recursive_cte::cte_close(recursive_cte::cte_loop(p, plan, l), l).items == p.items.push(
            Item::Bind(l.dequeue),
        ) + loop_items(plan, l),
{
    let count = recursive_cte::queue_columns(plan).len();
    let start = p.bind(l.dequeue).op(
        Insn::Rewind { cursor_id: l.queue_cursor, pc_if_empty: l.end },
    ).take_regs(count);
    read_queue_items(start, l, count);
    let front = p.items.push(Item::Bind(l.dequeue));
    let read = recursive_cte::read_queue(
        start,
        l.queue_cursor,
        l.queue_row_regs as nat,
        count,
    );
    let taken = read.op(
        Insn::IdxDelete {
            start_reg: l.queue_row_regs,
            num_regs: count as usize,
            cursor_id: l.queue_cursor,
            raise_error_if_no_matching_entry: false,
        },
    ).op(
        Insn::MakeRecord {
            start_reg: l.result_row_regs as u32,
            count: plan.width() as u32,
            dest_reg: l.input_record_reg as u32,
        },
    );
    assert(read.items =~= front + (seq![
        Item::Op(Insn::Rewind { cursor_id: l.queue_cursor, pc_if_empty: l.end }),
    ] + reads(l, count)));
    assert(taken.items =~= front + take_items(plan, l));
    send_items_are(taken, plan, l);
    again_items_are(limited(taken, plan, l), l);
    assert(recursive_cte::cte_close(recursive_cte::cte_loop(p, plan, l), l) == closed(
        limited(taken, plan, l),
        l,
    ));
    assert(front + take_items(plan, l) + send_items(plan, l) + again_items(l) =~= front
        + loop_items(plan, l));
}

proof fn items_are(p: Code, plan: RecursiveCtePlan)
    ensures
        ({
            let l = recursive_cte::cte_layout(p, plan);
            let q = recursive_cte::recursive_cte(p, plan);
            machine::written(p, q) == front_items(plan, l) + loop_items(plan, l)
        }),
{
    let l = recursive_cte::cte_layout(p, plan);
    let q = recursive_cte::recursive_cte(p, plan);
    setup_items_are(p, plan);
    loop_items_are(recursive_cte::cte_setup(p, plan), plan, l);
    let front = p.items + setup_items(plan, l);
    assert(front.push(Item::Bind(l.dequeue)) =~= p.items + front_items(plan, l));
    assert(q.items =~= p.items + (front_items(plan, l) + loop_items(plan, l)));
    assert(machine::written(p, q) =~= front_items(plan, l) + loop_items(plan, l));
}

/// What the layout of an expression that fits looks like.
spec fn laid_out(plan: RecursiveCtePlan, l: CteLayout) -> bool {
    let count = recursive_cte::queue_columns(plan).len();
    let keys = recursive_cte::priority_columns(plan, plan.queue_order@.len()).len();
    &&& l.queue_row_regs + count <= u32::MAX
    &&& count == keys + 1 + plan.width()
    &&& l.result_row_regs == l.queue_row_regs + keys + 1
    &&& l.input_record_reg < l.queue_row_regs
    &&& l.limit_reg is Some <==> plan.has_limit
    &&& l.offset_reg is Some <==> plan.has_offset
    &&& l.limit_reg matches Some(reg) ==> l.input_record_reg < reg < l.queue_row_regs
    &&& l.offset_reg matches Some(reg) ==> l.input_record_reg < reg < l.queue_row_regs
    &&& l.limit_reg is Some && l.offset_reg is Some ==> l.limit_reg != l.offset_reg
    &&& l.end != l.dequeue && l.end != l.run && l.dequeue != l.run
    &&& l.seen_cursor matches Some(seen) ==> seen != l.queue_cursor
}

proof fn layout_is(p: Code, plan: RecursiveCtePlan)
    requires
        recursive_cte::recursive_cte(p, plan).fits(),
    ensures
        laid_out(plan, recursive_cte::cte_layout(p, plan)),
{
    let l = recursive_cte::cte_layout(p, plan);
    let setup = recursive_cte::cte_setup(p, plan);
    let count = recursive_cte::queue_columns(plan).len();
    let start = setup.bind(l.dequeue).op(
        Insn::Rewind { cursor_id: l.queue_cursor, pc_if_empty: l.end },
    ).take_regs(count);
    read_queue_items(start, l, count);
}

/// The machine with the row at the front of the queue in the registers.
spec fn with_front(plan: RecursiveCtePlan, l: CteLayout, s: CteMachine) -> Map<usize, Cell> {
    window_machine::put(s.regs, l.queue_row_regs as int, s.indexes[l.queue_cursor][0])
}

proof fn reads_front(
    plan: RecursiveCtePlan,
    l: CteLayout,
    items: Seq<Item>,
    from: int,
    n: nat,
    s: CteMachine,
    parts: Parts,
)
    requires
        0 <= from,
        from + n <= items.len(),
        forall|i: int| 0 <= i < n ==> #[trigger] items[from + i] == reads(l, n)[i],
        s.indexes[l.queue_cursor][0].len() >= n,
        l.queue_row_regs + n <= u32::MAX,
    ensures
        ({
            let t = CteMachine {
                regs: window_machine::put(
                    s.regs,
                    l.queue_row_regs as int,
                    s.indexes[l.queue_cursor][0].take(n as int),
                ),
                ..s
            };
            machine::exec(items, from, s, effects(parts)) == machine::exec(
                items,
                from + n,
                t,
                effects(parts),
            )
        }),
    decreases n,
{
    let entry = s.indexes[l.queue_cursor][0];
    if n == 0 {
        assert(entry.take(0) =~= Seq::<Cell>::empty());
    } else {
        let k = (n - 1) as nat;
        assert forall|i: int| 0 <= i < k implies #[trigger] items[from + i] == reads(l, k)[i] by {
            assert(items[from + i] == reads(l, n)[i]);
        }
        reads_front(plan, l, items, from, k, s, parts);
        let t = CteMachine {
            regs: window_machine::put(
                s.regs,
                l.queue_row_regs as int,
                entry.take(k as int),
            ),
            ..s
        };
        assert(items[from + k] == reads(l, n)[k as int]);
        assert(entry.take(n as int).drop_last() =~= entry.take(k as int));
        assert(entry.take(n as int).last() == entry[k as int]);
        let u = CteMachine {
            regs: window_machine::put(s.regs, l.queue_row_regs as int, entry.take(n as int)),
            ..s
        };
        assert(effects(parts)(items[from + k], t) == Effect::Next(u));
    }
}

/// The machine when a row has been taken: the entry is gone from the queue, its
/// values stand in registers, and its row is in the record that the recursive
/// part reads.
spec fn took(plan: RecursiveCtePlan, l: CteLayout, s: CteMachine, t: CteMachine) -> bool {
    let entry = s.indexes[l.queue_cursor][0];
    &&& t.indexes == s.indexes.insert(l.queue_cursor, s.indexes[l.queue_cursor].skip(1))
    &&& t.inputs == s.inputs
    &&& t.out == s.out
    &&& t.regs[l.input_record_reg] == Cell::Record(row_in(plan, entry))
    &&& window_machine::get(t.regs, l.result_row_regs as int, plan.width()) == row_in(plan, entry)
    &&& forall|r: usize|
        r < l.queue_row_regs && r != l.input_record_reg ==> #[trigger] t.regs[r] == s.regs[r]
}

proof fn taking(plan: RecursiveCtePlan, l: CteLayout, s: CteMachine, parts: Parts)
    requires
        laid_out(plan, l),
        wide(plan, s.indexes[l.queue_cursor]),
    ensures
        ({
            let outcome = machine::exec(take_items(plan, l), 0, s, effects(parts));
            if s.indexes[l.queue_cursor].len() == 0 {
                outcome == Outcome::Away(l.end, s)
            } else {
                outcome matches Outcome::Through(t) && took(plan, l, s, t)
            }
        }),
{
    let items = take_items(plan, l);
    let step = effects(parts);
    let count = recursive_cte::queue_columns(plan).len();
    let queue = s.indexes[l.queue_cursor];
    assert(items.len() == count + 3);
    assert(items[0] == Item::Op(
        Insn::Rewind { cursor_id: l.queue_cursor, pc_if_empty: l.end },
    ));
    if queue.len() == 0 {
        assert forall|j: int| 1 <= j < items.len() implies #[trigger] items[j] != Item::Bind(
            l.end,
        ) by {
            if j <= count {
                assert(items[j] == reads(l, count)[j - 1]);
            }
        }
        machine::place_absent(items, l.end, 1);
    } else {
        let entry = queue[0];
        assert(entry.len() == count);
        assert forall|i: int| 0 <= i < count implies #[trigger] items[1 + i] == reads(
            l,
            count,
        )[i] by {}
        assert(machine::exec(items, 0, s, step) == machine::exec(items, 1, s, step));
        reads_front(plan, l, items, 1, count, s, parts);
        assert(entry.take(count as int) =~= entry);
        let s1 = CteMachine { regs: with_front(plan, l, s), ..s };
        window_machine::put_reads(s.regs, l.queue_row_regs as int, entry);
        let d = 1 + count as int;
        assert(items[d] is Op && items[d + 1] is Op);
        let key = window_machine::get(s1.regs, l.queue_row_regs as int, count);
        assert(key =~= entry) by {
            assert forall|i: int| 0 <= i < count implies key[i] == entry[i] by {
                assert(s1.regs[(l.queue_row_regs + i) as usize] == entry[i]);
            }
        }
        assert(without(queue, key) == queue.skip(1));
        let s2 = CteMachine {
            indexes: s.indexes.insert(l.queue_cursor, queue.skip(1)),
            ..s1
        };
        assert(machine::exec(items, d, s1, step) == machine::exec(items, d + 1, s2, step));
        let row = window_machine::get(s1.regs, l.result_row_regs as int, plan.width());
        let keys = recursive_cte::priority_columns(plan, plan.queue_order@.len()).len();
        assert(row =~= row_in(plan, entry)) by {
            assert forall|i: int| 0 <= i < plan.width() implies row[i] == row_in(
                plan,
                entry,
            )[i] by {
                assert(s1.regs[(l.queue_row_regs + (keys + 1 + i)) as usize] == entry[keys + 1
                    + i]);
            }
        }
        let s3 = set(s2, l.input_record_reg, Cell::Record(row));
        assert(machine::exec(items, d + 1, s2, step) == machine::exec(items, d + 2, s3, step));
        assert(machine::exec(items, d + 2, s3, step) == Outcome::Through(s3));
        assert(window_machine::get(s3.regs, l.result_row_regs as int, plan.width()) =~= row);
    }
}

/// The number in a register, where there is one.
spec fn number(s: CteMachine, reg: Option<usize>) -> int {
    match reg {
        Some(reg) => s.regs[reg]->Int_0,
        None => 0,
    }
}

proof fn sending(plan: RecursiveCtePlan, l: CteLayout, s: CteMachine, parts: Parts)
    requires
        laid_out(plan, l),
    ensures
        ({
            let outcome = machine::exec(send_items(plan, l), 0, s, effects(parts));
            let row = window_machine::get(s.regs, l.result_row_regs as int, plan.width());
            let sent = CteMachine { out: s.out.push(row), ..s };
            if plan.has_offset && number(s, l.offset_reg) > 0 {
                outcome == Outcome::Away(
                    l.run,
                    set_opt(s, l.offset_reg, number(s, l.offset_reg) - 1),
                )
            } else if plan.has_limit {
                let counted = set_opt(sent, l.limit_reg, number(s, l.limit_reg) - 1);
                if number(s, l.limit_reg) == 1 {
                    outcome == Outcome::Away(l.end, counted)
                } else {
                    outcome == Outcome::Through(counted)
                }
            } else {
                outcome == Outcome::Through(sent)
            }
        }),
{
    let items = send_items(plan, l);
    let step = effects(parts);
    let row = window_machine::get(s.regs, l.result_row_regs as int, plan.width());
    let sent = CteMachine { out: s.out.push(row), ..s };
    let k = if plan.has_offset {
        1int
    } else {
        0int
    };
    assert(items[k] == Item::Fragment(
        Fragment::ColumnsToDestination {
            start_reg: l.result_row_regs,
            count: plan.width() as usize,
        },
    ));
    assert forall|j: int| 0 <= j < items.len() implies !(#[trigger] items[j] is Bind) by {}
    if plan.has_offset {
        machine::place_absent(items, l.run, 1);
        assert(items[0] == Item::Op(
            Insn::IfPos { reg: l.offset_reg->Some_0, target_pc: l.run, decrement_by: 1 },
        ));
    }
    if !(plan.has_offset && number(s, l.offset_reg) > 0) {
        assert(machine::exec(items, 0, s, step) == machine::exec(items, k, s, step));
        assert(machine::exec(items, k, s, step) == machine::exec(items, k + 1, sent, step));
        if plan.has_limit {
            assert(items.len() == k + 2);
            assert(items[k + 1] == Item::Op(
                Insn::DecrJumpZero { reg: l.limit_reg->Some_0, target_pc: l.end },
            ));
            machine::place_absent(items, l.end, k + 2);
            let counted = set_opt(sent, l.limit_reg, number(s, l.limit_reg) - 1);
            if number(s, l.limit_reg) != 1 {
                assert(machine::exec(items, k + 1, sent, step) == machine::exec(
                    items,
                    k + 2,
                    counted,
                    step,
                ));
                assert(machine::exec(items, k + 2, counted, step) == Outcome::Through(counted));
            }
        } else {
            assert(items.len() == k + 1);
        }
    }
}

/// The machine when the recursive part has run for a row.
spec fn recursed(s: CteMachine, parts: Parts, row: Seq<Cell>) -> CteMachine {
    CteMachine {
        indexes: s.indexes.insert(parts.queue, (parts.again)(row, s.indexes[parts.queue])),
        ..s
    }
}

proof fn going_on(plan: RecursiveCtePlan, l: CteLayout, s: CteMachine, parts: Parts)
    requires
        laid_out(plan, l),
    ensures
        machine::place(again_items(l), l.run, 0) == Some(0int),
        machine::place(again_items(l), l.end, 0) == Some(5int),
        machine::exec(again_items(l), 6, s, effects(parts)) == Outcome::Through(s),
        s.regs[s.inputs[parts.input]] matches Cell::Record(row) ==> {
            &&& machine::exec(again_items(l), 0, s, effects(parts)) == Outcome::Away(
                l.dequeue,
                recursed(s, parts, row),
            )
            &&& machine::exec(again_items(l), 1, s, effects(parts)) == Outcome::Away(
                l.dequeue,
                recursed(s, parts, row),
            )
        },
{
    let items = again_items(l);
    let step = effects(parts);
    machine::place_found(items, l.run, 0, 0);
    assert forall|j: int| 0 <= j < 5 implies #[trigger] items[j] != Item::Bind(l.end) by {}
    machine::place_found(items, l.end, 0, 5);
    assert forall|j: int| 5 <= j < items.len() implies #[trigger] items[j] != Item::Bind(
        l.dequeue,
    ) by {}
    machine::place_absent(items, l.dequeue, 5);
    let n = items.len() as int;
    assert(items[6] is Op && items[n - 1] is Op);
    assert(machine::exec(items, n, s, step) == Outcome::Through(s));
    assert(machine::exec(items, n - 1, s, step) == machine::exec(items, n, s, step));
    assert(machine::exec(items, n - 2, s, step) == machine::exec(items, n - 1, s, step));
    if n == 9 {
        assert(machine::exec(items, 6, s, step) == machine::exec(items, 7, s, step));
    }
    if let Cell::Record(row) = s.regs[s.inputs[parts.input]] {
        let t = recursed(s, parts, row);
        assert(machine::exec(items, 0, s, step) == machine::exec(items, 1, s, step));
        assert(machine::exec(items, 1, s, step) == machine::exec(items, 2, s, step));
        assert(machine::exec(items, 2, s, step) == machine::exec(items, 3, t, step));
        assert(machine::exec(items, 3, t, step) == machine::exec(items, 4, t, step));
    }
}

/// One round of the loop.
spec fn went_round(
    plan: RecursiveCtePlan,
    l: CteLayout,
    parts: Parts,
    s: CteMachine,
    outcome: Outcome<CteMachine>,
) -> bool {
    let queue = s.indexes[l.queue_cursor];
    let row = row_in(plan, queue[0]);
    let skips = plan.has_offset && number(s, l.offset_reg) > 0;
    if queue.len() == 0 {
        outcome == Outcome::Through(s)
    } else if !skips && plan.has_limit && number(s, l.limit_reg) == 1 {
        outcome matches Outcome::Through(t) && t.out == s.out.push(row)
    } else {
        outcome matches Outcome::Away(label, t) && {
            &&& label == l.dequeue
            &&& t.indexes[l.queue_cursor] == (parts.again)(row, queue.skip(1))
            &&& t.inputs == s.inputs
            &&& t.out == if skips {
                s.out
            } else {
                s.out.push(row)
            }
            &&& plan.has_offset ==> number(t, l.offset_reg) == if skips {
                number(s, l.offset_reg) - 1
            } else {
                number(s, l.offset_reg)
            }
            &&& plan.has_limit ==> number(t, l.limit_reg) == if skips {
                number(s, l.limit_reg)
            } else {
                number(s, l.limit_reg) - 1
            }
        }
    }
}

proof fn going_round(plan: RecursiveCtePlan, l: CteLayout, s: CteMachine, parts: Parts)
    requires
        laid_out(plan, l),
        wide(plan, s.indexes[l.queue_cursor]),
        parts.queue == l.queue_cursor,
        s.inputs[parts.input] == l.input_record_reg,
    ensures
        went_round(
            plan,
            l,
            parts,
            s,
            machine::exec(loop_items(plan, l), 0, s, effects(parts)),
        ),
{
    let step = effects(parts);
    let a = take_items(plan, l);
    let b = send_items(plan, l);
    let c = again_items(l);
    taking(plan, l, s, parts);
    machine::jumps_go_ahead(a, b + c, s, step);
    machine::code_is_executed_in_order(a, b + c, s, step);
    assert forall|j: int| 0 <= j < b.len() implies !(#[trigger] b[j] is Bind) by {}
    if s.indexes[l.queue_cursor].len() == 0 {
        going_on(plan, l, s, parts);
        machine::place_absent(b, l.end, 0);
        machine::place_past(b, c, l.end, 0);
        machine::exec_behind(b, c, 6, s, step);
    } else {
        let t = machine::exec(a, 0, s, step)->Through_0;
        sending(plan, l, t, parts);
        machine::jumps_go_ahead(b, c, t, step);
        machine::code_is_executed_in_order(b, c, t, step);
        let row = row_in(plan, s.indexes[l.queue_cursor][0]);
        let u = machine::reached(machine::exec(b, 0, t, step));
        assert(u.regs[l.input_record_reg] == Cell::Record(row));
        going_on(plan, l, u, parts);
    }
}

proof fn taken_stays(plan: RecursiveCtePlan, parts: Parts, j: nat, k: nat)
    requires
        j <= k,
    ensures
        taken(plan, parts, j).is_prefix_of(taken(plan, parts, k)),
        waiting(plan, parts, j).len() == 0 ==> taken(plan, parts, k) == taken(plan, parts, j)
            && waiting(plan, parts, k).len() == 0,
    decreases k,
{
    if j < k {
        taken_stays(plan, parts, j, (k - 1) as nat);
    }
}

/// The machine when `j` rows have been taken and the loop goes on.
spec fn underway(
    plan: RecursiveCtePlan,
    l: CteLayout,
    parts: Parts,
    s: CteMachine,
    j: nat,
) -> bool {
    let rows = taken(plan, parts, j);
    &&& rows.len() == j
    &&& wide(plan, s.indexes[l.queue_cursor])
    &&& s.indexes[l.queue_cursor] == waiting(plan, parts, j)
    &&& s.inputs[parts.input] == l.input_record_reg
    &&& s.out == if plan.has_offset {
        past(rows, parts.offset)
    } else {
        rows
    }
    &&& plan.has_offset ==> number(s, l.offset_reg) == if parts.offset <= 0 {
        parts.offset
    } else if j < parts.offset {
        parts.offset - j
    } else {
        0
    }
    &&& plan.has_limit ==> {
        &&& number(s, l.limit_reg) == parts.limit - s.out.len()
        &&& parts.limit != 0
        &&& parts.limit > 0 ==> s.out.len() < parts.limit
    }
}

#[verifier::rlimit(40)]
proof fn rounds(
    plan: RecursiveCtePlan,
    l: CteLayout,
    s: CteMachine,
    parts: Parts,
    j: nat,
    fuel: nat,
)
    requires
        laid_out(plan, l),
        parts.queue == l.queue_cursor,
        forall|row: Seq<Cell>, entries: Seq<Seq<Cell>>|
            wide(plan, entries) ==> wide(plan, #[trigger] (parts.again)(row, entries)),
        underway(plan, l, parts, s, j),
    ensures
        ({
            let front = front_items(plan, l);
            let items = front + loop_items(plan, l);
            let outcome = machine::run(items, front.len() as int, s, effects(parts), fuel);
            &&& machine::reached(outcome).out == wanted(
                plan,
                parts,
                taken(plan, parts, j + fuel + 1),
            )
            &&& !(outcome is Halted)
            &&& outcome is Away ==> {
                &&& taken(plan, parts, j + fuel + 1).len() == j + fuel + 1
                &&& plan.has_limit && parts.limit > 0 ==> machine::reached(outcome).out.len()
                    < parts.limit
            }
        }),
    decreases fuel,
{
    let front = front_items(plan, l);
    let body = loop_items(plan, l);
    let items = front + body;
    let step = effects(parts);
    let d = front.len() as int - 1;
    let queue = s.indexes[l.queue_cursor];
    let rows = taken(plan, parts, j);
    machine::exec_behind(front, body, 0, s, step);
    going_round(plan, l, s, parts);
    let outcome = machine::exec(body, 0, s, step);
    assert(items[d] == Item::Bind(l.dequeue));
    assert forall|i: int| 0 <= i < d implies #[trigger] items[i] != Item::Bind(l.dequeue) by {
        assert(items[i] == setup_items(plan, l)[i]);
    }
    machine::place_found(items, l.dequeue, 0, d);
    taken_stays(plan, parts, j, j + fuel + 1);
    if queue.len() > 0 {
        let row = row_in(plan, queue[0]);
        let next = taken(plan, parts, j + 1);
        assert(next == rows.push(row));
        let skips = plan.has_offset && number(s, l.offset_reg) > 0;
        assert(plan.has_offset ==> past(next, parts.offset) =~= if skips {
            past(rows, parts.offset)
        } else {
            past(rows, parts.offset).push(row)
        });
        taken_stays(plan, parts, j + 1, j + fuel + 1);
        if !skips && plan.has_limit && number(s, l.limit_reg) == 1 {
            let all = taken(plan, parts, j + fuel + 1);
            let t = outcome->Through_0;
            let rest = if plan.has_offset {
                past(all, parts.offset)
            } else {
                all
            };
            assert(t.out.is_prefix_of(rest)) by {
                assert forall|i: int| 0 <= i < next.len() implies all[i] == next[i] by {}
            }
            assert(wanted(plan, parts, all) =~= t.out);
        } else {
            let t = outcome->Away_1;
            assert(t.indexes[l.queue_cursor] == waiting(plan, parts, j + 1));
            assert(underway(plan, l, parts, t, j + 1));
            if fuel > 0 {
                rounds(plan, l, t, parts, j + 1, (fuel - 1) as nat);
                assert(j + 1 + (fuel - 1) as nat + 1 == j + fuel + 1);
            }
        }
    }
}

proof fn setting_up(plan: RecursiveCtePlan, l: CteLayout, s: CteMachine, parts: Parts)
    requires
        laid_out(plan, l),
        parts.queue == l.queue_cursor,
        parts.input == l.input_cursor,
    ensures
        ({
            let outcome = machine::exec(front_items(plan, l), 0, s, effects(parts));
            if plan.has_limit && parts.limit == 0 {
                outcome matches Outcome::Away(label, t) && label == l.end && t.out == s.out
            } else {
                outcome matches Outcome::Through(t) && {
                    &&& t.out == s.out
                    &&& t.indexes[l.queue_cursor] == (parts.initial)(Seq::empty())
                    &&& t.inputs[parts.input] == l.input_record_reg
                    &&& plan.has_limit ==> number(t, l.limit_reg) == parts.limit
                    &&& plan.has_offset ==> number(t, l.offset_reg) == parts.offset
                }
            }
        }),
{
    let items = front_items(plan, l);
    let step = effects(parts);
    let k = if l.seen_cursor is Some {
        3int
    } else {
        2int
    };
    assert(items.len() == k + 5);
    assert(items[0] is Op && items[1] is Op);
    assert(items[k] == Item::Fragment(
        Fragment::InitLimit { end: l.end, limit_reg: l.limit_reg, offset_reg: l.offset_reg },
    ));
    assert(items[k + 1] == Item::Fragment(Fragment::Explain(ExplainStep::Setup)));
    assert(items[k + 2] == Item::Fragment(Fragment::InitialQuery));
    assert(items[k + 3] == Item::Fragment(Fragment::EndExplain));
    assert(items[k + 4] == Item::Bind(l.dequeue));
    let s1 = CteMachine { inputs: s.inputs.insert(l.input_cursor, l.input_record_reg), ..s };
    assert(machine::exec(items, 0, s, step) == machine::exec(items, 1, s1, step));
    let s2 = CteMachine { indexes: s1.indexes.insert(l.queue_cursor, Seq::empty()), ..s1 };
    assert(machine::exec(items, 1, s1, step) == machine::exec(items, 2, s2, step));
    let s3 = match l.seen_cursor {
        Some(cursor) => CteMachine { indexes: s2.indexes.insert(cursor, Seq::empty()), ..s2 },
        None => s2,
    };
    if let Some(cursor) = l.seen_cursor {
        assert(items[2] == Item::Op(
            Insn::OpenEphemeral { cursor_id: cursor, is_table: false },
        ));
    }
    assert(machine::exec(items, 2, s2, step) == machine::exec(items, k, s3, step));
    let s4 = set_opt(set_opt(s3, l.limit_reg, parts.limit), l.offset_reg, parts.offset);
    if plan.has_limit && parts.limit == 0 {
        assert forall|j: int| k + 1 <= j < items.len() implies #[trigger] items[j] != Item::Bind(
            l.end,
        ) by {}
        machine::place_absent(items, l.end, k + 1);
    } else {
        let s5 = CteMachine {
            indexes: s4.indexes.insert(parts.queue, (parts.initial)(s4.indexes[parts.queue])),
            ..s4
        };
        assert(machine::exec(items, k, s3, step) == machine::exec(items, k + 1, s4, step));
        assert(machine::exec(items, k + 1, s4, step) == machine::exec(items, k + 2, s4, step));
        assert(machine::exec(items, k + 2, s4, step) == machine::exec(items, k + 3, s5, step));
        assert(machine::exec(items, k + 3, s5, step) == machine::exec(items, k + 4, s5, step));
        assert(machine::exec(items, k + 4, s5, step) == machine::exec(items, k + 5, s5, step));
        assert(machine::exec(items, k + 5, s5, step) == Outcome::Through(s5));
        assert(s5.indexes[l.queue_cursor] == (parts.initial)(Seq::empty()));
    }
}

proof fn ending_at_once(plan: RecursiveCtePlan, l: CteLayout, s: CteMachine, parts: Parts)
    requires
        laid_out(plan, l),
    ensures
        machine::place(loop_items(plan, l), l.end, 0) matches Some(at) && machine::exec(
            loop_items(plan, l),
            at + 1,
            s,
            effects(parts),
        ) == Outcome::Through(s),
{
    let a = take_items(plan, l);
    let b = send_items(plan, l);
    let c = again_items(l);
    let count = recursive_cte::queue_columns(plan).len();
    assert forall|j: int| 0 <= j < a.len() implies #[trigger] a[j] != Item::Bind(l.end) by {
        if 1 <= j <= count {
            assert(a[j] == reads(l, count)[j - 1]);
        }
    }
    assert forall|j: int| 0 <= j < b.len() implies #[trigger] b[j] != Item::Bind(l.end) by {}
    machine::place_absent(a, l.end, 0);
    machine::place_absent(b, l.end, 0);
    going_on(plan, l, s, parts);
    machine::place_past(b, c, l.end, 0);
    machine::place_past(a, b + c, l.end, 0);
    machine::exec_behind(b, c, 6, s, effects(parts));
    machine::exec_behind(a, b + c, b.len() as int + 6, s, effects(parts));
}

proof fn cursors_are(p: Code, plan: RecursiveCtePlan)
    ensures
        ({
            let l = recursive_cte::cte_layout(p, plan);
            let q = recursive_cte::recursive_cte(p, plan);
            &&& program::table_cursor(q.table_cursors, plan.input_table_id) == Some(
                l.input_cursor,
            )
            &&& recursive_cte::cte_queue(p, plan).cursor_id == l.queue_cursor
        }),
{
    let l = recursive_cte::cte_layout(p, plan);
    let count = recursive_cte::queue_columns(plan).len();
    let (cursor, p0) = p.take_regs(1).keyed_cursor(plan.input_table_id);
    if program::table_cursor(p.table_cursors, plan.input_table_id) is None {
        assert(p0.table_cursors.last().0 == plan.input_table_id);
    }
    let start = recursive_cte::cte_setup(p, plan).bind(l.dequeue).op(
        Insn::Rewind { cursor_id: l.queue_cursor, pc_if_empty: l.end },
    ).take_regs(count);
    read_queue_items(start, l, count);
}

/// When the code of a recursive expression is executed, it hands out the rows
/// that it takes from the front of its queue, one after the other: those of the
/// initial part and those that the recursive part made of rows taken before. Of
/// these rows the first ones are skipped, as many as OFFSET says, and of the rest
/// no more are handed out than LIMIT says. `fuel` bounds how often the loop goes
/// round; a loop that has not ended by then has taken a row every time, and has
/// not reached its limit.
pub proof fn recursion_hands_out_what_was_asked_for(
    p: Code,
    plan: RecursiveCtePlan,
    parts: Parts,
    start: CteMachine,
    fuel: nat,
)
    requires
        recursive_cte::recursive_cte(p, plan).fits(),
        parts_fit(plan, parts, p),
        start.out.len() == 0,
    ensures
        ({
            let q = recursive_cte::recursive_cte(p, plan);
            let outcome = machine::run(
                machine::written(p, q),
                0,
                start,
                effects(parts),
                fuel,
            );
            let out = machine::reached(outcome).out;
            &&& out == wanted(plan, parts, taken(plan, parts, fuel + 1))
            &&& plan.has_limit && parts.limit >= 0 ==> out.len() <= parts.limit
            &&& plan.has_limit && parts.limit > 0 && outcome is Away ==> out.len() < parts.limit
            &&& outcome is Away ==> taken(plan, parts, fuel + 1).len() == fuel + 1
            &&& !(outcome is Halted)
        }),
{
    let q = recursive_cte::recursive_cte(p, plan);
    let l = recursive_cte::cte_layout(p, plan);
    let front = front_items(plan, l);
    let body = loop_items(plan, l);
    let items = front + body;
    let step = effects(parts);
    items_are(p, plan);
    layout_is(p, plan);
    cursors_are(p, plan);
    setting_up(plan, l, start, parts);
    machine::code_is_executed_in_order(front, body, start, step);
    machine::jumps_go_ahead(front, body, start, step);
    let t = machine::reached(machine::exec(front, 0, start, step));
    if plan.has_limit && parts.limit == 0 {
        ending_at_once(plan, l, t, parts);
        assert(machine::run(items, 0, start, step, fuel) == Outcome::Through(t));
        assert(wanted(plan, parts, taken(plan, parts, fuel + 1)) =~= t.out);
    } else {
        machine::exec_behind(front, body, 0, t, step);
        assert(start.out =~= Seq::<Seq<Cell>>::empty());
        assert(past(taken(plan, parts, 0), parts.offset) =~= Seq::<Seq<Cell>>::empty());
        rounds(plan, l, t, parts, 0, fuel);
        assert(machine::run(items, 0, start, step, fuel) == machine::run(
            items,
            front.len() as int,
            t,
            step,
            fuel,
        ));
    }
}

/// Rows that were seen are kept exactly where none is to come twice, in an index
/// of its own beside the queue, whose columns are those of the result.
pub proof fn seen_rows_are_kept_for_union(p: Code, plan: RecursiveCtePlan)
    requires
        recursive_cte::recursive_cte(p, plan).fits(),
    ensures
        ({
            let queue = recursive_cte::cte_queue(p, plan);
            &&& plan.union_all <==> queue.seen_rows is None
            &&& queue.seen_rows matches Some((cursor, index)) ==> {
                &&& cursor != queue.cursor_id
                &&& index.columns.len() == plan.width()
                &&& forall|i: int|
                    0 <= i < index.columns.len() ==> (#[trigger] index.columns[i]).pos_in_table
                        == i && index.columns[i].collation == recursive_cte::column_collation(
                        plan,
                        i as nat,
                    )
            }
            &&& queue.index.unique
        }),
{
    layout_is(p, plan);
}

} // verus!
