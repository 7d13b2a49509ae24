//! What holds of all code that is written for windows.
//!
//! Every label that the code takes stands for exactly one place, every jump
//! goes to a label that has been given out, and registers are compared in the
//! order that the machine wants: the block with the lower number first.

use vstd::prelude::*;
use crate::translate::expr::Expr;
use crate::translate::machine;
use crate::translate::program::{Code, Comment, Fragment, Insn, Item, Label};
use crate::translate::window;
use crate::translate::window::{
    FrameBoundary, FrameMode, OrderTerm, Window, WindowFunction, WindowMetadata,
};
use crate::translate::window_emit;
use crate::translate::window_emit::WindowOp;
use crate::translate::window_init;
use crate::translate::window_init::SourceSubquery;
use crate::translate::window_lookup;
use crate::translate::window_step;
use crate::translate::window_step::OutputPlan;

verus! {

/// How many places a label stands for.
pub open spec fn places(items: Seq<Item>, label: Label) -> nat
    decreases items.len(),
{
    if items.len() == 0 {
        0
    } else {
        places(items.drop_last(), label) + (if items.last() == Item::Bind(label) {
            1nat
        } else {
            0
        })
    }
}

/// Whether an instruction jumps to labels below `bound` only, and compares
/// registers in the order that the machine wants.
pub open spec fn insn_sound(insn: Insn, bound: nat) -> bool {
    match insn {
        Insn::NotNull { target_pc, .. } => target_pc.0 < bound,
        Insn::Rewind { pc_if_empty, .. } => pc_if_empty.0 < bound,
        Insn::Next { pc_if_next, .. } => pc_if_next.0 < bound,
        Insn::Goto { target_pc } => target_pc.0 < bound,
        Insn::Gosub { target_pc, .. } => target_pc.0 < bound,
        Insn::Jump { target_pc_lt, target_pc_eq, target_pc_gt } => target_pc_lt.0 < bound
            && target_pc_eq.0 < bound && target_pc_gt.0 < bound,
        Insn::Gt { target_pc, .. } => target_pc.0 < bound,
        Insn::IfPos { target_pc, .. } => target_pc.0 < bound,
        Insn::IfNot { target_pc, .. } => target_pc.0 < bound,
        Insn::DecrJumpZero { target_pc, .. } => target_pc.0 < bound,
        Insn::MustBeInt { target_pc, .. } => target_pc matches Some(target) ==> target.0 < bound,
        Insn::SeekRowid { target_pc, .. } => target_pc.0 < bound,
        Insn::Compare { start_reg_a, start_reg_b, .. } => start_reg_a < start_reg_b,
        _ => true,
    }
}

/// Whether a fragment is told to jump to labels below `bound` only.
pub open spec fn fragment_sound(fragment: Fragment, bound: nat) -> bool {
    match fragment {
        Fragment::SelectResult { end, skip } => end.0 < bound && skip.0 < bound,
        Fragment::InitLimit { end, .. } => end.0 < bound,
        _ => true,
    }
}

pub open spec fn item_sound(item: Item, bound: nat) -> bool {
    match item {
        Item::Op(insn) => insn_sound(insn, bound),
        Item::Bind(_) => true,
        Item::Fragment(fragment) => fragment_sound(fragment, bound),
    }
}

/// Whether all items are sound.
pub open spec fn items_sound(items: Seq<Item>, bound: nat) -> bool {
    forall|i: int| 0 <= i < items.len() ==> item_sound(#[trigger] items[i], bound)
}

proof fn push_is_sound(items: Seq<Item>, item: Item, label: Label, bound: nat)
    ensures
        places(items.push(item), label) == places(items, label) + (if item == Item::Bind(label) {
            1nat
        } else {
            0
        }),
        items_sound(items, bound) && item_sound(item, bound) ==> items_sound(
            items.push(item),
            bound,
        ),
{
    assert(items.push(item).drop_last() =~= items);
}

pub broadcast proof fn op_places(p: Code, insn: Insn, label: Label)
    ensures
        #[trigger] places(p.op(insn).items, label) == places(p.items, label),
{
    push_is_sound(p.items, Item::Op(insn), label, 0);
}

pub broadcast proof fn op_is_sound(p: Code, insn: Insn, bound: nat)
    ensures
        items_sound(p.items, bound) && insn_sound(insn, bound) ==> #[trigger] items_sound(
            p.op(insn).items,
            bound,
        ),
{
    push_is_sound(p.items, Item::Op(insn), Label(0), bound);
}

pub broadcast proof fn bind_places(p: Code, at: Label, label: Label)
    ensures
        #[trigger] places(p.bind(at).items, label) == places(p.items, label) + (if at == label {
            1nat
        } else {
            0
        }),
{
    push_is_sound(p.items, Item::Bind(at), label, 0);
}

pub broadcast proof fn bind_is_sound(p: Code, at: Label, bound: nat)
    ensures
        items_sound(p.items, bound) ==> #[trigger] items_sound(
            p.bind(at).items,
            bound,
        ),
{
    push_is_sound(p.items, Item::Bind(at), Label(0), bound);
}

pub broadcast proof fn fragment_places(p: Code, fragment: Fragment, label: Label)
    ensures
        #[trigger] places(p.fragment(fragment).items, label) == places(p.items, label),
{
    push_is_sound(p.items, Item::Fragment(fragment), label, 0);
}

pub broadcast proof fn fragment_is_sound(p: Code, fragment: Fragment, bound: nat)
    ensures
        items_sound(p.items, bound) && fragment_sound(fragment, bound) ==> #[trigger] items_sound(
            p.fragment(fragment).items,
            bound,
        ),
{
    push_is_sound(p.items, Item::Fragment(fragment), Label(0), bound);
}

pub broadcast group group_sound {
    op_places,
    op_is_sound,
    bind_places,
    bind_is_sound,
    fragment_places,
    fragment_is_sound,
}

/// 1 where `label` was taken between `p` and `q`, else 0.
pub open spec fn taken(p: Code, q: Code, label: Label) -> nat {
    if p.labels <= label.0 < q.labels {
        1
    } else {
        0
    }
}

/// Between `p` and `q` every label that was taken got its place, and no other
/// did, and the code stayed sound.
pub open spec fn sound_step(p: Code, q: Code, label: Label, bound: nat) -> bool {
    &&& places(q.items, label) == places(p.items, label) + taken(p, q, label)
    &&& items_sound(p.items, bound) ==> items_sound(q.items, bound)
}

/// A label that has no more places in `q` than in `p` has none between them.
pub(crate) proof fn places_between(p: Code, q: Code, label: Label)
    requires
        p.items.is_prefix_of(q.items),
        places(p.items, label) == places(q.items, label),
    ensures
        machine::place(machine::written(p, q), label, 0) is None,
    decreases q.items.len(),
{
    let items = machine::written(p, q);
    if items.len() > 0 {
        let before = Code { items: q.items.drop_last(), ..q };
        places_grow(p.items, before.items, label);
        assert(q.items =~= before.items.push(q.items.last()));
        places_between(p, before, label);
        assert(items =~= machine::written(p, before) + seq![q.items.last()]);
        let last = seq![q.items.last()];
        machine::place_past(machine::written(p, before), last, label, 0);
        assert(last[0] != Item::Bind(label));
        machine::place_absent(last, label, 0);
    }
}

proof fn places_grow(a: Seq<Item>, b: Seq<Item>, label: Label)
    requires
        a.is_prefix_of(b),
    ensures
        places(a, label) <= places(b, label),
    decreases b.len(),
{
    if a.len() < b.len() {
        assert(a.is_prefix_of(b.drop_last()));
        places_grow(a, b.drop_last(), label);
    } else {
        assert(a =~= b);
    }
}

proof fn target_row_sound(p: Code, f: WindowFunction, csr: usize, label: Label, bound: nat)
    requires
        window_lookup::target_row(p, f, csr).fits(),
        window_lookup::target_row(p, f, csr).labels <= bound,
    ensures
        sound_step(p, window_lookup::target_row(p, f, csr), label, bound),
{
    broadcast use group_sound;

}

proof fn value_lookup_sound(
    p: Code,
    f: WindowFunction,
    m: WindowMetadata,
    i: nat,
    label: Label,
    bound: nat,
)
    requires
        window_lookup::value_lookup(p, f, m, i).fits(),
        window_lookup::value_lookup(p, f, m, i).labels <= bound,
    ensures
        sound_step(p, window_lookup::value_lookup(p, f, m, i), label, bound),
{
    broadcast use group_sound;

    let result = (m.registers.acc_result_start + i) as usize;
    let start = p.op(Insn::Null { dest: result, dest_end: None });
    target_row_sound(start, f, m.cursors.csr_current, label, bound);
}

proof fn value_lookups_sound(
    p: Code,
    window: Window,
    m: WindowMetadata,
    n: nat,
    label: Label,
    bound: nat,
)
    requires
        window_lookup::value_lookups(p, window, m, n).fits(),
        window_lookup::value_lookups(p, window, m, n).labels <= bound,
    ensures
        sound_step(p, window_lookup::value_lookups(p, window, m, n), label, bound),
    decreases n,
{
    if n > 0 {
        let k = (n - 1) as nat;
        window_lookup::value_lookups_grow(p, window, m, k, k);
        window_lookup::value_lookups_grow(p, window, m, k, n);
        value_lookups_sound(p, window, m, k, label, bound);
        let f = window.functions@[n - 1];
        if window::needs_frame_end(f.func) {
            value_lookup_sound(
                window_lookup::value_lookups(p, window, m, k),
                f,
                m,
                k,
                label,
                bound,
            );
        }
    }
}

proof fn neighbour_lookup_sound(
    p: Code,
    f: WindowFunction,
    m: WindowMetadata,
    i: nat,
    label: Label,
    bound: nat,
)
    requires
        window_lookup::neighbour_lookup(p, f, m, i).fits(),
        window_lookup::neighbour_lookup(p, f, m, i).labels <= bound,
    ensures
        sound_step(p, window_lookup::neighbour_lookup(p, f, m, i), label, bound),
{
    broadcast use group_sound;

}

proof fn neighbour_lookups_sound(
    p: Code,
    window: Window,
    m: WindowMetadata,
    n: nat,
    label: Label,
    bound: nat,
)
    requires
        window_lookup::neighbour_lookups(p, window, m, n).fits(),
        window_lookup::neighbour_lookups(p, window, m, n).labels <= bound,
    ensures
        sound_step(p, window_lookup::neighbour_lookups(p, window, m, n), label, bound),
    decreases n,
{
    if n > 0 {
        let k = (n - 1) as nat;
        window_lookup::neighbour_lookups_grow(p, window, m, k, k);
        window_lookup::neighbour_lookups_grow(p, window, m, k, n);
        neighbour_lookups_sound(p, window, m, k, label, bound);
        let f = window.functions@[n - 1];
        if window_lookup::is_neighbour(f.func) {
            neighbour_lookup_sound(
                window_lookup::neighbour_lookups(p, window, m, k),
                f,
                m,
                k,
                label,
                bound,
            );
        }
    }
}

proof fn result_columns_sound(p: Code, m: WindowMetadata, n: nat, label: Label, bound: nat)
    ensures
        sound_step(p, window_emit::result_columns(p, m, n), label, bound),
    decreases n,
{
    broadcast use group_sound;

    window_emit::result_columns_keeps(p, m, n);
    if n > 0 {
        window_emit::result_columns_keeps(p, m, (n - 1) as nat);
        result_columns_sound(p, m, (n - 1) as nat, label, bound);
    }
}

proof fn return_row_sound(p: Code, window: Window, m: WindowMetadata, label: Label, bound: nat)
    requires
        window_emit::return_row(p, window, m).fits(),
        window_emit::return_row(p, window, m).labels <= bound,
        m.labels.row_output.0 < bound,
    ensures
        sound_step(p, window_emit::return_row(p, window, m), label, bound),
{
    broadcast use group_sound;

    let n = window.functions@.len();
    let k = m.expressions_referencing_subquery@.len();
    window_emit::result_columns_keeps(p, m, k);
    let columns = window_emit::result_columns(p, m, k);
    window_lookup::value_lookups_grow(columns, window, m, n, n);
    let values = window_lookup::value_lookups(columns, window, m, n);
    window_lookup::neighbour_lookups_grow(values, window, m, n, n);
    result_columns_sound(p, m, k, label, bound);
    value_lookups_sound(columns, window, m, n, label, bound);
    neighbour_lookups_sound(values, window, m, n, label, bound);
}

proof fn load_args_sound(
    p: Code,
    args: Seq<Expr>,
    csr: usize,
    base: nat,
    n: nat,
    label: Label,
    bound: nat,
)
    ensures
        sound_step(p, window_emit::load_args(p, args, csr, base, n), label, bound),
    decreases n,
{
    broadcast use group_sound;

    window_emit::load_args_keeps(p, args, csr, base, n);
    if n > 0 {
        window_emit::load_args_keeps(p, args, csr, base, (n - 1) as nat);
        load_args_sound(p, args, csr, base, (n - 1) as nat, label, bound);
    }
}

proof fn step_one_sound(
    p: Code,
    f: WindowFunction,
    acc_reg: usize,
    csr: usize,
    label: Label,
    bound: nat,
)
    requires
        window_emit::step_one(p, f, acc_reg, csr).fits(),
        window_emit::step_one(p, f, acc_reg, csr).labels <= bound,
    ensures
        sound_step(p, window_emit::step_one(p, f, acc_reg, csr), label, bound),
{
    broadcast use group_sound;

    let args = f.args();
    let start = p.take_regs(args.len());
    window_emit::load_args_keeps(start, args, csr, p.regs, args.len());
    load_args_sound(start, args, csr, p.regs, args.len(), label, bound);
}

proof fn step_functions_sound(
    p: Code,
    window: Window,
    m: WindowMetadata,
    csr: usize,
    n: nat,
    label: Label,
    bound: nat,
)
    requires
        window_emit::step_functions(p, window, m, csr, n).fits(),
        window_emit::step_functions(p, window, m, csr, n).labels <= bound,
    ensures
        sound_step(p, window_emit::step_functions(p, window, m, csr, n), label, bound),
    decreases n,
{
    if n > 0 {
        let k = (n - 1) as nat;
        window_emit::step_functions_grow(p, window, m, csr, k, n);
        step_functions_sound(p, window, m, csr, k, label, bound);
        let f = window.functions@[n - 1];
        if !window::is_positional(f.func) {
            step_one_sound(
                window_emit::step_functions(p, window, m, csr, k),
                f,
                (m.registers.acc_start + n - 1) as usize,
                csr,
                label,
                bound,
            );
        }
    }
}

proof fn inverse_functions_sound(
    p: Code,
    window: Window,
    m: WindowMetadata,
    n: nat,
    label: Label,
    bound: nat,
)
    ensures
        sound_step(p, window_emit::inverse_functions(p, window, m, n), label, bound),
    decreases n,
{
    broadcast use group_sound;

    window_emit::inverse_functions_keeps(p, window, m, n);
    if n > 0 {
        window_emit::inverse_functions_keeps(p, window, m, (n - 1) as nat);
        inverse_functions_sound(p, window, m, (n - 1) as nat, label, bound);
    }
}

pub(crate) proof fn final_values_sound(
    p: Code,
    window: Window,
    m: WindowMetadata,
    n: nat,
    label: Label,
    bound: nat,
)
    ensures
        sound_step(p, window_step::final_values(p, window, m, n), label, bound),
    decreases n,
{
    broadcast use group_sound;

    window_step::final_values_keeps(p, window, m, n);
    if n > 0 {
        window_step::final_values_keeps(p, window, m, (n - 1) as nat);
        final_values_sound(p, window, m, (n - 1) as nat, label, bound);
    }
}

proof fn load_peer_sound(
    p: Code,
    terms: Seq<OrderTerm>,
    csr: usize,
    base: nat,
    n: nat,
    label: Label,
    bound: nat,
)
    ensures
        sound_step(p, window_step::load_peer(p, terms, csr, base, n), label, bound),
    decreases n,
{
    broadcast use group_sound;

    window_step::load_peer_keeps(p, terms, csr, base, n);
    if n > 0 {
        window_step::load_peer_keeps(p, terms, csr, base, (n - 1) as nat);
        load_peer_sound(p, terms, csr, base, (n - 1) as nat, label, bound);
    }
}

/// Whether the labels and registers of a window are ones that were given out
/// before `p`, in the order in which the start of window processing takes
/// them.
pub open spec fn set_up(p: Code, window: Window, m: WindowMetadata) -> bool {
    let r = m.registers;
    &&& m.labels.flush_buffer.0 < p.labels
    &&& m.labels.row_output.0 < p.labels
    &&& m.labels.window_processing_end.0 < p.labels
    &&& r.partition_start matches Some(saved) ==> r.src_columns_start < saved
    &&& r.peer_start_reg matches Some(reg) ==> reg < p.regs
    &&& r.peer_current_reg matches Some(reg) ==> reg < p.regs
    &&& r.peer_end_reg matches Some(reg) ==> {
        &&& reg < p.regs
        &&& r.new_order_by_columns_start matches Some(new) && new < reg
    }
}

pub(crate) proof fn op_body_sound(
    p: Code,
    window: Window,
    m: WindowMetadata,
    op: WindowOp,
    label: Label,
    bound: nat,
)
    requires
        window_step::op_body(p, window, m, op).fits(),
        window_step::op_body(p, window, m, op).labels <= bound,
        m.labels.row_output.0 < bound,
    ensures
        sound_step(p, window_step::op_body(p, window, m, op), label, bound),
{
    broadcast use group_sound;

    let n = window.functions@.len();
    match op {
        WindowOp::AggStep => {
            step_functions_sound(p, window, m, m.cursors.csr_end, n, label, bound);
        },
        WindowOp::ReturnRow => {
            return_row_sound(p, window, m, label, bound);
        },
        WindowOp::AggInverse => {
            inverse_functions_sound(p, window, m, n, label, bound);
        },
    }
}

pub(crate) proof fn advance_sound(
    p: Code,
    window: Window,
    m: WindowMetadata,
    op: WindowOp,
    stop: Option<Label>,
    done: Label,
    label: Label,
    bound: nat,
)
    requires
        window_step::advance(p, window, m, op, stop, done).fits(),
        window_step::advance(p, window, m, op, stop, done).labels <= bound,
        done.0 < bound,
        stop matches Some(stop) ==> stop.0 < bound,
    ensures
        sound_step(p, window_step::advance(p, window, m, op, stop, done), label, bound),
{
    broadcast use group_sound;

}

proof fn peer_loop_sound(
    p: Code,
    window: Window,
    m: WindowMetadata,
    op: WindowOp,
    again: Label,
    label: Label,
    bound: nat,
)
    requires
        window_step::peer_loop(p, window, m, op, again).fits(),
        window_step::peer_loop(p, window, m, op, again).labels <= bound,
        again.0 < bound,
        window.frame.mode != FrameMode::Rows && window.order_by@.len() > 0
            ==> window_step::op_peers(m, op) is Some && window_step::op_peers(m, op)->Some_0
            < p.regs,
    ensures
        sound_step(p, window_step::peer_loop(p, window, m, op, again), label, bound),
{
    broadcast use group_sound;

    let n = window.order_by@.len();
    let csr = window_step::op_cursor(m, op);
    window_step::load_peer_keeps(p.take_regs(n), window.order_by@, csr, p.regs, n);
    load_peer_sound(p.take_regs(n), window.order_by@, csr, p.regs, n, label, bound);
}

proof fn window_op_sound(
    p: Code,
    window: Window,
    m: WindowMetadata,
    op: WindowOp,
    countdown: Option<usize>,
    stop: Option<Label>,
    label: Label,
    bound: nat,
)
    requires
        m.serves(window),
        set_up(p, window, m),
        op == WindowOp::AggInverse ==> window::has_moving_start(window),
        window_step::window_op(p, window, m, op, countdown, stop).fits(),
        window_step::window_op(p, window, m, op, countdown, stop).labels <= bound,
        stop matches Some(stop) ==> stop.0 < bound,
    ensures
        sound_step(
            p,
            window_step::window_op(p, window, m, op, countdown, stop),
            label,
            bound,
        ),
{
    broadcast use group_sound;

    let done = p.label(0);
    let again = p.label(1);
    let start = p.take_labels(1);
    let gated = match countdown {
        Some(reg) => start.op(Insn::IfPos { reg, target_pc: done, decrement_by: 1 }),
        None => start,
    };
    let n = window.functions@.len();
    window_step::window_op_grows(p, window, m, op, countdown, stop);
    window_step::final_values_keeps(gated, window, m, n);
    final_values_sound(gated, window, m, n, label, bound);
    let valued = if op == WindowOp::ReturnRow {
        window_step::final_values(gated, window, m, n)
    } else {
        gated
    };
    let begin = valued.take_labels(1).bind(again);
    window_step::op_body_grows(begin, window, m, op);
    let body = window_step::op_body(begin, window, m, op);
    let advanced = window_step::advance(body, window, m, op, stop, done);
    window_step::peer_loop_grows(advanced, window, m, op, again);
    op_body_sound(begin, window, m, op, label, bound);
    advance_sound(body, window, m, op, stop, done, label, bound);
    peer_loop_sound(advanced, window, m, op, again, label, bound);
}

proof fn load_order_by_sound(
    p: Code,
    terms: Seq<OrderTerm>,
    src: nat,
    dst: nat,
    n: nat,
    label: Label,
    bound: nat,
)
    ensures
        sound_step(p, window_emit::load_order_by(p, terms, src, dst, n), label, bound),
    decreases n,
{
    broadcast use group_sound;

    window_emit::load_order_by_keeps(p, terms, src, dst, n);
    if n > 0 {
        window_emit::load_order_by_keeps(p, terms, src, dst, (n - 1) as nat);
        load_order_by_sound(p, terms, src, dst, (n - 1) as nat, label, bound);
    }
}

proof fn new_partition_sound(p: Code, window: Window, m: WindowMetadata, label: Label, bound: nat)
    requires
        set_up(p, window, m),
        window_emit::new_partition(p, window, m).fits(),
        window_emit::new_partition(p, window, m).labels <= bound,
    ensures
        sound_step(p, window_emit::new_partition(p, window, m), label, bound),
{
    broadcast use group_sound;

}

pub(crate) proof fn first_row_sound(
    p: Code,
    window: Window,
    m: WindowMetadata,
    end: Label,
    label: Label,
    bound: nat,
)
    requires
        window_step::first_row(p, window, m, end).fits(),
        window_step::first_row(p, window, m, end).labels <= bound,
        end.0 < bound,
    ensures
        sound_step(p, window_step::first_row(p, window, m, end), label, bound),
{
    broadcast use group_sound;

    let seeded = window_step::seed_peers(p, window, m);
    assert(sound_step(p, seeded, label, bound));
}

pub(crate) proof fn subsequent_row_sound(
    p: Code,
    window: Window,
    m: WindowMetadata,
    end: Label,
    label: Label,
    bound: nat,
)
    requires
        m.serves(window),
        set_up(p, window, m),
        window_step::subsequent_row(p, window, m, end).fits(),
        window_step::subsequent_row(p, window, m, end).labels <= bound,
        end.0 < bound,
    ensures
        sound_step(p, window_step::subsequent_row(p, window, m, end), label, bound),
{
    broadcast use group_sound;

    let inserted = window_emit::insert_row(p, m);
    let skipped = window_step::skip_peers(inserted, window, m, end);
    window_step::window_op_grows(skipped, window, m, WindowOp::AggStep, None, None);
    let stepped = window_step::window_op(skipped, window, m, WindowOp::AggStep, None, None);
    window_step::window_op_grows(stepped, window, m, WindowOp::ReturnRow, None, None);
    assert(sound_step(p, skipped, label, bound));
    window_op_sound(skipped, window, m, WindowOp::AggStep, None, None, label, bound);
    if !(window.frame.end is UnboundedFollowing) {
        window_op_sound(stepped, window, m, WindowOp::ReturnRow, None, None, label, bound);
    }
}

/// The code for a source row gives every label that it takes exactly one
/// place, and no other label. Its jumps go to labels that have been given out,
/// and it compares registers in order.
pub proof fn window_step_is_sound(
    p: Code,
    window: Window,
    m: WindowMetadata,
    label: Label,
    bound: nat,
)
    requires
        m.serves(window),
        set_up(p, window, m),
        window_step::window_step(p, window, m).fits(),
        window_step::window_step(p, window, m).labels <= bound,
    ensures
        sound_step(p, window_step::window_step(p, window, m), label, bound),
{
    broadcast use group_sound;

    window_step::window_step_parts_grow(p, window, m);
    if let Some(dst) = m.registers.new_order_by_columns_start {
        let src = m.registers.src_columns_start as nat;
        let n = window.order_by@.len();
        window_emit::load_order_by_keeps(p, window.order_by@, src, dst as nat, n);
        load_order_by_sound(p, window.order_by@, src, dst as nat, n, label, bound);
    }
    let loaded = window_emit::order_by_values(p, window, m);
    new_partition_sound(loaded, window, m, label, bound);
    let begun = window_emit::new_partition(loaded, window, m);
    let subsequent = begun.label(0);
    let end = begun.label(1);
    let tested = begun.take_labels(2).op(
        Insn::NotNull { reg: m.registers.rowid, target_pc: subsequent },
    );
    first_row_sound(tested, window, m, end, label, bound);
    let first = window_step::first_row(tested, window, m, end);
    subsequent_row_sound(first.bind(subsequent), window, m, end, label, bound);
}

#[verifier::rlimit(40)]
proof fn drain_sound(
    p: Code,
    window: Window,
    m: WindowMetadata,
    stop: Label,
    label: Label,
    bound: nat,
)
    requires
        m.serves(window),
        set_up(p, window, m),
        window_step::supported_start(window),
        window_step::drain(p, window, m, stop).fits(),
        window_step::drain(p, window, m, stop).labels <= bound,
        stop.0 < bound,
    ensures
        sound_step(p, window_step::drain(p, window, m, stop), label, bound),
{
    broadcast use group_sound;

    window_step::drain_grows(p, window, m, stop);
    match window.frame.start {
        FrameBoundary::Following(_) => {
            let left = p.label(0);
            let loop_1 = p.label(1);
            let start = p.take_labels(2).bind(loop_1);
            let count = m.registers.start_offset_reg;
            let to = Some(stop);
            window_step::window_op_grows(start, window, m, WindowOp::ReturnRow, count, to);
            let returned = window_step::window_op(
                start,
                window,
                m,
                WindowOp::ReturnRow,
                count,
                to,
            );
            window_step::window_op_grows(
                returned,
                window,
                m,
                WindowOp::AggInverse,
                None,
                Some(left),
            );
            let inverted = window_step::window_op(
                returned,
                window,
                m,
                WindowOp::AggInverse,
                None,
                Some(left),
            );
            let second = inverted.op(Insn::Goto { target_pc: loop_1 }).bind(left);
            let again = second.take_labels(1).bind(second.label(0));
            window_step::window_op_grows(again, window, m, WindowOp::ReturnRow, None, to);
            window_op_sound(start, window, m, WindowOp::ReturnRow, count, to, label, bound);
            window_op_sound(
                returned,
                window,
                m,
                WindowOp::AggInverse,
                None,
                Some(left),
                label,
                bound,
            );
            window_op_sound(again, window, m, WindowOp::ReturnRow, None, to, label, bound);
        },
        FrameBoundary::CurrentRow => {
            let start = p.take_labels(1).bind(p.label(0));
            let to = Some(stop);
            window_step::window_op_grows(start, window, m, WindowOp::ReturnRow, None, to);
            let returned = window_step::window_op(start, window, m, WindowOp::ReturnRow, None, to);
            window_step::window_op_grows(returned, window, m, WindowOp::AggInverse, None, None);
            window_op_sound(start, window, m, WindowOp::ReturnRow, None, to, label, bound);
            window_op_sound(returned, window, m, WindowOp::AggInverse, None, None, label, bound);
        },
        _ => {
            let start = p.take_labels(1).bind(p.label(0));
            window_step::window_op_grows(
                start,
                window,
                m,
                WindowOp::ReturnRow,
                None,
                Some(stop),
            );
            window_op_sound(
                start,
                window,
                m,
                WindowOp::ReturnRow,
                None,
                Some(stop),
                label,
                bound,
            );
        },
    }
}

/// How often `label` is one of the labels that the flush gives a place besides
/// those that it takes.
pub open spec fn flush_places(m: WindowMetadata, output: OutputPlan, label: Label) -> nat {
    (if m.labels.flush_buffer == label {
        1nat
    } else {
        0
    }) + (if m.labels.row_output == label {
        1nat
    } else {
        0
    }) + (if m.labels.window_processing_end == label {
        1nat
    } else {
        0
    }) + (if output.distinct_conflict == Some(label) {
        1nat
    } else {
        0
    })
}

/// The code for the end of a partition gives every label that it takes exactly
/// one place, and one each to the labels of the window and of SELECT DISTINCT.
/// Its jumps go to labels that have been given out, and it compares registers
/// in order.
pub proof fn window_flush_is_sound(
    p: Code,
    window: Window,
    m: WindowMetadata,
    output: OutputPlan,
    label: Label,
    bound: nat,
)
    requires
        m.serves(window),
        set_up(p, window, m),
        window_step::supported_start(window),
        window_step::window_flush(p, window, m, output).fits(),
        window_step::window_flush(p, window, m, output).labels <= bound,
    ensures
        ({
            let q = window_step::window_flush(p, window, m, output);
            &&& places(q.items, label) == places(p.items, label) + taken(p, q, label)
                + flush_places(m, output, label)
            &&& items_sound(p.items, bound) ==> items_sound(q.items, bound)
        }),
{
    broadcast use group_sound;

    let empty = p.label(0);
    let stop = p.label(1);
    let begun = p.take_labels(2).comment(Comment::ReturnRemaining).op(
        Insn::Null { dest: m.registers.flush_buffer_return_offset, dest_end: None },
    ).bind(m.labels.flush_buffer).op(
        Insn::Rewind { cursor_id: m.cursors.csr_write, pc_if_empty: empty },
    );
    window_step::window_op_grows(begun, window, m, WindowOp::AggStep, None, None);
    let stepped = window_step::window_op(begun, window, m, WindowOp::AggStep, None, None);
    window_step::drain_grows(stepped, window, m, stop);
    window_op_sound(begun, window, m, WindowOp::AggStep, None, None, label, bound);
    drain_sound(stepped, window, m, stop, label, bound);
}

/// The start of window processing leaves labels and registers as the code
/// behind it wants them, if the source subquery's registers were given out
/// before, and changes no label's places.
pub proof fn window_init_sets_up(
    p: Code,
    window: Window,
    src: SourceSubquery,
    refs: nat,
    m: WindowMetadata,
    later: Code,
)
    requires
        window_init::window_init(p, window, src, refs).1.fits(),
        src.result_columns_start_reg < p.regs,
        m.registers == window_init::window_init(p, window, src, refs).0,
        m.labels.flush_buffer == p.label(0),
        m.labels.row_output == p.label(1),
        m.labels.window_processing_end == p.label(2),
        window_emit::grown(window_init::window_init(p, window, src, refs).1, later),
    ensures
        set_up(later, window, m),
{
}

} // verus!
