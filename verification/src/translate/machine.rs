//! How programs are executed.
//!
//! Items are executed one after the other. A jump goes to the next place of its
//! label, or, where there is none ahead, out of the code at hand. What a single
//! item does is given by a function on the states of a machine.

use vstd::prelude::*;
use crate::translate::program::{Code, Item, Label};

verus! {

/// What an item does.
pub enum Effect<S> {
    /// Execution goes on with the next item.
    Next(S),
    /// Execution goes on behind the place of a label.
    Jump(Label, S),
    /// Execution stops with an error.
    Stop(S),
}

/// How the execution of code ends.
pub enum Outcome<S> {
    /// It has run to its end.
    Through(S),
    /// It has jumped to a label that stands for no place ahead.
    Away(Label, S),
    /// It has stopped with an error.
    Halted(S),
}

/// The first place of a label from `from` on.
pub open spec fn place(items: Seq<Item>, label: Label, from: int) -> Option<int>
    decreases items.len() - from,
{
    if from < 0 || from >= items.len() {
        None
    } else if items[from] == Item::Bind(label) {
        Some(from)
    } else {
        place(items, label, from + 1)
    }
}

/// Executes items from `pc` on.
pub open spec fn exec<S>(
    items: Seq<Item>,
    pc: int,
    s: S,
    step: spec_fn(Item, S) -> Effect<S>,
) -> Outcome<S>
    decreases items.len() - pc,
    when pc >= 0
{
    if pc >= items.len() {
        Outcome::Through(s)
    } else if items[pc] is Bind {
        exec(items, pc + 1, s, step)
    } else {
        match step(items[pc], s) {
            Effect::Next(t) => exec(items, pc + 1, t, step),
            Effect::Jump(label, t) => match place(items, label, pc + 1) {
                Some(at) => if pc < at < items.len() {
                    exec(items, at + 1, t, step)
                } else {
                    Outcome::Away(label, t)
                },
                None => Outcome::Away(label, t),
            },
            Effect::Stop(t) => Outcome::Halted(t),
        }
    }
}

/// The code that was written between `p` and `q`.
pub open spec fn written(p: Code, q: Code) -> Seq<Item> {
    q.items.skip(p.items.len() as int)
}

pub(crate) proof fn place_is_one(items: Seq<Item>, label: Label, from: int)
    requires
        0 <= from,
    ensures
        place(items, label, from) matches Some(at) ==> from <= at < items.len() && items[at]
            == Item::Bind(label),
    decreases items.len() - from,
{
    if from < items.len() {
        place_is_one(items, label, from + 1);
    }
}

pub(crate) proof fn place_in_front(a: Seq<Item>, b: Seq<Item>, label: Label, from: int)
    requires
        0 <= from,
        place(a, label, from) is Some,
    ensures
        place(a + b, label, from) == place(a, label, from),
    decreases a.len() - from,
{
    if from < a.len() && a[from] != Item::Bind(label) {
        place_in_front(a, b, label, from + 1);
    }
}

pub(crate) proof fn place_behind(a: Seq<Item>, b: Seq<Item>, label: Label, from: int)
    requires
        0 <= from,
    ensures
        place(a + b, label, a.len() + from) == match place(b, label, from) {
            Some(at) => Some(a.len() + at),
            None => None,
        },
    decreases b.len() - from,
{
    if from < b.len() && b[from] != Item::Bind(label) {
        place_behind(a, b, label, from + 1);
    }
}

proof fn exec_in_front<S>(
    a: Seq<Item>,
    b: Seq<Item>,
    pc: int,
    s: S,
    step: spec_fn(Item, S) -> Effect<S>,
)
    requires
        0 <= pc <= a.len(),
    ensures
        match exec(a, pc, s, step) {
            Outcome::Through(t) => exec(a + b, pc, s, step) == exec(
                a + b,
                a.len() as int,
                t,
                step,
            ),
            Outcome::Halted(t) => exec(a + b, pc, s, step) == Outcome::Halted(t),
            Outcome::Away(_, _) => true,
        },
    decreases a.len() - pc,
{
    if pc < a.len() {
        assert((a + b)[pc] == a[pc]);
        if a[pc] is Bind {
            exec_in_front(a, b, pc + 1, s, step);
        } else {
            match step(a[pc], s) {
                Effect::Next(t) => {
                    exec_in_front(a, b, pc + 1, t, step);
                },
                Effect::Jump(label, t) => {
                    place_is_one(a, label, pc + 1);
                    if let Some(at) = place(a, label, pc + 1) {
                        place_in_front(a, b, label, pc + 1);
                        exec_in_front(a, b, at + 1, t, step);
                    }
                },
                Effect::Stop(_) => {},
            }
        }
    }
}

pub(crate) proof fn exec_behind<S>(
    a: Seq<Item>,
    b: Seq<Item>,
    pc: int,
    s: S,
    step: spec_fn(Item, S) -> Effect<S>,
)
    requires
        0 <= pc <= b.len(),
    ensures
        exec(a + b, a.len() + pc, s, step) == exec(b, pc, s, step),
    decreases b.len() - pc,
{
    if pc < b.len() {
        assert((a + b)[a.len() + pc] == b[pc]);
        if b[pc] is Bind {
            exec_behind(a, b, pc + 1, s, step);
        } else {
            match step(b[pc], s) {
                Effect::Next(t) => {
                    exec_behind(a, b, pc + 1, t, step);
                },
                Effect::Jump(label, t) => {
                    place_is_one(b, label, pc + 1);
                    place_behind(a, b, label, pc + 1);
                    if let Some(at) = place(b, label, pc + 1) {
                        exec_behind(a, b, at + 1, t, step);
                    }
                },
                Effect::Stop(_) => {},
            }
        }
    }
}

pub(crate) proof fn place_past(a: Seq<Item>, b: Seq<Item>, label: Label, from: int)
    requires
        0 <= from <= a.len(),
        place(a, label, from) is None,
    ensures
        place(a + b, label, from) == match place(b, label, 0) {
            Some(at) => Some(a.len() + at),
            None => None,
        },
    decreases a.len() - from,
{
    if from < a.len() {
        assert((a + b)[from] == a[from]);
        place_past(a, b, label, from + 1);
    } else {
        place_behind(a, b, label, 0);
    }
}

proof fn exec_leaves<S>(
    a: Seq<Item>,
    b: Seq<Item>,
    pc: int,
    s: S,
    step: spec_fn(Item, S) -> Effect<S>,
)
    requires
        0 <= pc <= a.len(),
    ensures
        exec(a, pc, s, step) matches Outcome::Away(label, t) ==> exec(a + b, pc, s, step)
            == match place(b, label, 0) {
            Some(at) => exec(b, at + 1, t, step),
            None => Outcome::Away(label, t),
        },
    decreases a.len() - pc,
{
    if pc < a.len() {
        assert((a + b)[pc] == a[pc]);
        if a[pc] is Bind {
            exec_leaves(a, b, pc + 1, s, step);
        } else {
            match step(a[pc], s) {
                Effect::Next(t) => {
                    exec_leaves(a, b, pc + 1, t, step);
                },
                Effect::Jump(label, t) => {
                    place_is_one(a, label, pc + 1);
                    match place(a, label, pc + 1) {
                        Some(at) => {
                            place_in_front(a, b, label, pc + 1);
                            exec_leaves(a, b, at + 1, t, step);
                        },
                        None => {
                            place_past(a, b, label, pc + 1);
                            place_is_one(b, label, 0);
                            if let Some(at) = place(b, label, 0) {
                                exec_behind(a, b, at + 1, t, step);
                            }
                        },
                    }
                },
                Effect::Stop(_) => {},
            }
        }
    }
}

/// Where code jumps away, execution goes on behind the place of the label in the
/// code that follows, if that has one.
pub proof fn jumps_go_ahead<S>(
    a: Seq<Item>,
    b: Seq<Item>,
    s: S,
    step: spec_fn(Item, S) -> Effect<S>,
)
    ensures
        exec(a, 0, s, step) matches Outcome::Away(label, t) ==> exec(a + b, 0, s, step)
            == match place(b, label, 0) {
            Some(at) => exec(b, at + 1, t, step),
            None => Outcome::Away(label, t),
        },
{
    exec_leaves(a, b, 0, s, step);
}

/// Code behind other code is executed where that has run to its end, and not
/// where that has stopped.
pub proof fn code_is_executed_in_order<S>(
    a: Seq<Item>,
    b: Seq<Item>,
    s: S,
    step: spec_fn(Item, S) -> Effect<S>,
)
    ensures
        match exec(a, 0, s, step) {
            Outcome::Through(t) => exec(a + b, 0, s, step) == exec(b, 0, t, step),
            Outcome::Halted(t) => exec(a + b, 0, s, step) == Outcome::Halted(t),
            Outcome::Away(_, _) => true,
        },
{
    exec_in_front(a, b, 0, s, step);
    if let Outcome::Through(t) = exec(a, 0, s, step) {
        exec_behind(a, b, 0, t, step);
    }
}

/// Executes items from `pc` on, with up to `fuel` jumps back.
pub open spec fn run<S>(
    items: Seq<Item>,
    pc: int,
    s: S,
    step: spec_fn(Item, S) -> Effect<S>,
    fuel: nat,
) -> Outcome<S>
    decreases fuel,
{
    match exec(items, pc, s, step) {
        Outcome::Away(label, t) => match place(items, label, 0) {
            Some(at) => if fuel > 0 {
                run(items, at + 1, t, step, (fuel - 1) as nat)
            } else {
                Outcome::Away(label, t)
            },
            None => Outcome::Away(label, t),
        },
        other => other,
    }
}

/// The state that execution has come to.
pub open spec fn reached<S>(outcome: Outcome<S>) -> S {
    match outcome {
        Outcome::Through(s) => s,
        Outcome::Away(_, s) => s,
        Outcome::Halted(s) => s,
    }
}

/// A label that stands at `at` and nowhere between `from` and there.
pub(crate) proof fn place_found(items: Seq<Item>, label: Label, from: int, at: int)
    requires
        0 <= from <= at < items.len(),
        items[at] == Item::Bind(label),
        forall|j: int| from <= j < at ==> #[trigger] items[j] != Item::Bind(label),
    ensures
        place(items, label, from) == Some(at),
    decreases at - from,
{
    if from < at {
        place_found(items, label, from + 1, at);
    }
}

/// A label that stands nowhere from `from` on.
pub(crate) proof fn place_absent(items: Seq<Item>, label: Label, from: int)
    requires
        0 <= from,
        forall|j: int| from <= j < items.len() ==> #[trigger] items[j] != Item::Bind(label),
    ensures
        place(items, label, from) is None,
    decreases items.len() - from,
{
    if from < items.len() {
        place_absent(items, label, from + 1);
    }
}

/// Whether `q` is `p` with more code behind it.
pub open spec fn extends(p: Code, q: Code) -> bool {
    p.items.is_prefix_of(q.items)
}

/// Whether the code between `p` and `q`, executed from `s`, runs to its end and
/// leaves `t`.
pub open spec fn leads<S>(
    p: Code,
    q: Code,
    s: S,
    t: S,
    step: spec_fn(Item, S) -> Effect<S>,
) -> bool {
    &&& extends(p, q)
    &&& exec(written(p, q), 0, s, step) == Outcome::Through(t)
}

/// No code changes nothing.
pub(crate) proof fn leads_nowhere<S>(p: Code, q: Code, s: S, step: spec_fn(Item, S) -> Effect<S>)
    requires
        p.items == q.items,
    ensures
        leads(p, q, s, s, step),
{
    assert(written(p, q) =~= Seq::<Item>::empty());
}

/// Code behind other code leads on from where that has led.
pub(crate) proof fn leads_on<S>(
    p: Code,
    q: Code,
    r: Code,
    s: S,
    t: S,
    u: S,
    step: spec_fn(Item, S) -> Effect<S>,
)
    requires
        leads(p, q, s, t, step),
        leads(q, r, t, u, step),
    ensures
        leads(p, r, s, u, step),
{
    code_is_executed_in_order(written(p, q), written(q, r), s, step);
    assert(written(p, r) =~= written(p, q) + written(q, r));
    assert(extends(p, r)) by {
        assert forall|i: int| 0 <= i < p.items.len() implies p.items[i] == r.items[i] by {
            assert(p.items[i] == q.items[i]);
            assert(q.items[i] == r.items[i]);
        }
    }
}

/// One more item leads on by what it does.
pub(crate) proof fn leads_by_one<S>(
    p: Code,
    q: Code,
    r: Code,
    item: Item,
    s: S,
    t: S,
    u: S,
    step: spec_fn(Item, S) -> Effect<S>,
)
    requires
        leads(p, q, s, t, step),
        r.items == q.items.push(item),
        item is Bind ==> t == u,
        !(item is Bind) ==> step(item, t) == Effect::Next(u),
    ensures
        leads(p, r, s, u, step),
{
    let one = written(q, r);
    assert(one =~= seq![item]);
    assert(one[0] == item);
    assert(exec(one, 1, u, step) == Outcome::Through(u));
    assert(exec(one, 0, t, step) == exec(one, 1, u, step));
    assert(extends(q, r));
    leads_on(p, q, r, s, t, u, step);
}

/// Whether the code between `p` and `q`, executed from `s`, ends so.
pub open spec fn ends<S>(
    p: Code,
    q: Code,
    s: S,
    outcome: Outcome<S>,
    step: spec_fn(Item, S) -> Effect<S>,
) -> bool {
    &&& extends(p, q)
    &&& exec(written(p, q), 0, s, step) == outcome
}

/// Code behind other code ends as it does from where that has led.
pub(crate) proof fn ends_on<S>(
    p: Code,
    q: Code,
    r: Code,
    s: S,
    t: S,
    outcome: Outcome<S>,
    step: spec_fn(Item, S) -> Effect<S>,
)
    requires
        leads(p, q, s, t, step),
        ends(q, r, t, outcome, step),
    ensures
        ends(p, r, s, outcome, step),
{
    code_is_executed_in_order(written(p, q), written(q, r), s, step);
    assert(written(p, r) =~= written(p, q) + written(q, r));
    assert(extends(p, r)) by {
        assert forall|i: int| 0 <= i < p.items.len() implies p.items[i] == r.items[i] by {
            assert(p.items[i] == q.items[i]);
            assert(q.items[i] == r.items[i]);
        }
    }
}

/// A jump passes over code that does not have its label.
pub(crate) proof fn ends_away<S>(
    p: Code,
    q: Code,
    r: Code,
    label: Label,
    s: S,
    t: S,
    step: spec_fn(Item, S) -> Effect<S>,
)
    requires
        ends(p, q, s, Outcome::Away(label, t), step),
        extends(q, r),
        place(written(q, r), label, 0) is None,
    ensures
        ends(p, r, s, Outcome::Away(label, t), step),
{
    jumps_go_ahead(written(p, q), written(q, r), s, step);
    assert(written(p, r) =~= written(p, q) + written(q, r));
    assert(extends(p, r)) by {
        assert forall|i: int| 0 <= i < p.items.len() implies p.items[i] == r.items[i] by {
            assert(p.items[i] == q.items[i]);
            assert(q.items[i] == r.items[i]);
        }
    }
}

/// A jump goes to the place of its label.
pub(crate) proof fn jump_lands<S>(
    p: Code,
    q: Code,
    r: Code,
    label: Label,
    s: S,
    t: S,
    step: spec_fn(Item, S) -> Effect<S>,
)
    requires
        ends(p, q, s, Outcome::Away(label, t), step),
        r.items == q.items.push(Item::Bind(label)),
    ensures
        leads(p, r, s, t, step),
{
    let one = written(q, r);
    assert(one =~= seq![Item::Bind(label)]);
    jumps_go_ahead(written(p, q), one, s, step);
    assert(one[0] == Item::Bind(label));
    assert(place(one, label, 0) == Some(0int));
    assert(exec(one, 1, t, step) == Outcome::Through(t));
    assert(written(p, r) =~= written(p, q) + one);
}

/// An item that jumps ends the code before it.
pub(crate) proof fn jumps_by_one<S>(
    p: Code,
    q: Code,
    r: Code,
    item: Item,
    label: Label,
    s: S,
    t: S,
    u: S,
    step: spec_fn(Item, S) -> Effect<S>,
)
    requires
        leads(p, q, s, t, step),
        r.items == q.items.push(item),
        !(item is Bind),
        step(item, t) == Effect::Jump(label, u),
    ensures
        ends(p, r, s, Outcome::Away(label, u), step),
{
    let one = written(q, r);
    assert(one =~= seq![item]);
    assert(one[0] == item);
    assert(place(one, label, 1) is None);
    assert(extends(q, r));
    ends_on(p, q, r, s, t, Outcome::Away(label, u), step);
}

} // verus!
