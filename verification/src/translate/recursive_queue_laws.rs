//! In which order the queue of a recursive expression hands its rows out.

use vstd::prelude::*;
use crate::translate::program::{NullsOrder, SortOrder};
use crate::translate::recursive_cte;
use crate::translate::recursive_cte::{
    ColumnName, IndexColumn, QueryPart, QueueTerm, RecursiveCtePlan, SelectCollations,
};

verus! {

/// A row in the queue: its values, of which None is NULL and others stand in
/// order as their numbers do, and its number in the order in which rows came.
pub struct Queued {
    pub values: Seq<Option<int>>,
    pub sequence: int,
}

/// How two numbers stand to each other: negative, zero or positive.
pub open spec fn compared(a: int, b: int) -> int {
    a - b
}

/// How an index compares two values: NULLs are the least.
pub open spec fn by_index(a: Option<int>, b: Option<int>, order: SortOrder) -> int {
    let up = match (a, b) {
        (None, None) => 0,
        (None, Some(_)) => -1,
        (Some(_), None) => 1,
        (Some(a), Some(b)) => compared(a, b),
    };
    if order == SortOrder::Desc {
        -up
    } else {
        up
    }
}

/// The rank of a value, by which NULLs come before or behind the others.
pub open spec fn null_rank(nulls: NullsOrder, value: Option<int>) -> int {
    if (nulls == NullsOrder::First) == (value is None) {
        0
    } else {
        1
    }
}

/// What a row has in a column of the queue.
pub open spec fn cell(plan: RecursiveCtePlan, name: ColumnName, row: Queued) -> Option<int> {
    match name {
        ColumnName::NullRank(i) => {
            let key = recursive_cte::queue_keys(plan)[i as int];
            Some(null_rank(key.nulls_override->Some_0, row.values[key.result_column_index as int]))
        },
        ColumnName::Priority(i) => {
            let key = recursive_cte::queue_keys(plan)[i as int];
            row.values[key.result_column_index as int]
        },
        ColumnName::Sequence => Some(row.sequence),
        ColumnName::Result(i) => row.values[i as int],
        ColumnName::Distinct(i) => row.values[i as int],
    }
}

/// How an index with those columns compares two rows: the first column in which
/// they differ decides.
pub open spec fn by_columns(
    plan: RecursiveCtePlan,
    columns: Seq<IndexColumn>,
    a: Queued,
    b: Queued,
) -> int
    decreases columns.len(),
{
    if columns.len() == 0 {
        0
    } else {
        let before = by_columns(plan, columns.drop_last(), a, b);
        let last = columns.last();
        if before != 0 {
            before
        } else {
            by_index(cell(plan, last.name, a), cell(plan, last.name, b), last.order)
        }
    }
}

/// Whether NULLs come first by a term of an ORDER BY: where it says so, and where
/// it says nothing in ascending order.
pub open spec fn nulls_first(term: QueueTerm) -> bool {
    match term.nulls {
        Some(nulls) => nulls == NullsOrder::First,
        None => term.order == SortOrder::Asc,
    }
}

/// Whether two values stand in the order that a term wants: negative, zero or
/// positive.
pub open spec fn by_term(term: QueueTerm, a: Option<int>, b: Option<int>) -> int {
    match (a, b) {
        (None, None) => 0,
        (None, Some(_)) => if nulls_first(term) {
            -1
        } else {
            1
        },
        (Some(_), None) => if nulls_first(term) {
            1
        } else {
            -1
        },
        (Some(a), Some(b)) => if term.order == SortOrder::Asc {
            compared(a, b)
        } else {
            compared(b, a)
        },
    }
}

/// The same by the first `n` terms: the first by which they differ decides.
pub open spec fn by_terms(terms: Seq<QueueTerm>, n: nat, a: Queued, b: Queued) -> int
    decreases n,
{
    if n == 0 {
        0
    } else {
        let before = by_terms(terms, (n - 1) as nat, a, b);
        let i = terms[n - 1].result_column_index as int;
        if before != 0 {
            before
        } else {
            by_term(terms[n - 1], a.values[i], b.values[i])
        }
    }
}

/// Whether two comparisons say the same.
pub open spec fn agree(x: int, y: int) -> bool {
    &&& x < 0 <==> y < 0
    &&& x > 0 <==> y > 0
}

proof fn priorities_follow_the_terms(plan: RecursiveCtePlan, n: nat, a: Queued, b: Queued)
    requires
        n <= plan.queue_order@.len(),
        plan.queue_order@.len() <= usize::MAX,
    ensures
        agree(
            by_columns(plan, recursive_cte::priority_columns(plan, n), a, b),
            by_terms(plan.queue_order@, n, a, b),
        ),
    decreases n,
{
    if n > 0 {
        let k = (n - 1) as nat;
        priorities_follow_the_terms(plan, k, a, b);
        let done = recursive_cte::priority_columns(plan, k);
        let columns = recursive_cte::priority_columns(plan, n);
        let term = plan.queue_order@[n - 1];
        if recursive_cte::nulls_override(term) is Some {
            let ranked = columns.drop_last();
            assert(ranked.drop_last() =~= done);
            assert(ranked.last().name == ColumnName::NullRank(k as usize));
            assert(ranked.last().order == SortOrder::Asc);
            let before = by_columns(plan, done, a, b);
            let name = ranked.last().name;
            assert(by_columns(plan, ranked, a, b) == if before != 0 {
                before
            } else {
                by_index(cell(plan, name, a), cell(plan, name, b), SortOrder::Asc)
            });
        } else {
            assert(columns.drop_last() =~= done);
        }
        assert(columns.last().name == ColumnName::Priority(k as usize));
        assert(columns.last().order == term.order);
        let key = recursive_cte::queue_keys(plan)[k as int];
        assert(key.result_column_index == term.result_column_index);
        assert(key.nulls_override == recursive_cte::nulls_override(term));
    }
}

/// The queue hands rows out as the expression's ORDER BY wants them: term by
/// term, in the term's own direction, with NULLs where the term says, or else
/// where its direction puts them. Rows that the ORDER BY does not tell apart
/// come out in the order in which they came.
pub proof fn the_queue_keeps_the_order(plan: RecursiveCtePlan, a: Queued, b: Queued)
    requires
        plan.queue_order@.len() <= usize::MAX,
        a.sequence != b.sequence,
    ensures
        ({
            let wanted = by_terms(plan.queue_order@, plan.queue_order@.len(), a, b);
            let keys = recursive_cte::priority_columns(plan, plan.queue_order@.len()).len() as int;
            agree(
                by_columns(plan, recursive_cte::queue_columns(plan).take(keys + 1), a, b),
                if wanted != 0 {
                    wanted
                } else {
                    compared(a.sequence, b.sequence)
                },
            )
        }),
{
    let n = plan.queue_order@.len();
    priorities_follow_the_terms(plan, n, a, b);
    let keys = recursive_cte::priority_columns(plan, n);
    let ordering = recursive_cte::queue_columns(plan).take(keys.len() as int + 1);
    assert(ordering.drop_last() =~= keys);
    assert(ordering.last().name == ColumnName::Sequence);
    assert(ordering.last().order == SortOrder::Asc);
}

/// The SELECTs of a part, in their order.
pub open spec fn selects(part: QueryPart) -> Seq<SelectCollations> {
    match part {
        QueryPart::Select(select) => seq![select],
        QueryPart::CompoundSelect { left, right_most } => left@.push(right_most),
        QueryPart::Other => Seq::empty(),
    }
}

proof fn first_of(left: Seq<SelectCollations>, i: nat, from: nat) -> (k: int)
    requires
        from <= left.len(),
    ensures
        from <= k <= left.len(),
        forall|j: int|
            from <= j < k ==> recursive_cte::select_collation(#[trigger] left[j], i) is None,
        recursive_cte::first_collation(left, i, from) == if k < left.len() {
            recursive_cte::select_collation(left[k], i)
        } else {
            None
        },
        k < left.len() ==> recursive_cte::select_collation(left[k], i) is Some,
    decreases left.len() - from,
{
    if from >= left.len() {
        from as int
    } else if recursive_cte::select_collation(left[from as int], i) is Some {
        from as int
    } else {
        first_of(left, i, from + 1)
    }
}

/// A column has the collation of the first SELECT that gives it one: those of the
/// initial part come first, then those of the recursive part. Where none does, it
/// has none.
pub proof fn the_first_collation_counts(plan: RecursiveCtePlan, i: nat)
    ensures
        ({
            let all = selects(plan.initial_query.query) + selects(plan.recursive_query.query);
            match recursive_cte::column_collation(plan, i) {
                Some(collation) => exists|k: int|
                    0 <= k < all.len() && recursive_cte::select_collation(#[trigger] all[k], i)
                        == Some(collation) && forall|j: int|
                        0 <= j < k ==> recursive_cte::select_collation(#[trigger] all[j], i) is None,
                None => forall|j: int|
                    0 <= j < all.len() ==> recursive_cte::select_collation(#[trigger] all[j], i) is None,
            }
        }),
{
    let initial = plan.initial_query.query;
    let recursive = plan.recursive_query.query;
    let all = selects(initial) + selects(recursive);
    let k = first_of_part(initial, i);
    if k < selects(initial).len() {
        assert(all[k] == selects(initial)[k]);
        assert forall|j: int| 0 <= j < k implies recursive_cte::select_collation(
            #[trigger] all[j],
            i,
        ) is None by {
            assert(all[j] == selects(initial)[j]);
        }
    } else {
        let l = first_of_part(recursive, i);
        let at = selects(initial).len() + l;
        assert forall|j: int| 0 <= j < at implies recursive_cte::select_collation(
            #[trigger] all[j],
            i,
        ) is None by {
            if j < selects(initial).len() {
                assert(all[j] == selects(initial)[j]);
            } else {
                assert(all[j] == selects(recursive)[j - selects(initial).len()]);
            }
        }
        if l < selects(recursive).len() {
            assert(all[at as int] == selects(recursive)[l]);
        }
    }
}

proof fn first_of_part(part: QueryPart, i: nat) -> (k: int)
    ensures
        0 <= k <= selects(part).len(),
        forall|j: int|
            0 <= j < k ==> recursive_cte::select_collation(#[trigger] selects(part)[j], i) is None,
        recursive_cte::part_collation(part, i) == if k < selects(part).len() {
            recursive_cte::select_collation(selects(part)[k], i)
        } else {
            None
        },
        k < selects(part).len() ==> recursive_cte::select_collation(selects(part)[k], i) is Some,
{
    match part {
        QueryPart::Select(select) => if recursive_cte::select_collation(select, i) is Some {
            0
        } else {
            1
        },
        QueryPart::CompoundSelect { left, right_most } => {
            let k = first_of(left@, i, 0);
            assert forall|j: int| 0 <= j < k implies recursive_cte::select_collation(
                #[trigger] selects(part)[j],
                i,
            ) is None by {
                assert(selects(part)[j] == left@[j]);
            }
            if k < left@.len() {
                assert(selects(part)[k] == left@[k]);
                k
            } else {
                assert(selects(part)[k] == right_most);
                if recursive_cte::select_collation(right_most, i) is Some {
                    k
                } else {
                    k + 1
                }
            }
        },
        QueryPart::Other => 0,
    }
}

/// Rows that were seen are told apart by all their columns, each by the column's
/// collation.
pub proof fn seen_rows_are_told_apart_by_all_columns(plan: RecursiveCtePlan, i: int)
    requires
        0 <= i < plan.width(),
        plan.width() <= usize::MAX,
    ensures
        recursive_cte::seen_columns(plan).len() == plan.width(),
        recursive_cte::seen_columns(plan)[i].pos_in_table == i,
        recursive_cte::seen_columns(plan)[i].collation == recursive_cte::column_collation(
            plan,
            i as nat,
        ),
{
}

} // verus!
