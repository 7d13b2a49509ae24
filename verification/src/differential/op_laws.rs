//! What generated operations are like.

use vstd::prelude::*;
use crate::differential::draws::Reading;
use crate::differential::ops;
use crate::differential::ops::OpModel;
use crate::differential::spec::OpsSpec;
use crate::pg::catalog;
use crate::text;

verus! {

/// The kind that an operation is asked for by, of those on one table or none.
pub open spec fn kind_of(op: OpModel) -> Seq<char> {
    match op {
        OpModel::CreateTable { .. } => "create"@,
        OpModel::Insert { .. } => "insert"@,
        OpModel::InsertReturning { .. } => "insert_returning"@,
        OpModel::DeleteReturning { .. } => "delete_returning"@,
        OpModel::UpdateReturning { .. } => "update_returning"@,
        OpModel::Select { .. } => "select"@,
        OpModel::SelectValue { .. } => "select_value"@,
        OpModel::InsertAffected { .. } => "insert_affected"@,
        OpModel::DeleteAffected { .. } => "delete_affected"@,
        OpModel::UpdateAffected { .. } => "update_affected"@,
        OpModel::SelectLimit { .. } => "select_limit"@,
        OpModel::SelectCount { .. } => "select_count"@,
        OpModel::SelectExpr { .. } => "select_expr"@,
        _ => Seq::empty(),
    }
}

/// An operation is of the kind that was asked for; the last kind stands for all
/// that are not listed.
#[verifier::rlimit(40)]
pub proof fn operations_are_of_their_kind(
    vocabulary: OpsSpec,
    id: Seq<char>,
    cols: Map<Seq<char>, usize>,
    prefix: u32,
    draws: Reading,
)
    requires
        ops::random_plain_op(vocabulary, id, cols, prefix, draws) is Ok,
    ensures
        ({
            let op = ops::random_plain_op(vocabulary, id, cols, prefix, draws)->Ok_0.0;
            op is UpdateAffected || kind_of(op) == id
        }),
{
    reveal(ops::random_plain_op);
}

/// The table that an operation changes by a row of values, and the values.
pub open spec fn row_of(op: OpModel) -> Option<(Seq<char>, nat)> {
    match op {
        OpModel::Insert { table, values } => Some((table, values.len())),
        OpModel::InsertReturning { table, values } => Some((table, values.len())),
        OpModel::InsertAffected { table, values } => Some((table, values.len())),
        _ => None,
    }
}

proof fn values_are_counted(vocabulary: OpsSpec, n: nat, draws: Reading)
    ensures
        ops::random_values(vocabulary, n, draws) matches Ok((vals, _)) ==> vals.len() == n,
    decreases n,
{
    if n > 0 {
        values_are_counted(vocabulary, (n - 1) as nat, draws);
    }
}

proof fn rows_fit(
    vocabulary: OpsSpec,
    cols: Map<Seq<char>, usize>,
    table: Seq<char>,
    draws: Reading,
)
    ensures
        ops::random_row(vocabulary, cols, table, draws) matches Ok((vals, _)) ==> vals.len()
            <= ops::columns_of(cols, table),
{
    values_are_counted(vocabulary, ops::VALUES_PER_ROW as nat, draws);
}

/// Columns that are made up are named by their numbers, and there are as many as
/// were wanted.
pub proof fn columns_are_counted(vocabulary: OpsSpec, n: nat, draws: Reading)
    ensures
        ops::random_columns(vocabulary, n, draws) matches Ok((made, _)) ==> made.len() == n
            && forall|i: int|
            0 <= i < n ==> (#[trigger] made[i]).0 == "c"@ + text::decimal(i as nat),
    decreases n,
{
    if n > 0 {
        columns_are_counted(vocabulary, (n - 1) as nat, draws);
    }
}

/// What holds of an operation and of what is remembered behind it.
pub open spec fn fits(
    cols: Map<Seq<char>, usize>,
    op: OpModel,
    after: Map<Seq<char>, usize>,
) -> bool {
    &&& row_of(op) matches Some((table, count)) ==> count <= ops::columns_of(cols, table)
    &&& op matches OpModel::CreateTable { name, cols: made } ==> after == cols.insert(
        name,
        made.len() as usize,
    )
    &&& !(op is CreateTable) ==> after == cols
}

/// A row never has more values than its table has columns, as far as tables were
/// created before; and what is remembered of a table that is created is how many
/// columns it was created with. Other operations leave that alone.
#[verifier::rlimit(60)]
pub proof fn rows_fit_their_tables(
    vocabulary: OpsSpec,
    id: Seq<char>,
    cols: Map<Seq<char>, usize>,
    prefix: u32,
    draws: Reading,
)
    requires
        ops::random_plain_op(vocabulary, id, cols, prefix, draws) is Ok,
    ensures
        ({
            let r = ops::random_plain_op(vocabulary, id, cols, prefix, draws)->Ok_0;
            fits(cols, r.0, r.1)
        }),
{
    reveal(ops::random_plain_op);
    if let Ok((table, rest)) = ops::random_table(vocabulary, prefix, draws) {
        rows_fit(vocabulary, cols, table, rest);
    }
    assert(ops::default_columns().len() == ops::DEFAULT_COLUMNS);
}

/// A table is one of those that the vocabulary has, under the prefix of the run.
pub proof fn tables_are_of_the_run(vocabulary: OpsSpec, prefix: u32, draws: Reading)
    requires
        0 < vocabulary.tables(),
    ensures
        ops::random_table(vocabulary, prefix, draws) matches Ok((name, _)) ==> exists|idx: u8|
            idx < vocabulary.tables() && name == #[trigger] ops::numbered_table(prefix, idx),
{
    if let Ok((idx, _)) = draws.byte() {
        assert(ops::numbered_table(prefix, idx % vocabulary.tables()) == ops::numbered_table(
            prefix,
            idx % vocabulary.tables(),
        ));
    }
}

/// What is left of a division keeps the sign of what was divided, is smaller than
/// the divisor, and leaves a multiple of it.
pub proof fn remainders_keep_their_sign(v: int, d: int)
    requires
        d > 0,
    ensures
        ({
            let r = ops::signed_remainder(v, d);
            &&& -d < r < d
            &&& (v - r) % d == 0
            &&& v >= 0 ==> r >= 0
            &&& v <= 0 ==> r <= 0
            &&& ops::signed_remainder(-v, d) == -r
        }),
{
    let w = if v < 0 {
        -v
    } else {
        v
    };
    let r = w % d;
    let q = w / d;
    vstd::arithmetic::div_mod::lemma_fundamental_div_mod(w, d);
    vstd::arithmetic::div_mod::lemma_mod_bound(w, d);
    assert(d * q == q * d && -(q * d) == (-q) * d) by (nonlinear_arith);
    vstd::arithmetic::div_mod::lemma_mod_multiples_basic(q, d);
    vstd::arithmetic::div_mod::lemma_mod_multiples_basic(-q, d);
    if v < 0 {
        assert(v - ops::signed_remainder(v, d) == (-q) * d);
    } else {
        assert(v - ops::signed_remainder(v, d) == q * d);
    }
    if v == 0 {
        vstd::arithmetic::div_mod::lemma_small_mod(0, d as nat);
    }
}

/// A pattern is replaced wherever it stands: what stands before it is left alone,
/// if the pattern cannot start there, and what stands behind it is gone on with.
pub proof fn patterns_are_replaced(
    a: Seq<char>,
    pattern: Seq<char>,
    b: Seq<char>,
    by: Seq<char>,
)
    requires
        pattern.len() > 0,
        forall|i: int| 0 <= i < a.len() ==> #[trigger] a[i] != pattern[0],
    ensures
        ops::replaced(a + pattern + b, pattern, by) == a + by + ops::replaced(b, pattern, by),
        ops::replaced(a, pattern, by) == a,
    decreases a.len(),
{
    let s = a + pattern + b;
    if a.len() == 0 {
        assert(s =~= pattern + b);
        assert(pattern.is_prefix_of(s));
        assert(s.skip(pattern.len() as int) =~= b);
        assert(ops::replaced(s, pattern, by) =~= a + by + ops::replaced(b, pattern, by));
        assert(ops::replaced(a, pattern, by) =~= a);
    } else {
        let rest = a.skip(1);
        assert forall|i: int| 0 <= i < rest.len() implies #[trigger] rest[i] != pattern[0] by {
            assert(rest[i] == a[i + 1]);
        }
        patterns_are_replaced(rest, pattern, b, by);
        assert(s[0] == a[0]);
        assert(!text::starts(s, pattern));
        assert(!text::starts(a, pattern));
        assert(s.skip(1) =~= rest + pattern + b);
        assert(ops::replaced(s, pattern, by) =~= a + by + ops::replaced(b, pattern, by));
        assert(ops::replaced(a, pattern, by) =~= a);
    }
}

/// Columns are defined one behind the other, each by its name and its type, with
/// commas between them.
pub proof fn columns_are_defined_in_order(cols: Seq<(Seq<char>, Seq<char>)>)
    ensures
        ops::column_definitions(cols) == catalog::join(
            Seq::new(cols.len(), |i: int| cols[i].0 + seq![' '] + cols[i].1),
            seq![',', ' '],
        ),
    decreases cols.len(),
{
    reveal_strlit(" ");
    reveal_strlit(", ");
    assert(" "@ =~= seq![' ']);
    assert(", "@ =~= seq![',', ' ']);
    let parts = Seq::new(cols.len(), |i: int| cols[i].0 + seq![' '] + cols[i].1);
    if cols.len() > 1 {
        columns_are_defined_in_order(cols.drop_last());
        assert(parts.drop_last() =~= Seq::new(
            cols.drop_last().len(),
            |i: int| cols.drop_last()[i].0 + seq![' '] + cols.drop_last()[i].1,
        ));
    }
}

} // verus!
