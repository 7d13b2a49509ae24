//! What was made of choices is made of them on a longer tape too.

use vstd::prelude::*;
use crate::differential::draws::{DrawKind, Reading};
use crate::differential::ops;
use crate::differential::spec::{OpSpec, OpsSpec, ValueSpec};
use crate::differential::values;

verus! {

/// Whether what was made of choices is made of them on a longer tape too, which
/// is then read as far.
pub open spec fn carries_over<T>(
    draws: Reading,
    longer: Reading,
    made: Result<(T, Reading), DrawKind>,
    made_longer: Result<(T, Reading), DrawKind>,
) -> bool {
    longer.extends(draws) && made is Ok ==> {
        &&& made->Ok_0.1.tape == draws.tape
        &&& made_longer == Ok::<(T, Reading), DrawKind>(
            (made->Ok_0.0, made->Ok_0.1.on(longer.tape)),
        )
    }
}

/// Whether what was made of choices, and noted of tables, is the same on a
/// longer tape.
pub open spec fn op_carries_over<T>(
    draws: Reading,
    longer: Reading,
    made: Result<(T, Map<Seq<char>, usize>, Reading), DrawKind>,
    made_longer: Result<(T, Map<Seq<char>, usize>, Reading), DrawKind>,
) -> bool {
    longer.extends(draws) && made is Ok ==> {
        &&& made->Ok_0.2.tape == draws.tape
        &&& made_longer == Ok::<(T, Map<Seq<char>, usize>, Reading), DrawKind>(
            (made->Ok_0.0, made->Ok_0.1, made->Ok_0.2.on(longer.tape)),
        )
    }
}

pub(crate) broadcast proof fn kind_carries_over(
    vocabulary: OpsSpec,
    entry: ValueSpec,
    draws: Reading,
    longer: Reading,
)
    ensures
        carries_over(
            draws,
            longer,
            #[trigger] values::value_of_kind(vocabulary, entry, draws),
            #[trigger] values::value_of_kind(vocabulary, entry, longer),
        ),
{
}

pub(crate) broadcast proof fn value_carries_over(
    vocabulary: OpsSpec,
    draws: Reading,
    longer: Reading,
)
    ensures
        carries_over(
            draws,
            longer,
            #[trigger] values::random_value(vocabulary, draws),
            #[trigger] values::random_value(vocabulary, longer),
        ),
{
    broadcast use kind_carries_over;

}

pub(crate) broadcast proof fn table_carries_over(
    vocabulary: OpsSpec,
    prefix: u32,
    draws: Reading,
    longer: Reading,
)
    ensures
        carries_over(
            draws,
            longer,
            #[trigger] ops::random_table(vocabulary, prefix, draws),
            #[trigger] ops::random_table(vocabulary, prefix, longer),
        ),
{
}

pub(crate) broadcast proof fn values_carry_over(
    vocabulary: OpsSpec,
    n: nat,
    draws: Reading,
    longer: Reading,
)
    ensures
        carries_over(
            draws,
            longer,
            #[trigger] ops::random_values(vocabulary, n, draws),
            #[trigger] ops::random_values(vocabulary, n, longer),
        ),
    decreases n,
{
    broadcast use value_carries_over;

    if n > 0 {
        values_carry_over(vocabulary, (n - 1) as nat, draws, longer);
    }
}

pub(crate) broadcast proof fn row_carries_over(
    vocabulary: OpsSpec,
    cols: Map<Seq<char>, usize>,
    table: Seq<char>,
    draws: Reading,
    longer: Reading,
)
    ensures
        carries_over(
            draws,
            longer,
            #[trigger] ops::random_row(vocabulary, cols, table, draws),
            #[trigger] ops::random_row(vocabulary, cols, table, longer),
        ),
{
    broadcast use values_carry_over;

}

pub(crate) broadcast proof fn columns_carry_over(
    vocabulary: OpsSpec,
    n: nat,
    draws: Reading,
    longer: Reading,
)
    ensures
        carries_over(
            draws,
            longer,
            #[trigger] ops::random_columns(vocabulary, n, draws),
            #[trigger] ops::random_columns(vocabulary, n, longer),
        ),
    decreases n,
{
    if n > 0 {
        columns_carry_over(vocabulary, (n - 1) as nat, draws, longer);
    }
}

pub(crate) broadcast proof fn dynamic_columns_carry_over(
    vocabulary: OpsSpec,
    draws: Reading,
    longer: Reading,
)
    ensures
        carries_over(
            draws,
            longer,
            #[trigger] ops::random_dynamic_columns(vocabulary, draws),
            #[trigger] ops::random_dynamic_columns(vocabulary, longer),
        ),
{
    broadcast use columns_carry_over;

}

pub(crate) broadcast proof fn batch_carries_over(
    vocabulary: OpsSpec,
    prefix: u32,
    draws: Reading,
    longer: Reading,
)
    ensures
        carries_over(
            draws,
            longer,
            #[trigger] ops::random_batch(vocabulary, prefix, draws),
            #[trigger] ops::random_batch(vocabulary, prefix, longer),
        ),
{
}

pub(crate) broadcast proof fn error_sql_carries_over(
    vocabulary: OpsSpec,
    prefix: u32,
    draws: Reading,
    longer: Reading,
)
    ensures
        carries_over(
            draws,
            longer,
            #[trigger] ops::random_error_sql(vocabulary, prefix, draws),
            #[trigger] ops::random_error_sql(vocabulary, prefix, longer),
        ),
{
}

pub(crate) broadcast proof fn plain_op_carries_over(
    vocabulary: OpsSpec,
    id: Seq<char>,
    cols: Map<Seq<char>, usize>,
    prefix: u32,
    draws: Reading,
    longer: Reading,
)
    ensures
        op_carries_over(
            draws,
            longer,
            #[trigger] ops::random_plain_op(vocabulary, id, cols, prefix, draws),
            #[trigger] ops::random_plain_op(vocabulary, id, cols, prefix, longer),
        ),
{
    broadcast use {table_carries_over, row_carries_over, value_carries_over};

    reveal(ops::random_plain_op);
}

pub(crate) broadcast proof fn inner_op_carries_over(
    vocabulary: OpsSpec,
    cols: Map<Seq<char>, usize>,
    prefix: u32,
    draws: Reading,
    longer: Reading,
)
    ensures
        op_carries_over(
            draws,
            longer,
            #[trigger] ops::random_inner_op(vocabulary, cols, prefix, draws),
            #[trigger] ops::random_inner_op(vocabulary, cols, prefix, longer),
        ),
{
    broadcast use plain_op_carries_over;

}

pub(crate) broadcast proof fn inner_ops_carry_over(
    vocabulary: OpsSpec,
    n: nat,
    cols: Map<Seq<char>, usize>,
    prefix: u32,
    draws: Reading,
    longer: Reading,
)
    ensures
        op_carries_over(
            draws,
            longer,
            #[trigger] ops::random_inner_ops(vocabulary, n, cols, prefix, draws),
            #[trigger] ops::random_inner_ops(vocabulary, n, cols, prefix, longer),
        ),
    decreases n,
{
    broadcast use inner_op_carries_over;

    if n > 0 {
        inner_ops_carry_over(vocabulary, (n - 1) as nat, cols, prefix, draws, longer);
    }
}

pub(crate) broadcast proof fn transaction_carries_over(
    vocabulary: OpsSpec,
    cols: Map<Seq<char>, usize>,
    prefix: u32,
    draws: Reading,
    longer: Reading,
)
    ensures
        op_carries_over(
            draws,
            longer,
            #[trigger] ops::random_transaction(vocabulary, cols, prefix, draws),
            #[trigger] ops::random_transaction(vocabulary, cols, prefix, longer),
        ),
{
    broadcast use inner_ops_carry_over;

}

pub(crate) broadcast proof fn error_in_transaction_carries_over(
    vocabulary: OpsSpec,
    cols: Map<Seq<char>, usize>,
    prefix: u32,
    draws: Reading,
    longer: Reading,
)
    ensures
        op_carries_over(
            draws,
            longer,
            #[trigger] ops::random_error_in_transaction(vocabulary, cols, prefix, draws),
            #[trigger] ops::random_error_in_transaction(vocabulary, cols, prefix, longer),
        ),
{
    broadcast use {inner_op_carries_over, error_sql_carries_over};

}

pub(crate) broadcast proof fn named_carry_over(
    vocabulary: OpsSpec,
    names: Seq<String>,
    n: nat,
    draws: Reading,
    longer: Reading,
)
    ensures
        carries_over(
            draws,
            longer,
            #[trigger] ops::random_named(vocabulary, names, n, draws),
            #[trigger] ops::random_named(vocabulary, names, n, longer),
        ),
    decreases n,
{
    broadcast use value_carries_over;

    if n > 0 {
        named_carry_over(vocabulary, names, (n - 1) as nat, draws, longer);
    }
}

pub(crate) broadcast proof fn sets_carry_over(
    vocabulary: OpsSpec,
    draws: Reading,
    longer: Reading,
)
    ensures
        carries_over(
            draws,
            longer,
            #[trigger] ops::random_sets(vocabulary, draws),
            #[trigger] ops::random_sets(vocabulary, longer),
        ),
{
    broadcast use values_carry_over;

}

pub(crate) broadcast proof fn other_op_carries_over(
    vocabulary: OpsSpec,
    entry: OpSpec,
    cols: Map<Seq<char>, usize>,
    prefix: u32,
    draws: Reading,
    longer: Reading,
)
    ensures
        op_carries_over(
            draws,
            longer,
            #[trigger] ops::other_op(vocabulary, entry, cols, prefix, draws),
            #[trigger] ops::other_op(vocabulary, entry, cols, prefix, longer),
        ),
{
    reveal(ops::other_op);
    let id = entry.id@;
    if longer.extends(draws) {
        if id == "param"@ {
            values_carry_over(vocabulary, 2, draws, longer);
        } else if id == "create_dynamic"@ {
            dynamic_columns_carry_over(vocabulary, draws, longer);
            if let Ok((_, rest)) = ops::random_dynamic_columns(vocabulary, draws) {
                table_carries_over(vocabulary, prefix, rest, rest.on(longer.tape));
            }
        } else if id == "named_param"@ {
            let names = entry.named_params@;
            named_carry_over(vocabulary, names, names.len(), draws, longer);
        } else if id == "numbered_param"@ {
            values_carry_over(vocabulary, 2, draws, longer);
        } else if id == "insert_rowid"@ {
            table_carries_over(vocabulary, prefix, draws, longer);
            if let Ok((table, rest)) = ops::random_table(vocabulary, prefix, draws) {
                row_carries_over(vocabulary, cols, table, rest, rest.on(longer.tape));
            }
        } else if id == "batch"@ {
            batch_carries_over(vocabulary, prefix, draws, longer);
        } else if id == "error_check"@ {
            error_sql_carries_over(vocabulary, prefix, draws, longer);
        } else if id == "prepared_reuse"@ {
            sets_carry_over(vocabulary, draws, longer);
        } else if id == "create_trigger"@ {
            table_carries_over(vocabulary, prefix, draws, longer);
        } else if id == "transaction_workflow"@ {
            transaction_carries_over(vocabulary, cols, prefix, draws, longer);
        } else {
            error_in_transaction_carries_over(vocabulary, cols, prefix, draws, longer);
        }
    }
}

pub(crate) broadcast proof fn op_is_carried_over(
    vocabulary: OpsSpec,
    cols: Map<Seq<char>, usize>,
    prefix: u32,
    draws: Reading,
    longer: Reading,
)
    ensures
        op_carries_over(
            draws,
            longer,
            #[trigger] ops::random_op(vocabulary, cols, prefix, draws),
            #[trigger] ops::random_op(vocabulary, cols, prefix, longer),
        ),
{
    broadcast use {plain_op_carries_over, other_op_carries_over};

}

pub(crate) broadcast proof fn ops_carry_over(
    vocabulary: OpsSpec,
    n: nat,
    prefix: u32,
    draws: Reading,
    longer: Reading,
)
    ensures
        op_carries_over(
            draws,
            longer,
            #[trigger] ops::random_ops(vocabulary, n, prefix, draws),
            #[trigger] ops::random_ops(vocabulary, n, prefix, longer),
        ),
    decreases n,
{
    broadcast use op_is_carried_over;

    if n > 0 {
        ops_carry_over(vocabulary, (n - 1) as nat, prefix, draws, longer);
    }
}

/// A workload stays what it is where more choices are made behind those that it
/// takes.
pub proof fn workload_carries_over(
    vocabulary: OpsSpec,
    prefix: u32,
    draws: Reading,
    longer: Reading,
)
    requires
        longer.extends(draws),
        ops::workload(vocabulary, prefix, draws) is Ok,
    ensures
        ops::workload(vocabulary, prefix, longer) matches Ok((made, rest))
            && ops::workload(vocabulary, prefix, draws)->Ok_0.0 == made
            && ops::workload(vocabulary, prefix, draws)->Ok_0.1.at == rest.at,
{
    broadcast use ops_carry_over;

}

} // verus!
