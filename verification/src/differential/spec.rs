//! What workloads are made of: the vocabulary that is read from a file.

use vstd::prelude::*;
use crate::text;
use crate::text::same;
use crate::value::Real;

verus! {

/// A range of numbers, each to be divided by `divisor`.
pub struct ScaledRange {
    pub min: i32,
    pub max: i32,
    pub divisor: Real,
}

/// A byte, and how often it is repeated.
pub struct Fill {
    pub byte: u8,
    pub len: usize,
}

/// A text, and how often it is repeated.
pub struct Repetition {
    pub text: String,
    pub len: usize,
}

/// How one kind of value is made; which of the fields count depends on the kind.
pub struct ValueSpec {
    pub id: String,
    pub random: Option<(i64, i64)>,
    pub random_scaled: Option<ScaledRange>,
    pub random_string_max_len: Option<usize>,
    pub random_bytes_max_len: Option<usize>,
    pub oneof: Vec<i64>,
    pub oneof_float: Vec<Real>,
    pub literal: Option<String>,
    pub literal_float: Option<Real>,
    pub literal_bytes: bool,
    pub fill_bytes: Option<Fill>,
    pub repeat_char: Option<Repetition>,
}

/// How one kind of operation is made.
pub struct OpSpec {
    pub id: String,
    pub sql: Option<String>,
    pub named_params: Vec<String>,
}

/// The vocabulary.
pub struct OpsSpec {
    pub num_tables: u64,
    pub max_ops_per_case: u64,
    pub max_dynamic_cols: u64,
    pub col_types: Vec<String>,
    pub error_sqls: Vec<String>,
    pub unicode_options: Vec<String>,
    pub values: Vec<ValueSpec>,
    pub ops: Vec<OpSpec>,
}

/// Whether the values of a kind are made as no other kind's are.
pub open spec fn is_special_value(id: Seq<char>) -> bool {
    id == "null"@ || id == "integer"@ || id == "float"@ || id == "ascii"@ || id == "blob"@ || id
        == "int_extreme"@ || id == "float_extreme"@ || id == "empty_string"@ || id
        == "empty_blob"@ || id == "large_or_unicode"@ || id == "negative_zero"@ || id
        == "zero_blob"@ || id == "high_bit_blob"@ || id == "large_blob"@ || id == "large_string"@
}

fn special_value(id: &str) -> (r: bool)
    ensures
        r == is_special_value(id@),
{
    same(id, "null") || same(id, "integer") || same(id, "float") || same(id, "ascii") || same(
        id,
        "blob",
    ) || same(id, "int_extreme") || same(id, "float_extreme") || same(id, "empty_string") || same(
        id,
        "empty_blob",
    ) || same(id, "large_or_unicode") || same(id, "negative_zero") || same(id, "zero_blob")
        || same(id, "high_bit_blob") || same(id, "large_blob") || same(id, "large_string")
}

/// Whether integers can be chosen from a range.
pub open spec fn usable_range(range: (i64, i64)) -> bool {
    range.0 <= range.1 && range.1 - range.0 < i64::MAX
}

pub open spec fn usable_scaled_range(range: ScaledRange) -> bool {
    range.min <= range.max && range.max - range.min < i32::MAX
}

/// Whether a kind of value has the fields that it needs.
pub open spec fn usable_value(v: ValueSpec) -> bool {
    let id = v.id@;
    &&& id == "integer"@ ==> v.random is Some && usable_range(v.random->0)
    &&& id == "float"@ ==> v.random_scaled is Some && usable_scaled_range(v.random_scaled->0)
    &&& id == "ascii"@ ==> v.random_string_max_len is Some
    &&& id == "blob"@ ==> v.random_bytes_max_len is Some
    &&& id == "int_extreme"@ ==> v.oneof@.len() > 0
    &&& id == "float_extreme"@ ==> v.oneof_float@.len() > 0
    &&& id == "empty_string"@ ==> v.literal is Some
    &&& id == "negative_zero"@ ==> v.literal_float is Some
    &&& id == "zero_blob"@ || id == "high_bit_blob"@ || id == "large_blob"@
        ==> v.fill_bytes is Some
    &&& id == "large_string"@ ==> v.repeat_char is Some
    &&& !is_special_value(id) ==> v.literal is Some || v.literal_bytes
}

fn value_is_usable(v: &ValueSpec) -> (r: bool)
    ensures
        r == usable_value(*v),
{
    let id = v.id.as_str();
    let range_usable = match v.random {
        Some((min, max)) => min <= max && (min > 0 || max < i64::MAX + min),
        None => false,
    };
    let scaled_range_usable = match &v.random_scaled {
        Some(range) => range.min <= range.max && (range.min > 0 || range.max < i32::MAX
            + range.min),
        None => false,
    };
    !(same(id, "integer") && !range_usable) && !(same(id, "float") && !scaled_range_usable) && !(
    same(id, "ascii") && v.random_string_max_len.is_none()) && !(same(id, "blob")
        && v.random_bytes_max_len.is_none()) && !(same(id, "int_extreme") && v.oneof.len() == 0)
        && !(same(id, "float_extreme") && v.oneof_float.len() == 0) && !(same(id, "empty_string")
        && v.literal.is_none()) && !(same(id, "negative_zero") && v.literal_float.is_none()) && !((
    same(id, "zero_blob") || same(id, "high_bit_blob") || same(id, "large_blob"))
        && v.fill_bytes.is_none()) && !(same(id, "large_string") && v.repeat_char.is_none()) && (
    special_value(id) || v.literal.is_some() || v.literal_bytes)
}

/// Whether operations of a kind are made from tables and values alone.
pub open spec fn is_plain_op(id: Seq<char>) -> bool {
    id == "create"@ || id == "insert"@ || id == "select"@ || id == "select_value"@ || id
        == "insert_returning"@ || id == "delete_returning"@ || id == "update_returning"@ || id
        == "select_limit"@ || id == "select_count"@ || id == "select_expr"@ || id
        == "insert_affected"@ || id == "delete_affected"@ || id == "update_affected"@
}

pub fn plain_op(id: &str) -> (r: bool)
    ensures
        r == is_plain_op(id@),
{
    same(id, "create") || same(id, "insert") || same(id, "select") || same(id, "select_value")
        || same(id, "insert_returning") || same(id, "delete_returning") || same(
        id,
        "update_returning",
    ) || same(id, "select_limit") || same(id, "select_count") || same(id, "select_expr") || same(
        id,
        "insert_affected",
    ) || same(id, "delete_affected") || same(id, "update_affected")
}

/// Whether a kind of operation is known and has the fields that it needs.
pub open spec fn usable_op(o: OpSpec) -> bool {
    let id = o.id@;
    if id == "invalid"@ || id == "param"@ {
        o.sql is Some
    } else {
        is_plain_op(id) || id == "begin"@ || id == "commit"@ || id == "rollback"@ || id
            == "create_dynamic"@ || id == "named_param"@ || id == "numbered_param"@ || id
            == "insert_rowid"@ || id == "batch"@ || id == "error_check"@ || id
            == "prepared_reuse"@ || id == "create_trigger"@ || id == "transaction_workflow"@ || id
            == "error_in_transaction"@
    }
}

fn op_is_usable(o: &OpSpec) -> (r: bool)
    ensures
        r == usable_op(*o),
{
    let id = o.id.as_str();
    if same(id, "invalid") || same(id, "param") {
        o.sql.is_some()
    } else {
        plain_op(id) || same(id, "begin") || same(id, "commit") || same(id, "rollback") || same(
            id,
            "create_dynamic",
        ) || same(id, "named_param") || same(id, "numbered_param") || same(id, "insert_rowid")
            || same(id, "batch") || same(id, "error_check") || same(id, "prepared_reuse") || same(
            id,
            "create_trigger",
        ) || same(id, "transaction_workflow") || same(id, "error_in_transaction")
    }
}

impl OpsSpec {
    pub open spec fn tables(self) -> u8 {
        self.num_tables as u8
    }

    pub open spec fn most_ops(self) -> u8 {
        self.max_ops_per_case as u8
    }

    pub open spec fn most_columns(self) -> u8 {
        self.max_dynamic_cols as u8
    }

    pub open spec fn value_count(self) -> u8 {
        self.values@.len() as u8
    }

    pub open spec fn op_count(self) -> u8 {
        self.ops@.len() as u8
    }

    /// Whether a table can be picked.
    pub open spec fn tables_usable(self) -> bool {
        self.tables() != 0
    }

    /// Whether a kind of value has the fields that it needs, and something can be
    /// picked where it picks.
    pub open spec fn kind_usable(self, v: ValueSpec) -> bool {
        usable_value(v) && (v.id@ == "large_or_unicode"@ ==> self.unicode_options@.len() > 0)
    }

    /// Whether a value can be picked, and every kind that can be is usable.
    pub open spec fn values_usable(self) -> bool {
        &&& self.value_count() != 0
        &&& forall|i: int|
            0 <= i < self.value_count() ==> self.kind_usable(#[trigger] self.values@[i])
    }

    /// Whether columns can be picked.
    pub open spec fn columns_usable(self) -> bool {
        self.most_columns() != 0 && self.col_types@.len() > 0
    }

    /// Whether a statement that fails can be picked.
    pub open spec fn errors_usable(self) -> bool {
        self.error_sqls@.len() > 0
    }

    /// Whether an operation can be picked for a transaction.
    pub open spec fn inner_usable(self) -> bool {
        self.tables_usable() && self.values_usable()
    }

    /// Whether what an operation of a kind picks can be picked.
    pub open spec fn meets(self, o: OpSpec) -> bool {
        &&& needs_tables(o.id@) ==> self.tables_usable()
        &&& needs_values(o) ==> self.values_usable()
        &&& o.id@ == "create_dynamic"@ ==> self.columns_usable()
        &&& needs_errors(o.id@) ==> self.errors_usable()
    }

    /// Whether an operation can be picked, and every kind that can be is usable.
    pub open spec fn ops_usable(self) -> bool {
        &&& self.op_count() != 0
        &&& forall|i: int|
            0 <= i < self.op_count() ==> usable_op(#[trigger] self.ops@[i]) && self.meets(
                self.ops@[i],
            )
    }

    /// Whether workloads can be made: there may be operations, and every kind that
    /// can be picked is usable.
    pub open spec fn usable(self) -> bool {
        self.most_ops() != 0 && self.ops_usable()
    }
}

/// Whether operations of a kind pick a table.
pub open spec fn needs_tables(id: Seq<char>) -> bool {
    id == "create"@ || id == "select"@ || id == "delete_returning"@ || id == "select_limit"@ || id
        == "select_count"@ || id == "delete_affected"@ || id == "create_dynamic"@ || id == "batch"@
        || id == "create_trigger"@ || picks_both(id)
}

/// Whether operations of a kind pick a table and values.
pub open spec fn picks_both(id: Seq<char>) -> bool {
    id == "insert"@ || id == "insert_returning"@ || id == "update_returning"@ || id
        == "insert_affected"@ || id == "update_affected"@ || id == "insert_rowid"@ || id
        == "transaction_workflow"@ || id == "error_in_transaction"@
}

/// Whether operations of a kind pick values, whatever its parameters are.
pub open spec fn picks_values(id: Seq<char>) -> bool {
    id == "select_expr"@ || id == "param"@ || id == "numbered_param"@ || id == "prepared_reuse"@
        || picks_both(id)
}

/// Whether operations of a kind pick values.
pub open spec fn needs_values(o: OpSpec) -> bool {
    picks_values(o.id@) || (o.id@ == "named_param"@ && o.named_params@.len() > 0)
}

/// Whether operations of a kind pick a statement that fails.
pub open spec fn needs_errors(id: Seq<char>) -> bool {
    id == "error_check"@ || id == "error_in_transaction"@
}

fn both_are_picked(id: &str) -> (r: bool)
    ensures
        r == picks_both(id@),
{
    same(id, "insert") || same(id, "insert_returning") || same(id, "update_returning") || same(
        id,
        "insert_affected",
    ) || same(id, "update_affected") || same(id, "insert_rowid") || same(
        id,
        "transaction_workflow",
    ) || same(id, "error_in_transaction")
}

fn op_is_met(spec: &OpsSpec, o: &OpSpec, values: bool) -> (r: bool)
    requires
        values == spec.values_usable(),
    ensures
        r == spec.meets(*o),
{
    let id = o.id.as_str();
    let both = both_are_picked(id);
    let by_tables = same(id, "create") || same(id, "select") || same(id, "delete_returning")
        || same(id, "select_limit") || same(id, "select_count") || same(id, "delete_affected")
        || same(id, "create_dynamic") || same(id, "batch") || same(id, "create_trigger") || both;
    let by_values = same(id, "select_expr") || same(id, "param") || same(id, "numbered_param")
        || same(id, "prepared_reuse") || both || (same(id, "named_param") && o.named_params.len()
        > 0);
    let by_errors = same(id, "error_check") || same(id, "error_in_transaction");
    !(by_tables && spec_num_tables(spec) == 0) && !(by_values && !values) && !(same(
        id,
        "create_dynamic",
    ) && (spec_max_dynamic_cols(spec) == 0 || spec.col_types.len() == 0)) && !(by_errors
        && spec.error_sqls.len() == 0)
}

/// How many tables there are. Only the low byte of the number counts, here and
/// below.
pub fn spec_num_tables(spec: &OpsSpec) -> (r: u8)
    ensures
        r == spec.tables(),
{
    #[verifier::truncate]
    (spec.num_tables as u8)
}

/// The most operations that a workload has.
pub fn spec_max_ops(spec: &OpsSpec) -> (r: u8)
    ensures
        r == spec.most_ops(),
{
    #[verifier::truncate]
    (spec.max_ops_per_case as u8)
}

/// The most columns that a table gets.
pub fn spec_max_dynamic_cols(spec: &OpsSpec) -> (r: u8)
    ensures
        r == spec.most_columns(),
{
    #[verifier::truncate]
    (spec.max_dynamic_cols as u8)
}

/// The types that a column can have.
pub fn spec_col_types(spec: &OpsSpec) -> (r: &Vec<String>)
    ensures
        *r == spec.col_types,
{
    &spec.col_types
}

/// How many kinds of values there are.
pub fn spec_num_values(spec: &OpsSpec) -> (r: u8)
    ensures
        r == spec.value_count(),
{
    #[verifier::truncate]
    (spec.values.len() as u8)
}

/// How many kinds of operations there are.
pub fn spec_num_ops(spec: &OpsSpec) -> (r: u8)
    ensures
        r == spec.op_count(),
{
    #[verifier::truncate]
    (spec.ops.len() as u8)
}

/// The statements that fail.
pub fn spec_error_sqls(spec: &OpsSpec) -> (r: &Vec<String>)
    ensures
        *r == spec.error_sqls,
{
    &spec.error_sqls
}

/// Texts beyond ASCII.
pub fn spec_unicode_options(spec: &OpsSpec) -> (r: &Vec<String>)
    ensures
        *r == spec.unicode_options,
{
    &spec.unicode_options
}

/// Whether values can be made of a vocabulary.
pub fn values_are_usable(spec: &OpsSpec) -> (r: bool)
    ensures
        r == spec.values_usable(),
{
    let count: u8 = spec_num_values(spec);
    if count == 0 {
        return false;
    }
    let n: usize = spec.values.len();
    assert(n as u8 <= n) by (bit_vector);
    let mut i: u8 = 0;
    while i < count
        invariant
            i <= count <= spec.values@.len(),
            count == spec.value_count(),
            forall|j: int| 0 <= j < i ==> spec.kind_usable(#[trigger] spec.values@[j]),
        decreases count - i,
    {
        let v = &spec.values[i as usize];
        if !value_is_usable(v) || (same(v.id.as_str(), "large_or_unicode")
            && spec.unicode_options.len() == 0) {
            assert(!spec.kind_usable(spec.values@[i as int]));
            return false;
        }
        i = i + 1;
    }
    true
}

/// Whether workloads can be made of a vocabulary.
pub fn is_usable(spec: &OpsSpec) -> (r: bool)
    ensures
        r == spec.usable(),
{
    let count: u8 = spec_num_ops(spec);
    if spec_max_ops(spec) == 0 || count == 0 {
        return false;
    }
    let values = values_are_usable(spec);
    let n: usize = spec.ops.len();
    assert(n as u8 <= n) by (bit_vector);
    let mut k: u8 = 0;
    while k < count
        invariant
            k <= count <= spec.ops@.len(),
            count == spec.op_count(),
            values == spec.values_usable(),
            forall|j: int|
                0 <= j < k ==> usable_op(#[trigger] spec.ops@[j]) && spec.meets(spec.ops@[j]),
        decreases count - k,
    {
        let o = &spec.ops[k as usize];
        if !op_is_usable(o) || !op_is_met(spec, o, values) {
            assert(!(usable_op(spec.ops@[k as int]) && spec.meets(spec.ops@[k as int])));
            return false;
        }
        k = k + 1;
    }
    true
}

} // verus!
