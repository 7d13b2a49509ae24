//! Random operations: the workloads that two drivers are compared on.

use vstd::prelude::*;
use vstd::string::StringExecFns;
use crate::differential::draws::{DrawKind, Draws, Reading};
use crate::differential::spec;
use crate::differential::spec::{
    spec_max_dynamic_cols, spec_max_ops, spec_num_ops, spec_num_tables, OpSpec, OpsSpec,
};
use crate::differential::values;
use crate::differential::values::{gen_value, Val, ValModel};
use crate::names::Named;
use crate::text;
use crate::text::{chars_of, join2, join3, print_i64, print_u64, same};

verus! {

/// One operation of a workload.
#[allow(inconsistent_fields)]
#[derive(Debug)]
pub enum Op {
    CreateTable { name: String, cols: Vec<(String, String)> },
    CreateTableDynamic { name: String, cols: Vec<(String, String)> },
    Insert { table: String, values: Vec<Val> },
    InsertReturning { table: String, values: Vec<Val> },
    DeleteReturning { table: String },
    UpdateReturning { table: String, value: Val },
    Select { table: String },
    SelectValue { expr: String },
    BeginTx,
    CommitTx,
    RollbackTx,
    InvalidSQL { sql: String },
    Param { sql: String, params: Vec<Val> },
    NamedParam { values: Vec<(String, Val)> },
    NumberedParam { values: Vec<Val> },
    InsertAffected { table: String, values: Vec<Val> },
    DeleteAffected { table: String },
    UpdateAffected { table: String, value: Val },
    InsertRowid { table: String, values: Vec<Val> },
    Batch { sql: String },
    SelectLimit { table: String },
    SelectCount { table: String },
    SelectExpr { param: Val },
    ErrorCheck { sql: String },
    PreparedReuse { params_sets: Vec<Vec<Val>> },
    /// Creates a trigger with semicolons in its body, and fires it.
    CreateTrigger { table: String },
    /// A transaction: its operations, and whether it is committed.
    TransactionWorkflow { inner_ops: Vec<Op>, commit: bool },
    /// A transaction in which a statement fails between two that do not.
    ErrorInTransaction { good_op: Box<Op>, bad_sql: String, recovery_op: Box<Op> },
}

/// One operation of a workload, by what it holds.
#[allow(inconsistent_fields)]
pub enum OpModel {
    CreateTable { name: Seq<char>, cols: Seq<(Seq<char>, Seq<char>)> },
    CreateTableDynamic { name: Seq<char>, cols: Seq<(Seq<char>, Seq<char>)> },
    Insert { table: Seq<char>, values: Seq<ValModel> },
    InsertReturning { table: Seq<char>, values: Seq<ValModel> },
    DeleteReturning { table: Seq<char> },
    UpdateReturning { table: Seq<char>, value: ValModel },
    Select { table: Seq<char> },
    SelectValue { expr: Seq<char> },
    BeginTx,
    CommitTx,
    RollbackTx,
    InvalidSQL { sql: Seq<char> },
    Param { sql: Seq<char>, params: Seq<ValModel> },
    NamedParam { values: Seq<(Seq<char>, ValModel)> },
    NumberedParam { values: Seq<ValModel> },
    InsertAffected { table: Seq<char>, values: Seq<ValModel> },
    DeleteAffected { table: Seq<char> },
    UpdateAffected { table: Seq<char>, value: ValModel },
    InsertRowid { table: Seq<char>, values: Seq<ValModel> },
    Batch { sql: Seq<char> },
    SelectLimit { table: Seq<char> },
    SelectCount { table: Seq<char> },
    SelectExpr { param: ValModel },
    ErrorCheck { sql: Seq<char> },
    PreparedReuse { params_sets: Seq<Seq<ValModel>> },
    CreateTrigger { table: Seq<char> },
    TransactionWorkflow { inner_ops: Seq<OpModel>, commit: bool },
    ErrorInTransaction { good_op: Box<OpModel>, bad_sql: Seq<char>, recovery_op: Box<OpModel> },
}

/// Columns of a table: their names and types, by what they hold.
pub open spec fn column_pairs(cols: Seq<(String, String)>) -> Seq<(Seq<char>, Seq<char>)> {
    cols.map_values(|c: (String, String)| (c.0@, c.1@))
}

/// Named values, by what they hold.
pub open spec fn named_vals(values: Seq<(String, Val)>) -> Seq<(Seq<char>, ValModel)> {
    values.map_values(|v: (String, Val)| (v.0@, v.1@))
}

/// Sets of values, by what they hold.
pub open spec fn val_sets(sets: Seq<Vec<Val>>) -> Seq<Seq<ValModel>> {
    sets.map_values(|s: Vec<Val>| values::val_models(s@))
}

impl Op {
    /// What the operation holds.
    pub open spec fn model(self) -> OpModel
        decreases self,
    {
        match self {
            Op::CreateTable { name, cols } => OpModel::CreateTable {
                name: name@,
                cols: column_pairs(cols@),
            },
            Op::CreateTableDynamic { name, cols } => OpModel::CreateTableDynamic {
                name: name@,
                cols: column_pairs(cols@),
            },
            Op::Insert { table, values } => OpModel::Insert {
                table: table@,
                values: values::val_models(values@),
            },
            Op::InsertReturning { table, values } => OpModel::InsertReturning {
                table: table@,
                values: values::val_models(values@),
            },
            Op::DeleteReturning { table } => OpModel::DeleteReturning { table: table@ },
            Op::UpdateReturning { table, value } => OpModel::UpdateReturning {
                table: table@,
                value: value@,
            },
            Op::Select { table } => OpModel::Select { table: table@ },
            Op::SelectValue { expr } => OpModel::SelectValue { expr: expr@ },
            Op::BeginTx => OpModel::BeginTx,
            Op::CommitTx => OpModel::CommitTx,
            Op::RollbackTx => OpModel::RollbackTx,
            Op::InvalidSQL { sql } => OpModel::InvalidSQL { sql: sql@ },
            Op::Param { sql, params } => OpModel::Param {
                sql: sql@,
                params: values::val_models(params@),
            },
            Op::NamedParam { values } => OpModel::NamedParam { values: named_vals(values@) },
            Op::NumberedParam { values } => OpModel::NumberedParam {
                values: values::val_models(values@),
            },
            Op::InsertAffected { table, values } => OpModel::InsertAffected {
                table: table@,
                values: values::val_models(values@),
            },
            Op::DeleteAffected { table } => OpModel::DeleteAffected { table: table@ },
            Op::UpdateAffected { table, value } => OpModel::UpdateAffected {
                table: table@,
                value: value@,
            },
            Op::InsertRowid { table, values } => OpModel::InsertRowid {
                table: table@,
                values: values::val_models(values@),
            },
            Op::Batch { sql } => OpModel::Batch { sql: sql@ },
            Op::SelectLimit { table } => OpModel::SelectLimit { table: table@ },
            Op::SelectCount { table } => OpModel::SelectCount { table: table@ },
            Op::SelectExpr { param } => OpModel::SelectExpr { param: param@ },
            Op::ErrorCheck { sql } => OpModel::ErrorCheck { sql: sql@ },
            Op::PreparedReuse { params_sets } => OpModel::PreparedReuse {
                params_sets: val_sets(params_sets@),
            },
            Op::CreateTrigger { table } => OpModel::CreateTrigger { table: table@ },
            Op::TransactionWorkflow { inner_ops, commit } => OpModel::TransactionWorkflow {
                inner_ops: Seq::new(
                    inner_ops@.len(),
                    |i: int|
                        if 0 <= i < inner_ops@.len() {
                            inner_ops@[i].model()
                        } else {
                            OpModel::BeginTx
                        },
                ),
                commit,
            },
            Op::ErrorInTransaction { good_op, bad_sql, recovery_op } => {
                OpModel::ErrorInTransaction {
                    good_op: Box::new(good_op.model()),
                    bad_sql: bad_sql@,
                    recovery_op: Box::new(recovery_op.model()),
                }
            },
        }
    }
}

/// Operations, by what they hold.
pub open spec fn op_models(ops: Seq<Op>) -> Seq<OpModel> {
    ops.map_values(|o: Op| o.model())
}

/// How many columns tables have, as far as they were created.
pub struct TableCols {
    columns: Named<usize>,
}

impl View for TableCols {
    type V = Map<Seq<char>, usize>;

    closed spec fn view(&self) -> Map<Seq<char>, usize> {
        self.columns@
    }
}

impl TableCols {
    pub fn new() -> (r: TableCols)
        ensures
            r@ == Map::<Seq<char>, usize>::empty(),
    {
        TableCols { columns: Named::new() }
    }

    /// How many columns a table has.
    pub fn get(&self, table: &str) -> (r: Option<usize>)
        ensures
            r == if self@.contains_key(table@) {
                Some(self@[table@])
            } else {
                None
            },
    {
        match self.columns.get(table) {
            Some(count) => Some(*count),
            None => None,
        }
    }

    /// Takes note of how many columns a table has.
    pub fn insert(&mut self, table: &str, count: usize)
        ensures
            final(self)@ == old(self)@.insert(table@, count),
    {
        self.columns.insert(table.to_owned(), count);
    }

    /// A copy.
    pub fn copy(&self) -> (r: TableCols)
        ensures
            r@ == self@,
    {
        TableCols { columns: self.columns.copy() }
    }
}

/// The name of a table by its number.
pub open spec fn numbered_table(prefix: u32, idx: u8) -> Seq<char> {
    "t_"@ + text::decimal(prefix as nat) + "_"@ + text::decimal(idx as nat)
}

/// The table that is chosen.
pub open spec fn random_table(vocabulary: OpsSpec, prefix: u32, draws: Reading) -> Result<
    (Seq<char>, Reading),
    DrawKind,
> {
    match draws.byte() {
        Err(k) => Err(k),
        Ok((idx, rest)) => Ok((numbered_table(prefix, idx % vocabulary.tables()), rest)),
    }
}

/// A random table.
pub fn table_name(vocabulary: &OpsSpec, draws: &mut Draws, prefix: u32) -> (r: Result<
    String,
    DrawKind,
>)
    requires
        vocabulary.tables_usable(),
    ensures
        match r {
            Ok(s) => random_table(*vocabulary, prefix, old(draws)@) == Ok::<
                (Seq<char>, Reading),
                DrawKind,
            >((s@, final(draws)@)),
            Err(k) => random_table(*vocabulary, prefix, old(draws)@) == Err::<
                (Seq<char>, Reading),
                DrawKind,
            >(k),
        },
        final(draws)@.tape == old(draws)@.tape,
{
    let idx: u8 = draws.draw_u8()?;
    let idx: u8 = idx % spec_num_tables(vocabulary);
    let mut s = join3("t_", print_u64(prefix as u64).as_str(), "_");
    s.append(print_u64(idx as u64).as_str());
    Ok(s)
}

/// The next `n` values.
pub open spec fn random_values(vocabulary: OpsSpec, n: nat, draws: Reading) -> Result<
    (Seq<ValModel>, Reading),
    DrawKind,
>
    decreases n,
{
    if n == 0 {
        Ok((Seq::empty(), draws))
    } else {
        match random_values(vocabulary, (n - 1) as nat, draws) {
            Err(k) => Err(k),
            Ok((before, rest)) => match values::random_value(vocabulary, rest) {
                Err(k) => Err(k),
                Ok((v, rest)) => Ok((before.push(v), rest)),
            },
        }
    }
}

proof fn missing_value_stays(vocabulary: OpsSpec, m: nat, n: nat, draws: Reading)
    requires
        m <= n,
        random_values(vocabulary, m, draws) is Err,
    ensures
        random_values(vocabulary, n, draws) == random_values(vocabulary, m, draws),
    decreases n - m,
{
    if m < n {
        missing_value_stays(vocabulary, m, (n - 1) as nat, draws);
    }
}

fn gen_values(vocabulary: &OpsSpec, n: usize, draws: &mut Draws) -> (r: Result<Vec<Val>, DrawKind>)
    requires
        n > 0 ==> vocabulary.values_usable(),
    ensures
        match r {
            Ok(vals) => random_values(*vocabulary, n as nat, old(draws)@) == Ok::<
                (Seq<ValModel>, Reading),
                DrawKind,
            >((values::val_models(vals@), final(draws)@)),
            Err(k) => random_values(*vocabulary, n as nat, old(draws)@) == Err::<
                (Seq<ValModel>, Reading),
                DrawKind,
            >(k),
        },
        final(draws)@.tape == old(draws)@.tape,
{
    let mut vals: Vec<Val> = Vec::new();
    let mut i: usize = 0;
    let ghost start = draws@;
    assert(values::val_models(vals@) =~= Seq::empty());
    while i < n
        invariant
            i <= n,
            n > 0 ==> vocabulary.values_usable(),
            start == old(draws)@,
            draws@.tape == start.tape,
            random_values(*vocabulary, i as nat, start) == Ok::<(Seq<ValModel>, Reading), DrawKind>(
                (values::val_models(vals@), draws@),
            ),
        decreases n - i,
    {
        match gen_value(vocabulary, draws) {
            Ok(v) => {
                let ghost before = vals@;
                vals.push(v);
                assert(values::val_models(vals@) =~= values::val_models(before).push(v@));
            },
            Err(k) => {
                proof {
                    missing_value_stays(*vocabulary, i as nat + 1, n as nat, start);
                }
                return Err(k);
            },
        }
        i = i + 1;
    }
    Ok(vals)
}

/// How many values are drawn for a row, however many columns its table has.
pub const VALUES_PER_ROW: usize = 5;

/// The columns of a table of which nothing is noted.
pub const DEFAULT_COLUMNS: usize = 2;

pub open spec fn columns_of(cols: Map<Seq<char>, usize>, table: Seq<char>) -> usize {
    if cols.contains_key(table) {
        cols[table]
    } else {
        DEFAULT_COLUMNS
    }
}

/// A row for a table: as many values as it has columns, of a fixed number that
/// is drawn.
pub open spec fn random_row(
    vocabulary: OpsSpec,
    cols: Map<Seq<char>, usize>,
    table: Seq<char>,
    draws: Reading,
) -> Result<(Seq<ValModel>, Reading), DrawKind> {
    match random_values(vocabulary, VALUES_PER_ROW as nat, draws) {
        Err(k) => Err(k),
        Ok((vals, rest)) => Ok(
            (values::at_most(vals, columns_of(cols, table) as nat), rest),
        ),
    }
}

/// Random values for a row of a table.
pub fn gen_values_for_table(
    vocabulary: &OpsSpec,
    draws: &mut Draws,
    table: &str,
    table_cols: &TableCols,
) -> (r: Result<Vec<Val>, DrawKind>)
    requires
        vocabulary.values_usable(),
    ensures
        match r {
            Ok(vals) => random_row(*vocabulary, table_cols@, table@, old(draws)@) == Ok::<
                (Seq<ValModel>, Reading),
                DrawKind,
            >((values::val_models(vals@), final(draws)@)),
            Err(k) => random_row(*vocabulary, table_cols@, table@, old(draws)@) == Err::<
                (Seq<ValModel>, Reading),
                DrawKind,
            >(k),
        },
        final(draws)@.tape == old(draws)@.tape,
{
    let mut all = gen_values(vocabulary, VALUES_PER_ROW, draws)?;
    let n: usize = match table_cols.get(table) {
        Some(n) => n,
        None => DEFAULT_COLUMNS,
    };
    if n < all.len() {
        let ghost before = all@;
        all.truncate(n);
        assert(values::val_models(all@) =~= values::val_models(before).take(n as int));
    }
    Ok(all)
}

/// The next `n` columns.
pub open spec fn random_columns(vocabulary: OpsSpec, n: nat, draws: Reading) -> Result<
    (Seq<(Seq<char>, Seq<char>)>, Reading),
    DrawKind,
>
    decreases n,
{
    if n == 0 {
        Ok((Seq::empty(), draws))
    } else {
        match random_columns(vocabulary, (n - 1) as nat, draws) {
            Err(k) => Err(k),
            Ok((before, rest)) => match rest.byte() {
                Err(k) => Err(k),
                Ok((pick, rest)) => {
                    let types = vocabulary.col_types@;
                    Ok(
                        (
                            before.push(
                                (
                                    "c"@ + text::decimal((n - 1) as nat),
                                    types[pick as int % types.len() as int]@,
                                ),
                            ),
                            rest,
                        ),
                    )
                },
            },
        }
    }
}

proof fn missing_column_stays(vocabulary: OpsSpec, m: nat, n: nat, draws: Reading)
    requires
        m <= n,
        random_columns(vocabulary, m, draws) is Err,
    ensures
        random_columns(vocabulary, n, draws) == random_columns(vocabulary, m, draws),
    decreases n - m,
{
    if m < n {
        missing_column_stays(vocabulary, m, (n - 1) as nat, draws);
    }
}

/// Columns of a table, at least one and at most as many as there may be.
pub open spec fn random_dynamic_columns(vocabulary: OpsSpec, draws: Reading) -> Result<
    (Seq<(Seq<char>, Seq<char>)>, Reading),
    DrawKind,
> {
    match draws.byte() {
        Err(k) => Err(k),
        Ok((count, rest)) => random_columns(
            vocabulary,
            (count % vocabulary.most_columns() + 1) as nat,
            rest,
        ),
    }
}

fn gen_columns(vocabulary: &OpsSpec, n: u8, draws: &mut Draws) -> (r: Result<
    Vec<(String, String)>,
    DrawKind,
>)
    requires
        vocabulary.col_types@.len() > 0,
    ensures
        match r {
            Ok(cols) => random_columns(*vocabulary, n as nat, old(draws)@) == Ok::<
                (Seq<(Seq<char>, Seq<char>)>, Reading),
                DrawKind,
            >((column_pairs(cols@), final(draws)@)),
            Err(k) => random_columns(*vocabulary, n as nat, old(draws)@) == Err::<
                (Seq<(Seq<char>, Seq<char>)>, Reading),
                DrawKind,
            >(k),
        },
        final(draws)@.tape == old(draws)@.tape,
{
    let mut cols: Vec<(String, String)> = Vec::new();
    let mut i: u8 = 0;
    let ghost start = draws@;
    assert(column_pairs(cols@) =~= Seq::empty());
    while i < n
        invariant
            i <= n,
            vocabulary.col_types@.len() > 0,
            start == old(draws)@,
            draws@.tape == start.tape,
            random_columns(*vocabulary, i as nat, start) == Ok::<
                (Seq<(Seq<char>, Seq<char>)>, Reading),
                DrawKind,
            >((column_pairs(cols@), draws@)),
        decreases n - i,
    {
        match draws.draw_u8() {
            Ok(pick) => {
                let types = &vocabulary.col_types;
                let col_type = types[pick as usize % types.len()].clone();
                let name = join2("c", print_u64(i as u64).as_str());
                let ghost before = cols@;
                let ghost pair = (name@, col_type@);
                cols.push((name, col_type));
                assert(column_pairs(cols@) =~= column_pairs(before).push(pair));
            },
            Err(k) => {
                proof {
                    missing_column_stays(*vocabulary, i as nat + 1, n as nat, start);
                }
                return Err(k);
            },
        }
        i = i + 1;
    }
    Ok(cols)
}

/// Random columns.
pub fn gen_dynamic_cols(vocabulary: &OpsSpec, draws: &mut Draws) -> (r: Result<
    Vec<(String, String)>,
    DrawKind,
>)
    requires
        vocabulary.columns_usable(),
    ensures
        match r {
            Ok(cols) => random_dynamic_columns(*vocabulary, old(draws)@) == Ok::<
                (Seq<(Seq<char>, Seq<char>)>, Reading),
                DrawKind,
            >((column_pairs(cols@), final(draws)@)),
            Err(k) => random_dynamic_columns(*vocabulary, old(draws)@) == Err::<
                (Seq<(Seq<char>, Seq<char>)>, Reading),
                DrawKind,
            >(k),
        },
        final(draws)@.tape == old(draws)@.tape,
{
    let count: u8 = draws.draw_u8()?;
    gen_columns(vocabulary, count % spec_max_dynamic_cols(vocabulary) + 1, draws)
}

/// The remainder that keeps the sign of what is divided.
pub open spec fn signed_remainder(v: int, d: int) -> int {
    if v < 0 {
        -((-v) % d)
    } else {
        v % d
    }
}

fn small(v: i32) -> (r: i64)
    ensures
        r == signed_remainder(v as int, 1001),
{
    if v < 0 {
        -(-(v as i64) % 1001)
    } else {
        v as i64 % 1001
    }
}

/// Two statements in one text, with values written out.
pub open spec fn batch_sql(prefix: u32, table: u8, a: int) -> Seq<char> {
    let name = numbered_table(prefix, table);
    "CREATE TABLE IF NOT EXISTS "@ + name + " (a INTEGER, b TEXT); INSERT INTO "@ + name
        + " VALUES ("@ + text::signed_decimal(a) + ", 'batch')"@
}

pub open spec fn random_batch(vocabulary: OpsSpec, prefix: u32, draws: Reading) -> Result<
    (Seq<char>, Reading),
    DrawKind,
> {
    match draws.byte() {
        Err(k) => Err(k),
        Ok((table, rest)) => match rest.word() {
            Err(k) => Err(k),
            Ok((a, rest)) => Ok(
                (
                    batch_sql(
                        prefix,
                        table % vocabulary.tables(),
                        signed_remainder(a as int, 1001),
                    ),
                    rest,
                ),
            ),
        },
    }
}

/// Random statements in one text.
pub fn gen_batch_sql(vocabulary: &OpsSpec, draws: &mut Draws, prefix: u32) -> (r: Result<
    String,
    DrawKind,
>)
    requires
        vocabulary.tables_usable(),
    ensures
        match r {
            Ok(s) => random_batch(*vocabulary, prefix, old(draws)@) == Ok::<
                (Seq<char>, Reading),
                DrawKind,
            >((s@, final(draws)@)),
            Err(k) => random_batch(*vocabulary, prefix, old(draws)@) == Err::<
                (Seq<char>, Reading),
                DrawKind,
            >(k),
        },
        final(draws)@.tape == old(draws)@.tape,
{
    let name = table_name(vocabulary, draws, prefix)?;
    let a: i32 = draws.draw_i32()?;
    let mut s = join2("CREATE TABLE IF NOT EXISTS ", name.as_str());
    s.append(" (a INTEGER, b TEXT); INSERT INTO ");
    s.append(name.as_str());
    s.append(" VALUES (");
    s.append(print_i64(small(a)).as_str());
    s.append(", 'batch')");
    Ok(s)
}

/// A text with each occurrence of another replaced, from left to right.
pub open spec fn replaced(s: Seq<char>, pattern: Seq<char>, by: Seq<char>) -> Seq<char>
    decreases s.len(),
{
    if s.len() == 0 || pattern.len() == 0 {
        s
    } else if text::starts(s, pattern) {
        by + replaced(s.skip(pattern.len() as int), pattern, by)
    } else {
        seq![s[0]] + replaced(s.skip(1), pattern, by)
    }
}

fn starts_at(v: &Vec<char>, at: usize, pattern: &Vec<char>) -> (r: bool)
    requires
        at <= v@.len(),
    ensures
        r == text::starts(v@.skip(at as int), pattern@),
{
    if v.len() - at < pattern.len() {
        return false;
    }
    let mut i: usize = 0;
    while i < pattern.len()
        invariant
            at <= v@.len(),
            i <= pattern@.len() <= v@.len() - at,
            v@.len() <= usize::MAX,
            forall|j: int| 0 <= j < i ==> pattern@[j] == v@[at + j],
        decreases pattern@.len() - i,
    {
        if v[at + i] != pattern[i] {
            assert(v@.skip(at as int).subrange(0, pattern@.len() as int)[i as int] == v@[at + i]);
            return false;
        }
        i = i + 1;
    }
    assert(pattern@ =~= v@.skip(at as int).subrange(0, pattern@.len() as int));
    true
}

fn replace(s: &str, pattern: &str, by: &str) -> (r: String)
    requires
        pattern@.len() > 0,
    ensures
        r@ == replaced(s@, pattern@, by@),
{
    let v = chars_of(s);
    let p = chars_of(pattern);
    let mut r = String::new();
    let mut at: usize = 0;
    assert(v@.skip(0) =~= v@);
    assert(r@ + replaced(v@.skip(0), p@, by@) =~= replaced(s@, p@, by@));
    while at < v.len()
        invariant
            at <= v@.len(),
            p@.len() > 0,
            p@ == pattern@,
            r@ + replaced(v@.skip(at as int), p@, by@) == replaced(s@, p@, by@),
        decreases v@.len() - at,
    {
        let ghost before = r@;
        let ghost rest = v@.skip(at as int);
        assert(rest.len() > 0);
        if starts_at(&v, at, &p) {
            r.append(by);
            at = at + p.len();
            assert(rest.skip(p@.len() as int) =~= v@.skip(at as int));
            assert(r@ + replaced(v@.skip(at as int), p@, by@) =~= before + (by@ + replaced(
                v@.skip(at as int),
                p@,
                by@,
            )));
        } else {
            r.push(v[at]);
            at = at + 1;
            assert(rest[0] == v@[at - 1]);
            assert(rest.skip(1) =~= v@.skip(at as int));
            assert(r@ + replaced(v@.skip(at as int), p@, by@) =~= before + (seq![rest[0]]
                + replaced(v@.skip(at as int), p@, by@)));
        }
    }
    assert(v@.skip(at as int) =~= Seq::<char>::empty());
    assert(r@ + Seq::<char>::empty() =~= r@);
    r
}

/// A statement that fails, with the prefix of tables written out.
pub open spec fn random_error_sql(vocabulary: OpsSpec, prefix: u32, draws: Reading) -> Result<
    (Seq<char>, Reading),
    DrawKind,
> {
    match draws.byte() {
        Err(k) => Err(k),
        Ok((pick, rest)) => {
            let sqls = vocabulary.error_sqls@;
            Ok(
                (
                    replaced(
                        sqls[pick as int % sqls.len() as int]@,
                        "{prefix}"@,
                        text::decimal(prefix as nat),
                    ),
                    rest,
                ),
            )
        },
    }
}

/// A random statement that fails.
pub fn gen_error_sql(vocabulary: &OpsSpec, draws: &mut Draws, prefix: u32) -> (r: Result<
    String,
    DrawKind,
>)
    requires
        vocabulary.errors_usable(),
    ensures
        match r {
            Ok(s) => random_error_sql(*vocabulary, prefix, old(draws)@) == Ok::<
                (Seq<char>, Reading),
                DrawKind,
            >((s@, final(draws)@)),
            Err(k) => random_error_sql(*vocabulary, prefix, old(draws)@) == Err::<
                (Seq<char>, Reading),
                DrawKind,
            >(k),
        },
        final(draws)@.tape == old(draws)@.tape,
{
    let pick: u8 = draws.draw_u8()?;
    let sqls = &vocabulary.error_sqls;
    let sql = &sqls[pick as usize % sqls.len()];
    proof {
        reveal_strlit("{prefix}");
    }
    Ok(replace(sql.as_str(), "{prefix}", print_u64(prefix as u64).as_str()))
}

/// What an operation came to, by what it holds.
pub open spec fn op_result(
    r: Result<Op, DrawKind>,
    cols: Map<Seq<char>, usize>,
    draws: Reading,
) -> Result<(OpModel, Map<Seq<char>, usize>, Reading), DrawKind> {
    match r {
        Ok(op) => Ok((op.model(), cols, draws)),
        Err(k) => Err(k),
    }
}

/// The columns of a table that is created without choices.
pub open spec fn default_columns() -> Seq<(Seq<char>, Seq<char>)> {
    seq![("a"@, "INTEGER"@), ("b"@, "TEXT"@)]
}

fn two_columns() -> (r: Vec<(String, String)>)
    ensures
        column_pairs(r@) == default_columns(),
{
    let mut r: Vec<(String, String)> = Vec::new();
    r.push(("a".to_owned(), "INTEGER".to_owned()));
    r.push(("b".to_owned(), "TEXT".to_owned()));
    assert(column_pairs(r@) =~= default_columns());
    r
}

/// An operation of a kind that is made from tables and values alone.
#[verifier::opaque]
pub open spec fn random_plain_op(
    vocabulary: OpsSpec,
    id: Seq<char>,
    cols: Map<Seq<char>, usize>,
    prefix: u32,
    draws: Reading,
) -> Result<(OpModel, Map<Seq<char>, usize>, Reading), DrawKind> {
    if id == "create"@ {
        match random_table(vocabulary, prefix, draws) {
            Err(k) => Err(k),
            Ok((name, rest)) => Ok(
                (
                    OpModel::CreateTable { name, cols: default_columns() },
                    cols.insert(name, DEFAULT_COLUMNS),
                    rest,
                ),
            ),
        }
    } else if id == "insert"@ {
        match random_table(vocabulary, prefix, draws) {
            Err(k) => Err(k),
            Ok((table, rest)) => match random_row(vocabulary, cols, table, rest) {
                Err(k) => Err(k),
                Ok((vals, rest)) => Ok((OpModel::Insert { table, values: vals }, cols, rest)),
            },
        }
    } else if id == "select"@ {
        match random_table(vocabulary, prefix, draws) {
            Err(k) => Err(k),
            Ok((table, rest)) => Ok((OpModel::Select { table }, cols, rest)),
        }
    } else if id == "select_value"@ {
        match draws.word() {
            Err(k) => Err(k),
            Ok((v, rest)) => Ok(
                (
                    OpModel::SelectValue {
                        expr: text::signed_decimal(signed_remainder(v as int, 1001)),
                    },
                    cols,
                    rest,
                ),
            ),
        }
    } else if id == "insert_returning"@ {
        match random_table(vocabulary, prefix, draws) {
            Err(k) => Err(k),
            Ok((table, rest)) => match random_row(vocabulary, cols, table, rest) {
                Err(k) => Err(k),
                Ok((vals, rest)) => Ok(
                    (OpModel::InsertReturning { table, values: vals }, cols, rest),
                ),
            },
        }
    } else if id == "delete_returning"@ {
        match random_table(vocabulary, prefix, draws) {
            Err(k) => Err(k),
            Ok((table, rest)) => Ok((OpModel::DeleteReturning { table }, cols, rest)),
        }
    } else if id == "update_returning"@ {
        match random_table(vocabulary, prefix, draws) {
            Err(k) => Err(k),
            Ok((table, rest)) => match values::random_value(vocabulary, rest) {
                Err(k) => Err(k),
                Ok((value, rest)) => Ok((OpModel::UpdateReturning { table, value }, cols, rest)),
            },
        }
    } else if id == "select_limit"@ {
        match random_table(vocabulary, prefix, draws) {
            Err(k) => Err(k),
            Ok((table, rest)) => Ok((OpModel::SelectLimit { table }, cols, rest)),
        }
    } else if id == "select_count"@ {
        match random_table(vocabulary, prefix, draws) {
            Err(k) => Err(k),
            Ok((table, rest)) => Ok((OpModel::SelectCount { table }, cols, rest)),
        }
    } else if id == "select_expr"@ {
        match values::random_value(vocabulary, draws) {
            Err(k) => Err(k),
            Ok((param, rest)) => Ok((OpModel::SelectExpr { param }, cols, rest)),
        }
    } else if id == "insert_affected"@ {
        match random_table(vocabulary, prefix, draws) {
            Err(k) => Err(k),
            Ok((table, rest)) => match random_row(vocabulary, cols, table, rest) {
                Err(k) => Err(k),
                Ok((vals, rest)) => Ok(
                    (OpModel::InsertAffected { table, values: vals }, cols, rest),
                ),
            },
        }
    } else if id == "delete_affected"@ {
        match random_table(vocabulary, prefix, draws) {
            Err(k) => Err(k),
            Ok((table, rest)) => Ok((OpModel::DeleteAffected { table }, cols, rest)),
        }
    } else {
        match random_table(vocabulary, prefix, draws) {
            Err(k) => Err(k),
            Ok((table, rest)) => match values::random_value(vocabulary, rest) {
                Err(k) => Err(k),
                Ok((value, rest)) => Ok((OpModel::UpdateAffected { table, value }, cols, rest)),
            },
        }
    }
}

fn gen_plain_op(
    vocabulary: &OpsSpec,
    id: &str,
    draws: &mut Draws,
    table_cols: &mut TableCols,
    prefix: u32,
) -> (r: Result<Op, DrawKind>)
    requires
        spec::needs_tables(id@) ==> vocabulary.tables_usable(),
        spec::picks_values(id@) ==> vocabulary.values_usable(),
        spec::is_plain_op(id@),
    ensures
        op_result(r, final(table_cols)@, final(draws)@) == random_plain_op(
            *vocabulary,
            id@,
            old(table_cols)@,
            prefix,
            old(draws)@,
        ),
        r is Err ==> final(table_cols)@ == old(table_cols)@,
        final(draws)@.tape == old(draws)@.tape,
{
    proof {
        reveal(random_plain_op);
    }
    if same(id, "create") {
        let name = table_name(vocabulary, draws, prefix)?;
        table_cols.insert(name.as_str(), DEFAULT_COLUMNS);
        Ok(Op::CreateTable { name, cols: two_columns() })
    } else if same(id, "insert") {
        let table = table_name(vocabulary, draws, prefix)?;
        let values = gen_values_for_table(vocabulary, draws, table.as_str(), table_cols)?;
        Ok(Op::Insert { table, values })
    } else if same(id, "select") {
        let table = table_name(vocabulary, draws, prefix)?;
        Ok(Op::Select { table })
    } else if same(id, "select_value") {
        let v: i32 = draws.draw_i32()?;
        Ok(Op::SelectValue { expr: print_i64(small(v)) })
    } else if same(id, "insert_returning") {
        let table = table_name(vocabulary, draws, prefix)?;
        let values = gen_values_for_table(vocabulary, draws, table.as_str(), table_cols)?;
        Ok(Op::InsertReturning { table, values })
    } else if same(id, "delete_returning") {
        let table = table_name(vocabulary, draws, prefix)?;
        Ok(Op::DeleteReturning { table })
    } else if same(id, "update_returning") {
        let table = table_name(vocabulary, draws, prefix)?;
        let value = gen_value(vocabulary, draws)?;
        Ok(Op::UpdateReturning { table, value })
    } else if same(id, "select_limit") {
        let table = table_name(vocabulary, draws, prefix)?;
        Ok(Op::SelectLimit { table })
    } else if same(id, "select_count") {
        let table = table_name(vocabulary, draws, prefix)?;
        Ok(Op::SelectCount { table })
    } else if same(id, "select_expr") {
        let param = gen_value(vocabulary, draws)?;
        Ok(Op::SelectExpr { param })
    } else if same(id, "insert_affected") {
        let table = table_name(vocabulary, draws, prefix)?;
        let values = gen_values_for_table(vocabulary, draws, table.as_str(), table_cols)?;
        Ok(Op::InsertAffected { table, values })
    } else if same(id, "delete_affected") {
        let table = table_name(vocabulary, draws, prefix)?;
        Ok(Op::DeleteAffected { table })
    } else {
        let table = table_name(vocabulary, draws, prefix)?;
        let value = gen_value(vocabulary, draws)?;
        Ok(Op::UpdateAffected { table, value })
    }
}

/// The kinds of operations that a transaction is made of, by number.
pub open spec fn inner_kind(pick: int) -> Seq<char> {
    if pick == 0 {
        "create"@
    } else if pick == 1 {
        "insert"@
    } else if pick == 2 {
        "select"@
    } else if pick == 3 {
        "select_value"@
    } else if pick == 4 {
        "insert_returning"@
    } else if pick == 5 {
        "delete_returning"@
    } else if pick == 6 {
        "update_returning"@
    } else if pick == 7 {
        "select_limit"@
    } else if pick == 8 {
        "select_count"@
    } else if pick == 9 {
        "select_expr"@
    } else if pick == 10 {
        "insert_affected"@
    } else if pick == 11 {
        "delete_affected"@
    } else {
        "update_affected"@
    }
}

fn inner_kind_name(pick: u8) -> (r: &'static str)
    ensures
        r@ == inner_kind(pick as int),
        spec::is_plain_op(r@),
{
    match pick {
        0 => "create",
        1 => "insert",
        2 => "select",
        3 => "select_value",
        4 => "insert_returning",
        5 => "delete_returning",
        6 => "update_returning",
        7 => "select_limit",
        8 => "select_count",
        9 => "select_expr",
        10 => "insert_affected",
        11 => "delete_affected",
        _ => "update_affected",
    }
}

/// How many kinds of operations a transaction is made of.
pub const INNER_KINDS: u8 = 13;

/// An operation inside a transaction.
pub open spec fn random_inner_op(
    vocabulary: OpsSpec,
    cols: Map<Seq<char>, usize>,
    prefix: u32,
    draws: Reading,
) -> Result<(OpModel, Map<Seq<char>, usize>, Reading), DrawKind> {
    match draws.byte() {
        Err(k) => Err(k),
        Ok((pick, rest)) => random_plain_op(
            vocabulary,
            inner_kind(pick as int % INNER_KINDS as int),
            cols,
            prefix,
            rest,
        ),
    }
}

/// A random operation inside a transaction: one that neither begins nor ends
/// one.
pub fn gen_inner_op(
    vocabulary: &OpsSpec,
    draws: &mut Draws,
    table_cols: &mut TableCols,
    prefix: u32,
) -> (r: Result<Op, DrawKind>)
    requires
        vocabulary.inner_usable(),
    ensures
        op_result(r, final(table_cols)@, final(draws)@) == random_inner_op(
            *vocabulary,
            old(table_cols)@,
            prefix,
            old(draws)@,
        ),
        r is Err ==> final(table_cols)@ == old(table_cols)@,
        final(draws)@.tape == old(draws)@.tape,
{
    let pick: u8 = draws.draw_u8()?;
    let id = inner_kind_name(pick % INNER_KINDS);
    gen_plain_op(vocabulary, id, draws, table_cols, prefix)
}

/// The next `n` operations inside a transaction.
pub open spec fn random_inner_ops(
    vocabulary: OpsSpec,
    n: nat,
    cols: Map<Seq<char>, usize>,
    prefix: u32,
    draws: Reading,
) -> Result<(Seq<OpModel>, Map<Seq<char>, usize>, Reading), DrawKind>
    decreases n,
{
    if n == 0 {
        Ok((Seq::empty(), cols, draws))
    } else {
        match random_inner_ops(vocabulary, (n - 1) as nat, cols, prefix, draws) {
            Err(k) => Err(k),
            Ok((before, cols, rest)) => match random_inner_op(vocabulary, cols, prefix, rest) {
                Err(k) => Err(k),
                Ok((op, cols, rest)) => Ok((before.push(op), cols, rest)),
            },
        }
    }
}

proof fn missing_inner_op_stays(
    vocabulary: OpsSpec,
    m: nat,
    n: nat,
    cols: Map<Seq<char>, usize>,
    prefix: u32,
    draws: Reading,
)
    requires
        m <= n,
        random_inner_ops(vocabulary, m, cols, prefix, draws) is Err,
    ensures
        random_inner_ops(vocabulary, n, cols, prefix, draws) == random_inner_ops(
            vocabulary,
            m,
            cols,
            prefix,
            draws,
        ),
    decreases n - m,
{
    if m < n {
        missing_inner_op_stays(vocabulary, m, (n - 1) as nat, cols, prefix, draws);
    }
}

/// A transaction of one to five operations.
pub open spec fn random_transaction(
    vocabulary: OpsSpec,
    cols: Map<Seq<char>, usize>,
    prefix: u32,
    draws: Reading,
) -> Result<(OpModel, Map<Seq<char>, usize>, Reading), DrawKind> {
    match draws.byte() {
        Err(k) => Err(k),
        Ok((count, rest)) => match random_inner_ops(
            vocabulary,
            (count % 5 + 1) as nat,
            cols,
            prefix,
            rest,
        ) {
            Err(k) => Err(k),
            Ok((inner_ops, cols, rest)) => match rest.byte() {
                Err(k) => Err(k),
                Ok((commit, rest)) => Ok(
                    (
                        OpModel::TransactionWorkflow { inner_ops, commit: commit % 2 == 0 },
                        cols,
                        rest,
                    ),
                ),
            },
        },
    }
}

fn gen_inner_ops(
    vocabulary: &OpsSpec,
    n: u8,
    draws: &mut Draws,
    table_cols: &mut TableCols,
    prefix: u32,
) -> (r: Result<Vec<Op>, DrawKind>)
    requires
        vocabulary.inner_usable(),
    ensures
        match r {
            Ok(ops) => random_inner_ops(
                *vocabulary,
                n as nat,
                old(table_cols)@,
                prefix,
                old(draws)@,
            ) == Ok::<(Seq<OpModel>, Map<Seq<char>, usize>, Reading), DrawKind>(
                (op_models(ops@), final(table_cols)@, final(draws)@),
            ),
            Err(k) => random_inner_ops(
                *vocabulary,
                n as nat,
                old(table_cols)@,
                prefix,
                old(draws)@,
            ) == Err::<(Seq<OpModel>, Map<Seq<char>, usize>, Reading), DrawKind>(k),
        },
        final(draws)@.tape == old(draws)@.tape,
{
    let mut ops: Vec<Op> = Vec::new();
    let mut i: u8 = 0;
    let ghost start = draws@;
    let ghost start_cols = table_cols@;
    assert(op_models(ops@) =~= Seq::empty());
    while i < n
        invariant
            i <= n,
            vocabulary.inner_usable(),
            start == old(draws)@,
            start_cols == old(table_cols)@,
            draws@.tape == start.tape,
            random_inner_ops(*vocabulary, i as nat, start_cols, prefix, start) == Ok::<
                (Seq<OpModel>, Map<Seq<char>, usize>, Reading),
                DrawKind,
            >((op_models(ops@), table_cols@, draws@)),
        decreases n - i,
    {
        match gen_inner_op(vocabulary, draws, table_cols, prefix) {
            Ok(op) => {
                let ghost before = ops@;
                let ghost made = op.model();
                ops.push(op);
                assert(op_models(ops@) =~= op_models(before).push(made));
            },
            Err(k) => {
                proof {
                    missing_inner_op_stays(
                        *vocabulary,
                        i as nat + 1,
                        n as nat,
                        start_cols,
                        prefix,
                        start,
                    );
                }
                return Err(k);
            },
        }
        i = i + 1;
    }
    Ok(ops)
}

/// A random transaction.
pub fn gen_transaction_workflow(
    vocabulary: &OpsSpec,
    draws: &mut Draws,
    table_cols: &mut TableCols,
    prefix: u32,
) -> (r: Result<Op, DrawKind>)
    requires
        vocabulary.inner_usable(),
    ensures
        op_result(r, final(table_cols)@, final(draws)@) == random_transaction(
            *vocabulary,
            old(table_cols)@,
            prefix,
            old(draws)@,
        ),
        r is Err ==> final(table_cols)@ == old(table_cols)@,
        final(draws)@.tape == old(draws)@.tape,
{
    let count: u8 = draws.draw_u8()?;
    let mut cols = table_cols.copy();
    let inner_ops = gen_inner_ops(vocabulary, count % 5 + 1, draws, &mut cols, prefix)?;
    let commit: u8 = draws.draw_u8()?;
    *table_cols = cols;
    let ghost made = op_models(inner_ops@);
    let op = Op::TransactionWorkflow { inner_ops, commit: commit % 2 == 0 };
    assert(op.model()->TransactionWorkflow_inner_ops =~= made);
    Ok(op)
}

/// A transaction in which a statement fails between two operations.
pub open spec fn random_error_in_transaction(
    vocabulary: OpsSpec,
    cols: Map<Seq<char>, usize>,
    prefix: u32,
    draws: Reading,
) -> Result<(OpModel, Map<Seq<char>, usize>, Reading), DrawKind> {
    match random_inner_op(vocabulary, cols, prefix, draws) {
        Err(k) => Err(k),
        Ok((good_op, cols, rest)) => match random_error_sql(vocabulary, prefix, rest) {
            Err(k) => Err(k),
            Ok((bad_sql, rest)) => match random_inner_op(vocabulary, cols, prefix, rest) {
                Err(k) => Err(k),
                Ok((recovery_op, cols, rest)) => Ok(
                    (
                        OpModel::ErrorInTransaction {
                            good_op: Box::new(good_op),
                            bad_sql,
                            recovery_op: Box::new(recovery_op),
                        },
                        cols,
                        rest,
                    ),
                ),
            },
        },
    }
}

/// A random transaction in which a statement fails.
pub fn gen_error_in_transaction(
    vocabulary: &OpsSpec,
    draws: &mut Draws,
    table_cols: &mut TableCols,
    prefix: u32,
) -> (r: Result<Op, DrawKind>)
    requires
        vocabulary.inner_usable(),
        vocabulary.errors_usable(),
    ensures
        op_result(r, final(table_cols)@, final(draws)@) == random_error_in_transaction(
            *vocabulary,
            old(table_cols)@,
            prefix,
            old(draws)@,
        ),
        r is Err ==> final(table_cols)@ == old(table_cols)@,
        final(draws)@.tape == old(draws)@.tape,
{
    let mut cols = table_cols.copy();
    let good_op = gen_inner_op(vocabulary, draws, &mut cols, prefix)?;
    let bad_sql = gen_error_sql(vocabulary, draws, prefix)?;
    let recovery_op = gen_inner_op(vocabulary, draws, &mut cols, prefix)?;
    *table_cols = cols;
    Ok(
        Op::ErrorInTransaction {
            good_op: Box::new(good_op),
            bad_sql,
            recovery_op: Box::new(recovery_op),
        },
    )
}

/// The values of named parameters.
pub open spec fn random_named(
    vocabulary: OpsSpec,
    names: Seq<String>,
    n: nat,
    draws: Reading,
) -> Result<
    (Seq<(Seq<char>, ValModel)>, Reading),
    DrawKind,
>
    decreases n,
{
    if n == 0 {
        Ok((Seq::empty(), draws))
    } else {
        match random_named(vocabulary, names, (n - 1) as nat, draws) {
            Err(k) => Err(k),
            Ok((before, rest)) => match values::random_value(vocabulary, rest) {
                Err(k) => Err(k),
                Ok((v, rest)) => Ok((before.push((names[n - 1]@, v)), rest)),
            },
        }
    }
}

proof fn missing_named_stays(
    vocabulary: OpsSpec,
    names: Seq<String>,
    m: nat,
    n: nat,
    draws: Reading,
)
    requires
        m <= n,
        random_named(vocabulary, names, m, draws) is Err,
    ensures
        random_named(vocabulary, names, n, draws) == random_named(vocabulary, names, m, draws),
    decreases n - m,
{
    if m < n {
        missing_named_stays(vocabulary, names, m, (n - 1) as nat, draws);
    }
}

fn gen_named(vocabulary: &OpsSpec, names: &Vec<String>, draws: &mut Draws) -> (r: Result<
    Vec<(String, Val)>,
    DrawKind,
>)
    requires
        names@.len() > 0 ==> vocabulary.values_usable(),
    ensures
        match r {
            Ok(vals) => random_named(*vocabulary, names@, names@.len(), old(draws)@) == Ok::<
                (Seq<(Seq<char>, ValModel)>, Reading),
                DrawKind,
            >((named_vals(vals@), final(draws)@)),
            Err(k) => random_named(*vocabulary, names@, names@.len(), old(draws)@) == Err::<
                (Seq<(Seq<char>, ValModel)>, Reading),
                DrawKind,
            >(k),
        },
        final(draws)@.tape == old(draws)@.tape,
{
    let mut vals: Vec<(String, Val)> = Vec::new();
    let mut i: usize = 0;
    let ghost start = draws@;
    assert(named_vals(vals@) =~= Seq::empty());
    while i < names.len()
        invariant
            i <= names@.len(),
            names@.len() > 0 ==> vocabulary.values_usable(),
            start == old(draws)@,
            draws@.tape == start.tape,
            random_named(*vocabulary, names@, i as nat, start) == Ok::<
                (Seq<(Seq<char>, ValModel)>, Reading),
                DrawKind,
            >((named_vals(vals@), draws@)),
        decreases names@.len() - i,
    {
        match gen_value(vocabulary, draws) {
            Ok(v) => {
                let ghost before = vals@;
                let ghost pair = (names@[i as int]@, v@);
                vals.push((names[i].clone(), v));
                assert(named_vals(vals@) =~= named_vals(before).push(pair));
            },
            Err(k) => {
                proof {
                    missing_named_stays(*vocabulary, names@, i as nat + 1, names@.len(), start);
                }
                return Err(k);
            },
        }
        i = i + 1;
    }
    Ok(vals)
}

/// The parameters of three executions, two for each.
pub open spec fn random_sets(vocabulary: OpsSpec, draws: Reading) -> Result<
    (Seq<Seq<ValModel>>, Reading),
    DrawKind,
> {
    match random_values(vocabulary, 2, draws) {
        Err(k) => Err(k),
        Ok((a, rest)) => match random_values(vocabulary, 2, rest) {
            Err(k) => Err(k),
            Ok((b, rest)) => match random_values(vocabulary, 2, rest) {
                Err(k) => Err(k),
                Ok((c, rest)) => Ok((seq![a, b, c], rest)),
            },
        },
    }
}

fn gen_sets(vocabulary: &OpsSpec, draws: &mut Draws) -> (r: Result<Vec<Vec<Val>>, DrawKind>)
    requires
        vocabulary.values_usable(),
    ensures
        match r {
            Ok(sets) => random_sets(*vocabulary, old(draws)@) == Ok::<
                (Seq<Seq<ValModel>>, Reading),
                DrawKind,
            >((val_sets(sets@), final(draws)@)),
            Err(k) => random_sets(*vocabulary, old(draws)@) == Err::<
                (Seq<Seq<ValModel>>, Reading),
                DrawKind,
            >(k),
        },
        final(draws)@.tape == old(draws)@.tape,
{
    let a = gen_values(vocabulary, 2, draws)?;
    let b = gen_values(vocabulary, 2, draws)?;
    let c = gen_values(vocabulary, 2, draws)?;
    let ghost made = seq![
        values::val_models(a@),
        values::val_models(b@),
        values::val_models(c@),
    ];
    let mut sets: Vec<Vec<Val>> = Vec::new();
    sets.push(a);
    sets.push(b);
    sets.push(c);
    assert(val_sets(sets@) =~= made);
    Ok(sets)
}

fn text_of(s: &Option<String>) -> (r: String)
    requires
        s is Some,
    ensures
        r@ == s->0@,
{
    match s {
        Some(s) => s.clone(),
        None => String::new(),
    }
}

/// An operation of a kind.
pub open spec fn op_of_kind(
    vocabulary: OpsSpec,
    entry: OpSpec,
    cols: Map<Seq<char>, usize>,
    prefix: u32,
    draws: Reading,
) -> Result<(OpModel, Map<Seq<char>, usize>, Reading), DrawKind> {
    let id = entry.id@;
    if spec::is_plain_op(id) {
        random_plain_op(vocabulary, id, cols, prefix, draws)
    } else {
        other_op(vocabulary, entry, cols, prefix, draws)
    }
}

/// An operation of a kind that is not made from tables and values alone.
#[verifier::opaque]
pub open spec fn other_op(
    vocabulary: OpsSpec,
    entry: OpSpec,
    cols: Map<Seq<char>, usize>,
    prefix: u32,
    draws: Reading,
) -> Result<(OpModel, Map<Seq<char>, usize>, Reading), DrawKind> {
    let id = entry.id@;
    if id == "begin"@ {
        Ok((OpModel::BeginTx, cols, draws))
    } else if id == "commit"@ {
        Ok((OpModel::CommitTx, cols, draws))
    } else if id == "rollback"@ {
        Ok((OpModel::RollbackTx, cols, draws))
    } else if id == "invalid"@ {
        Ok((OpModel::InvalidSQL { sql: entry.sql->0@ }, cols, draws))
    } else if id == "param"@ {
        match random_values(vocabulary, 2, draws) {
            Err(k) => Err(k),
            Ok((params, rest)) => Ok(
                (OpModel::Param { sql: entry.sql->0@, params }, cols, rest),
            ),
        }
    } else if id == "create_dynamic"@ {
        match random_dynamic_columns(vocabulary, draws) {
            Err(k) => Err(k),
            Ok((made, rest)) => match random_table(vocabulary, prefix, rest) {
                Err(k) => Err(k),
                Ok((name, rest)) => Ok(
                    (
                        OpModel::CreateTableDynamic { name, cols: made },
                        cols.insert(name, made.len() as usize),
                        rest,
                    ),
                ),
            },
        }
    } else if id == "named_param"@ {
        match random_named(
            vocabulary,
            entry.named_params@,
            entry.named_params@.len(),
            draws,
        ) {
            Err(k) => Err(k),
            Ok((vals, rest)) => Ok((OpModel::NamedParam { values: vals }, cols, rest)),
        }
    } else if id == "numbered_param"@ {
        match random_values(vocabulary, 2, draws) {
            Err(k) => Err(k),
            Ok((vals, rest)) => Ok((OpModel::NumberedParam { values: vals }, cols, rest)),
        }
    } else if id == "insert_rowid"@ {
        match random_table(vocabulary, prefix, draws) {
            Err(k) => Err(k),
            Ok((table, rest)) => match random_row(vocabulary, cols, table, rest) {
                Err(k) => Err(k),
                Ok((vals, rest)) => Ok((OpModel::InsertRowid { table, values: vals }, cols, rest)),
            },
        }
    } else if id == "batch"@ {
        match random_batch(vocabulary, prefix, draws) {
            Err(k) => Err(k),
            Ok((sql, rest)) => Ok((OpModel::Batch { sql }, cols, rest)),
        }
    } else if id == "error_check"@ {
        match random_error_sql(vocabulary, prefix, draws) {
            Err(k) => Err(k),
            Ok((sql, rest)) => Ok((OpModel::ErrorCheck { sql }, cols, rest)),
        }
    } else if id == "prepared_reuse"@ {
        match random_sets(vocabulary, draws) {
            Err(k) => Err(k),
            Ok((params_sets, rest)) => Ok((OpModel::PreparedReuse { params_sets }, cols, rest)),
        }
    } else if id == "create_trigger"@ {
        match random_table(vocabulary, prefix, draws) {
            Err(k) => Err(k),
            Ok((table, rest)) => Ok((OpModel::CreateTrigger { table }, cols, rest)),
        }
    } else if id == "transaction_workflow"@ {
        random_transaction(vocabulary, cols, prefix, draws)
    } else {
        random_error_in_transaction(vocabulary, cols, prefix, draws)
    }
}

fn gen_other_op(
    vocabulary: &OpsSpec,
    entry: &OpSpec,
    draws: &mut Draws,
    table_cols: &mut TableCols,
    prefix: u32,
) -> (r: Result<Op, DrawKind>)
    requires
        vocabulary.meets(*entry),
        spec::usable_op(*entry),
        !spec::is_plain_op(entry.id@),
    ensures
        op_result(r, final(table_cols)@, final(draws)@) == other_op(
            *vocabulary,
            *entry,
            old(table_cols)@,
            prefix,
            old(draws)@,
        ),
        r is Err ==> final(table_cols)@ == old(table_cols)@,
        final(draws)@.tape == old(draws)@.tape,
{
    proof {
        reveal(other_op);
    }
    let id = entry.id.as_str();
    if same(id, "begin") {
        Ok(Op::BeginTx)
    } else if same(id, "commit") {
        Ok(Op::CommitTx)
    } else if same(id, "rollback") {
        Ok(Op::RollbackTx)
    } else if same(id, "invalid") {
        Ok(Op::InvalidSQL { sql: text_of(&entry.sql) })
    } else if same(id, "param") {
        let params = gen_values(vocabulary, 2, draws)?;
        Ok(Op::Param { sql: text_of(&entry.sql), params })
    } else if same(id, "create_dynamic") {
        let cols = gen_dynamic_cols(vocabulary, draws)?;
        let name = table_name(vocabulary, draws, prefix)?;
        table_cols.insert(name.as_str(), cols.len());
        Ok(Op::CreateTableDynamic { name, cols })
    } else if same(id, "named_param") {
        let values = gen_named(vocabulary, &entry.named_params, draws)?;
        Ok(Op::NamedParam { values })
    } else if same(id, "numbered_param") {
        let values = gen_values(vocabulary, 2, draws)?;
        Ok(Op::NumberedParam { values })
    } else if same(id, "insert_rowid") {
        let table = table_name(vocabulary, draws, prefix)?;
        let values = gen_values_for_table(vocabulary, draws, table.as_str(), table_cols)?;
        Ok(Op::InsertRowid { table, values })
    } else if same(id, "batch") {
        let sql = gen_batch_sql(vocabulary, draws, prefix)?;
        Ok(Op::Batch { sql })
    } else if same(id, "error_check") {
        let sql = gen_error_sql(vocabulary, draws, prefix)?;
        Ok(Op::ErrorCheck { sql })
    } else if same(id, "prepared_reuse") {
        let params_sets = gen_sets(vocabulary, draws)?;
        Ok(Op::PreparedReuse { params_sets })
    } else if same(id, "create_trigger") {
        let table = table_name(vocabulary, draws, prefix)?;
        Ok(Op::CreateTrigger { table })
    } else if same(id, "transaction_workflow") {
        gen_transaction_workflow(vocabulary, draws, table_cols, prefix)
    } else {
        gen_error_in_transaction(vocabulary, draws, table_cols, prefix)
    }
}

/// The kind of operation that is chosen, and the operation.
pub open spec fn random_op(
    vocabulary: OpsSpec,
    cols: Map<Seq<char>, usize>,
    prefix: u32,
    draws: Reading,
) -> Result<(OpModel, Map<Seq<char>, usize>, Reading), DrawKind> {
    match draws.byte() {
        Err(k) => Err(k),
        Ok((variant, rest)) => op_of_kind(
            vocabulary,
            vocabulary.ops@[(variant % vocabulary.op_count()) as int],
            cols,
            prefix,
            rest,
        ),
    }
}

/// A random operation. What it creates is noted.
pub fn gen_op(
    vocabulary: &OpsSpec,
    draws: &mut Draws,
    table_cols: &mut TableCols,
    prefix: u32,
) -> (r: Result<Op, DrawKind>)
    requires
        vocabulary.ops_usable(),
    ensures
        op_result(r, final(table_cols)@, final(draws)@) == random_op(
            *vocabulary,
            old(table_cols)@,
            prefix,
            old(draws)@,
        ),
        r is Err ==> final(table_cols)@ == old(table_cols)@,
        final(draws)@.tape == old(draws)@.tape,
{
    let variant: u8 = draws.draw_u8()?;
    let count: u8 = spec_num_ops(vocabulary);
    let n: usize = vocabulary.ops.len();
    assert(n as u8 <= n) by (bit_vector);
    let entry = &vocabulary.ops[(variant % count) as usize];
    if spec::plain_op(entry.id.as_str()) {
        gen_plain_op(vocabulary, entry.id.as_str(), draws, table_cols, prefix)
    } else {
        gen_other_op(vocabulary, entry, draws, table_cols, prefix)
    }
}

/// The next `n` operations.
pub open spec fn random_ops(
    vocabulary: OpsSpec,
    n: nat,
    prefix: u32,
    draws: Reading,
) -> Result<(Seq<OpModel>, Map<Seq<char>, usize>, Reading), DrawKind>
    decreases n,
{
    if n == 0 {
        Ok((Seq::empty(), Map::empty(), draws))
    } else {
        match random_ops(vocabulary, (n - 1) as nat, prefix, draws) {
            Err(k) => Err(k),
            Ok((before, cols, rest)) => match random_op(vocabulary, cols, prefix, rest) {
                Err(k) => Err(k),
                Ok((op, cols, rest)) => Ok((before.push(op), cols, rest)),
            },
        }
    }
}

proof fn missing_op_stays(vocabulary: OpsSpec, m: nat, n: nat, prefix: u32, draws: Reading)
    requires
        m <= n,
        random_ops(vocabulary, m, prefix, draws) is Err,
    ensures
        random_ops(vocabulary, n, prefix, draws) == random_ops(vocabulary, m, prefix, draws),
    decreases n - m,
{
    if m < n {
        missing_op_stays(vocabulary, m, (n - 1) as nat, prefix, draws);
    }
}

/// A workload: at least one operation, and at most as many as there may be.
pub open spec fn workload(vocabulary: OpsSpec, prefix: u32, draws: Reading) -> Result<
    (Seq<OpModel>, Reading),
    DrawKind,
> {
    match draws.byte() {
        Err(k) => Err(k),
        Ok((count, rest)) => match random_ops(
            vocabulary,
            (count % vocabulary.most_ops() + 1) as nat,
            prefix,
            rest,
        ) {
            Err(k) => Err(k),
            Ok((ops, _, rest)) => Ok((ops, rest)),
        },
    }
}

fn gen_many_ops(vocabulary: &OpsSpec, n: u8, draws: &mut Draws, prefix: u32) -> (r: Result<
    Vec<Op>,
    DrawKind,
>)
    requires
        vocabulary.ops_usable(),
    ensures
        match r {
            Ok(ops) => random_ops(*vocabulary, n as nat, prefix, old(draws)@) matches Ok(made)
                && made.0 == op_models(ops@) && made.2 == final(draws)@,
            Err(k) => random_ops(*vocabulary, n as nat, prefix, old(draws)@) == Err::<
                (Seq<OpModel>, Map<Seq<char>, usize>, Reading),
                DrawKind,
            >(k),
        },
        final(draws)@.tape == old(draws)@.tape,
{
    let mut table_cols = TableCols::new();
    let mut ops: Vec<Op> = Vec::new();
    let mut i: u8 = 0;
    let ghost start = draws@;
    assert(op_models(ops@) =~= Seq::empty());
    while i < n
        invariant
            i <= n,
            vocabulary.ops_usable(),
            start == old(draws)@,
            draws@.tape == start.tape,
            random_ops(*vocabulary, i as nat, prefix, start) == Ok::<
                (Seq<OpModel>, Map<Seq<char>, usize>, Reading),
                DrawKind,
            >((op_models(ops@), table_cols@, draws@)),
        decreases n - i,
    {
        match gen_op(vocabulary, draws, &mut table_cols, prefix) {
            Ok(op) => {
                let ghost before = ops@;
                let ghost made = op.model();
                ops.push(op);
                assert(op_models(ops@) =~= op_models(before).push(made));
            },
            Err(k) => {
                proof {
                    missing_op_stays(*vocabulary, i as nat + 1, n as nat, prefix, start);
                }
                return Err(k);
            },
        }
        i = i + 1;
    }
    Ok(ops)
}

/// A random workload.
pub fn gen_ops(vocabulary: &OpsSpec, draws: &mut Draws, prefix: u32) -> (r: Result<
    Vec<Op>,
    DrawKind,
>)
    requires
        vocabulary.usable(),
    ensures
        match r {
            Ok(ops) => workload(*vocabulary, prefix, old(draws)@) == Ok::<
                (Seq<OpModel>, Reading),
                DrawKind,
            >((op_models(ops@), final(draws)@)),
            Err(k) => workload(*vocabulary, prefix, old(draws)@) == Err::<
                (Seq<OpModel>, Reading),
                DrawKind,
            >(k),
        },
        final(draws)@.tape == old(draws)@.tape,
{
    let count: u8 = draws.draw_u8()?;
    gen_many_ops(vocabulary, count % spec_max_ops(vocabulary) + 1, draws, prefix)
}

/// The definitions of columns, one after another.
pub open spec fn column_definitions(cols: Seq<(Seq<char>, Seq<char>)>) -> Seq<char>
    decreases cols.len(),
{
    if cols.len() == 0 {
        Seq::empty()
    } else {
        let last = cols.last().0 + " "@ + cols.last().1;
        if cols.len() == 1 {
            last
        } else {
            column_definitions(cols.drop_last()) + ", "@ + last
        }
    }
}

/// The statement that creates a table, if there is none.
pub fn create_table_sql(name: &str, cols: &[(String, String)]) -> (r: String)
    ensures
        r@ == "CREATE TABLE IF NOT EXISTS "@ + name@ + " ("@ + column_definitions(
            column_pairs(cols@),
        ) + ")"@,
{
    let mut definitions = String::new();
    let mut i: usize = 0;
    let ghost all = column_pairs(cols@);
    assert(all.take(0) =~= Seq::empty());
    assert(definitions@ =~= Seq::empty());
    while i < cols.len()
        invariant
            i <= cols@.len(),
            all == column_pairs(cols@),
            definitions@ == column_definitions(all.take(i as int)),
        decreases cols@.len() - i,
    {
        assert(all.take(i + 1).drop_last() =~= all.take(i as int));
        assert(all.take(i + 1).last() == (cols@[i as int].0@, cols@[i as int].1@));
        let one = join3(cols[i].0.as_str(), " ", cols[i].1.as_str());
        if i > 0 {
            definitions.append(", ");
        }
        let ghost before = definitions@;
        definitions.append(one.as_str());
        assert(i == 0 ==> definitions@ =~= one@);
        i = i + 1;
    }
    assert(all.take(i as int) =~= all);
    let mut r = join3("CREATE TABLE IF NOT EXISTS ", name, " (");
    r.append(definitions.as_str());
    r.append(")");
    r
}

/// How many choices a row takes does not depend on the columns of its table.
pub proof fn rows_read_alike(
    vocabulary: OpsSpec,
    cols: Map<Seq<char>, usize>,
    other_cols: Map<Seq<char>, usize>,
    table: Seq<char>,
    other_table: Seq<char>,
    draws: Reading,
)
    ensures
        match (
            random_row(vocabulary, cols, table, draws),
            random_row(vocabulary, other_cols, other_table, draws),
        ) {
            (Ok((_, rest)), Ok((_, other_rest))) => rest == other_rest,
            (Err(k), Err(other_k)) => k == other_k,
            _ => false,
        },
{
}

/// Whether an operation has to do with where transactions begin and end.
pub open spec fn is_transactional(op: OpModel) -> bool {
    op is BeginTx || op is CommitTx || op is RollbackTx || op is TransactionWorkflow
        || op is ErrorInTransaction
}

/// Operations inside a transaction neither begin nor end one.
pub proof fn inner_ops_stay_inside(
    vocabulary: OpsSpec,
    cols: Map<Seq<char>, usize>,
    prefix: u32,
    draws: Reading,
)
    ensures
        random_inner_op(vocabulary, cols, prefix, draws) matches Ok(made) ==> !is_transactional(
            made.0,
        ),
{
    reveal(random_plain_op);
}

proof fn inner_ops_all_stay_inside(
    vocabulary: OpsSpec,
    n: nat,
    cols: Map<Seq<char>, usize>,
    prefix: u32,
    draws: Reading,
)
    ensures
        random_inner_ops(vocabulary, n, cols, prefix, draws) matches Ok(made) ==> made.0.len() == n
            && forall|i: int| 0 <= i < n ==> !is_transactional(#[trigger] made.0[i]),
    decreases n,
{
    if n > 0 {
        inner_ops_all_stay_inside(vocabulary, (n - 1) as nat, cols, prefix, draws);
        match random_inner_ops(vocabulary, (n - 1) as nat, cols, prefix, draws) {
            Ok((_, cols, rest)) => {
                inner_ops_stay_inside(vocabulary, cols, prefix, rest);
            },
            Err(_) => {},
        }
    }
}

/// A transaction has one to five operations, none of which begins or ends one.
pub proof fn transactions_are_flat(
    vocabulary: OpsSpec,
    cols: Map<Seq<char>, usize>,
    prefix: u32,
    draws: Reading,
)
    ensures
        random_transaction(vocabulary, cols, prefix, draws) matches Ok(made) ==> {
            let inner_ops = made.0->TransactionWorkflow_inner_ops;
            &&& made.0 is TransactionWorkflow
            &&& 1 <= inner_ops.len() <= 5
            &&& forall|i: int|
                0 <= i < inner_ops.len() ==> !is_transactional(#[trigger] inner_ops[i])
        },
{
    if let Ok((count, rest)) = draws.byte() {
        inner_ops_all_stay_inside(vocabulary, (count % 5 + 1) as nat, cols, prefix, rest);
    }
}

proof fn ops_are_counted(vocabulary: OpsSpec, n: nat, prefix: u32, draws: Reading)
    ensures
        random_ops(vocabulary, n, prefix, draws) matches Ok(made) ==> made.0.len() == n,
    decreases n,
{
    if n > 0 {
        ops_are_counted(vocabulary, (n - 1) as nat, prefix, draws);
    }
}

/// A workload has at least one operation, and no more than there may be.
pub proof fn workloads_are_bounded(vocabulary: OpsSpec, prefix: u32, draws: Reading)
    requires
        vocabulary.most_ops() != 0,
    ensures
        workload(vocabulary, prefix, draws) matches Ok(made) ==> 1 <= made.0.len()
            <= vocabulary.most_ops(),
{
    if let Ok((count, rest)) = draws.byte() {
        ops_are_counted(
            vocabulary,
            (count % vocabulary.most_ops() + 1) as nat,
            prefix,
            rest,
        );
    }
}

} // verus!
