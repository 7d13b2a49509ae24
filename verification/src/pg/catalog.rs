//! The definitions of constraints and indexes, as the PostgreSQL catalog shows
//! them.
//!
//! Objects are numbered from the first number of user objects on: the user's
//! tables in the order of their names, then their indexes, then their
//! constraints.

use vstd::prelude::*;
use vstd::string::StringExecFns;
use crate::text;
use crate::text::{chars_of, same, starts_with};

verus! {

/// The number of the first user table.
pub const USER_TABLE_OID_START: i64 = 16384;

/// What a foreign key does when its parent changes.
#[derive(Clone, Copy, Debug, PartialEq, Eq, Structural)]
pub enum RefAct {
    NoAction,
    Restrict,
    Cascade,
    SetNull,
    SetDefault,
}

pub struct UniqueSet {
    pub columns: Vec<String>,
    pub is_primary_key: bool,
}

pub struct ForeignKey {
    pub child_columns: Vec<String>,
    pub parent_table: String,
    pub parent_columns: Vec<String>,
    pub on_update: RefAct,
    pub on_delete: RefAct,
}

pub struct CatalogIndex {
    pub name: String,
    pub unique: bool,
    pub ephemeral: bool,
    /// The columns, or the expressions where they are computed.
    pub columns: Vec<String>,
    pub where_clause: Option<String>,
}

pub struct CatalogTable {
    pub name: String,
    /// Whether the table is stored, and not virtual.
    pub is_btree: bool,
    pub primary_key_columns: Vec<String>,
    pub unique_sets: Vec<UniqueSet>,
    pub foreign_keys: Vec<ForeignKey>,
    pub check_constraints: Vec<String>,
    pub indexes: Vec<CatalogIndex>,
}

/// The views of several strings.
pub open spec fn names(v: Seq<String>) -> Seq<Seq<char>> {
    v.map_values(|s: String| s@)
}

/// Texts with a separator between them.
pub open spec fn join(parts: Seq<Seq<char>>, separator: Seq<char>) -> Seq<char>
    decreases parts.len(),
{
    if parts.len() == 0 {
        Seq::empty()
    } else if parts.len() == 1 {
        parts[0]
    } else {
        join(parts.drop_last(), separator) + separator + parts.last()
    }
}

/// Joins strings.
pub fn join_strings(parts: &Vec<String>, separator: &str) -> (r: String)
    ensures
        r@ == join(names(parts@), separator@),
{
    let ghost all = names(parts@);
    let mut r = String::new();
    let mut i: usize = 0;
    while i < parts.len()
        invariant
            i <= parts@.len(),
            all == names(parts@),
            r@ == join(all.take(i as int), separator@),
        decreases parts@.len() - i,
    {
        proof {
            let now = all.take(i + 1);
            assert(now.drop_last() =~= all.take(i as int));
            assert(now.last() == parts@[i as int]@);
            if i == 0 {
                assert(Seq::<char>::empty() + now.last() =~= now[0]);
            }
        }
        if i > 0 {
            r.append(separator);
        }
        r.append(parts[i].as_str());
        i = i + 1;
    }
    assert(all.take(i as int) =~= all);
    r
}

/// Whether a table is one of the user's: stored, and not named like a part of
/// the system.
pub open spec fn is_user_table(table: CatalogTable) -> bool {
    let name = table.name@;
    &&& table.is_btree
    &&& !text::starts(name, "sqlite_"@)
    &&& !text::starts(name, "pg_"@)
    &&& !text::starts(name, "pragma_"@)
    &&& !text::starts(name, "json_"@)
}

fn user_table(table: &CatalogTable) -> (r: bool)
    ensures
        r == is_user_table(*table),
{
    let name = table.name.as_str();
    table.is_btree && !starts_with(name, "sqlite_") && !starts_with(name, "pg_") && !starts_with(
        name,
        "pragma_",
    ) && !starts_with(name, "json_")
}

/// Whether `a`, from `from` on, comes before `b` in the order of texts.
pub open spec fn precedes_from(a: Seq<char>, b: Seq<char>, from: nat) -> bool
    decreases b.len() - from,
{
    if from >= b.len() {
        false
    } else if from >= a.len() {
        true
    } else if a[from as int] != b[from as int] {
        a[from as int] < b[from as int]
    } else {
        precedes_from(a, b, from + 1)
    }
}

/// Whether `a` comes before `b` in the order of texts.
pub open spec fn precedes(a: Seq<char>, b: Seq<char>) -> bool {
    precedes_from(a, b, 0)
}

fn comes_before(a: &Vec<char>, b: &Vec<char>) -> (r: bool)
    ensures
        r == precedes(a@, b@),
{
    let mut i: usize = 0;
    while i < b.len()
        invariant
            i <= b@.len(),
            precedes(a@, b@) == precedes_from(a@, b@, i as nat),
        decreases b@.len() - i,
    {
        if i >= a.len() {
            return true;
        }
        if a[i] != b[i] {
            return a[i] < b[i];
        }
        i = i + 1;
    }
    false
}

/// Whether `order` lists the user's tables, each one once, by their names.
pub open spec fn is_user_order(tables: Seq<CatalogTable>, order: Seq<usize>) -> bool {
    &&& order.no_duplicates()
    &&& forall|k: int|
        0 <= k < order.len() ==> #[trigger] order[k] < tables.len() && is_user_table(
            tables[order[k] as int],
        )
    &&& forall|i: int|
        0 <= i < tables.len() && is_user_table(#[trigger] tables[i]) ==> order.contains(i as usize)
    &&& forall|a: int, b: int|
        0 <= a < b < order.len() ==> !precedes(
            tables[#[trigger] order[b] as int].name@,
            tables[#[trigger] order[a] as int].name@,
        )
}

/// Whether `order` lists the user's tables from `lo` on and before `hi`, each
/// one once, by their names.
spec fn is_part_order(tables: Seq<CatalogTable>, order: Seq<usize>, lo: int, hi: int) -> bool {
    &&& order.no_duplicates()
    &&& forall|k: int|
        0 <= k < order.len() ==> lo <= #[trigger] order[k] < hi && is_user_table(
            tables[order[k] as int],
        )
    &&& forall|i: int|
        lo <= i < hi && is_user_table(#[trigger] tables[i]) ==> order.contains(i as usize)
    &&& forall|a: int, b: int|
        0 <= a < b < order.len() ==> !precedes(
            tables[#[trigger] order[b] as int].name@,
            tables[#[trigger] order[a] as int].name@,
        )
}

/// What does not come before a text does not come before what that text does
/// not come before.
proof fn not_before_transitive(x: Seq<char>, y: Seq<char>, z: Seq<char>, from: nat)
    requires
        !precedes_from(y, x, from),
        !precedes_from(z, y, from),
    ensures
        !precedes_from(z, x, from),
    decreases x.len() - from,
{
    if from < x.len() && from < z.len() && from < y.len() && x[from as int] == y[from as int]
        && y[from as int] == z[from as int] {
        not_before_transitive(x, y, z, from + 1);
    }
}

/// What comes before a text is not preceded by it.
proof fn precedes_one_way(x: Seq<char>, y: Seq<char>, from: nat)
    requires
        precedes_from(x, y, from),
    ensures
        !precedes_from(y, x, from),
    decreases y.len() - from,
{
    if from < x.len() && from < y.len() && x[from as int] == y[from as int] {
        precedes_one_way(x, y, from + 1);
    }
}

/// Merges two orders of tables, the first of tables before `mid` and the second
/// of tables from there on.
fn merge_orders(
    tables: &Vec<CatalogTable>,
    a: &Vec<usize>,
    b: &Vec<usize>,
    Ghost(lo): Ghost<int>,
    Ghost(mid): Ghost<int>,
    Ghost(hi): Ghost<int>,
) -> (r: Vec<usize>)
    requires
        0 <= lo <= mid <= hi <= tables@.len(),
        is_part_order(tables@, a@, lo, mid),
        is_part_order(tables@, b@, mid, hi),
    ensures
        is_part_order(tables@, r@, lo, hi),
{
    let mut r: Vec<usize> = Vec::new();
    let mut i: usize = 0;
    let mut j: usize = 0;
    while i < a.len() || j < b.len()
        invariant
            0 <= lo <= mid <= hi <= tables@.len(),
            is_part_order(tables@, a@, lo, mid),
            is_part_order(tables@, b@, mid, hi),
            i <= a@.len(),
            j <= b@.len(),
            r@.no_duplicates(),
            forall|k: int|
                0 <= k < r@.len() ==> lo <= #[trigger] r@[k] < hi && is_user_table(
                    tables@[r@[k] as int],
                ),
            forall|k: int, l: int|
                0 <= k < r@.len() && i <= l < a@.len() ==> #[trigger] r@[k] != #[trigger] a@[l]
                    && !precedes(tables@[a@[l] as int].name@, tables@[r@[k] as int].name@),
            forall|k: int, l: int|
                0 <= k < r@.len() && j <= l < b@.len() ==> #[trigger] r@[k] != #[trigger] b@[l]
                    && !precedes(tables@[b@[l] as int].name@, tables@[r@[k] as int].name@),
            forall|l: int| 0 <= l < i ==> r@.contains(#[trigger] a@[l]),
            forall|l: int| 0 <= l < j ==> r@.contains(#[trigger] b@[l]),
            forall|x: int, y: int|
                0 <= x < y < r@.len() ==> !precedes(
                    tables@[#[trigger] r@[y] as int].name@,
                    tables@[#[trigger] r@[x] as int].name@,
                ),
        decreases a@.len() - i + b@.len() - j,
    {
        let from_a: bool = if i == a.len() {
            false
        } else if j == b.len() {
            true
        } else {
            assert(a@[i as int] < mid && b@[j as int] < hi);
            !comes_before(
                &chars_of(tables[b[j]].name.as_str()),
                &chars_of(tables[a[i]].name.as_str()),
            )
        };
        let next: usize = if from_a {
            a[i]
        } else {
            b[j]
        };
        let ghost before = r@;
        r.push(next);
        proof {
            let name = tables@[next as int].name@;
            let rest_a: int = if from_a {
                i + 1
            } else {
                i as int
            };
            let rest_b: int = if from_a {
                j as int
            } else {
                j + 1
            };
            assert forall|l: int| rest_a <= l < a@.len() implies next != #[trigger] a@[l]
                && !precedes(tables@[a@[l] as int].name@, name) by {
                if !from_a {
                    let head = tables@[a@[i as int] as int].name@;
                    precedes_one_way(name, head, 0);
                    if l != i {
                        not_before_transitive(name, head, tables@[a@[l] as int].name@, 0);
                    }
                }
            }
            assert forall|l: int| rest_b <= l < b@.len() implies next != #[trigger] b@[l]
                && !precedes(tables@[b@[l] as int].name@, name) by {
                if from_a {
                    let head = tables@[b@[j as int] as int].name@;
                    if l != j {
                        not_before_transitive(name, head, tables@[b@[l] as int].name@, 0);
                    }
                }
            }
            assert forall|v: usize| before.contains(v) implies #[trigger] r@.contains(v) by {
                let k = before.index_of(v);
                assert(r@[k] == v);
            }
            assert(r@[before.len() as int] == next);
            assert forall|l: int| 0 <= l < rest_a implies r@.contains(#[trigger] a@[l]) by {
                if l < i {
                    assert(before.contains(a@[l]));
                }
            }
            assert forall|l: int| 0 <= l < rest_b implies r@.contains(#[trigger] b@[l]) by {
                if l < j {
                    assert(before.contains(b@[l]));
                }
            }
        }
        if from_a {
            i = i + 1;
        } else {
            j = j + 1;
        }
    }
    assert forall|k: int| lo <= k < hi && is_user_table(#[trigger] tables@[k]) implies r@.contains(
        k as usize,
    ) by {
        if k < mid {
            assert(a@.contains(k as usize));
            let l = a@.index_of(k as usize);
            assert(r@.contains(a@[l]));
        } else {
            assert(b@.contains(k as usize));
            let l = b@.index_of(k as usize);
            assert(r@.contains(b@[l]));
        }
    }
    r
}

/// The user's tables from `lo` on and before `hi`, in the order of their names.
fn user_tables_between(tables: &Vec<CatalogTable>, lo: usize, hi: usize) -> (order: Vec<usize>)
    requires
        lo <= hi <= tables@.len(),
    ensures
        is_part_order(tables@, order@, lo as int, hi as int),
    decreases hi - lo,
{
    if hi - lo <= 1 {
        let mut order: Vec<usize> = Vec::new();
        if lo < hi && user_table(&tables[lo]) {
            order.push(lo);
            assert(order@[0] == lo);
            assert(order@.contains(lo));
        }
        return order;
    }
    let mid: usize = lo + (hi - lo) / 2;
    let a = user_tables_between(tables, lo, mid);
    let b = user_tables_between(tables, mid, hi);
    merge_orders(tables, &a, &b, Ghost(lo as int), Ghost(mid as int), Ghost(hi as int))
}

/// The user's tables in the order of their names.
pub fn user_tables_sorted(tables: &Vec<CatalogTable>) -> (order: Vec<usize>)
    ensures
        is_user_order(tables@, order@),
{
    user_tables_between(tables, 0, tables.len())
}

/// The code of an action in the catalog.
pub open spec fn ref_act_code(act: RefAct) -> Seq<char> {
    match act {
        RefAct::NoAction => "a"@,
        RefAct::Restrict => "r"@,
        RefAct::Cascade => "c"@,
        RefAct::SetNull => "n"@,
        RefAct::SetDefault => "d"@,
    }
}

/// The code of an action in the catalog.
pub fn ref_act_to_char(act: &RefAct) -> (s: &'static str)
    ensures
        s@ == ref_act_code(*act),
{
    match act {
        RefAct::NoAction => "a",
        RefAct::Restrict => "r",
        RefAct::Cascade => "c",
        RefAct::SetNull => "n",
        RefAct::SetDefault => "d",
    }
}

/// The action that a code stands for, in SQL. Unknown codes stand for no
/// action.
pub open spec fn code_sql(code: Seq<char>) -> Seq<char> {
    if code == "r"@ {
        "RESTRICT"@
    } else if code == "c"@ {
        "CASCADE"@
    } else if code == "n"@ {
        "SET NULL"@
    } else if code == "d"@ {
        "SET DEFAULT"@
    } else {
        "NO ACTION"@
    }
}

/// The action that a code stands for, in SQL.
pub fn ref_act_to_sql(code: &str) -> (s: &'static str)
    ensures
        s@ == code_sql(code@),
{
    if same(code, "r") {
        "RESTRICT"
    } else if same(code, "c") {
        "CASCADE"
    } else if same(code, "n") {
        "SET NULL"
    } else if same(code, "d") {
        "SET DEFAULT"
    } else {
        "NO ACTION"
    }
}

/// The clause for an action, unless it is none.
pub open spec fn action_clause(keyword: Seq<char>, act: RefAct) -> Seq<char> {
    if act == RefAct::NoAction {
        Seq::empty()
    } else {
        keyword + code_sql(ref_act_code(act))
    }
}

/// The columns of a constraint in brackets.
pub open spec fn in_brackets(columns: Seq<String>) -> Seq<char> {
    "("@ + join(names(columns), ", "@) + ")"@
}

/// The definition of a unique or primary key.
pub open spec fn unique_def(set: UniqueSet) -> Seq<char> {
    (if set.is_primary_key {
        "PRIMARY KEY "@
    } else {
        "UNIQUE "@
    }) + in_brackets(set.columns@)
}

/// The definition of a foreign key.
pub open spec fn foreign_key_def(key: ForeignKey) -> Seq<char> {
    "FOREIGN KEY "@ + in_brackets(key.child_columns@) + " REFERENCES "@ + key.parent_table@
        + in_brackets(key.parent_columns@) + action_clause(" ON UPDATE "@, key.on_update)
        + action_clause(" ON DELETE "@, key.on_delete)
}

/// Whether the primary key of a table is not among its unique sets.
pub open spec fn has_own_primary_key(table: CatalogTable) -> bool {
    table.primary_key_columns@.len() > 0 && forall|i: int|
        0 <= i < table.unique_sets@.len() ==> !(#[trigger] table.unique_sets@[i]).is_primary_key
}

/// The definitions of a table's constraints.
pub open spec fn constraint_defs(table: CatalogTable) -> Seq<Seq<char>> {
    (if has_own_primary_key(table) {
        seq!["PRIMARY KEY "@ + in_brackets(table.primary_key_columns@)]
    } else {
        Seq::empty()
    }) + Seq::new(table.unique_sets@.len(), |i: int| unique_def(table.unique_sets@[i])) + Seq::new(
        table.foreign_keys@.len(),
        |i: int| foreign_key_def(table.foreign_keys@[i]),
    ) + Seq::new(
        table.check_constraints@.len(),
        |i: int| "CHECK ("@ + table.check_constraints@[i]@ + ")"@,
    )
}

fn bracketed(head: &str, columns: &Vec<String>) -> (r: String)
    ensures
        r@ == head@ + in_brackets(columns@),
{
    let mut r = head.to_owned();
    r.append("(");
    r.append(join_strings(columns, ", ").as_str());
    r.append(")");
    assert(r@ =~= head@ + in_brackets(columns@));
    r
}

fn render_foreign_key(key: &ForeignKey) -> (r: String)
    ensures
        r@ == foreign_key_def(*key),
{
    let mut r = bracketed("FOREIGN KEY ", &key.child_columns);
    r.append(" REFERENCES ");
    r.append(key.parent_table.as_str());
    r.append(bracketed("", &key.parent_columns).as_str());
    proof {
        reveal_strlit("");
        assert(""@ + in_brackets(key.parent_columns@) =~= in_brackets(key.parent_columns@));
    }
    if key.on_update != RefAct::NoAction {
        r.append(" ON UPDATE ");
        r.append(ref_act_to_sql(ref_act_to_char(&key.on_update)));
    }
    let ghost updated = "FOREIGN KEY "@ + in_brackets(key.child_columns@) + " REFERENCES "@
        + key.parent_table@ + in_brackets(key.parent_columns@) + action_clause(
        " ON UPDATE "@,
        key.on_update,
    );
    assert(r@ =~= updated);
    if key.on_delete != RefAct::NoAction {
        r.append(" ON DELETE ");
        r.append(ref_act_to_sql(ref_act_to_char(&key.on_delete)));
    }
    assert(r@ =~= updated + action_clause(" ON DELETE "@, key.on_delete));
    r
}

fn owns_primary_key(table: &CatalogTable) -> (r: bool)
    ensures
        r == has_own_primary_key(*table),
{
    let mut i: usize = 0;
    while i < table.unique_sets.len()
        invariant
            i <= table.unique_sets@.len(),
            forall|j: int| 0 <= j < i ==> !(#[trigger] table.unique_sets@[j]).is_primary_key,
        decreases table.unique_sets@.len() - i,
    {
        if table.unique_sets[i].is_primary_key {
            assert(table.unique_sets@[i as int].is_primary_key);
            return false;
        }
        i = i + 1;
    }
    table.primary_key_columns.len() > 0
}

/// How many constraints a table has.
fn constraint_count(table: &CatalogTable) -> (n: i128)
    ensures
        n == constraint_defs(*table).len(),
        n <= 1 + 3 * usize::MAX,
{
    let own: i128 = if owns_primary_key(table) {
        1
    } else {
        0
    };
    own + table.unique_sets.len() as i128 + table.foreign_keys.len() as i128
        + table.check_constraints.len() as i128
}

/// The definition of a table's constraint.
fn nth_constraint(table: &CatalogTable, k: i128) -> (r: String)
    requires
        0 <= k < constraint_defs(*table).len(),
    ensures
        r@ == constraint_defs(*table)[k as int],
{
    let own: i128 = if owns_primary_key(table) {
        1
    } else {
        0
    };
    let ghost defs = constraint_defs(*table);
    if k < own {
        return bracketed("PRIMARY KEY ", &table.primary_key_columns);
    }
    let uniques: i128 = own + table.unique_sets.len() as i128;
    if k < uniques {
        let set = &table.unique_sets[(k - own) as usize];
        assert(defs[k as int] == unique_def(*set));
        return if set.is_primary_key {
            bracketed("PRIMARY KEY ", &set.columns)
        } else {
            bracketed("UNIQUE ", &set.columns)
        };
    }
    let keys: i128 = uniques + table.foreign_keys.len() as i128;
    if k < keys {
        let key = &table.foreign_keys[(k - uniques) as usize];
        assert(defs[k as int] == foreign_key_def(*key));
        return render_foreign_key(key);
    }
    assert(defs.len() == keys + table.check_constraints.len());
    let check = &table.check_constraints[(k - keys) as usize];
    assert(defs[k as int] == "CHECK ("@ + check@ + ")"@);
    let mut r = "CHECK (".to_owned();
    r.append(check.as_str());
    r.append(")");
    r
}

/// The definitions of the constraints of the first `n` tables in an order.
pub open spec fn all_constraints(tables: Seq<CatalogTable>, order: Seq<usize>, n: nat) -> Seq<
    Seq<char>,
>
    decreases n,
{
    if n == 0 {
        Seq::empty()
    } else {
        all_constraints(tables, order, (n - 1) as nat) + constraint_defs(
            tables[order[n - 1] as int],
        )
    }
}

/// The definition of an index of a table.
pub open spec fn index_def(table: CatalogTable, index: CatalogIndex) -> Seq<char> {
    "CREATE "@ + (if index.unique {
        "UNIQUE "@
    } else {
        Seq::empty()
    }) + "INDEX "@ + index.name@ + " ON "@ + table.name@ + " USING btree "@ + in_brackets(
        index.columns@,
    ) + match index.where_clause {
        Some(clause) => " WHERE "@ + clause@,
        None => Seq::empty(),
    }
}

/// The definitions of the first `n` indexes of a table, of those that last.
pub open spec fn index_defs(table: CatalogTable, n: nat) -> Seq<Seq<char>>
    decreases n,
{
    if n == 0 {
        Seq::empty()
    } else if table.indexes@[n - 1].ephemeral {
        index_defs(table, (n - 1) as nat)
    } else {
        index_defs(table, (n - 1) as nat).push(index_def(table, table.indexes@[n - 1]))
    }
}

/// The definitions of the indexes of the first `n` tables in an order.
pub open spec fn all_indexes(tables: Seq<CatalogTable>, order: Seq<usize>, n: nat) -> Seq<Seq<char>>
    decreases n,
{
    if n == 0 {
        Seq::empty()
    } else {
        let table = tables[order[n - 1] as int];
        all_indexes(tables, order, (n - 1) as nat) + index_defs(table, table.indexes@.len())
    }
}

fn render_index(table: &CatalogTable, index: &CatalogIndex) -> (r: String)
    ensures
        r@ == index_def(*table, *index),
{
    let mut r = "CREATE ".to_owned();
    if index.unique {
        r.append("UNIQUE ");
    } else {
        assert(r@ =~= r@ + Seq::<char>::empty());
    }
    r.append("INDEX ");
    r.append(index.name.as_str());
    r.append(" ON ");
    r.append(table.name.as_str());
    r.append(bracketed(" USING btree ", &index.columns).as_str());
    let ghost head = "CREATE "@ + (if index.unique {
        "UNIQUE "@
    } else {
        Seq::empty()
    }) + "INDEX "@ + index.name@ + " ON "@ + table.name@ + " USING btree "@ + in_brackets(
        index.columns@,
    );
    assert(r@ =~= head);
    if let Some(clause) = &index.where_clause {
        r.append(" WHERE ");
        r.append(clause.as_str());
        assert(r@ =~= head + (" WHERE "@ + clause@));
    } else {
        assert(r@ =~= head + Seq::<char>::empty());
    }
    r
}

/// What a number stands for among definitions that are numbered from `base`
/// on.
pub open spec fn numbered(defs: Seq<Seq<char>>, base: int, oid: int) -> Option<Seq<char>> {
    if base <= oid < base + defs.len() {
        Some(defs[oid - base])
    } else {
        None
    }
}

/// The number of the first index.
pub open spec fn first_index_oid(order: Seq<usize>) -> int {
    USER_TABLE_OID_START + order.len()
}

/// The number of the first constraint.
pub open spec fn first_constraint_oid(tables: Seq<CatalogTable>, order: Seq<usize>) -> int {
    first_index_oid(order) + all_indexes(tables, order, order.len()).len()
}

fn index_count(table: &CatalogTable) -> (n: usize)
    ensures
        n == index_defs(*table, table.indexes@.len()).len(),
{
    let mut n: usize = 0;
    let mut i: usize = 0;
    while i < table.indexes.len()
        invariant
            i <= table.indexes@.len(),
            n <= i,
            n == index_defs(*table, i as nat).len(),
        decreases table.indexes@.len() - i,
    {
        if !table.indexes[i].ephemeral {
            n = n + 1;
        }
        i = i + 1;
    }
    n
}

proof fn index_defs_prefix(table: CatalogTable, k: nat, n: nat)
    requires
        k <= n,
    ensures
        index_defs(table, k).is_prefix_of(index_defs(table, n)),
    decreases n,
{
    if k < n {
        index_defs_prefix(table, k, (n - 1) as nat);
        let before = index_defs(table, (n - 1) as nat);
        let after = index_defs(table, n);
        assert(index_defs(table, k) =~= after.take(index_defs(table, k).len() as int));
    } else {
        assert(index_defs(table, k).take(index_defs(table, k).len() as int) =~= index_defs(
            table,
            k,
        ));
    }
}

fn nth_index(table: &CatalogTable, k: usize) -> (r: String)
    requires
        k < index_defs(*table, table.indexes@.len()).len(),
    ensures
        r@ == index_defs(*table, table.indexes@.len())[k as int],
{
    let mut seen: usize = 0;
    let mut i: usize = 0;
    while i < table.indexes.len()
        invariant
            i <= table.indexes@.len(),
            seen <= k,
            seen == index_defs(*table, i as nat).len(),
            k < index_defs(*table, table.indexes@.len()).len(),
        decreases table.indexes@.len() - i,
    {
        if !table.indexes[i].ephemeral {
            if seen == k {
                proof {
                    index_defs_prefix(*table, (i + 1) as nat, table.indexes@.len());
                    assert(index_defs(*table, (i + 1) as nat)[k as int] == index_def(
                        *table,
                        table.indexes@[i as int],
                    ));
                }
                return render_index(table, &table.indexes[i]);
            }
            seen = seen + 1;
        }
        i = i + 1;
    }
    String::new()
}

/// The definition of the constraint with a number, for tables in the given
/// order.
pub fn constraint_definition(tables: &Vec<CatalogTable>, order: &Vec<usize>, target_oid: i64) -> (r:
    Option<String>)
    requires
        is_user_order(tables@, order@),
        order_fits(tables@, order@),
    ensures
        match r {
            Some(def) => numbered(
                all_constraints(tables@, order@, order@.len()),
                first_constraint_oid(tables@, order@),
                target_oid as int,
            ) == Some(def@),
            None => numbered(
                all_constraints(tables@, order@, order@.len()),
                first_constraint_oid(tables@, order@),
                target_oid as int,
            ) is None,
        },
{
    let mut base: i128 = USER_TABLE_OID_START as i128 + order.len() as i128;
    let mut i: usize = 0;
    while i < order.len()
        invariant
            i <= order@.len(),
            is_user_order(tables@, order@),
            base == first_index_oid(order@) + all_indexes(tables@, order@, i as nat).len(),
            first_constraint_oid(tables@, order@) <= i64::MAX,
        decreases order@.len() - i,
    {
        proof {
            all_indexes_grow(tables@, order@, (i + 1) as nat, order@.len());
        }
        assert(order@[i as int] < tables@.len());
        base = base + index_count(&tables[order[i]]) as i128;
        i = i + 1;
    }
    let ghost all = all_constraints(tables@, order@, order@.len());
    let mut oid: i128 = base;
    let mut j: usize = 0;
    while j < order.len()
        invariant
            j <= order@.len(),
            is_user_order(tables@, order@),
            all == all_constraints(tables@, order@, order@.len()),
            base == first_constraint_oid(tables@, order@),
            base + all.len() <= i64::MAX,
            oid == base + all_constraints(tables@, order@, j as nat).len(),
            target_oid < base || oid <= target_oid,
        decreases order@.len() - j,
    {
        proof {
            all_constraints_prefix(tables@, order@, (j + 1) as nat, order@.len());
        }
        assert(order@[j as int] < tables@.len());
        let table = &tables[order[j]];
        let count: i128 = constraint_count(table);
        if oid <= target_oid as i128 && (target_oid as i128) < oid + count {
            let r = nth_constraint(table, target_oid as i128 - oid);
            proof {
                let upto = all_constraints(tables@, order@, (j + 1) as nat);
                assert(upto[target_oid - base] == r@);
                assert(all[target_oid - base] == upto[target_oid - base]);
            }
            return Some(r);
        }
        oid = oid + count;
        j = j + 1;
    }
    None
}

proof fn all_indexes_grow(tables: Seq<CatalogTable>, order: Seq<usize>, k: nat, n: nat)
    requires
        k <= n,
    ensures
        all_indexes(tables, order, k).is_prefix_of(all_indexes(tables, order, n)),
    decreases n,
{
    if k < n {
        all_indexes_grow(tables, order, k, (n - 1) as nat);
    }
    assert(all_indexes(tables, order, k) =~= all_indexes(tables, order, n).take(
        all_indexes(tables, order, k).len() as int,
    ));
}

proof fn all_constraints_prefix(tables: Seq<CatalogTable>, order: Seq<usize>, k: nat, n: nat)
    requires
        k <= n,
    ensures
        all_constraints(tables, order, k).is_prefix_of(all_constraints(tables, order, n)),
    decreases n,
{
    if k < n {
        all_constraints_prefix(tables, order, k, (n - 1) as nat);
    }
    assert(all_constraints(tables, order, k) =~= all_constraints(tables, order, n).take(
        all_constraints(tables, order, k).len() as int,
    ));
}

/// The definition of the index with a number, for tables in the given order.
pub fn index_definition(tables: &Vec<CatalogTable>, order: &Vec<usize>, target_oid: i64) -> (r:
    Option<String>)
    requires
        is_user_order(tables@, order@),
        first_constraint_oid(tables@, order@) <= i64::MAX,
    ensures
        match r {
            Some(def) => numbered(
                all_indexes(tables@, order@, order@.len()),
                first_index_oid(order@),
                target_oid as int,
            ) == Some(def@),
            None => numbered(
                all_indexes(tables@, order@, order@.len()),
                first_index_oid(order@),
                target_oid as int,
            ) is None,
        },
{
    let base: i128 = USER_TABLE_OID_START as i128 + order.len() as i128;
    let ghost all = all_indexes(tables@, order@, order@.len());
    let mut oid: i128 = base;
    let mut j: usize = 0;
    while j < order.len()
        invariant
            j <= order@.len(),
            is_user_order(tables@, order@),
            all == all_indexes(tables@, order@, order@.len()),
            base == first_index_oid(order@),
            base + all.len() <= i64::MAX,
            oid == base + all_indexes(tables@, order@, j as nat).len(),
            target_oid < base || oid <= target_oid,
        decreases order@.len() - j,
    {
        proof {
            all_indexes_grow(tables@, order@, (j + 1) as nat, order@.len());
        }
        assert(order@[j as int] < tables@.len());
        let table = &tables[order[j]];
        let count: i128 = index_count(table) as i128;
        if oid <= target_oid as i128 && (target_oid as i128) < oid + count {
            let r = nth_index(table, (target_oid as i128 - oid) as usize);
            proof {
                let upto = all_indexes(tables@, order@, (j + 1) as nat);
                assert(upto[target_oid - base] == r@);
                assert(all[target_oid - base] == upto[target_oid - base]);
            }
            return Some(r);
        }
        oid = oid + count;
        j = j + 1;
    }
    None
}

/// Whether the numbers of all objects fit 64 bits, for tables in the given
/// order.
pub open spec fn order_fits(tables: Seq<CatalogTable>, order: Seq<usize>) -> bool {
    first_constraint_oid(tables, order) + all_constraints(tables, order, order.len()).len()
        <= i64::MAX
}

/// Tells whether the numbers of all objects fit 64 bits.
pub fn numbers_are_enough(tables: &Vec<CatalogTable>, order: &Vec<usize>) -> (r: bool)
    requires
        is_user_order(tables@, order@),
    ensures
        r == order_fits(tables@, order@),
{
    let mut oid: i128 = USER_TABLE_OID_START as i128 + order.len() as i128;
    let mut i: usize = 0;
    while i < order.len()
        invariant
            i <= order@.len(),
            is_user_order(tables@, order@),
            0 <= oid,
            i == 0 || oid <= i64::MAX,
            oid == first_index_oid(order@) + all_indexes(tables@, order@, i as nat).len(),
        decreases order@.len() - i,
    {
        proof {
            all_indexes_grow(tables@, order@, (i + 1) as nat, order@.len());
        }
        assert(order@[i as int] < tables@.len());
        oid = oid + index_count(&tables[order[i]]) as i128;
        if oid > i64::MAX as i128 {
            return false;
        }
        i = i + 1;
    }
    let mut j: usize = 0;
    while j < order.len()
        invariant
            j <= order@.len(),
            is_user_order(tables@, order@),
            order@.len() == 0 || 0 <= oid <= i64::MAX,
            oid == first_constraint_oid(tables@, order@) + all_constraints(
                tables@,
                order@,
                j as nat,
            ).len(),
        decreases order@.len() - j,
    {
        proof {
            all_constraints_prefix(tables@, order@, (j + 1) as nat, order@.len());
        }
        assert(order@[j as int] < tables@.len());
        oid = oid + constraint_count(&tables[order[j]]);
        if oid > i64::MAX as i128 {
            return false;
        }
        j = j + 1;
    }
    oid <= i64::MAX as i128
}

/// Whether the numbers of all objects fit 64 bits.
pub open spec fn numbers_fit(tables: Seq<CatalogTable>) -> bool {
    forall|order: Seq<usize>| #[trigger]
        is_user_order(tables, order) ==> order_fits(tables, order)
}

/// The definition of the constraint with a number.
pub fn pg_get_constraintdef(tables: &Vec<CatalogTable>, target_oid: i64) -> (r: Option<String>)
    requires
        numbers_fit(tables@),
    ensures
        exists|order: Seq<usize>| #[trigger]
            is_user_order(tables@, order) && match r {
                Some(def) => numbered(
                    all_constraints(tables@, order, order.len()),
                    first_constraint_oid(tables@, order),
                    target_oid as int,
                ) == Some(def@),
                None => numbered(
                    all_constraints(tables@, order, order.len()),
                    first_constraint_oid(tables@, order),
                    target_oid as int,
                ) is None,
            },
{
    let order = user_tables_sorted(tables);
    constraint_definition(tables, &order, target_oid)
}

/// The definition of the index with a number.
pub fn pg_get_indexdef(tables: &Vec<CatalogTable>, target_oid: i64) -> (r: Option<String>)
    requires
        numbers_fit(tables@),
    ensures
        exists|order: Seq<usize>| #[trigger]
            is_user_order(tables@, order) && match r {
                Some(def) => numbered(
                    all_indexes(tables@, order, order.len()),
                    first_index_oid(order),
                    target_oid as int,
                ) == Some(def@),
                None => numbered(
                    all_indexes(tables@, order, order.len()),
                    first_index_oid(order),
                    target_oid as int,
                ) is None,
            },
{
    let order = user_tables_sorted(tables);
    index_definition(tables, &order, target_oid)
}

/// No number stands for an index and for a constraint.
pub proof fn numbers_are_apart(tables: Seq<CatalogTable>, order: Seq<usize>, oid: int)
    ensures
        numbered(all_indexes(tables, order, order.len()), first_index_oid(order), oid) is None
            || numbered(
            all_constraints(tables, order, order.len()),
            first_constraint_oid(tables, order),
            oid,
        ) is None,
{
}

} // verus!
