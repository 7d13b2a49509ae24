//! What definitions in the catalog say of the tables.

use vstd::prelude::*;
use crate::pg::catalog;
use crate::pg::catalog::{CatalogIndex, CatalogTable, ForeignKey, RefAct, UniqueSet};
use crate::text;

verus! {

/// What an action is called in SQL.
pub open spec fn action_name(act: RefAct) -> Seq<char> {
    match act {
        RefAct::NoAction => "NO ACTION"@,
        RefAct::Restrict => "RESTRICT"@,
        RefAct::Cascade => "CASCADE"@,
        RefAct::SetNull => "SET NULL"@,
        RefAct::SetDefault => "SET DEFAULT"@,
    }
}

/// The code of an action is one letter, another for every action, and leads to
/// the action's name in SQL.
pub proof fn actions_are_told_apart(a: RefAct, b: RefAct)
    ensures
        catalog::ref_act_code(a).len() == 1,
        catalog::ref_act_code(a) == catalog::ref_act_code(b) ==> a == b,
        catalog::code_sql(catalog::ref_act_code(a)) == action_name(a),
{
    reveal_strlit("a");
    reveal_strlit("r");
    reveal_strlit("c");
    reveal_strlit("n");
    reveal_strlit("d");
    assert("a"@.len() == 1 && "a"@[0] == 'a');
    assert("r"@.len() == 1 && "r"@[0] == 'r');
    assert("c"@.len() == 1 && "c"@[0] == 'c');
    assert("n"@.len() == 1 && "n"@[0] == 'n');
    assert("d"@.len() == 1 && "d"@[0] == 'd');
}

/// A text that ends with another.
pub open spec fn ends(s: Seq<char>, end: Seq<char>) -> bool {
    s.len() >= end.len() && s.skip(s.len() - end.len()) == end
}

/// The definition of a foreign key names the columns, the table that they refer to
/// and its columns; behind them what is done on an update, and then what is done on
/// a deletion, each only where something is done.
pub proof fn foreign_keys_say_what_is_done(key: ForeignKey)
    ensures
        ({
            let def = catalog::foreign_key_def(key);
            let on_update = " ON UPDATE "@ + action_name(key.on_update);
            let on_delete = " ON DELETE "@ + action_name(key.on_delete);
            let refers = "FOREIGN KEY "@ + catalog::in_brackets(key.child_columns@)
                + " REFERENCES "@ + key.parent_table@ + catalog::in_brackets(key.parent_columns@);
            &&& text::starts(def, refers)
            &&& key.on_delete != RefAct::NoAction ==> ends(def, on_delete)
            &&& key.on_delete == RefAct::NoAction && key.on_update != RefAct::NoAction ==> ends(
                def,
                on_update,
            )
            &&& key.on_delete == RefAct::NoAction && key.on_update == RefAct::NoAction ==> def
                == refers
            &&& key.on_delete != RefAct::NoAction && key.on_update != RefAct::NoAction ==> def
                == refers + on_update + on_delete
        }),
{
    actions_are_told_apart(key.on_update, key.on_update);
    actions_are_told_apart(key.on_delete, key.on_delete);
    let def = catalog::foreign_key_def(key);
    let on_update = " ON UPDATE "@ + action_name(key.on_update);
    let on_delete = " ON DELETE "@ + action_name(key.on_delete);
    let refers = "FOREIGN KEY "@ + catalog::in_brackets(key.child_columns@) + " REFERENCES "@
        + key.parent_table@ + catalog::in_brackets(key.parent_columns@);
    if key.on_delete != RefAct::NoAction {
        assert(def.skip(def.len() - on_delete.len()) =~= on_delete);
        if key.on_update != RefAct::NoAction {
            assert(def =~= refers + on_update + on_delete);
        } else {
            assert(def =~= refers + on_delete);
        }
    } else if key.on_update != RefAct::NoAction {
        assert(def =~= refers + on_update);
        assert(def.skip(def.len() - on_update.len()) =~= on_update);
    } else {
        assert(def =~= refers);
    }
}

/// Joined lists are joined by the separator: between the parts of two lists that
/// are joined one behind the other it stands once more.
pub proof fn joining_goes_on(a: Seq<Seq<char>>, b: Seq<Seq<char>>, separator: Seq<char>)
    requires
        a.len() > 0,
        b.len() > 0,
    ensures
        catalog::join(a + b, separator) == catalog::join(a, separator) + separator + catalog::join(
            b,
            separator,
        ),
        catalog::join(seq![a[0]], separator) == a[0],
    decreases b.len(),
{
    assert((a + b).drop_last() =~= a + b.drop_last());
    assert((a + b).last() == b.last());
    if b.len() > 1 {
        joining_goes_on(a, b.drop_last(), separator);
        assert(catalog::join(a + b, separator) =~= catalog::join(a, separator) + separator
            + catalog::join(b, separator));
    } else {
        assert(a + b.drop_last() =~= a);
        assert(catalog::join(b, separator) == b[0]);
    }
    assert(seq![a[0]][0] == a[0]);
}

/// Names stand in an order of their own: of two different ones exactly one comes
/// first, and none comes before itself.
pub proof fn names_are_in_order(a: Seq<char>, b: Seq<char>)
    ensures
        !(catalog::precedes(a, b) && catalog::precedes(b, a)),
        a != b <==> catalog::precedes(a, b) || catalog::precedes(b, a),
{
    order_from(a, b, 0);
}

proof fn order_from(a: Seq<char>, b: Seq<char>, from: nat)
    requires
        from <= a.len(),
        from <= b.len(),
        forall|i: int| 0 <= i < from ==> a[i] == b[i],
    ensures
        !(catalog::precedes_from(a, b, from) && catalog::precedes_from(b, a, from)),
        a != b <==> catalog::precedes_from(a, b, from) || catalog::precedes_from(b, a, from),
    decreases a.len() - from,
{
    if from < a.len() && from < b.len() {
        if a[from as int] == b[from as int] {
            order_from(a, b, from + 1);
        }
    } else if a.len() == b.len() {
        assert(a =~= b);
    }
}

/// A name comes before every longer one that starts with it, and where two names
/// differ first the letters decide.
pub proof fn letters_decide_the_order(p: Seq<char>, x: char, y: char, a: Seq<char>, b: Seq<char>)
    requires
        x < y,
    ensures
        catalog::precedes(p, p.push(x)),
        catalog::precedes(p.push(x) + a, p.push(y) + b),
{
    assert(p.push(x).len() == p.len() + 1);
    runs_on(p, p.push(x), 0, p.len());
    let s = p.push(x) + a;
    let t = p.push(y) + b;
    assert(s[p.len() as int] == x);
    assert(t[p.len() as int] == y);
    runs_on(s, t, 0, p.len());
}

proof fn runs_on(a: Seq<char>, b: Seq<char>, from: nat, to: nat)
    requires
        from <= to <= a.len(),
        to < b.len(),
        forall|i: int| from <= i < to ==> a[i] == b[i],
        to == a.len() || a[to as int] < b[to as int],
    ensures
        catalog::precedes_from(a, b, from),
    decreases to - from,
{
    if from < to {
        runs_on(a, b, from + 1, to);
    }
}

/// A unique set is defined as a primary key exactly where it is one.
pub proof fn unique_sets_say_whether_they_are_the_key(set: UniqueSet)
    ensures
        text::starts(catalog::unique_def(set), "PRIMARY KEY "@) <==> set.is_primary_key,
        text::starts(catalog::unique_def(set), "UNIQUE "@) <==> !set.is_primary_key,
        ends(catalog::unique_def(set), catalog::in_brackets(set.columns@)),
{
    reveal_strlit("PRIMARY KEY ");
    reveal_strlit("UNIQUE ");
    let def = catalog::unique_def(set);
    let columns = catalog::in_brackets(set.columns@);
    assert("PRIMARY KEY "@.len() == 12 && "PRIMARY KEY "@[0] == 'P');
    assert("UNIQUE "@.len() == 7 && "UNIQUE "@[0] == 'U');
    assert(def[0] == if set.is_primary_key {
        'P'
    } else {
        'U'
    });
    assert(def.skip(def.len() - columns.len()) =~= columns);
    if set.is_primary_key {
        assert("PRIMARY KEY "@.is_prefix_of(def));
    } else {
        assert("UNIQUE "@.is_prefix_of(def));
    }
}

/// A table has as many constraints as it declares: its unique sets, its foreign
/// keys, its checks, and its primary key where that is none of the unique sets.
/// They come in this order, the primary key first.
pub proof fn constraints_are_counted(table: CatalogTable, i: int)
    ensures
        ({
            let defs = catalog::constraint_defs(table);
            let own = if catalog::has_own_primary_key(table) {
                1int
            } else {
                0
            };
            let u = table.unique_sets@.len() as int;
            let f = table.foreign_keys@.len() as int;
            let c = table.check_constraints@.len() as int;
            &&& defs.len() == own + u + f + c
            &&& own == 1 ==> defs[0] == "PRIMARY KEY "@ + catalog::in_brackets(
                table.primary_key_columns@,
            )
            &&& 0 <= i < u ==> defs[own + i] == catalog::unique_def(table.unique_sets@[i])
            &&& 0 <= i < f ==> defs[own + u + i] == catalog::foreign_key_def(
                table.foreign_keys@[i],
            )
            &&& 0 <= i < c ==> defs[own + u + f + i] == "CHECK ("@ + table.check_constraints@[i]@
                + ")"@
        }),
{
}

/// The definition of an index creates it, as a unique one exactly where it is
/// unique, and ends with its condition where it has one.
pub proof fn indexes_say_what_they_are(table: CatalogTable, index: CatalogIndex)
    ensures
        text::starts(catalog::index_def(table, index), "CREATE UNIQUE INDEX "@ + index.name@)
            || !index.unique,
        text::starts(catalog::index_def(table, index), "CREATE INDEX "@ + index.name@)
            || index.unique,
        match index.where_clause {
            Some(clause) => ends(catalog::index_def(table, index), " WHERE "@ + clause@),
            None => ends(catalog::index_def(table, index), catalog::in_brackets(index.columns@)),
        },
{
    reveal_strlit("CREATE ");
    reveal_strlit("UNIQUE ");
    reveal_strlit("INDEX ");
    reveal_strlit("CREATE UNIQUE INDEX ");
    reveal_strlit("CREATE INDEX ");
    let def = catalog::index_def(table, index);
    assert("CREATE "@ + "UNIQUE "@ + "INDEX "@ =~= "CREATE UNIQUE INDEX "@);
    assert("CREATE "@ + Seq::<char>::empty() + "INDEX "@ =~= "CREATE INDEX "@);
    if index.unique {
        assert(("CREATE UNIQUE INDEX "@ + index.name@).is_prefix_of(def));
    } else {
        assert(("CREATE INDEX "@ + index.name@).is_prefix_of(def));
    }
    match index.where_clause {
        Some(clause) => {
            let end = " WHERE "@ + clause@;
            assert(def.skip(def.len() - end.len()) =~= end);
        },
        None => {
            let end = catalog::in_brackets(index.columns@);
            assert(def.skip(def.len() - end.len()) =~= end);
        },
    }
}

/// Numbers go on from table to table: the constraints of a table are numbered one
/// behind the other, behind those of the tables before it.
pub proof fn constraints_are_numbered_in_order(
    tables: Seq<CatalogTable>,
    order: Seq<usize>,
    k: nat,
    n: nat,
    i: int,
)
    requires
        k < n <= order.len(),
        0 <= i < catalog::constraint_defs(tables[order[k as int] as int]).len(),
    ensures
        ({
            let before = catalog::all_constraints(tables, order, k).len() as int;
            let all = catalog::all_constraints(tables, order, n);
            &&& before + i < all.len()
            &&& all[before + i] == catalog::constraint_defs(tables[order[k as int] as int])[i]
            &&& catalog::all_constraints(tables, order, 0).len() == 0
        }),
    decreases n,
{
    if k + 1 < n {
        constraints_are_numbered_in_order(tables, order, k, (n - 1) as nat, i);
    }
}

/// Indexes that are made for one statement only are not listed; every other one
/// is, and nothing else.
pub proof fn lasting_indexes_are_listed(table: CatalogTable, n: nat, i: int)
    requires
        n <= table.indexes@.len(),
        0 <= i < n,
    ensures
        !table.indexes@[i].ephemeral ==> catalog::index_defs(table, n).contains(
            catalog::index_def(table, table.indexes@[i]),
        ),
        catalog::index_defs(table, n).len() <= n,
        (forall|j: int| 0 <= j < n ==> (#[trigger] table.indexes@[j]).ephemeral)
            ==> catalog::index_defs(table, n).len() == 0,
    decreases n,
{
    let k = (n - 1) as nat;
    let before = catalog::index_defs(table, k);
    let defs = catalog::index_defs(table, n);
    if k > 0 {
        lasting_indexes_are_listed(
            table,
            k,
            if i < k {
                i
            } else {
                0
            },
        );
    }
    if i < k && !table.indexes@[i].ephemeral {
        let def = catalog::index_def(table, table.indexes@[i]);
        let at = choose|at: int| 0 <= at < before.len() && before[at] == def;
        assert(defs[at] == def);
    } else if i == k && !table.indexes@[i].ephemeral {
        assert(defs.last() == catalog::index_def(table, table.indexes@[i]));
    }
}

} // verus!
