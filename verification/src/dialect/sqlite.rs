//! The SQLite dialect: how the text of a table is kept, and which tables every
//! schema has.

use vstd::prelude::*;
use crate::dialect::builtin;
use crate::dialect::builtin::resolve_builtin_function;
use crate::error::LimboError;
use crate::function::Func;
use crate::names::Named;
use crate::text;
use crate::text::join2;
use vstd::string::StringExecFns;

verus! {

/// The SQLite dialect.
pub struct SqliteDialect;

/// A persisted statement, as it was parsed.
pub enum PersistedSql {
    /// A `CREATE TABLE`: whether the name of the table says which database it is
    /// in, and the statement printed without that.
    CreateTable { qualified: bool, unqualified: String },
    /// Anything else, and how it prints.
    Other { printed: String },
}

/// What a table is created from.
pub enum CreateTableBody {
    /// Columns and constraints, and how they print.
    ColumnsAndConstraints { printed: String },
    /// A query.
    AsSelect,
}

/// Whether a persisted statement creates a table.
pub fn parse_table_sql_ast(stmt: &PersistedSql) -> (r: Result<(), LimboError>)
    ensures
        match (stmt, r) {
            (PersistedSql::CreateTable { .. }, Ok(_)) => true,
            (PersistedSql::Other { printed }, Err(LimboError::Corrupt(m))) => m@
                == "persisted table SQL is not CREATE TABLE: "@ + printed@,
            _ => false,
        },
{
    match stmt {
        PersistedSql::CreateTable { .. } => Ok(()),
        PersistedSql::Other { printed } => Err(
            LimboError::Corrupt(
                join2("persisted table SQL is not CREATE TABLE: ", printed.as_str()),
            ),
        ),
    }
}

/// The text of a persisted table that another schema can replay: the text as it
/// is, or without the name of the database where it has one.
pub fn table_sql_for_replay(sql: &str, stmt: &PersistedSql) -> (r: Result<String, LimboError>)
    ensures
        match (stmt, r) {
            (PersistedSql::CreateTable { qualified, unqualified }, Ok(s)) => s@ == if *qualified {
                unqualified@
            } else {
                sql@
            },
            (PersistedSql::Other { printed }, Err(LimboError::Corrupt(m))) => m@
                == "persisted table SQL is not CREATE TABLE: "@ + printed@,
            _ => false,
        },
{
    parse_table_sql_ast(stmt)?;
    match stmt {
        PersistedSql::CreateTable { qualified, unqualified } => if *qualified {
            Ok(unqualified.clone())
        } else {
            Ok(sql.to_owned())
        },
        PersistedSql::Other { .. } => Ok(String::new()),
    }
}

/// A table that is computed.
#[derive(Clone, Copy, Debug, PartialEq, Eq, Structural)]
pub enum VirtualTable {
    /// A function that gives what a pragma gives.
    Pragma { vtab_id: u64, is_droppable: bool, innocuous: bool },
    /// A table of the engine's own.
    Internal,
    /// A table of an extension.
    Extension { vtab_id: u64 },
}

/// A table of a schema.
#[derive(Clone, Copy, Debug, PartialEq, Eq, Structural)]
pub enum Table {
    /// A table in the file, by the page that it starts at.
    BTree { root_page: i64 },
    Virtual(VirtualTable),
}

/// The tables of a database by their names.
pub struct Schema {
    tables: Named<Table>,
}

impl View for Schema {
    type V = Map<Seq<char>, Table>;

    closed spec fn view(&self) -> Map<Seq<char>, Table> {
        self.tables@
    }
}

impl Schema {
    /// A schema without tables.
    pub fn new() -> (r: Schema)
        ensures
            r@ == Map::<Seq<char>, Table>::empty(),
    {
        Schema { tables: Named::new() }
    }

    /// The table of a name.
    pub fn get(&self, name: &str) -> (r: Option<Table>)
        ensures
            r == if self@.contains_key(name@) {
                Some(self@[name@])
            } else {
                None
            },
    {
        match self.tables.get(name) {
            Some(table) => Some(*table),
            None => None,
        }
    }

    /// Enters a table; it takes the place of one with the same name.
    pub fn insert(&mut self, name: String, table: Table)
        ensures
            final(self)@ == old(self)@.insert(name@, table),
    {
        self.tables.insert(name, table);
    }
}

/// The table of a pragma: it cannot be dropped, and does no harm.
pub open spec fn pragma_table() -> Table {
    Table::Virtual(VirtualTable::Pragma { vtab_id: 0, is_droppable: false, innocuous: true })
}

/// A table of the engine's own.
pub open spec fn internal_table(name: Seq<char>) -> (Seq<char>, Table) {
    (name, Table::Virtual(VirtualTable::Internal))
}

/// The tables of the functions that give what pragmas give.
pub open spec fn pragma_tables(pragmas: Seq<Seq<char>>) -> Seq<(Seq<char>, Table)> {
    pragmas.map_values(|p: Seq<char>| ("pragma_"@ + p, pragma_table()))
}

/// The tables of the engine's own that the build and the connection ask for.
pub open spec fn internal_tables(json: bool, cli: bool, custom_types: bool) -> Seq<
    (Seq<char>, Table),
> {
    (if json {
        seq![internal_table("json_each"@), internal_table("json_tree"@)]
    } else {
        Seq::empty()
    }) + (if cli {
        seq![internal_table("sqlite_dbpage"@), internal_table("btree_dump"@)]
    } else {
        Seq::empty()
    }) + (if custom_types {
        seq![internal_table("sqlite_turso_types"@)]
    } else {
        Seq::empty()
    })
}

/// The tables that every schema has: one for each pragma, then those of the
/// engine's own.
pub open spec fn catalog(
    pragmas: Seq<Seq<char>>,
    json: bool,
    cli: bool,
    custom_types: bool,
) -> Seq<(Seq<char>, Table)> {
    pragma_tables(pragmas) + internal_tables(json, cli, custom_types)
}

/// Tables with others entered in their order.
pub open spec fn registered(
    tables: Map<Seq<char>, Table>,
    added: Seq<(Seq<char>, Table)>,
) -> Map<Seq<char>, Table>
    decreases added.len(),
{
    if added.len() == 0 {
        tables
    } else {
        registered(tables, added.drop_last()).insert(added.last().0, added.last().1)
    }
}

/// Whether a table is entered under a name.
pub open spec fn enters(added: Seq<(Seq<char>, Table)>, name: Seq<char>) -> bool {
    exists|i: int| 0 <= i < added.len() && (#[trigger] added[i]).0 == name
}

/// Texts, by what they hold.
pub open spec fn views(texts: Seq<String>) -> Seq<Seq<char>> {
    texts.map_values(|s: String| s@)
}

/// A name has the table that was entered under it last, or the one that it had.
proof fn registered_at(
    tables: Map<Seq<char>, Table>,
    added: Seq<(Seq<char>, Table)>,
    name: Seq<char>,
)
    ensures
        registered(tables, added).contains_key(name) == (tables.contains_key(name) || enters(
            added,
            name,
        )),
        enters(added, name) ==> exists|i: int|
            0 <= i < added.len() && (#[trigger] added[i]).0 == name && registered(
                tables,
                added,
            )[name] == added[i].1,
        !enters(added, name) && tables.contains_key(name) ==> registered(tables, added)[name]
            == tables[name],
    decreases added.len(),
{
    if added.len() > 0 {
        let before = added.drop_last();
        registered_at(tables, before, name);
        if added.last().0 == name {
            assert(added[added.len() - 1].0 == name);
        } else {
            assert forall|i: int| 0 <= i < added.len() && (#[trigger] added[i]).0 == name implies
                0 <= i < before.len() && before[i] == added[i] by {}
            if enters(added, name) {
                let i = choose|i: int| 0 <= i < added.len() && (#[trigger] added[i]).0 == name;
                assert(before[i].0 == name);
                let k = choose|k: int|
                    0 <= k < before.len() && (#[trigger] before[k]).0 == name && registered(
                        tables,
                        before,
                    )[name] == before[k].1;
                assert(added[k].0 == name);
            }
            if enters(before, name) {
                let i = choose|i: int| 0 <= i < before.len() && (#[trigger] before[i]).0 == name;
                assert(added[i].0 == name);
            }
        }
    }
}

/// In a schema with the catalog every pragma has its table; the table of custom
/// types is there where they are enabled; and tables under other names are what
/// they were.
pub proof fn catalog_only_adds(
    tables: Map<Seq<char>, Table>,
    pragmas: Seq<Seq<char>>,
    json: bool,
    cli: bool,
    custom_types: bool,
)
    ensures
        ({
            let added = catalog(pragmas, json, cli, custom_types);
            let after = registered(tables, added);
            let types = "sqlite_turso_types"@;
            &&& forall|i: int|
                0 <= i < pragmas.len() ==> after.contains_key("pragma_"@ + #[trigger] pragmas[i])
                    && after["pragma_"@ + pragmas[i]] == pragma_table()
            &&& after.contains_key(types) == (custom_types || tables.contains_key(types))
            &&& forall|name: Seq<char>| #[trigger]
                enters(added, name) ==> after.contains_key(name) && after[name] is Virtual
            &&& forall|name: Seq<char>|
                !enters(added, name) ==> #[trigger] after.contains_key(name)
                    == tables.contains_key(name)
            &&& forall|name: Seq<char>|
                !enters(added, name) && tables.contains_key(name) ==> #[trigger] after[name]
                    == tables[name]
        }),
{
    let added = catalog(pragmas, json, cli, custom_types);
    let after = registered(tables, added);
    let first = pragma_tables(pragmas);
    let rest = internal_tables(json, cli, custom_types);
    let types = "sqlite_turso_types"@;
    reveal_strlit("pragma_");
    reveal_strlit("json_each");
    reveal_strlit("json_tree");
    reveal_strlit("sqlite_dbpage");
    reveal_strlit("btree_dump");
    reveal_strlit("sqlite_turso_types");
    assert("sqlite_dbpage"@.len() != types.len());
    assert forall|i: int| 0 <= i < first.len() implies (#[trigger] first[i]) == (
        "pragma_"@ + pragmas[i],
        pragma_table(),
    ) && first[i].0[0] == 'p' by {
        assert(first[i].0[0] == "pragma_"@[0]);
    }
    assert forall|i: int| 0 <= i < rest.len() implies (#[trigger] rest[i]).0.len() > 0
        && rest[i].0[0] != 'p' && rest[i].1 == Table::Virtual(VirtualTable::Internal) by {}
    assert forall|i: int| 0 <= i < added.len() implies (#[trigger] added[i]) == if i < first.len() {
        first[i]
    } else {
        rest[i - first.len()]
    } by {}
    assert forall|i: int| 0 <= i < pragmas.len() implies after.contains_key(
        "pragma_"@ + #[trigger] pragmas[i],
    ) && after["pragma_"@ + pragmas[i]] == pragma_table() by {
        let name = "pragma_"@ + pragmas[i];
        assert(added[i].0 == name);
        registered_at(tables, added, name);
        assert(name[0] == 'p');
    }
    registered_at(tables, added, types);
    assert(custom_types == enters(added, types)) by {
        if custom_types {
            let last = added.len() - 1;
            assert(rest[rest.len() - 1] == internal_table(types));
            assert(added[last].0 == types);
        }
        if enters(added, types) {
            let i = choose|i: int| 0 <= i < added.len() && (#[trigger] added[i]).0 == types;
            if i < first.len() {
                assert(first[i].0[0] == 'p');
                assert(types[0] == 's');
            } else {
                let k = i - first.len();
                assert(rest[k].0 == types);
                assert("json_each"@[0] == 'j' && "json_tree"@[0] == 'j' && "btree_dump"@[0]
                    == 'b');
            }
        }
    }
    assert forall|name: Seq<char>| #[trigger] enters(added, name) implies after.contains_key(name)
        && after[name] is Virtual by {
        registered_at(tables, added, name);
    }
    assert forall|name: Seq<char>| !enters(added, name) implies #[trigger] after.contains_key(name)
        == tables.contains_key(name) by {
        registered_at(tables, added, name);
    }
    assert forall|name: Seq<char>|
        !enters(added, name) && tables.contains_key(name) implies #[trigger] after[name]
        == tables[name] by {
        registered_at(tables, added, name);
    }
}

fn internal(schema: &mut Schema, name: &str)
    ensures
        final(schema)@ == old(schema)@.insert(name@, internal_table(name@).1),
{
    schema.insert(name.to_owned(), Table::Virtual(VirtualTable::Internal));
}

/// Enters the tables of the functions that give what pragmas give.
fn register_pragma_vtabs(schema: &mut Schema, pragmas: &Vec<String>)
    ensures
        final(schema)@ == registered(old(schema)@, pragma_tables(views(pragmas@))),
{
    let mut i: usize = 0;
    let ghost all = pragma_tables(views(pragmas@));
    let ghost start = schema@;
    while i < pragmas.len()
        invariant
            i <= pragmas@.len(),
            start == old(schema)@,
            all == pragma_tables(views(pragmas@)),
            schema@ == registered(start, all.take(i as int)),
        decreases pragmas@.len() - i,
    {
        schema.insert(
            join2("pragma_", pragmas[i].as_str()),
            Table::Virtual(
                VirtualTable::Pragma { vtab_id: 0, is_droppable: false, innocuous: true },
            ),
        );
        i = i + 1;
        assert(all.take(i as int).drop_last() =~= all.take(i - 1));
        assert(all.take(i as int).last() == all[i - 1]);
    }
    assert(all.take(i as int) =~= all);
}

/// Enters the tables that every schema has: one for each pragma, then those of
/// the engine's own.
pub fn register_builtin_catalog(
    schema: &mut Schema,
    pragmas: &Vec<String>,
    json: bool,
    cli: bool,
    enable_custom_types: bool,
)
    ensures
        final(schema)@ == registered(
            old(schema)@,
            catalog(views(pragmas@), json, cli, enable_custom_types),
        ),
        forall|i: int|
            0 <= i < pragmas@.len() ==> final(schema)@.contains_key(
                "pragma_"@ + (#[trigger] pragmas@[i])@,
            ) && final(schema)@["pragma_"@ + pragmas@[i]@] == pragma_table(),
        final(schema)@.contains_key("sqlite_turso_types"@) == (enable_custom_types || old(
            schema,
        )@.contains_key("sqlite_turso_types"@)),
        forall|name: Seq<char>|
            !enters(catalog(views(pragmas@), json, cli, enable_custom_types), name)
                ==> #[trigger] final(schema)@.contains_key(name) == old(schema)@.contains_key(name),
        forall|name: Seq<char>|
            !enters(catalog(views(pragmas@), json, cli, enable_custom_types), name) && old(
                schema,
            )@.contains_key(name) ==> #[trigger] final(schema)@[name] == old(schema)@[name],
{
    let ghost start = schema@;
    let ghost names = views(pragmas@);
    register_pragma_vtabs(schema, pragmas);
    let ghost mut added = pragma_tables(names);
    if json {
        internal(schema, "json_each");
        internal(schema, "json_tree");
        proof {
            entered(start, added, internal_table("json_each"@));
            added = added.push(internal_table("json_each"@));
            entered(start, added, internal_table("json_tree"@));
            added = added.push(internal_table("json_tree"@));
        }
    }
    if cli {
        internal(schema, "sqlite_dbpage");
        internal(schema, "btree_dump");
        proof {
            entered(start, added, internal_table("sqlite_dbpage"@));
            added = added.push(internal_table("sqlite_dbpage"@));
            entered(start, added, internal_table("btree_dump"@));
            added = added.push(internal_table("btree_dump"@));
        }
    }
    if enable_custom_types {
        internal(schema, "sqlite_turso_types");
        proof {
            entered(start, added, internal_table("sqlite_turso_types"@));
            added = added.push(internal_table("sqlite_turso_types"@));
        }
    }
    proof {
        assert(added =~= catalog(names, json, cli, enable_custom_types));
        catalog_only_adds(start, names, json, cli, enable_custom_types);
        assert forall|i: int| 0 <= i < pragmas@.len() implies schema@.contains_key(
            "pragma_"@ + (#[trigger] pragmas@[i])@,
        ) && schema@["pragma_"@ + pragmas@[i]@] == pragma_table() by {
            assert(names[i] == pragmas@[i]@);
        }
    }
}

proof fn entered(
    tables: Map<Seq<char>, Table>,
    added: Seq<(Seq<char>, Table)>,
    one: (Seq<char>, Table),
)
    ensures
        registered(tables, added.push(one)) == registered(tables, added).insert(one.0, one.1),
{
    assert(added.push(one).drop_last() =~= added);
}

impl SqliteDialect {
    /// The name of the dialect.
    pub fn name(&self) -> (r: &'static str)
        ensures
            r@ == "sqlite"@,
    {
        "sqlite"
    }

    /// The text that a table is kept as. A table that is created from a query has
    /// none.
    pub fn format_table_sql(&self, ident: &str, body: &CreateTableBody) -> (r: Result<
        String,
        LimboError,
    >)
        ensures
            match (body, r) {
                (CreateTableBody::ColumnsAndConstraints { printed }, Ok(s)) => s@
                    == "CREATE TABLE "@ + ident@ + " "@ + printed@,
                (CreateTableBody::AsSelect, Err(e)) => e.is_parse_error(
                    "CREATE TABLE AS SELECT is not supported"@,
                ),
                _ => false,
            },
    {
        match body {
            CreateTableBody::ColumnsAndConstraints { printed } => {
                let mut s = join2("CREATE TABLE ", ident);
                s.append(" ");
                s.append(printed.as_str());
                Ok(s)
            },
            CreateTableBody::AsSelect => Err(
                LimboError::ParseError("CREATE TABLE AS SELECT is not supported".to_owned()),
            ),
        }
    }

    /// The built-in function that a name stands for.
    pub fn resolve_function(&self, name: &str, arg_count: usize) -> (r: Result<
        Option<Func>,
        LimboError,
    >)
        ensures
            builtin::resolution_result(
                name@,
                builtin::builtin_function(
                    text::lowercase(name@),
                    arg_count as nat,
                    builtin::default_features(),
                ),
                r,
            ),
    {
        resolve_builtin_function(name, arg_count)
    }
}

} // verus!
