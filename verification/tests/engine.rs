use tursokit::dialect::sqlite::{
    register_builtin_catalog, table_sql_for_replay, CreateTableBody, PersistedSql, Schema,
    SqliteDialect, Table, VirtualTable,
};
use tursokit::engine::{
    is_attached_db, is_main_or_temp_db, ParseOutcome, PseudoCursor, QueryRunner, RunnerAction,
    RunnerStep, SyncMode, TempStore,
};
use tursokit::error::LimboError;
use tursokit::profile::{Phase, RecursiveCte};
use tursokit::value::Value;

#[test]
fn recursive_cte_profile_emits_all_queue_shapes_per_connection() {
    let mut profile = RecursiveCte::new(1, 128);
    let (phase, batches) = profile.next_batch(3);

    assert_eq!(phase, Phase::Run);
    assert_eq!(batches.len(), 3);
    for batch in batches {
        assert_eq!(batch.len(), 4);
        assert!(batch[0].sql.contains("UNION ALL"));
        assert!(batch[1].sql.contains("ORDER BY 2, 1 LIMIT ?"));
        assert!(batch[2].sql.contains("UNION SELECT"));
        assert!(batch[3].sql.contains("infinite"));
        assert!(batch
            .iter()
            .all(|item| { item.params == vec![Value::Integer(128)] }));
    }

    let (phase, batches) = profile.next_batch(3);
    assert_eq!(phase, Phase::Done);
    assert!(batches.is_empty());
}

#[test]
fn recursive_cte_profile_never_generates_zero_cardinality() {
    let mut profile = RecursiveCte::new(1, 0);
    let (_, batches) = profile.next_batch(1);
    assert!(batches[0]
        .iter()
        .all(|item| item.params == vec![Value::Integer(1)]));
    assert_eq!(profile.name(), "recursive-cte");
}

#[test]
fn databases_have_numbers() {
    assert!(is_main_or_temp_db(0));
    assert!(is_main_or_temp_db(1));
    assert!(!is_main_or_temp_db(2));
    assert!(!is_attached_db(1));
    assert!(is_attached_db(2));
    assert_eq!(SyncMode::Full.code(), 2);
    assert_eq!(TempStore::default(), TempStore::Default);
    assert_eq!(TempStore::Memory.code(), 2);
    assert_eq!(PseudoCursor::new(7).content_reg(), 7);
}

#[test]
fn statements_are_run_one_after_another() {
    let mut runner = QueryRunner::new("SELECT 'é' ; SELECT 2".as_bytes());
    match runner.next() {
        RunnerStep::Parse(s) => assert_eq!(s, "SELECT 'é' ; SELECT 2"),
        other => panic!("unexpected {other:?}"),
    }
    assert_eq!(runner.advance("SELECT 'é' ;".len()), "SELECT 'é' ;");
    match runner.next() {
        RunnerStep::Parse(s) => assert_eq!(s, " SELECT 2"),
        other => panic!("unexpected {other:?}"),
    }
    runner.stop();
    match runner.next() {
        RunnerStep::Parse(s) => assert_eq!(s, ""),
        other => panic!("unexpected {other:?}"),
    }
}

#[test]
fn parsing_decides_what_follows() {
    let mut runner = QueryRunner::new(b"SELECT 1; oops");
    match runner.after_parse(ParseOutcome::Statement { end: 9 }) {
        RunnerAction::Run(s) => assert_eq!(s, "SELECT 1;"),
        other => panic!("unexpected {other:?}"),
    }
    match runner.next() {
        RunnerStep::Parse(s) => assert_eq!(s, " oops"),
        other => panic!("unexpected {other:?}"),
    }
    let error = LimboError::ParseError("near oops".to_string());
    match runner.after_parse(ParseOutcome::Failed(error)) {
        RunnerAction::Fail(LimboError::ParseError(m)) => assert_eq!(m, "near oops"),
        other => panic!("unexpected {other:?}"),
    }
    match runner.next() {
        RunnerStep::Parse(s) => assert_eq!(s, ""),
        other => panic!("unexpected {other:?}"),
    }
    assert!(matches!(
        runner.after_parse(ParseOutcome::Nothing),
        RunnerAction::Finished
    ));
}

#[test]
fn bytes_that_are_no_text_are_reported_once() {
    let bytes = [0x53, 0xff];
    let expected = std::str::from_utf8(&bytes).unwrap_err();
    let mut runner = QueryRunner::new(&bytes);
    match runner.next() {
        RunnerStep::Fail(LimboError::ParseError(m)) => {
            assert_eq!(m, format!("invalid UTF-8 in SQL input: {expected}"))
        }
        other => panic!("unexpected {other:?}"),
    }
    match runner.next() {
        RunnerStep::Parse(s) => assert_eq!(s, ""),
        other => panic!("unexpected {other:?}"),
    }
}

#[test]
fn table_texts_are_replayed_without_the_database() {
    let sql = "CREATE TABLE main.t (a)";
    let stmt = PersistedSql::CreateTable {
        qualified: true,
        unqualified: "CREATE TABLE t (a)".to_string(),
    };
    assert_eq!(table_sql_for_replay(sql, &stmt).unwrap(), "CREATE TABLE t (a)");
    let stmt = PersistedSql::CreateTable {
        qualified: false,
        unqualified: "CREATE TABLE t(a)".to_string(),
    };
    assert_eq!(
        table_sql_for_replay("create table t(a) ", &stmt).unwrap(),
        "create table t(a) "
    );
    let stmt = PersistedSql::Other {
        printed: "None".to_string(),
    };
    match table_sql_for_replay("", &stmt) {
        Err(LimboError::Corrupt(m)) => {
            assert_eq!(m, "persisted table SQL is not CREATE TABLE: None")
        }
        other => panic!("unexpected {other:?}"),
    }
}

#[test]
fn schemas_have_a_catalog() {
    let pragmas = vec!["table_info".to_string()];
    let own = Table::BTree { root_page: 2 };
    let mut schema = Schema::new();
    schema.insert("t".to_string(), Table::BTree { root_page: 1 });
    schema.insert("t".to_string(), own);
    register_builtin_catalog(&mut schema, &pragmas, true, true, true);
    assert_eq!(
        schema.get("pragma_table_info"),
        Some(Table::Virtual(VirtualTable::Pragma {
            vtab_id: 0,
            is_droppable: false,
            innocuous: true
        }))
    );
    for name in [
        "json_each",
        "json_tree",
        "sqlite_dbpage",
        "btree_dump",
        "sqlite_turso_types",
    ] {
        assert_eq!(
            schema.get(name),
            Some(Table::Virtual(VirtualTable::Internal))
        );
    }
    assert_eq!(schema.get("t"), Some(own));
    assert_eq!(schema.get("pragma_"), None);
    let mut schema = Schema::new();
    register_builtin_catalog(&mut schema, &pragmas, false, false, false);
    assert!(schema.get("pragma_table_info").is_some());
    assert_eq!(schema.get("json_each"), None);
    assert_eq!(schema.get("sqlite_dbpage"), None);
    assert_eq!(schema.get("sqlite_turso_types"), None);
    assert_eq!(SqliteDialect.name(), "sqlite");
    let body = CreateTableBody::ColumnsAndConstraints {
        printed: "(a)".to_string(),
    };
    assert_eq!(
        SqliteDialect.format_table_sql("t", &body).unwrap(),
        "CREATE TABLE t (a)"
    );
    assert!(SqliteDialect
        .format_table_sql("t", &CreateTableBody::AsSelect)
        .is_err());
}
