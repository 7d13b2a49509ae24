use hegel::generators as gs;
use hegel::{Hegel, Settings, TestCase};

use tursokit::differential::draws::{Draw, DrawKind, Draws};
use tursokit::differential::ops::{
    create_table_sql, gen_batch_sql, gen_dynamic_cols, gen_error_sql, gen_op, gen_ops,
    gen_values_for_table, table_name, Op, TableCols,
};
use tursokit::differential::spec::{
    is_usable, spec_col_types, spec_max_dynamic_cols, spec_max_ops, spec_num_ops, spec_num_tables,
    spec_num_values, values_are_usable, Fill, OpSpec, OpsSpec, Repetition, ScaledRange, ValueSpec,
};
use tursokit::differential::values::{gen_value, Val};
use tursokit::value::Real;

fn number(f: f64) -> Real {
    Real { bits: f.to_bits() }
}

fn kind(id: &str) -> ValueSpec {
    ValueSpec {
        id: id.to_string(),
        random: None,
        random_scaled: None,
        random_string_max_len: None,
        random_bytes_max_len: None,
        oneof: vec![],
        oneof_float: vec![],
        literal: None,
        literal_float: None,
        literal_bytes: false,
        fill_bytes: None,
        repeat_char: None,
    }
}

fn op(id: &str) -> OpSpec {
    OpSpec {
        id: id.to_string(),
        sql: None,
        named_params: vec![],
    }
}

const KINDS: [&str; 17] = [
    "null",
    "integer",
    "float",
    "ascii",
    "blob",
    "int_extreme",
    "float_extreme",
    "empty_string",
    "empty_blob",
    "large_or_unicode",
    "negative_zero",
    "zero_blob",
    "high_bit_blob",
    "large_blob",
    "large_string",
    "sql_chars_string",
    "null_bytes_blob",
];

const OPS: [&str; 28] = [
    "create",
    "insert",
    "select",
    "select_value",
    "begin",
    "commit",
    "rollback",
    "invalid",
    "param",
    "create_dynamic",
    "insert_returning",
    "delete_returning",
    "update_returning",
    "named_param",
    "numbered_param",
    "insert_affected",
    "delete_affected",
    "update_affected",
    "insert_rowid",
    "batch",
    "select_limit",
    "select_count",
    "select_expr",
    "error_check",
    "prepared_reuse",
    "create_trigger",
    "transaction_workflow",
    "error_in_transaction",
];

fn vocabulary() -> OpsSpec {
    let mut values: Vec<ValueSpec> = KINDS.iter().map(|id| kind(id)).collect();
    values[1].random = Some((-10, 10));
    values[2].random_scaled = Some(ScaledRange {
        min: -100,
        max: 100,
        divisor: number(8.0),
    });
    values[3].random_string_max_len = Some(3);
    values[4].random_bytes_max_len = Some(2);
    values[5].oneof = vec![i64::MIN, i64::MAX];
    values[6].oneof_float = vec![number(1e308), number(-1e308)];
    values[7].literal = Some(String::new());
    values[10].literal_float = Some(number(-0.0));
    values[11].fill_bytes = Some(Fill { byte: 0, len: 4 });
    values[12].fill_bytes = Some(Fill {
        byte: 0xff,
        len: 3,
    });
    values[13].fill_bytes = Some(Fill { byte: 7, len: 1000 });
    values[14].repeat_char = Some(Repetition {
        text: "ab".to_string(),
        len: 3,
    });
    values[15].literal = Some("'; --".to_string());
    values[16].literal_bytes = true;
    let mut ops: Vec<OpSpec> = OPS.iter().map(|id| op(id)).collect();
    ops[7].sql = Some("SELEC 1".to_string());
    ops[8].sql = Some("SELECT ?, ?".to_string());
    ops[13].named_params = vec![":a".to_string(), "@b".to_string()];
    OpsSpec {
        num_tables: 3,
        max_ops_per_case: 4,
        max_dynamic_cols: 3,
        col_types: vec!["INTEGER".to_string(), "TEXT".to_string()],
        error_sqls: vec![
            "SELECT * FROM missing_{prefix}".to_string(),
            "INSERT {prefix}{prefix}".to_string(),
        ],
        unicode_options: vec!["ä".to_string(), "日本".to_string()],
        values,
        ops,
    }
}

fn tape(draws: Vec<Draw>) -> Draws {
    let mut r = Draws::new();
    for draw in draws {
        r.add(draw);
    }
    r
}

fn value(draws: Vec<Draw>) -> Val {
    let count = draws.len();
    let mut draws = tape(draws);
    let v = gen_value(&vocabulary(), &mut draws).unwrap();
    assert_eq!(draws.at, count);
    v
}

fn operation(draws: Vec<Draw>, columns: &mut TableCols) -> Op {
    let count = draws.len();
    let mut draws = tape(draws);
    let r = gen_op(&vocabulary(), &mut draws, columns, 9).unwrap();
    assert_eq!(draws.at, count);
    r
}

fn nulls(count: usize) -> Vec<Draw> {
    (0..count).map(|_| Draw::U8(0)).collect()
}

#[test]
fn a_complete_vocabulary_is_usable() {
    let v = vocabulary();
    assert!(is_usable(&v));
    assert_eq!(spec_num_tables(&v), 3);
    assert_eq!(spec_max_ops(&v), 4);
    assert_eq!(spec_max_dynamic_cols(&v), 3);
    assert_eq!(spec_num_values(&v), 17);
    assert_eq!(spec_num_ops(&v), 28);
    assert_eq!(*spec_col_types(&v), ["INTEGER", "TEXT"]);

    let mut v = vocabulary();
    v.num_tables = 256;
    assert!(!is_usable(&v));
    let mut v = vocabulary();
    v.values[1].random = None;
    assert!(!is_usable(&v));
    let mut v = vocabulary();
    v.values[1].random = Some((i64::MIN, 0));
    assert!(!is_usable(&v));
    let mut v = vocabulary();
    v.values[15].literal = None;
    assert!(!is_usable(&v));
    let mut v = vocabulary();
    v.ops[7].sql = None;
    assert!(!is_usable(&v));
    let mut v = vocabulary();
    v.ops[0].id = "vacuum".to_string();
    assert!(!is_usable(&v));
}

#[test]
fn a_vocabulary_needs_what_its_operations_use() {
    let full = vocabulary();
    let begin = full.ops.into_iter().nth(4).unwrap();
    let v = OpsSpec {
        num_tables: 0,
        max_ops_per_case: 2,
        max_dynamic_cols: 0,
        col_types: vec![],
        error_sqls: vec![],
        unicode_options: vec![],
        values: vec![],
        ops: vec![begin],
    };
    assert!(is_usable(&v));
    assert!(!values_are_usable(&v));
    let mut draws = tape(vec![Draw::U8(0), Draw::U8(9)]);
    let ops = gen_ops(&v, &mut draws, 1).unwrap();
    assert_eq!(ops.len(), 1);
    assert!(matches!(ops[0], Op::BeginTx));
    let mut v = v;
    v.ops.push(op("insert"));
    assert!(!is_usable(&v));
    assert!(values_are_usable(&vocabulary()));
}

#[test]
fn integers_lie_in_their_range() {
    for v in [i64::MIN, -22, -1, 0, 1, 20, 21, i64::MAX] {
        match value(vec![Draw::U8(1), Draw::I64(v)]) {
            Val::Int(n) => {
                assert!((-10..=10).contains(&n));
                assert_eq!(n, -10 + v.rem_euclid(21));
            }
            _ => panic!("expected an integer"),
        }
    }
}

#[test]
fn every_kind_of_value_is_made() {
    assert!(matches!(value(vec![Draw::U8(0)]), Val::Null));
    assert!(matches!(value(vec![Draw::U8(17)]), Val::Null));
    match value(vec![Draw::U8(2), Draw::I32(-1)]) {
        Val::Quotient { numerator, divisor } => {
            assert_eq!(numerator, -100 + (-1i32).rem_euclid(201));
            assert_eq!(divisor, number(8.0));
        }
        _ => panic!("expected a quotient"),
    }
    match value(vec![Draw::U8(3), Draw::Text("aébcd".to_string())]) {
        Val::Text(s) => assert_eq!(s, "aéb"),
        _ => panic!("expected a text"),
    }
    match value(vec![Draw::U8(4), Draw::Bytes(vec![1, 2, 3])]) {
        Val::Blob(b) => assert_eq!(b, [1, 2]),
        _ => panic!("expected bytes"),
    }
    match value(vec![Draw::U8(5), Draw::U8(3)]) {
        Val::Int(n) => assert_eq!(n, i64::MAX),
        _ => panic!("expected an integer"),
    }
    match value(vec![Draw::U8(6), Draw::U8(0)]) {
        Val::Float(f) => assert_eq!(f, number(1e308)),
        _ => panic!("expected a number"),
    }
    match value(vec![Draw::U8(9), Draw::U8(4)]) {
        Val::Blob(b) => assert_eq!(b, vec![0xab; 256]),
        _ => panic!("expected bytes"),
    }
    match value(vec![Draw::U8(9), Draw::U8(3)]) {
        Val::Text(s) => assert_eq!(s, "日本"),
        _ => panic!("expected a text"),
    }
    match value(vec![Draw::U8(10)]) {
        Val::Float(f) => assert!(f.is_sign_negative() && !f.is_infinite()),
        _ => panic!("expected a number"),
    }
    match value(vec![Draw::U8(12)]) {
        Val::Blob(b) => assert_eq!(b, [0xff, 0xff, 0xff]),
        _ => panic!("expected bytes"),
    }
    match value(vec![Draw::U8(14)]) {
        Val::Text(s) => assert_eq!(s, "ababab"),
        _ => panic!("expected a text"),
    }
    match value(vec![Draw::U8(15)]) {
        Val::Text(s) => assert_eq!(s, "'; --"),
        _ => panic!("expected a text"),
    }
    match value(vec![Draw::U8(16)]) {
        Val::Blob(b) => assert!(b.is_empty()),
        _ => panic!("expected bytes"),
    }
}

#[test]
fn the_next_draw_is_named_where_the_tape_ends() {
    let v = vocabulary();
    let next = |draws: Vec<Draw>| match gen_value(&v, &mut tape(draws)) {
        Err(kind) => kind,
        Ok(_) => panic!("the tape is long enough"),
    };
    assert_eq!(next(vec![]), DrawKind::U8);
    assert_eq!(next(vec![Draw::U8(1)]), DrawKind::I64);
    assert_eq!(next(vec![Draw::U8(2)]), DrawKind::I32);
    assert_eq!(next(vec![Draw::U8(3)]), DrawKind::Text);
    assert_eq!(next(vec![Draw::U8(4)]), DrawKind::Bytes);
    assert_eq!(next(vec![Draw::U8(1), Draw::U8(1)]), DrawKind::I64);
}

#[test]
fn names_and_statements_are_made() {
    let v = vocabulary();
    assert_eq!(
        table_name(&v, &mut tape(vec![Draw::U8(4)]), 12).unwrap(),
        "t_12_1"
    );
    assert_eq!(
        gen_batch_sql(&v, &mut tape(vec![Draw::U8(5), Draw::I32(-1002)]), 7).unwrap(),
        "CREATE TABLE IF NOT EXISTS t_7_2 (a INTEGER, b TEXT); \
         INSERT INTO t_7_2 VALUES (-1, 'batch')"
    );
    assert_eq!(
        gen_error_sql(&v, &mut tape(vec![Draw::U8(2)]), 40).unwrap(),
        "SELECT * FROM missing_40"
    );
    assert_eq!(
        gen_error_sql(&v, &mut tape(vec![Draw::U8(1)]), 40).unwrap(),
        "INSERT 4040"
    );
    let cols = gen_dynamic_cols(
        &v,
        &mut tape(vec![Draw::U8(4), Draw::U8(1), Draw::U8(2)]),
    )
    .unwrap();
    let expected = [
        ("c0".to_string(), "TEXT".to_string()),
        ("c1".to_string(), "INTEGER".to_string()),
    ];
    assert_eq!(cols, expected);
    assert_eq!(
        create_table_sql("t", &cols),
        "CREATE TABLE IF NOT EXISTS t (c0 TEXT, c1 INTEGER)"
    );
    assert_eq!(create_table_sql("t", &[]), "CREATE TABLE IF NOT EXISTS t ()");
}

#[test]
fn rows_have_the_columns_of_their_table() {
    let v = vocabulary();
    let mut columns = TableCols::new();
    columns.insert("t", 3);
    columns.insert("wide", 9);
    let count = |table: &str| {
        let mut draws = tape(nulls(5));
        let row = gen_values_for_table(&v, &mut draws, table, &columns).unwrap();
        assert_eq!(draws.at, 5);
        row.len()
    };
    assert_eq!(count("t"), 3);
    assert_eq!(count("unknown"), 2);
    assert_eq!(count("wide"), 5);
}

#[test]
fn created_tables_are_remembered() {
    let mut columns = TableCols::new();
    match operation(vec![Draw::U8(0), Draw::U8(2)], &mut columns) {
        Op::CreateTable { name, cols } => {
            assert_eq!(name, "t_9_2");
            assert_eq!(cols[0], ("a".to_string(), "INTEGER".to_string()));
            assert_eq!(cols[1], ("b".to_string(), "TEXT".to_string()));
        }
        _ => panic!("expected a table"),
    }
    assert_eq!(columns.get("t_9_2"), Some(2));
    // The columns of a dynamic table are drawn before its name.
    let draws = vec![
        Draw::U8(9),
        Draw::U8(2),
        Draw::U8(0),
        Draw::U8(0),
        Draw::U8(1),
        Draw::U8(2),
    ];
    match operation(draws, &mut columns) {
        Op::CreateTableDynamic { name, cols } => {
            assert_eq!(name, "t_9_2");
            assert_eq!(cols.len(), 3);
        }
        _ => panic!("expected a table"),
    }
    assert_eq!(columns.get("t_9_2"), Some(3));
    assert_eq!(columns.get("t_9_0"), None);
    let mut draws = vec![Draw::U8(1), Draw::U8(2)];
    draws.extend(nulls(5));
    match operation(draws, &mut columns) {
        Op::Insert { values, .. } => assert_eq!(values.len(), 3),
        _ => panic!("expected a row"),
    }
}

#[test]
fn every_kind_of_operation_is_made() {
    let mut columns = TableCols::new();
    let mut make = |variant: u8, rest: Vec<Draw>| {
        let mut draws = vec![Draw::U8(variant)];
        draws.extend(rest);
        operation(draws, &mut columns)
    };
    match make(3, vec![Draw::I32(-1003)]) {
        Op::SelectValue { expr } => assert_eq!(expr, "-2"),
        _ => panic!("expected a value"),
    }
    assert!(matches!(make(4, vec![]), Op::BeginTx));
    assert!(matches!(make(5 + 28, vec![]), Op::CommitTx));
    assert!(matches!(make(6, vec![]), Op::RollbackTx));
    match make(7, vec![]) {
        Op::InvalidSQL { sql } => assert_eq!(sql, "SELEC 1"),
        _ => panic!("expected a statement"),
    }
    match make(8, nulls(2)) {
        Op::Param { sql, params } => {
            assert_eq!(sql, "SELECT ?, ?");
            assert_eq!(params.len(), 2);
        }
        _ => panic!("expected parameters"),
    }
    assert!(matches!(make(10, nulls(6)), Op::InsertReturning { .. }));
    assert!(matches!(make(11, nulls(1)), Op::DeleteReturning { .. }));
    assert!(matches!(make(12, nulls(2)), Op::UpdateReturning { .. }));
    match make(13, nulls(2)) {
        Op::NamedParam { values } => {
            assert_eq!(values[0].0, ":a");
            assert_eq!(values[1].0, "@b");
        }
        _ => panic!("expected parameters"),
    }
    assert!(matches!(make(14, nulls(2)), Op::NumberedParam { .. }));
    assert!(matches!(make(15, nulls(6)), Op::InsertAffected { .. }));
    assert!(matches!(make(16, nulls(1)), Op::DeleteAffected { .. }));
    assert!(matches!(make(17, nulls(2)), Op::UpdateAffected { .. }));
    assert!(matches!(make(18, nulls(6)), Op::InsertRowid { .. }));
    assert!(matches!(
        make(19, vec![Draw::U8(0), Draw::I32(0)]),
        Op::Batch { .. }
    ));
    assert!(matches!(make(20, nulls(1)), Op::SelectLimit { .. }));
    assert!(matches!(make(21, nulls(1)), Op::SelectCount { .. }));
    assert!(matches!(make(22, nulls(1)), Op::SelectExpr { .. }));
    assert!(matches!(make(23, nulls(1)), Op::ErrorCheck { .. }));
    match make(24, nulls(6)) {
        Op::PreparedReuse { params_sets } => {
            assert_eq!(params_sets.len(), 3);
            assert!(params_sets.iter().all(|set| set.len() == 2));
        }
        _ => panic!("expected parameters"),
    }
    assert!(matches!(make(25, nulls(1)), Op::CreateTrigger { .. }));
}

#[test]
fn transactions_hold_simple_operations() {
    let mut columns = TableCols::new();
    let draws = vec![
        Draw::U8(26),
        Draw::U8(6),
        // A table, and one row of it that is read.
        Draw::U8(13),
        Draw::U8(1),
        Draw::U8(2),
        Draw::U8(1),
        Draw::U8(2),
    ];
    match operation(draws, &mut columns) {
        Op::TransactionWorkflow { inner_ops, commit } => {
            assert_eq!(inner_ops.len(), 2);
            assert!(matches!(inner_ops[0], Op::CreateTable { .. }));
            assert!(matches!(inner_ops[1], Op::Select { .. }));
            assert!(commit);
        }
        _ => panic!("expected a transaction"),
    }
    assert_eq!(columns.get("t_9_1"), Some(2));
    let draws = vec![
        Draw::U8(27),
        Draw::U8(7),
        Draw::U8(0),
        Draw::U8(0),
        Draw::U8(3),
        Draw::I32(5),
    ];
    match operation(draws, &mut columns) {
        Op::ErrorInTransaction {
            good_op,
            bad_sql,
            recovery_op,
        } => {
            assert!(matches!(*good_op, Op::SelectLimit { .. }));
            assert_eq!(bad_sql, "SELECT * FROM missing_9");
            assert!(matches!(*recovery_op, Op::SelectValue { .. }));
        }
        _ => panic!("expected a transaction"),
    }
}

#[test]
fn workloads_are_short() {
    let v = vocabulary();
    let mut draws = tape(vec![
        Draw::U8(5),
        Draw::U8(0),
        Draw::U8(1),
        Draw::U8(4),
        Draw::U8(6),
    ]);
    let ops = gen_ops(&v, &mut draws, 1).unwrap();
    assert_eq!(ops.len(), 2);
    assert!(matches!(ops[0], Op::CreateTable { .. }));
    assert!(matches!(ops[1], Op::BeginTx));
    assert_eq!(draws.at, 4);
    match gen_ops(&v, &mut tape(vec![Draw::U8(3), Draw::U8(4)]), 1) {
        Err(kind) => assert_eq!(kind, DrawKind::U8),
        Ok(_) => panic!("the tape is too short"),
    }
}

fn draw(tc: &TestCase, kind: DrawKind) -> Draw {
    match kind {
        DrawKind::U8 => Draw::U8(tc.draw(gs::integers::<u8>())),
        DrawKind::I32 => Draw::I32(tc.draw(gs::integers::<i32>())),
        DrawKind::I64 => Draw::I64(tc.draw(gs::integers::<i64>())),
        DrawKind::Text => Draw::Text(tc.draw(gs::text())),
        DrawKind::Bytes => Draw::Bytes(tc.draw(gs::vecs(gs::integers::<u8>()))),
    }
}

#[test]
fn drawn_workloads_are_complete() {
    let v = vocabulary();
    let settings = Settings::new().test_cases(20).database(None);
    Hegel::new(|tc: TestCase| {
        let mut draws = Draws::new();
        let ops = loop {
            match gen_ops(&v, &mut draws, 1) {
                Ok(ops) => break ops,
                Err(kind) => draws.add(draw(&tc, kind)),
            }
        };
        assert!((1..=4).contains(&ops.len()));
        // Every choice that was made is used.
        assert_eq!(draws.at, draws.tape.len());
    })
    .settings(settings)
    .run();
}

#[test]
fn more_choices_change_nothing() {
    let v = vocabulary();
    let choices = || vec![Draw::U8(5), Draw::U8(0), Draw::U8(1), Draw::U8(4)];
    let mut short = tape(choices());
    let mut longer = tape(choices());
    longer.add(Draw::I32(7));
    longer.add(Draw::Text("x".to_string()));
    let ops = gen_ops(&v, &mut short, 1).unwrap();
    let again = gen_ops(&v, &mut longer, 1).unwrap();
    assert_eq!(ops.len(), 2);
    assert_eq!(format!("{ops:?}"), format!("{again:?}"));
    assert_eq!((short.at, longer.at), (4, 4));
}
