use tursokit::pg::command::{
    answers_with_tag, command_tag, dropped_schema_file, ends_with_with_no_data,
    is_create_table_as, is_pg_non_query,
};
use tursokit::pg::server::{
    decode_hex, described_type, encode_value, error_info, is_readable_hex, parameter_name,
    parameter_place, pg_bytes_to_value, portal_value, FieldEncoding,
};
use tursokit::pg::types::{
    resolve_pg_type_for_column, scalar_pg_type_to_array_type, sqlite_type_to_pg_type,
    ColumnTypeInfo, ColumnTypeKind, PgType,
};
use tursokit::value::{Real, Value};

/// What a parameter is, with its number in double precision where it is one.
fn value(bytes: &[u8], pg_type: PgType) -> Result<Value, String> {
    let double = std::str::from_utf8(bytes)
        .ok()
        .and_then(|s| s.parse::<f64>().ok())
        .unwrap_or(0.0);
    pg_bytes_to_value(
        bytes,
        &pg_type,
        Real {
            bits: double.to_bits(),
        },
    )
}

fn number(f: f64) -> Value {
    Value::Real(Real { bits: f.to_bits() })
}

#[test]
fn test_pg_bytes_to_value_integer() {
    let val = value(b"42", PgType::Int4).unwrap();
    assert_eq!(val, Value::Integer(42));

    let val = value(b"-100", PgType::Int8).unwrap();
    assert_eq!(val, Value::Integer(-100));

    let val = value(b"0", PgType::Int2).unwrap();
    assert_eq!(val, Value::Integer(0));
}

#[test]
fn test_pg_bytes_to_value_float() {
    let val = value(b"3.25", PgType::Float8).unwrap();
    assert_eq!(val, number(3.25));

    let val = value(b"-0.5", PgType::Float4).unwrap();
    assert_eq!(val, number(-0.5));

    let val = value(b"1.23", PgType::Numeric).unwrap();
    assert_eq!(val, number(1.23));
}

#[test]
fn test_pg_bytes_to_value_bool() {
    let val = value(b"t", PgType::Bool).unwrap();
    assert_eq!(val, Value::Integer(1));

    let val = value(b"f", PgType::Bool).unwrap();
    assert_eq!(val, Value::Integer(0));

    let val = value(b"true", PgType::Bool).unwrap();
    assert_eq!(val, Value::Integer(1));

    let val = value(b"false", PgType::Bool).unwrap();
    assert_eq!(val, Value::Integer(0));
}

#[test]
fn test_pg_bytes_to_value_text() {
    let val = value(b"hello world", PgType::Text).unwrap();
    assert_eq!(val, Value::Text("hello world".to_owned()));

    let val = value(b"Alice", PgType::Varchar).unwrap();
    assert_eq!(val, Value::Text("Alice".to_owned()));
}

#[test]
fn test_pg_bytes_to_value_bytea() {
    let val = value(b"\\xDEADBEEF", PgType::Bytea).unwrap();
    assert_eq!(val, Value::Blob(vec![0xDE, 0xAD, 0xBE, 0xEF]));
}

#[test]
fn test_pg_bytes_to_value_unknown_type_as_text() {
    // Unknown types should be treated as text
    let val = value(b"some-uuid-value", PgType::Uuid).unwrap();
    assert_eq!(val, Value::Text("some-uuid-value".to_owned()));
}

#[test]
fn test_pg_bytes_to_value_integer_parse_error() {
    let result = value(b"not_a_number", PgType::Int4);
    assert!(result.is_err());
}

#[test]
fn test_pg_bytes_to_value_float_parse_error() {
    let result = value(b"not_a_float", PgType::Float8);
    assert!(result.is_err());
}

#[test]
fn test_pg_bytes_to_value_bool_invalid() {
    let result = value(b"maybe", PgType::Bool);
    assert!(result.is_err());
}

#[test]
fn test_decode_hex() {
    assert_eq!(
        decode_hex("DEADBEEF").unwrap(),
        vec![0xDE, 0xAD, 0xBE, 0xEF]
    );
    assert_eq!(decode_hex("00ff").unwrap(), vec![0x00, 0xFF]);
    assert_eq!(decode_hex("").unwrap(), Vec::<u8>::new());
    assert!(decode_hex("0").is_err()); // odd length
    assert!(decode_hex("GG").is_err()); // invalid hex
}

#[test]
fn test_sqlite_type_to_pg_type() {
    assert_eq!(sqlite_type_to_pg_type("INTEGER"), PgType::Int4);
    assert_eq!(sqlite_type_to_pg_type("INT"), PgType::Int4);
    assert_eq!(sqlite_type_to_pg_type("INT4"), PgType::Int4);
    assert_eq!(sqlite_type_to_pg_type("SMALLINT"), PgType::Int4);
    assert_eq!(sqlite_type_to_pg_type("BIGINT"), PgType::Int8);
    assert_eq!(sqlite_type_to_pg_type("INT8"), PgType::Int8);
    assert_eq!(sqlite_type_to_pg_type("REAL"), PgType::Float8);
    assert_eq!(sqlite_type_to_pg_type("TEXT"), PgType::Text);
    assert_eq!(sqlite_type_to_pg_type("BLOB"), PgType::Bytea);
    assert_eq!(sqlite_type_to_pg_type("BOOLEAN"), PgType::Bool);
    assert_eq!(sqlite_type_to_pg_type("TIMESTAMP"), PgType::Timestamp);
    assert_eq!(sqlite_type_to_pg_type("TIMESTAMPTZ"), PgType::Timestamptz);
    assert_eq!(sqlite_type_to_pg_type("DATE"), PgType::Date);
    assert_eq!(sqlite_type_to_pg_type("JSON"), PgType::Json);
    assert_eq!(sqlite_type_to_pg_type("JSONB"), PgType::Jsonb);
    assert_eq!(sqlite_type_to_pg_type("UUID"), PgType::Uuid);
    // Unknown types map to TEXT
    assert_eq!(sqlite_type_to_pg_type("UNKNOWN"), PgType::Text);
}

#[test]
fn test_unknown_type_inference() {
    // UNKNOWN type should infer integers from numeric-looking strings
    let val = value(b"42", PgType::Unknown).unwrap();
    assert!(matches!(val, Value::Integer(42)));

    // UNKNOWN type should infer floats
    let val = value(b"3.14", PgType::Unknown).unwrap();
    if let Value::Real(f) = val {
        #[allow(clippy::approx_constant)]
        let expected = 3.14;
        assert!((f64::from_bits(f.bits) - expected).abs() < 0.001);
    } else {
        panic!("Expected Float");
    }

    // UNKNOWN type should keep text for non-numeric strings
    let val = value(b"hello", PgType::Unknown).unwrap();
    assert!(matches!(val, Value::Text(_)));
}

#[test]
fn test_is_create_table_as() {
    assert!(is_create_table_as("CREATE TABLE T AS SELECT 1"));
    assert!(is_create_table_as("CREATE TEMP TABLE T AS SELECT 1"));
    assert!(is_create_table_as("CREATE UNLOGGED TABLE T AS SELECT 1"));
    assert!(is_create_table_as(
        "CREATE TABLE IF NOT EXISTS T AS SELECT 1"
    ));
    assert!(is_create_table_as("CREATE TABLE S.T AS SELECT 1"));
    assert!(is_create_table_as("CREATE TABLE T AS(SELECT 1)"));
    assert!(is_create_table_as("CREATE TABLE \"T\" AS SELECT 1"));

    assert!(!is_create_table_as("CREATE TABLE T (X INT)"));
    assert!(!is_create_table_as("CREATE INDEX I ON T (X)"));
    assert!(!is_create_table_as("CREATE VIEW V AS SELECT 1"));
    // Quoted name containing whitespace: `AS` is part of the name.
    assert!(!is_create_table_as("CREATE TABLE \"A AS B\" (X INT)"));
}

#[test]
fn test_ends_with_with_no_data() {
    assert!(ends_with_with_no_data(
        "CREATE TABLE T AS SELECT 1 WITH NO DATA"
    ));
    assert!(ends_with_with_no_data(
        "CREATE TABLE T AS SELECT 1 WITH  NO\nDATA ; "
    ));

    assert!(!ends_with_with_no_data("CREATE TABLE T AS SELECT 1"));
    assert!(!ends_with_with_no_data("SELECT 'WITH NO DATA'"));
}

#[test]
fn terminators_and_white_space_are_ignored_in_any_mix() {
    assert!(ends_with_with_no_data(
        "CREATE TABLE T AS SELECT 1 WITH NO DATA; ;"
    ));
    assert!(ends_with_with_no_data(
        "CREATE TABLE T AS SELECT 1 WITH NO DATA ;\t; \n"
    ));
    assert!(!ends_with_with_no_data("WITH NO DATA; X;"));
    assert!(!ends_with_with_no_data("; ;"));
}

#[test]
fn hex_errors_name_the_position() {
    assert_eq!(
        decode_hex("00zz"),
        Err("invalid hex at position 2: invalid digit found in string".to_string())
    );
    assert_eq!(decode_hex("000"), Err("odd-length hex string".to_string()));
    assert_eq!(decode_hex("+f"), Ok(vec![15]));
    assert!(is_readable_hex("00ff"));
    assert!(is_readable_hex("é"));
    assert!(!is_readable_hex("0éa"));
}

#[test]
fn parameter_errors_say_what_is_wrong() {
    assert_eq!(
        value(b"", PgType::Int4),
        Err("invalid integer parameter: cannot parse integer from empty string".to_string())
    );
    assert_eq!(
        value(b"9223372036854775808", PgType::Int8),
        Err("invalid integer parameter: number too large to fit in target type".to_string())
    );
    assert_eq!(
        value(b"-9223372036854775809", PgType::Int8),
        Err("invalid integer parameter: number too small to fit in target type".to_string())
    );
    assert_eq!(
        value(b"", PgType::Float8),
        Err("invalid float parameter: cannot parse float from empty string".to_string())
    );
    assert_eq!(
        value(b"x", PgType::Float8),
        Err("invalid float parameter: invalid float literal".to_string())
    );
    assert_eq!(
        value(b"maybe", PgType::Bool),
        Err("invalid boolean parameter: maybe".to_string())
    );
    assert_eq!(
        value(b"\\x0", PgType::Bytea),
        Err("invalid bytea hex parameter: odd-length hex string".to_string())
    );
    let invalid = [0x66, 0xff];
    let e = value(&invalid, PgType::Text).unwrap_err();
    let expected = std::str::from_utf8(&invalid).unwrap_err();
    assert_eq!(e, format!("invalid UTF-8 in parameter: {expected}"));
}

#[test]
fn parameters_without_a_type_are_guessed() {
    assert_eq!(value(b"TRUE", PgType::Unknown), Ok(Value::Integer(1)));
    assert_eq!(value(b"F", PgType::Unknown), Ok(Value::Integer(0)));
    assert_eq!(value(b"+7", PgType::Unknown), Ok(Value::Integer(7)));
    assert_eq!(value(b"1e3", PgType::Unknown), Ok(number(1000.0)));
    assert_eq!(value(b"raw", PgType::Bytea), Ok(Value::Blob(b"raw".to_vec())));
    let zero = Real { bits: 0 };
    assert_eq!(portal_value(None, Some(PgType::Int4), zero), Ok(Value::Null));
    assert_eq!(
        portal_value(Some(b"5".as_slice()), None, zero),
        Ok(Value::Integer(5))
    );
    assert_eq!(
        portal_value(Some(b"5".as_slice()), Some(PgType::Text), zero),
        Ok(Value::Text("5".to_string()))
    );
    assert_eq!(parameter_name(0), "$1");
    assert_eq!(parameter_name(9), "$10");
    assert_eq!(parameter_place(None, 3), 4);
    assert_eq!(parameter_place(Some(2), 3), 2);
    assert_eq!(described_type(None), PgType::Text);
}

#[test]
fn commands_are_tagged() {
    let cases: &[(&str, &str, Option<u32>, Option<usize>)] = &[
        ("insert into t values (1)", "INSERT", Some(0), Some(7)),
        ("  UPDATE t SET a = 1", "UPDATE", None, Some(7)),
        ("truncate t", "DELETE", None, Some(7)),
        ("CREATE VIEW v AS SELECT 1", "CREATE VIEW", None, None),
        ("CREATE INDEX i ON t (a)", "CREATE INDEX", None, None),
        ("create schema s", "CREATE SCHEMA", None, None),
        ("create table t as select 1", "SELECT", None, Some(7)),
        (
            "create table t as select 1 with no data;",
            "CREATE TABLE AS",
            None,
            None,
        ),
        ("create table t (a int)", "CREATE TABLE", None, None),
        ("drop schema s", "DROP SCHEMA", None, None),
        ("drop table t", "DROP TABLE", None, None),
        ("start transaction", "BEGIN", None, None),
        ("release x", "RELEASE", None, None),
        ("copy t from stdin", "COPY", None, Some(7)),
        ("comment on table t is 'x'", "COMMENT", None, None),
        ("with a as (select 1) select * into b from a", "SELECT", None, Some(7)),
        ("vacuum", "OK", None, None),
    ];
    for (sql, command, oid, rows) in cases {
        let tag = command_tag(sql, 7);
        assert_eq!(tag.command, *command, "{sql}");
        assert_eq!(tag.oid, *oid, "{sql}");
        assert_eq!(tag.rows, *rows, "{sql}");
    }
}

#[test]
fn some_queries_are_answered_with_tags() {
    assert!(is_pg_non_query(" copy t to stdout"));
    assert!(is_pg_non_query("REFRESH MATERIALIZED VIEW v"));
    assert!(!is_pg_non_query("select 1"));
    assert!(answers_with_tag(0, "select 1"));
    assert!(!answers_with_tag(1, "select 1"));
    assert!(answers_with_tag(1, "comment on table t is 'x'"));
}

#[test]
fn dropped_schemas_leave_a_file() {
    let file = |sql: &str| dropped_schema_file("/tmp/x.db", sql);
    assert_eq!(
        file(" DROP SCHEMA Sales CASCADE"),
        Some("turso-postgres-schema-sales.db".to_string())
    );
    assert_eq!(
        file("drop schema if exists \"sales\""),
        Some("turso-postgres-schema-sales.db".to_string())
    );
    assert_eq!(file("drop schema public"), None);
    assert_eq!(file("drop schema"), None);
    assert_eq!(file("drop table t"), None);
    assert_eq!(dropped_schema_file(":memory:", "drop schema s"), None);
}

#[test]
fn columns_have_wire_types() {
    let info = |kind, declared: &str, base: Option<&str>, array_dimensions| {
        Some(ColumnTypeInfo {
            kind,
            declared_name: declared.to_string(),
            base_type: base.map(|s| s.to_string()),
            array_dimensions,
        })
    };
    assert_eq!(resolve_pg_type_for_column(&None), PgType::Text);
    assert_eq!(
        resolve_pg_type_for_column(&info(ColumnTypeKind::Struct, "point", None, 0)),
        PgType::Jsonb
    );
    assert_eq!(
        resolve_pg_type_for_column(&info(ColumnTypeKind::Custom, "age", Some("integer"), 0)),
        PgType::Int4
    );
    assert_eq!(
        resolve_pg_type_for_column(&info(ColumnTypeKind::Primitive, "varchar(20)", None, 0)),
        PgType::Varchar
    );
    assert_eq!(
        resolve_pg_type_for_column(&info(ColumnTypeKind::Primitive, "bigint", None, 1)),
        PgType::Int8Array
    );
    assert_eq!(
        scalar_pg_type_to_array_type(&PgType::Varchar),
        PgType::TextArray
    );
    assert_eq!(sqlite_type_to_pg_type("numeric(10,2)"), PgType::Numeric);
}

#[test]
fn values_go_out_by_the_type_of_their_column() {
    assert!(matches!(
        encode_value(&Value::Integer(1), &PgType::Bool),
        FieldEncoding::Boolean(true)
    ));
    assert!(matches!(
        encode_value(&Value::Integer(1), &PgType::Int4),
        FieldEncoding::Integer(1)
    ));
    let text = |s: &str, t: PgType| encode_value(&Value::Text(s.to_string()), &t);
    match text("2024-01-01 00:00:00", PgType::Timestamptz) {
        FieldEncoding::Text(s) => assert_eq!(s, "2024-01-01 00:00:00+00"),
        _ => panic!("expected text"),
    }
    match text("2024-01-01 00:00:00-00", PgType::Timestamptz) {
        FieldEncoding::Text(s) => assert_eq!(s, "2024-01-01 00:00:00-00"),
        _ => panic!("expected text"),
    }
    match text("2024-01-01 00:00:00", PgType::Timestamp) {
        FieldEncoding::Text(s) => assert_eq!(s, "2024-01-01 00:00:00"),
        _ => panic!("expected text"),
    }
    match text("{1,2}", PgType::Int4Array) {
        FieldEncoding::PlainText(s) => assert_eq!(s, "{1,2}"),
        _ => panic!("expected plain text"),
    }
    match text("{a,b}", PgType::OtherArray) {
        FieldEncoding::PlainText(s) => assert_eq!(s, "{a,b}"),
        _ => panic!("expected plain text"),
    }
    assert!(matches!(
        text("a", PgType::Other),
        FieldEncoding::Text(_)
    ));
    assert!(matches!(
        encode_value(&Value::Null, &PgType::Int4),
        FieldEncoding::Null
    ));
    let report = error_info("boom");
    assert_eq!(report.severity, "ERROR");
    assert_eq!(report.code, "XX000");
    assert_eq!(report.message, "boom");
}
