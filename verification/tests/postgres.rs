use tursokit::error::LimboError;
use tursokit::pg::catalog::{
    pg_get_constraintdef, pg_get_indexdef, ref_act_to_char, ref_act_to_sql, user_tables_sorted,
    CatalogIndex, CatalogTable, ForeignKey, RefAct, UniqueSet,
};
use tursokit::pg::dbz::{expand, Template};
use tursokit::pg::functions::{
    exec_pg_format_type, exec_scalar, quote_text, resolve_scalar, ScalarContext, ScalarOutcome,
};
use tursokit::pg::input::{parse_timestamp_prefix, split_pg_type, validate_pg_input, InputFacts};
use tursokit::pg::json::{is_valid_json, validate_json_braces};
use tursokit::pg::number::{lay_out_number, to_char_format, Digits};
use tursokit::translate::expr::{exprs_are_equivalent, Expr, ExprList};
use tursokit::value::{Real, Value};

fn chars(s: &str) -> Vec<char> {
    s.chars().collect()
}

fn facts(input: &str) -> InputFacts {
    let trimmed = input.trim();
    let address = trimmed.split('/').next().unwrap();
    InputFacts {
        real_overflows: trimmed.parse::<f32>().is_ok_and(|v| v.is_infinite()),
        double_overflows: trimmed.parse::<f64>().is_ok_and(|v| v.is_infinite()),
        is_address: address.parse::<core::net::IpAddr>().is_ok(),
    }
}

fn valid(input: &str, pg_type: &str) -> bool {
    validate_pg_input(input, pg_type, facts(input)).is_none()
}

fn refusal(input: &str, pg_type: &str) -> (String, String) {
    validate_pg_input(input, pg_type, facts(input)).unwrap()
}

fn pair(message: &str, code: &str) -> (String, String) {
    (message.to_string(), code.to_string())
}

fn strings(v: &[&str]) -> Vec<String> {
    v.iter().map(|s| s.to_string()).collect()
}

fn table(name: &str) -> CatalogTable {
    CatalogTable {
        name: name.to_string(),
        is_btree: true,
        primary_key_columns: vec![],
        unique_sets: vec![],
        foreign_keys: vec![],
        check_constraints: vec![],
        indexes: vec![],
    }
}

fn index(name: &str, unique: bool, ephemeral: bool) -> CatalogIndex {
    CatalogIndex {
        name: name.to_string(),
        unique,
        ephemeral,
        columns: strings(&["a", "lower(b)"]),
        where_clause: None,
    }
}

fn tables() -> Vec<CatalogTable> {
    let mut orders = table("orders");
    orders.primary_key_columns = strings(&["id"]);
    orders.foreign_keys = vec![ForeignKey {
        child_columns: strings(&["user_id"]),
        parent_table: "users".to_string(),
        parent_columns: strings(&["id"]),
        on_update: RefAct::SetNull,
        on_delete: RefAct::Cascade,
    }];
    orders.check_constraints = strings(&["total > 0"]);
    let mut partial = index("orders_total", false, false);
    partial.where_clause = Some("total > 10".to_string());
    orders.indexes = vec![index("hidden", false, true), partial];
    let mut users = table("users");
    users.primary_key_columns = strings(&["id", "email"]);
    users.unique_sets = vec![
        UniqueSet {
            columns: strings(&["id", "email"]),
            is_primary_key: true,
        },
        UniqueSet {
            columns: strings(&["name"]),
            is_primary_key: false,
        },
    ];
    users.indexes = vec![index("users_name", true, false)];
    let mut view = table("a_view");
    view.is_btree = false;
    vec![users, table("sqlite_schema"), view, orders, table("pg_class")]
}

fn context() -> ScalarContext {
    let tables = tables();
    let order = user_tables_sorted(&tables);
    ScalarContext {
        database: "main".to_string(),
        engine_version: "1.2.3".to_string(),
        pid: 77,
        tables,
        order,
        first_text: "7".to_string(),
        first_identifier: "\"My Table\"".to_string(),
        args_equal: true,
        facts: InputFacts {
            real_overflows: false,
            double_overflows: false,
            is_address: false,
        },
    }
}

fn scalar(name: &str, args: Vec<Value>) -> Value {
    match exec_scalar(name, &args, &context()) {
        Ok(ScalarOutcome::Value(v)) => v,
        Ok(ScalarOutcome::FormatNumber(_)) => panic!("a format"),
        Err(e) => panic!("{e:?}"),
    }
}

fn text(s: &str) -> Value {
    Value::Text(s.to_string())
}

/// Formats a number as the number format asks for.
fn to_char(n: f64, format: &str) -> String {
    let f = to_char_format(format);
    match f.digits() {
        Digits::Unformatted => format!("{n}"),
        Digits::Whole => lay_out_number(f, n < 0.0, &format!("{}", n.abs() as i64)),
        Digits::Rounded(places) => lay_out_number(f, n < 0.0, &format!("{:.*}", places, n.abs())),
    }
}

#[test]
fn scalar_functions_are_resolved_by_name_and_arity() {
    assert!(resolve_scalar("quote_ident", 1));
    assert!(!resolve_scalar("quote_ident", 2));
    assert!(resolve_scalar("format_type", 1));
    assert!(resolve_scalar("format_type", 2));
    assert!(!resolve_scalar("format_type", 3));
    assert!(!resolve_scalar("pg_get_expr", 1));
    assert!(resolve_scalar("pg_get_expr", 3));
    assert!(resolve_scalar("version", 0));
    assert!(!resolve_scalar("version", 1));
    assert!(!resolve_scalar("Version", 0));
    assert!(!resolve_scalar("no_such_function", 0));
}

#[test]
fn resolved_functions_can_be_executed() {
    let names = [
        ("pg_get_userbyid", 1),
        ("pg_table_is_visible", 1),
        ("pg_relation_is_publishable", 1),
        ("pg_get_constraintdef", 1),
        ("pg_get_expr", 2),
        ("to_char", 2),
        ("booleq", 2),
        ("current_schema", 0),
    ];
    for (name, n) in names {
        assert!(resolve_scalar(name, n));
        let args: Vec<Value> = (0..n).map(|_| Value::Null).collect();
        assert!(exec_scalar(name, &args, &context()).is_ok());
    }
}

#[test]
fn scalar_functions_have_their_values() {
    assert_eq!(scalar("pg_get_userbyid", vec![Value::Integer(10)]), text("turso"));
    assert_eq!(
        scalar("pg_type_is_visible", vec![Value::Integer(10)]),
        Value::Integer(1)
    );
    assert_eq!(
        scalar("pg_encoding_to_char", vec![Value::Integer(6)]),
        text("UTF8")
    );
    assert_eq!(
        scalar("pg_encoding_to_char", vec![Value::Null]),
        text("SQL_ASCII")
    );
    assert_eq!(
        scalar("version", vec![]),
        text("PostgreSQL 16.6 (Turso v1.2.3)")
    );
    assert_eq!(scalar("current_database", vec![]), text("main"));
    assert_eq!(scalar("current_schema", vec![]), text("public"));
    assert_eq!(scalar("pg_backend_pid", vec![]), Value::Integer(77));
    assert_eq!(scalar("quote_ident", vec![text("My Table")]), text("\"My Table\""));
    assert_eq!(scalar("quote_ident", vec![Value::Null]), Value::Null);
    assert_eq!(
        scalar("booleq", vec![Value::Integer(1), Value::Integer(1)]),
        Value::Integer(1)
    );
    assert_eq!(
        scalar("boolne", vec![Value::Integer(1), Value::Integer(1)]),
        Value::Integer(0)
    );
    assert_eq!(
        scalar("col_description", vec![Value::Integer(1), Value::Integer(1)]),
        Value::Null
    );
}

#[test]
fn unknown_functions_are_refused() {
    match exec_scalar("nothing", &vec![], &context()) {
        Err(LimboError::ParseError(m)) => assert_eq!(m, "no such function: nothing"),
        _ => panic!("expected a parse error"),
    }
}

#[test]
fn literals_are_quoted() {
    assert_eq!(quote_text("it's"), "'it''s'");
    assert_eq!(quote_text("a\\b'c"), "E'a\\\\b''c'");
    assert_eq!(scalar("quote_literal", vec![text("x")]), text("'x'"));
    assert_eq!(scalar("quote_literal", vec![Value::Integer(7)]), text("'7'"));
    assert_eq!(scalar("quote_literal", vec![Value::Null]), Value::Null);
}

#[test]
fn types_are_formatted() {
    assert_eq!(exec_pg_format_type(23, -1), "integer");
    assert_eq!(exec_pg_format_type(1043, -1), "character varying");
    assert_eq!(exec_pg_format_type(1043, 4), "character varying");
    assert_eq!(exec_pg_format_type(1043, 24), "character varying(20)");
    assert_eq!(exec_pg_format_type(1042, 5), "character(1)");
    assert_eq!(exec_pg_format_type(1700, (10 << 16) + 2 + 4), "numeric(10,2)");
    assert_eq!(exec_pg_format_type(1700, 0), "numeric");
    assert_eq!(exec_pg_format_type(1184, -1), "timestamp with time zone");
    assert_eq!(exec_pg_format_type(999, -1), "unknown");
    assert_eq!(
        scalar("format_type", vec![Value::Integer(25)]),
        text("text")
    );
}

#[test]
fn only_numbers_are_formatted() {
    let format = |v: Value| exec_scalar("to_char", &vec![v, text("999")], &context()).unwrap();
    assert!(matches!(
        format(Value::Integer(1)),
        ScalarOutcome::FormatNumber(_)
    ));
    assert!(matches!(
        format(Value::Real(Real { bits: 0 })),
        ScalarOutcome::FormatNumber(_)
    ));
    assert!(matches!(format(text("1e5")), ScalarOutcome::FormatNumber(_)));
    assert!(matches!(
        format(text("one")),
        ScalarOutcome::Value(Value::Null)
    ));
    assert!(matches!(
        format(Value::Blob(vec![1])),
        ScalarOutcome::Value(Value::Null)
    ));
    assert!(matches!(
        format(Value::Null),
        ScalarOutcome::Value(Value::Null)
    ));
}

#[test]
fn numbers_are_laid_out() {
    assert_eq!(to_char(12.0, "999"), "  12");
    assert_eq!(to_char(-12.0, "999"), "- 12");
    assert_eq!(to_char(12.0, "000"), " 012");
    assert_eq!(to_char(12.0, "FM999"), " 12");
    assert_eq!(to_char(1234.0, "99"), " 1234");
    assert_eq!(to_char(3.14159, "9.99"), " 3.14");
    assert_eq!(to_char(3.0, "9D9"), " 3.0");
    assert_eq!(to_char(-5.0, "9PR"), "<5>");
    assert_eq!(to_char(5.0, "9pr"), " 5 ");
    assert_eq!(to_char(5.0, "S9"), "+5");
    assert_eq!(to_char(-5.0, "9s"), "5-");
    assert_eq!(to_char(-5.0, "9MI"), "5-");
    assert_eq!(to_char(5.0, "mi9"), "5 ");
    assert_eq!(to_char(2.5, "L"), "2.5");
}

#[test]
fn user_tables_are_sorted_by_name() {
    assert_eq!(user_tables_sorted(&tables()), [3, 0]);
    assert!(user_tables_sorted(&vec![table("json_x"), table("pragma_y")]).is_empty());
}

#[test]
fn constraints_are_numbered_behind_indexes() {
    let tables = tables();
    let def = |oid| pg_get_constraintdef(&tables, oid);
    // Two tables and two indexes come first.
    assert_eq!(def(16387), None);
    assert_eq!(def(16388).as_deref(), Some("PRIMARY KEY (id)"));
    assert_eq!(
        def(16389).as_deref(),
        Some("FOREIGN KEY (user_id) REFERENCES users(id) ON UPDATE SET NULL ON DELETE CASCADE")
    );
    assert_eq!(def(16390).as_deref(), Some("CHECK (total > 0)"));
    assert_eq!(def(16391).as_deref(), Some("PRIMARY KEY (id, email)"));
    assert_eq!(def(16392).as_deref(), Some("UNIQUE (name)"));
    assert_eq!(def(16393), None);
    assert_eq!(def(i64::MIN), None);
    assert_eq!(
        scalar("pg_get_constraintdef", vec![Value::Integer(16390)]),
        text("CHECK (total > 0)")
    );
}

#[test]
fn indexes_are_numbered_behind_tables() {
    let tables = tables();
    let def = |oid| pg_get_indexdef(&tables, oid);
    assert_eq!(def(16385), None);
    assert_eq!(
        def(16386).as_deref(),
        Some("CREATE INDEX orders_total ON orders USING btree (a, lower(b)) WHERE total > 10")
    );
    assert_eq!(
        def(16387).as_deref(),
        Some("CREATE UNIQUE INDEX users_name ON users USING btree (a, lower(b))")
    );
    assert_eq!(def(16388), None);
    assert_eq!(
        scalar("pg_get_indexdef", vec![Value::Integer(0)]),
        Value::Null
    );
}

#[test]
fn referential_actions_have_codes() {
    for (act, code, sql) in [
        (RefAct::NoAction, "a", "NO ACTION"),
        (RefAct::Restrict, "r", "RESTRICT"),
        (RefAct::Cascade, "c", "CASCADE"),
        (RefAct::SetNull, "n", "SET NULL"),
        (RefAct::SetDefault, "d", "SET DEFAULT"),
    ] {
        assert_eq!(ref_act_to_char(&act), code);
        assert_eq!(ref_act_to_sql(code), sql);
    }
    assert_eq!(ref_act_to_sql("z"), "NO ACTION");
}

#[test]
fn booleans_are_words() {
    assert!(valid(" TRUE ", "BOOL"));
    assert!(valid("off", "boolean"));
    assert_eq!(
        refusal("maybe", "bool"),
        pair("invalid input syntax for type boolean: \"maybe\"", "22P02")
    );
}

#[test]
fn integers_have_ranges() {
    assert!(valid("32767", "int2"));
    assert_eq!(
        refusal(" 32768", "smallint"),
        pair("value \" 32768\" is out of range for type smallint", "22003")
    );
    assert_eq!(
        refusal("1.5", "int2"),
        pair("invalid input syntax for type smallint: \"1.5\"", "22P02")
    );
    assert!(valid("-2147483648", "int"));
    assert_eq!(
        refusal("2147483648", "int4"),
        pair("value \"2147483648\" is out of range for type integer", "22003")
    );
    // What no 64-bit number is, is malformed, not out of range.
    assert_eq!(refusal("9223372036854775808", "int4").1, "22P02");
    assert!(valid("+9223372036854775807", "bigint"));
    assert_eq!(
        refusal("9223372036854775808", "int8"),
        pair(
            "value \"9223372036854775808\" is out of range for type bigint",
            "22003"
        )
    );
    assert_eq!(
        refusal("9 1", "int8"),
        pair("invalid input syntax for type bigint: \"9 1\"", "22P02")
    );
}

#[test]
fn numbers_have_ranges() {
    assert!(valid("1.5e3", "real"));
    assert!(valid("nan", "float4"));
    assert_eq!(
        refusal("1e39", "float4"),
        pair("value \"1e39\" is out of range for type real", "22003")
    );
    assert!(valid("1e39", "float8"));
    assert_eq!(
        refusal("inf", "double precision"),
        pair("value \"inf\" is out of range for type double precision", "22003")
    );
    assert_eq!(refusal("x", "float8").1, "22P02");
    assert!(valid(".5", "decimal"));
    assert_eq!(
        refusal("NaN", "numeric"),
        pair("invalid input syntax for type numeric: \"NaN\"", "22P02")
    );
}

#[test]
fn texts_have_lengths() {
    assert!(valid("anything", "text"));
    assert!(valid("four", "varchar(4)"));
    assert!(valid("five5", "varchar"));
    assert_eq!(
        refusal("five5", "VARCHAR( 4 )"),
        pair("value too long for type character varying(4)", "22001")
    );
    assert_eq!(
        refusal("ab", "char(1)"),
        pair("value too long for type character(1)", "22001")
    );
    assert!(valid("äöüß", "character varying(4)"));
    assert_eq!(split_pg_type(&chars("Varchar (10)")), (chars("Varchar"), Some(10)));
    assert_eq!(split_pg_type(&chars("text")), (chars("text"), None));
}

#[test]
fn dates_and_times_are_read() {
    assert!(valid("2024-02-31", "date"));
    assert_eq!(
        refusal("2024-13-01", "date"),
        pair("invalid input syntax for type date: \"2024-13-01\"", "22007")
    );
    assert!(valid("23:59", "time"));
    assert!(valid("23:59:59.999", "time without time zone"));
    assert_eq!(refusal("24:00", "time").1, "22007");
    assert!(parse_timestamp_prefix(&chars("2024-01-02T03:04:05.678")));
    assert!(!parse_timestamp_prefix(&chars("2024-01-02")));
    assert!(valid("2024-01-02 03:04:05+02:00", "timestamptz"));
    assert!(valid("2024-01-02 03:04:05-07", "timestamp with time zone"));
    assert_eq!(
        refusal("2024-01-02 03:04:05+02", "timestamp"),
        pair(
            "invalid input syntax for type timestamp: \"2024-01-02 03:04:05+02\"",
            "22007"
        )
    );
}

#[test]
fn other_types_are_read() {
    assert!(valid("a0eebc99-9c0b-4ef8-bb6d-6bb9bd380a11", "uuid"));
    assert_eq!(refusal("a0eebc99", "uuid").1, "22P02");
    assert!(valid("\\xDEADbeef", "bytea"));
    assert!(valid("plain", "bytea"));
    assert_eq!(
        refusal("\\xabc", "bytea"),
        pair("invalid input syntax for type bytea: \"\\xabc\"", "22P02")
    );
    assert!(valid("10.0.0.0/8", "inet"));
    assert!(valid("::1", "cidr"));
    assert_eq!(
        refusal("10.0.0.0/x", "cidr"),
        pair("invalid input syntax for type cidr: \"10.0.0.0/x\"", "22P02")
    );
    assert!(valid("08:00:2b:01:02:03", "macaddr"));
    assert_eq!(refusal("08:00:2b:01:02", "macaddr").1, "22P02");
    assert!(valid("4294967295", "oid"));
    assert_eq!(refusal("-1", "oid").1, "22P02");
    assert_eq!(
        refusal("1", "Money"),
        pair("type \"Money\" does not exist", "42704")
    );
    assert_eq!(
        scalar("pg_input_is_valid", vec![text("12"), text("int4")]),
        Value::Integer(1)
    );
    assert_eq!(
        scalar("pg_input_is_valid", vec![text("x"), text("int4")]),
        Value::Integer(0)
    );
}

#[test]
fn json_is_checked_by_its_brackets() {
    let json = |s: &str| is_valid_json(&chars(s));
    assert!(json("{\"a\": [1, 2]}"));
    assert!(json(" [ ] "));
    assert!(json("\"text\""));
    assert!(json("true"));
    assert!(json("-1.5e3"));
    assert!(!json(""));
    assert!(!json("\""));
    assert!(!json("nul"));
    assert!(!json("{\"a\": [1, 2}]"));
    assert!(!json("{"));
    assert!(validate_json_braces(&chars("{\"}\\\"\"}")));
    assert!(!validate_json_braces(&chars("{\"")));
    assert_eq!(
        refusal("{", "jsonb"),
        pair("invalid input syntax for type jsonb: \"{\"", "22P02")
    );
    assert_eq!(refusal("x", "json").0, "invalid input syntax for type json: \"x\"");
}

const VARIABLE: u64 = 1;

fn node(op: u64, operands: Vec<Expr>) -> Expr {
    Expr::Node {
        op,
        operands: ExprList::from_vec(operands),
    }
}

#[test]
fn the_argument_takes_the_place_of_the_parameter() {
    let args = vec![Expr::Literal(42)];
    let template = Template::Select {
        where_clause: Some(node(5, vec![Expr::Literal(3), node(VARIABLE, vec![])])),
        rest: 8,
    };
    let expansion = expand(&args, &template, VARIABLE).unwrap();
    assert_eq!(expansion.rest, 8);
    assert!(exprs_are_equivalent(
        &expansion.where_clause,
        &node(5, vec![Expr::Literal(3), Expr::Literal(42)])
    ));
}

#[test]
fn templates_need_one_parameter() {
    let message = |args: Vec<Expr>, template: Template| match expand(&args, &template, VARIABLE) {
        Err(LimboError::InternalError(m)) => m,
        Err(LimboError::ParseError(m)) => m,
        _ => panic!("expected an error"),
    };
    let one = || vec![Expr::Literal(42)];
    assert_eq!(
        message(vec![], Template::Other),
        "pg_dbz() function must have exactly 1 argument"
    );
    assert_eq!(
        message(one(), Template::Other),
        "pg_dbz expansion is not a SELECT"
    );
    assert_eq!(
        message(
            one(),
            Template::Select {
                where_clause: None,
                rest: 8
            }
        ),
        "pg_dbz expansion has no WHERE clause"
    );
    for count in [0, 2, 3] {
        let operands = (0..count).map(|_| node(VARIABLE, vec![])).collect();
        assert_eq!(
            message(
                one(),
                Template::Select {
                    where_clause: Some(node(5, operands)),
                    rest: 8
                }
            ),
            "pg_dbz expansion must have exactly one cursor parameter"
        );
    }
}
