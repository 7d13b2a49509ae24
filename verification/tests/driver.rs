use tursokit::driver::column::Column;
use tursokit::driver::conformance::{config, normalize_url, unique_name};
use tursokit::driver::connection::{Cleanup, Connection};
use tursokit::driver::database::Builder;
use tursokit::driver::error::Error;
use tursokit::driver::params::{params_from_iter, IntoParams, IntoValue, Params};
use tursokit::driver::protocol::{
    decode_value, encode_value, CursorRowid, DescribeResult, ProtoCol, ProtoError, ProtoValue,
    Stmt, StmtResult, StreamResponse, StreamResult,
};
use tursokit::driver::rows::{Row, Rows};
use tursokit::driver::statement::Statement;
use tursokit::driver::transaction::{
    DropBehavior, FinishStep, Transaction, TransactionBehavior, TransactionEnd,
};
use tursokit::value::{Real, Value};

fn number(f: f64) -> Real {
    Real { bits: f.to_bits() }
}

#[test]
fn tuple_positional_params() {
    let params = (1, "hello", number(3.5)).into_params().unwrap();
    match params {
        Params::Positional(values) => {
            assert_eq!(values[0], Value::Integer(1));
            assert_eq!(values[1], Value::Text("hello".to_string()));
            assert_eq!(values[2], Value::Real(number(3.5)));
        }
        other => panic!("expected positional params, got {other:?}"),
    }
}

#[test]
fn named_tuple_params() {
    let params = ((":a", 1), (":b", "x")).into_params().unwrap();
    match params {
        Params::Named(values) => {
            assert_eq!(values[0].0, ":a");
            assert_eq!(values[0].1, Value::Integer(1));
            assert_eq!(values[1].0, ":b");
            assert_eq!(values[1].1, Value::Text("x".to_string()));
        }
        other => panic!("expected named params, got {other:?}"),
    }
}

#[test]
fn params_macro() {
    let params = [1.into_value(), "hello".into_value()].into_params().unwrap();
    assert!(matches!(params, Params::Positional(v) if v.len() == 2));
    let params = ().into_params().unwrap();
    assert!(matches!(params, Params::Empty));
}

#[test]
fn named_params_macro() {
    let params = [(":a", 1.into_value()), (":b", "x".into_value())]
        .into_params()
        .unwrap();
    assert!(matches!(params, Params::Named(v) if v.len() == 2));
}

#[test]
fn params_from_iter_positional() {
    let params = params_from_iter(vec![1, 2, 3]).into_params().unwrap();
    assert!(matches!(params, Params::Positional(v) if v.len() == 3));
}

#[test]
fn params_of_other_shapes() {
    let params = vec![(":a".to_string(), 1i64)].into_params().unwrap();
    assert_eq!(
        params,
        Params::Named(vec![(":a".to_string(), Value::Integer(1))])
    );
    let params = (&[1i64, 2]).into_params().unwrap();
    assert_eq!(
        params,
        Params::Positional(vec![Value::Integer(1), Value::Integer(2)])
    );
    let many = (
        1, 2, 3, 4, 5, 6, 7, 8, 9, 10, 11, 12, 13, 14, 15, "sixteen",
    );
    match many.into_params().unwrap() {
        Params::Positional(values) => {
            assert_eq!(values.len(), 16);
            assert_eq!(values[0], Value::Integer(1));
            assert_eq!(values[15], Value::Text("sixteen".to_string()));
        }
        other => panic!("expected positional params, got {other:?}"),
    }
}

#[test]
fn the_first_failing_param_is_reported() {
    let first: Result<Value, Error> = Err(Error::Misuse("first".to_string()));
    let second: Result<Value, Error> = Err(Error::Misuse("second".to_string()));
    let r = (1, first, second).into_params();
    assert_eq!(r, Err(Error::Misuse("first".to_string())));
}

#[test]
fn integer_encodes_as_decimal_string() {
    let encoded = encode_value(&Value::Integer(i64::MAX)).unwrap();
    assert_eq!(
        encoded,
        ProtoValue::Integer {
            value: "9223372036854775807".to_string()
        }
    );
}

#[test]
fn integer_roundtrip_extremes() {
    for n in [i64::MIN, -1, 0, 1, i64::MAX] {
        let decoded = decode_value(&encode_value(&Value::Integer(n)).unwrap()).unwrap();
        assert_eq!(decoded, Value::Integer(n));
    }
}

#[test]
fn float_encodes_as_json_number() {
    let encoded = encode_value(&Value::Real(number(1.5))).unwrap();
    assert_eq!(
        encoded,
        ProtoValue::Float {
            value: Some(number(1.5))
        }
    );
}

#[test]
fn nan_encodes_as_null() {
    let encoded = encode_value(&Value::Real(number(f64::NAN))).unwrap();
    assert_eq!(encoded, ProtoValue::Null);
}

#[test]
fn infinity_is_rejected() {
    assert!(encode_value(&Value::Real(number(f64::INFINITY))).is_err());
    assert!(encode_value(&Value::Real(number(f64::NEG_INFINITY))).is_err());
}

#[test]
fn null_float_decodes_as_nan() {
    let decoded = decode_value(&ProtoValue::Float { value: None }).unwrap();
    match decoded {
        Value::Real(f) => assert!(f64::from_bits(f.bits).is_nan()),
        other => panic!("expected Real, got {other:?}"),
    }
}

#[test]
fn blob_decodes_unpadded_and_padded_base64() {
    for b64 in ["3q2+7w", "3q2+7w=="] {
        let decoded = decode_value(&ProtoValue::Blob {
            base64: b64.to_string(),
        })
        .unwrap();
        assert_eq!(decoded, Value::Blob(vec![0xde, 0xad, 0xbe, 0xef]));
    }
}

#[test]
fn blob_roundtrip() {
    for blob in [vec![], vec![0u8, 1, 2, 255, 128, 64]] {
        let decoded = decode_value(&encode_value(&Value::Blob(blob.clone())).unwrap()).unwrap();
        assert_eq!(decoded, Value::Blob(blob));
    }
}

#[test]
fn blobs_are_sent_with_padding() {
    assert_eq!(
        encode_value(&Value::Blob(vec![0xde, 0xad, 0xbe, 0xef])).unwrap(),
        ProtoValue::Blob {
            base64: "3q2+7w==".to_string()
        }
    );
}

#[test]
fn values_that_make_no_sense_are_refused() {
    let r = decode_value(&ProtoValue::Integer {
        value: "1x".to_string(),
    });
    assert_eq!(
        r,
        Err(Error::Error(
            "invalid integer value in server response: invalid digit found in string".to_string()
        ))
    );
    let r = decode_value(&ProtoValue::Integer {
        value: "9223372036854775808".to_string(),
    });
    assert_eq!(
        r,
        Err(Error::Error(
            "invalid integer value in server response: number too large to fit in target type"
                .to_string()
        ))
    );
    let r = decode_value(&ProtoValue::Blob {
        base64: "*".to_string(),
    });
    match r {
        Err(Error::Error(m)) => assert!(m.starts_with("invalid base64 in server response: ")),
        other => panic!("unexpected {other:?}"),
    }
    // The last character of a group may not carry bits that stand for nothing.
    assert!(decode_value(&ProtoValue::Blob {
        base64: "3q2+7x".to_string()
    })
    .is_err());
}

#[test]
fn cursor_rowid_accepts_number_and_string() {
    assert_eq!(CursorRowid::Number(42).to_i64().unwrap(), 42);
    assert_eq!(CursorRowid::Text("42".to_string()).to_i64().unwrap(), 42);
    assert!(CursorRowid::Text("".to_string()).to_i64().is_err());
}

#[test]
fn behavior_maps_to_begin_statement() {
    assert_eq!(TransactionBehavior::Deferred.begin_sql(), "BEGIN DEFERRED");
    assert_eq!(
        TransactionBehavior::Immediate.begin_sql(),
        "BEGIN IMMEDIATE"
    );
    assert_eq!(
        TransactionBehavior::Exclusive.begin_sql(),
        "BEGIN EXCLUSIVE"
    );
    assert_eq!(
        TransactionBehavior::Concurrent.begin_sql(),
        "BEGIN CONCURRENT"
    );
}

#[test]
fn drop_behaviors_have_numbers() {
    for behavior in [
        DropBehavior::Rollback,
        DropBehavior::Commit,
        DropBehavior::Ignore,
        DropBehavior::Panic,
    ] {
        let code: u8 = behavior.into();
        assert_eq!(DropBehavior::from_code(code), behavior);
    }
}

#[test]
fn a_failed_commit_is_rolled_back() {
    let mut tx = Transaction::new();
    assert_eq!(tx.drop_behavior(), DropBehavior::Rollback);
    tx.set_drop_behavior(DropBehavior::Commit);
    assert_eq!(tx.finish(false), FinishStep::Run(TransactionEnd::Commit));
    assert_eq!(
        tx.finish_after(TransactionEnd::Commit, false),
        FinishStep::Run(TransactionEnd::Rollback)
    );
    assert_eq!(
        tx.finish_after(TransactionEnd::Rollback, false),
        FinishStep::Failed
    );
    assert_eq!(tx.dangling(), DropBehavior::Commit);
}

#[test]
fn a_failed_commit_is_reported() {
    let mut tx = Transaction::new();
    tx.set_drop_behavior(DropBehavior::Commit);
    assert_eq!(tx.finish(false), FinishStep::Run(TransactionEnd::Commit));
    assert_eq!(
        tx.finish_after(TransactionEnd::Commit, false),
        FinishStep::Run(TransactionEnd::Rollback)
    );
    assert_eq!(
        tx.finish_after(TransactionEnd::Rollback, true),
        FinishStep::FailedCommit
    );
    assert_eq!(tx.dangling(), DropBehavior::Ignore);
    let mut tx = Transaction::new();
    assert_eq!(tx.finish(false), FinishStep::Run(TransactionEnd::Rollback));
    assert_eq!(
        tx.finish_after(TransactionEnd::Rollback, true),
        FinishStep::Finished
    );
}

#[test]
fn finishing_without_an_open_transaction_does_nothing() {
    let mut tx = Transaction::new();
    assert_eq!(tx.finish(true), FinishStep::Finished);
    assert_eq!(tx.dangling(), DropBehavior::Ignore);
    let mut tx = Transaction::new();
    tx.set_drop_behavior(DropBehavior::Panic);
    assert_eq!(tx.finish(false), FinishStep::Panic);
    tx.set_drop_behavior(DropBehavior::Ignore);
    assert_eq!(tx.finish(false), FinishStep::Finished);
}

#[test]
fn dropped_transactions_are_ended_before_the_next_statement() {
    let mut conn = Connection::new("https://example.com", None);
    assert_eq!(conn.take_dangling_tx(), Cleanup::Nothing);
    conn.set_autocommit(false);
    conn.set_dangling_tx(Transaction::new().dangling());
    assert_eq!(
        conn.take_dangling_tx(),
        Cleanup::Run(TransactionEnd::Rollback)
    );
    assert_eq!(conn.take_dangling_tx(), Cleanup::Nothing);
    conn.set_dangling_tx(DropBehavior::Commit);
    conn.set_autocommit(true);
    assert_eq!(conn.take_dangling_tx(), Cleanup::Nothing);
    conn.set_dangling_tx(DropBehavior::Panic);
    assert_eq!(conn.take_dangling_tx(), Cleanup::Panic);
}

fn server_error(message: &str) -> ProtoError {
    ProtoError {
        message: message.to_string(),
        code: Some("SQLITE_ERROR".to_string()),
        extended_code: None,
    }
}

#[test]
fn a_lost_rollback_is_ignored_but_a_lost_commit_is_not() {
    let lost = || Err(Error::Http("gone".to_string()));
    assert_eq!(
        Connection::finish_dangling_tx(TransactionEnd::Rollback, lost()),
        Ok(())
    );
    assert_eq!(
        Connection::finish_dangling_tx(TransactionEnd::Commit, lost()),
        Err(Error::Http("gone".to_string()))
    );
    assert_eq!(
        Connection::finish_dangling_tx(TransactionEnd::Commit, Ok(vec![])),
        Err(Error::Http(
            "missing execute result in pipeline response".to_string()
        ))
    );
    assert_eq!(
        Connection::finish_dangling_tx(
            TransactionEnd::Commit,
            Ok(vec![StreamResult::Error {
                error: server_error("busy")
            }])
        ),
        Err(Error::Server(server_error("busy")))
    );
}

fn executed(count: u64, rowid: Option<&str>) -> Vec<StreamResult> {
    vec![StreamResult::Answer {
        response: StreamResponse::Execute {
            result: StmtResult {
                cols: vec![],
                rows: vec![],
                affected_row_count: count,
                last_insert_rowid: rowid.map(|s| s.to_string()),
            },
        },
    }]
}

#[test]
fn executions_report_rows_and_rowids() {
    let mut conn = Connection::new("https://example.com", None);
    assert_eq!(conn.finish_execute(executed(3, Some("17"))), Ok(3));
    assert_eq!(conn.last_insert_rowid(), 17);
    assert_eq!(conn.finish_execute(executed(1, None)), Ok(1));
    assert_eq!(conn.last_insert_rowid(), 17);
    assert_eq!(
        conn.finish_execute(executed(1, Some("-"))),
        Err(Error::Error(
            "invalid rowid in server response: invalid digit found in string".to_string()
        ))
    );
    assert_eq!(
        conn.finish_execute(vec![StreamResult::Answer {
            response: StreamResponse::Close
        }]),
        Err(Error::Http(
            "missing execute result in pipeline response".to_string()
        ))
    );
    assert_eq!(conn.last_insert_rowid(), 17);
}

#[test]
fn sequences_fail_with_the_error_of_the_server() {
    assert_eq!(
        Connection::finish_batch(vec![StreamResult::Answer {
            response: StreamResponse::Sequence
        }]),
        Ok(())
    );
    assert_eq!(
        Connection::finish_batch(vec![StreamResult::Error {
            error: server_error("no such table")
        }]),
        Err(Error::Server(server_error("no such table")))
    );
    assert_eq!(
        Connection::finish_batch(vec![]),
        Err(Error::Http(
            "missing sequence result in pipeline response".to_string()
        ))
    );
}

#[test]
fn descriptions_are_cached_by_text() {
    let mut conn = Connection::new("https://example.com", None);
    assert!(conn.cached_statement("SELECT id FROM t").is_none());
    let stmt = Connection::finish_prepare(
        "SELECT id FROM t",
        vec![StreamResult::Answer {
            response: StreamResponse::Describe {
                result: DescribeResult {
                    params: vec![],
                    cols: vec![
                        ProtoCol {
                            name: Some("Id".to_string()),
                            decltype: Some("INTEGER".to_string()),
                        },
                        ProtoCol {
                            name: None,
                            decltype: None,
                        },
                    ],
                    is_explain: false,
                    is_readonly: true,
                },
            },
        }],
    )
    .unwrap();
    assert_eq!(stmt.column_names(), ["Id", ""]);
    assert_eq!(stmt.column_index("ID").unwrap(), 0);
    assert_eq!(
        stmt.column_index("x"),
        Err(Error::Misuse("no column named 'x'".to_string()))
    );
    assert_eq!(
        stmt.column_name(2),
        Err(Error::Misuse(
            "column index 2 out of bounds (statement has 2 columns)".to_string()
        ))
    );
    conn.cache_statement("SELECT id FROM t", &stmt);
    let again = conn.cached_statement("SELECT id FROM t").unwrap();
    assert_eq!(again.sql(), "SELECT id FROM t");
    assert_eq!(again.columns(), stmt.columns());
    assert!(conn.cached_statement("SELECT 1").is_none());
    assert!(Connection::finish_prepare("x", vec![]).is_err());
}

#[test]
fn statements_are_built_with_their_arguments() {
    let params = (1, "x").into_params().unwrap();
    let stmt = Connection::build_stmt("SELECT ?, ?", &params, true).unwrap();
    assert_eq!(stmt.sql.as_deref(), Some("SELECT ?, ?"));
    assert!(stmt.want_rows);
    assert_eq!(
        stmt.args,
        vec![
            ProtoValue::Integer {
                value: "1".to_string()
            },
            ProtoValue::Text {
                value: "x".to_string()
            }
        ]
    );
    assert!(stmt.named_args.is_empty());
    let params = ((":a", 1),).into_params().unwrap();
    let stmt = Connection::build_stmt("SELECT :a", &params, false).unwrap();
    assert_eq!(stmt.named_args[0].name, ":a");
    let params = (number(f64::INFINITY),).into_params().unwrap();
    assert!(Connection::build_stmt("SELECT ?", &params, false).is_err());
    let bare = Stmt::new("SELECT 1", true);
    assert_eq!(bare.sql_id, None);
}

#[test]
fn pragmas_are_statements() {
    assert_eq!(
        Connection::pragma_query_sql("table_info(t)"),
        "PRAGMA table_info(t)"
    );
    assert_eq!(
        Connection::pragma_update_sql("journal_mode", "wal"),
        "PRAGMA journal_mode = wal"
    );
}

#[test]
fn rows_come_in_their_order() {
    let columns = vec![Column {
        name: "a".to_string(),
        decl_type: Some("TEXT".to_string()),
    }];
    let rows = vec![
        Row::new(vec![Value::Integer(1)]),
        Row::new(vec![Value::Integer(2)]),
    ];
    let mut rows = Rows::new(columns, rows);
    assert_eq!(rows.column_count(), 1);
    assert_eq!(rows.column_name(0).unwrap(), "a");
    assert_eq!(
        rows.column_name(1),
        Err(Error::Misuse(
            "column index 1 out of bounds (result has 1 columns)".to_string()
        ))
    );
    assert_eq!(rows.column_index("A").unwrap(), 0);
    assert_eq!(
        rows.column_index("b"),
        Err(Error::Misuse(
            "column 'b' not found in result set".to_string()
        ))
    );
    assert_eq!(rows.columns()[0].decl_type(), Some("TEXT"));
    let first = rows.next().unwrap().unwrap();
    assert_eq!(first.get_value(0).unwrap(), Value::Integer(1));
    assert_eq!(first.get::<Value>(0).unwrap(), Value::Integer(1));
    assert_eq!(
        first.get_value(3),
        Err(Error::Misuse(
            "column index 3 out of bounds (row has 1 columns)".to_string()
        ))
    );
    let second = Statement::query_row(&mut rows).unwrap();
    assert_eq!(second.get_value(0).unwrap(), Value::Integer(2));
    assert_eq!(
        Statement::query_row(&mut rows),
        Err(Error::QueryReturnedNoRows)
    );
}

#[test]
fn statements_remember_what_they_changed() {
    let mut stmt = Statement::new("DELETE FROM t".to_string(), vec![]);
    assert_eq!(stmt.n_change(), 0);
    assert_eq!(stmt.execute(Ok(4)), Ok(4));
    assert_eq!(stmt.n_change(), 4);
    assert!(stmt.execute(Err(Error::Http("x".to_string()))).is_err());
    assert_eq!(stmt.n_change(), 4);
    assert!(stmt.reset().is_ok());
}

#[test]
fn databases_are_built_from_urls() {
    let db = Builder::new_remote("libsql://db.example.com".to_string())
        .with_auth_token("token".to_string())
        .build()
        .unwrap();
    let conn = db.connect().unwrap();
    assert_eq!(conn.url(), "libsql://db.example.com");
    assert_eq!(conn.begin_sql(), "BEGIN DEFERRED");
    assert_eq!(conn.is_autocommit(), Ok(true));
}

#[test]
fn urls_are_normalized() {
    assert_eq!(normalize_url("libsql://db.io"), "https://db.io");
    assert_eq!(normalize_url("turso://db.io/"), "https://db.io/");
    assert_eq!(normalize_url("http://db.io//"), "http://db.io");
    let c = config(
        Some("libsql://db.io".to_string()),
        Some("token".to_string()),
    )
    .unwrap();
    assert_eq!(c.url, "https://db.io");
    assert!(config(None, Some("token".to_string())).is_none());
    assert_eq!(unique_name("t", 12, 345, 6), "t_12_345_6");
}
