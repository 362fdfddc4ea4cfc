//! End-to-end tests of the query executor against an in-memory SQLite
//! database.

use sql_proxy::executor::run_sql;
use sql_proxy::values::{DynamicValue, ExecutionError, ParamValue, SqlQuery};

fn mem_location() -> Option<String> {
    Some(":memory:".to_string())
}

fn request(sql: &str, params: Vec<ParamValue>) -> SqlQuery {
    SqlQuery { sql: sql.to_string(), params }
}

#[test]
fn round_trip_integer() {
    let rows = run_sql(&mem_location(), &request("SELECT ?", vec![ParamValue::Integer(42)]))
        .unwrap();
    assert_eq!(rows.len(), 1);
    assert_eq!(rows[0].values, vec![DynamicValue::Integer(42)]);
}

#[test]
fn round_trip_float_exact_bits() {
    let bits = (3.14f64).to_bits();
    let rows = run_sql(&mem_location(), &request("SELECT ?", vec![ParamValue::Float(bits)]))
        .unwrap();
    assert_eq!(rows[0].values, vec![DynamicValue::Float(bits)]);
}

#[test]
fn round_trip_unicode_text() {
    let text = "h\u{e9}llo".to_string();
    let rows = run_sql(
        &mem_location(),
        &request("SELECT ?", vec![ParamValue::Text(text.clone())]),
    )
    .unwrap();
    assert_eq!(rows[0].values, vec![DynamicValue::Text(text)]);
}

#[test]
fn round_trip_boolean_stored_as_integer() {
    let rows = run_sql(&mem_location(), &request("SELECT ?", vec![ParamValue::Boolean(true)]))
        .unwrap();
    assert_eq!(rows[0].values, vec![DynamicValue::Integer(1)]);
}

#[test]
fn null_parameter_round_trips_as_null() {
    let rows = run_sql(&mem_location(), &request("SELECT ?", vec![ParamValue::Null])).unwrap();
    assert_eq!(rows[0].values, vec![DynamicValue::Null]);
}

#[test]
fn null_in_declared_column_stays_null() {
    let script = "CREATE TABLE t(a INTEGER); INSERT INTO t(a) VALUES (NULL); SELECT a FROM t";
    let rows = run_sql(&mem_location(), &request(script, vec![])).unwrap();
    assert_eq!(rows.len(), 1);
    assert_eq!(rows[0].values, vec![DynamicValue::Null]);
}

#[test]
fn blob_column_encodes_base64() {
    let script = "CREATE TABLE t(b BLOB); INSERT INTO t(b) VALUES (X'00FF10'); SELECT b FROM t";
    let rows = run_sql(&mem_location(), &request(script, vec![])).unwrap();
    assert_eq!(rows[0].values, vec![DynamicValue::Text("AP8Q".to_string())]);
}

#[test]
fn untyped_integer_expression_probes_as_integer() {
    let rows = run_sql(&mem_location(), &request("SELECT 1+1", vec![])).unwrap();
    assert_eq!(rows[0].values, vec![DynamicValue::Integer(2)]);
}

#[test]
fn untyped_float_expression_probes_as_float() {
    let rows = run_sql(&mem_location(), &request("SELECT 1.5+1", vec![])).unwrap();
    assert_eq!(rows[0].values, vec![DynamicValue::Float((2.5f64).to_bits())]);
}

#[test]
fn untyped_text_expression_probes_as_text() {
    let rows = run_sql(&mem_location(), &request("SELECT 'x'||'y'", vec![])).unwrap();
    assert_eq!(rows[0].values, vec![DynamicValue::Text("xy".to_string())]);
}

#[test]
fn every_row_keeps_column_value_alignment() {
    let script = "CREATE TABLE t(a INTEGER, b TEXT, c REAL); \
                  INSERT INTO t VALUES (1, 'one', 1.5); \
                  INSERT INTO t VALUES (NULL, NULL, NULL); \
                  INSERT INTO t VALUES (3, 'three', NULL); \
                  SELECT a, b, c FROM t";
    let rows = run_sql(&mem_location(), &request(script, vec![])).unwrap();
    assert_eq!(rows.len(), 3);
    for row in &rows {
        assert_eq!(row.columns.len(), 3);
        assert_eq!(row.values.len(), row.columns.len());
    }
    assert_eq!(rows[1].values, vec![DynamicValue::Null, DynamicValue::Null, DynamicValue::Null]);
    assert_eq!(
        rows[0].values,
        vec![
            DynamicValue::Integer(1),
            DynamicValue::Text("one".to_string()),
            DynamicValue::Float((1.5f64).to_bits()),
        ]
    );
}

#[test]
fn column_names_come_back_in_order() {
    let rows = run_sql(&mem_location(), &request("SELECT 1 AS x, 2 AS y", vec![])).unwrap();
    assert_eq!(rows[0].columns, vec!["x".to_string(), "y".to_string()]);
}

#[test]
fn no_database_selected_fails_fast() {
    let r = run_sql(&None, &request("SELECT 1", vec![]));
    assert_eq!(r, Err(ExecutionError::NoDatabaseSelected));
}

#[test]
fn malformed_sql_fails_with_detail() {
    let r = run_sql(&mem_location(), &request("SELEC * FROM t", vec![]));
    match r {
        Err(ExecutionError::QueryFailed(detail)) => {
            assert!(!detail.is_empty());
            assert!(detail.starts_with("Query failed: "));
        }
        other => panic!("expected a query failure, got {:?}", other),
    }
}

#[test]
fn unreadable_location_fails_to_connect() {
    let location = Some("/this/path/does/not/exist/db.sqlite3".to_string());
    let r = run_sql(&location, &request("SELECT 1", vec![]));
    match r {
        Err(ExecutionError::ConnectionFailed(detail)) => assert!(!detail.is_empty()),
        other => panic!("expected a connection failure, got {:?}", other),
    }
}

#[test]
fn composite_parameter_is_rejected_at_its_position() {
    let params = vec![ParamValue::Integer(1), ParamValue::Composite];
    let r = run_sql(&mem_location(), &request("SELECT ?, ?", params));
    assert_eq!(r, Err(ExecutionError::UnbindableParameter(1)));
}

#[test]
fn repeated_read_yields_identical_results() {
    let script = "CREATE TABLE t(a INTEGER, b TEXT); \
                  INSERT INTO t VALUES (1, 'one'); \
                  INSERT INTO t VALUES (2, 'two'); \
                  SELECT a, b FROM t ORDER BY a";
    let first = run_sql(&mem_location(), &request(script, vec![])).unwrap();
    let second = run_sql(&mem_location(), &request(script, vec![])).unwrap();
    assert_eq!(first, second);
    assert_eq!(first.len(), 2);
}

#[test]
fn parameters_bind_positionally() {
    let params = vec![
        ParamValue::Integer(7),
        ParamValue::Text("seven".to_string()),
        ParamValue::Null,
    ];
    let rows = run_sql(&mem_location(), &request("SELECT ?, ?, ?", params)).unwrap();
    assert_eq!(
        rows[0].values,
        vec![
            DynamicValue::Integer(7),
            DynamicValue::Text("seven".to_string()),
            DynamicValue::Null,
        ]
    );
}

#[test]
fn duplicate_column_names_are_kept_positionally() {
    let rows = run_sql(&mem_location(), &request("SELECT 1 AS a, 'two' AS a", vec![])).unwrap();
    assert_eq!(rows[0].columns, vec!["a".to_string(), "a".to_string()]);
    assert_eq!(
        rows[0].values,
        vec![DynamicValue::Integer(1), DynamicValue::Text("two".to_string())]
    );
}

#[test]
fn empty_result_set_is_not_a_failure() {
    let script = "CREATE TABLE t(a INTEGER); SELECT a FROM t";
    let rows = run_sql(&mem_location(), &request(script, vec![])).unwrap();
    assert_eq!(rows.len(), 0);
}
