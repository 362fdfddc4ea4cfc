//! The query executor: resolves the database location, validates and binds
//! the parameter list in order, executes the statement, and materializes
//! the full result set eagerly, converting every cell by the declared
//! storage class of its column.

use vstd::prelude::*;

use crate::engine::{
    bind_bool, bind_f64_bits, bind_i64, bind_null, bind_text, cells_of, column_name_at,
    column_type_name_at, columns_of, connect_db, fetch_all_rows, new_query, query_args, query_sql,
    row_len, PreparedQuery,
};
use crate::marshal::{bindable_parameters, cell_to_value, classify, read_cell};
use crate::values::{
    bindable, cell_value_model, classify_spec, scalar_value, DynamicValue, ExecutionError,
    SqlQuery, SqlRow,
};

use sqlx::sqlite::SqliteRow;

verus! {

/// Materializes one fetched row: its column names in order, and each cell
/// converted by the declared storage class of its column.  The values are
/// positionally aligned with the column names, whatever the cells hold.
pub fn convert_row(row: &SqliteRow) -> (r: SqlRow)
    ensures
        r@.columns.len() == r@.values.len(),
        r@.columns.len() == columns_of(*row).len(),
        forall|j: int|
            0 <= j < columns_of(*row).len() ==> #[trigger] r@.columns[j] == columns_of(
                *row,
            )[j].0,
        forall|j: int|
            0 <= j < columns_of(*row).len() ==> #[trigger] r@.values[j] == cell_value_model(
                classify_spec(columns_of(*row)[j].1),
                cells_of(*row)[j],
            ),
{
    let n = row_len(row);
    let mut columns: Vec<String> = Vec::new();
    let mut values: Vec<DynamicValue> = Vec::new();
    let mut i: usize = 0;
    while i < n
        invariant
            i <= n,
            n == columns_of(*row).len(),
            n == cells_of(*row).len(),
            columns@.len() == i,
            values@.len() == i,
            forall|j: int| 0 <= j < i ==> (#[trigger] columns@[j])@ == columns_of(*row)[j].0,
            forall|j: int|
                0 <= j < i ==> (#[trigger] values@[j])@ == cell_value_model(
                    classify_spec(columns_of(*row)[j].1),
                    cells_of(*row)[j],
                ),
        decreases n - i,
    {
        let name = column_name_at(row, i);
        let tag = column_type_name_at(row, i);
        let class = classify(&tag);
        let cell = read_cell(row, i);
        let value = cell_to_value(class, &cell);
        columns.push(name);
        values.push(value);
        i += 1;
    }
    SqlRow { columns, values }
}

/// Builds the statement that will be executed: the given SQL text, with
/// every value bound strictly positionally and order-preservingly — one
/// bind per value, value `i` of the list to placeholder `i` of the
/// statement, never reordered — each under its engine representation: the
/// NULL marker, a 0/1 boolean, an exact 64-bit signed integer (never a
/// float), a 64-bit float with its bit pattern unchanged, or UTF-8 text.
pub fn prepare_statement(sql: &String, values: &Vec<DynamicValue>) -> (q: PreparedQuery)
    ensures
        query_sql(q) == sql@,
        query_args(q).len() == values@.len(),
        forall|j: int| 0 <= j < values@.len() ==> query_args(q)[j] == (#[trigger] values@[j])@,
{
    let mut q = new_query(sql);
    let mut idx: usize = 0;
    while idx < values.len()
        invariant
            idx <= values@.len(),
            query_sql(q) == sql@,
            query_args(q).len() == idx,
            forall|j: int| 0 <= j < idx ==> query_args(q)[j] == (#[trigger] values@[j])@,
        decreases values@.len() - idx,
    {
        match &values[idx] {
            DynamicValue::Null => {
                q = bind_null(q);
            },
            DynamicValue::Boolean(b) => {
                q = bind_bool(q, *b);
            },
            DynamicValue::Integer(v) => {
                q = bind_i64(q, *v);
            },
            DynamicValue::Float(bits) => {
                q = bind_f64_bits(q, *bits);
            },
            DynamicValue::Text(s) => {
                q = bind_text(q, s.clone());
            },
        }
        idx += 1;
    }
    q
}

/// Executes one request against the resolved database location.
///
/// The location is resolved before anything else: an unresolved location
/// fails with `NoDatabaseSelected`, and conversely that failure arises only
/// then.  A parameter kind without a safe binding fails with
/// `UnbindableParameter` at the first such position.  Otherwise parameters
/// are bound strictly in order, the statement runs on a fresh connection,
/// and every fetched row is materialized with its values positionally
/// aligned to its column names.  Whether the engine accepts the location
/// and the statement is the engine's decision; either failure carries a
/// non-empty description.
pub fn run_sql(location: &Option<String>, query: &SqlQuery) -> (r: Result<
    Vec<SqlRow>,
    ExecutionError,
>)
    ensures
        location is None <==> r == Err::<Vec<SqlRow>, ExecutionError>(
            ExecutionError::NoDatabaseSelected,
        ),
        match r {
            Ok(rows) => (forall|j: int|
                0 <= j < query.params@.len() ==> bindable(#[trigger] query.params@[j]@)) && (
            forall|k: int|
                0 <= k < rows@.len() ==> (#[trigger] rows@[k])@.columns.len()
                    == rows@[k]@.values.len()),
            Err(e) => match e {
                ExecutionError::NoDatabaseSelected => location is None,
                ExecutionError::UnbindableParameter(i) => location is Some && i
                    < query.params@.len() && !bindable(query.params@[i as int]@) && (forall|j: int|
                    0 <= j < i ==> bindable(#[trigger] query.params@[j]@)),
                ExecutionError::ConnectionFailed(m) => location is Some && m@.len() > 0 && (
                forall|j: int|
                    0 <= j < query.params@.len() ==> bindable(#[trigger] query.params@[j]@)),
                ExecutionError::QueryFailed(m) => location is Some && m@.len() > 0 && (forall|
                    j: int,
                |
                    0 <= j < query.params@.len() ==> bindable(#[trigger] query.params@[j]@)),
            },
        },
{
    let path = match location {
        Some(p) => p,
        None => {
            return Err(ExecutionError::NoDatabaseSelected);
        },
    };
    let values = match bindable_parameters(&query.params) {
        Ok(vs) => vs,
        Err(e) => {
            return Err(e);
        },
    };
    let mut conn = match connect_db(path) {
        Ok(c) => c,
        Err(m) => {
            return Err(ExecutionError::ConnectionFailed(m));
        },
    };
    let q = prepare_statement(&query.sql, &values);
    proof {
        // What reaches the engine is exactly the request: its SQL text,
        // and one bound argument per parameter, in list order.
        assert(query_sql(q) == query.sql@);
        assert(query_args(q).len() == query.params@.len());
        assert forall|j: int|
            0 <= j < query.params@.len() implies query_args(q)[j] == scalar_value(
            (#[trigger] query.params@[j])@,
        ) by {
            assert(query_args(q)[j] == values@[j]@);
            assert(values@[j]@ == scalar_value(query.params@[j]@));
        }
    }
    let raw_rows = match fetch_all_rows(&mut conn, q) {
        Ok(rs) => rs,
        Err(m) => {
            return Err(ExecutionError::QueryFailed(m));
        },
    };
    let mut rows: Vec<SqlRow> = Vec::new();
    let mut k: usize = 0;
    while k < raw_rows.len()
        invariant
            k <= raw_rows@.len(),
            rows@.len() == k,
            forall|t: int|
                0 <= t < k ==> (#[trigger] rows@[t])@.columns.len() == rows@[t]@.values.len(),
        decreases raw_rows@.len() - k,
    {
        let row = convert_row(&raw_rows[k]);
        rows.push(row);
        k += 1;
    }
    Ok(rows)
}

} // verus!
