//! The trusted boundary to the embedded database engine and the base64
//! encoder.  Every item here either declares an outside type or wraps one
//! outside call; everything around these wrappers is verified.

use vstd::prelude::*;

use crate::values::{
    blob_read, int_read, real_read, text_read, CellModel, ValueModel,
};

use base64::Engine;
use sqlx::query::Query;
use sqlx::sqlite::{SqliteArguments, SqliteRow};
use sqlx::Column;
use sqlx::Connection;
use sqlx::Row;
use sqlx::TypeInfo;
use sqlx::{Sqlite, SqliteConnection};

verus! {

#[verifier::external_type_specification]
#[verifier::external_body]
pub struct ExSqliteConnection(SqliteConnection);

#[verifier::external_type_specification]
#[verifier::external_body]
pub struct ExSqliteRow(SqliteRow);

/// A statement handle with its bound arguments.  `sqlx::query::Query`
/// itself cannot be declared to the verifier — its generics are bounded by
/// an outside trait — so it is held opaquely in a private field.
#[verifier::external_body]
pub struct PreparedQuery {
    inner: Query<'static, Sqlite, SqliteArguments>,
}

/// Names the SQL text a prepared statement carries; the statement wrappers
/// below say that building sets it and that binding leaves it unchanged.
pub uninterp spec fn query_sql(q: PreparedQuery) -> Seq<char>;

/// Names the ordered bound-argument list of a prepared statement, as
/// interchange values: each bind wrapper appends exactly one entry, so the
/// list mirrors the bind calls in the order they were issued.
pub uninterp spec fn query_args(q: PreparedQuery) -> Seq<ValueModel>;

/// Names the stored cells of a fetched row, one per column, in column
/// order; the typed-read wrappers below say what each read yields from
/// them.
pub uninterp spec fn cells_of(row: SqliteRow) -> Seq<CellModel>;

/// Names the columns of a fetched row: each entry is the column's name and
/// its engine-reported type tag.
pub uninterp spec fn columns_of(row: SqliteRow) -> Seq<(Seq<char>, Seq<char>)>;

/// Relies on `base64::Engine::encode` with the standard alphabet, padded:
/// the result is a function of the bytes alone, four output characters for
/// every three input bytes, padding included.
#[verifier::external_body]
pub(crate) fn base64_encode(bytes: &Vec<u8>) -> (s: String)
    ensures
        s@ == crate::values::base64_of(bytes@),
        s@.len() == 4 * ((bytes@.len() + 2) / 3),
{
    base64::engine::general_purpose::STANDARD.encode(bytes)
}

/// Relies on `sqlx::Connection::connect` for SQLite: opens a connection to
/// the location, failing on a missing or unreadable database file.  The
/// error string always carries a non-empty description.
#[verifier::external_body]
pub(crate) fn connect_db(path: &String) -> (r: Result<SqliteConnection, String>)
    ensures
        r matches Err(m) ==> m@.len() > 0,
{
    let uri = format!("sqlite://{}", path);
    futures::executor::block_on(SqliteConnection::connect(&uri))
        .map_err(|e| format!("Failed to connect to DB: {}", e))
}

/// Relies on `sqlx::query`: builds a prepared-statement handle that
/// carries the given SQL text and an empty argument list.
#[verifier::external_body]
pub(crate) fn new_query(sql: &String) -> (q: PreparedQuery)
    ensures
        query_sql(q) == sql@,
        query_args(q) == Seq::<ValueModel>::empty(),
{
    PreparedQuery { inner: sqlx::query(sqlx::AssertSqlSafe(sql.clone())) }
}

/// Relies on `Query::bind` with the engine's native NULL marker: appends
/// that one argument and touches nothing else.
#[verifier::external_body]
pub(crate) fn bind_null(q: PreparedQuery) -> (r: PreparedQuery)
    ensures
        query_sql(r) == query_sql(q),
        query_args(r) == query_args(q).push(ValueModel::Null),
{
    PreparedQuery { inner: q.inner.bind(None::<String>) }
}

/// Relies on `Query::bind` for `bool`, stored as a 0/1 integer: appends
/// that one argument and touches nothing else.
#[verifier::external_body]
pub(crate) fn bind_bool(q: PreparedQuery, v: bool) -> (r: PreparedQuery)
    ensures
        query_sql(r) == query_sql(q),
        query_args(r) == query_args(q).push(ValueModel::Boolean(v)),
{
    PreparedQuery { inner: q.inner.bind(v) }
}

/// Relies on `Query::bind` for `i64`, stored as an exact 64-bit signed
/// integer: appends that one argument and touches nothing else.
#[verifier::external_body]
pub(crate) fn bind_i64(q: PreparedQuery, v: i64) -> (r: PreparedQuery)
    ensures
        query_sql(r) == query_sql(q),
        query_args(r) == query_args(q).push(ValueModel::Integer(v)),
{
    PreparedQuery { inner: q.inner.bind(v) }
}

/// Relies on `Query::bind` for the engine's 8-byte floating type; the
/// parameter is the float's IEEE-754 bit pattern, passed through
/// unchanged: appends that one argument and touches nothing else.
#[verifier::external_body]
pub(crate) fn bind_f64_bits(q: PreparedQuery, bits: u64) -> (r: PreparedQuery)
    ensures
        query_sql(r) == query_sql(q),
        query_args(r) == query_args(q).push(ValueModel::Float(bits)),
{
    PreparedQuery { inner: q.inner.bind(<libsqlite3_sys::sqlite3_rtree_dbl>::from_bits(bits)) }
}

/// Relies on `Query::bind` for an owned UTF-8 string: appends that one
/// argument and touches nothing else.
#[verifier::external_body]
pub(crate) fn bind_text(q: PreparedQuery, v: String) -> (r: PreparedQuery)
    ensures
        query_sql(r) == query_sql(q),
        query_args(r) == query_args(q).push(ValueModel::Text(v@)),
{
    PreparedQuery { inner: q.inner.bind(v) }
}

/// Relies on `Query::fetch_all`: executes the statement — the SQL text
/// `query_sql(q)` with the arguments `query_args(q)`, bound positionally
/// in list order — on the connection, and materializes every result row
/// eagerly, in the engine's delivery order.  The error string always
/// carries a non-empty description.
#[verifier::external_body]
pub(crate) fn fetch_all_rows(conn: &mut SqliteConnection, q: PreparedQuery) -> (r: Result<
    Vec<SqliteRow>,
    String,
>)
    ensures
        r matches Err(m) ==> m@.len() > 0,
{
    futures::executor::block_on(q.inner.fetch_all(&mut *conn))
        .map_err(|e| format!("Query failed: {}", e))
}

/// Relies on `sqlx::Row::len`: a fetched row stores one value and one
/// column record per result column.
#[verifier::external_body]
pub(crate) fn row_len(row: &SqliteRow) -> (n: usize)
    ensures
        n == cells_of(*row).len(),
        n == columns_of(*row).len(),
{
    row.len()
}

/// Relies on `sqlx::Row::column` and `Column::name`.
#[verifier::external_body]
pub(crate) fn column_name_at(row: &SqliteRow, i: usize) -> (name: String)
    requires
        i < columns_of(*row).len(),
    ensures
        name@ == columns_of(*row)[i as int].0,
{
    row.column(i).name().to_string()
}

/// Relies on `sqlx::Row::column`, `Column::type_info` and `TypeInfo::name`:
/// the column's declared type tag, parsed from the declaration when the
/// statement has one, and the explicit tag "NULL" for an expression column
/// without one.
#[verifier::external_body]
pub(crate) fn column_type_name_at(row: &SqliteRow, i: usize) -> (name: String)
    requires
        i < columns_of(*row).len(),
    ensures
        name@ == columns_of(*row)[i as int].1,
{
    row.column(i).type_info().name().to_string()
}

/// Relies on `sqlx::Row::try_get` for `Option<i64>`: yields the integer of
/// an integer cell, and nothing from a NULL cell or a cell of any other
/// storage class.
#[verifier::external_body]
pub(crate) fn probe_int(row: &SqliteRow, i: usize) -> (r: Option<i64>)
    requires
        i < cells_of(*row).len(),
    ensures
        r == int_read(cells_of(*row)[i as int]),
{
    match row.try_get::<Option<i64>, _>(i) {
        Ok(v) => v,
        Err(_) => None,
    }
}

/// Relies on `sqlx::Row::try_get` for the engine's optional 8-byte floating
/// type: yields the float of a real cell — returned as its IEEE-754 bit
/// pattern, unchanged — and nothing from any other cell.
#[verifier::external_body]
pub(crate) fn probe_real(row: &SqliteRow, i: usize) -> (r: Option<u64>)
    requires
        i < cells_of(*row).len(),
    ensures
        r == real_read(cells_of(*row)[i as int]),
{
    match row.try_get::<Option<libsqlite3_sys::sqlite3_rtree_dbl>, _>(i) {
        Ok(Some(v)) => Some(v.to_bits()),
        _ => None,
    }
}

/// Relies on `sqlx::Row::try_get` for `Option<String>`: yields the decoded
/// UTF-8 text of a text cell, and nothing from any other cell or when the
/// stored bytes are not valid UTF-8.
#[verifier::external_body]
pub(crate) fn probe_text(row: &SqliteRow, i: usize) -> (r: Option<String>)
    requires
        i < cells_of(*row).len(),
    ensures
        match r {
            Some(s) => text_read(cells_of(*row)[i as int]) == Some(s@),
            None => text_read(cells_of(*row)[i as int]) is None,
        },
{
    match row.try_get::<Option<String>, _>(i) {
        Ok(v) => v,
        Err(_) => None,
    }
}

/// Relies on `sqlx::Row::try_get` for `Option<Vec<u8>>`: yields the raw
/// bytes of a blob cell or the UTF-8 bytes of a text cell, and nothing
/// from any other cell.
#[verifier::external_body]
pub(crate) fn probe_blob(row: &SqliteRow, i: usize) -> (r: Option<Vec<u8>>)
    requires
        i < cells_of(*row).len(),
    ensures
        match r {
            Some(b) => blob_read(cells_of(*row)[i as int]) == Some(b@),
            None => blob_read(cells_of(*row)[i as int]) is None,
        },
{
    match row.try_get::<Option<Vec<u8>>, _>(i) {
        Ok(v) => v,
        Err(_) => None,
    }
}

} // verus!
