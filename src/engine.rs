use vstd::prelude::*;

verus! {

/// A value bound to a `?N` parameter of a statement.
#[derive(Debug, Clone, PartialEq, Eq)]
pub enum SqlArg {
    Null,
    Text(String),
    Integer(i64),
}

/// One cell of a result row, by SQLite storage class. A floating-point
/// cell is kept only as its class.
#[derive(Debug, Clone, PartialEq, Eq)]
pub enum SqlValue {
    Null,
    Integer(i64),
    Real,
    Text(String),
    Blob(Vec<u8>),
}

#[verifier::external_type_specification]
#[verifier::external_body]
pub struct ExConnection(rusqlite::Connection);

#[verifier::external_type_specification]
#[verifier::external_body]
pub struct ExEngineError(rusqlite::Error);

#[verifier::external_type_specification]
#[verifier::external_body]
pub struct ExBoundValue(rusqlite::types::Value);

#[verifier::external_type_specification]
#[verifier::external_body]
pub struct ExRow<'stmt>(rusqlite::Row<'stmt>);

/// Relies on rusqlite's `Value` variants `Null`, `Text` and `Integer`, which
/// bind a NULL, a text and an integer parameter.
#[verifier::external_body]
fn bound_value(a: &SqlArg) -> rusqlite::types::Value {
    match a {
        SqlArg::Null => rusqlite::types::Value::Null,
        SqlArg::Text(s) => rusqlite::types::Value::Text(s.clone()),
        SqlArg::Integer(n) => rusqlite::types::Value::Integer(*n),
    }
}

/// Relies on `Row::get_ref` and `Row::get`: the storage class of cell `i`,
/// with its value; a text cell that is not UTF-8 is an error.
#[verifier::external_body]
fn read_cell(row: &rusqlite::Row<'_>, i: usize) -> Result<SqlValue, rusqlite::Error> {
    Ok(match row.get_ref(i)? {
        rusqlite::types::ValueRef::Null => SqlValue::Null,
        rusqlite::types::ValueRef::Integer(n) => SqlValue::Integer(n),
        rusqlite::types::ValueRef::Real(_) => SqlValue::Real,
        rusqlite::types::ValueRef::Text(_) => SqlValue::Text(row.get::<usize, String>(i)?),
        rusqlite::types::ValueRef::Blob(b) => SqlValue::Blob(b.to_vec()),
    })
}

/// Relies on `Connection::execute`: runs one statement with `args` bound to
/// `?1`, `?2`, ... and hands back the number of rows it changed. What comes
/// back depends on the database, so nothing is promised of it.
#[verifier::external_body]
pub(crate) fn execute(conn: &rusqlite::Connection, sql: &str, args: &Vec<SqlArg>) -> Result<
    usize,
    rusqlite::Error,
> {
    conn.execute(sql, rusqlite::params_from_iter(args.iter().map(bound_value)))
}

/// Relies on `Connection::prepare` and `Statement::query_map`: runs one query
/// with `args` bound to `?1`, `?2`, ... and hands back every result row, as its
/// cells or as the error met while reading it. What comes back depends on the
/// database, so nothing is promised of it.
#[verifier::external_body]
pub(crate) fn query_rows(conn: &rusqlite::Connection, sql: &str, args: &Vec<SqlArg>) -> Result<
    Vec<Result<Vec<SqlValue>, rusqlite::Error>>,
    rusqlite::Error,
> {
    let mut stmt = conn.prepare(sql)?;
    let width = stmt.column_count();
    let rows = stmt.query_map(rusqlite::params_from_iter(args.iter().map(bound_value)), |row| {
        (0..width).map(|i| read_cell(row, i)).collect::<Result<Vec<SqlValue>, rusqlite::Error>>()
    })?;
    Ok(rows.collect())
}

/// Relies on the `Display` impl of `rusqlite::Error`: the engine's message.
#[verifier::external_body]
pub(crate) fn error_text(e: &rusqlite::Error) -> String {
    e.to_string()
}

} // verus!
