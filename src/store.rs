use vstd::prelude::*;

use crate::engine::{error_text, execute, query_rows, SqlArg, SqlValue};
use crate::error::StoreError;
use crate::ident::{is_valid_table_name, TableName};
use crate::page::{page_offset, PageBuilder, PaginatedResult};
use crate::row::{
    count_of, decode_count, decode_names, decode_rows, items_of, views, Table, TableView,
};
use crate::sql::{
    adjust_sql, adjust_text, contains_pattern, contains_pattern_text, count_sql, create_table_sql,
    insert_sql, insert_text, list_sql, list_text, lookup_sql, lookup_text, page_sql, ConflictPolicy,
    Step,
};

verus! {

/// An error of the engine, as this library reports it.
fn db_error(e: rusqlite::Error) -> (r: StoreError)
    ensures
        r is Database,
{
    StoreError::Database(error_text(&e))
}

/// An engine failure, and no other kind of error.
pub open spec fn is_engine_failure<T>(r: Result<T, StoreError>) -> bool {
    r is Err && r->Err_0 is Database
}

/// The outcome that a write to a table with the name `name` may have:
/// a rejected name is reported as such and nothing else is done; a valid
/// name leaves the outcome to the engine.
pub open spec fn write_outcome(name: Seq<char>, r: Result<(), StoreError>) -> bool {
    &&& !is_valid_table_name(name) ==> r == Err::<(), StoreError>(StoreError::InvalidIdentifier)
    &&& is_valid_table_name(name) ==> (r is Ok || is_engine_failure(r))
}

/// The text parameter `s`.
pub open spec fn text_arg(a: SqlArg, s: Seq<char>) -> bool {
    a is Text && a->Text_0@ == s
}

/// The parameters `?1` to `?5` of an insert of `t`; a missing brand is NULL.
pub open spec fn binds_row(args: Seq<SqlArg>, t: TableView) -> bool {
    &&& args.len() == 5
    &&& text_arg(args[0], t.id)
    &&& text_arg(args[1], t.name)
    &&& args[2] == SqlArg::Integer(t.price as i64)
    &&& args[3] == SqlArg::Integer(t.inventory)
    &&& match t.brand {
        Some(b) => text_arg(args[4], b),
        None => args[4] == SqlArg::Null,
    }
}

/// The values bound to an insert of `row`: id, name, price, inventory, brand.
pub fn insert_args(row: &Table) -> (r: Vec<SqlArg>)
    ensures
        binds_row(r@, row@),
{
    let mut args: Vec<SqlArg> = Vec::new();
    args.push(SqlArg::Text(row.id.clone()));
    args.push(SqlArg::Text(row.name.clone()));
    args.push(SqlArg::Integer(row.price as i64));
    args.push(SqlArg::Integer(row.inventory));
    match &row.brand {
        Some(b) => args.push(SqlArg::Text(b.clone())),
        None => args.push(SqlArg::Null),
    }
    args
}

/// The conflict policy of a write with or without `import`.
pub open spec fn policy_of(import: bool) -> ConflictPolicy {
    if import {
        ConflictPolicy::MergeInventory
    } else {
        ConflictPolicy::IgnoreDuplicate
    }
}

/// What a write of `rows` into `t` hands to the engine: one insert
/// statement, under the policy that `import` selects, and the parameters of
/// each row, in the order of `rows`.
pub fn write_plan(t: &TableName, rows: &Vec<Table>, import: bool) -> (r: (String, Vec<Vec<SqlArg>>))
    ensures
        r.0@ == insert_text(t@, policy_of(import)),
        r.1@.len() == rows@.len(),
        forall|i: int| 0 <= i < rows@.len() ==> binds_row(#[trigger] r.1@[i]@, rows@[i]@),
{
    let sql = insert_sql(t, ConflictPolicy::from_import(import));
    let mut all: Vec<Vec<SqlArg>> = Vec::new();
    let mut i: usize = 0;
    while i < rows.len()
        invariant
            i <= rows.len(),
            all@.len() == i,
            forall|j: int| 0 <= j < i ==> binds_row(#[trigger] all@[j]@, rows@[j]@),
        decreases rows.len() - i,
    {
        all.push(insert_args(&rows[i]));
        i = i + 1;
    }
    (sql, all)
}

fn provision(conn: &rusqlite::Connection, t: &TableName) -> (r: Result<(), StoreError>)
    ensures
        r is Ok || is_engine_failure(r),
{
    let sql = create_table_sql(t);
    match execute(conn, sql.as_str(), &Vec::new()) {
        Ok(_) => Ok(()),
        Err(e) => Err(db_error(e)),
    }
}

/// Creates the item table `table_name` unless it exists. A table that exists
/// already is left as it is, whatever its columns.
pub fn ensure_table(conn: &rusqlite::Connection, table_name: &str) -> (r: Result<(), StoreError>)
    ensures
        write_outcome(table_name@, r),
{
    let t = TableName::parse(table_name)?;
    provision(conn, &t)
}

/// Writes `rows` into the table `table_name`, creating the table first if it
/// does not exist. With `import`, a row whose id is already stored adds its
/// inventory to the stored row; without, it is skipped. The first failure
/// stops the write and is returned; rows written before it stay written.
pub fn create_table(
    conn: &rusqlite::Connection,
    table_name: &str,
    rows: &Vec<Table>,
    import: bool,
) -> (r: Result<(), StoreError>)
    ensures
        write_outcome(table_name@, r),
{
    let t = TableName::parse(table_name)?;
    provision(conn, &t)?;
    let (sql, all) = write_plan(&t, rows, import);
    let mut i: usize = 0;
    while i < all.len()
        invariant
            i <= all.len(),
            is_valid_table_name(table_name@),
        decreases all.len() - i,
    {
        match execute(conn, sql.as_str(), &all[i]) {
            Ok(_) => {},
            Err(e) => {
                return Err(db_error(e));
            },
        }
        i = i + 1;
    }
    Ok(())
}

/// What a catalog listing hands to the engine: with a filter, the query of
/// the matching tables and the pattern for "contains the filter"; without,
/// the query of all tables and no parameter.
pub fn list_plan(name_filter: Option<&str>) -> (r: (String, Vec<SqlArg>))
    ensures
        r.0@ == list_text(name_filter is Some),
        name_filter is None ==> r.1@.len() == 0,
        name_filter is Some ==> r.1@.len() == 1 && text_arg(
            r.1@[0],
            contains_pattern_text(name_filter->Some_0@),
        ),
{
    let mut args: Vec<SqlArg> = Vec::new();
    match name_filter {
        Some(f) => {
            args.push(SqlArg::Text(contains_pattern(f)));
            (list_sql(true), args)
        },
        None => (list_sql(false), args),
    }
}

/// The names of the tables in the database, in the engine's order; with a
/// filter, only those whose name contains it (ASCII letters match regardless
/// of case, as in SQLite's LIKE).
pub fn list_tables(conn: &rusqlite::Connection, name_filter: Option<&str>) -> (r: Result<
    Vec<String>,
    StoreError,
>)
    ensures
        r is Ok || is_engine_failure(r),
{
    let (sql, args) = list_plan(name_filter);
    match query_rows(conn, sql.as_str(), &args) {
        Ok(rows) => Ok(decode_names(&rows)),
        Err(e) => Err(db_error(e)),
    }
}

/// The names of all tables in the database.
pub fn get_table_name(conn: &rusqlite::Connection) -> (r: Result<Vec<String>, StoreError>)
    ensures
        r is Ok || is_engine_failure(r),
{
    list_tables(conn, None)
}

/// The parameters of the count query: the patterns for "id contains `id`"
/// and "name contains `name`".
pub fn filter_args(id: &str, name: &str) -> (r: Vec<SqlArg>)
    ensures
        r@.len() == 2,
        text_arg(r@[0], contains_pattern_text(id@)),
        text_arg(r@[1], contains_pattern_text(name@)),
{
    let mut args: Vec<SqlArg> = Vec::new();
    args.push(SqlArg::Text(contains_pattern(id)));
    args.push(SqlArg::Text(contains_pattern(name)));
    args
}

/// The offset as the engine takes it, held at `i64::MAX`.
pub open spec fn offset_value(offset: u64) -> i64 {
    if offset <= i64::MAX as u64 {
        offset as i64
    } else {
        i64::MAX
    }
}

/// The parameters of the page query: the two patterns of `filter_args`, the
/// page size as the limit, and the offset.
pub fn page_args(id: &str, name: &str, page_size: u32, offset: u64) -> (r: Vec<SqlArg>)
    ensures
        r@.len() == 4,
        text_arg(r@[0], contains_pattern_text(id@)),
        text_arg(r@[1], contains_pattern_text(name@)),
        r@[2] == SqlArg::Integer(page_size as i64),
        r@[3] == SqlArg::Integer(offset_value(offset)),
{
    let mut args = filter_args(id, name);
    args.push(SqlArg::Integer(page_size as i64));
    let o: i64 = if offset <= i64::MAX as u64 {
        offset as i64
    } else {
        i64::MAX
    };
    args.push(SqlArg::Integer(o));
    args
}

/// What one table contributes to a query, from what the engine gave for its
/// count query and for its page query: a failed query contributes nothing.
pub fn table_part<E>(
    count: &Result<Vec<Result<Vec<SqlValue>, E>>, E>,
    fetched: &Result<Vec<Result<Vec<SqlValue>, E>>, E>,
) -> (r: (Option<u64>, Vec<Table>))
    ensures
        r.0 == (if count is Ok {
            count_of(count->Ok_0@)
        } else {
            None
        }),
        views(r.1@) == (if fetched is Ok {
            items_of(fetched->Ok_0@)
        } else {
            Seq::empty()
        }),
{
    let c = match count {
        Ok(rows) => decode_count(rows),
        Err(_) => None,
    };
    let items = match fetched {
        Ok(rows) => decode_rows(rows),
        Err(_) => {
            let v: Vec<Table> = Vec::new();
            proof {
                assert(views(v@) =~= Seq::empty());
            }
            v
        },
    };
    (c, items)
}

/// Page `page` (counted from 1, `page_size` rows per table) of the rows whose
/// id contains `id` and whose name contains `name`, over every table whose
/// name contains `table_name`, with the number of pages that all matching
/// rows fill. Each table is paged on its own; rows come in table order, then
/// in the engine's order. A table that the engine cannot count or page
/// contributes nothing to that part. A zero page or page size is rejected.
pub fn get_requested_data(
    conn: &rusqlite::Connection,
    table_name: &str,
    id: &str,
    name: &str,
    page: u32,
    page_size: u32,
) -> (r: Result<PaginatedResult, StoreError>)
    ensures
        (page == 0 || page_size == 0) <==> r is Err && r->Err_0 == StoreError::Validation,
        r is Ok || r->Err_0 == StoreError::Validation || r->Err_0 is Database,
{
    let offset = page_offset(page, page_size)?;
    let tables = list_tables(conn, Some(table_name))?;
    let mut acc = PageBuilder::new();
    let mut i: usize = 0;
    while i < tables.len()
        invariant
            i <= tables.len(),
        decreases tables.len() - i,
    {
        match TableName::parse(tables[i].as_str()) {
            Ok(t) => {
                let counted = query_rows(conn, count_sql(&t).as_str(), &filter_args(id, name));
                let fetched = query_rows(
                    conn,
                    page_sql(&t).as_str(),
                    &page_args(id, name, page_size, offset),
                );
                let (c, items) = table_part(&counted, &fetched);
                acc.add_table(c, items);
            },
            Err(_) => {},
        }
        i = i + 1;
    }
    Ok(acc.finish(page_size))
}

/// The outcome of an adjustment that changed `affected` rows.
pub fn adjust_outcome(affected: usize) -> (r: Result<(), StoreError>)
    ensures
        affected == 0 <==> r == Err::<(), StoreError>(StoreError::NotFound),
        affected > 0 <==> r is Ok,
{
    if affected == 0 {
        Err(StoreError::NotFound)
    } else {
        Ok(())
    }
}

/// The outcome of looking a table up in the catalog: `NotFound` when no row
/// names it.
pub fn lookup_outcome<R>(rows: &Vec<R>) -> (r: Result<(), StoreError>)
    ensures
        rows@.len() == 0 <==> r == Err::<(), StoreError>(StoreError::NotFound),
        rows@.len() > 0 <==> r is Ok,
{
    if rows.len() == 0 {
        Err(StoreError::NotFound)
    } else {
        Ok(())
    }
}

/// The catalog lookup of `t`: the query and `t` as its parameter.
pub fn lookup_plan(t: &TableName) -> (r: (String, Vec<SqlArg>))
    ensures
        r.0@ == lookup_text(),
        r.1@.len() == 1,
        text_arg(r.1@[0], t@),
{
    let mut args: Vec<SqlArg> = Vec::new();
    args.push(SqlArg::Text(t.as_str().to_owned()));
    (lookup_sql(), args)
}

/// The update that moves the inventory of the row `id` of `t` by `step`,
/// with `id` as its parameter.
pub fn adjust_plan(t: &TableName, id: &str, step: Step) -> (r: (String, Vec<SqlArg>))
    ensures
        r.0@ == adjust_text(t@, step),
        r.1@.len() == 1,
        text_arg(r.1@[0], id@),
{
    let mut args: Vec<SqlArg> = Vec::new();
    args.push(SqlArg::Text(id.to_owned()));
    (adjust_sql(t, step), args)
}

/// The outcome that an adjustment of a row of the table `name` may have.
pub open spec fn adjust_result(name: Seq<char>, r: Result<(), StoreError>) -> bool {
    &&& !is_valid_table_name(name) ==> r == Err::<(), StoreError>(StoreError::InvalidIdentifier)
    &&& is_valid_table_name(name) ==> (r is Ok || r == Err::<(), StoreError>(StoreError::NotFound)
        || is_engine_failure(r))
}

/// Moves the inventory of the row `id` of the table `table_name` by one step.
/// A missing table and a missing row are both reported as `NotFound`.
pub fn adjust_inventory(
    conn: &rusqlite::Connection,
    table_name: &str,
    id: &str,
    step: Step,
) -> (r: Result<(), StoreError>)
    ensures
        adjust_result(table_name@, r),
{
    let t = TableName::parse(table_name)?;
    let (find, key) = lookup_plan(&t);
    match query_rows(conn, find.as_str(), &key) {
        Ok(rows) => lookup_outcome(&rows)?,
        Err(e) => {
            return Err(db_error(e));
        },
    }
    let (update, args) = adjust_plan(&t, id, step);
    match execute(conn, update.as_str(), &args) {
        Ok(n) => adjust_outcome(n),
        Err(e) => Err(db_error(e)),
    }
}

/// Adds one to the inventory of the row `id` of the table `table_name`.
pub fn increment_item_inventory(conn: &rusqlite::Connection, id: &str, table_name: &str) -> (r:
    Result<(), StoreError>)
    ensures
        adjust_result(table_name@, r),
{
    adjust_inventory(conn, table_name, id, Step::Increment)
}

/// Takes one from the inventory of the row `id` of the table `table_name`;
/// the inventory may go below zero.
pub fn decrement_item_inventory(conn: &rusqlite::Connection, id: &str, table_name: &str) -> (r:
    Result<(), StoreError>)
    ensures
        adjust_result(table_name@, r),
{
    adjust_inventory(conn, table_name, id, Step::Decrement)
}

} // verus!
