//! Parametrised SQL statements over the feeds table, rendered by `sea_query`
//! for SQLite and bound for `rusqlite`.
//!
//! The text of a statement is `sea_query`'s to decide; this module names it
//! and fixes what is handed over: the table, the columns and the values, in
//! order.

use chrono::{FixedOffset, TimeZone};
use sea_query::{Expr, ExprTrait, Query, SqliteQueryBuilder, Value};
use sea_query_rusqlite::{RusqliteBinder, RusqliteValues};
use vstd::prelude::*;

use crate::timestamp::Timestamp;

verus! {

/// `sea_query::Value`, one value on its way into a statement. Nothing is
/// claimed of it; it is made and handed on.
#[verifier::external_type_specification]
#[verifier::external_body]
pub struct ExValue(sea_query::Value);

/// `sea_query_rusqlite::RusqliteValues`, the values bound to a statement's
/// placeholders, in the order of the placeholders.
#[verifier::external_type_specification]
#[verifier::external_body]
pub struct ExRusqliteValues(sea_query_rusqlite::RusqliteValues);

/// The table that holds the feeds.
pub const TABLE: &'static str = "feeds";

/// A column of the feeds table.
#[derive(Debug, Clone, Copy, PartialEq, Eq, Structural)]
pub enum Column {
    Id,
    Title,
    Link,
    Status,
    CheckedAt,
}

impl Column {
    /// The column's name in the schema.
    pub open spec fn text(self) -> Seq<char> {
        match self {
            Column::Id => "id"@,
            Column::Title => "title"@,
            Column::Link => "link"@,
            Column::Status => "status"@,
            Column::CheckedAt => "checked_at"@,
        }
    }

    /// The column's name in the schema.
    pub fn name(&self) -> (r: &'static str)
        ensures
            r@ == self.text(),
    {
        match self {
            Column::Id => "id",
            Column::Title => "title",
            Column::Link => "link",
            Column::Status => "status",
            Column::CheckedAt => "checked_at",
        }
    }
}

/// A value to bind to a placeholder.
#[derive(Debug, PartialEq)]
pub enum SqlValue {
    Int(i32),
    Text(String),
    Instant(Timestamp),
}

/// What a bound value holds. `Unsigned` is a row limit, which only the
/// statement renderer binds.
pub ghost enum Param {
    Int(i32),
    Unsigned(u64),
    Text(Seq<char>),
    Instant(Timestamp),
}

impl View for SqlValue {
    type V = Param;

    open spec fn view(&self) -> Param {
        match self {
            SqlValue::Int(i) => Param::Int(*i),
            SqlValue::Text(s) => Param::Text(s@),
            SqlValue::Instant(t) => Param::Instant(*t),
        }
    }
}

/// One column set to one value, as an update does.
#[derive(Debug, PartialEq)]
pub struct Assignment {
    pub column: Column,
    pub value: SqlValue,
}

/// A statement ready to execute: its text, and the values for its
/// placeholders.
#[derive(Debug, PartialEq)]
pub struct Statement {
    pub sql: String,
    pub values: RusqliteValues,
}

/// The names of some columns, in order.
pub open spec fn column_names(columns: Seq<Column>) -> Seq<Seq<char>> {
    columns.map_values(|c: Column| c.text())
}

/// What some values hold, in order.
pub open spec fn params(values: Seq<SqlValue>) -> Seq<Param> {
    values.map_values(|v: SqlValue| v@)
}

/// The names of the columns that some assignments set, in order.
pub open spec fn assigned_columns(assignments: Seq<Assignment>) -> Seq<Seq<char>> {
    assignments.map_values(|a: Assignment| a.column.text())
}

/// What the values that some assignments set hold, in order.
pub open spec fn assigned_params(assignments: Seq<Assignment>) -> Seq<Param> {
    assignments.map_values(|a: Assignment| a.value@)
}

/// What a `RusqliteValues` holds, first placeholder first: an `Int` for a
/// 32-bit integer, an `Unsigned` for a 64-bit unsigned one, a `Text` for a
/// string, an `Instant` for a date and time with a fixed offset.
pub uninterp spec fn bound_values(values: RusqliteValues) -> Seq<Param>;

/// What a `sea_query::Value` holds: an `Int` for `Value::Int`, an `Unsigned`
/// for `Value::BigUnsigned`, a `Text` for `Value::String`, an `Instant` for
/// `Value::ChronoDateTimeWithTimeZone`.
pub uninterp spec fn value_param(value: Value) -> Param;

/// The text that `sea_query` renders for SQLite for an insert of one row of
/// the given values into the given columns of a table.
pub uninterp spec fn insert_sql(table: Seq<char>, columns: Seq<Seq<char>>, values: Seq<Param>) -> Seq<char>;

/// The text that `sea_query` renders for SQLite for a select of the given
/// columns of every row of a table.
pub uninterp spec fn select_all_sql(table: Seq<char>, columns: Seq<Seq<char>>) -> Seq<char>;

/// The text that `sea_query` renders for SQLite for a select of the given
/// columns of the rows of a table whose key column equals `id`, limited to
/// `limit` rows.
pub uninterp spec fn select_where_sql(
    table: Seq<char>,
    columns: Seq<Seq<char>>,
    key: Seq<char>,
    id: i32,
    limit: u64,
) -> Seq<char>;

/// The text that `sea_query` renders for SQLite for an update that sets the
/// given columns to the given values in the rows of a table whose key column
/// equals `id`.
pub uninterp spec fn update_sql(
    table: Seq<char>,
    columns: Seq<Seq<char>>,
    values: Seq<Param>,
    key: Seq<char>,
    id: i32,
) -> Seq<char>;

/// The text that `sea_query` renders for SQLite for a delete of the rows of
/// a table whose key column equals `id`.
pub uninterp spec fn delete_sql(table: Seq<char>, key: Seq<char>, id: i32) -> Seq<char>;

/// `sea_query::Value::from` on an `i32`: the value holds that integer.
#[verifier::external_body]
fn int_value(i: i32) -> (r: Value)
    ensures
        value_param(r) == Param::Int(i),
{
    Value::from(i)
}

/// `sea_query::Value::from` on a `&str`: the value holds a copy of that
/// text.
#[verifier::external_body]
fn text_value(s: &str) -> (r: Value)
    ensures
        value_param(r) == Param::Text(s@),
{
    Value::from(s)
}

/// `sea_query::Value::from` on a `chrono::DateTime<FixedOffset>`, which is
/// made by `FixedOffset::east_opt` and `TimeZone::timestamp_opt`. Both accept
/// every well-formed timestamp: an offset of less than a day, seconds within
/// chrono's years, and nanoseconds past one second only in a minute's last
/// second. The value holds the instant with these seconds, nanoseconds and
/// offset.
#[verifier::external_body]
fn instant_value(t: Timestamp) -> (r: Value)
    requires
        t.wf(),
    ensures
        value_param(r) == Param::Instant(t),
{
    let zone = FixedOffset::east_opt(t.offset()).unwrap();
    Value::from(zone.timestamp_opt(t.secs(), t.nanos()).unwrap())
}

/// The `sea_query` value for a value of this library: it holds what the
/// given value holds.
pub(crate) fn to_value(v: &SqlValue) -> (r: Value)
    ensures
        value_param(r) == v@,
{
    match v {
        SqlValue::Int(i) => int_value(*i),
        SqlValue::Text(s) => text_value(s.as_str()),
        SqlValue::Instant(t) => {
            proof {
                use_type_invariant(t);
            }
            instant_value(*t)
        },
    }
}

/// `Query::insert` with `into_table`, `columns`, `values_panic` and
/// `build_rusqlite`. The text is the renderer's; the bound values are the
/// given ones, in order, since the renderer writes a placeholder for each
/// value as it comes. `values_panic` panics unless there are as many values
/// as columns.
#[verifier::external_body]
pub(crate) fn build_insert(table: &'static str, columns: &Vec<Column>, values: &Vec<SqlValue>) -> (r:
    Statement)
    requires
        columns@.len() == values@.len(),
    ensures
        r.sql@ == insert_sql(table@, column_names(columns@), params(values@)),
        bound_values(r.values) == params(values@),
{
    let (sql, values) = Query::insert()
        .into_table(table)
        .columns(columns.iter().map(|c| c.name()))
        .values_panic(values.iter().map(|v| Expr::from(to_value(v))))
        .build_rusqlite(SqliteQueryBuilder);
    Statement { sql, values }
}

/// `Query::select` with `columns`, `from` and `build_rusqlite`. Nothing is
/// bound.
#[verifier::external_body]
pub(crate) fn build_select_all(table: &'static str, columns: &Vec<Column>) -> (r: Statement)
    ensures
        r.sql@ == select_all_sql(table@, column_names(columns@)),
        bound_values(r.values) == Seq::<Param>::empty(),
{
    let (sql, values) = Query::select()
        .columns(columns.iter().map(|c| c.name()))
        .from(table)
        .build_rusqlite(SqliteQueryBuilder);
    Statement { sql, values }
}

/// `Query::select` with `columns`, `from`, `and_where`, `limit` and
/// `build_rusqlite`. The renderer binds the key first and the limit, as a
/// 64-bit unsigned integer, after it.
#[verifier::external_body]
pub(crate) fn build_select_where(
    table: &'static str,
    columns: &Vec<Column>,
    key: Column,
    id: i32,
    limit: u64,
) -> (r: Statement)
    ensures
        r.sql@ == select_where_sql(table@, column_names(columns@), key.text(), id, limit),
        bound_values(r.values) == seq![Param::Int(id), Param::Unsigned(limit)],
{
    let (sql, values) = Query::select()
        .columns(columns.iter().map(|c| c.name()))
        .from(table)
        .and_where(Expr::col(key.name()).eq(id))
        .limit(limit)
        .build_rusqlite(SqliteQueryBuilder);
    Statement { sql, values }
}

/// `Query::update` with `table`, `values`, `and_where` and `build_rusqlite`.
/// The renderer binds the assigned values in order and the key after them.
#[verifier::external_body]
pub(crate) fn build_update(
    table: &'static str,
    assignments: &Vec<Assignment>,
    key: Column,
    id: i32,
) -> (r: Statement)
    ensures
        r.sql@ == update_sql(
            table@,
            assigned_columns(assignments@),
            assigned_params(assignments@),
            key.text(),
            id,
        ),
        bound_values(r.values) == assigned_params(assignments@).push(Param::Int(id)),
{
    let (sql, values) = Query::update()
        .table(table)
        .values(assignments.iter().map(|a| (a.column.name(), Expr::from(to_value(&a.value)))))
        .and_where(Expr::col(key.name()).eq(id))
        .build_rusqlite(SqliteQueryBuilder);
    Statement { sql, values }
}

/// `Query::delete` with `from_table`, `and_where` and `build_rusqlite`. The
/// key is the one value bound.
#[verifier::external_body]
pub(crate) fn build_delete(table: &'static str, key: Column, id: i32) -> (r: Statement)
    ensures
        r.sql@ == delete_sql(table@, key.text(), id),
        bound_values(r.values) == seq![Param::Int(id)],
{
    let (sql, values) = Query::delete()
        .from_table(table)
        .and_where(Expr::col(key.name()).eq(id))
        .build_rusqlite(SqliteQueryBuilder);
    Statement { sql, values }
}

} // verus!
