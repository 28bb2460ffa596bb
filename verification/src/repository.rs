//! The five repository operations. Each one decides which statement the
//! store is to execute; what the store hands back for a read is then mapped
//! to entities here.

use vstd::prelude::*;

use crate::feed::{feed_of_row, DataIntegrityError, Feed, FeedRow, FeedRowView, FeedToCreate, FeedToUpdate, FeedView};
use crate::statement::{
    assigned_columns, assigned_params, bound_values, build_delete, build_insert, build_select_all,
    build_select_where, build_update, column_names, delete_sql, insert_sql, select_all_sql,
    params, select_where_sql, update_sql, Assignment, Column, Param, SqlValue, Statement, TABLE,
};
use crate::status::render;
use crate::timestamp::Timestamp;

verus! {

/// What is to be done for an operation that may need no statement.
#[derive(Debug, PartialEq)]
pub enum Plan {
    /// Nothing is to be executed; this many rows are affected.
    Done(usize),
    /// The statement is to be executed; the store counts the affected rows.
    Execute(Statement),
}

/// The columns that an entity is read from.
pub open spec fn read_columns() -> Seq<Column> {
    seq![Column::Id, Column::Title, Column::Link, Column::Status, Column::CheckedAt]
}

/// The columns that a create writes. The status is not among them: the
/// store's default decides it.
pub open spec fn create_columns() -> Seq<Column> {
    seq![Column::Title, Column::Link, Column::CheckedAt]
}

/// The values that a create writes: the title, the link, and the instant of
/// creation in UTC.
pub open spec fn create_params(title: Seq<char>, link: Seq<char>, now: Timestamp) -> Seq<Param> {
    seq![Param::Text(title), Param::Text(link), Param::Instant(now.spec_in_utc())]
}

/// Whether `s` is the statement that adds a feed with the given title and
/// link, created at `now`.
pub open spec fn is_create_statement(
    s: Statement,
    title: Seq<char>,
    link: Seq<char>,
    now: Timestamp,
) -> bool {
    &&& s.sql@ == insert_sql(
        TABLE@,
        column_names(create_columns()),
        create_params(title, link, now),
    )
    &&& bound_values(s.values) == create_params(title, link, now)
}

/// Whether `s` is the statement that adds a feed with the given title and
/// link, created at some instant written in UTC.
pub open spec fn is_create_statement_in_utc(s: Statement, title: Seq<char>, link: Seq<char>) -> bool {
    exists|now: Timestamp|
        now.spec_offset() == 0 && #[trigger] is_create_statement(s, title, link, now)
}

/// What an update sets for one column: the supplied value, or nothing where
/// the field is absent. The id is never set.
pub open spec fn assignment_for(arg: FeedToUpdate, column: Column) -> Option<Param> {
    match column {
        Column::Id => None,
        Column::Title => match arg.title {
            Some(title) => Some(Param::Text(title@)),
            None => None,
        },
        Column::Link => match arg.link {
            Some(link) => Some(Param::Text(link@)),
            None => None,
        },
        Column::Status => match arg.status {
            Some(status) => Some(Param::Text(render(status))),
            None => None,
        },
        Column::CheckedAt => match arg.checked_at {
            Some(at) => Some(Param::Instant(at)),
            None => None,
        },
    }
}

/// The assignment of one column as a sequence: one pair where the update
/// sets the column, none where it does not.
pub open spec fn assignment_part(arg: FeedToUpdate, column: Column) -> Seq<(Column, Param)> {
    match assignment_for(arg, column) {
        Some(param) => seq![(column, param)],
        None => Seq::empty(),
    }
}

/// The assignments of an update, in the order title, link, status, time of
/// last check.
pub open spec fn assignments_of(arg: FeedToUpdate) -> Seq<(Column, Param)> {
    assignment_part(arg, Column::Title) + assignment_part(arg, Column::Link) + assignment_part(
        arg,
        Column::Status,
    ) + assignment_part(arg, Column::CheckedAt)
}

/// Whether an update supplies no field at all.
pub open spec fn is_empty_update(arg: FeedToUpdate) -> bool {
    arg.title is None && arg.link is None && arg.status is None && arg.checked_at is None
}

/// Assignments as pairs of a column and what its value holds.
pub open spec fn assignment_pairs(assignments: Seq<Assignment>) -> Seq<(Column, Param)> {
    assignments.map_values(|a: Assignment| (a.column, a.value@))
}

/// The statement that updates the row `arg.id` with the assignments of `arg`.
pub open spec fn is_update_statement(s: Statement, arg: FeedToUpdate) -> bool {
    let pairs = assignments_of(arg);
    let columns = pairs.map_values(|p: (Column, Param)| p.0.text());
    let values = pairs.map_values(|p: (Column, Param)| p.1);
    &&& s.sql@ == update_sql(TABLE@, columns, values, Column::Id.text(), arg.id)
    &&& bound_values(s.values) == values.push(Param::Int(arg.id))
}

/// What a read of one row gives: nothing for no row, the entity for a row
/// with a known status, an error for any other row.
pub open spec fn read_outcome(row: Option<FeedRowView>) -> Result<Option<FeedView>, DataIntegrityError> {
    match row {
        None => Ok(None),
        Some(row) => match feed_of_row(row) {
            Some(feed) => Ok(Some(feed)),
            None => Err(DataIntegrityError { id: row.id }),
        },
    }
}

/// Whether `k` is the place of the first row whose status is unknown.
pub open spec fn is_first_unknown(rows: Seq<FeedRowView>, k: int) -> bool {
    &&& 0 <= k < rows.len()
    &&& feed_of_row(rows[k]) is None
    &&& forall|j: int| 0 <= j < k ==> (#[trigger] feed_of_row(rows[j])) is Some
}

/// Whether `r` is what a read of all rows gives: the entities of the rows in
/// the store's order, or an error that names the first row whose status is
/// unknown.
pub open spec fn is_read_all_outcome(
    rows: Seq<FeedRowView>,
    r: Result<Seq<FeedView>, DataIntegrityError>,
) -> bool {
    match r {
        Ok(feeds) => {
            &&& feeds.len() == rows.len()
            &&& forall|i: int|
                0 <= i < rows.len() ==> (#[trigger] feed_of_row(rows[i])) == Some(feeds[i])
        },
        Err(e) => exists|k: int| #[trigger] is_first_unknown(rows, k) && e.id == rows[k].id,
    }
}

/// The rows of a vector, each by its view.
pub open spec fn row_views(rows: Seq<FeedRow>) -> Seq<FeedRowView> {
    rows.map_values(|row: FeedRow| row@)
}

/// The feeds of a vector, each by its view.
pub open spec fn feed_views(feeds: Seq<Feed>) -> Seq<FeedView> {
    feeds.map_values(|feed: Feed| feed@)
}

/// The statement that adds a feed now: it writes the title, the link and
/// the current instant in UTC, and leaves id and status to the store.
pub fn create(arg: FeedToCreate) -> (r: Statement)
    ensures
        is_create_statement_in_utc(r, arg.title@, arg.link@),
{
    let ghost title = arg.title@;
    let ghost link = arg.link@;
    let now = Timestamp::now();
    let statement = create_at(arg, now);
    assert(now.spec_offset() == 0 && is_create_statement(statement, title, link, now));
    statement
}

/// The statement that adds a feed created at `now`: it writes the title, the
/// link and `now` in UTC, and leaves id and status to the store.
pub fn create_at(arg: FeedToCreate, now: Timestamp) -> (r: Statement)
    ensures
        is_create_statement(r, arg.title@, arg.link@, now),
{
    let columns = vec![Column::Title, Column::Link, Column::CheckedAt];
    let values = vec![
        SqlValue::Text(arg.title),
        SqlValue::Text(arg.link),
        SqlValue::Instant(now.in_utc()),
    ];
    proof {
        assert(columns@ =~= create_columns());
        assert(params(values@) =~= create_params(arg.title@, arg.link@, now));
    }
    build_insert(TABLE, &columns, &values)
}

/// The statement that reads every feed, in the store's own order.
pub fn read_all() -> (r: Statement)
    ensures
        r.sql@ == select_all_sql(TABLE@, column_names(read_columns())),
        bound_values(r.values) == Seq::<Param>::empty(),
{
    let columns = vec![Column::Id, Column::Title, Column::Link, Column::Status, Column::CheckedAt];
    proof {
        assert(columns@ =~= read_columns());
    }
    build_select_all(TABLE, &columns)
}

/// Maps the rows that the store handed back to entities, in their order. One
/// row with an unknown status fails the whole read: the error names the
/// first such row.
pub fn feeds_from_rows(rows: &Vec<FeedRow>) -> (r: Result<Vec<Feed>, DataIntegrityError>)
    ensures
        is_read_all_outcome(
            row_views(rows@),
            match r {
                Ok(feeds) => Ok(feed_views(feeds@)),
                Err(e) => Err(e),
            },
        ),
{
    let mut feeds: Vec<Feed> = Vec::new();
    let mut i: usize = 0;
    while i < rows.len()
        invariant
            i <= rows@.len(),
            feeds@.len() == i,
            forall|j: int|
                0 <= j < i ==> (#[trigger] feed_of_row(row_views(rows@)[j])) == Some(
                    feed_views(feeds@)[j],
                ),
        decreases rows@.len() - i,
    {
        match Feed::from_row(&rows[i]) {
            Ok(feed) => {
                feeds.push(feed);
            },
            Err(e) => {
                proof {
                    assert(is_first_unknown(row_views(rows@), i as int));
                }
                return Err(e);
            },
        }
        i = i + 1;
    }
    Ok(feeds)
}

/// The statement that reads the feed `id`, one row at most.
pub fn read(id: i32) -> (r: Statement)
    ensures
        r.sql@ == select_where_sql(
            TABLE@,
            column_names(read_columns()),
            Column::Id.text(),
            id,
            1,
        ),
        bound_values(r.values) == seq![Param::Int(id), Param::Unsigned(1)],
{
    let columns = vec![Column::Id, Column::Title, Column::Link, Column::Status, Column::CheckedAt];
    proof {
        assert(columns@ =~= read_columns());
    }
    build_select_where(TABLE, &columns, Column::Id, id, 1)
}

/// Maps what the store handed back for one id: no row is no feed and no
/// error; a row is its entity, or an error where its status is unknown.
pub fn feed_from_row(row: Option<FeedRow>) -> (r: Result<Option<Feed>, DataIntegrityError>)
    ensures
        read_outcome(
            match row {
                Some(row) => Some(row@),
                None => None,
            },
        ) == (match r {
            Ok(Some(feed)) => Ok::<Option<FeedView>, DataIntegrityError>(Some(feed@)),
            Ok(None) => Ok(None),
            Err(e) => Err(e),
        }),
{
    match row {
        None => Ok(None),
        Some(row) => match Feed::from_row(&row) {
            Ok(feed) => Ok(Some(feed)),
            Err(e) => Err(e),
        },
    }
}

/// The assignments of an update: one for each field supplied, in the order
/// title, link, status, time of last check. The status is written in its
/// persisted spelling.
pub fn update_assignments(arg: &FeedToUpdate) -> (r: Vec<Assignment>)
    ensures
        assignment_pairs(r@) == assignments_of(*arg),
{
    let mut assignments: Vec<Assignment> = Vec::new();
    if let Some(title) = &arg.title {
        assignments.push(Assignment { column: Column::Title, value: SqlValue::Text(title.clone()) });
    }
    if let Some(link) = &arg.link {
        assignments.push(Assignment { column: Column::Link, value: SqlValue::Text(link.clone()) });
    }
    if let Some(status) = &arg.status {
        assignments.push(
            Assignment { column: Column::Status, value: SqlValue::Text(status.to_string()) },
        );
    }
    if let Some(at) = &arg.checked_at {
        assignments.push(Assignment { column: Column::CheckedAt, value: SqlValue::Instant(*at) });
    }
    proof {
        assert(assignment_pairs(assignments@) =~= assignments_of(*arg));
    }
    assignments
}

/// What an update is to do. With no field supplied nothing is executed and
/// no row is affected; otherwise the statement sets exactly the supplied
/// fields in the row `arg.id`.
pub fn update(arg: &FeedToUpdate) -> (r: Plan)
    ensures
        match r {
            Plan::Done(n) => n == 0 && is_empty_update(*arg),
            Plan::Execute(s) => !is_empty_update(*arg) && is_update_statement(s, *arg),
        },
{
    let assignments = update_assignments(arg);
    proof {
        lemma_empty_update(*arg);
        let pairs = assignments_of(*arg);
        assert(assigned_columns(assignments@) =~= pairs.map_values(
            |p: (Column, Param)| p.0.text(),
        ));
        assert(assigned_params(assignments@) =~= pairs.map_values(|p: (Column, Param)| p.1));
    }
    if assignments.len() == 0 {
        Plan::Done(0)
    } else {
        Plan::Execute(build_update(TABLE, &assignments, Column::Id, arg.id))
    }
}

/// The statement that removes the feed `id`.
pub fn delete(id: i32) -> (r: Statement)
    ensures
        r.sql@ == delete_sql(TABLE@, Column::Id.text(), id),
        bound_values(r.values) == seq![Param::Int(id)],
{
    build_delete(TABLE, Column::Id, id)
}

/// An update has no assignment exactly when it supplies no field.
pub proof fn lemma_empty_update(arg: FeedToUpdate)
    ensures
        assignments_of(arg).len() == 0 <==> is_empty_update(arg),
{
}

/// An update is partial: a column is set exactly when its field is supplied,
/// to the supplied value, and at most once. Every other column, the id among
/// them, is left as it is.
pub proof fn lemma_update_is_partial(arg: FeedToUpdate, column: Column)
    ensures
        match assignment_for(arg, column) {
            Some(param) => exists|i: int|
                0 <= i < assignments_of(arg).len() && #[trigger] assignments_of(arg)[i] == (
                    column,
                    param,
                ),
            None => forall|i: int|
                0 <= i < assignments_of(arg).len() ==> (#[trigger] assignments_of(arg)[i]).0
                    != column,
        },
        forall|i: int, j: int|
            0 <= i < j < assignments_of(arg).len() ==> (#[trigger] assignments_of(arg)[i]).0 != (
            #[trigger] assignments_of(arg)[j]).0,
{
    let title = assignment_part(arg, Column::Title);
    let link = assignment_part(arg, Column::Link);
    let status = assignment_part(arg, Column::Status);
    let at = assignment_part(arg, Column::CheckedAt);
    let all = assignments_of(arg);
    assert(all =~= title + link + status + at);
    match assignment_for(arg, column) {
        Some(param) => {
            let i = match column {
                Column::Title => 0,
                Column::Link => title.len() as int,
                Column::Status => (title.len() + link.len()) as int,
                _ => (title.len() + link.len() + status.len()) as int,
            };
            assert(all[i] == (column, param));
        },
        None => {},
    }
}

/// Reading one row agrees with reading all: where a read of all rows gives
/// entities, a read of any one of those rows gives the entity at its place.
pub proof fn lemma_read_agrees_with_read_all(rows: Seq<FeedRowView>, feeds: Seq<FeedView>, i: int)
    requires
        is_read_all_outcome(rows, Ok(feeds)),
        0 <= i < rows.len(),
    ensures
        read_outcome(Some(rows[i])) == Ok::<Option<FeedView>, DataIntegrityError>(Some(feeds[i])),
{
}

/// A row with an unknown status fails both reads: the read of that row, and
/// the read of any rows that hold it.
pub proof fn lemma_unknown_status_fails_reads(
    rows: Seq<FeedRowView>,
    r: Result<Seq<FeedView>, DataIntegrityError>,
    i: int,
)
    requires
        0 <= i < rows.len(),
        feed_of_row(rows[i]) is None,
        is_read_all_outcome(rows, r),
    ensures
        r is Err,
        read_outcome(Some(rows[i])) == Err::<Option<FeedView>, DataIntegrityError>(
            DataIntegrityError { id: rows[i].id },
        ),
{
}

} // verus!
