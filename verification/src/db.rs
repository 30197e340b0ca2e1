//! The store: durable epics, stories and tasks in an SQLite database.
//!
//! Every statement goes to SQLite through a handful of trusted calls at the
//! top of this file, one for each function of `rusqlite` that is used. What
//! comes back depends on the database, so none of them promises anything
//! about its result; the code around them is verified for every value they
//! may hand back.

use vstd::prelude::*;
use crate::models::{Epic, EpicView, Priority, Status, Story, StoryView, Task, TaskView};
use crate::statements::{
    count_done_tasks, count_tasks, delete_epic, delete_story, delete_task, insert_epic,
    insert_story, insert_task, next_task_order, select_epics, select_stories, select_story,
    select_task, select_tasks, toggle_task, update_story_description, update_story_epic,
    update_story_priority, update_story_status, update_story_title, Prepared, SqlParam,
    CONNECTION_SETUP, SCHEMA,
};
use crate::text::str_eq;

verus! {

/// `rusqlite::Connection`, an open database; opaque here.
#[verifier::external_type_specification]
#[verifier::external_body]
pub struct ExConnection(rusqlite::Connection);

/// `rusqlite::Error`, a failure reported by the database; opaque here.
#[verifier::external_type_specification]
#[verifier::external_body]
pub struct ExError(rusqlite::Error);

/// `std::path::PathBuf`, the path of a file; opaque here.
#[verifier::external_type_specification]
#[verifier::external_body]
pub struct ExPathBuf(std::path::PathBuf);

/// `rusqlite::Statement`, a prepared statement; opaque here.
#[verifier::external_type_specification]
#[verifier::external_body]
pub struct ExStatement<'conn>(rusqlite::Statement<'conn>);

/// `rusqlite::Rows`, the rows of a running query; opaque here.
#[verifier::external_type_specification]
#[verifier::external_body]
pub struct ExRows<'stmt>(rusqlite::Rows<'stmt>);

/// `rusqlite::Row`, one row of a running query; opaque here.
#[verifier::external_type_specification]
#[verifier::external_body]
pub struct ExRow<'stmt>(rusqlite::Row<'stmt>);

/// One value read from a column of a result row.
#[derive(Debug)]
pub enum SqlValue {
    Null,
    Integer(i64),
    Text(String),
    /// A value of a type that no table of the store holds.
    Other,
}

/// Why a store operation did not succeed.
#[derive(Debug)]
pub enum StoreError {
    /// The row asked for does not exist.
    NotFound,
    /// The database reported a failure, or a row did not have the shape of
    /// the item read from it.
    Failed(String),
}

impl StoreError {
    /// The text of the error, as shown to the user.
    pub open spec fn text(self) -> Seq<char> {
        match self {
            StoreError::NotFound => "Query returned no rows"@,
            StoreError::Failed(text) => text@,
        }
    }

    /// The text of the error, as shown to the user.
    pub fn to_string(&self) -> (r: String)
        ensures
            r@ == self.text(),
    {
        match self {
            StoreError::NotFound => "Query returned no rows".to_string(),
            StoreError::Failed(text) => text.clone(),
        }
    }
}

/// Opens the database file with `rusqlite::Connection::open`.
///
/// Trusted: nothing is claimed of the outcome.
#[verifier::external_body]
fn open_connection(path: &std::path::PathBuf) -> (r: Result<rusqlite::Connection, rusqlite::Error>) {
    rusqlite::Connection::open(path)
}

/// Runs a batch of statements without parameters with
/// `rusqlite::Connection::execute_batch`.
///
/// Trusted: nothing is claimed of the outcome.
#[verifier::external_body]
fn run_batch(conn: &rusqlite::Connection, sql: &str) -> (r: Result<(), rusqlite::Error>) {
    conn.execute_batch(sql)
}

/// Prepares and runs one statement with `rusqlite::Connection::execute`,
/// binding `params` in order, each as the `rusqlite::types::Value` of the
/// same variant and content, and returns the number of rows it changed.
///
/// Trusted: nothing is claimed of the outcome.
#[verifier::external_body]
fn run_statement(conn: &rusqlite::Connection, sql: &str, params: &Vec<SqlParam>) -> (r: Result<
    usize,
    rusqlite::Error,
>) {
    let values = params.iter().map(|param| match param {
        SqlParam::Integer(i) => rusqlite::types::Value::Integer(*i),
        SqlParam::Text(text) => rusqlite::types::Value::Text(text.clone()),
        SqlParam::Null => rusqlite::types::Value::Null,
    });
    conn.execute(sql, rusqlite::params_from_iter(values))
}

/// Prepares a statement with `rusqlite::Connection::prepare`.
///
/// Trusted: nothing is claimed of the outcome.
#[verifier::external_body]
fn prepare<'c>(conn: &'c rusqlite::Connection, sql: &str) -> (r: Result<
    rusqlite::Statement<'c>,
    rusqlite::Error,
>) {
    conn.prepare(sql)
}

/// The number of columns in the rows of a prepared statement, from
/// `rusqlite::Statement::column_count`.
///
/// Trusted: nothing is claimed of the number.
#[verifier::external_body]
fn column_count(statement: &rusqlite::Statement<'_>) -> (r: usize) {
    statement.column_count()
}

/// Starts a query with `rusqlite::Statement::query`, binding `params` in
/// order, each as the `rusqlite::types::Value` of the same variant and
/// content.
///
/// Trusted: nothing is claimed of the outcome.
#[verifier::external_body]
fn start_query<'s>(statement: &'s mut rusqlite::Statement<'_>, params: &Vec<SqlParam>) -> (r:
    Result<rusqlite::Rows<'s>, rusqlite::Error>) {
    let values = params.iter().map(|param| match param {
        SqlParam::Integer(i) => rusqlite::types::Value::Integer(*i),
        SqlParam::Text(text) => rusqlite::types::Value::Text(text.clone()),
        SqlParam::Null => rusqlite::types::Value::Null,
    });
    statement.query(rusqlite::params_from_iter(values))
}

/// Steps to the next row of a query with `rusqlite::Rows::next`; there is
/// none once all rows have been read.
///
/// Trusted: nothing is claimed of the outcome.
#[verifier::external_body]
fn next_row<'r, 's>(rows: &'r mut rusqlite::Rows<'s>) -> (r: Result<
    Option<&'r rusqlite::Row<'s>>,
    rusqlite::Error,
>) {
    rows.next()
}

/// Reads one column of a row with `rusqlite::Row::get`, as the value of the
/// same variant and content; reals and blobs come as `Other`.
///
/// Trusted: nothing is claimed of the outcome.
#[verifier::external_body]
fn column_value(row: &rusqlite::Row<'_>, index: usize) -> (r: Result<SqlValue, rusqlite::Error>) {
    Ok(
        match row.get(index)? {
            rusqlite::types::Value::Null => SqlValue::Null,
            rusqlite::types::Value::Integer(i) => SqlValue::Integer(i),
            rusqlite::types::Value::Text(text) => SqlValue::Text(text),
            rusqlite::types::Value::Real(_) => SqlValue::Other,
            rusqlite::types::Value::Blob(_) => SqlValue::Other,
        },
    )
}

/// The row id of the most recent successful insert on this connection, from
/// `rusqlite::Connection::last_insert_rowid`.
///
/// Trusted: nothing is claimed of the result.
#[verifier::external_body]
fn last_rowid(conn: &rusqlite::Connection) -> (r: i64) {
    conn.last_insert_rowid()
}

/// The text that `rusqlite::Error` displays.
///
/// Trusted: nothing is claimed of the text.
#[verifier::external_body]
fn error_text(error: &rusqlite::Error) -> (r: String) {
    error.to_string()
}

/// Wraps a failure reported by the database.
fn failed(error: rusqlite::Error) -> (r: StoreError)
    ensures
        r is Failed,
{
    StoreError::Failed(error_text(&error))
}

/// The token under which a status is stored.
pub open spec fn status_token(status: Status) -> Seq<char> {
    match status {
        Status::ToDo => "todo"@,
        Status::InProgress => "in_progress"@,
        Status::InReview => "in_review"@,
        Status::Done => "done"@,
    }
}

/// The status that a stored token stands for; an unknown token reads as the
/// first status of the chain.
pub open spec fn status_of_token(token: Seq<char>) -> Status {
    if token == "in_progress"@ {
        Status::InProgress
    } else if token == "in_review"@ {
        Status::InReview
    } else if token == "done"@ {
        Status::Done
    } else {
        Status::ToDo
    }
}

/// The token under which a priority is stored.
pub open spec fn priority_token(priority: Priority) -> Seq<char> {
    match priority {
        Priority::Low => "low"@,
        Priority::Medium => "medium"@,
        Priority::High => "high"@,
        Priority::Critical => "critical"@,
    }
}

/// The priority that a stored token stands for; an unknown token reads as the
/// lowest priority.
pub open spec fn priority_of_token(token: Seq<char>) -> Priority {
    if token == "medium"@ {
        Priority::Medium
    } else if token == "high"@ {
        Priority::High
    } else if token == "critical"@ {
        Priority::Critical
    } else {
        Priority::Low
    }
}

/// The token under which a status is stored.
pub fn status_to_db(s: &Status) -> (r: &'static str)
    ensures
        r@ == status_token(*s),
{
    match s {
        Status::ToDo => "todo",
        Status::InProgress => "in_progress",
        Status::InReview => "in_review",
        Status::Done => "done",
    }
}

/// Reads a stored status token; an unknown token reads as `ToDo`.
pub fn status_from_db(s: &str) -> (r: Status)
    ensures
        r == status_of_token(s@),
{
    if str_eq(s, "in_progress") {
        Status::InProgress
    } else if str_eq(s, "in_review") {
        Status::InReview
    } else if str_eq(s, "done") {
        Status::Done
    } else {
        Status::ToDo
    }
}

/// The token under which a priority is stored.
pub fn priority_to_db(p: &Priority) -> (r: &'static str)
    ensures
        r@ == priority_token(*p),
{
    match p {
        Priority::Low => "low",
        Priority::Medium => "medium",
        Priority::High => "high",
        Priority::Critical => "critical",
    }
}

/// Reads a stored priority token; an unknown token reads as `Low`.
pub fn priority_from_db(s: &str) -> (r: Priority)
    ensures
        r == priority_of_token(s@),
{
    if str_eq(s, "medium") {
        Priority::Medium
    } else if str_eq(s, "high") {
        Priority::High
    } else if str_eq(s, "critical") {
        Priority::Critical
    } else {
        Priority::Low
    }
}

/// Every status reads back from its own token.
pub proof fn lemma_status_token_round_trip(status: Status)
    ensures
        status_of_token(status_token(status)) == status,
{
    reveal_strlit("todo");
    reveal_strlit("in_progress");
    reveal_strlit("in_review");
    reveal_strlit("done");
    assert("todo"@.len() == 4);
    assert("in_progress"@.len() == 11);
    assert("in_review"@.len() == 9);
    assert("done"@[0] == 'd');
    assert("todo"@[0] == 't');
}

/// Every priority reads back from its own token.
pub proof fn lemma_priority_token_round_trip(priority: Priority)
    ensures
        priority_of_token(priority_token(priority)) == priority,
{
    reveal_strlit("low");
    reveal_strlit("medium");
    reveal_strlit("high");
    reveal_strlit("critical");
    assert("low"@.len() == 3);
    assert("medium"@.len() == 6);
    assert("high"@.len() == 4);
    assert("critical"@.len() == 8);
}

/// The integer in a column, if the column holds one.
pub open spec fn integer_of(value: SqlValue) -> Option<i64> {
    match value {
        SqlValue::Integer(i) => Some(i),
        _ => None,
    }
}

/// The text in a column, if the column holds text.
pub open spec fn text_of(value: SqlValue) -> Option<Seq<char>> {
    match value {
        SqlValue::Text(text) => Some(text@),
        _ => None,
    }
}

/// The integer in a column that may be null, if the column holds either.
pub open spec fn nullable_integer_of(value: SqlValue) -> Option<Option<i64>> {
    match value {
        SqlValue::Integer(i) => Some(Some(i)),
        SqlValue::Null => Some(None),
        _ => None,
    }
}

/// The epic in a row of `id, title, description, color`.
pub open spec fn epic_of_row(row: Seq<SqlValue>) -> Option<EpicView> {
    if row.len() == 4 && integer_of(row[0]).is_some() && text_of(row[1]).is_some() && text_of(
        row[2],
    ).is_some() && text_of(row[3]).is_some() {
        Some(
            EpicView {
                id: integer_of(row[0]).unwrap(),
                title: text_of(row[1]).unwrap(),
                description: text_of(row[2]).unwrap(),
                color: text_of(row[3]).unwrap(),
            },
        )
    } else {
        None
    }
}

/// The story in a row of `id, epic_id, title, description, status, priority,
/// created_at, updated_at`.
pub open spec fn story_of_row(row: Seq<SqlValue>) -> Option<StoryView> {
    if row.len() == 8 && integer_of(row[0]).is_some() && nullable_integer_of(row[1]).is_some()
        && text_of(row[2]).is_some() && text_of(row[3]).is_some() && text_of(row[4]).is_some()
        && text_of(row[5]).is_some() && text_of(row[6]).is_some() && text_of(row[7]).is_some() {
        Some(
            StoryView {
                id: integer_of(row[0]).unwrap(),
                epic_id: nullable_integer_of(row[1]).unwrap(),
                title: text_of(row[2]).unwrap(),
                description: text_of(row[3]).unwrap(),
                status: status_of_token(text_of(row[4]).unwrap()),
                priority: priority_of_token(text_of(row[5]).unwrap()),
                created_at: text_of(row[6]).unwrap(),
                updated_at: text_of(row[7]).unwrap(),
            },
        )
    } else {
        None
    }
}

/// The task in a row of `id, story_id, title, done, sort_order`; `done` is
/// any integer but 0.
pub open spec fn task_of_row(row: Seq<SqlValue>) -> Option<TaskView> {
    if row.len() == 5 && integer_of(row[0]).is_some() && integer_of(row[1]).is_some() && text_of(
        row[2],
    ).is_some() && integer_of(row[3]).is_some() && integer_of(row[4]).is_some() {
        Some(
            TaskView {
                id: integer_of(row[0]).unwrap(),
                story_id: integer_of(row[1]).unwrap(),
                title: text_of(row[2]).unwrap(),
                done: integer_of(row[3]).unwrap() != 0,
                sort_order: integer_of(row[4]).unwrap(),
            },
        )
    } else {
        None
    }
}

/// The count in the single column of the first row, if it is an integer that
/// fits 32 bits.
pub open spec fn count_of_rows(rows: Seq<Vec<SqlValue>>) -> Option<i32> {
    if rows.len() > 0 && rows[0]@.len() == 1 && integer_of(rows[0]@[0]).is_some() && i32::MIN
        <= integer_of(rows[0]@[0]).unwrap() <= i32::MAX {
        Some(integer_of(rows[0]@[0]).unwrap() as i32)
    } else {
        None
    }
}

fn integer_in(value: &SqlValue) -> (r: Option<i64>)
    ensures
        r == integer_of(*value),
{
    match value {
        SqlValue::Integer(i) => Some(*i),
        _ => None,
    }
}

fn text_in(value: &SqlValue) -> (r: Option<String>)
    ensures
        match r {
            Some(text) => text_of(*value) == Some(text@),
            None => text_of(*value).is_none(),
        },
{
    match value {
        SqlValue::Text(text) => Some(text.clone()),
        _ => None,
    }
}

fn nullable_integer_in(value: &SqlValue) -> (r: Option<Option<i64>>)
    ensures
        r == nullable_integer_of(*value),
{
    match value {
        SqlValue::Integer(i) => Some(Some(*i)),
        SqlValue::Null => Some(None),
        _ => None,
    }
}

/// The text of the failure for a row that does not have the shape of the
/// item read from it.
pub open spec fn row_shape_failure() -> Seq<char> {
    "unexpected row shape"@
}

/// The error for a row that does not have the shape of the item read from it.
fn malformed_row() -> (r: StoreError)
    ensures
        r is Failed,
        r.text() == row_shape_failure(),
{
    StoreError::Failed("unexpected row shape".to_string())
}

/// Reads one epic from a result row.
pub fn epic_from_row(row: &Vec<SqlValue>) -> (r: Option<Epic>)
    ensures
        match r {
            Some(epic) => epic_of_row(row@) == Some(epic@),
            None => epic_of_row(row@).is_none(),
        },
{
    if row.len() != 4 {
        return None;
    }
    let id = integer_in(&row[0])?;
    let title = text_in(&row[1])?;
    let description = text_in(&row[2])?;
    let color = text_in(&row[3])?;
    Some(Epic { id, title, description, color })
}

/// Reads one story from a result row, decoding its status and priority
/// tokens.
pub fn story_from_row(row: &Vec<SqlValue>) -> (r: Option<Story>)
    ensures
        match r {
            Some(story) => story_of_row(row@) == Some(story@),
            None => story_of_row(row@).is_none(),
        },
{
    if row.len() != 8 {
        return None;
    }
    let id = integer_in(&row[0])?;
    let epic_id = nullable_integer_in(&row[1])?;
    let title = text_in(&row[2])?;
    let description = text_in(&row[3])?;
    let status_text = text_in(&row[4])?;
    let priority_text = text_in(&row[5])?;
    let created_at = text_in(&row[6])?;
    let updated_at = text_in(&row[7])?;
    Some(
        Story {
            id,
            epic_id,
            title,
            description,
            status: status_from_db(status_text.as_str()),
            priority: priority_from_db(priority_text.as_str()),
            created_at,
            updated_at,
        },
    )
}

/// Reads one task from a result row.
pub fn task_from_row(row: &Vec<SqlValue>) -> (r: Option<Task>)
    ensures
        match r {
            Some(task) => task_of_row(row@) == Some(task@),
            None => task_of_row(row@).is_none(),
        },
{
    if row.len() != 5 {
        return None;
    }
    let id = integer_in(&row[0])?;
    let story_id = integer_in(&row[1])?;
    let title = text_in(&row[2])?;
    let done = integer_in(&row[3])?;
    let sort_order = integer_in(&row[4])?;
    Some(Task { id, story_id, title, done: done != 0, sort_order })
}

/// Whether `r` is what the rows that the store returned for a list of epics read
/// as.
pub open spec fn epics_answer(rows: Seq<Vec<SqlValue>>, r: Result<Vec<Epic>, StoreError>) -> bool {
    match r {
        Ok(epics) => epics@.len() == rows.len() && forall|i: int|
            0 <= i < rows.len() ==> epic_of_row(#[trigger] rows[i]@) == Some(epics@[i]@),
        Err(e) => e is Failed && e.text() == row_shape_failure() && exists|i: int|
            0 <= i < rows.len() && epic_of_row(#[trigger] rows[i]@).is_none(),
    }
}

/// Reads every row as an epic, in order; one row of another shape fails the
/// whole read.
pub fn epics_from_rows(rows: &Vec<Vec<SqlValue>>) -> (r: Result<Vec<Epic>, StoreError>)
    ensures
        epics_answer(rows@, r),
{
    let mut epics: Vec<Epic> = Vec::new();
    let mut i: usize = 0;
    while i < rows.len()
        invariant
            0 <= i <= rows@.len(),
            epics@.len() == i,
            forall|j: int| 0 <= j < i ==> epic_of_row(#[trigger] rows@[j]@) == Some(epics@[j]@),
        decreases rows@.len() - i,
    {
        match epic_from_row(&rows[i]) {
            Some(epic) => epics.push(epic),
            None => {
                return Err(malformed_row());
            },
        }
        i += 1;
    }
    Ok(epics)
}

/// Whether `r` is what the rows that the store returned for a list of stories read
/// as.
pub open spec fn stories_answer(rows: Seq<Vec<SqlValue>>, r: Result<Vec<Story>, StoreError>) -> bool {
    match r {
        Ok(stories) => stories@.len() == rows.len() && forall|i: int|
            0 <= i < rows.len() ==> story_of_row(#[trigger] rows[i]@) == Some(
                stories@[i]@,
            ),
        Err(e) => e is Failed && e.text() == row_shape_failure() && exists|i: int|
            0 <= i < rows.len() && story_of_row(#[trigger] rows[i]@).is_none(),
    }
}

/// Reads every row as a story, in order; one row of another shape fails the
/// whole read.
pub fn stories_from_rows(rows: &Vec<Vec<SqlValue>>) -> (r: Result<Vec<Story>, StoreError>)
    ensures
        stories_answer(rows@, r),
{
    let mut stories: Vec<Story> = Vec::new();
    let mut i: usize = 0;
    while i < rows.len()
        invariant
            0 <= i <= rows@.len(),
            stories@.len() == i,
            forall|j: int|
                0 <= j < i ==> story_of_row(#[trigger] rows@[j]@) == Some(stories@[j]@),
        decreases rows@.len() - i,
    {
        match story_from_row(&rows[i]) {
            Some(story) => stories.push(story),
            None => {
                return Err(malformed_row());
            },
        }
        i += 1;
    }
    Ok(stories)
}

/// Whether `r` is what the rows that the store returned for a list of tasks read
/// as.
pub open spec fn tasks_answer(rows: Seq<Vec<SqlValue>>, r: Result<Vec<Task>, StoreError>) -> bool {
    match r {
        Ok(tasks) => tasks@.len() == rows.len() && forall|i: int|
            0 <= i < rows.len() ==> task_of_row(#[trigger] rows[i]@) == Some(tasks@[i]@),
        Err(e) => e is Failed && e.text() == row_shape_failure() && exists|i: int|
            0 <= i < rows.len() && task_of_row(#[trigger] rows[i]@).is_none(),
    }
}

/// Reads every row as a task, in order; one row of another shape fails the
/// whole read.
pub fn tasks_from_rows(rows: &Vec<Vec<SqlValue>>) -> (r: Result<Vec<Task>, StoreError>)
    ensures
        tasks_answer(rows@, r),
{
    let mut tasks: Vec<Task> = Vec::new();
    let mut i: usize = 0;
    while i < rows.len()
        invariant
            0 <= i <= rows@.len(),
            tasks@.len() == i,
            forall|j: int| 0 <= j < i ==> task_of_row(#[trigger] rows@[j]@) == Some(tasks@[j]@),
        decreases rows@.len() - i,
    {
        match task_from_row(&rows[i]) {
            Some(task) => tasks.push(task),
            None => {
                return Err(malformed_row());
            },
        }
        i += 1;
    }
    Ok(tasks)
}

/// Whether `r` is what the rows that the store returned for a lookup of one story read
/// as.
pub open spec fn story_answer(rows: Seq<Vec<SqlValue>>, r: Result<Story, StoreError>) -> bool {
    match r {
        Ok(story) => rows.len() > 0 && story_of_row(rows[0]@) == Some(story@),
        Err(StoreError::NotFound) => rows.len() == 0,
        Err(StoreError::Failed(text)) => text@ == row_shape_failure() && rows.len() > 0
            && story_of_row(rows[0]@).is_none(),
    }
}

/// Reads the answer to a lookup by id: the story in the first row. No row
/// means that the story does not exist.
pub fn story_from_rows(rows: &Vec<Vec<SqlValue>>) -> (r: Result<Story, StoreError>)
    ensures
        story_answer(rows@, r),
{
    if rows.len() == 0 {
        return Err(StoreError::NotFound);
    }
    match story_from_row(&rows[0]) {
        Some(story) => Ok(story),
        None => Err(malformed_row()),
    }
}

/// Whether `r` is what the rows that the store returned for a lookup of one task read
/// as.
pub open spec fn task_answer(rows: Seq<Vec<SqlValue>>, r: Result<Task, StoreError>) -> bool {
    match r {
        Ok(task) => rows.len() > 0 && task_of_row(rows[0]@) == Some(task@),
        Err(StoreError::NotFound) => rows.len() == 0,
        Err(StoreError::Failed(text)) => text@ == row_shape_failure() && rows.len() > 0
            && task_of_row(rows[0]@).is_none(),
    }
}

/// Reads the answer to a lookup by id: the task in the first row. No row
/// means that the task does not exist.
pub fn task_from_rows(rows: &Vec<Vec<SqlValue>>) -> (r: Result<Task, StoreError>)
    ensures
        task_answer(rows@, r),
{
    if rows.len() == 0 {
        return Err(StoreError::NotFound);
    }
    match task_from_row(&rows[0]) {
        Some(task) => Ok(task),
        None => Err(malformed_row()),
    }
}

/// Whether `r` is what the rows that the store returned for a counting query read
/// as.
pub open spec fn count_answer(rows: Seq<Vec<SqlValue>>, r: Result<i32, StoreError>) -> bool {
    match r {
        Ok(n) => count_of_rows(rows) == Some(n),
        Err(e) => e is Failed && e.text() == row_shape_failure() && count_of_rows(
            rows,
        ).is_none(),
    }
}

/// Reads the answer to a counting query: the integer in the single column of
/// the first row.
pub fn count_from_rows(rows: &Vec<Vec<SqlValue>>) -> (r: Result<i32, StoreError>)
    ensures
        count_answer(rows@, r),
{
    if rows.len() == 0 || rows[0].len() != 1 {
        return Err(malformed_row());
    }
    match integer_in(&rows[0][0]) {
        Some(n) => {
            if -2147483648 <= n && n <= 2147483647 {
                Ok(n as i32)
            } else {
                Err(malformed_row())
            }
        },
        None => Err(malformed_row()),
    }
}

/// The handle to the store.
pub struct Database {
    conn: rusqlite::Connection,
}

impl Database {
    /// Opens the database at `path`, creating the file if there is none, and
    /// runs [`CONNECTION_SETUP`] on it, which switches on write-ahead logging
    /// and foreign keys.
    pub fn open(path: &std::path::PathBuf) -> (r: Result<Database, StoreError>)
        ensures
            r matches Err(e) ==> e is Failed,
    {
        let conn = match open_connection(path) {
            Ok(conn) => conn,
            Err(e) => {
                return Err(failed(e));
            },
        };
        match run_batch(&conn, CONNECTION_SETUP) {
            Ok(()) => Ok(Database { conn }),
            Err(e) => Err(failed(e)),
        }
    }

    /// Runs [`SCHEMA`], which creates the three tables unless they exist.
    pub fn migrate(&mut self) -> (r: Result<(), StoreError>)
        ensures
            r matches Err(e) ==> e is Failed,
    {
        match run_batch(&self.conn, SCHEMA) {
            Ok(()) => Ok(()),
            Err(e) => Err(failed(e)),
        }
    }

    /// Runs a statement that changes rows.
    pub fn execute(&self, statement: &Prepared) -> (r: Result<(), StoreError>)
        ensures
            r matches Err(e) ==> e is Failed,
    {
        match run_statement(&self.conn, statement.sql, &statement.params) {
            Ok(_) => Ok(()),
            Err(e) => Err(failed(e)),
        }
    }

    /// Runs an insert and returns the id of the new row.
    pub fn insert(&self, statement: &Prepared) -> (r: Result<i64, StoreError>)
        ensures
            r matches Err(e) ==> e is Failed,
    {
        match run_statement(&self.conn, statement.sql, &statement.params) {
            Ok(_) => Ok(last_rowid(&self.conn)),
            Err(e) => Err(failed(e)),
        }
    }

    /// Runs a query and returns its rows, each as the values of its columns
    /// from left to right.
    pub fn query(&self, statement: &Prepared) -> (r: Result<Vec<Vec<SqlValue>>, StoreError>)
        ensures
            r matches Err(e) ==> e is Failed,
    {
        let mut prepared = match prepare(&self.conn, statement.sql) {
            Ok(prepared) => prepared,
            Err(e) => {
                return Err(failed(e));
            },
        };
        let width = column_count(&prepared);
        let mut rows = match start_query(&mut prepared, &statement.params) {
            Ok(rows) => rows,
            Err(e) => {
                return Err(failed(e));
            },
        };
        let mut read: Vec<Vec<SqlValue>> = Vec::new();
        while read.len() < usize::MAX
            decreases usize::MAX - read.len(),
        {
            let row = match next_row(&mut rows) {
                Ok(Some(row)) => row,
                Ok(None) => {
                    return Ok(read);
                },
                Err(e) => {
                    return Err(failed(e));
                },
            };
            let mut values: Vec<SqlValue> = Vec::new();
            let mut column: usize = 0;
            while column < width
                invariant
                    column <= width,
                decreases width - column,
            {
                match column_value(row, column) {
                    Ok(value) => values.push(value),
                    Err(e) => {
                        return Err(failed(e));
                    },
                }
                column += 1;
            }
            read.push(values);
        }
        Err(StoreError::Failed("too many rows".to_string()))
    }

    /// Runs a query and reads every row as an epic.
    ///
    /// Unless the store fails, the result is what the rows it returned read
    /// as.
    pub fn read_epics(&self, statement: &Prepared) -> (r: Result<Vec<Epic>, StoreError>)
        ensures
            r matches Err(e) ==> e is Failed,
            (r matches Err(StoreError::Failed(_))) || exists|rows: Seq<Vec<SqlValue>>|
                #[trigger] epics_answer(rows, r),
    {
        let rows = self.query(statement)?;
        epics_from_rows(&rows)
    }

    /// Runs a query and reads every row as a story.
    ///
    /// Unless the store fails, the result is what the rows it returned read
    /// as.
    pub fn read_stories(&self, statement: &Prepared) -> (r: Result<Vec<Story>, StoreError>)
        ensures
            r matches Err(e) ==> e is Failed,
            (r matches Err(StoreError::Failed(_))) || exists|rows: Seq<Vec<SqlValue>>|
                #[trigger] stories_answer(rows, r),
    {
        let rows = self.query(statement)?;
        stories_from_rows(&rows)
    }

    /// Runs a query and reads every row as a task.
    ///
    /// Unless the store fails, the result is what the rows it returned read
    /// as.
    pub fn read_tasks(&self, statement: &Prepared) -> (r: Result<Vec<Task>, StoreError>)
        ensures
            r matches Err(e) ==> e is Failed,
            (r matches Err(StoreError::Failed(_))) || exists|rows: Seq<Vec<SqlValue>>|
                #[trigger] tasks_answer(rows, r),
    {
        let rows = self.query(statement)?;
        tasks_from_rows(&rows)
    }

    /// Runs a lookup and reads its first row as a story.
    ///
    /// Unless the store fails, the result is what the rows it returned read
    /// as: the story in the first row, or `NotFound` where there is no row.
    pub fn read_story(&self, statement: &Prepared) -> (r: Result<Story, StoreError>)
        ensures
            (r matches Err(StoreError::Failed(_))) || exists|rows: Seq<Vec<SqlValue>>|
                #[trigger] story_answer(rows, r),
    {
        let rows = self.query(statement)?;
        story_from_rows(&rows)
    }

    /// Runs a lookup and reads its first row as a task.
    ///
    /// Unless the store fails, the result is what the rows it returned read
    /// as: the task in the first row, or `NotFound` where there is no row.
    pub fn read_task(&self, statement: &Prepared) -> (r: Result<Task, StoreError>)
        ensures
            (r matches Err(StoreError::Failed(_))) || exists|rows: Seq<Vec<SqlValue>>|
                #[trigger] task_answer(rows, r),
    {
        let rows = self.query(statement)?;
        task_from_rows(&rows)
    }

    /// Runs a counting query and reads its count.
    ///
    /// Unless the store fails, the result is what the rows it returned read
    /// as.
    pub fn read_count(&self, statement: &Prepared) -> (r: Result<i32, StoreError>)
        ensures
            r matches Err(e) ==> e is Failed,
            (r matches Err(StoreError::Failed(_))) || exists|rows: Seq<Vec<SqlValue>>|
                #[trigger] count_answer(rows, r),
    {
        let rows = self.query(statement)?;
        count_from_rows(&rows)
    }

    /// Adds an epic and returns its id. Runs [`insert_epic`].
    pub fn create_epic(&self, title: &str, description: &str, color: &str) -> (r: Result<
        i64,
        StoreError,
    >)
        ensures
            r matches Err(e) ==> e is Failed,
    {
        self.insert(&insert_epic(title, description, color))
    }

    /// All epics, ordered by id. Runs [`select_epics`].
    pub fn list_epics(&self) -> (r: Result<Vec<Epic>, StoreError>)
        ensures
            r matches Err(e) ==> e is Failed,
            (r matches Err(StoreError::Failed(_))) || exists|rows: Seq<Vec<SqlValue>>|
                #[trigger] epics_answer(rows, r),
    {
        self.read_epics(&select_epics())
    }

    /// Deletes an epic; its stories stay and lose their epic. Runs
    /// [`delete_epic`](crate::statements::delete_epic).
    pub fn delete_epic(&self, id: i64) -> (r: Result<(), StoreError>)
        ensures
            r matches Err(e) ==> e is Failed,
    {
        self.execute(&delete_epic(id))
    }

    /// Adds a story and returns its id. Runs [`insert_story`].
    pub fn create_story(
        &self,
        title: &str,
        description: &str,
        epic_id: Option<i64>,
        status: Status,
        priority: Priority,
    ) -> (r: Result<i64, StoreError>)
        ensures
            r matches Err(e) ==> e is Failed,
    {
        self.insert(&insert_story(title, description, epic_id, status, priority))
    }

    /// The stories of one status, ordered by id; with an epic given, only
    /// those of that epic. Runs [`select_stories`] with the status as filter.
    pub fn list_stories_by_status(&self, status: Status, epic_id: Option<i64>) -> (r: Result<
        Vec<Story>,
        StoreError,
    >)
        ensures
            r matches Err(e) ==> e is Failed,
            (r matches Err(StoreError::Failed(_))) || exists|rows: Seq<Vec<SqlValue>>|
                #[trigger] stories_answer(rows, r),
    {
        self.read_stories(&select_stories(Some(status), epic_id))
    }

    /// The stories that pass both filters, ordered by id; a filter left out
    /// lets every story pass. Runs [`select_stories`].
    pub fn list_stories(&self, status: Option<Status>, epic_id: Option<i64>) -> (r: Result<
        Vec<Story>,
        StoreError,
    >)
        ensures
            r matches Err(e) ==> e is Failed,
            (r matches Err(StoreError::Failed(_))) || exists|rows: Seq<Vec<SqlValue>>|
                #[trigger] stories_answer(rows, r),
    {
        self.read_stories(&select_stories(status, epic_id))
    }

    /// Sets the status of a story. Runs
    /// [`update_story_status`](crate::statements::update_story_status).
    pub fn update_story_status(&self, id: i64, status: Status) -> (r: Result<(), StoreError>)
        ensures
            r matches Err(e) ==> e is Failed,
    {
        self.execute(&update_story_status(id, status))
    }

    /// Sets the title of a story. Runs
    /// [`update_story_title`](crate::statements::update_story_title).
    pub fn update_story_title(&self, id: i64, title: &str) -> (r: Result<(), StoreError>)
        ensures
            r matches Err(e) ==> e is Failed,
    {
        self.execute(&update_story_title(id, title))
    }

    /// Sets the description of a story. Runs
    /// [`update_story_description`](crate::statements::update_story_description).
    pub fn update_story_description(&self, id: i64, description: &str) -> (r: Result<
        (),
        StoreError,
    >)
        ensures
            r matches Err(e) ==> e is Failed,
    {
        self.execute(&update_story_description(id, description))
    }

    /// Sets the priority of a story. Runs
    /// [`update_story_priority`](crate::statements::update_story_priority).
    pub fn update_story_priority(&self, id: i64, priority: Priority) -> (r: Result<
        (),
        StoreError,
    >)
        ensures
            r matches Err(e) ==> e is Failed,
    {
        self.execute(&update_story_priority(id, priority))
    }

    /// Sets or clears the epic of a story. Runs
    /// [`update_story_epic`](crate::statements::update_story_epic).
    pub fn update_story_epic(&self, id: i64, epic_id: Option<i64>) -> (r: Result<(), StoreError>)
        ensures
            r matches Err(e) ==> e is Failed,
    {
        self.execute(&update_story_epic(id, epic_id))
    }

    /// The story with this id, or `NotFound`. Runs [`select_story`].
    ///
    /// Unless the store fails, the result is what the rows it returned read
    /// as: the story in the first row, or `NotFound` where there is no row.
    pub fn get_story(&self, id: i64) -> (r: Result<Story, StoreError>)
        ensures
            (r matches Err(StoreError::Failed(_))) || exists|rows: Seq<Vec<SqlValue>>|
                #[trigger] story_answer(rows, r),
    {
        self.read_story(&select_story(id))
    }

    /// Deletes a story and, with it, its tasks. Runs
    /// [`delete_story`](crate::statements::delete_story).
    pub fn delete_story(&self, id: i64) -> (r: Result<(), StoreError>)
        ensures
            r matches Err(e) ==> e is Failed,
    {
        self.execute(&delete_story(id))
    }

    /// Adds a task at the end of a story's list: its sort order is one more
    /// than the largest of the story, or 0 for the first. Runs
    /// [`next_task_order`], then [`insert_task`] with the order that came
    /// back.
    pub fn create_task(&self, story_id: i64, title: &str) -> (r: Result<i64, StoreError>)
        ensures
            r matches Err(e) ==> e is Failed,
    {
        let next_order = self.read_count(&next_task_order(story_id))?;
        self.insert(&insert_task(story_id, title, next_order))
    }

    /// The tasks of a story, in sort order. Runs [`select_tasks`].
    pub fn list_tasks(&self, story_id: i64) -> (r: Result<Vec<Task>, StoreError>)
        ensures
            r matches Err(e) ==> e is Failed,
            (r matches Err(StoreError::Failed(_))) || exists|rows: Seq<Vec<SqlValue>>|
                #[trigger] tasks_answer(rows, r),
    {
        self.read_tasks(&select_tasks(story_id))
    }

    /// The task with this id, or `NotFound`. Runs [`select_task`].
    ///
    /// Unless the store fails, the result is what the rows it returned read
    /// as: the task in the first row, or `NotFound` where there is no row.
    pub fn get_task(&self, id: i64) -> (r: Result<Task, StoreError>)
        ensures
            (r matches Err(StoreError::Failed(_))) || exists|rows: Seq<Vec<SqlValue>>|
                #[trigger] task_answer(rows, r),
    {
        self.read_task(&select_task(id))
    }

    /// Flips the done flag of a task. Runs
    /// [`toggle_task`](crate::statements::toggle_task).
    pub fn toggle_task(&self, id: i64) -> (r: Result<(), StoreError>)
        ensures
            r matches Err(e) ==> e is Failed,
    {
        self.execute(&toggle_task(id))
    }

    /// Deletes a task. Runs [`delete_task`](crate::statements::delete_task).
    pub fn delete_task(&self, id: i64) -> (r: Result<(), StoreError>)
        ensures
            r matches Err(e) ==> e is Failed,
    {
        self.execute(&delete_task(id))
    }

    /// How many tasks of a story are done, and how many it has. Runs
    /// [`count_tasks`], then [`count_done_tasks`].
    pub fn task_counts(&self, story_id: i64) -> (r: Result<(i32, i32), StoreError>)
        ensures
            r matches Err(e) ==> e is Failed,
    {
        let total = self.read_count(&count_tasks(story_id))?;
        let done = self.read_count(&count_done_tasks(story_id))?;
        Ok((done, total))
    }
}

} // verus!
