//! The statements that the store runs: for every operation the SQL text
//! and the parameters bound to it, made by one function each.
//!
//! Nothing here touches the database. The store runs what these functions
//! make and nothing else, so what is asked of SQLite can be read, and is
//! proved, here.

use vstd::prelude::*;
use crate::db::{priority_to_db, priority_token, status_to_db, status_token};
use crate::models::{Priority, Status};

verus! {

/// The statements run once on every new connection.
pub const CONNECTION_SETUP: &'static str = "PRAGMA journal_mode=WAL; PRAGMA foreign_keys=ON;";

/// The statements that create the three tables unless they exist.
pub const SCHEMA: &'static str = "CREATE TABLE IF NOT EXISTS epics (
                id INTEGER PRIMARY KEY AUTOINCREMENT,
                title TEXT NOT NULL,
                description TEXT NOT NULL DEFAULT '',
                color TEXT NOT NULL DEFAULT 'white'
            );

            CREATE TABLE IF NOT EXISTS stories (
                id INTEGER PRIMARY KEY AUTOINCREMENT,
                epic_id INTEGER REFERENCES epics(id) ON DELETE SET NULL,
                title TEXT NOT NULL,
                description TEXT NOT NULL DEFAULT '',
                status TEXT NOT NULL DEFAULT 'todo',
                priority TEXT NOT NULL DEFAULT 'medium',
                created_at TEXT NOT NULL DEFAULT (datetime('now')),
                updated_at TEXT NOT NULL DEFAULT (datetime('now'))
            );

            CREATE TABLE IF NOT EXISTS tasks (
                id INTEGER PRIMARY KEY AUTOINCREMENT,
                story_id INTEGER NOT NULL REFERENCES stories(id) ON DELETE CASCADE,
                title TEXT NOT NULL,
                done INTEGER NOT NULL DEFAULT 0,
                sort_order INTEGER NOT NULL DEFAULT 0
            );";

pub const INSERT_EPIC: &'static str = "INSERT INTO epics (title, description, color) VALUES (?1, ?2, ?3)";

pub const SELECT_EPICS: &'static str = "SELECT id, title, description, color FROM epics ORDER BY id";

pub const DELETE_EPIC: &'static str = "DELETE FROM epics WHERE id = ?1";

pub const INSERT_STORY: &'static str = "INSERT INTO stories (title, description, epic_id, status, priority) VALUES (?1, ?2, ?3, ?4, ?5)";

pub const SELECT_STORIES_BY_STATUS_AND_EPIC: &'static str = "SELECT id, epic_id, title, description, status, priority, created_at, updated_at FROM stories WHERE status = ?1 AND epic_id = ?2 ORDER BY id";

pub const SELECT_STORIES_BY_STATUS: &'static str = "SELECT id, epic_id, title, description, status, priority, created_at, updated_at FROM stories WHERE status = ?1 ORDER BY id";

pub const SELECT_STORIES_BY_EPIC: &'static str = "SELECT id, epic_id, title, description, status, priority, created_at, updated_at FROM stories WHERE epic_id = ?1 ORDER BY id";

pub const SELECT_STORIES: &'static str = "SELECT id, epic_id, title, description, status, priority, created_at, updated_at FROM stories ORDER BY id";

pub const UPDATE_STORY_STATUS: &'static str = "UPDATE stories SET status = ?1, updated_at = datetime('now') WHERE id = ?2";

pub const UPDATE_STORY_TITLE: &'static str = "UPDATE stories SET title = ?1, updated_at = datetime('now') WHERE id = ?2";

pub const UPDATE_STORY_DESCRIPTION: &'static str = "UPDATE stories SET description = ?1, updated_at = datetime('now') WHERE id = ?2";

pub const UPDATE_STORY_PRIORITY: &'static str = "UPDATE stories SET priority = ?1, updated_at = datetime('now') WHERE id = ?2";

pub const UPDATE_STORY_EPIC: &'static str = "UPDATE stories SET epic_id = ?1, updated_at = datetime('now') WHERE id = ?2";

pub const SELECT_STORY: &'static str = "SELECT id, epic_id, title, description, status, priority, created_at, updated_at FROM stories WHERE id = ?1";

pub const DELETE_STORY: &'static str = "DELETE FROM stories WHERE id = ?1";

pub const NEXT_TASK_ORDER: &'static str = "SELECT COALESCE(MAX(sort_order) + 1, 0) FROM tasks WHERE story_id = ?1";

pub const INSERT_TASK: &'static str = "INSERT INTO tasks (story_id, title, sort_order) VALUES (?1, ?2, ?3)";

pub const SELECT_TASKS: &'static str = "SELECT id, story_id, title, done, sort_order FROM tasks WHERE story_id = ?1 ORDER BY sort_order";

pub const SELECT_TASK: &'static str = "SELECT id, story_id, title, done, sort_order FROM tasks WHERE id = ?1";

pub const TOGGLE_TASK: &'static str = "UPDATE tasks SET done = NOT done WHERE id = ?1";

pub const DELETE_TASK: &'static str = "DELETE FROM tasks WHERE id = ?1";

pub const COUNT_TASKS: &'static str = "SELECT COUNT(*) FROM tasks WHERE story_id = ?1";

pub const COUNT_DONE_TASKS: &'static str = "SELECT COUNT(*) FROM tasks WHERE story_id = ?1 AND done = 1";

/// One value bound to a parameter of a statement.
#[derive(Debug)]
pub enum SqlParam {
    Null,
    Integer(i64),
    Text(String),
}

/// The mathematical content of a [`SqlParam`].
pub enum SqlParamView {
    Null,
    Integer(i64),
    Text(Seq<char>),
}

impl View for SqlParam {
    type V = SqlParamView;

    open spec fn view(&self) -> SqlParamView {
        match *self {
            SqlParam::Null => SqlParamView::Null,
            SqlParam::Integer(i) => SqlParamView::Integer(i),
            SqlParam::Text(text) => SqlParamView::Text(text@),
        }
    }
}

/// A statement ready to run: its text and the values for `?1`, `?2`, ...
/// in this order.
#[derive(Debug)]
pub struct Prepared {
    pub sql: &'static str,
    pub params: Vec<SqlParam>,
}

/// The mathematical content of a [`Prepared`].
#[verifier::ext_equal]
pub struct PreparedView {
    pub sql: Seq<char>,
    pub params: Seq<SqlParamView>,
}

impl View for Prepared {
    type V = PreparedView;

    open spec fn view(&self) -> PreparedView {
        PreparedView { sql: self.sql@, params: self.params@.map_values(|p: SqlParam| p@) }
    }
}

/// The parameter for an id that may be absent: the id, or null.
pub open spec fn nullable(id: Option<i64>) -> SqlParamView {
    match id {
        Some(id) => SqlParamView::Integer(id),
        None => SqlParamView::Null,
    }
}

/// A text parameter.
fn text_param(text: &str) -> (r: SqlParam)
    ensures
        r@ == SqlParamView::Text(text@),
{
    SqlParam::Text(text.to_string())
}

/// A parameter that is an id or null.
fn nullable_param(id: Option<i64>) -> (r: SqlParam)
    ensures
        r@ == nullable(id),
{
    match id {
        Some(id) => SqlParam::Integer(id),
        None => SqlParam::Null,
    }
}

/// The statement that adds an epic.
pub open spec fn insert_epic_statement(title: Seq<char>, description: Seq<char>, color: Seq<char>) -> PreparedView {
    PreparedView { sql: INSERT_EPIC@, params: seq![SqlParamView::Text(title), SqlParamView::Text(description), SqlParamView::Text(color)] }
}

/// Adds an epic.
pub fn insert_epic(title: &str, description: &str, color: &str) -> (s: Prepared)
    ensures
        s@ == insert_epic_statement(title@, description@, color@),
{
    Prepared { sql: INSERT_EPIC, params: vec![text_param(title), text_param(description), text_param(color)] }
}

/// The statement that reads all epics, ordered by id.
pub open spec fn select_epics_statement() -> PreparedView {
    PreparedView { sql: SELECT_EPICS@, params: seq![] }
}

/// Reads all epics, ordered by id.
pub fn select_epics() -> (s: Prepared)
    ensures
        s@ == select_epics_statement(),
{
    Prepared { sql: SELECT_EPICS, params: vec![] }
}

/// The statement that deletes the epic with this id.
pub open spec fn delete_epic_statement(id: i64) -> PreparedView {
    PreparedView { sql: DELETE_EPIC@, params: seq![SqlParamView::Integer(id)] }
}

/// Deletes the epic with this id.
pub fn delete_epic(id: i64) -> (s: Prepared)
    ensures
        s@ == delete_epic_statement(id),
{
    Prepared { sql: DELETE_EPIC, params: vec![SqlParam::Integer(id)] }
}

/// The statement that adds a story; status and priority go as their tokens, a missing epic as
/// null.
pub open spec fn insert_story_statement(title: Seq<char>, description: Seq<char>, epic_id: Option<i64>, status: Status, priority: Priority) -> PreparedView {
    PreparedView { sql: INSERT_STORY@, params: seq![SqlParamView::Text(title), SqlParamView::Text(description), nullable(epic_id), SqlParamView::Text(status_token(status)), SqlParamView::Text(priority_token(priority))] }
}

/// Adds a story; status and priority go as their tokens, a missing epic as
/// null.
pub fn insert_story(title: &str, description: &str, epic_id: Option<i64>, status: Status, priority: Priority) -> (s: Prepared)
    ensures
        s@ == insert_story_statement(title@, description@, epic_id, status, priority),
{
    Prepared { sql: INSERT_STORY, params: vec![text_param(title), text_param(description), nullable_param(epic_id), text_param(status_to_db(&status)), text_param(priority_to_db(&priority))] }
}

/// The statement that sets the status of the story with this id and stamps the update.
pub open spec fn update_story_status_statement(id: i64, status: Status) -> PreparedView {
    PreparedView { sql: UPDATE_STORY_STATUS@, params: seq![SqlParamView::Text(status_token(status)), SqlParamView::Integer(id)] }
}

/// Sets the status of the story with this id and stamps the update.
pub fn update_story_status(id: i64, status: Status) -> (s: Prepared)
    ensures
        s@ == update_story_status_statement(id, status),
{
    Prepared { sql: UPDATE_STORY_STATUS, params: vec![text_param(status_to_db(&status)), SqlParam::Integer(id)] }
}

/// The statement that sets the title of the story with this id and stamps the update.
pub open spec fn update_story_title_statement(id: i64, title: Seq<char>) -> PreparedView {
    PreparedView { sql: UPDATE_STORY_TITLE@, params: seq![SqlParamView::Text(title), SqlParamView::Integer(id)] }
}

/// Sets the title of the story with this id and stamps the update.
pub fn update_story_title(id: i64, title: &str) -> (s: Prepared)
    ensures
        s@ == update_story_title_statement(id, title@),
{
    Prepared { sql: UPDATE_STORY_TITLE, params: vec![text_param(title), SqlParam::Integer(id)] }
}

/// The statement that sets the description of the story with this id and stamps the update.
pub open spec fn update_story_description_statement(id: i64, description: Seq<char>) -> PreparedView {
    PreparedView { sql: UPDATE_STORY_DESCRIPTION@, params: seq![SqlParamView::Text(description), SqlParamView::Integer(id)] }
}

/// Sets the description of the story with this id and stamps the update.
pub fn update_story_description(id: i64, description: &str) -> (s: Prepared)
    ensures
        s@ == update_story_description_statement(id, description@),
{
    Prepared { sql: UPDATE_STORY_DESCRIPTION, params: vec![text_param(description), SqlParam::Integer(id)] }
}

/// The statement that sets the priority of the story with this id and stamps the update.
pub open spec fn update_story_priority_statement(id: i64, priority: Priority) -> PreparedView {
    PreparedView { sql: UPDATE_STORY_PRIORITY@, params: seq![SqlParamView::Text(priority_token(priority)), SqlParamView::Integer(id)] }
}

/// Sets the priority of the story with this id and stamps the update.
pub fn update_story_priority(id: i64, priority: Priority) -> (s: Prepared)
    ensures
        s@ == update_story_priority_statement(id, priority),
{
    Prepared { sql: UPDATE_STORY_PRIORITY, params: vec![text_param(priority_to_db(&priority)), SqlParam::Integer(id)] }
}

/// The statement that sets or clears the epic of the story with this id and stamps the update.
pub open spec fn update_story_epic_statement(id: i64, epic_id: Option<i64>) -> PreparedView {
    PreparedView { sql: UPDATE_STORY_EPIC@, params: seq![nullable(epic_id), SqlParamView::Integer(id)] }
}

/// Sets or clears the epic of the story with this id and stamps the update.
pub fn update_story_epic(id: i64, epic_id: Option<i64>) -> (s: Prepared)
    ensures
        s@ == update_story_epic_statement(id, epic_id),
{
    Prepared { sql: UPDATE_STORY_EPIC, params: vec![nullable_param(epic_id), SqlParam::Integer(id)] }
}

/// The statement that reads the story with this id.
pub open spec fn select_story_statement(id: i64) -> PreparedView {
    PreparedView { sql: SELECT_STORY@, params: seq![SqlParamView::Integer(id)] }
}

/// Reads the story with this id.
pub fn select_story(id: i64) -> (s: Prepared)
    ensures
        s@ == select_story_statement(id),
{
    Prepared { sql: SELECT_STORY, params: vec![SqlParam::Integer(id)] }
}

/// The statement that deletes the story with this id.
pub open spec fn delete_story_statement(id: i64) -> PreparedView {
    PreparedView { sql: DELETE_STORY@, params: seq![SqlParamView::Integer(id)] }
}

/// Deletes the story with this id.
pub fn delete_story(id: i64) -> (s: Prepared)
    ensures
        s@ == delete_story_statement(id),
{
    Prepared { sql: DELETE_STORY, params: vec![SqlParam::Integer(id)] }
}

/// The statement that asks for the sort order of the next task of a story: one more than the
/// largest, or 0 for the first.
pub open spec fn next_task_order_statement(story_id: i64) -> PreparedView {
    PreparedView { sql: NEXT_TASK_ORDER@, params: seq![SqlParamView::Integer(story_id)] }
}

/// Asks for the sort order of the next task of a story: one more than the
/// largest, or 0 for the first.
pub fn next_task_order(story_id: i64) -> (s: Prepared)
    ensures
        s@ == next_task_order_statement(story_id),
{
    Prepared { sql: NEXT_TASK_ORDER, params: vec![SqlParam::Integer(story_id)] }
}

/// The statement that adds a task to a story at the given sort order.
pub open spec fn insert_task_statement(story_id: i64, title: Seq<char>, sort_order: i32) -> PreparedView {
    PreparedView { sql: INSERT_TASK@, params: seq![SqlParamView::Integer(story_id), SqlParamView::Text(title), SqlParamView::Integer(sort_order as i64)] }
}

/// Adds a task to a story at the given sort order.
pub fn insert_task(story_id: i64, title: &str, sort_order: i32) -> (s: Prepared)
    ensures
        s@ == insert_task_statement(story_id, title@, sort_order),
{
    Prepared { sql: INSERT_TASK, params: vec![SqlParam::Integer(story_id), text_param(title), SqlParam::Integer(sort_order as i64)] }
}

/// The statement that reads the tasks of a story, in sort order.
pub open spec fn select_tasks_statement(story_id: i64) -> PreparedView {
    PreparedView { sql: SELECT_TASKS@, params: seq![SqlParamView::Integer(story_id)] }
}

/// Reads the tasks of a story, in sort order.
pub fn select_tasks(story_id: i64) -> (s: Prepared)
    ensures
        s@ == select_tasks_statement(story_id),
{
    Prepared { sql: SELECT_TASKS, params: vec![SqlParam::Integer(story_id)] }
}

/// The statement that reads the task with this id.
pub open spec fn select_task_statement(id: i64) -> PreparedView {
    PreparedView { sql: SELECT_TASK@, params: seq![SqlParamView::Integer(id)] }
}

/// Reads the task with this id.
pub fn select_task(id: i64) -> (s: Prepared)
    ensures
        s@ == select_task_statement(id),
{
    Prepared { sql: SELECT_TASK, params: vec![SqlParam::Integer(id)] }
}

/// The statement that flips the done flag of the task with this id.
pub open spec fn toggle_task_statement(id: i64) -> PreparedView {
    PreparedView { sql: TOGGLE_TASK@, params: seq![SqlParamView::Integer(id)] }
}

/// Flips the done flag of the task with this id.
pub fn toggle_task(id: i64) -> (s: Prepared)
    ensures
        s@ == toggle_task_statement(id),
{
    Prepared { sql: TOGGLE_TASK, params: vec![SqlParam::Integer(id)] }
}

/// The statement that deletes the task with this id.
pub open spec fn delete_task_statement(id: i64) -> PreparedView {
    PreparedView { sql: DELETE_TASK@, params: seq![SqlParamView::Integer(id)] }
}

/// Deletes the task with this id.
pub fn delete_task(id: i64) -> (s: Prepared)
    ensures
        s@ == delete_task_statement(id),
{
    Prepared { sql: DELETE_TASK, params: vec![SqlParam::Integer(id)] }
}

/// The statement that counts the tasks of a story.
pub open spec fn count_tasks_statement(story_id: i64) -> PreparedView {
    PreparedView { sql: COUNT_TASKS@, params: seq![SqlParamView::Integer(story_id)] }
}

/// Counts the tasks of a story.
pub fn count_tasks(story_id: i64) -> (s: Prepared)
    ensures
        s@ == count_tasks_statement(story_id),
{
    Prepared { sql: COUNT_TASKS, params: vec![SqlParam::Integer(story_id)] }
}

/// The statement that counts the tasks of a story that are done.
pub open spec fn count_done_tasks_statement(story_id: i64) -> PreparedView {
    PreparedView { sql: COUNT_DONE_TASKS@, params: seq![SqlParamView::Integer(story_id)] }
}

/// Counts the tasks of a story that are done.
pub fn count_done_tasks(story_id: i64) -> (s: Prepared)
    ensures
        s@ == count_done_tasks_statement(story_id),
{
    Prepared { sql: COUNT_DONE_TASKS, params: vec![SqlParam::Integer(story_id)] }
}

/// The statement that reads the stories that pass both filters, ordered by
/// id; a filter left out lets every story pass.
pub open spec fn select_stories_statement(status: Option<Status>, epic_id: Option<i64>) -> PreparedView {
    match (status, epic_id) {
        (Some(status), Some(epic_id)) => PreparedView {
            sql: SELECT_STORIES_BY_STATUS_AND_EPIC@,
            params: seq![SqlParamView::Text(status_token(status)), SqlParamView::Integer(epic_id)],
        },
        (Some(status), None) => PreparedView {
            sql: SELECT_STORIES_BY_STATUS@,
            params: seq![SqlParamView::Text(status_token(status))],
        },
        (None, Some(epic_id)) => PreparedView {
            sql: SELECT_STORIES_BY_EPIC@,
            params: seq![SqlParamView::Integer(epic_id)],
        },
        (None, None) => PreparedView { sql: SELECT_STORIES@, params: seq![] },
    }
}

/// Reads the stories that pass both filters, ordered by id; a filter left
/// out lets every story pass.
pub fn select_stories(status: Option<Status>, epic_id: Option<i64>) -> (s: Prepared)
    ensures
        s@ == select_stories_statement(status, epic_id),
{
    match (status, epic_id) {
        (Some(status), Some(epic_id)) => Prepared {
            sql: SELECT_STORIES_BY_STATUS_AND_EPIC,
            params: vec![text_param(status_to_db(&status)), SqlParam::Integer(epic_id)],
        },
        (Some(status), None) => Prepared {
            sql: SELECT_STORIES_BY_STATUS,
            params: vec![text_param(status_to_db(&status))],
        },
        (None, Some(epic_id)) => Prepared {
            sql: SELECT_STORIES_BY_EPIC,
            params: vec![SqlParam::Integer(epic_id)],
        },
        (None, None) => Prepared { sql: SELECT_STORIES, params: vec![] },
    }
}

} // verus!
