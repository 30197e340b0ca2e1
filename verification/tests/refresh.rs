use std::path::PathBuf;
use stack::app::App;
use stack::db::{Database, StoreError};
use stack::models::{Epic, Priority, Status, Story};
use stack::refresh::{load_board, refresh_board, BoardLoad};

fn test_db() -> Database {
    let mut db = Database::open(&PathBuf::from(":memory:")).unwrap();
    db.migrate().unwrap();
    db
}

fn story(id: i64, status: Status) -> Story {
    Story {
        id,
        epic_id: None,
        title: format!("story {}", id),
        description: String::new(),
        status,
        priority: Priority::Medium,
        created_at: String::new(),
        updated_at: String::new(),
    }
}

fn epic(id: i64) -> Epic {
    Epic { id, title: format!("epic {}", id), description: String::new(), color: "white".to_string() }
}

fn board(todo: &[i64], in_progress: &[i64], in_review: &[i64], done: &[i64]) -> BoardLoad {
    let list = |ids: &[i64], status: Status| Ok(ids.iter().map(|id| story(*id, status)).collect());
    BoardLoad {
        todo: list(todo, Status::ToDo),
        in_progress: list(in_progress, Status::InProgress),
        in_review: list(in_review, Status::InReview),
        done: list(done, Status::Done),
        epics: Ok(vec![epic(1)]),
    }
}

fn failed(text: &str) -> StoreError {
    StoreError::Failed(text.to_string())
}

fn ids(app: &App) -> Vec<Vec<i64>> {
    app.columns.iter().map(|c| c.iter().map(|s| s.id).collect()).collect()
}

#[test]
fn refresh_replaces_the_caches_wholesale() {
    let mut app = App::new();
    app.columns[0] = vec![story(9, Status::ToDo)];
    app.epics = vec![epic(7), epic(8)];
    app.apply_refresh(board(&[1, 2], &[], &[3], &[4, 5, 6]));
    assert_eq!(ids(&app), vec![vec![1, 2], vec![], vec![3], vec![4, 5, 6]]);
    assert_eq!(app.epics.iter().map(|e| e.id).collect::<Vec<_>>(), vec![1]);
    assert!(app.status_message.is_none());
}

#[test]
fn refresh_clamps_every_card_index() {
    let mut app = App::new();
    app.selected_card = [1, 1, 7, 2];
    app.selected_column = 2;
    app.apply_refresh(board(&[1, 2], &[], &[3], &[4, 5, 6]));
    assert_eq!(app.selected_card, [1, 0, 0, 2]);
    assert_eq!(app.selected_column, 2);
    app.apply_refresh(board(&[], &[], &[], &[4]));
    assert_eq!(app.selected_card, [0, 0, 0, 0]);
}

#[test]
fn refresh_keeps_the_message_when_nothing_fails() {
    let mut app = App::new();
    app.status_message = Some("note".to_string());
    app.apply_refresh(board(&[1], &[], &[], &[]));
    assert_eq!(app.status_message.as_deref(), Some("note"));
}

#[test]
fn a_failed_column_keeps_its_cache_and_the_others_load() {
    let mut app = App::new();
    app.columns[1] = vec![story(8, Status::InProgress), story(9, Status::InProgress)];
    app.selected_card = [0, 1, 0, 0];
    let mut load = board(&[1], &[], &[3], &[4]);
    load.in_progress = Err(failed("locked"));
    app.apply_refresh(load);
    assert_eq!(ids(&app), vec![vec![1], vec![8, 9], vec![3], vec![4]]);
    assert_eq!(app.selected_card, [0, 1, 0, 0]);
    assert_eq!(app.status_message.as_deref(), Some("Error loading In Progress: locked"));
}

#[test]
fn the_last_failure_is_the_message() {
    let mut app = App::new();
    let mut load = board(&[1], &[2], &[3], &[4]);
    load.todo = Err(failed("first"));
    load.done = Err(StoreError::NotFound);
    app.apply_refresh(load);
    assert_eq!(app.status_message.as_deref(), Some("Error loading Done: Query returned no rows"));
    assert_eq!(ids(&app), vec![vec![], vec![2], vec![3], vec![]]);

    let mut load = board(&[1], &[2], &[3], &[4]);
    load.todo = Err(failed("first"));
    load.in_review = Err(failed("third"));
    load.epics = Err(failed("no epics"));
    app.epics = vec![epic(5)];
    app.apply_refresh(load);
    assert_eq!(app.status_message.as_deref(), Some("Error loading epics: no epics"));
    assert_eq!(app.epics.len(), 1);

    let mut load = board(&[1], &[2], &[3], &[4]);
    load.todo = Err(failed("first"));
    app.apply_refresh(load);
    assert_eq!(app.status_message.as_deref(), Some("Error loading To Do: first"));
    let mut load = board(&[1], &[2], &[3], &[4]);
    load.in_review = Err(failed("third"));
    app.apply_refresh(load);
    assert_eq!(app.status_message.as_deref(), Some("Error loading In Review: third"));
}

#[test]
fn store_column_and_store_epics_take_one_load_each() {
    let mut app = App::new();
    app.store_column(Status::InReview, Ok(vec![story(3, Status::InReview)]));
    assert_eq!(ids(&app), vec![vec![], vec![], vec![3], vec![]]);
    app.store_column(Status::InReview, Err(failed("x")));
    assert_eq!(ids(&app), vec![vec![], vec![], vec![3], vec![]]);
    assert_eq!(app.status_message.as_deref(), Some("Error loading In Review: x"));
    app.store_epics(Ok(vec![epic(1), epic(2)]));
    assert_eq!(app.epics.len(), 2);
    assert_eq!(app.status_message.as_deref(), Some("Error loading In Review: x"));
    app.store_epics(Err(failed("y")));
    assert_eq!(app.epics.len(), 2);
    assert_eq!(app.status_message.as_deref(), Some("Error loading epics: y"));
}

#[test]
fn refreshing_twice_changes_nothing_more() {
    let db = test_db();
    let e = db.create_epic("E", "", "white").unwrap();
    for status in Status::all() {
        db.create_story("a", "", Some(e), *status, Priority::Low).unwrap();
        db.create_story("b", "", None, *status, Priority::High).unwrap();
    }
    let mut app = App::new();
    app.selected_card = [5, 1, 0, 9];
    app.selected_column = 3;
    refresh_board(&db, &mut app);
    let columns = ids(&app);
    let cards = app.selected_card;
    let epics: Vec<i64> = app.epics.iter().map(|e| e.id).collect();
    assert_eq!(cards, [1, 1, 0, 1]);
    refresh_board(&db, &mut app);
    assert_eq!(ids(&app), columns);
    assert_eq!(app.selected_card, cards);
    assert_eq!(app.epics.iter().map(|e| e.id).collect::<Vec<_>>(), epics);
    assert_eq!(app.selected_column, 3);
    assert!(app.status_message.is_none());

    let mut load = board(&[1, 2], &[], &[3], &[]);
    load.done = Err(failed("locked"));
    let mut again = board(&[1, 2], &[], &[3], &[]);
    again.done = Err(failed("locked"));
    app.apply_refresh(load);
    let once = (ids(&app), app.selected_card, app.status_message.clone());
    app.apply_refresh(again);
    assert_eq!((ids(&app), app.selected_card, app.status_message.clone()), once);
}

#[test]
fn load_board_sorts_stories_into_their_columns() {
    let db = test_db();
    let e = db.create_epic("E", "", "white").unwrap();
    let a = db.create_story("a", "", Some(e), Status::InReview, Priority::Low).unwrap();
    let b = db.create_story("b", "", None, Status::InReview, Priority::Low).unwrap();
    let c = db.create_story("c", "", Some(e), Status::Done, Priority::Low).unwrap();
    let load = load_board(&db, None);
    assert_eq!(load.todo.unwrap().len(), 0);
    assert_eq!(load.in_progress.unwrap().len(), 0);
    assert_eq!(load.in_review.unwrap().iter().map(|s| s.id).collect::<Vec<_>>(), vec![a, b]);
    assert_eq!(load.done.unwrap().iter().map(|s| s.id).collect::<Vec<_>>(), vec![c]);
    assert_eq!(load.epics.unwrap().len(), 1);
    let load = load_board(&db, Some(e));
    assert_eq!(load.in_review.unwrap().iter().map(|s| s.id).collect::<Vec<_>>(), vec![a]);
    assert_eq!(load.epics.unwrap().len(), 1);
}

#[test]
fn refresh_from_a_store_without_tables_reports_and_keeps_caches() {
    let db = Database::open(&PathBuf::from(":memory:")).unwrap();
    let mut app = App::new();
    app.columns[0] = vec![story(1, Status::ToDo)];
    app.selected_card = [4, 0, 0, 0];
    refresh_board(&db, &mut app);
    assert_eq!(ids(&app), vec![vec![1], vec![], vec![], vec![]]);
    assert_eq!(app.selected_card, [0, 0, 0, 0]);
    assert!(app.status_message.clone().unwrap().starts_with("Error loading epics: "));
}
