use std::path::PathBuf;
use stack::db::{
    count_from_rows, epic_from_row, epics_from_rows, story_from_row, story_from_rows,
    stories_from_rows, task_from_row, task_from_rows, tasks_from_rows, Database, SqlValue,
    StoreError,
};
use stack::models::{Priority, Status};

fn test_db() -> Database {
    let mut db = Database::open(&PathBuf::from(":memory:")).unwrap();
    db.migrate().unwrap();
    db
}

fn text(s: &str) -> SqlValue {
    SqlValue::Text(s.to_string())
}

fn story_row(id: i64, epic: SqlValue, status: &str, priority: &str) -> Vec<SqlValue> {
    vec![
        SqlValue::Integer(id),
        epic,
        text("title"),
        text("body"),
        text(status),
        text(priority),
        text("2024-05-01 10:00:00"),
        text("2024-05-02 11:00:00"),
    ]
}

#[test]
fn migrate_creates_tables() {
    let path = "file:stack_migrate_creates_tables?mode=memory&cache=shared";
    let mut db = Database::open(&PathBuf::from(path)).unwrap();
    db.migrate().unwrap();
    let conn = rusqlite::Connection::open(path).unwrap();
    let count: i32 = conn
        .query_row(
            "SELECT COUNT(*) FROM sqlite_master WHERE type='table' AND name IN ('epics', 'stories', 'tasks')",
            [],
            |row| row.get(0),
        )
        .unwrap();
    assert_eq!(count, 3);
}

#[test]
fn migrate_is_idempotent() {
    let mut db = test_db();
    db.migrate().unwrap();
}

#[test]
fn create_and_list_epics() {
    let db = test_db();
    let id = db.create_epic("Auth System", "Build login/signup", "blue").unwrap();
    assert!(id > 0);

    let epics = db.list_epics().unwrap();
    assert_eq!(epics.len(), 1);
    assert_eq!(epics[0].title, "Auth System");
    assert_eq!(epics[0].color, "blue");
}

#[test]
fn delete_epic() {
    let db = test_db();
    let id = db.create_epic("Temp", "", "white").unwrap();
    db.delete_epic(id).unwrap();
    let epics = db.list_epics().unwrap();
    assert_eq!(epics.len(), 0);
}

#[test]
fn create_and_list_stories_by_status() {
    let db = test_db();
    let eid = db.create_epic("E1", "", "white").unwrap();
    db.create_story("Story A", "", Some(eid), Status::ToDo, Priority::High).unwrap();
    db.create_story("Story B", "", Some(eid), Status::InProgress, Priority::Low).unwrap();
    db.create_story("Story C", "", None, Status::ToDo, Priority::Medium).unwrap();

    let todo = db.list_stories_by_status(Status::ToDo, None).unwrap();
    assert_eq!(todo.len(), 2);

    let filtered = db.list_stories_by_status(Status::ToDo, Some(eid)).unwrap();
    assert_eq!(filtered.len(), 1);
    assert_eq!(filtered[0].title, "Story A");
}

#[test]
fn update_story_status() {
    let db = test_db();
    let sid = db.create_story("S1", "", None, Status::ToDo, Priority::Medium).unwrap();
    db.update_story_status(sid, Status::InProgress).unwrap();

    let stories = db.list_stories_by_status(Status::InProgress, None).unwrap();
    assert_eq!(stories.len(), 1);
    assert_eq!(stories[0].id, sid);
}

#[test]
fn delete_story() {
    let db = test_db();
    let sid = db.create_story("S1", "", None, Status::ToDo, Priority::Medium).unwrap();
    db.delete_story(sid).unwrap();
    let stories = db.list_stories_by_status(Status::ToDo, None).unwrap();
    assert_eq!(stories.len(), 0);
}

#[test]
fn create_and_list_tasks() {
    let db = test_db();
    let sid = db.create_story("S1", "", None, Status::ToDo, Priority::Medium).unwrap();
    db.create_task(sid, "Write tests").unwrap();
    db.create_task(sid, "Implement feature").unwrap();

    let tasks = db.list_tasks(sid).unwrap();
    assert_eq!(tasks.len(), 2);
    assert_eq!(tasks[0].title, "Write tests");
    assert_eq!(tasks[0].sort_order, 0);
    assert_eq!(tasks[1].sort_order, 1);
    assert!(!tasks[0].done);
}

#[test]
fn toggle_task() {
    let db = test_db();
    let sid = db.create_story("S1", "", None, Status::ToDo, Priority::Medium).unwrap();
    let tid = db.create_task(sid, "Task 1").unwrap();

    db.toggle_task(tid).unwrap();
    let tasks = db.list_tasks(sid).unwrap();
    assert!(tasks[0].done);

    db.toggle_task(tid).unwrap();
    let tasks = db.list_tasks(sid).unwrap();
    assert!(!tasks[0].done);
}

#[test]
fn delete_task() {
    let db = test_db();
    let sid = db.create_story("S1", "", None, Status::ToDo, Priority::Medium).unwrap();
    let tid = db.create_task(sid, "Task 1").unwrap();
    db.delete_task(tid).unwrap();
    let tasks = db.list_tasks(sid).unwrap();
    assert_eq!(tasks.len(), 0);
}

#[test]
fn task_count_for_story() {
    let db = test_db();
    let sid = db.create_story("S1", "", None, Status::ToDo, Priority::Medium).unwrap();
    db.create_task(sid, "T1").unwrap();
    let tid2 = db.create_task(sid, "T2").unwrap();
    db.toggle_task(tid2).unwrap();

    let (done, total) = db.task_counts(sid).unwrap();
    assert_eq!(total, 2);
    assert_eq!(done, 1);
}

#[test]
fn created_story_reads_back_with_its_fields() {
    let db = test_db();
    let id = db.create_story("Write spec", "", None, Status::ToDo, Priority::Medium).unwrap();
    let story = db.get_story(id).unwrap();
    assert_eq!(story.id, id);
    assert_eq!(story.title, "Write spec");
    assert_eq!(story.description, "");
    assert_eq!(story.epic_id, None);
    assert_eq!(story.status, Status::ToDo);
    assert_eq!(story.priority, Priority::Medium);
    assert!(!story.created_at.is_empty());
    assert_eq!(story.created_at, story.updated_at);
}

#[test]
fn every_status_and_priority_reads_back() {
    let db = test_db();
    let epic = db.create_epic("E", "about", "red").unwrap();
    let priorities = [Priority::Low, Priority::Medium, Priority::High, Priority::Critical];
    for (status, priority) in Status::all().iter().zip(priorities) {
        let id = db.create_story("s", "text", Some(epic), *status, priority).unwrap();
        let story = db.get_story(id).unwrap();
        assert_eq!(story.status, *status);
        assert_eq!(story.priority, priority);
        assert_eq!(story.epic_id, Some(epic));
        assert_eq!(story.description, "text");
    }
}

#[test]
fn get_story_of_a_missing_id_is_not_found() {
    let db = test_db();
    match db.get_story(41) {
        Err(StoreError::NotFound) => {}
        other => panic!("expected NotFound, got {:?}", other),
    }
    assert_eq!(StoreError::NotFound.to_string(), "Query returned no rows");
    match db.get_task(41) {
        Err(StoreError::NotFound) => {}
        other => panic!("expected NotFound, got {:?}", other),
    }
}

#[test]
fn a_failing_statement_is_reported_with_text() {
    let db = Database::open(&PathBuf::from(":memory:")).unwrap();
    match db.list_epics() {
        Err(StoreError::Failed(text)) => assert!(text.contains("epics"), "{}", text),
        other => panic!("expected a failure, got {:?}", other),
    }
    match db.create_story("s", "", None, Status::ToDo, Priority::Low) {
        Err(StoreError::Failed(text)) => assert!(text.contains("stories"), "{}", text),
        other => panic!("expected a failure, got {:?}", other),
    }
    assert_eq!(StoreError::Failed("disk full".to_string()).to_string(), "disk full");
}

#[test]
fn a_story_of_a_missing_epic_is_refused() {
    let db = test_db();
    assert!(matches!(
        db.create_story("s", "", Some(7), Status::ToDo, Priority::Low),
        Err(StoreError::Failed(_))
    ));
}

#[test]
fn story_updates_change_one_field_each() {
    let db = test_db();
    let epic = db.create_epic("E", "", "white").unwrap();
    let id = db.create_story("old", "", None, Status::ToDo, Priority::Medium).unwrap();
    db.update_story_title(id, "new").unwrap();
    db.update_story_description(id, "# heading").unwrap();
    db.update_story_priority(id, Priority::Critical).unwrap();
    db.update_story_epic(id, Some(epic)).unwrap();
    db.update_story_status(id, Status::Done).unwrap();
    let story = db.get_story(id).unwrap();
    assert_eq!(story.title, "new");
    assert_eq!(story.description, "# heading");
    assert_eq!(story.priority, Priority::Critical);
    assert_eq!(story.epic_id, Some(epic));
    assert_eq!(story.status, Status::Done);
    db.update_story_epic(id, None).unwrap();
    assert_eq!(db.get_story(id).unwrap().epic_id, None);
}

#[test]
fn list_stories_applies_both_filters() {
    let db = test_db();
    let e1 = db.create_epic("E1", "", "white").unwrap();
    let e2 = db.create_epic("E2", "", "white").unwrap();
    let a = db.create_story("a", "", Some(e1), Status::ToDo, Priority::Low).unwrap();
    let b = db.create_story("b", "", Some(e2), Status::ToDo, Priority::Low).unwrap();
    let c = db.create_story("c", "", Some(e1), Status::Done, Priority::Low).unwrap();
    let d = db.create_story("d", "", None, Status::Done, Priority::Low).unwrap();
    let ids = |stories: Vec<stack::models::Story>| stories.iter().map(|s| s.id).collect::<Vec<_>>();
    assert_eq!(ids(db.list_stories(None, None).unwrap()), vec![a, b, c, d]);
    assert_eq!(ids(db.list_stories(Some(Status::ToDo), None).unwrap()), vec![a, b]);
    assert_eq!(ids(db.list_stories(None, Some(e1)).unwrap()), vec![a, c]);
    assert_eq!(ids(db.list_stories(Some(Status::Done), Some(e1)).unwrap()), vec![c]);
    assert_eq!(ids(db.list_stories(Some(Status::InReview), None).unwrap()), Vec::<i64>::new());
}

#[test]
fn deleting_an_epic_keeps_its_stories_without_epic() {
    let db = test_db();
    let epic = db.create_epic("E", "", "white").unwrap();
    let id = db.create_story("s", "", Some(epic), Status::ToDo, Priority::Low).unwrap();
    db.delete_epic(epic).unwrap();
    let story = db.get_story(id).unwrap();
    assert_eq!(story.epic_id, None);
}

#[test]
fn deleting_a_story_deletes_its_tasks() {
    let db = test_db();
    let id = db.create_story("s", "", None, Status::ToDo, Priority::Low).unwrap();
    let task = db.create_task(id, "t").unwrap();
    db.delete_story(id).unwrap();
    assert_eq!(db.list_tasks(id).unwrap().len(), 0);
    assert!(matches!(db.get_task(task), Err(StoreError::NotFound)));
    assert_eq!(db.task_counts(id).unwrap(), (0, 0));
}

#[test]
fn task_order_continues_after_the_largest() {
    let db = test_db();
    let id = db.create_story("s", "", None, Status::ToDo, Priority::Low).unwrap();
    let other = db.create_story("o", "", None, Status::ToDo, Priority::Low).unwrap();
    let t0 = db.create_task(id, "t0").unwrap();
    let t1 = db.create_task(id, "t1").unwrap();
    let o0 = db.create_task(other, "o0").unwrap();
    db.delete_task(t0).unwrap();
    let t2 = db.create_task(id, "t2").unwrap();
    assert_eq!(db.get_task(t1).unwrap().sort_order, 1);
    assert_eq!(db.get_task(t2).unwrap().sort_order, 2);
    assert_eq!(db.get_task(o0).unwrap().sort_order, 0);
    let task = db.get_task(t2).unwrap();
    assert_eq!((task.id, task.story_id, task.title.as_str(), task.done), (t2, id, "t2", false));
}

#[test]
fn epics_are_listed_by_id() {
    let db = test_db();
    let a = db.create_epic("A", "first", "red").unwrap();
    let b = db.create_epic("B", "second", "green").unwrap();
    let epics = db.list_epics().unwrap();
    assert_eq!(epics.iter().map(|e| e.id).collect::<Vec<_>>(), vec![a, b]);
    assert_eq!(epics[1].description, "second");
    assert_eq!(epics[1].color, "green");
}

#[test]
fn text_with_quotes_and_unicode_is_stored_as_is() {
    let db = test_db();
    let title = "it's \"quoted\"; DROP TABLE stories; -- ünïcödé ✓";
    let id = db.create_story(title, "", None, Status::ToDo, Priority::Low).unwrap();
    assert_eq!(db.get_story(id).unwrap().title, title);
    assert_eq!(db.list_stories(None, None).unwrap().len(), 1);
}

#[test]
fn story_rows_decode_field_by_field() {
    let row = story_row(5, SqlValue::Integer(2), "in_review", "critical");
    let story = story_from_row(&row).unwrap();
    assert_eq!(story.id, 5);
    assert_eq!(story.epic_id, Some(2));
    assert_eq!(story.title, "title");
    assert_eq!(story.description, "body");
    assert_eq!(story.status, Status::InReview);
    assert_eq!(story.priority, Priority::Critical);
    assert_eq!(story.created_at, "2024-05-01 10:00:00");
    assert_eq!(story.updated_at, "2024-05-02 11:00:00");

    let story = story_from_row(&story_row(6, SqlValue::Null, "bogus", "bogus")).unwrap();
    assert_eq!(story.epic_id, None);
    assert_eq!(story.status, Status::ToDo);
    assert_eq!(story.priority, Priority::Low);
}

#[test]
fn story_rows_of_another_shape_are_refused() {
    let mut short = story_row(5, SqlValue::Null, "todo", "low");
    short.pop();
    assert!(story_from_row(&short).is_none());
    let mut long = story_row(5, SqlValue::Null, "todo", "low");
    long.push(SqlValue::Null);
    assert!(story_from_row(&long).is_none());
    let mut no_id = story_row(5, SqlValue::Null, "todo", "low");
    no_id[0] = text("5");
    assert!(story_from_row(&no_id).is_none());
    let mut no_title = story_row(5, SqlValue::Null, "todo", "low");
    no_title[2] = SqlValue::Null;
    assert!(story_from_row(&no_title).is_none());
    assert!(story_from_row(&story_row(5, text("2"), "todo", "low")).is_none());
    assert!(story_from_row(&story_row(5, SqlValue::Other, "todo", "low")).is_none());
}

#[test]
fn epic_and_task_rows_decode() {
    let epic = epic_from_row(&vec![SqlValue::Integer(1), text("t"), text("d"), text("c")]).unwrap();
    assert_eq!((epic.id, epic.title.as_str(), epic.description.as_str(), epic.color.as_str()), (1, "t", "d", "c"));
    assert!(epic_from_row(&vec![SqlValue::Integer(1), text("t"), text("d")]).is_none());
    assert!(epic_from_row(&vec![SqlValue::Null, text("t"), text("d"), text("c")]).is_none());

    let row = vec![SqlValue::Integer(4), SqlValue::Integer(9), text("t"), SqlValue::Integer(1), SqlValue::Integer(7)];
    let task = task_from_row(&row).unwrap();
    assert_eq!((task.id, task.story_id, task.title.as_str(), task.done, task.sort_order), (4, 9, "t", true, 7));
    let row = vec![SqlValue::Integer(4), SqlValue::Integer(9), text("t"), SqlValue::Integer(0), SqlValue::Integer(7)];
    assert!(!task_from_row(&row).unwrap().done);
    let row = vec![SqlValue::Integer(4), SqlValue::Integer(9), text("t"), SqlValue::Integer(-3), SqlValue::Integer(7)];
    assert!(task_from_row(&row).unwrap().done);
    let row = vec![SqlValue::Integer(4), SqlValue::Integer(9), text("t"), SqlValue::Null, SqlValue::Integer(7)];
    assert!(task_from_row(&row).is_none());
}

#[test]
fn row_lists_decode_in_order_or_fail_as_a_whole() {
    let rows = vec![
        story_row(1, SqlValue::Null, "todo", "low"),
        story_row(2, SqlValue::Null, "done", "high"),
    ];
    let stories = stories_from_rows(&rows).unwrap();
    assert_eq!(stories.iter().map(|s| s.id).collect::<Vec<_>>(), vec![1, 2]);
    assert_eq!(stories_from_rows(&vec![]).unwrap().len(), 0);

    let rows = vec![story_row(1, SqlValue::Null, "todo", "low"), vec![SqlValue::Null]];
    assert!(matches!(stories_from_rows(&rows), Err(StoreError::Failed(_))));
    assert!(matches!(epics_from_rows(&rows), Err(StoreError::Failed(_))));
    assert!(matches!(tasks_from_rows(&rows), Err(StoreError::Failed(_))));
    assert_eq!(epics_from_rows(&vec![]).unwrap().len(), 0);
    assert_eq!(tasks_from_rows(&vec![]).unwrap().len(), 0);
}

#[test]
fn lookups_read_the_first_row() {
    let rows = vec![
        story_row(1, SqlValue::Null, "todo", "low"),
        story_row(2, SqlValue::Null, "done", "high"),
    ];
    assert_eq!(story_from_rows(&rows).unwrap().id, 1);
    assert!(matches!(story_from_rows(&vec![]), Err(StoreError::NotFound)));
    assert!(matches!(story_from_rows(&vec![vec![]]), Err(StoreError::Failed(_))));
    assert!(matches!(task_from_rows(&vec![]), Err(StoreError::NotFound)));
    assert!(matches!(task_from_rows(&rows), Err(StoreError::Failed(_))));
}

#[test]
fn counts_must_be_one_integer_that_fits() {
    assert_eq!(count_from_rows(&vec![vec![SqlValue::Integer(3)]]).unwrap(), 3);
    assert_eq!(count_from_rows(&vec![vec![SqlValue::Integer(2147483647)]]).unwrap(), i32::MAX);
    assert_eq!(count_from_rows(&vec![vec![SqlValue::Integer(-2147483648)]]).unwrap(), i32::MIN);
    assert!(count_from_rows(&vec![vec![SqlValue::Integer(2147483648)]]).is_err());
    assert!(count_from_rows(&vec![vec![SqlValue::Integer(-2147483649)]]).is_err());
    assert!(count_from_rows(&vec![]).is_err());
    assert!(count_from_rows(&vec![vec![]]).is_err());
    assert!(count_from_rows(&vec![vec![SqlValue::Null]]).is_err());
    assert!(count_from_rows(&vec![vec![SqlValue::Integer(1), SqlValue::Integer(2)]]).is_err());
}

#[test]
fn a_row_of_another_shape_is_named_in_the_failure() {
    let rows = vec![vec![SqlValue::Null]];
    for error in [
        stories_from_rows(&rows).map(|_| ()).err(),
        story_from_rows(&rows).map(|_| ()).err(),
        epics_from_rows(&rows).map(|_| ()).err(),
        tasks_from_rows(&rows).map(|_| ()).err(),
        task_from_rows(&rows).map(|_| ()).err(),
        count_from_rows(&rows).map(|_| ()).err(),
    ]
    .into_iter()
    .map(|e| e.map(|e| e.to_string()))
    {
        assert_eq!(error.as_deref(), Some("unexpected row shape"));
    }
}
