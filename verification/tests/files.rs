use kalenote::database::Database;
use kalenote::error::StoreError;
use kalenote::migrate::{migrate_db, note_outcome, RepairReport};
use kalenote::records::{NewTask, Settings};
use std::io::Write;

fn db_path(dir: &tempfile::TempDir) -> String {
    dir.path().join("kalenote.db").to_str().unwrap().to_string()
}

fn statuses(path: &str) -> Vec<(i64, String)> {
    let conn = rusqlite::Connection::open(path).unwrap();
    let mut stmt = conn.prepare("SELECT id, status FROM tasks ORDER BY id").unwrap();
    let rows = stmt.query_map([], |row| Ok((row.get(0)?, row.get(1)?))).unwrap();
    rows.map(|r| r.unwrap()).collect()
}

/// A store as an earlier version left it: no check on the status, and some
/// statuses written as numbers.
fn corrupted_store(path: &str) {
    let conn = rusqlite::Connection::open(path).unwrap();
    conn.execute(
        "CREATE TABLE tasks (id INTEGER PRIMARY KEY AUTOINCREMENT, content TEXT NOT NULL, status TEXT NOT NULL, priority INTEGER NOT NULL DEFAULT 0, created_at TEXT NOT NULL DEFAULT (datetime('now')), completed_at TEXT, due_date TEXT, time_duration INTEGER, tags TEXT NOT NULL DEFAULT '[]')",
        [],
    )
    .unwrap();
    for status in ["2", "todo", "-17", "done", "007", "2x", "99999999999", ""] {
        conn.execute("INSERT INTO tasks (content, status) VALUES ('c', ?1)", [status]).unwrap();
    }
}

#[test]
fn repair_turns_numeric_status_into_inbox_and_is_idempotent() {
    let dir = tempfile::tempdir().unwrap();
    let path = db_path(&dir);
    corrupted_store(&path);
    let report = migrate_db(&path).unwrap();
    assert_eq!(report.repaired, vec![1, 3, 5]);
    assert_eq!(report.skipped, Vec::<i64>::new());
    let expected: Vec<(i64, String)> = vec![
        (1, "inbox".to_string()),
        (2, "todo".to_string()),
        (3, "inbox".to_string()),
        (4, "done".to_string()),
        (5, "inbox".to_string()),
        (6, "2x".to_string()),
        (7, "99999999999".to_string()),
        (8, "".to_string()),
    ];
    assert_eq!(statuses(&path), expected);
    let again = migrate_db(&path).unwrap();
    assert_eq!(again.repaired, Vec::<i64>::new());
    assert_eq!(again.skipped, Vec::<i64>::new());
    assert_eq!(statuses(&path), expected);
}

#[test]
fn repair_leaves_a_sound_store_alone() {
    let dir = tempfile::tempdir().unwrap();
    let path = db_path(&dir);
    {
        let db = Database::new(&path).unwrap();
        for status in ["inbox", "todo", "doing", "done"] {
            db.add_task(NewTask {
                content: "c".to_string(),
                status: status.to_string(),
                priority: 0,
                tags: "[]".to_string(),
                time_duration: None,
                due_date: None,
            })
            .unwrap();
        }
    }
    let before = statuses(&path);
    let report = migrate_db(&path).unwrap();
    assert_eq!(report.repaired, Vec::<i64>::new());
    assert_eq!(report.skipped, Vec::<i64>::new());
    assert_eq!(statuses(&path), before);
}

#[test]
fn repaired_store_is_listed_with_inbox() {
    let dir = tempfile::tempdir().unwrap();
    let path = db_path(&dir);
    corrupted_store(&path);
    migrate_db(&path).unwrap();
    let db = Database::new(&path).unwrap();
    let tasks = db.get_all_tasks().unwrap();
    assert_eq!(tasks.len(), 8);
    assert_eq!(tasks.iter().find(|t| t.id == 1).unwrap().status, "inbox");
    assert_eq!(tasks.iter().find(|t| t.id == 2).unwrap().status, "todo");
}

#[test]
fn repair_without_tasks_table_fails_as_a_whole() {
    let dir = tempfile::tempdir().unwrap();
    let path = db_path(&dir);
    assert_eq!(migrate_db(&path), Err(StoreError::QueryFailed));
}

#[test]
fn repair_of_unopenable_file_fails() {
    assert_eq!(
        migrate_db("/no-such-directory-for-kalenote/inner/kalenote.db"),
        Err(StoreError::NotOpenable)
    );
}

#[test]
fn opening_again_keeps_settings_and_rows() {
    let dir = tempfile::tempdir().unwrap();
    let path = db_path(&dir);
    let changed = Settings { theme: "dark".to_string(), time_mode: "weekly".to_string(), available_time: 4 };
    let id;
    {
        let db = Database::new(&path).unwrap();
        db.update_settings(changed.clone()).unwrap();
        id = db
            .add_task(NewTask {
                content: "stay".to_string(),
                status: "todo".to_string(),
                priority: 1,
                tags: "[]".to_string(),
                time_duration: None,
                due_date: None,
            })
            .unwrap();
    }
    let db = Database::new(&path).unwrap();
    assert_eq!(db.get_settings().unwrap(), changed);
    let tasks = db.get_all_tasks().unwrap();
    assert_eq!(tasks.len(), 1);
    assert_eq!(tasks[0].id, id);
    let conn = rusqlite::Connection::open(&path).unwrap();
    let rows: i64 = conn.query_row("SELECT COUNT(*) FROM settings", [], |row| row.get(0)).unwrap();
    assert_eq!(rows, 1);
}

#[test]
fn settings_table_keeps_one_row_after_two_replacements() {
    let dir = tempfile::tempdir().unwrap();
    let path = db_path(&dir);
    let db = Database::new(&path).unwrap();
    db.update_settings(Settings { theme: "a".to_string(), time_mode: "b".to_string(), available_time: 1 }).unwrap();
    db.update_settings(Settings { theme: "c".to_string(), time_mode: "d".to_string(), available_time: 2 }).unwrap();
    let conn = rusqlite::Connection::open(&path).unwrap();
    let rows: i64 = conn.query_row("SELECT COUNT(*) FROM settings", [], |row| row.get(0)).unwrap();
    assert_eq!(rows, 1);
    let settings = db.get_settings().unwrap();
    assert_eq!(settings.theme, "c");
    assert_eq!(settings.time_mode, "d");
    assert_eq!(settings.available_time, 2);
}

#[test]
fn missing_settings_row_is_corruption() {
    let dir = tempfile::tempdir().unwrap();
    let path = db_path(&dir);
    let db = Database::new(&path).unwrap();
    let conn = rusqlite::Connection::open(&path).unwrap();
    conn.execute("DELETE FROM settings", []).unwrap();
    assert_eq!(db.get_settings(), Err(StoreError::StoreCorrupted));
}

#[test]
fn row_of_wrong_shape_is_corruption() {
    let dir = tempfile::tempdir().unwrap();
    let path = db_path(&dir);
    let db = Database::new(&path).unwrap();
    let conn = rusqlite::Connection::open(&path).unwrap();
    conn.execute(
        "INSERT INTO tasks (content, status, priority) VALUES ('c', 'todo', 'high')",
        [],
    )
    .unwrap();
    assert_eq!(db.get_all_tasks(), Err(StoreError::StoreCorrupted));
    conn.execute("DELETE FROM tasks", []).unwrap();
    conn.execute(
        "INSERT INTO tasks (content, status, priority) VALUES ('c', 'todo', 4294967296)",
        [],
    )
    .unwrap();
    assert_eq!(db.get_all_tasks(), Err(StoreError::StoreCorrupted));
}

#[test]
fn engine_check_on_status_reports_constraint_violation() {
    let dir = tempfile::tempdir().unwrap();
    let path = db_path(&dir);
    let _db = Database::new(&path).unwrap();
    let conn = rusqlite::Connection::open(&path).unwrap();
    let error = conn
        .execute("INSERT INTO tasks (content, status) VALUES ('c', 'archived')", [])
        .unwrap_err();
    let code = error.sqlite_error().map(|e| e.extended_code);
    assert_eq!(kalenote::error::classify(code), StoreError::ConstraintViolation);
}

#[test]
fn directory_as_store_is_not_openable() {
    let dir = tempfile::tempdir().unwrap();
    let result = Database::new(dir.path().to_str().unwrap());
    assert!(matches!(result, Err(StoreError::NotOpenable)));
}

#[test]
fn file_that_is_no_database_gives_no_store() {
    let mut file = tempfile::NamedTempFile::new().unwrap();
    file.write_all(&[0x6e; 4096]).unwrap();
    file.flush().unwrap();
    let result = Database::new(file.path().to_str().unwrap());
    assert!(matches!(result, Err(StoreError::QueryFailed)));
    assert_eq!(migrate_db(file.path().to_str().unwrap()), Err(StoreError::QueryFailed));
}

#[test]
fn failed_repair_of_one_task_is_skipped_and_the_pass_goes_on() {
    let dir = tempfile::tempdir().unwrap();
    let path = db_path(&dir);
    corrupted_store(&path);
    {
        let conn = rusqlite::Connection::open(&path).unwrap();
        conn.execute(
            "CREATE TRIGGER hold_first BEFORE UPDATE ON tasks WHEN OLD.id = 1 BEGIN SELECT RAISE(ABORT, 'held'); END",
            [],
        )
        .unwrap();
    }
    let report = migrate_db(&path).unwrap();
    assert_eq!(report.skipped, vec![1]);
    assert_eq!(report.repaired, vec![3, 5]);
    let after = statuses(&path);
    assert_eq!(after[0], (1, "2".to_string()));
    assert_eq!(after[2], (3, "inbox".to_string()));
    assert_eq!(after[4], (5, "inbox".to_string()));
    {
        let conn = rusqlite::Connection::open(&path).unwrap();
        conn.execute("DROP TRIGGER hold_first", []).unwrap();
    }
    let again = migrate_db(&path).unwrap();
    assert_eq!(again.repaired, vec![1]);
    assert_eq!(again.skipped, Vec::<i64>::new());
    assert_eq!(statuses(&path)[0], (1, "inbox".to_string()));
}

#[test]
fn outcome_of_a_write_is_noted_in_its_list() {
    let mut report = RepairReport { repaired: vec![4], skipped: vec![9] };
    note_outcome(&mut report, 7, &Ok(1));
    assert_eq!(report, RepairReport { repaired: vec![4, 7], skipped: vec![9] });
    note_outcome(&mut report, 8, &Err(StoreError::QueryFailed));
    assert_eq!(report, RepairReport { repaired: vec![4, 7], skipped: vec![9, 8] });
    note_outcome(&mut report, 7, &Ok(0));
    assert_eq!(report, RepairReport { repaired: vec![4, 7, 7], skipped: vec![9, 8] });
    note_outcome(&mut report, 2, &Err(StoreError::ConstraintViolation));
    assert_eq!(report, RepairReport { repaired: vec![4, 7, 7], skipped: vec![9, 8, 2] });
}
