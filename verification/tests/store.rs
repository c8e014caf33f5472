use kalenote::database::Database;
use kalenote::error::StoreError;
use kalenote::records::{NewCalendarPreset, NewTask, Settings};

fn new_task(content: &str, status: &str, priority: i32) -> NewTask {
    NewTask {
        content: content.to_string(),
        status: status.to_string(),
        priority,
        tags: "[]".to_string(),
        time_duration: None,
        due_date: None,
    }
}

fn open() -> Database {
    Database::new(":memory:").unwrap()
}

#[test]
fn inserted_task_is_listed_once() {
    let db = open();
    let id = db.add_task(new_task("buy milk", "todo", 1)).unwrap();
    let tasks = db.get_all_tasks().unwrap();
    let matching: Vec<_> = tasks.iter().filter(|t| t.id == id).collect();
    assert_eq!(matching.len(), 1);
    let task = matching[0];
    assert_eq!(task.content, "buy milk");
    assert_eq!(task.status, "todo");
    assert_eq!(task.priority, 1);
    assert_eq!(task.tags, "[]");
    assert!(!task.created_at.is_empty());
    assert_eq!(task.completed_at, None);
    assert_eq!(task.due_date, None);
    assert_eq!(task.time_duration, None);
}

#[test]
fn every_valid_status_is_accepted() {
    let db = open();
    for status in ["inbox", "todo", "doing", "done"] {
        let id = db.add_task(new_task("x", status, 0)).unwrap();
        let tasks = db.get_all_tasks().unwrap();
        assert_eq!(tasks.iter().filter(|t| t.id == id && t.status == status).count(), 1);
    }
    assert_eq!(db.get_all_tasks().unwrap().len(), 4);
}

#[test]
fn optional_fields_of_a_new_task_are_stored() {
    let db = open();
    let id = db
        .add_task(NewTask {
            content: "call".to_string(),
            status: "inbox".to_string(),
            priority: -3,
            tags: "[\"a\",\"b\"]".to_string(),
            time_duration: Some(45),
            due_date: Some("2024-06-01".to_string()),
        })
        .unwrap();
    let tasks = db.get_all_tasks().unwrap();
    assert_eq!(tasks.len(), 1);
    assert_eq!(tasks[0].id, id);
    assert_eq!(tasks[0].priority, -3);
    assert_eq!(tasks[0].tags, "[\"a\",\"b\"]");
    assert_eq!(tasks[0].time_duration, Some(45));
    assert_eq!(tasks[0].due_date, Some("2024-06-01".to_string()));
}

#[test]
fn invalid_status_is_rejected() {
    let db = open();
    let result = db.add_task(new_task("x", "archived", 0));
    assert_eq!(result, Err(StoreError::ConstraintViolation));
    assert_eq!(db.get_all_tasks().unwrap().len(), 0);
}

#[test]
fn ids_rise_and_are_not_given_out_again() {
    let db = open();
    let a = db.add_task(new_task("a", "todo", 0)).unwrap();
    let b = db.add_task(new_task("b", "todo", 0)).unwrap();
    assert!(a < b);
    db.delete_task(b).unwrap();
    let c = db.add_task(new_task("c", "todo", 0)).unwrap();
    assert!(b < c);
}

#[test]
fn update_of_priority_changes_only_priority() {
    let db = open();
    let other = db.add_task(new_task("other", "inbox", 9)).unwrap();
    let id = db
        .add_task(NewTask {
            content: "write".to_string(),
            status: "doing".to_string(),
            priority: 1,
            tags: "[\"t\"]".to_string(),
            time_duration: Some(30),
            due_date: Some("2024-01-02".to_string()),
        })
        .unwrap();
    let before = db.get_all_tasks().unwrap();
    db.update_task(id, None, None, Some(5), None, None, None, None).unwrap();
    let after = db.get_all_tasks().unwrap();
    assert_eq!(after.len(), 2);
    let old_row = before.iter().find(|t| t.id == id).unwrap();
    let new_row = after.iter().find(|t| t.id == id).unwrap();
    assert_eq!(new_row.priority, 5);
    assert_eq!(new_row.id, old_row.id);
    assert_eq!(new_row.content, old_row.content);
    assert_eq!(new_row.status, old_row.status);
    assert_eq!(new_row.created_at, old_row.created_at);
    assert_eq!(new_row.completed_at, old_row.completed_at);
    assert_eq!(new_row.due_date, old_row.due_date);
    assert_eq!(new_row.time_duration, old_row.time_duration);
    assert_eq!(new_row.tags, old_row.tags);
    assert_eq!(
        after.iter().find(|t| t.id == other).unwrap(),
        before.iter().find(|t| t.id == other).unwrap()
    );
}

#[test]
fn update_of_every_field() {
    let db = open();
    let id = db.add_task(new_task("old", "inbox", 0)).unwrap();
    let created = db.get_all_tasks().unwrap()[0].created_at.clone();
    db.update_task(
        id,
        Some("new".to_string()),
        Some("doing".to_string()),
        Some(7),
        Some("[\"x\"]".to_string()),
        Some(15),
        Some("2025-01-01".to_string()),
        Some("2025-01-02 08:00:00".to_string()),
    )
    .unwrap();
    let tasks = db.get_all_tasks().unwrap();
    assert_eq!(tasks.len(), 1);
    let t = &tasks[0];
    assert_eq!(t.id, id);
    assert_eq!(t.content, "new");
    assert_eq!(t.status, "doing");
    assert_eq!(t.priority, 7);
    assert_eq!(t.tags, "[\"x\"]");
    assert_eq!(t.time_duration, Some(15));
    assert_eq!(t.due_date, Some("2025-01-01".to_string()));
    assert_eq!(t.completed_at, Some("2025-01-02 08:00:00".to_string()));
    assert_eq!(t.created_at, created);
}

#[test]
fn empty_update_changes_nothing() {
    let db = open();
    let id = db.add_task(new_task("keep", "todo", 2)).unwrap();
    let before = db.get_all_tasks().unwrap();
    assert_eq!(db.update_task(id, None, None, None, None, None, None, None), Ok(()));
    assert_eq!(db.get_all_tasks().unwrap(), before);
}

#[test]
fn update_to_invalid_status_is_rejected() {
    let db = open();
    let id = db.add_task(new_task("keep", "todo", 2)).unwrap();
    let before = db.get_all_tasks().unwrap();
    let result =
        db.update_task(id, Some("changed".to_string()), Some("archived".to_string()), None, None, None, None, None);
    assert_eq!(result, Err(StoreError::ConstraintViolation));
    assert_eq!(db.get_all_tasks().unwrap(), before);
}

#[test]
fn update_of_missing_task_succeeds() {
    let db = open();
    let id = db.add_task(new_task("keep", "todo", 2)).unwrap();
    let before = db.get_all_tasks().unwrap();
    assert_eq!(db.update_task(id + 100, None, None, Some(1), None, None, None, None), Ok(()));
    assert_eq!(db.get_all_tasks().unwrap(), before);
}

#[test]
fn delete_removes_the_task() {
    let db = open();
    let a = db.add_task(new_task("a", "todo", 0)).unwrap();
    let b = db.add_task(new_task("b", "todo", 0)).unwrap();
    assert_eq!(db.delete_task(a), Ok(()));
    let tasks = db.get_all_tasks().unwrap();
    assert_eq!(tasks.len(), 1);
    assert_eq!(tasks[0].id, b);
}

#[test]
fn delete_of_missing_task_succeeds() {
    let db = open();
    let a = db.add_task(new_task("a", "todo", 0)).unwrap();
    assert_eq!(db.delete_task(a + 41), Ok(()));
    assert_eq!(db.get_all_tasks().unwrap().len(), 1);
    let empty = open();
    assert_eq!(empty.delete_task(1), Ok(()));
}

#[test]
fn clear_column_removes_all_and_only_that_status() {
    let db = open();
    let a = db.add_task(new_task("a", "done", 0)).unwrap();
    let b = db.add_task(new_task("b", "todo", 1)).unwrap();
    let c = db.add_task(new_task("c", "done", 2)).unwrap();
    let d = db.add_task(new_task("d", "inbox", 3)).unwrap();
    let before = db.get_all_tasks().unwrap();
    assert_eq!(db.clear_column("done".to_string()), Ok(()));
    let after = db.get_all_tasks().unwrap();
    assert_eq!(after.len(), 2);
    assert!(after.iter().all(|t| t.id != a && t.id != c));
    for id in [b, d] {
        assert_eq!(
            after.iter().find(|t| t.id == id).unwrap(),
            before.iter().find(|t| t.id == id).unwrap()
        );
    }
    assert_eq!(db.clear_column("done".to_string()), Ok(()));
    assert_eq!(db.get_all_tasks().unwrap(), after);
}

#[test]
fn clear_column_of_unknown_status_deletes_nothing() {
    let db = open();
    db.add_task(new_task("a", "done", 0)).unwrap();
    assert_eq!(db.clear_column("archived".to_string()), Ok(()));
    assert_eq!(db.get_all_tasks().unwrap().len(), 1);
}

#[test]
fn tasks_are_listed_newest_first() {
    let db = open();
    let a = db.add_task(new_task("a", "todo", 0)).unwrap();
    let b = db.add_task(new_task("b", "todo", 0)).unwrap();
    let tasks = db.get_all_tasks().unwrap();
    assert_eq!(tasks.len(), 2);
    assert!(tasks[0].created_at >= tasks[1].created_at);
    assert!(tasks.iter().any(|t| t.id == a));
    assert!(tasks.iter().any(|t| t.id == b));
}

#[test]
fn new_store_has_default_settings() {
    let db = open();
    let settings = db.get_settings().unwrap();
    assert_eq!(settings.theme, "cool-blues");
    assert_eq!(settings.time_mode, "daily");
    assert_eq!(settings.available_time, 12);
}

#[test]
fn settings_are_replaced_by_the_latest() {
    let db = open();
    let first = Settings { theme: "dark".to_string(), time_mode: "weekly".to_string(), available_time: 8 };
    let second = Settings { theme: "light".to_string(), time_mode: "daily".to_string(), available_time: 3 };
    assert_eq!(db.update_settings(first.clone()), Ok(()));
    assert_eq!(db.get_settings().unwrap(), first);
    assert_eq!(db.update_settings(second.clone()), Ok(()));
    assert_eq!(db.get_settings().unwrap(), second);
}

#[test]
fn presets_are_listed_by_name() {
    let db = open();
    let w = db
        .add_preset(NewCalendarPreset { name: "Work".to_string(), default_tags: "[\"work\"]".to_string(), default_priority: 2 })
        .unwrap();
    let h = db
        .add_preset(NewCalendarPreset { name: "Home".to_string(), default_tags: "[]".to_string(), default_priority: 0 })
        .unwrap();
    assert!(w < h);
    let presets = db.get_all_presets().unwrap();
    assert_eq!(presets.len(), 2);
    assert_eq!(presets[0].id, h);
    assert_eq!(presets[0].name, "Home");
    assert_eq!(presets[1].id, w);
    assert_eq!(presets[1].name, "Work");
    assert_eq!(presets[1].default_tags, "[\"work\"]");
    assert_eq!(presets[1].default_priority, 2);
}

#[test]
fn delete_preset_removes_it_and_missing_id_is_no_error() {
    let db = open();
    let w = db
        .add_preset(NewCalendarPreset { name: "Work".to_string(), default_tags: "[]".to_string(), default_priority: 2 })
        .unwrap();
    assert_eq!(db.delete_preset(w + 7), Ok(()));
    assert_eq!(db.get_all_presets().unwrap().len(), 1);
    assert_eq!(db.delete_preset(w), Ok(()));
    assert_eq!(db.get_all_presets().unwrap().len(), 0);
}

#[test]
fn scenario_task_and_preset() {
    let db = open();
    let a = db.add_task(new_task("buy milk", "todo", 1)).unwrap();
    let p = db
        .add_preset(NewCalendarPreset {
            name: "Work".to_string(),
            default_tags: "[\"work\"]".to_string(),
            default_priority: 2,
        })
        .unwrap();
    db.update_task(a, None, Some("done".to_string()), None, None, None, None, Some("2024-05-01 10:00:00".to_string()))
        .unwrap();
    let tasks = db.get_all_tasks().unwrap();
    assert_eq!(tasks.len(), 1);
    assert_eq!(tasks[0].id, a);
    assert_eq!(tasks[0].status, "done");
    assert_eq!(tasks[0].completed_at, Some("2024-05-01 10:00:00".to_string()));
    assert_eq!(tasks[0].content, "buy milk");
    let presets = db.get_all_presets().unwrap();
    assert_eq!(presets.len(), 1);
    assert_eq!(presets[0].id, p);
    assert_eq!(presets[0].name, "Work");
    assert_eq!(presets[0].default_tags, "[\"work\"]");
    assert_eq!(presets[0].default_priority, 2);
}

#[test]
fn store_in_missing_directory_is_not_openable() {
    let result = Database::new("/no-such-directory-for-kalenote/inner/kalenote.db");
    assert!(matches!(result, Err(StoreError::NotOpenable)));
}
