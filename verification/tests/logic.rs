use kalenote::error::{classify, StoreError};
use kalenote::migrate::corrupted_ids;
use kalenote::records::{CalendarPreset, NewCalendarPreset, NewTask, Settings, Task};
use kalenote::rows::{decode_preset, decode_presets, decode_settings, decode_task, decode_tasks};
use kalenote::schema::{default_settings, schema};
use kalenote::statement;
use kalenote::status::{is_valid_status, needs_repair};
use kalenote::text::{is_integer_text, text_eq};
use kalenote::update::{plan_update, Assignment, TaskUpdate};
use kalenote::value::{Cell, SqlValue};

fn text(s: &str) -> Cell {
    Cell::Text(s.as_bytes().to_vec())
}

fn no_update() -> TaskUpdate {
    TaskUpdate {
        content: None,
        status: None,
        priority: None,
        tags: None,
        time_duration: None,
        due_date: None,
        completed_at: None,
    }
}

#[test]
fn classify_sorts_by_primary_code() {
    assert_eq!(classify(Some(19)), StoreError::ConstraintViolation);
    assert_eq!(classify(Some(275)), StoreError::ConstraintViolation);
    assert_eq!(classify(Some(1555)), StoreError::ConstraintViolation);
    assert_eq!(classify(Some(14)), StoreError::NotOpenable);
    assert_eq!(classify(Some(270)), StoreError::NotOpenable);
    assert_eq!(classify(Some(1)), StoreError::QueryFailed);
    assert_eq!(classify(Some(5)), StoreError::QueryFailed);
    assert_eq!(classify(Some(0)), StoreError::QueryFailed);
    assert_eq!(classify(Some(-19)), StoreError::QueryFailed);
    assert_eq!(classify(Some(i32::MAX)), StoreError::QueryFailed);
    assert_eq!(classify(Some(i32::MIN)), StoreError::QueryFailed);
    assert_eq!(classify(None), StoreError::QueryFailed);
}

#[test]
fn text_eq_compares_characters() {
    assert!(text_eq("", ""));
    assert!(text_eq("inbox", "inbox"));
    assert!(!text_eq("inbox", "inbo"));
    assert!(!text_eq("inbox", "inboy"));
    assert!(!text_eq("", "a"));
    assert!(text_eq("zażółć", "zażółć"));
    assert!(!text_eq("zażółć", "zazolc"));
}

#[test]
fn valid_statuses_are_the_four() {
    for status in ["inbox", "todo", "doing", "done"] {
        assert!(is_valid_status(status));
    }
    for status in ["", "archived", "Inbox", "done ", " todo", "2", "inboxx"] {
        assert!(!is_valid_status(status));
    }
}

#[test]
fn integer_text_agrees_with_parse() {
    let samples = [
        "", "0", "2", "-0", "+0", "+", "-", "+-1", "--1", "007", "-007", "+42", "42", " 42", "42 ",
        "4 2", "2x", "x2", "1.0", "1e3", "2147483647", "2147483648", "-2147483648", "-2147483649",
        "+2147483647", "+2147483648", "0000000000000000002147483647", "00000000000000000002147483648",
        "99999999999999999999999999", "-99999999999999999999999999", "٣", "１２", "inbox", "todo",
        "doing", "done", "0x10", "1_000", "\u{0}", "9", "-9", "1\n",
    ];
    for sample in samples {
        assert_eq!(is_integer_text(sample), sample.parse::<i32>().is_ok(), "{:?}", sample);
        assert_eq!(needs_repair(sample), sample.parse::<i32>().is_ok(), "{:?}", sample);
    }
}

#[test]
fn plan_of_empty_update_is_empty() {
    assert_eq!(plan_update(no_update()), Vec::<Assignment>::new());
}

#[test]
fn plan_holds_present_fields_in_fixed_order() {
    let plan = plan_update(TaskUpdate {
        content: Some("c".to_string()),
        status: Some("done".to_string()),
        priority: Some(5),
        tags: Some("[]".to_string()),
        time_duration: Some(30),
        due_date: Some("d".to_string()),
        completed_at: Some("t".to_string()),
    });
    assert_eq!(
        plan,
        vec![
            Assignment::Content("c".to_string()),
            Assignment::Status("done".to_string()),
            Assignment::Priority(5),
            Assignment::Tags("[]".to_string()),
            Assignment::TimeDuration(30),
            Assignment::DueDate("d".to_string()),
            Assignment::CompletedAt("t".to_string()),
        ]
    );
    let sparse = plan_update(TaskUpdate {
        completed_at: Some("t".to_string()),
        priority: Some(-1),
        ..no_update()
    });
    assert_eq!(sparse, vec![Assignment::Priority(-1), Assignment::CompletedAt("t".to_string())]);
}

#[test]
fn assignment_names_its_column_and_value() {
    let cases = [
        (Assignment::Content("a".to_string()), "content", SqlValue::Text("a".to_string())),
        (Assignment::Status("b".to_string()), "status", SqlValue::Text("b".to_string())),
        (Assignment::Priority(-2), "priority", SqlValue::Integer(-2)),
        (Assignment::Tags("c".to_string()), "tags", SqlValue::Text("c".to_string())),
        (Assignment::TimeDuration(i32::MAX), "time_duration", SqlValue::Integer(2147483647)),
        (Assignment::DueDate("d".to_string()), "due_date", SqlValue::Text("d".to_string())),
        (Assignment::CompletedAt("e".to_string()), "completed_at", SqlValue::Text("e".to_string())),
    ];
    for (assignment, column, value) in cases {
        assert_eq!(assignment.column(), column);
        assert_eq!(assignment.value(), value);
    }
}

#[test]
fn update_statement_for_priority_only() {
    let plan = plan_update(TaskUpdate { priority: Some(5), ..no_update() });
    let statement = statement::update_task(7, &plan).unwrap();
    assert_eq!(statement.text, "UPDATE tasks SET priority = ? WHERE id = ?");
    assert_eq!(statement.params, vec![SqlValue::Integer(5), SqlValue::Integer(7)]);
}

#[test]
fn update_statement_pairs_clauses_and_values() {
    let plan = plan_update(TaskUpdate {
        status: Some("done".to_string()),
        completed_at: Some("2024-05-01".to_string()),
        content: Some("x".to_string()),
        ..no_update()
    });
    let statement = statement::update_task(-3, &plan).unwrap();
    assert_eq!(
        statement.text,
        "UPDATE tasks SET content = ?, status = ?, completed_at = ? WHERE id = ?"
    );
    assert_eq!(
        statement.params,
        vec![
            SqlValue::Text("x".to_string()),
            SqlValue::Text("done".to_string()),
            SqlValue::Text("2024-05-01".to_string()),
            SqlValue::Integer(-3),
        ]
    );
    assert_eq!(statement.text.matches('?').count(), statement.params.len());
}

#[test]
fn update_statement_with_all_fields() {
    let plan = plan_update(TaskUpdate {
        content: Some("c".to_string()),
        status: Some("todo".to_string()),
        priority: Some(1),
        tags: Some("[]".to_string()),
        time_duration: Some(2),
        due_date: Some("d".to_string()),
        completed_at: Some("t".to_string()),
    });
    let statement = statement::update_task(1, &plan).unwrap();
    assert_eq!(
        statement.text,
        "UPDATE tasks SET content = ?, status = ?, priority = ?, tags = ?, time_duration = ?, due_date = ?, completed_at = ? WHERE id = ?"
    );
    assert_eq!(statement.params.len(), 8);
    assert_eq!(statement.params[7], SqlValue::Integer(1));
}

#[test]
fn update_statement_of_empty_plan_is_none() {
    assert_eq!(statement::update_task(1, &Vec::new()), None);
}

#[test]
fn fixed_statements_bind_in_column_order() {
    let insert = statement::insert_task(&NewTask {
        content: "c".to_string(),
        status: "todo".to_string(),
        priority: 4,
        tags: "[]".to_string(),
        time_duration: None,
        due_date: Some("d".to_string()),
    });
    assert_eq!(insert.text, statement::INSERT_TASK);
    assert_eq!(
        insert.params,
        vec![
            SqlValue::Text("c".to_string()),
            SqlValue::Text("todo".to_string()),
            SqlValue::Integer(4),
            SqlValue::Text("[]".to_string()),
            SqlValue::Null,
            SqlValue::Text("d".to_string()),
        ]
    );
    let delete = statement::delete_task(9);
    assert_eq!(delete.text, "DELETE FROM tasks WHERE id = ?");
    assert_eq!(delete.params, vec![SqlValue::Integer(9)]);
    let clear = statement::clear_column("done".to_string());
    assert_eq!(clear.text, "DELETE FROM tasks WHERE status = ?");
    assert_eq!(clear.params, vec![SqlValue::Text("done".to_string())]);
    let settings = statement::update_settings(&Settings {
        theme: "t".to_string(),
        time_mode: "m".to_string(),
        available_time: 6,
    });
    assert_eq!(settings.text, statement::UPDATE_SETTINGS);
    assert_eq!(
        settings.params,
        vec![SqlValue::Text("t".to_string()), SqlValue::Text("m".to_string()), SqlValue::Integer(6)]
    );
    let preset = statement::insert_preset(&NewCalendarPreset {
        name: "n".to_string(),
        default_tags: "[]".to_string(),
        default_priority: -1,
    });
    assert_eq!(preset.text, statement::INSERT_PRESET);
    assert_eq!(
        preset.params,
        vec![SqlValue::Text("n".to_string()), SqlValue::Text("[]".to_string()), SqlValue::Integer(-1)]
    );
    let gone = statement::delete_preset(3);
    assert_eq!(gone.text, "DELETE FROM calendar_presets WHERE id = ?");
    assert_eq!(gone.params, vec![SqlValue::Integer(3)]);
    let reset = statement::reset_status(11);
    assert_eq!(reset.text, "UPDATE tasks SET status = ? WHERE id = ?");
    assert_eq!(reset.params, vec![SqlValue::Text("inbox".to_string()), SqlValue::Integer(11)]);
}

#[test]
fn schema_has_six_statements_and_seeds_the_defaults() {
    let statements = schema();
    assert_eq!(statements.len(), 6);
    for (i, statement) in statements.iter().enumerate() {
        if i == 4 {
            assert_eq!(
                statement.params,
                vec![
                    SqlValue::Text("cool-blues".to_string()),
                    SqlValue::Text("daily".to_string()),
                    SqlValue::Integer(12),
                ]
            );
            assert!(statement.text.starts_with("INSERT OR IGNORE INTO settings"));
        } else {
            assert_eq!(statement.params, Vec::<SqlValue>::new());
            assert!(statement.text.starts_with("CREATE "));
            assert!(statement.text.contains("IF NOT EXISTS"));
        }
    }
    let defaults = default_settings();
    assert_eq!(
        defaults,
        Settings { theme: "cool-blues".to_string(), time_mode: "daily".to_string(), available_time: 12 }
    );
}

fn task_row() -> Vec<Cell> {
    vec![
        Cell::Integer(3),
        text("buy milk"),
        text("todo"),
        Cell::Integer(1),
        text("2024-05-01 10:00:00"),
        Cell::Null,
        text("2024-06-01"),
        Cell::Integer(20),
        text("[]"),
    ]
}

#[test]
fn task_row_is_decoded() {
    assert_eq!(
        decode_task(&task_row()),
        Ok(Task {
            id: 3,
            content: "buy milk".to_string(),
            status: "todo".to_string(),
            priority: 1,
            created_at: "2024-05-01 10:00:00".to_string(),
            completed_at: None,
            due_date: Some("2024-06-01".to_string()),
            time_duration: Some(20),
            tags: "[]".to_string(),
        })
    );
}

#[test]
fn task_row_of_wrong_shape_is_corruption() {
    let mut short = task_row();
    short.pop();
    assert_eq!(decode_task(&short), Err(StoreError::StoreCorrupted));
    let mut long = task_row();
    long.push(Cell::Null);
    assert_eq!(decode_task(&long), Err(StoreError::StoreCorrupted));
    for (column, cell) in [
        (0, Cell::Null),
        (0, text("3")),
        (1, Cell::Null),
        (1, Cell::Integer(1)),
        (2, Cell::Blob),
        (3, Cell::Integer(2147483648)),
        (3, Cell::Integer(-2147483649)),
        (3, Cell::Real),
        (3, Cell::Null),
        (4, Cell::Null),
        (5, Cell::Integer(0)),
        (6, Cell::Text(vec![0xff, 0xfe])),
        (7, text("20")),
        (7, Cell::Integer(i64::MAX)),
        (8, Cell::Null),
        (8, Cell::Text(vec![0xc3])),
    ] {
        let mut row = task_row();
        row[column] = cell;
        assert_eq!(decode_task(&row), Err(StoreError::StoreCorrupted), "column {}", column);
    }
}

#[test]
fn task_row_edges_are_decoded() {
    let mut row = task_row();
    row[0] = Cell::Integer(i64::MIN);
    row[3] = Cell::Integer(-2147483648);
    row[7] = Cell::Integer(2147483647);
    row[1] = text("zażółć gęślą jaźń");
    row[5] = text("");
    let task = decode_task(&row).unwrap();
    assert_eq!(task.id, i64::MIN);
    assert_eq!(task.priority, i32::MIN);
    assert_eq!(task.time_duration, Some(i32::MAX));
    assert_eq!(task.content, "zażółć gęślą jaźń");
    assert_eq!(task.completed_at, Some("".to_string()));
}

#[test]
fn task_listing_is_decoded_in_order_or_not_at_all() {
    let mut second = task_row();
    second[0] = Cell::Integer(4);
    let tasks = decode_tasks(&vec![second.clone(), task_row()]).unwrap();
    assert_eq!(tasks.len(), 2);
    assert_eq!(tasks[0].id, 4);
    assert_eq!(tasks[1].id, 3);
    assert_eq!(decode_tasks(&Vec::new()), Ok(Vec::new()));
    let mut bad = task_row();
    bad[2] = Cell::Null;
    assert_eq!(decode_tasks(&vec![second, bad, task_row()]), Err(StoreError::StoreCorrupted));
}

#[test]
fn preset_rows_are_decoded() {
    let row = vec![Cell::Integer(2), text("Work"), text("[\"work\"]"), Cell::Integer(2)];
    let expected = CalendarPreset {
        id: 2,
        name: "Work".to_string(),
        default_tags: "[\"work\"]".to_string(),
        default_priority: 2,
    };
    assert_eq!(decode_preset(&row), Ok(expected.clone()));
    assert_eq!(decode_presets(&vec![row.clone(), row.clone()]), Ok(vec![expected.clone(), expected]));
    assert_eq!(decode_preset(&row[..3].to_vec()), Err(StoreError::StoreCorrupted));
    let mut bad = row.clone();
    bad[3] = Cell::Integer(1 << 40);
    assert_eq!(decode_preset(&bad), Err(StoreError::StoreCorrupted));
    let mut null_name = row.clone();
    null_name[1] = Cell::Null;
    assert_eq!(decode_presets(&vec![row, null_name]), Err(StoreError::StoreCorrupted));
}

#[test]
fn settings_are_decoded_from_the_first_row() {
    let row = vec![text("dark"), text("weekly"), Cell::Integer(8)];
    let other = vec![text("x"), text("y"), Cell::Integer(1)];
    let expected = Settings { theme: "dark".to_string(), time_mode: "weekly".to_string(), available_time: 8 };
    assert_eq!(decode_settings(&vec![row.clone()]), Ok(expected.clone()));
    assert_eq!(decode_settings(&vec![row.clone(), other]), Ok(expected));
    assert_eq!(decode_settings(&Vec::new()), Err(StoreError::StoreCorrupted));
    assert_eq!(decode_settings(&vec![vec![text("dark"), text("weekly")]]), Err(StoreError::StoreCorrupted));
    assert_eq!(
        decode_settings(&vec![vec![text("dark"), Cell::Null, Cell::Integer(8)]]),
        Err(StoreError::StoreCorrupted)
    );
}

#[test]
fn corrupted_ids_picks_numeric_statuses() {
    let rows = vec![
        vec![Cell::Integer(1), text("2")],
        vec![Cell::Integer(2), text("inbox")],
        vec![Cell::Integer(3), text("-5")],
        vec![Cell::Integer(4), Cell::Integer(2)],
        vec![text("5"), text("2")],
        vec![Cell::Integer(6), text("2"), Cell::Null],
        vec![Cell::Integer(7)],
        vec![Cell::Integer(8), Cell::Text(vec![0x32, 0xff])],
        vec![Cell::Integer(9), text("2147483648")],
        vec![Cell::Integer(10), text("+2147483647")],
        vec![Cell::Integer(1), text("0")],
        vec![Cell::Integer(11), Cell::Null],
    ];
    assert_eq!(corrupted_ids(&rows), vec![1, 3, 10, 1]);
    assert_eq!(corrupted_ids(&Vec::new()), Vec::<i64>::new());
}
