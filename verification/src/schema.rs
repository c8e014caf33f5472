//! The schema of the store: three tables, two indexes on the tasks, and the
//! settings record that every store starts with.

use vstd::prelude::*;
use vstd::string::*;
use crate::records::{Settings, SettingsView};
use crate::statement::{lemma_last_placeholder, lemma_next_placeholder, placeholders, Statement, StatementView};
use crate::value::{SqlValue, SqlValueView};

verus! {

/// Creates the table of tasks unless it exists. The table itself rejects a
/// status outside the enumeration.
pub const CREATE_TASKS: &'static str =
    "CREATE TABLE IF NOT EXISTS tasks (id INTEGER PRIMARY KEY AUTOINCREMENT, content TEXT NOT NULL, status TEXT NOT NULL CHECK(status IN ('inbox', 'todo', 'doing', 'done')), priority INTEGER NOT NULL DEFAULT 0, created_at TEXT NOT NULL DEFAULT (datetime('now')), completed_at TEXT, due_date TEXT, time_duration INTEGER, tags TEXT NOT NULL DEFAULT '[]')";

/// Creates the index of the tasks by status unless it exists.
pub const CREATE_STATUS_INDEX: &'static str =
    "CREATE INDEX IF NOT EXISTS idx_status ON tasks(status)";

/// Creates the index of the tasks by due date unless it exists.
pub const CREATE_DUE_DATE_INDEX: &'static str =
    "CREATE INDEX IF NOT EXISTS idx_due_date ON tasks(due_date)";

/// Creates the table of the settings unless it exists. The table pins the
/// id of its rows to 1, so it never holds more than one.
pub const CREATE_SETTINGS: &'static str =
    "CREATE TABLE IF NOT EXISTS settings (id INTEGER PRIMARY KEY CHECK (id = 1), theme TEXT NOT NULL DEFAULT 'cool-blues', time_mode TEXT NOT NULL DEFAULT 'daily', available_time INTEGER NOT NULL DEFAULT 12)";

/// Inserts the settings record unless there is one already.
pub const SEED_SETTINGS: &'static str =
    "INSERT OR IGNORE INTO settings (id, theme, time_mode, available_time) VALUES (1, ?1, ?2, ?3)";

/// Creates the table of calendar presets unless it exists.
pub const CREATE_PRESETS: &'static str =
    "CREATE TABLE IF NOT EXISTS calendar_presets (id INTEGER PRIMARY KEY AUTOINCREMENT, name TEXT NOT NULL, default_tags TEXT NOT NULL DEFAULT '[]', default_priority INTEGER NOT NULL DEFAULT 0)";

/// The settings that a new store starts with.
pub open spec fn spec_default_settings() -> SettingsView {
    SettingsView { theme: "cool-blues"@, time_mode: "daily"@, available_time: 12 }
}

/// The settings that a new store starts with.
pub fn default_settings() -> (settings: Settings)
    ensures
        settings@ == spec_default_settings(),
{
    Settings {
        theme: String::from_str("cool-blues"),
        time_mode: String::from_str("daily"),
        available_time: 12,
    }
}

/// A statement that binds nothing.
pub open spec fn plain(text: Seq<char>) -> StatementView {
    StatementView { text, params: Seq::empty() }
}

/// What [`schema`] lists.
pub open spec fn spec_schema() -> Seq<StatementView> {
    seq![
        plain(CREATE_TASKS@),
        plain(CREATE_STATUS_INDEX@),
        plain(CREATE_DUE_DATE_INDEX@),
        plain(CREATE_SETTINGS@),
        StatementView {
            text: SEED_SETTINGS@,
            params: seq![
                SqlValueView::Text(spec_default_settings().theme),
                SqlValueView::Text(spec_default_settings().time_mode),
                SqlValueView::Integer(spec_default_settings().available_time),
            ],
        },
        plain(CREATE_PRESETS@),
    ]
}

/// The mathematical content of a list of statements.
pub open spec fn statements_view(statements: Seq<Statement>) -> Seq<StatementView> {
    Seq::new(statements.len(), |i: int| statements[i]@)
}

fn plain_statement(text: &str) -> (statement: Statement)
    ensures
        statement@ == plain(text@),
{
    let statement = Statement { text: String::from_str(text), params: Vec::new() };
    assert(statement@.params =~= Seq::<SqlValueView>::empty());
    statement
}

/// The statements that set a store up, in the order in which they run.
/// Each of them leaves alone what it finds already there, so running the
/// list on a store that is set up changes nothing; in particular the
/// settings record is inserted only where there is none.
pub fn schema() -> (statements: Vec<Statement>)
    ensures
        statements_view(statements@) == spec_schema(),
        forall|i: int| 0 <= i < statements@.len() ==> (#[trigger] statements@[i])@.balanced(),
{
    proof {
        law_schema_binds_every_placeholder();
    }
    let defaults = default_settings();
    let mut params: Vec<SqlValue> = Vec::new();
    params.push(SqlValue::Text(defaults.theme));
    params.push(SqlValue::Text(defaults.time_mode));
    params.push(SqlValue::Integer(defaults.available_time as i64));
    let seed = Statement { text: String::from_str(SEED_SETTINGS), params };
    assert(seed@.params =~= spec_schema()[4].params);
    let mut statements: Vec<Statement> = Vec::new();
    statements.push(plain_statement(CREATE_TASKS));
    statements.push(plain_statement(CREATE_STATUS_INDEX));
    statements.push(plain_statement(CREATE_DUE_DATE_INDEX));
    statements.push(plain_statement(CREATE_SETTINGS));
    statements.push(seed);
    statements.push(plain_statement(CREATE_PRESETS));
    assert(statements_view(statements@) =~= spec_schema());
    assert forall|i: int| 0 <= i < statements@.len() implies (
    #[trigger] statements@[i])@.balanced() by {
        assert(statements@[i]@ == statements_view(statements@)[i]);
        assert(spec_schema()[i].balanced());
    }
    statements
}

/// No statement of the schema falls out of step with its values: the
/// text of each has exactly one placeholder for each value that the
/// statement binds, which is none but for the one that inserts the
/// settings record.
pub proof fn law_schema_binds_every_placeholder()
    ensures
        forall|i: int| 0 <= i < spec_schema().len() ==> (#[trigger] spec_schema()[i]).balanced(),
{
    assert(placeholders(CREATE_TASKS@) == 0) by {
        reveal_strlit(
            "CREATE TABLE IF NOT EXISTS tasks (id INTEGER PRIMARY KEY AUTOINCREMENT, content TEXT NOT NULL, status TEXT NOT NULL CHECK(status IN ('inbox', 'todo', 'doing', 'done')), priority INTEGER NOT NULL DEFAULT 0, created_at TEXT NOT NULL DEFAULT (datetime('now')), completed_at TEXT, due_date TEXT, time_duration INTEGER, tags TEXT NOT NULL DEFAULT '[]')",
        );
        let text = CREATE_TASKS@;
        assert(text.subrange(0, 0) =~= Seq::<char>::empty());
        lemma_last_placeholder(text, 0);
    }
    assert(placeholders(CREATE_STATUS_INDEX@) == 0) by {
        reveal_strlit(
            "CREATE INDEX IF NOT EXISTS idx_status ON tasks(status)",
        );
        let text = CREATE_STATUS_INDEX@;
        assert(text.subrange(0, 0) =~= Seq::<char>::empty());
        lemma_last_placeholder(text, 0);
    }
    assert(placeholders(CREATE_DUE_DATE_INDEX@) == 0) by {
        reveal_strlit(
            "CREATE INDEX IF NOT EXISTS idx_due_date ON tasks(due_date)",
        );
        let text = CREATE_DUE_DATE_INDEX@;
        assert(text.subrange(0, 0) =~= Seq::<char>::empty());
        lemma_last_placeholder(text, 0);
    }
    assert(placeholders(CREATE_SETTINGS@) == 0) by {
        reveal_strlit(
            "CREATE TABLE IF NOT EXISTS settings (id INTEGER PRIMARY KEY CHECK (id = 1), theme TEXT NOT NULL DEFAULT 'cool-blues', time_mode TEXT NOT NULL DEFAULT 'daily', available_time INTEGER NOT NULL DEFAULT 12)",
        );
        let text = CREATE_SETTINGS@;
        assert(text.subrange(0, 0) =~= Seq::<char>::empty());
        lemma_last_placeholder(text, 0);
    }
    assert(placeholders(SEED_SETTINGS@) == 3) by {
        reveal_strlit(
            "INSERT OR IGNORE INTO settings (id, theme, time_mode, available_time) VALUES (1, ?1, ?2, ?3)",
        );
        let text = SEED_SETTINGS@;
        assert(text.subrange(0, 0) =~= Seq::<char>::empty());
        lemma_next_placeholder(text, 0, 81);
        lemma_next_placeholder(text, 82, 85);
        lemma_next_placeholder(text, 86, 89);
        lemma_last_placeholder(text, 90);
    }
    assert(placeholders(CREATE_PRESETS@) == 0) by {
        reveal_strlit(
            "CREATE TABLE IF NOT EXISTS calendar_presets (id INTEGER PRIMARY KEY AUTOINCREMENT, name TEXT NOT NULL, default_tags TEXT NOT NULL DEFAULT '[]', default_priority INTEGER NOT NULL DEFAULT 0)",
        );
        let text = CREATE_PRESETS@;
        assert(text.subrange(0, 0) =~= Seq::<char>::empty());
        lemma_last_placeholder(text, 0);
    }
}

} // verus!
