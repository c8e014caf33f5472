//! The store: one connection to the backing file, and the operations on
//! tasks, settings and calendar presets that run over it.
//!
//! Each operation builds its statement in verified code, hands it to the
//! engine, and sorts the outcome. What is proved of an operation is what
//! holds whatever the engine answers: which inputs are turned down before
//! the engine is asked, which need no statement at all, and which kinds of
//! error can come back. What the statement is, is stated exactly where it
//! is built, in [`crate::statement`]; what the rows that come back mean, in
//! [`crate::rows`]; what the statement asks of the engine, in
//! [`crate::tables`].

use vstd::prelude::*;
use crate::engine;
use crate::error::{classify, StoreError};
use crate::records::{CalendarPreset, NewCalendarPreset, NewTask, Settings, Task};
use crate::rows::{
    decode_presets, decode_settings, decode_tasks, decoded, presets_outcome, rows_view,
    settings_outcome, spec_decode_presets, spec_decode_settings, spec_decode_tasks, tasks_outcome,
    PRESET_WIDTH, SETTINGS_WIDTH, TASK_WIDTH,
};
use crate::schema::schema;
use crate::statement;
use crate::statement::Statement;
use crate::status::{is_valid_status, valid_status};
use crate::update::{plan_update, TaskUpdate};
use crate::value::{Cell, CellView};

verus! {

/// Whether an error is one that a failed statement is reported as.
pub open spec fn engine_failure(error: StoreError) -> bool {
    error != StoreError::StoreCorrupted
}

/// Runs a statement that returns no rows. A failure is reported by the
/// kind that the engine's result code falls under.
pub(crate) fn run(conn: &rusqlite::Connection, statement: &Statement) -> (changed: Result<
    usize,
    StoreError,
>)
    requires
        statement@.balanced(),
    ensures
        changed matches Err(e) ==> engine_failure(e),
{
    match engine::execute(conn, statement.text.as_str(), &statement.params) {
        Ok(count) => Ok(count),
        Err(error) => Err(classify(engine::failure_code(&error))),
    }
}

/// Runs a query without placeholders and hands back the first `width`
/// cells of each of its rows. A failure is reported by the kind that the
/// engine's result code falls under.
pub(crate) fn fetch(conn: &rusqlite::Connection, text: &str, width: usize) -> (rows: Result<
    Vec<Vec<Cell>>,
    StoreError,
>)
    requires
        crate::statement::placeholders(text@) == 0,
    ensures
        rows matches Err(e) ==> engine_failure(e),
        rows matches Ok(found) ==> forall|i: int|
            0 <= i < found@.len() ==> (#[trigger] found@[i])@.len() == width,
{
    match engine::query(conn, text, width) {
        Ok(found) => Ok(found),
        Err(error) => Err(classify(engine::failure_code(&error))),
    }
}

/// Whether every row has `width` cells.
pub open spec fn rows_of_width(rows: Seq<Seq<CellView>>, width: usize) -> bool {
    forall|i: int| 0 <= i < rows.len() ==> (#[trigger] rows[i]).len() == width
}

/// Whether `outcome` is what reading `rows` as a task listing gives, for
/// rows of the nine cells that the query asks for.
pub open spec fn tasks_read_from(
    outcome: Result<Vec<Task>, StoreError>,
    rows: Seq<Seq<CellView>>,
) -> bool {
    rows_of_width(rows, TASK_WIDTH) && tasks_outcome(outcome) == decoded(spec_decode_tasks(rows))
}

/// Whether `outcome` is what reading `rows` as the result of the settings
/// query gives, for rows of the three cells that the query asks for.
pub open spec fn settings_read_from(
    outcome: Result<Settings, StoreError>,
    rows: Seq<Seq<CellView>>,
) -> bool {
    rows_of_width(rows, SETTINGS_WIDTH) && settings_outcome(outcome) == decoded(
        spec_decode_settings(rows),
    )
}

/// Whether `outcome` is what reading `rows` as a preset listing gives, for
/// rows of the four cells that the query asks for.
pub open spec fn presets_read_from(
    outcome: Result<Vec<CalendarPreset>, StoreError>,
    rows: Seq<Seq<CellView>>,
) -> bool {
    rows_of_width(rows, PRESET_WIDTH) && presets_outcome(outcome) == decoded(
        spec_decode_presets(rows),
    )
}

/// The rows that a query handed back have the width that was asked for.
pub proof fn lemma_rows_of_width(rows: Seq<Vec<Cell>>, width: usize)
    requires
        forall|i: int| 0 <= i < rows.len() ==> (#[trigger] rows[i])@.len() == width,
    ensures
        rows_of_width(rows_view(rows), width),
{
    assert forall|i: int| 0 <= i < rows_view(rows).len() implies (#[trigger] rows_view(rows)[i]).len()
        == width by {
        assert(rows_view(rows)[i] == crate::rows::cells_view(rows[i]@));
    }
}

/// A store of tasks, settings and calendar presets in one SQLite file.
/// Every operation is one call that runs to its end on the store's single
/// connection; nothing is cached between calls.
pub struct Database {
    conn: rusqlite::Connection,
}

impl Database {
    /// Opens the store at `path`, creating the file if it is absent, and
    /// sets it up: the three tables, the two indexes on the tasks, and the
    /// settings record with its default values where there is none. A store
    /// that is set up already is left as it is. If the file cannot be opened
    /// the error is `NotOpenable`; if any step of the set-up fails, no store
    /// is returned. The steps are the statements of [`schema`], which ask
    /// for the change that [`Tables::set_up`](crate::tables::Tables::set_up)
    /// describes. The directory of the file has to exist.
    pub fn new(path: &str) -> (store: Result<Database, StoreError>)
        ensures
            store matches Err(e) ==> engine_failure(e),
    {
        let conn = match engine::open(path) {
            Ok(conn) => conn,
            Err(_) => {
                return Err(StoreError::NotOpenable);
            },
        };
        let statements = schema();
        let mut i: usize = 0;
        while i < statements.len()
            invariant
                i <= statements@.len(),
                forall|k: int|
                    0 <= k < statements@.len() ==> (#[trigger] statements@[k])@.balanced(),
            decreases statements@.len() - i,
        {
            match run(&conn, &statements[i]) {
                Ok(_) => {},
                Err(error) => {
                    return Err(error);
                },
            }
            i += 1;
        }
        Ok(Database { conn })
    }

    /// Lists all tasks, the most recently created first: the query asks the
    /// engine for a listing in the sense of
    /// [`Tables::is_task_listing`](crate::tables::Tables::is_task_listing),
    /// and [`decode_tasks`] reads the rows that come back. A row that does
    /// not have the shape of a task is reported as `StoreCorrupted`.
    ///
    /// What comes back is either a failure of the engine, or what
    /// [`decode_tasks`] makes of the rows that the engine handed back.
    pub fn get_all_tasks(&self) -> (tasks: Result<Vec<Task>, StoreError>)
        ensures
            tasks matches Err(e) && engine_failure(e) || exists|rows: Seq<Seq<CellView>>|
                #[trigger] tasks_read_from(tasks, rows),
    {
        proof {
            statement::law_queries_have_no_placeholder();
        }
        match fetch(&self.conn, statement::SELECT_TASKS, TASK_WIDTH) {
            Ok(rows) => {
                let tasks = decode_tasks(&rows);
                proof {
                    lemma_rows_of_width(rows@, TASK_WIDTH);
                    assert(tasks_read_from(tasks, rows_view(rows@)));
                }
                tasks
            },
            Err(error) => Err(error),
        }
    }

    /// Inserts a task and returns the id that the store gave it. The store
    /// stamps the creation time and leaves the completion time absent. A
    /// status outside the enumeration is rejected with
    /// `ConstraintViolation` before anything reaches the file. Otherwise
    /// the engine is handed [`statement::insert_task`], which asks for the
    /// change that [`Tables::add_task`](crate::tables::Tables::add_task)
    /// describes; whether it succeeds is up to the engine.
    pub fn add_task(&self, task: NewTask) -> (id: Result<i64, StoreError>)
        ensures
            !valid_status(task.status@) ==> id == Err::<i64, StoreError>(
                StoreError::ConstraintViolation,
            ),
            id matches Err(e) ==> engine_failure(e),
    {
        if !is_valid_status(task.status.as_str()) {
            return Err(StoreError::ConstraintViolation);
        }
        match run(&self.conn, &statement::insert_task(&task)) {
            Ok(_) => Ok(self.conn.last_insert_rowid()),
            Err(error) => Err(error),
        }
    }

    /// Changes the fields of the task `id` that are given as `Some`, in one
    /// statement, and leaves the others as they are. With no field given
    /// nothing is run and the call succeeds. A status outside the
    /// enumeration is rejected with `ConstraintViolation` before anything
    /// reaches the file. An id that no task has is not an error. The
    /// fields given become a plan by [`plan_update`], and the plan one
    /// statement by [`statement::update_task`], which asks for the change
    /// that [`Tables::update_task`](crate::tables::Tables::update_task)
    /// describes.
    pub fn update_task(
        &self,
        id: i64,
        content: Option<String>,
        status: Option<String>,
        priority: Option<i32>,
        tags: Option<String>,
        time_duration: Option<i32>,
        due_date: Option<String>,
        completed_at: Option<String>,
    ) -> (done: Result<(), StoreError>)
        ensures
            status is Some && !valid_status(status->0@) ==> done == Err::<(), StoreError>(
                StoreError::ConstraintViolation,
            ),
            content is None && status is None && priority is None && tags is None
                && time_duration is None && due_date is None && completed_at is None ==> done
                == Ok::<(), StoreError>(()),
            done matches Err(e) ==> engine_failure(e),
    {
        let valid = match &status {
            Some(s) => is_valid_status(s.as_str()),
            None => true,
        };
        if !valid {
            return Err(StoreError::ConstraintViolation);
        }
        let update = TaskUpdate {
            content,
            status,
            priority,
            tags,
            time_duration,
            due_date,
            completed_at,
        };
        proof {
            crate::update::lemma_plan_is_empty(update@);
        }
        let plan = plan_update(update);
        match statement::update_task(id, &plan) {
            None => Ok(()),
            Some(statement) => match run(&self.conn, &statement) {
                Ok(_) => Ok(()),
                Err(error) => Err(error),
            },
        }
    }

    /// Deletes the task `id`. An id that no task has is not an error. The
    /// engine is handed [`statement::delete_task`], which asks for the
    /// change that [`Tables::delete_task`](crate::tables::Tables::delete_task)
    /// describes.
    pub fn delete_task(&self, id: i64) -> (done: Result<(), StoreError>)
        ensures
            done matches Err(e) ==> engine_failure(e),
    {
        match run(&self.conn, &statement::delete_task(id)) {
            Ok(_) => Ok(()),
            Err(error) => Err(error),
        }
    }

    /// Deletes every task whose status is `status`. The status is not held
    /// to the enumeration: one that no task has deletes nothing. The engine
    /// is handed [`statement::clear_column`], which asks for the change that
    /// [`Tables::clear_column`](crate::tables::Tables::clear_column)
    /// describes.
    pub fn clear_column(&self, status: String) -> (done: Result<(), StoreError>)
        ensures
            done matches Err(e) ==> engine_failure(e),
    {
        match run(&self.conn, &statement::clear_column(status)) {
            Ok(_) => Ok(()),
            Err(error) => Err(error),
        }
    }

    /// Reads the settings record; [`decode_settings`] reads the rows that
    /// come back. A store without the record is reported as
    /// `StoreCorrupted`, and so is a record of another shape.
    ///
    /// What comes back is either a failure of the engine, or what
    /// [`decode_settings`] makes of the rows that the engine handed back.
    pub fn get_settings(&self) -> (settings: Result<Settings, StoreError>)
        ensures
            settings matches Err(e) && engine_failure(e) || exists|rows: Seq<Seq<CellView>>|
                #[trigger] settings_read_from(settings, rows),
    {
        proof {
            statement::law_queries_have_no_placeholder();
        }
        match fetch(&self.conn, statement::SELECT_SETTINGS, SETTINGS_WIDTH) {
            Ok(rows) => {
                let settings = decode_settings(&rows);
                proof {
                    lemma_rows_of_width(rows@, SETTINGS_WIDTH);
                    assert(settings_read_from(settings, rows_view(rows@)));
                }
                settings
            },
            Err(error) => Err(error),
        }
    }

    /// Overwrites all three fields of the settings record in one statement,
    /// [`statement::update_settings`], which asks for the change that
    /// [`Tables::update_settings`](crate::tables::Tables::update_settings)
    /// describes.
    pub fn update_settings(&self, settings: Settings) -> (done: Result<(), StoreError>)
        ensures
            done matches Err(e) ==> engine_failure(e),
    {
        match run(&self.conn, &statement::update_settings(&settings)) {
            Ok(_) => Ok(()),
            Err(error) => Err(error),
        }
    }

    /// Lists all calendar presets by name: the query asks the engine for a
    /// listing in the sense of
    /// [`Tables::is_preset_listing`](crate::tables::Tables::is_preset_listing),
    /// and [`decode_presets`] reads the rows that come back. A row that does
    /// not have the shape of a preset is reported as `StoreCorrupted`.
    ///
    /// What comes back is either a failure of the engine, or what
    /// [`decode_presets`] makes of the rows that the engine handed back.
    pub fn get_all_presets(&self) -> (presets: Result<Vec<CalendarPreset>, StoreError>)
        ensures
            presets matches Err(e) && engine_failure(e) || exists|rows: Seq<Seq<CellView>>|
                #[trigger] presets_read_from(presets, rows),
    {
        proof {
            statement::law_queries_have_no_placeholder();
        }
        match fetch(&self.conn, statement::SELECT_PRESETS, PRESET_WIDTH) {
            Ok(rows) => {
                let presets = decode_presets(&rows);
                proof {
                    lemma_rows_of_width(rows@, PRESET_WIDTH);
                    assert(presets_read_from(presets, rows_view(rows@)));
                }
                presets
            },
            Err(error) => Err(error),
        }
    }

    /// Inserts a calendar preset and returns the id that the store gave it.
    /// The engine is handed [`statement::insert_preset`], which asks for the
    /// change that [`Tables::add_preset`](crate::tables::Tables::add_preset)
    /// describes.
    pub fn add_preset(&self, preset: NewCalendarPreset) -> (id: Result<i64, StoreError>)
        ensures
            id matches Err(e) ==> engine_failure(e),
    {
        match run(&self.conn, &statement::insert_preset(&preset)) {
            Ok(_) => Ok(self.conn.last_insert_rowid()),
            Err(error) => Err(error),
        }
    }

    /// Deletes the calendar preset `id`. An id that no preset has is not an
    /// error. The engine is handed [`statement::delete_preset`], which asks
    /// for the change that
    /// [`Tables::delete_preset`](crate::tables::Tables::delete_preset)
    /// describes.
    pub fn delete_preset(&self, id: i64) -> (done: Result<(), StoreError>)
        ensures
            done matches Err(e) ==> engine_failure(e),
    {
        match run(&self.conn, &statement::delete_preset(id)) {
            Ok(_) => Ok(()),
            Err(error) => Err(error),
        }
    }
}

} // verus!
