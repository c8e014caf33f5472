//! What the tables hold, as mathematics, and what each statement of this
//! crate asks the engine to do to them. The laws of the store are proved of
//! this account in [`crate::laws`]. That the engine carries a statement out
//! as written here is its own business and is not proved in this crate.

use vstd::prelude::*;
use crate::error::StoreError;
use crate::records::{CalendarPresetView, NewCalendarPresetView, NewTaskView, SettingsView, TaskView};
use crate::schema::spec_default_settings;
use crate::statement::{integer_or_null, text_or_null};
use crate::status::{corrupted_status, valid_status, DEFAULT_STATUS};
use crate::update::{spec_plan, AssignmentView, TaskUpdateView};
use crate::value::SqlValueView;

verus! {

/// The rows of the three tables, each table in the order of insertion, and
/// the ids that the next insertions will get.
pub struct Tables {
    pub tasks: Seq<TaskView>,
    pub settings: Seq<SettingsView>,
    pub presets: Seq<CalendarPresetView>,
    pub next_task_id: int,
    pub next_preset_id: int,
}

/// A task after one assignment: the assigned field has the new value, all
/// others are as before.
pub open spec fn assign(task: TaskView, assignment: AssignmentView) -> TaskView {
    match assignment {
        AssignmentView::Content(s) => TaskView { content: s, ..task },
        AssignmentView::Status(s) => TaskView { status: s, ..task },
        AssignmentView::Priority(n) => TaskView { priority: n, ..task },
        AssignmentView::Tags(s) => TaskView { tags: s, ..task },
        AssignmentView::TimeDuration(n) => TaskView { time_duration: Some(n), ..task },
        AssignmentView::DueDate(s) => TaskView { due_date: Some(s), ..task },
        AssignmentView::CompletedAt(s) => TaskView { completed_at: Some(s), ..task },
    }
}

/// The value that a task holds in the updatable field at place `rank` of
/// the fixed order of the fields, as the engine stores it.
pub open spec fn stored(task: TaskView, rank: int) -> SqlValueView {
    if rank == 0 {
        SqlValueView::Text(task.content)
    } else if rank == 1 {
        SqlValueView::Text(task.status)
    } else if rank == 2 {
        SqlValueView::Integer(task.priority)
    } else if rank == 3 {
        SqlValueView::Text(task.tags)
    } else if rank == 4 {
        integer_or_null(task.time_duration)
    } else if rank == 5 {
        text_or_null(task.due_date)
    } else if rank == 6 {
        text_or_null(task.completed_at)
    } else {
        SqlValueView::Null
    }
}

/// A task after the assignments of a plan, made in the order of the plan.
pub open spec fn assign_all(task: TaskView, plan: Seq<AssignmentView>) -> TaskView
    decreases plan.len(),
{
    if plan.len() == 0 {
        task
    } else {
        assign(assign_all(task, plan.drop_last()), plan.last())
    }
}

/// A task after a partial update, field by field: a field that the request
/// holds has the value given there, every other field, the id and the
/// creation time among them, is as before.
pub open spec fn updated(task: TaskView, update: TaskUpdateView) -> TaskView {
    TaskView {
        id: task.id,
        content: match update.content {
            Some(s) => s,
            None => task.content,
        },
        status: match update.status {
            Some(s) => s,
            None => task.status,
        },
        priority: match update.priority {
            Some(n) => n,
            None => task.priority,
        },
        created_at: task.created_at,
        completed_at: match update.completed_at {
            Some(s) => Some(s),
            None => task.completed_at,
        },
        due_date: match update.due_date {
            Some(s) => Some(s),
            None => task.due_date,
        },
        time_duration: match update.time_duration {
            Some(n) => Some(n),
            None => task.time_duration,
        },
        tags: match update.tags {
            Some(s) => s,
            None => task.tags,
        },
    }
}

/// A task after the repair pass: a corrupted status has become the
/// default one, and nothing else has changed.
pub open spec fn repaired(task: TaskView) -> TaskView {
    if corrupted_status(task.status) {
        TaskView { status: DEFAULT_STATUS@, ..task }
    } else {
        task
    }
}

/// Whether `a` comes before `b`, or is equal to it, in the order in which
/// the engine sorts text: character by character, a proper prefix first.
pub open spec fn text_le(a: Seq<char>, b: Seq<char>) -> bool
    decreases a.len(),
{
    if a.len() == 0 {
        true
    } else if b.len() == 0 {
        false
    } else if a[0] != b[0] {
        (a[0] as u32) < (b[0] as u32)
    } else {
        text_le(a.drop_first(), b.drop_first())
    }
}

impl Tables {
    /// The ids of each table rise strictly in the order of insertion, are
    /// positive, and lie below the id that the next insertion will get; the
    /// settings table has at most one row.
    pub open spec fn wf(self) -> bool {
        &&& forall|i: int, j: int|
            0 <= i < j < self.tasks.len() ==> self.tasks[i].id < self.tasks[j].id
        &&& forall|i: int|
            0 <= i < self.tasks.len() ==> 0 < (#[trigger] self.tasks[i]).id < self.next_task_id
        &&& forall|i: int, j: int|
            0 <= i < j < self.presets.len() ==> self.presets[i].id < self.presets[j].id
        &&& forall|i: int|
            0 <= i < self.presets.len() ==> 0 < (#[trigger] self.presets[i]).id
                < self.next_preset_id
        &&& 0 < self.next_task_id
        &&& 0 < self.next_preset_id
        &&& self.settings.len() <= 1
    }

    /// Every task has a status of the enumeration.
    pub open spec fn statuses_valid(self) -> bool {
        forall|i: int| 0 <= i < self.tasks.len() ==> valid_status((#[trigger] self.tasks[i]).status)
    }

    /// Whether some task has the id `id`.
    pub open spec fn has_task(self, id: int) -> bool {
        exists|i: int| 0 <= i < self.tasks.len() && (#[trigger] self.tasks[i]).id == id
    }

    /// A file that holds no table yet.
    pub open spec fn empty() -> Tables {
        Tables {
            tasks: Seq::empty(),
            settings: Seq::empty(),
            presets: Seq::empty(),
            next_task_id: 1,
            next_preset_id: 1,
        }
    }

    /// The tables after the statements of the schema: the settings record
    /// is there, with the default values if it had to be inserted.
    pub open spec fn set_up(self) -> Tables {
        if self.settings.len() == 0 {
            Tables { settings: seq![spec_default_settings()], ..self }
        } else {
            self
        }
    }

    /// The row that inserting `task` at the time `now` adds.
    pub open spec fn new_row(self, task: NewTaskView, now: Seq<char>) -> TaskView {
        TaskView {
            id: self.next_task_id,
            content: task.content,
            status: task.status,
            priority: task.priority,
            created_at: now,
            completed_at: None,
            due_date: task.due_date,
            time_duration: task.time_duration,
            tags: task.tags,
        }
    }

    /// The tables after inserting `task` at the time `now`. A failed write
    /// leaves the tables as they were.
    pub open spec fn add_task(self, task: NewTaskView, now: Seq<char>) -> Result<
        Tables,
        StoreError,
    > {
        if valid_status(task.status) {
            Ok(
                Tables {
                    tasks: self.tasks.push(self.new_row(task, now)),
                    next_task_id: self.next_task_id + 1,
                    ..self
                },
            )
        } else {
            Err(StoreError::ConstraintViolation)
        }
    }

    /// The tables after a partial update of the task `id`.
    pub open spec fn update_task(self, id: int, update: TaskUpdateView) -> Result<
        Tables,
        StoreError,
    > {
        if update.status is Some && !valid_status(update.status->0) {
            Err(StoreError::ConstraintViolation)
        } else {
            Ok(
                Tables {
                    tasks: self.tasks.map_values(
                        |task: TaskView|
                            if task.id == id {
                                assign_all(task, spec_plan(update))
                            } else {
                                task
                            },
                    ),
                    ..self
                },
            )
        }
    }

    /// The tables after deleting the task `id`.
    pub open spec fn delete_task(self, id: int) -> Tables {
        Tables { tasks: self.tasks.filter(|task: TaskView| task.id != id), ..self }
    }

    /// The tables after deleting every task whose status is `status`.
    pub open spec fn clear_column(self, status: Seq<char>) -> Tables {
        Tables { tasks: self.tasks.filter(|task: TaskView| task.status != status), ..self }
    }

    /// What reading the settings gives.
    pub open spec fn get_settings(self) -> Result<SettingsView, StoreError> {
        if self.settings.len() > 0 {
            Ok(self.settings[0])
        } else {
            Err(StoreError::StoreCorrupted)
        }
    }

    /// The tables after overwriting the settings: every row of the
    /// settings table, which is the one row if there is any, gets the new
    /// values.
    pub open spec fn update_settings(self, settings: SettingsView) -> Tables {
        Tables {
            settings: self.settings.map_values(|old_row: SettingsView| settings),
            ..self
        }
    }

    /// The tables after inserting `preset`.
    pub open spec fn add_preset(self, preset: NewCalendarPresetView) -> Tables {
        Tables {
            presets: self.presets.push(
                CalendarPresetView {
                    id: self.next_preset_id,
                    name: preset.name,
                    default_tags: preset.default_tags,
                    default_priority: preset.default_priority,
                },
            ),
            next_preset_id: self.next_preset_id + 1,
            ..self
        }
    }

    /// The tables after deleting the calendar preset `id`.
    pub open spec fn delete_preset(self, id: int) -> Tables {
        Tables {
            presets: self.presets.filter(|preset: CalendarPresetView| preset.id != id),
            ..self
        }
    }

    /// The tables after the repair pass has repaired every task that
    /// needed it.
    pub open spec fn repair(self) -> Tables {
        Tables { tasks: self.tasks.map_values(|task: TaskView| repaired(task)), ..self }
    }

    /// Whether `listing` is a listing of the tasks: every task once, the
    /// most recently created first.
    pub open spec fn is_task_listing(self, listing: Seq<TaskView>) -> bool {
        &&& listing.to_multiset() == self.tasks.to_multiset()
        &&& forall|i: int, j: int|
            0 <= i < j < listing.len() ==> text_le(listing[j].created_at, listing[i].created_at)
    }

    /// Whether `listing` is a listing of the calendar presets: every
    /// preset once, by name.
    pub open spec fn is_preset_listing(self, listing: Seq<CalendarPresetView>) -> bool {
        &&& listing.to_multiset() == self.presets.to_multiset()
        &&& forall|i: int, j: int|
            0 <= i < j < listing.len() ==> text_le(listing[i].name, listing[j].name)
    }
}

} // verus!
