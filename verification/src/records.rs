//! The records the store keeps, and their mathematical views.

use vstd::prelude::*;

verus! {

/// The characters of an optional string.
pub open spec fn opt_text(value: Option<String>) -> Option<Seq<char>> {
    match value {
        Some(s) => Some(s@),
        None => None,
    }
}

/// An optional 32-bit number as an optional integer.
pub open spec fn opt_number(value: Option<i32>) -> Option<int> {
    match value {
        Some(n) => Some(n as int),
        None => None,
    }
}

/// A stored task.
#[derive(Debug, Clone, PartialEq, Eq)]
pub struct Task {
    /// Assigned by the store at insertion; never changes.
    pub id: i64,
    pub content: String,
    /// One of `inbox`, `todo`, `doing`, `done`.
    pub status: String,
    pub priority: i32,
    /// Stamped by the store at insertion; never changes.
    pub created_at: String,
    pub completed_at: Option<String>,
    pub due_date: Option<String>,
    pub time_duration: Option<i32>,
    /// A serialized list of strings, which the store does not look into.
    pub tags: String,
}

/// The mathematical content of a [`Task`].
pub struct TaskView {
    pub id: int,
    pub content: Seq<char>,
    pub status: Seq<char>,
    pub priority: int,
    pub created_at: Seq<char>,
    pub completed_at: Option<Seq<char>>,
    pub due_date: Option<Seq<char>>,
    pub time_duration: Option<int>,
    pub tags: Seq<char>,
}

impl View for Task {
    type V = TaskView;

    open spec fn view(&self) -> TaskView {
        TaskView {
            id: self.id as int,
            content: self.content@,
            status: self.status@,
            priority: self.priority as int,
            created_at: self.created_at@,
            completed_at: opt_text(self.completed_at),
            due_date: opt_text(self.due_date),
            time_duration: opt_number(self.time_duration),
            tags: self.tags@,
        }
    }
}

/// What a caller supplies to create a task.
#[derive(Debug)]
pub struct NewTask {
    pub content: String,
    pub status: String,
    pub priority: i32,
    pub tags: String,
    pub time_duration: Option<i32>,
    pub due_date: Option<String>,
}

/// The mathematical content of a [`NewTask`].
pub struct NewTaskView {
    pub content: Seq<char>,
    pub status: Seq<char>,
    pub priority: int,
    pub tags: Seq<char>,
    pub time_duration: Option<int>,
    pub due_date: Option<Seq<char>>,
}

impl View for NewTask {
    type V = NewTaskView;

    open spec fn view(&self) -> NewTaskView {
        NewTaskView {
            content: self.content@,
            status: self.status@,
            priority: self.priority as int,
            tags: self.tags@,
            time_duration: opt_number(self.time_duration),
            due_date: opt_text(self.due_date),
        }
    }
}

/// The user's settings: one record per store.
#[derive(Debug, Clone, PartialEq, Eq)]
pub struct Settings {
    pub theme: String,
    pub time_mode: String,
    pub available_time: i32,
}

/// The mathematical content of [`Settings`].
pub struct SettingsView {
    pub theme: Seq<char>,
    pub time_mode: Seq<char>,
    pub available_time: int,
}

impl View for Settings {
    type V = SettingsView;

    open spec fn view(&self) -> SettingsView {
        SettingsView {
            theme: self.theme@,
            time_mode: self.time_mode@,
            available_time: self.available_time as int,
        }
    }
}

/// A stored calendar preset.
#[derive(Debug, Clone, PartialEq, Eq)]
pub struct CalendarPreset {
    /// Assigned by the store at insertion; never changes.
    pub id: i64,
    pub name: String,
    /// A serialized list of strings, which the store does not look into.
    pub default_tags: String,
    pub default_priority: i32,
}

/// The mathematical content of a [`CalendarPreset`].
pub struct CalendarPresetView {
    pub id: int,
    pub name: Seq<char>,
    pub default_tags: Seq<char>,
    pub default_priority: int,
}

impl View for CalendarPreset {
    type V = CalendarPresetView;

    open spec fn view(&self) -> CalendarPresetView {
        CalendarPresetView {
            id: self.id as int,
            name: self.name@,
            default_tags: self.default_tags@,
            default_priority: self.default_priority as int,
        }
    }
}

/// What a caller supplies to create a calendar preset.
#[derive(Debug)]
pub struct NewCalendarPreset {
    pub name: String,
    pub default_tags: String,
    pub default_priority: i32,
}

/// The mathematical content of a [`NewCalendarPreset`].
pub struct NewCalendarPresetView {
    pub name: Seq<char>,
    pub default_tags: Seq<char>,
    pub default_priority: int,
}

impl View for NewCalendarPreset {
    type V = NewCalendarPresetView;

    open spec fn view(&self) -> NewCalendarPresetView {
        NewCalendarPresetView {
            name: self.name@,
            default_tags: self.default_tags@,
            default_priority: self.default_priority as int,
        }
    }
}

} // verus!
