//! Reading result rows: from the cells that the engine hands back to the
//! records of the store. A row that does not have the declared shape is
//! reported as corruption of the store, never passed on.

use vstd::prelude::*;
use vstd::string::*;
use vstd::utf8::*;
use crate::error::StoreError;
use crate::records::{CalendarPreset, CalendarPresetView, Settings, SettingsView, Task, TaskView};
use crate::value::{Cell, CellView};

verus! {

/// The mathematical content of a row of cells.
pub open spec fn cells_view(row: Seq<Cell>) -> Seq<CellView> {
    Seq::new(row.len(), |i: int| row[i]@)
}

/// The mathematical content of a list of rows.
pub open spec fn rows_view(rows: Seq<Vec<Cell>>) -> Seq<Seq<CellView>> {
    Seq::new(rows.len(), |i: int| cells_view(rows[i]@))
}

/// The text in a cell that must hold text: the cell's bytes have to be
/// valid UTF-8.
pub open spec fn text_of(cell: CellView) -> Option<Seq<char>> {
    match cell {
        CellView::Text(bytes) => if valid_utf8(bytes) {
            Some(decode_utf8(bytes))
        } else {
            None
        },
        _ => None,
    }
}

/// The text in a cell that may be null.
pub open spec fn optional_text_of(cell: CellView) -> Option<Option<Seq<char>>> {
    match cell {
        CellView::Null => Some(None),
        _ => match text_of(cell) {
            Some(s) => Some(Some(s)),
            None => None,
        },
    }
}

/// The integer in a cell that must hold a 64-bit integer.
pub open spec fn integer_of(cell: CellView) -> Option<int> {
    match cell {
        CellView::Integer(i) => Some(i),
        _ => None,
    }
}

/// The integer in a cell that must hold an integer of 32 bits.
pub open spec fn number_of(cell: CellView) -> Option<int> {
    match cell {
        CellView::Integer(i) => if i32::MIN <= i <= i32::MAX {
            Some(i)
        } else {
            None
        },
        _ => None,
    }
}

/// The integer of 32 bits in a cell that may be null.
pub open spec fn optional_number_of(cell: CellView) -> Option<Option<int>> {
    match cell {
        CellView::Null => Some(None),
        _ => match number_of(cell) {
            Some(n) => Some(Some(n)),
            None => None,
        },
    }
}

fn read_text(cell: &Cell) -> (text: Option<String>)
    ensures
        crate::records::opt_text(text) == text_of(cell@),
{
    match cell {
        Cell::Text(bytes) => {
            match core::str::from_utf8(bytes.as_slice()) {
                Ok(s) => {
                    proof {
                        encode_utf8_decode_utf8(s@);
                    }
                    Some(String::from_str(s))
                },
                Err(_) => None,
            }
        },
        _ => None,
    }
}

fn read_optional_text(cell: &Cell) -> (text: Option<Option<String>>)
    ensures
        text is Some <==> optional_text_of(cell@) is Some,
        text is Some ==> optional_text_of(cell@)->0 == crate::records::opt_text(text->0),
{
    match cell {
        Cell::Null => Some(None),
        _ => match read_text(cell) {
            Some(s) => Some(Some(s)),
            None => None,
        },
    }
}

fn read_integer(cell: &Cell) -> (value: Option<i64>)
    ensures
        value is Some <==> integer_of(cell@) is Some,
        value is Some ==> integer_of(cell@)->0 == value->0,
{
    match cell {
        Cell::Integer(i) => Some(*i),
        _ => None,
    }
}

fn read_number(cell: &Cell) -> (value: Option<i32>)
    ensures
        crate::records::opt_number(value) == number_of(cell@),
{
    match cell {
        Cell::Integer(i) => if -2147483648 <= *i && *i <= 2147483647 {
            Some(*i as i32)
        } else {
            None
        },
        _ => None,
    }
}

fn read_optional_number(cell: &Cell) -> (value: Option<Option<i32>>)
    ensures
        value is Some <==> optional_number_of(cell@) is Some,
        value is Some ==> optional_number_of(cell@)->0 == crate::records::opt_number(value->0),
{
    match cell {
        Cell::Null => Some(None),
        _ => match read_number(cell) {
            Some(n) => Some(Some(n)),
            None => None,
        },
    }
}

/// Number of columns in a row of the task listing.
pub const TASK_WIDTH: usize = 9;

/// The task that a row of the task listing holds, if the row has the shape
/// the schema declares: nine cells, namely id, content, status, priority,
/// created_at, completed_at, due_date, time_duration and tags; the second
/// to fourth of them and the last never null, priority and time_duration
/// within 32 bits.
pub open spec fn spec_decode_task(row: Seq<CellView>) -> Option<TaskView> {
    if row.len() == TASK_WIDTH && integer_of(row[0]) is Some && text_of(row[1]) is Some && text_of(
        row[2],
    ) is Some && number_of(row[3]) is Some && text_of(row[4]) is Some && optional_text_of(
        row[5],
    ) is Some && optional_text_of(row[6]) is Some && optional_number_of(row[7]) is Some
        && text_of(row[8]) is Some {
        Some(
            TaskView {
                id: integer_of(row[0])->0,
                content: text_of(row[1])->0,
                status: text_of(row[2])->0,
                priority: number_of(row[3])->0,
                created_at: text_of(row[4])->0,
                completed_at: optional_text_of(row[5])->0,
                due_date: optional_text_of(row[6])->0,
                time_duration: optional_number_of(row[7])->0,
                tags: text_of(row[8])->0,
            },
        )
    } else {
        None
    }
}

/// What reading a row gives: the record it holds, or the report that the
/// store is corrupted.
pub open spec fn decoded<V>(record: Option<V>) -> Result<V, StoreError> {
    match record {
        Some(view) => Ok(view),
        None => Err(StoreError::StoreCorrupted),
    }
}

/// The mathematical content of the outcome of reading a task.
pub open spec fn task_outcome(outcome: Result<Task, StoreError>) -> Result<TaskView, StoreError> {
    match outcome {
        Ok(task) => Ok(task@),
        Err(e) => Err(e),
    }
}

/// Reads one row of the task listing. A row of another shape is reported
/// as corruption.
pub fn decode_task(row: &Vec<Cell>) -> (task: Result<Task, StoreError>)
    ensures
        task_outcome(task) == decoded(spec_decode_task(cells_view(row@))),
{
    if row.len() != TASK_WIDTH {
        return Err(StoreError::StoreCorrupted);
    }
    let id = read_integer(&row[0]);
    let content = read_text(&row[1]);
    let status = read_text(&row[2]);
    let priority = read_number(&row[3]);
    let created_at = read_text(&row[4]);
    let completed_at = read_optional_text(&row[5]);
    let due_date = read_optional_text(&row[6]);
    let time_duration = read_optional_number(&row[7]);
    let tags = read_text(&row[8]);
    match (id, content, status, priority, created_at, completed_at, due_date, time_duration, tags) {
        (
            Some(id),
            Some(content),
            Some(status),
            Some(priority),
            Some(created_at),
            Some(completed_at),
            Some(due_date),
            Some(time_duration),
            Some(tags),
        ) => Ok(
            Task {
                id,
                content,
                status,
                priority,
                created_at,
                completed_at,
                due_date,
                time_duration,
                tags,
            },
        ),
        _ => Err(StoreError::StoreCorrupted),
    }
}

/// The mathematical content of a list of tasks.
pub open spec fn tasks_view(tasks: Seq<Task>) -> Seq<TaskView> {
    Seq::new(tasks.len(), |i: int| tasks[i]@)
}

/// The tasks that the rows of a task listing hold, in the order of the
/// rows, if every row has the declared shape.
pub open spec fn spec_decode_tasks(rows: Seq<Seq<CellView>>) -> Option<Seq<TaskView>> {
    if forall|i: int| 0 <= i < rows.len() ==> (#[trigger] spec_decode_task(rows[i])) is Some {
        Some(Seq::new(rows.len(), |i: int| spec_decode_task(rows[i])->0))
    } else {
        None
    }
}

/// The mathematical content of the outcome of reading a task listing.
pub open spec fn tasks_outcome(outcome: Result<Vec<Task>, StoreError>) -> Result<
    Seq<TaskView>,
    StoreError,
> {
    match outcome {
        Ok(tasks) => Ok(tasks_view(tasks@)),
        Err(e) => Err(e),
    }
}

/// Reads a task listing: one task for each row, in the order of the rows.
/// One row of another shape makes the whole listing a report of
/// corruption.
pub fn decode_tasks(rows: &Vec<Vec<Cell>>) -> (tasks: Result<Vec<Task>, StoreError>)
    ensures
        tasks_outcome(tasks) == decoded(spec_decode_tasks(rows_view(rows@))),
{
    let ghost views = rows_view(rows@);
    let mut tasks: Vec<Task> = Vec::new();
    let mut i: usize = 0;
    while i < rows.len()
        invariant
            i <= rows@.len(),
            views == rows_view(rows@),
            tasks@.len() == i,
            forall|j: int| 0 <= j < i ==> (#[trigger] spec_decode_task(views[j])) == Some(tasks@[j]@),
        decreases rows@.len() - i,
    {
        assert(views[i as int] == cells_view(rows@[i as int]@));
        match decode_task(&rows[i]) {
            Ok(task) => {
                tasks.push(task);
            },
            Err(_) => {
                assert(spec_decode_task(views[i as int]) is None);
                return Err(StoreError::StoreCorrupted);
            },
        }
        i += 1;
    }
    proof {
        assert(tasks_view(tasks@) =~= spec_decode_tasks(views)->0);
    }
    Ok(tasks)
}

/// Number of columns in a row of the preset listing.
pub const PRESET_WIDTH: usize = 4;

/// The calendar preset that a row of the preset listing holds, if the row
/// has the shape the schema declares: four cells, namely id, name,
/// default_tags and default_priority, none of them null, the priority
/// within 32 bits.
pub open spec fn spec_decode_preset(row: Seq<CellView>) -> Option<CalendarPresetView> {
    if row.len() == PRESET_WIDTH && integer_of(row[0]) is Some && text_of(row[1]) is Some && text_of(
        row[2],
    ) is Some && number_of(row[3]) is Some {
        Some(
            CalendarPresetView {
                id: integer_of(row[0])->0,
                name: text_of(row[1])->0,
                default_tags: text_of(row[2])->0,
                default_priority: number_of(row[3])->0,
            },
        )
    } else {
        None
    }
}

/// The mathematical content of the outcome of reading a calendar preset.
pub open spec fn preset_outcome(outcome: Result<CalendarPreset, StoreError>) -> Result<
    CalendarPresetView,
    StoreError,
> {
    match outcome {
        Ok(preset) => Ok(preset@),
        Err(e) => Err(e),
    }
}

/// Reads one row of the preset listing. A row of another shape is reported
/// as corruption.
pub fn decode_preset(row: &Vec<Cell>) -> (preset: Result<CalendarPreset, StoreError>)
    ensures
        preset_outcome(preset) == decoded(spec_decode_preset(cells_view(row@))),
{
    if row.len() != PRESET_WIDTH {
        return Err(StoreError::StoreCorrupted);
    }
    let id = read_integer(&row[0]);
    let name = read_text(&row[1]);
    let default_tags = read_text(&row[2]);
    let default_priority = read_number(&row[3]);
    match (id, name, default_tags, default_priority) {
        (Some(id), Some(name), Some(default_tags), Some(default_priority)) => Ok(
            CalendarPreset { id, name, default_tags, default_priority },
        ),
        _ => Err(StoreError::StoreCorrupted),
    }
}

/// The mathematical content of a list of calendar presets.
pub open spec fn presets_view(presets: Seq<CalendarPreset>) -> Seq<CalendarPresetView> {
    Seq::new(presets.len(), |i: int| presets[i]@)
}

/// The calendar presets that the rows of a preset listing hold, in the
/// order of the rows, if every row has the declared shape.
pub open spec fn spec_decode_presets(rows: Seq<Seq<CellView>>) -> Option<Seq<CalendarPresetView>> {
    if forall|i: int| 0 <= i < rows.len() ==> (#[trigger] spec_decode_preset(rows[i])) is Some {
        Some(Seq::new(rows.len(), |i: int| spec_decode_preset(rows[i])->0))
    } else {
        None
    }
}

/// The mathematical content of the outcome of reading a preset listing.
pub open spec fn presets_outcome(outcome: Result<Vec<CalendarPreset>, StoreError>) -> Result<
    Seq<CalendarPresetView>,
    StoreError,
> {
    match outcome {
        Ok(presets) => Ok(presets_view(presets@)),
        Err(e) => Err(e),
    }
}

/// Reads a preset listing: one preset for each row, in the order of the
/// rows. One row of another shape makes the whole listing a report of
/// corruption.
pub fn decode_presets(rows: &Vec<Vec<Cell>>) -> (presets: Result<Vec<CalendarPreset>, StoreError>)
    ensures
        presets_outcome(presets) == decoded(spec_decode_presets(rows_view(rows@))),
{
    let ghost views = rows_view(rows@);
    let mut presets: Vec<CalendarPreset> = Vec::new();
    let mut i: usize = 0;
    while i < rows.len()
        invariant
            i <= rows@.len(),
            views == rows_view(rows@),
            presets@.len() == i,
            forall|j: int|
                0 <= j < i ==> (#[trigger] spec_decode_preset(views[j])) == Some(presets@[j]@),
        decreases rows@.len() - i,
    {
        assert(views[i as int] == cells_view(rows@[i as int]@));
        match decode_preset(&rows[i]) {
            Ok(preset) => {
                presets.push(preset);
            },
            Err(_) => {
                assert(spec_decode_preset(views[i as int]) is None);
                return Err(StoreError::StoreCorrupted);
            },
        }
        i += 1;
    }
    proof {
        assert(presets_view(presets@) =~= spec_decode_presets(views)->0);
    }
    Ok(presets)
}

/// Number of columns in the row of the settings record.
pub const SETTINGS_WIDTH: usize = 3;

/// The settings that the result of the settings query holds: those of its
/// first row, if there is one and it has the shape the schema declares,
/// namely theme, time_mode and available_time, none of them null, the
/// last within 32 bits.
pub open spec fn spec_decode_settings(rows: Seq<Seq<CellView>>) -> Option<SettingsView> {
    if rows.len() > 0 && rows[0].len() == SETTINGS_WIDTH && text_of(rows[0][0]) is Some && text_of(
        rows[0][1],
    ) is Some && number_of(rows[0][2]) is Some {
        Some(
            SettingsView {
                theme: text_of(rows[0][0])->0,
                time_mode: text_of(rows[0][1])->0,
                available_time: number_of(rows[0][2])->0,
            },
        )
    } else {
        None
    }
}

/// The mathematical content of the outcome of reading the settings.
pub open spec fn settings_outcome(outcome: Result<Settings, StoreError>) -> Result<
    SettingsView,
    StoreError,
> {
    match outcome {
        Ok(settings) => Ok(settings@),
        Err(e) => Err(e),
    }
}

/// Reads the settings record from the result of the settings query. A
/// result without a row means that the record is missing: the store is
/// corrupted. So is one whose first row has another shape.
pub fn decode_settings(rows: &Vec<Vec<Cell>>) -> (settings: Result<Settings, StoreError>)
    ensures
        settings_outcome(settings) == decoded(spec_decode_settings(rows_view(rows@))),
{
    if rows.len() == 0 {
        return Err(StoreError::StoreCorrupted);
    }
    let row = &rows[0];
    assert(rows_view(rows@)[0] == cells_view(row@));
    if row.len() != SETTINGS_WIDTH {
        return Err(StoreError::StoreCorrupted);
    }
    let theme = read_text(&row[0]);
    let time_mode = read_text(&row[1]);
    let available_time = read_number(&row[2]);
    match (theme, time_mode, available_time) {
        (Some(theme), Some(time_mode), Some(available_time)) => Ok(
            Settings { theme, time_mode, available_time },
        ),
        _ => Err(StoreError::StoreCorrupted),
    }
}

/// The cell in which the engine keeps a text.
pub open spec fn text_cell(text: Seq<char>) -> CellView {
    CellView::Text(encode_utf8(text))
}

/// The cell in which the engine keeps a text that may be absent.
pub open spec fn optional_text_cell(text: Option<Seq<char>>) -> CellView {
    match text {
        Some(s) => text_cell(s),
        None => CellView::Null,
    }
}

/// The cell in which the engine keeps a number that may be absent.
pub open spec fn optional_number_cell(number: Option<int>) -> CellView {
    match number {
        Some(n) => CellView::Integer(n),
        None => CellView::Null,
    }
}

/// Whether a number fits in 32 bits.
pub open spec fn fits_i32(n: int) -> bool {
    i32::MIN <= n <= i32::MAX
}

/// The row of the task listing that stands for a task.
pub open spec fn task_row(task: TaskView) -> Seq<CellView> {
    seq![
        CellView::Integer(task.id),
        text_cell(task.content),
        text_cell(task.status),
        CellView::Integer(task.priority),
        text_cell(task.created_at),
        optional_text_cell(task.completed_at),
        optional_text_cell(task.due_date),
        optional_number_cell(task.time_duration),
        text_cell(task.tags),
    ]
}

/// The row of the preset listing that stands for a calendar preset.
pub open spec fn preset_row(preset: CalendarPresetView) -> Seq<CellView> {
    seq![
        CellView::Integer(preset.id),
        text_cell(preset.name),
        text_cell(preset.default_tags),
        CellView::Integer(preset.default_priority),
    ]
}

/// The row of the settings query that stands for the settings.
pub open spec fn settings_row(settings: SettingsView) -> Seq<CellView> {
    seq![
        text_cell(settings.theme),
        text_cell(settings.time_mode),
        CellView::Integer(settings.available_time),
    ]
}

/// The row of the status query that stands for a task.
pub open spec fn status_row(task: TaskView) -> Seq<CellView> {
    seq![CellView::Integer(task.id), text_cell(task.status)]
}

/// A text is read back from its cell as it was.
pub proof fn lemma_text_cell_reads_back(text: Seq<char>)
    ensures
        text_of(text_cell(text)) == Some(text),
        optional_text_of(text_cell(text)) == Some(Some(text)),
{
    encode_utf8_valid_utf8(text);
    encode_utf8_decode_utf8(text);
}

} // verus!
