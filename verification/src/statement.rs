//! The statements handed to the engine: their text and the values bound to
//! their placeholders, in the order of the placeholders.

use vstd::prelude::*;
use vstd::string::*;
use crate::records::{NewCalendarPreset, NewCalendarPresetView, NewTask, NewTaskView, Settings, SettingsView};
use crate::status::DEFAULT_STATUS;
use crate::update::{plan_view, Assignment, AssignmentView};
use crate::value::{SqlValue, SqlValueView};

verus! {

/// A statement together with the values for its placeholders.
#[derive(Debug, PartialEq, Eq)]
pub struct Statement {
    pub text: String,
    pub params: Vec<SqlValue>,
}

/// The mathematical content of a [`Statement`].
pub struct StatementView {
    pub text: Seq<char>,
    pub params: Seq<SqlValueView>,
}

/// The mathematical content of a list of bound values.
pub open spec fn params_view(params: Seq<SqlValue>) -> Seq<SqlValueView> {
    Seq::new(params.len(), |i: int| params[i]@)
}

/// Number of placeholders in the text of a statement, counted as its
/// question marks. In the statements of this crate every question mark is
/// one placeholder: none stands inside a quoted string, and no numbered
/// placeholder is written twice.
pub open spec fn placeholders(text: Seq<char>) -> nat
    decreases text.len(),
{
    if text.len() == 0 {
        0
    } else {
        placeholders(text.drop_last()) + if text.last() == '?' {
            1nat
        } else {
            0nat
        }
    }
}

impl StatementView {
    /// The text has exactly one placeholder for each value that the
    /// statement binds.
    pub open spec fn balanced(self) -> bool {
        placeholders(self.text) == self.params.len()
    }
}

impl View for Statement {
    type V = StatementView;

    open spec fn view(&self) -> StatementView {
        StatementView { text: self.text@, params: params_view(self.params@) }
    }
}

/// The bound value of an optional string: the text, or null.
pub open spec fn text_or_null(value: Option<Seq<char>>) -> SqlValueView {
    match value {
        Some(s) => SqlValueView::Text(s),
        None => SqlValueView::Null,
    }
}

/// The bound value of an optional number: the integer, or null.
pub open spec fn integer_or_null(value: Option<int>) -> SqlValueView {
    match value {
        Some(n) => SqlValueView::Integer(n),
        None => SqlValueView::Null,
    }
}

fn bind_text(value: &String) -> (bound: SqlValue)
    ensures
        bound@ == SqlValueView::Text(value@),
{
    SqlValue::Text(value.clone())
}

fn bind_optional_text(value: &Option<String>) -> (bound: SqlValue)
    ensures
        bound@ == text_or_null(crate::records::opt_text(*value)),
{
    match value {
        Some(s) => SqlValue::Text(s.clone()),
        None => SqlValue::Null,
    }
}

fn bind_optional_number(value: Option<i32>) -> (bound: SqlValue)
    ensures
        bound@ == integer_or_null(crate::records::opt_number(value)),
{
    match value {
        Some(n) => SqlValue::Integer(n as i64),
        None => SqlValue::Null,
    }
}

/// Text of the statement that inserts a task. The store fills in the id,
/// the creation time and an absent completion time.
pub const INSERT_TASK: &'static str =
    "INSERT INTO tasks (content, status, priority, tags, time_duration, due_date) VALUES (?1, ?2, ?3, ?4, ?5, ?6)";

/// Text of the statement that deletes the task with a given id.
pub const DELETE_TASK: &'static str = "DELETE FROM tasks WHERE id = ?";

/// Text of the statement that deletes every task with a given status.
pub const CLEAR_COLUMN: &'static str = "DELETE FROM tasks WHERE status = ?";

/// Text of the statement that overwrites the settings record.
pub const UPDATE_SETTINGS: &'static str =
    "UPDATE settings SET theme = ?1, time_mode = ?2, available_time = ?3 WHERE id = 1";

/// Text of the statement that inserts a calendar preset.
pub const INSERT_PRESET: &'static str =
    "INSERT INTO calendar_presets (name, default_tags, default_priority) VALUES (?1, ?2, ?3)";

/// Text of the statement that deletes the calendar preset with a given id.
pub const DELETE_PRESET: &'static str = "DELETE FROM calendar_presets WHERE id = ?";

/// Text of the statement that sets the status of the task with a given id.
pub const SET_STATUS: &'static str = "UPDATE tasks SET status = ? WHERE id = ?";

/// Text of the query that lists the tasks, the most recently created first.
pub const SELECT_TASKS: &'static str =
    "SELECT id, content, status, priority, created_at, completed_at, due_date, time_duration, tags FROM tasks ORDER BY created_at DESC";

/// Text of the query that reads the settings record.
pub const SELECT_SETTINGS: &'static str =
    "SELECT theme, time_mode, available_time FROM settings WHERE id = 1";

/// Text of the query that lists the calendar presets by name.
pub const SELECT_PRESETS: &'static str =
    "SELECT id, name, default_tags, default_priority FROM calendar_presets ORDER BY name";

/// Text of the query that reads the id and the status of every task.
pub const SELECT_STATUSES: &'static str = "SELECT id, status FROM tasks";

/// What [`insert_task`] builds.
pub open spec fn spec_insert_task(task: NewTaskView) -> StatementView {
    StatementView {
        text: INSERT_TASK@,
        params: seq![
            SqlValueView::Text(task.content),
            SqlValueView::Text(task.status),
            SqlValueView::Integer(task.priority),
            SqlValueView::Text(task.tags),
            integer_or_null(task.time_duration),
            text_or_null(task.due_date),
        ],
    }
}

/// The statement that inserts `task`: its six values are bound in the
/// order in which the text names the columns.
pub fn insert_task(task: &NewTask) -> (statement: Statement)
    ensures
        statement@ == spec_insert_task(task@),
        statement@.balanced(),
{
    proof {
        lemma_insert_task_placeholders();
    }
    let mut params: Vec<SqlValue> = Vec::new();
    params.push(bind_text(&task.content));
    params.push(bind_text(&task.status));
    params.push(SqlValue::Integer(task.priority as i64));
    params.push(bind_text(&task.tags));
    params.push(bind_optional_number(task.time_duration));
    params.push(bind_optional_text(&task.due_date));
    let statement = Statement { text: String::from_str(INSERT_TASK), params };
    assert(statement@.params =~= spec_insert_task(task@).params);
    statement
}

/// What [`delete_task`] builds.
pub open spec fn spec_delete_task(id: i64) -> StatementView {
    StatementView { text: DELETE_TASK@, params: seq![SqlValueView::Integer(id as int)] }
}

/// The statement that deletes the task `id`.
pub fn delete_task(id: i64) -> (statement: Statement)
    ensures
        statement@ == spec_delete_task(id),
        statement@.balanced(),
{
    proof {
        lemma_delete_task_placeholders();
    }
    let mut params: Vec<SqlValue> = Vec::new();
    params.push(SqlValue::Integer(id));
    let statement = Statement { text: String::from_str(DELETE_TASK), params };
    assert(statement@.params =~= spec_delete_task(id).params);
    statement
}

/// What [`clear_column`] builds.
pub open spec fn spec_clear_column(status: Seq<char>) -> StatementView {
    StatementView { text: CLEAR_COLUMN@, params: seq![SqlValueView::Text(status)] }
}

/// The statement that deletes every task whose status is `status`.
pub fn clear_column(status: String) -> (statement: Statement)
    ensures
        statement@ == spec_clear_column(status@),
        statement@.balanced(),
{
    proof {
        lemma_clear_column_placeholders();
    }
    let mut params: Vec<SqlValue> = Vec::new();
    params.push(SqlValue::Text(status));
    let statement = Statement { text: String::from_str(CLEAR_COLUMN), params };
    assert(statement@.params =~= spec_clear_column(status@).params);
    statement
}

/// What [`update_settings`] builds.
pub open spec fn spec_update_settings(settings: SettingsView) -> StatementView {
    StatementView {
        text: UPDATE_SETTINGS@,
        params: seq![
            SqlValueView::Text(settings.theme),
            SqlValueView::Text(settings.time_mode),
            SqlValueView::Integer(settings.available_time),
        ],
    }
}

/// The statement that overwrites all three fields of the settings record.
pub fn update_settings(settings: &Settings) -> (statement: Statement)
    ensures
        statement@ == spec_update_settings(settings@),
        statement@.balanced(),
{
    proof {
        lemma_update_settings_placeholders();
    }
    let mut params: Vec<SqlValue> = Vec::new();
    params.push(bind_text(&settings.theme));
    params.push(bind_text(&settings.time_mode));
    params.push(SqlValue::Integer(settings.available_time as i64));
    let statement = Statement { text: String::from_str(UPDATE_SETTINGS), params };
    assert(statement@.params =~= spec_update_settings(settings@).params);
    statement
}

/// What [`insert_preset`] builds.
pub open spec fn spec_insert_preset(preset: NewCalendarPresetView) -> StatementView {
    StatementView {
        text: INSERT_PRESET@,
        params: seq![
            SqlValueView::Text(preset.name),
            SqlValueView::Text(preset.default_tags),
            SqlValueView::Integer(preset.default_priority),
        ],
    }
}

/// The statement that inserts `preset`.
pub fn insert_preset(preset: &NewCalendarPreset) -> (statement: Statement)
    ensures
        statement@ == spec_insert_preset(preset@),
        statement@.balanced(),
{
    proof {
        lemma_insert_preset_placeholders();
    }
    let mut params: Vec<SqlValue> = Vec::new();
    params.push(bind_text(&preset.name));
    params.push(bind_text(&preset.default_tags));
    params.push(SqlValue::Integer(preset.default_priority as i64));
    let statement = Statement { text: String::from_str(INSERT_PRESET), params };
    assert(statement@.params =~= spec_insert_preset(preset@).params);
    statement
}

/// What [`delete_preset`] builds.
pub open spec fn spec_delete_preset(id: i64) -> StatementView {
    StatementView { text: DELETE_PRESET@, params: seq![SqlValueView::Integer(id as int)] }
}

/// The statement that deletes the calendar preset `id`.
pub fn delete_preset(id: i64) -> (statement: Statement)
    ensures
        statement@ == spec_delete_preset(id),
        statement@.balanced(),
{
    proof {
        lemma_delete_preset_placeholders();
    }
    let mut params: Vec<SqlValue> = Vec::new();
    params.push(SqlValue::Integer(id));
    let statement = Statement { text: String::from_str(DELETE_PRESET), params };
    assert(statement@.params =~= spec_delete_preset(id).params);
    statement
}

/// What [`reset_status`] builds.
pub open spec fn spec_reset_status(id: i64) -> StatementView {
    StatementView {
        text: SET_STATUS@,
        params: seq![SqlValueView::Text(DEFAULT_STATUS@), SqlValueView::Integer(id as int)],
    }
}

/// The statement that sets the status of the task `id` to the default
/// status.
pub fn reset_status(id: i64) -> (statement: Statement)
    ensures
        statement@ == spec_reset_status(id),
        statement@.balanced(),
{
    proof {
        lemma_set_status_placeholders();
    }
    let mut params: Vec<SqlValue> = Vec::new();
    params.push(SqlValue::Text(String::from_str(DEFAULT_STATUS)));
    params.push(SqlValue::Integer(id));
    let statement = Statement { text: String::from_str(SET_STATUS), params };
    assert(statement@.params =~= spec_reset_status(id).params);
    statement
}

/// One assignment as it stands in the text of an update: the column, then
/// a placeholder for its value.
pub open spec fn set_clause(assignment: AssignmentView) -> Seq<char> {
    assignment.column() + " = ?"@
}

/// The assignments of an update as they stand in its text: one clause
/// each, in the order of the plan, with `", "` between two of them.
pub open spec fn set_list(plan: Seq<AssignmentView>) -> Seq<char>
    decreases plan.len(),
{
    if plan.len() == 0 {
        Seq::empty()
    } else if plan.len() == 1 {
        set_clause(plan[0])
    } else {
        set_list(plan.drop_last()) + ", "@ + set_clause(plan.last())
    }
}

/// The values that an update binds: the value of each assignment, in the
/// order of the plan, then the id of the row.
pub open spec fn update_params(id: i64, plan: Seq<AssignmentView>) -> Seq<SqlValueView> {
    Seq::new(plan.len(), |i: int| plan[i].value()).push(SqlValueView::Integer(id as int))
}

/// What [`update_task`] builds for a plan that is not empty.
pub open spec fn spec_update_task(id: i64, plan: Seq<AssignmentView>) -> StatementView {
    StatementView {
        text: "UPDATE tasks SET "@ + set_list(plan) + " WHERE id = ?"@,
        params: update_params(id, plan),
    }
}

/// The one statement that carries out a plan on the task `id`, or `None`
/// for an empty plan, which needs no statement. The clause at place `i` of
/// the text names the column of the assignment at place `i` of the plan,
/// and the value bound at place `i` is the value of that same assignment;
/// the id is bound last.
pub fn update_task(id: i64, plan: &Vec<Assignment>) -> (statement: Option<Statement>)
    ensures
        plan@.len() == 0 ==> statement is None,
        plan@.len() > 0 ==> statement is Some && statement->0@ == spec_update_task(
            id,
            plan_view(plan@),
        ),
        statement is Some ==> statement->0@.balanced(),
{
    proof {
        law_update_binds_every_placeholder(id, plan_view(plan@));
    }
    if plan.len() == 0 {
        return None;
    }
    let ghost views = plan_view(plan@);
    let mut text = String::from_str("UPDATE tasks SET ");
    let mut params: Vec<SqlValue> = Vec::new();
    let mut i: usize = 0;
    while i < plan.len()
        invariant
            i <= plan@.len(),
            views == plan_view(plan@),
            text@ == "UPDATE tasks SET "@ + set_list(views.subrange(0, i as int)),
            params@.len() == i,
            params_view(params@) == Seq::new(i as nat, |j: int| views[j].value()),
        decreases plan@.len() - i,
    {
        let ghost done = views.subrange(0, i as int);
        let ghost next = views.subrange(0, i + 1);
        let ghost old_params = params@;
        proof {
            assert(next.drop_last() =~= done);
            assert(next.last() == views[i as int]);
        }
        if i > 0 {
            text.append(", ");
        }
        text.append(plan[i].column());
        text.append(" = ?");
        params.push(plan[i].value());
        proof {
            assert(text@ =~= "UPDATE tasks SET "@ + set_list(next));
            assert forall|j: int| 0 <= j <= i implies #[trigger] params_view(params@)[j]
                == views[j].value() by {
                if j < i {
                    assert(params@[j] == old_params[j]);
                    assert(params_view(old_params)[j] == views[j].value());
                }
            }
            assert(params_view(params@) =~= Seq::new((i + 1) as nat, |j: int| views[j].value()));
        }
        i += 1;
    }
    text.append(" WHERE id = ?");
    params.push(SqlValue::Integer(id));
    let statement = Statement { text, params };
    proof {
        assert(views.subrange(0, plan@.len() as int) =~= views);
        assert(statement@.params =~= update_params(id, views));
    }
    Some(statement)
}

/// The placeholders of two texts put together are those of the one and
/// those of the other.
pub proof fn lemma_placeholders_add(a: Seq<char>, b: Seq<char>)
    ensures
        placeholders(a + b) == placeholders(a) + placeholders(b),
    decreases b.len(),
{
    if b.len() == 0 {
        assert(a + b =~= a);
    } else {
        lemma_placeholders_add(a, b.drop_last());
        assert((a + b).drop_last() =~= a + b.drop_last());
        assert((a + b).last() == b.last());
    }
}

/// A text without a question mark has no placeholder.
pub proof fn lemma_no_placeholders(text: Seq<char>)
    requires
        forall|i: int| 0 <= i < text.len() ==> text[i] != '?',
    ensures
        placeholders(text) == 0,
    decreases text.len(),
{
    if text.len() > 0 {
        lemma_no_placeholders(text.drop_last());
    }
}

/// The name of a column holds no placeholder, and a clause holds one.
pub proof fn lemma_clause_has_one_placeholder(assignment: AssignmentView)
    ensures
        placeholders(assignment.column()) == 0,
        placeholders(set_clause(assignment)) == 1,
{
    reveal_strlit("content");
    reveal_strlit("status");
    reveal_strlit("priority");
    reveal_strlit("tags");
    reveal_strlit("time_duration");
    reveal_strlit("due_date");
    reveal_strlit("completed_at");
    reveal_strlit(" = ?");
    lemma_no_placeholders(assignment.column());
    lemma_placeholders_add(assignment.column(), " = ?"@);
    reveal_with_fuel(placeholders, 5);
}

/// The clauses of a plan hold one placeholder for each assignment.
pub proof fn lemma_set_list_placeholders(plan: Seq<AssignmentView>)
    ensures
        placeholders(set_list(plan)) == plan.len(),
    decreases plan.len(),
{
    if plan.len() == 0 {
    } else if plan.len() == 1 {
        lemma_clause_has_one_placeholder(plan[0]);
    } else {
        reveal_strlit(", ");
        lemma_set_list_placeholders(plan.drop_last());
        lemma_clause_has_one_placeholder(plan.last());
        lemma_no_placeholders(", "@);
        lemma_placeholders_add(set_list(plan.drop_last()), ", "@);
        lemma_placeholders_add(set_list(plan.drop_last()) + ", "@, set_clause(plan.last()));
    }
}

/// Text and values of an update never fall out of step: the text has
/// exactly one placeholder for each value that the statement binds, one
/// per assignment of the plan and one for the id.
pub proof fn law_update_binds_every_placeholder(id: i64, plan: Seq<AssignmentView>)
    ensures
        spec_update_task(id, plan).balanced(),
        spec_update_task(id, plan).params.len() == plan.len() + 1,
        forall|i: int|
            0 <= i < plan.len() ==> spec_update_task(id, plan).params[i] == (#[trigger] plan[i]).value(),
        spec_update_task(id, plan).params[plan.len() as int] == SqlValueView::Integer(id as int),
{
    reveal_strlit("UPDATE tasks SET ");
    reveal_strlit(" WHERE id = ?");
    lemma_no_placeholders("UPDATE tasks SET "@);
    lemma_set_list_placeholders(plan);
    lemma_placeholders_add("UPDATE tasks SET "@, set_list(plan));
    lemma_placeholders_add("UPDATE tasks SET "@ + set_list(plan), " WHERE id = ?"@);
    assert(placeholders(" WHERE id = ?"@) == 1) by {
        let tail = " WHERE id = ?"@;
        let head = tail.drop_last();
        assert(tail.last() == '?');
        lemma_no_placeholders(head);
    }
}

/// Counting on to the next placeholder: where `text` holds no question
/// mark from `from` up to `to`, and one at `to`, the text up to and with
/// `to` has one placeholder more than the text up to `from`.
pub proof fn lemma_next_placeholder(text: Seq<char>, from: int, to: int)
    requires
        0 <= from <= to < text.len(),
        forall|i: int| from <= i < to ==> text[i] != '?',
        text[to] == '?',
    ensures
        placeholders(text.subrange(0, to + 1)) == placeholders(text.subrange(0, from)) + 1,
{
    let gap = text.subrange(from, to);
    lemma_no_placeholders(gap);
    lemma_placeholders_add(text.subrange(0, from), gap);
    assert(text.subrange(0, from) + gap =~= text.subrange(0, to));
    assert(text.subrange(0, to + 1).drop_last() =~= text.subrange(0, to));
}

/// Counting to the end: where `text` holds no question mark from `from`
/// on, it has the placeholders of the text up to `from`.
pub proof fn lemma_last_placeholder(text: Seq<char>, from: int)
    requires
        0 <= from <= text.len(),
        forall|i: int| from <= i < text.len() ==> text[i] != '?',
    ensures
        placeholders(text) == placeholders(text.subrange(0, from)),
{
    let rest = text.subrange(from, text.len() as int);
    lemma_no_placeholders(rest);
    lemma_placeholders_add(text.subrange(0, from), rest);
    assert(text.subrange(0, from) + rest =~= text);
}

/// The statement that inserts a task has six placeholders.
pub proof fn lemma_insert_task_placeholders()
    ensures
        placeholders(INSERT_TASK@) == 6,
{
    reveal_strlit(
        "INSERT INTO tasks (content, status, priority, tags, time_duration, due_date) VALUES (?1, ?2, ?3, ?4, ?5, ?6)",
    );
    let text = INSERT_TASK@;
    assert(text.subrange(0, 0) =~= Seq::<char>::empty());
    lemma_next_placeholder(text, 0, 85);
    lemma_next_placeholder(text, 86, 89);
    lemma_next_placeholder(text, 90, 93);
    lemma_next_placeholder(text, 94, 97);
    lemma_next_placeholder(text, 98, 101);
    lemma_next_placeholder(text, 102, 105);
    lemma_last_placeholder(text, 106);
}

/// The statement that deletes a task has one placeholder.
pub proof fn lemma_delete_task_placeholders()
    ensures
        placeholders(DELETE_TASK@) == 1,
{
    reveal_strlit(
        "DELETE FROM tasks WHERE id = ?",
    );
    let text = DELETE_TASK@;
    assert(text.subrange(0, 0) =~= Seq::<char>::empty());
    lemma_next_placeholder(text, 0, 29);
    lemma_last_placeholder(text, 30);
}

/// The statement that clears a column has one placeholder.
pub proof fn lemma_clear_column_placeholders()
    ensures
        placeholders(CLEAR_COLUMN@) == 1,
{
    reveal_strlit(
        "DELETE FROM tasks WHERE status = ?",
    );
    let text = CLEAR_COLUMN@;
    assert(text.subrange(0, 0) =~= Seq::<char>::empty());
    lemma_next_placeholder(text, 0, 33);
    lemma_last_placeholder(text, 34);
}

/// The statement that overwrites the settings has three placeholders.
pub proof fn lemma_update_settings_placeholders()
    ensures
        placeholders(UPDATE_SETTINGS@) == 3,
{
    reveal_strlit(
        "UPDATE settings SET theme = ?1, time_mode = ?2, available_time = ?3 WHERE id = 1",
    );
    let text = UPDATE_SETTINGS@;
    assert(text.subrange(0, 0) =~= Seq::<char>::empty());
    lemma_next_placeholder(text, 0, 28);
    lemma_next_placeholder(text, 29, 44);
    lemma_next_placeholder(text, 45, 65);
    lemma_last_placeholder(text, 66);
}

/// The statement that inserts a calendar preset has three placeholders.
pub proof fn lemma_insert_preset_placeholders()
    ensures
        placeholders(INSERT_PRESET@) == 3,
{
    reveal_strlit(
        "INSERT INTO calendar_presets (name, default_tags, default_priority) VALUES (?1, ?2, ?3)",
    );
    let text = INSERT_PRESET@;
    assert(text.subrange(0, 0) =~= Seq::<char>::empty());
    lemma_next_placeholder(text, 0, 76);
    lemma_next_placeholder(text, 77, 80);
    lemma_next_placeholder(text, 81, 84);
    lemma_last_placeholder(text, 85);
}

/// The statement that deletes a calendar preset has one placeholder.
pub proof fn lemma_delete_preset_placeholders()
    ensures
        placeholders(DELETE_PRESET@) == 1,
{
    reveal_strlit(
        "DELETE FROM calendar_presets WHERE id = ?",
    );
    let text = DELETE_PRESET@;
    assert(text.subrange(0, 0) =~= Seq::<char>::empty());
    lemma_next_placeholder(text, 0, 40);
    lemma_last_placeholder(text, 41);
}

/// The statement that sets a status has two placeholders.
pub proof fn lemma_set_status_placeholders()
    ensures
        placeholders(SET_STATUS@) == 2,
{
    reveal_strlit(
        "UPDATE tasks SET status = ? WHERE id = ?",
    );
    let text = SET_STATUS@;
    assert(text.subrange(0, 0) =~= Seq::<char>::empty());
    lemma_next_placeholder(text, 0, 26);
    lemma_next_placeholder(text, 27, 39);
    lemma_last_placeholder(text, 40);
}

/// No statement that changes rows falls out of step with its values: the
/// text of each has exactly one placeholder for each value that the
/// statement binds.
pub proof fn law_writes_bind_every_placeholder(
    task: NewTaskView,
    settings: SettingsView,
    preset: NewCalendarPresetView,
    status: Seq<char>,
    id: i64,
    plan: Seq<AssignmentView>,
)
    ensures
        spec_insert_task(task).balanced(),
        spec_update_task(id, plan).balanced(),
        spec_delete_task(id).balanced(),
        spec_clear_column(status).balanced(),
        spec_update_settings(settings).balanced(),
        spec_insert_preset(preset).balanced(),
        spec_delete_preset(id).balanced(),
        spec_reset_status(id).balanced(),
{
    lemma_insert_task_placeholders();
    law_update_binds_every_placeholder(id, plan);
    lemma_delete_task_placeholders();
    lemma_clear_column_placeholders();
    lemma_update_settings_placeholders();
    lemma_insert_preset_placeholders();
    lemma_delete_preset_placeholders();
    lemma_set_status_placeholders();
}

/// The queries bind nothing, and their texts hold no placeholder.
pub proof fn law_queries_have_no_placeholder()
    ensures
        placeholders(SELECT_TASKS@) == 0,
        placeholders(SELECT_SETTINGS@) == 0,
        placeholders(SELECT_PRESETS@) == 0,
        placeholders(SELECT_STATUSES@) == 0,
{
    assert(placeholders(SELECT_TASKS@) == 0) by {
        reveal_strlit(
            "SELECT id, content, status, priority, created_at, completed_at, due_date, time_duration, tags FROM tasks ORDER BY created_at DESC",
        );
        lemma_no_placeholders(SELECT_TASKS@);
    }
    assert(placeholders(SELECT_SETTINGS@) == 0) by {
        reveal_strlit(
            "SELECT theme, time_mode, available_time FROM settings WHERE id = 1",
        );
        lemma_no_placeholders(SELECT_SETTINGS@);
    }
    assert(placeholders(SELECT_PRESETS@) == 0) by {
        reveal_strlit(
            "SELECT id, name, default_tags, default_priority FROM calendar_presets ORDER BY name",
        );
        lemma_no_placeholders(SELECT_PRESETS@);
    }
    assert(placeholders(SELECT_STATUSES@) == 0) by {
        reveal_strlit(
            "SELECT id, status FROM tasks",
        );
        lemma_no_placeholders(SELECT_STATUSES@);
    }
}

} // verus!
